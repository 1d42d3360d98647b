//! The values that a chat reply is filled with, and the filling of a
//! format: each `{name}` in the format gives way to the value of that name,
//! and white space is tidied.

use crate::beatmap::{status_text, text_view, BeatmapData, BeatmapDataView};
use crate::text::{
    chars_of, collapse_spaces, collapsed, push_signed_decimal, push_text, replace_all, replaced,
    signed_decimal, string_of,
};
use vstd::prelude::*;
use vstd::string::*;

verus! {

/// The performance points of a beatmap at five accuracies, each as the text
/// that a reply shows.
#[derive(Debug, Clone, PartialEq)]
pub struct PpTexts {
    pub pp_95: String,
    pub pp_97: String,
    pub pp_98: String,
    pub pp_99: String,
    pub pp_100: String,
}

/// The values that a reply can be filled with. A value that is absent
/// leaves its placeholder in the reply as it stands.
#[derive(Debug, Clone, PartialEq)]
pub struct Placeholders {
    pub id: Option<String>,
    pub artist: Option<String>,
    pub title: Option<String>,
    pub diff: Option<String>,
    pub creator: Option<String>,
    pub status: Option<String>,
    pub link: Option<String>,
    pub mods: Option<String>,
    pub pp_95: Option<String>,
    pub pp_97: Option<String>,
    pub pp_98: Option<String>,
    pub pp_99: Option<String>,
    pub pp_100: Option<String>,
}

/// `Placeholders` as mathematics.
pub struct PlaceholdersView {
    pub id: Option<Seq<char>>,
    pub artist: Option<Seq<char>>,
    pub title: Option<Seq<char>>,
    pub diff: Option<Seq<char>>,
    pub creator: Option<Seq<char>>,
    pub status: Option<Seq<char>>,
    pub link: Option<Seq<char>>,
    pub mods: Option<Seq<char>>,
    pub pp_95: Option<Seq<char>>,
    pub pp_97: Option<Seq<char>>,
    pub pp_98: Option<Seq<char>>,
    pub pp_99: Option<Seq<char>>,
    pub pp_100: Option<Seq<char>>,
}

impl View for Placeholders {
    type V = PlaceholdersView;

    open spec fn view(&self) -> PlaceholdersView {
        PlaceholdersView {
            id: text_view(self.id),
            artist: text_view(self.artist),
            title: text_view(self.title),
            diff: text_view(self.diff),
            creator: text_view(self.creator),
            status: text_view(self.status),
            link: text_view(self.link),
            mods: text_view(self.mods),
            pp_95: text_view(self.pp_95),
            pp_97: text_view(self.pp_97),
            pp_98: text_view(self.pp_98),
            pp_99: text_view(self.pp_99),
            pp_100: text_view(self.pp_100),
        }
    }
}

/// No value at all.
pub open spec fn no_values() -> PlaceholdersView {
    PlaceholdersView {
        id: None,
        artist: None,
        title: None,
        diff: None,
        creator: None,
        status: None,
        link: None,
        mods: None,
        pp_95: None,
        pp_97: None,
        pp_98: None,
        pp_99: None,
        pp_100: None,
    }
}

/// The link to a beatmap's page; empty for a beatmap that was never
/// submitted.
pub open spec fn beatmap_link(id: int) -> Seq<char> {
    if id <= 0 {
        Seq::empty()
    } else {
        "https://osu.ppy.sh/b/"@ + signed_decimal(id)
    }
}

/// The values that a snapshot gives: its texts, its id in decimal, the
/// words of its status, the link to its page, and its modifiers behind a
/// plus sign, or nothing where the snapshot has no modifier data.
pub open spec fn values_of(b: BeatmapDataView) -> PlaceholdersView {
    PlaceholdersView {
        id: Some(signed_decimal(b.id)),
        artist: Some(b.artist),
        title: Some(b.title),
        diff: Some(b.difficulty_name),
        creator: Some(b.creator),
        status: Some(status_text(b.status)),
        link: Some(beatmap_link(b.id)),
        mods: Some(
            match b.mods {
                Some(m) => seq!['+'] + m.mods_string,
                None => Seq::empty(),
            },
        ),
        ..no_values()
    }
}

/// `text` with each `key` replaced by `value`, where there is a value.
pub open spec fn filled(text: Seq<char>, key: Seq<char>, value: Option<Seq<char>>) -> Seq<char> {
    match value {
        Some(v) => replaced(text, key, v),
        None => text,
    }
}

/// The reply to a request for the beatmap that is playing: the format with
/// id, artist, title, difficulty, creator, status, link and modifiers filled
/// in, in that order, and white space tidied.
pub open spec fn np_reply(p: PlaceholdersView, format: Seq<char>) -> Seq<char> {
    let a = filled(format, "{id}"@, p.id);
    let b = filled(a, "{artist}"@, p.artist);
    let c = filled(b, "{title}"@, p.title);
    let d = filled(c, "{diff}"@, p.diff);
    let e = filled(d, "{creator}"@, p.creator);
    let f = filled(e, "{status}"@, p.status);
    let g = filled(f, "{link}"@, p.link);
    let h = filled(g, "{mods}"@, p.mods);
    collapsed(h)
}

/// The reply to a request for performance points: the format with the
/// modifiers and the five values filled in, in that order, and white space
/// tidied.
pub open spec fn pp_reply(p: PlaceholdersView, format: Seq<char>) -> Seq<char> {
    let a = filled(format, "{mods}"@, p.mods);
    let b = filled(a, "{pp_95}"@, p.pp_95);
    let c = filled(b, "{pp_97}"@, p.pp_97);
    let d = filled(c, "{pp_98}"@, p.pp_98);
    let e = filled(d, "{pp_99}"@, p.pp_99);
    let f = filled(e, "{pp_100}"@, p.pp_100);
    collapsed(f)
}

fn some_text(text: &str) -> (value: Option<String>)
    ensures
        text_view(value) == Some(text@),
{
    Some(String::from_str(text))
}

impl Default for Placeholders {
    /// No value at all.
    fn default() -> (values: Placeholders)
        ensures
            values@ == no_values(),
    {
        Placeholders {
            id: None,
            artist: None,
            title: None,
            diff: None,
            creator: None,
            status: None,
            link: None,
            mods: None,
            pp_95: None,
            pp_97: None,
            pp_98: None,
            pp_99: None,
            pp_100: None,
        }
    }
}

impl Placeholders {
    /// The values that a snapshot gives.
    pub fn from_beatmap(beatmap: &BeatmapData) -> (values: Placeholders)
        ensures
            values@ == values_of(beatmap@),
    {
        let mods: String = match &beatmap.mods {
            Some(m) => String::from_str("+").concat(m.mods_string.as_str()),
            None => String::new(),
        };
        proof {
            reveal_strlit("+");
            assert("+"@ =~= seq!['+']);
        }
        let mut id: Vec<char> = Vec::new();
        push_signed_decimal(&mut id, beatmap.id as i64);
        let link: String = if beatmap.id <= 0 {
            String::new()
        } else {
            let mut text: Vec<char> = Vec::new();
            push_text(&mut text, "https://osu.ppy.sh/b/");
            push_signed_decimal(&mut text, beatmap.id as i64);
            string_of(&text)
        };
        Placeholders {
            id: Some(string_of(&id)),
            artist: Some(beatmap.artist.clone()),
            title: Some(beatmap.title.clone()),
            diff: Some(beatmap.difficulty_name.clone()),
            creator: Some(beatmap.creator.clone()),
            status: Some(beatmap.status.to_text()),
            link: Some(link),
            mods: Some(mods),
            pp_95: None,
            pp_97: None,
            pp_98: None,
            pp_99: None,
            pp_100: None,
        }
    }

    /// These values with the five performance values set.
    pub fn with_pp(self, pp: &PpTexts) -> (values: Placeholders)
        ensures
            values@ == (PlaceholdersView {
                pp_95: Some(pp.pp_95@),
                pp_97: Some(pp.pp_97@),
                pp_98: Some(pp.pp_98@),
                pp_99: Some(pp.pp_99@),
                pp_100: Some(pp.pp_100@),
                ..self@
            }),
    {
        let mut values = self;
        values.pp_95 = Some(pp.pp_95.clone());
        values.pp_97 = Some(pp.pp_97.clone());
        values.pp_98 = Some(pp.pp_98.clone());
        values.pp_99 = Some(pp.pp_99.clone());
        values.pp_100 = Some(pp.pp_100.clone());
        values
    }

    /// Made-up values of a beatmap, for a preview of a format.
    pub fn sample() -> (values: Placeholders)
        ensures
            values@ == (PlaceholdersView {
                id: Some("123456"@),
                artist: Some("Artist"@),
                title: Some("Title"@),
                diff: Some("Difficulty"@),
                creator: Some("Creator"@),
                status: Some("Ranked"@),
                link: Some("https://osu.ppy.sh/b/123456"@),
                mods: Some("+NoMod"@),
                ..no_values()
            }),
    {
        Placeholders {
            id: some_text("123456"),
            artist: some_text("Artist"),
            title: some_text("Title"),
            diff: some_text("Difficulty"),
            creator: some_text("Creator"),
            status: some_text("Ranked"),
            link: some_text("https://osu.ppy.sh/b/123456"),
            mods: some_text("+NoMod"),
            pp_95: None,
            pp_97: None,
            pp_98: None,
            pp_99: None,
            pp_100: None,
        }
    }

    /// Made-up performance values, for a preview of a format.
    pub fn sample_pp() -> (values: Placeholders)
        ensures
            values@ == (PlaceholdersView {
                mods: Some("+NoMod"@),
                pp_95: Some("350"@),
                pp_97: Some("400"@),
                pp_98: Some("450"@),
                pp_99: Some("500"@),
                pp_100: Some("550"@),
                ..no_values()
            }),
    {
        Placeholders {
            id: None,
            artist: None,
            title: None,
            diff: None,
            creator: None,
            status: None,
            link: None,
            mods: some_text("+NoMod"),
            pp_95: some_text("350"),
            pp_97: some_text("400"),
            pp_98: some_text("450"),
            pp_99: some_text("500"),
            pp_100: some_text("550"),
        }
    }

    /// Replaces each `placeholder` in `result` by `value`, where there is a
    /// value.
    fn replace(result: &mut Vec<char>, placeholder: &str, value: &Option<String>)
        ensures
            final(result)@ == filled(old(result)@, placeholder@, text_view(*value)),
    {
        match value {
            Some(v) => {
                let key = chars_of(placeholder);
                let with = chars_of(v.as_str());
                let next = replace_all(result, &key, &with);
                *result = next;
            },
            None => {},
        }
    }

    /// Tidies white space: one blank for each run, none at either end.
    fn trim(s: &Vec<char>) -> (tidy: String)
        ensures
            tidy@ == collapsed(s@),
    {
        let tidy = collapse_spaces(s);
        string_of(&tidy)
    }

    /// Fills in a format for the beatmap that is playing.
    pub fn apply_np(&self, format: &str) -> (reply: String)
        ensures
            reply@ == np_reply(self@, format@),
    {
        let mut result = chars_of(format);
        Self::replace(&mut result, "{id}", &self.id);
        Self::replace(&mut result, "{artist}", &self.artist);
        Self::replace(&mut result, "{title}", &self.title);
        Self::replace(&mut result, "{diff}", &self.diff);
        Self::replace(&mut result, "{creator}", &self.creator);
        Self::replace(&mut result, "{status}", &self.status);
        Self::replace(&mut result, "{link}", &self.link);
        Self::replace(&mut result, "{mods}", &self.mods);
        Self::trim(&result)
    }

    /// Fills in a format for performance points.
    pub fn apply_pp(&self, format: &str) -> (reply: String)
        ensures
            reply@ == pp_reply(self@, format@),
    {
        let mut result = chars_of(format);
        Self::replace(&mut result, "{mods}", &self.mods);
        Self::replace(&mut result, "{pp_95}", &self.pp_95);
        Self::replace(&mut result, "{pp_97}", &self.pp_97);
        Self::replace(&mut result, "{pp_98}", &self.pp_98);
        Self::replace(&mut result, "{pp_99}", &self.pp_99);
        Self::replace(&mut result, "{pp_100}", &self.pp_100);
        Self::trim(&result)
    }
}

} // verus!
