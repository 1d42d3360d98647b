//! The snapshot that one read of a client yields.

use crate::mods::{GameplayMods, GameplayModsView};
use vstd::prelude::*;
use vstd::string::*;

verus! {

/// Where a beatmap stands with the game's servers.
#[derive(Debug, Clone, Copy, PartialEq, Eq, Structural)]
pub enum BeatmapStatus {
    Unknown,
    NotSubmitted,
    Wip,
    Pending,
    Ranked,
    Approved,
    Qualified,
    Loved,
    Graveyard,
    StablePending,
}

/// The status that the newer client's code stands for: -4 not submitted, -2
/// graveyard, -1 work in progress, 0 pending, 1 ranked, 2 approved, 3
/// qualified, 4 loved; unknown for every other code.
pub open spec fn lazer_status_of(code: int) -> BeatmapStatus {
    if code == -4 {
        BeatmapStatus::NotSubmitted
    } else if code == -2 {
        BeatmapStatus::Graveyard
    } else if code == -1 {
        BeatmapStatus::Wip
    } else if code == 0 {
        BeatmapStatus::Pending
    } else if code == 1 {
        BeatmapStatus::Ranked
    } else if code == 2 {
        BeatmapStatus::Approved
    } else if code == 3 {
        BeatmapStatus::Qualified
    } else if code == 4 {
        BeatmapStatus::Loved
    } else {
        BeatmapStatus::Unknown
    }
}

/// The status that the older client's code stands for: 1 not submitted, 2
/// pending or graveyard, 4 ranked, 5 approved, 6 qualified, 7 loved; unknown
/// for 0, 3 and every other code.
pub open spec fn stable_status_of(code: int) -> BeatmapStatus {
    if code == 1 {
        BeatmapStatus::NotSubmitted
    } else if code == 2 {
        BeatmapStatus::StablePending
    } else if code == 4 {
        BeatmapStatus::Ranked
    } else if code == 5 {
        BeatmapStatus::Approved
    } else if code == 6 {
        BeatmapStatus::Qualified
    } else if code == 7 {
        BeatmapStatus::Loved
    } else {
        BeatmapStatus::Unknown
    }
}

/// The words that a status is shown with.
pub open spec fn status_text(status: BeatmapStatus) -> Seq<char> {
    match status {
        BeatmapStatus::Unknown => "Unknown"@,
        BeatmapStatus::NotSubmitted => "Local/Not Submitted"@,
        BeatmapStatus::Wip => "WIP"@,
        BeatmapStatus::Pending => "Pending"@,
        BeatmapStatus::Ranked => "Ranked"@,
        BeatmapStatus::Approved => "Approved"@,
        BeatmapStatus::Qualified => "Qualified"@,
        BeatmapStatus::Loved => "Loved"@,
        BeatmapStatus::Graveyard => "Graveyard"@,
        BeatmapStatus::StablePending => "Pending/Graveyard"@,
    }
}

impl BeatmapStatus {
    /// The status that the newer client's code stands for.
    pub fn from_lazer_code(code: i32) -> (status: BeatmapStatus)
        ensures
            status == lazer_status_of(code as int),
    {
        if code == -4 {
            BeatmapStatus::NotSubmitted
        } else if code == -2 {
            BeatmapStatus::Graveyard
        } else if code == -1 {
            BeatmapStatus::Wip
        } else if code == 0 {
            BeatmapStatus::Pending
        } else if code == 1 {
            BeatmapStatus::Ranked
        } else if code == 2 {
            BeatmapStatus::Approved
        } else if code == 3 {
            BeatmapStatus::Qualified
        } else if code == 4 {
            BeatmapStatus::Loved
        } else {
            BeatmapStatus::Unknown
        }
    }

    /// The status that the older client's code stands for.
    pub fn from_stable_code(code: i32) -> (status: BeatmapStatus)
        ensures
            status == stable_status_of(code as int),
    {
        if code == 1 {
            BeatmapStatus::NotSubmitted
        } else if code == 2 {
            BeatmapStatus::StablePending
        } else if code == 4 {
            BeatmapStatus::Ranked
        } else if code == 5 {
            BeatmapStatus::Approved
        } else if code == 6 {
            BeatmapStatus::Qualified
        } else if code == 7 {
            BeatmapStatus::Loved
        } else {
            BeatmapStatus::Unknown
        }
    }

    /// The words that this status is shown with.
    pub fn to_text(&self) -> (text: String)
        ensures
            text@ == status_text(*self),
    {
        match self {
            BeatmapStatus::Unknown => String::from_str("Unknown"),
            BeatmapStatus::NotSubmitted => String::from_str("Local/Not Submitted"),
            BeatmapStatus::Wip => String::from_str("WIP"),
            BeatmapStatus::Pending => String::from_str("Pending"),
            BeatmapStatus::Ranked => String::from_str("Ranked"),
            BeatmapStatus::Approved => String::from_str("Approved"),
            BeatmapStatus::Qualified => String::from_str("Qualified"),
            BeatmapStatus::Loved => String::from_str("Loved"),
            BeatmapStatus::Graveyard => String::from_str("Graveyard"),
            BeatmapStatus::StablePending => String::from_str("Pending/Graveyard"),
        }
    }
}

/// What one read of a client found: the selected beatmap, the modifiers of
/// the play in progress, and where the beatmap's file lies. An id of zero or
/// less means that the beatmap was never submitted.
#[derive(Debug, Clone, PartialEq)]
pub struct BeatmapData {
    pub id: i32,
    pub artist: String,
    pub title: String,
    pub difficulty_name: String,
    pub creator: String,
    pub status: BeatmapStatus,
    pub mods: Option<GameplayMods>,
    pub osu_file_path: Option<String>,
    pub songs_folder: Option<String>,
}

/// A `BeatmapData` as mathematics.
pub struct BeatmapDataView {
    pub id: int,
    pub artist: Seq<char>,
    pub title: Seq<char>,
    pub difficulty_name: Seq<char>,
    pub creator: Seq<char>,
    pub status: BeatmapStatus,
    pub mods: Option<GameplayModsView>,
    pub osu_file_path: Option<Seq<char>>,
    pub songs_folder: Option<Seq<char>>,
}

/// The characters of an optional text.
pub open spec fn text_view(text: Option<String>) -> Option<Seq<char>> {
    match text {
        Some(t) => Some(t@),
        None => None,
    }
}

/// The view of optional modifiers.
pub open spec fn mods_view(mods: Option<GameplayMods>) -> Option<GameplayModsView> {
    match mods {
        Some(m) => Some(m@),
        None => None,
    }
}

impl View for BeatmapData {
    type V = BeatmapDataView;

    open spec fn view(&self) -> BeatmapDataView {
        BeatmapDataView {
            id: self.id as int,
            artist: self.artist@,
            title: self.title@,
            difficulty_name: self.difficulty_name@,
            creator: self.creator@,
            status: self.status,
            mods: mods_view(self.mods),
            osu_file_path: text_view(self.osu_file_path),
            songs_folder: text_view(self.songs_folder),
        }
    }
}

/// The snapshot for a client that has no beatmap selected: id zero, a
/// question mark for each text, status unknown, nothing else.
pub open spec fn unknown_beatmap() -> BeatmapDataView {
    BeatmapDataView {
        id: 0,
        artist: "?"@,
        title: "?"@,
        difficulty_name: "?"@,
        creator: "?"@,
        status: BeatmapStatus::Unknown,
        mods: None,
        osu_file_path: None,
        songs_folder: None,
    }
}

/// The view of an optional snapshot.
pub open spec fn snapshot_view(snapshot: Option<BeatmapData>) -> Option<BeatmapDataView> {
    match snapshot {
        Some(b) => Some(b@),
        None => None,
    }
}

/// A copy of an optional text.
pub fn duplicate_text(text: &Option<String>) -> (copy: Option<String>)
    ensures
        text_view(copy) == text_view(*text),
{
    match text {
        Some(t) => Some(t.clone()),
        None => None,
    }
}

impl BeatmapData {
    /// The snapshot for a client that has no beatmap selected.
    pub fn unknown() -> (data: BeatmapData)
        ensures
            data@ == unknown_beatmap(),
    {
        BeatmapData {
            id: 0,
            artist: String::from_str("?"),
            title: String::from_str("?"),
            difficulty_name: String::from_str("?"),
            creator: String::from_str("?"),
            status: BeatmapStatus::Unknown,
            mods: None,
            osu_file_path: None,
            songs_folder: None,
        }
    }

    /// A copy of this snapshot.
    pub fn duplicate(&self) -> (copy: BeatmapData)
        ensures
            copy@ == self@,
    {
        let mods = match &self.mods {
            Some(m) => Some(m.duplicate()),
            None => None,
        };
        BeatmapData {
            id: self.id,
            artist: self.artist.clone(),
            title: self.title.clone(),
            difficulty_name: self.difficulty_name.clone(),
            creator: self.creator.clone(),
            status: self.status,
            mods,
            osu_file_path: duplicate_text(&self.osu_file_path),
            songs_folder: duplicate_text(&self.songs_folder),
        }
    }
}

/// A copy of an optional snapshot.
pub fn duplicate_snapshot(snapshot: &Option<BeatmapData>) -> (copy: Option<BeatmapData>)
    ensures
        snapshot_view(copy) == snapshot_view(*snapshot),
{
    match snapshot {
        Some(b) => Some(b.duplicate()),
        None => None,
    }
}

/// Each code of the newer client's table has its own status, and every
/// other code is unknown.
pub proof fn lemma_lazer_codes(code: int)
    ensures
        lazer_status_of(-4) == BeatmapStatus::NotSubmitted,
        lazer_status_of(-2) == BeatmapStatus::Graveyard,
        lazer_status_of(-1) == BeatmapStatus::Wip,
        lazer_status_of(0) == BeatmapStatus::Pending,
        lazer_status_of(1) == BeatmapStatus::Ranked,
        lazer_status_of(2) == BeatmapStatus::Approved,
        lazer_status_of(3) == BeatmapStatus::Qualified,
        lazer_status_of(4) == BeatmapStatus::Loved,
        code < -4 || code == -3 || code > 4 ==> lazer_status_of(code) == BeatmapStatus::Unknown,
{
}

/// Each code of the older client's table has its own status, and every
/// other code is unknown.
pub proof fn lemma_stable_codes(code: int)
    ensures
        stable_status_of(0) == BeatmapStatus::Unknown,
        stable_status_of(1) == BeatmapStatus::NotSubmitted,
        stable_status_of(2) == BeatmapStatus::StablePending,
        stable_status_of(3) == BeatmapStatus::Unknown,
        stable_status_of(4) == BeatmapStatus::Ranked,
        stable_status_of(5) == BeatmapStatus::Approved,
        stable_status_of(6) == BeatmapStatus::Qualified,
        stable_status_of(7) == BeatmapStatus::Loved,
        code < 0 || code > 7 ==> stable_status_of(code) == BeatmapStatus::Unknown,
{
}

} // verus!
