//! The reader for the newer client: from a signature in the client's code
//! over three links to the game object, and from there to the selected
//! beatmap, the play in progress and the place of the beatmap's file.

use crate::beatmap::{mods_view, lazer_status_of, unknown_beatmap, BeatmapData, BeatmapDataView, BeatmapStatus};
use crate::errors::{error_text, MemoryError, MemoryErrorView};
use crate::memory::{
    anchor, i32_at, lemma_outside_address_space, offset_address, ptr_at, ProcessMemory,
    RegionView,
};
use crate::mods::{no_mods, acronyms, display_of, mod_views, GameplayMods, GameplayModsView, ModInfo, ModInfoView};
use crate::offsets::LazerOffsets;
use crate::scan::{parse_pattern, signature_bytes, signature_mask};
use crate::strings::{
    csharp, csharp_layout, read_string_at, string_at, unreadable_error,
};
use crate::text::{chars_of, is_text, push_range, string_of};
use vstd::prelude::*;
use vstd::string::*;

verus! {

/// The error for a link that could not be read: what was being read, then
/// the sentence of the read failure.
pub open spec fn failed_link(what: Seq<char>) -> MemoryErrorView {
    MemoryErrorView::ReadFailed(what + error_text(unreadable_error()))
}

/// One link of the chain to the game object: the pointer at `addr`. A
/// pointer that cannot be read and a null pointer both end the chain, each
/// with its own text.
pub open spec fn named_link(
    m: Seq<RegionView>,
    addr: int,
    null_text: Seq<char>,
    failed_text: Seq<char>,
) -> Result<int, MemoryErrorView> {
    match ptr_at(m, addr) {
        None => Err(failed_link(failed_text)),
        Some(target) => if target == 0 {
            Err(MemoryErrorView::ReadFailed(null_text))
        } else {
            Ok(target)
        },
    }
}

/// The address of the game object: the anchor that the base signature
/// finds, and three links from there.
pub open spec fn lazer_root(m: Seq<RegionView>, offsets: LazerOffsets) -> Result<
    int,
    MemoryErrorView,
> {
    match anchor(
        m,
        signature_bytes(offsets.patterns.base@),
        signature_mask(offsets.patterns.base@),
    ) {
        None => Err(MemoryErrorView::PatternNotFound),
        Some(found) => match named_link(
            m,
            found + offsets.base.external_link_opener,
            "ExternalLinkOpener pointer is null"@,
            "Failed to read ExternalLinkOpener: "@,
        ) {
            Err(e) => Err(e),
            Ok(opener) => match named_link(
                m,
                opener + offsets.external_link_opener.api,
                "API pointer is null"@,
                "Failed to read API: "@,
            ) {
                Err(e) => Err(e),
                Ok(api) => named_link(
                    m,
                    api + offsets.api_access.game,
                    "Game base pointer is null"@,
                    "Failed to read game base: "@,
                ),
            },
        },
    }
}

/// The pointer at `addr`, where it can be read and is not null.
pub open spec fn live_link(m: Seq<RegionView>, addr: int) -> Option<int> {
    match ptr_at(m, addr) {
        Some(target) => if target != 0 {
            Some(target)
        } else {
            None
        },
        None => None,
    }
}

/// The screen on top of the client's stack of screens: game object, screen
/// stack, its list, the list's count and items, and the last item.
pub open spec fn current_screen(m: Seq<RegionView>, offsets: LazerOffsets, game_base: int) -> Option<
    int,
> {
    match live_link(m, game_base + offsets.osu_game.screen_stack) {
        None => None,
        Some(screen_stack) => match live_link(m, screen_stack + offsets.screen_stack.stack) {
            None => None,
            Some(stack) => match i32_at(m, stack + 0x10) {
                None => None,
                Some(count) => if count <= 0 {
                    None
                } else {
                    match live_link(m, stack + 0x8) {
                        None => None,
                        Some(items) => live_link(m, items + 0x10 + 0x8 * (count - 1)),
                    }
                },
            },
        },
    }
}

/// The score description behind a screen on which a play is in progress.
pub open spec fn score_info_of(m: Seq<RegionView>, offsets: LazerOffsets, screen: int) -> Option<
    int,
> {
    match live_link(m, screen + offsets.player.score) {
        None => None,
        Some(score) => live_link(m, score + 0x8),
    }
}

/// A decoded string, where decoding succeeded.
pub open spec fn decoded(r: Result<Seq<char>, MemoryErrorView>) -> Option<Seq<char>> {
    match r {
        Ok(text) => Some(text),
        Err(_) => None,
    }
}

/// The JSON text in which the client lists the modifiers of the play in
/// progress; none where no play is in progress or a link of the chain
/// cannot be followed.
pub open spec fn mods_json_at(m: Seq<RegionView>, offsets: LazerOffsets, game_base: int) -> Option<
    Seq<char>,
> {
    match current_screen(m, offsets, game_base) {
        None => None,
        Some(screen) => match score_info_of(m, offsets, screen) {
            None => None,
            Some(info) => decoded(
                string_at(m, info + offsets.score_info.mods_json, csharp_layout()),
            ),
        },
    }
}

/// Whether the JSON text of a list of modifiers has to be decoded: the empty
/// text and the empty list `[]` need not be.
pub open spec fn needs_decoding(json: Seq<char>) -> bool {
    json.len() != 0 && json != "[]"@
}

/// The modifiers that a JSON text and its decoded form stand for: none at
/// all for a text that needs no decoding, the decoded list with its display
/// string otherwise, and no modifier data where the text could not be
/// decoded.
pub open spec fn json_mods(json: Seq<char>, list: Option<Seq<ModInfoView>>) -> Option<
    GameplayModsView,
> {
    if !needs_decoding(json) {
        Some(no_mods())
    } else {
        match list {
            Some(mods) => Some(GameplayModsView { mods, mods_string: display_of(acronyms(mods)) }),
            None => None,
        }
    }
}

/// The view of an optional list of modifiers.
pub open spec fn list_view(list: Option<Vec<ModInfo>>) -> Option<Seq<ModInfoView>> {
    match list {
        Some(mods) => Some(mod_views(mods@)),
        None => None,
    }
}

/// Whether `list` is what `decode` made of a text that reads `json`.
pub open spec fn decoded_by<F: Fn(&str) -> Option<Vec<ModInfo>>>(
    decode: F,
    json: Seq<char>,
    list: Option<Vec<ModInfo>>,
) -> bool {
    exists|text: &str| text@ == json && #[trigger] decode.ensures((text,), list)
}

/// Whether `mods` is what a client with the modifier text `json` is playing
/// with, `decode` being the decoder of such texts.
pub open spec fn mods_read<F: Fn(&str) -> Option<Vec<ModInfo>>>(
    decode: F,
    json: Option<Seq<char>>,
    mods: Option<GameplayModsView>,
) -> bool {
    match json {
        None => mods is None,
        Some(text) => if needs_decoding(text) {
            exists|list: Option<Vec<ModInfo>>| #[trigger]
                decoded_by(decode, text, list) && mods == json_mods(text, list_view(list))
        } else {
            mods == Some(no_mods())
        },
    }
}

/// The directory path under which the client files a beatmap with content
/// hash `hash`: its first character, its first two characters, and the hash.
pub open spec fn hashed_path(hash: Seq<char>) -> Seq<char> {
    hash.subrange(0, 1) + seq!['/'] + hash.subrange(0, 2) + seq!['/'] + hash
}

/// The root path of the client's storage; none where the offsets of the
/// build do not say where it stands or a link cannot be followed.
pub open spec fn storage_base_path(
    m: Seq<RegionView>,
    offsets: LazerOffsets,
    game_base: int,
) -> Option<Seq<char>> {
    match live_link(m, game_base + offsets.osu_game_base.storage) {
        None => None,
        Some(storage) => {
            let underlying = if offsets.wrapped_storage.underlying_storage != 0 {
                match ptr_at(m, storage + offsets.wrapped_storage.underlying_storage) {
                    Some(inner) => inner,
                    None => storage,
                }
            } else {
                storage
            };
            if underlying == 0 || offsets.storage.base_path == 0 {
                None
            } else {
                decoded(string_at(m, underlying + offsets.storage.base_path, csharp_layout()))
            }
        },
    }
}

/// Where the beatmap's file lies: its path below the folder of files, and
/// that folder. Both are there or neither is.
pub open spec fn file_info(
    m: Seq<RegionView>,
    offsets: LazerOffsets,
    game_base: int,
    beatmap_info: int,
) -> (Option<Seq<char>>, Option<Seq<char>>) {
    let hash = if offsets.beatmap_info.hash != 0 {
        decoded(string_at(m, beatmap_info + offsets.beatmap_info.hash, csharp_layout()))
    } else {
        None
    };
    let base = if offsets.osu_game_base.storage != 0 {
        storage_base_path(m, offsets, game_base)
    } else {
        None
    };
    match (hash, base) {
        (Some(h), Some(b)) => if h.len() >= 2 {
            (Some(hashed_path(h)), Some(b + "/files"@))
        } else {
            (None, None)
        },
        _ => (None, None),
    }
}

/// A decoded string, or a question mark where decoding failed.
pub open spec fn text_or_unknown(r: Result<Seq<char>, MemoryErrorView>) -> Seq<char> {
    match r {
        Ok(text) => text,
        Err(_) => "?"@,
    }
}

/// A number that was read, or `fallback` where the read failed.
pub open spec fn number_or(read: Option<int>, fallback: int) -> int {
    match read {
        Some(v) => v,
        None => fallback,
    }
}

/// The description of the selected beatmap: the game object's beatmap
/// binding, the working beatmap behind it, and its description. `Ok(None)`
/// stands for a client without a selected beatmap.
pub open spec fn beatmap_info_at(m: Seq<RegionView>, offsets: LazerOffsets, game_base: int) -> Result<
    Option<int>,
    MemoryErrorView,
> {
    if game_base == 0 {
        Err(MemoryErrorView::ReadFailed("Game base not set."@))
    } else {
        match ptr_at(m, game_base + offsets.osu_game_base.beatmap) {
            None => Err(failed_link("Failed to read beatmap bindable: "@)),
            Some(bindable) => if bindable == 0 {
                Ok(None)
            } else {
                match ptr_at(m, bindable + 0x20) {
                    None => Err(failed_link("Failed to read working beatmap: "@)),
                    Some(working) => if working == 0 {
                        Ok(None)
                    } else {
                        match ptr_at(m, working + offsets.working_beatmap.beatmap_info) {
                            None => Err(failed_link("Failed to read beatmap info: "@)),
                            Some(info) => if info == 0 {
                                Ok(None)
                            } else {
                                Ok(Some(info))
                            },
                        }
                    },
                }
            },
        }
    }
}

/// The snapshot for the beatmap whose description stands at `info`. A field
/// that cannot be read takes its fallback: zero for the id, the code of a
/// work in progress for the status, a question mark for a text.
pub open spec fn lazer_fields(
    m: Seq<RegionView>,
    offsets: LazerOffsets,
    game_base: int,
    info: int,
    mods: Option<GameplayModsView>,
) -> BeatmapDataView {
    let metadata = number_or(ptr_at(m, info + offsets.beatmap_info.metadata), 0);
    let author = if metadata == 0 {
        0
    } else {
        number_or(ptr_at(m, metadata + offsets.beatmap_metadata.author), 0)
    };
    let files = file_info(m, offsets, game_base, info);
    BeatmapDataView {
        id: number_or(i32_at(m, info + offsets.beatmap_info.online_id), 0),
        artist: if metadata != 0 {
            text_or_unknown(
                string_at(m, metadata + offsets.beatmap_metadata.artist, csharp_layout()),
            )
        } else {
            "?"@
        },
        title: if metadata != 0 {
            text_or_unknown(
                string_at(m, metadata + offsets.beatmap_metadata.title, csharp_layout()),
            )
        } else {
            "?"@
        },
        difficulty_name: text_or_unknown(
            string_at(m, info + offsets.beatmap_info.difficulty_name, csharp_layout()),
        ),
        creator: if author != 0 {
            text_or_unknown(string_at(m, author + offsets.realm_user.username, csharp_layout()))
        } else {
            "?"@
        },
        status: lazer_status_of(number_or(i32_at(m, info + offsets.beatmap_info.status), -1)),
        mods,
        osu_file_path: files.0,
        songs_folder: files.1,
    }
}

/// Reads the newer client. It holds the offsets of the client's build and
/// the address of the game object.
#[derive(Debug, Clone, PartialEq)]
pub struct LazerReader {
    offsets: LazerOffsets,
    game_base: usize,
}

/// Follows one link of the chain to the game object.
fn follow(process: &ProcessMemory, addr: Option<usize>, Ghost(at): Ghost<int>, null_text: &str, failed_text: &str) -> (r: Result<usize, MemoryError>)
    requires
        match addr {
            Some(a) => a == at,
            None => at < 0 || at > usize::MAX,
        },
    ensures
        match r {
            Ok(target) => named_link(process@, at, null_text@, failed_text@) == Ok::<
                int,
                MemoryErrorView,
            >(target as int),
            Err(e) => named_link(process@, at, null_text@, failed_text@) == Err::<
                int,
                MemoryErrorView,
            >(e@),
        },
{
    let read = match addr {
        Some(a) => process.read_ptr(a),
        None => {
            proof {
                use_type_invariant(process);
                lemma_outside_address_space(process@, at, 8);
                lemma_outside_address_space(process@, at, 4);
            }
            Err(MemoryError::read_failed("address range is not readable"))
        },
    };
    match read {
        Ok(target) => {
            if target == 0 {
                Err(MemoryError::read_failed(null_text))
            } else {
                Ok(target)
            }
        },
        Err(e) => Err(describe_failure(failed_text, &e)),
    }
}

/// The error for something that could not be read: what was being read,
/// then the sentence of the failure.
pub fn describe_failure(what: &str, cause: &MemoryError) -> (error: MemoryError)
    ensures
        error@ == MemoryErrorView::ReadFailed(what@ + error_text(cause@)),
{
    MemoryError::ReadFailed(String::from_str(what).concat(cause.to_text().as_str()))
}

/// The pointer `offset` bytes behind `base`, where it can be read and is
/// not null.
pub fn read_live(process: &ProcessMemory, base: usize, offset: usize) -> (target: Option<usize>)
    ensures
        match target {
            Some(t) => live_link(process@, base + offset) == Some(t as int),
            None => live_link(process@, base + offset) is None,
        },
{
    match process.read_ptr_at(base, offset) {
        Ok(t) => if t != 0 {
            Some(t)
        } else {
            None
        },
        Err(_) => None,
    }
}

impl LazerReader {
    /// The offsets that this reader works with.
    pub closed spec fn spec_offsets(&self) -> LazerOffsets {
        self.offsets
    }

    /// The address of the game object.
    pub closed spec fn spec_game_base(&self) -> int {
        self.game_base as int
    }

    /// A reader for a client whose game object stands at `game_base`.
    pub fn from_parts(offsets: LazerOffsets, game_base: usize) -> (reader: LazerReader)
        ensures
            reader.spec_offsets() == offsets,
            reader.spec_game_base() == game_base,
    {
        LazerReader { offsets, game_base }
    }

    /// The address of the game object.
    pub fn game_base(&self) -> (addr: usize)
        ensures
            addr == self.spec_game_base(),
    {
        self.game_base
    }

    /// Finds the game object of the client captured in `process`: scans for
    /// the base signature and follows three links. A signature that is not
    /// found, a link that cannot be read and a null link each end the search
    /// with their error.
    pub fn new(process: &ProcessMemory, offsets: LazerOffsets) -> (made: Result<
        LazerReader,
        MemoryError,
    >)
        ensures
            match made {
                Ok(reader) => {
                    &&& lazer_root(process@, offsets) == Ok::<int, MemoryErrorView>(
                        reader.spec_game_base(),
                    )
                    &&& reader.spec_offsets() == offsets
                },
                Err(e) => lazer_root(process@, offsets) == Err::<int, MemoryErrorView>(e@),
            },
    {
        let (pattern, mask) = parse_pattern(offsets.patterns.base.as_str());
        let found = process.pattern_scan(pattern.as_slice(), mask.as_slice())?;
        let opener = follow(
            process,
            crate::memory::signed_address(found, offsets.base.external_link_opener),
            Ghost(found + offsets.base.external_link_opener),
            "ExternalLinkOpener pointer is null",
            "Failed to read ExternalLinkOpener: ",
        )?;
        let api = follow(
            process,
            offset_address(opener, offsets.external_link_opener.api),
            Ghost(opener + offsets.external_link_opener.api),
            "API pointer is null",
            "Failed to read API: ",
        )?;
        let game_base = follow(
            process,
            offset_address(api, offsets.api_access.game),
            Ghost(api + offsets.api_access.game),
            "Game base pointer is null",
            "Failed to read game base: ",
        )?;
        Ok(LazerReader { offsets, game_base })
    }

    /// Finds the screen on top of the client's stack of screens.
    pub fn get_current_screen(&self, process: &ProcessMemory) -> (screen: Option<usize>)
        ensures
            match screen {
                Some(s) => current_screen(process@, self.spec_offsets(), self.spec_game_base())
                    == Some(s as int),
                None => current_screen(process@, self.spec_offsets(), self.spec_game_base())
                    is None,
            },
    {
        let screen_stack = match read_live(process, self.game_base, self.offsets.osu_game.screen_stack) {
            Some(p) => p,
            None => {
                return None;
            },
        };
        let stack = match read_live(process, screen_stack, self.offsets.screen_stack.stack) {
            Some(p) => p,
            None => {
                return None;
            },
        };
        let count: i32 = match process.read_i32_at(stack, 0x10) {
            Ok(c) => c,
            Err(_) => {
                return None;
            },
        };
        if count <= 0 {
            return None;
        }
        let items = match read_live(process, stack, 0x8) {
            Some(p) => p,
            None => {
                return None;
            },
        };
        let last: u64 = 0x10 + 0x8 * ((count - 1) as u64);
        if last > usize::MAX as u64 {
            proof {
                use_type_invariant(process);
                lemma_outside_address_space(process@, items + last, 8);
                lemma_outside_address_space(process@, items + last, 4);
            }
            return None;
        }
        read_live(process, items, last as usize)
    }

    /// Finds the score description behind a screen on which a play is in
    /// progress.
    pub fn try_get_score_info_from_player(&self, process: &ProcessMemory, screen: usize) -> (info:
        Option<usize>)
        ensures
            match info {
                Some(i) => score_info_of(process@, self.spec_offsets(), screen as int) == Some(
                    i as int,
                ),
                None => score_info_of(process@, self.spec_offsets(), screen as int) is None,
            },
    {
        match read_live(process, screen, self.offsets.player.score) {
            Some(score) => read_live(process, score, 0x8),
            None => None,
        }
    }

    /// Reads the JSON text in which the client lists the modifiers of the
    /// play in progress.
    pub fn read_mods_json(&self, process: &ProcessMemory) -> (json: Option<String>)
        ensures
            match json {
                Some(text) => mods_json_at(process@, self.spec_offsets(), self.spec_game_base())
                    == Some(text@),
                None => mods_json_at(process@, self.spec_offsets(), self.spec_game_base())
                    is None,
            },
    {
        let screen = match self.get_current_screen(process) {
            Some(s) => s,
            None => {
                return None;
            },
        };
        let info = match self.try_get_score_info_from_player(process, screen) {
            Some(i) => i,
            None => {
                return None;
            },
        };
        match read_string_at(process, info, self.offsets.score_info.mods_json, csharp()) {
            Ok(text) => Some(text),
            Err(_) => None,
        }
    }

    /// Reads the modifiers of the play in progress. `decode` turns the
    /// client's JSON text into the list of modifiers, or into nothing where
    /// the text is no such list; it is not asked for a text that is empty or
    /// the empty list.
    pub fn read_gameplay_mods<F: Fn(&str) -> Option<Vec<ModInfo>>>(
        &self,
        process: &ProcessMemory,
        decode: &F,
    ) -> (mods: Option<GameplayMods>)
        requires
            forall|text: &str| decode.requires((text,)),
        ensures
            mods_read(
                *decode,
                mods_json_at(process@, self.spec_offsets(), self.spec_game_base()),
                mods_view(mods),
            ),
    {
        match self.read_mods_json(process) {
            None => None,
            Some(json) => {
                let chars = chars_of(json.as_str());
                if chars.len() == 0 || is_text(&chars, "[]") {
                    Some(GameplayMods::none())
                } else {
                    let text: &str = json.as_str();
                    let list = decode(text);
                    assert(decoded_by(*decode, json@, list));
                    mods_from_json(text, list)
                }
            },
        }
    }

    /// Reads the root path of the client's storage.
    pub fn read_storage_base_path(&self, process: &ProcessMemory) -> (path: Option<String>)
        ensures
            match path {
                Some(text) => storage_base_path(
                    process@,
                    self.spec_offsets(),
                    self.spec_game_base(),
                ) == Some(text@),
                None => storage_base_path(process@, self.spec_offsets(), self.spec_game_base())
                    is None,
            },
    {
        let storage = match read_live(process, self.game_base, self.offsets.osu_game_base.storage) {
            Some(p) => p,
            None => {
                return None;
            },
        };
        let underlying: usize = if self.offsets.wrapped_storage.underlying_storage != 0 {
            match process.read_ptr_at(storage, self.offsets.wrapped_storage.underlying_storage) {
                Ok(inner) => inner,
                Err(_) => storage,
            }
        } else {
            storage
        };
        if underlying == 0 || self.offsets.storage.base_path == 0 {
            return None;
        }
        match read_string_at(process, underlying, self.offsets.storage.base_path, csharp()) {
            Ok(text) => Some(text),
            Err(_) => None,
        }
    }

    /// Reads where the file of the beatmap described at `beatmap_info`
    /// lies: its path below the folder of files, and that folder.
    pub fn read_beatmap_file_info(&self, process: &ProcessMemory, beatmap_info: usize) -> (place: (
        Option<String>,
        Option<String>,
    ))
        ensures
            crate::beatmap::text_view(place.0) == file_info(
                process@,
                self.spec_offsets(),
                self.spec_game_base(),
                beatmap_info as int,
            ).0,
            crate::beatmap::text_view(place.1) == file_info(
                process@,
                self.spec_offsets(),
                self.spec_game_base(),
                beatmap_info as int,
            ).1,
    {
        let hash: Option<String> = if self.offsets.beatmap_info.hash != 0 {
            match read_string_at(process, beatmap_info, self.offsets.beatmap_info.hash, csharp()) {
                Ok(text) => Some(text),
                Err(_) => None,
            }
        } else {
            None
        };
        let base: Option<String> = if self.offsets.osu_game_base.storage != 0 {
            self.read_storage_base_path(process)
        } else {
            None
        };
        match (hash, base) {
            (Some(h), Some(b)) => {
                let chars = chars_of(h.as_str());
                if chars.len() >= 2 {
                    let mut path: Vec<char> = Vec::new();
                    push_range(&mut path, &chars, 0, 1);
                    path.push('/');
                    push_range(&mut path, &chars, 0, 2);
                    path.push('/');
                    push_range(&mut path, &chars, 0, chars.len());
                    proof {
                        assert(chars@.subrange(0, chars@.len() as int) =~= chars@);
                        assert(path@ =~= hashed_path(h@));
                    }
                    (Some(string_of(&path)), Some(b.concat("/files")))
                } else {
                    (None, None)
                }
            },
            _ => (None, None),
        }
    }

    /// Reads the selected beatmap and the play in progress. A client without
    /// a selected beatmap yields the unknown snapshot; a link to the
    /// beatmap that cannot be read is an error; a field that cannot be read
    /// takes its fallback. `decode` turns the client's JSON text of
    /// modifiers into their list.
    pub fn read_beatmap<F: Fn(&str) -> Option<Vec<ModInfo>>>(
        &self,
        process: &ProcessMemory,
        decode: &F,
    ) -> (r: Result<BeatmapData, MemoryError>)
        requires
            forall|text: &str| decode.requires((text,)),
        ensures
            match beatmap_info_at(process@, self.spec_offsets(), self.spec_game_base()) {
                Err(error) => r is Err && r->Err_0@ == error,
                Ok(None) => r is Ok && r->Ok_0@ == unknown_beatmap(),
                Ok(Some(info)) => {
                    &&& r is Ok
                    &&& mods_read(
                        *decode,
                        mods_json_at(process@, self.spec_offsets(), self.spec_game_base()),
                        r->Ok_0@.mods,
                    )
                    &&& r->Ok_0@ == lazer_fields(
                        process@,
                        self.spec_offsets(),
                        self.spec_game_base(),
                        info,
                        r->Ok_0@.mods,
                    )
                },
            },
    {
        if self.game_base == 0 {
            return Err(MemoryError::read_failed("Game base not set."));
        }
        let bindable = match process.read_ptr_at(self.game_base, self.offsets.osu_game_base.beatmap) {
            Ok(p) => p,
            Err(e) => {
                return Err(describe_failure("Failed to read beatmap bindable: ", &e));
            },
        };
        if bindable == 0 {
            return Ok(BeatmapData::unknown());
        }
        let working = match process.read_ptr_at(bindable, 0x20) {
            Ok(p) => p,
            Err(e) => {
                return Err(describe_failure("Failed to read working beatmap: ", &e));
            },
        };
        if working == 0 {
            return Ok(BeatmapData::unknown());
        }
        let info = match process.read_ptr_at(working, self.offsets.working_beatmap.beatmap_info) {
            Ok(p) => p,
            Err(e) => {
                return Err(describe_failure("Failed to read beatmap info: ", &e));
            },
        };
        if info == 0 {
            return Ok(BeatmapData::unknown());
        }
        let metadata: usize = match process.read_ptr_at(info, self.offsets.beatmap_info.metadata) {
            Ok(p) => p,
            Err(_) => 0,
        };
        let author: usize = if metadata == 0 {
            0
        } else {
            match process.read_ptr_at(metadata, self.offsets.beatmap_metadata.author) {
                Ok(p) => p,
                Err(_) => 0,
            }
        };
        let id: i32 = match process.read_i32_at(info, self.offsets.beatmap_info.online_id) {
            Ok(v) => v,
            Err(_) => 0,
        };
        let status_code: i32 = match process.read_i32_at(info, self.offsets.beatmap_info.status) {
            Ok(v) => v,
            Err(_) => -1,
        };
        let status = BeatmapStatus::from_lazer_code(status_code);
        let title = if metadata != 0 {
            text_or_mark(read_string_at(process, metadata, self.offsets.beatmap_metadata.title, csharp()))
        } else {
            String::from_str("?")
        };
        let artist = if metadata != 0 {
            text_or_mark(read_string_at(process, metadata, self.offsets.beatmap_metadata.artist, csharp()))
        } else {
            String::from_str("?")
        };
        let difficulty_name = text_or_mark(
            read_string_at(process, info, self.offsets.beatmap_info.difficulty_name, csharp()),
        );
        let creator = if author != 0 {
            text_or_mark(read_string_at(process, author, self.offsets.realm_user.username, csharp()))
        } else {
            String::from_str("?")
        };
        let mods = self.read_gameplay_mods(process, decode);
        let (osu_file_path, songs_folder) = self.read_beatmap_file_info(process, info);
        Ok(
            BeatmapData {
                id,
                artist,
                title,
                difficulty_name,
                creator,
                status,
                mods,
                osu_file_path,
                songs_folder,
            },
        )
    }
}

/// A decoded string, or a question mark where decoding failed.
pub fn text_or_mark(r: Result<String, MemoryError>) -> (text: String)
    ensures
        forall|expected: Result<Seq<char>, MemoryErrorView>|
            crate::strings::string_outcome(r, expected) ==> text@ == text_or_unknown(expected),
{
    match r {
        Ok(text) => text,
        Err(_) => String::from_str("?"),
    }
}

/// The modifiers that a client's JSON text stands for, `list` being what
/// decoding the text gave.
pub fn mods_from_json(json: &str, list: Option<Vec<ModInfo>>) -> (mods: Option<GameplayMods>)
    ensures
        mods_view(mods) == json_mods(json@, list_view(list)),
{
    let chars = chars_of(json);
    if chars.len() == 0 || is_text(&chars, "[]") {
        return Some(GameplayMods::none());
    }
    match list {
        Some(found) => Some(GameplayMods::from_mods(found)),
        None => None,
    }
}

} // verus!
