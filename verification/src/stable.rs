//! The reader for the older client: two signatures in the client's code,
//! and from them the selected beatmap, the client's state and the modifiers
//! of the play in progress.

use crate::beatmap::{
    stable_status_of, text_view, unknown_beatmap, BeatmapData, BeatmapDataView, BeatmapStatus,
};
use crate::errors::{MemoryError, MemoryErrorView};
use crate::lazer::{decoded, describe_failure, failed_link, number_or, text_or_mark, text_or_unknown};
use crate::memory::{anchor, i32_at, u32_at, ProcessMemory, RegionView};
use crate::mods::{
    acronyms, display_upper, mod_views, parse_stable_mods, stable_names, GameplayMods,
    GameplayModsView, STABLE_MOD_COUNT,
};
use crate::offsets::StableOffsets;
use crate::scan::{parse_pattern, signature_bytes, signature_mask};
use crate::strings::{read_string_at, stable, stable_layout, string_at};
use crate::text::{chars_of, push_range, string_of};
use vstd::prelude::*;
use vstd::string::*;

verus! {

/// The state code with which the older client says that a play is in
/// progress.
pub const PLAYING: u32 = 2;

/// The two anchors of the older client: where its base signature and its
/// ruleset signature are found.
pub open spec fn stable_anchors(m: Seq<RegionView>, offsets: StableOffsets) -> Result<
    (int, int),
    MemoryErrorView,
> {
    match anchor(
        m,
        signature_bytes(offsets.patterns.base@),
        signature_mask(offsets.patterns.base@),
    ) {
        None => Err(MemoryErrorView::PatternNotFound),
        Some(base) => match anchor(
            m,
            signature_bytes(offsets.patterns.ruleset@),
            signature_mask(offsets.patterns.ruleset@),
        ) {
            None => Err(MemoryErrorView::PatternNotFound),
            Some(ruleset) => Ok((base, ruleset)),
        },
    }
}

/// The 4-byte pointer at `addr`, where it can be read and is not null.
pub open spec fn live_link32(m: Seq<RegionView>, addr: int) -> Option<int> {
    match u32_at(m, addr) {
        Some(target) => if target != 0 {
            Some(target)
        } else {
            None
        },
        None => None,
    }
}

/// The client's state code: behind a pointer next to the base anchor.
pub open spec fn game_status(m: Seq<RegionView>, offsets: StableOffsets, base: int) -> Option<int> {
    match live_link32(m, base + offsets.status.base_offset) {
        None => None,
        Some(holder) => u32_at(m, holder),
    }
}

/// The bit mask as the client stores it at `holder`: as it is at the first
/// offset where the configuration names no second one, else hidden as two
/// numbers whose exclusive-or is the mask.
pub open spec fn stored_mask(m: Seq<RegionView>, offsets: StableOffsets, holder: int) -> Option<u32> {
    if offsets.ruleset.mods_xor2 == 0 {
        match u32_at(m, holder + offsets.ruleset.mods_xor1) {
            Some(a) => Some(a as u32),
            None => None,
        }
    } else {
        match (
            u32_at(m, holder + offsets.ruleset.mods_xor1),
            u32_at(m, holder + offsets.ruleset.mods_xor2),
        ) {
            (Some(a), Some(b)) => Some((a as u32) ^ (b as u32)),
            _ => None,
        }
    }
}

/// The bit mask of the modifiers of the play in progress: five links from
/// the ruleset anchor, then the mask as it is stored there.
pub open spec fn mods_mask(m: Seq<RegionView>, offsets: StableOffsets, ruleset: int) -> Option<u32> {
    match live_link32(m, ruleset + offsets.ruleset.ptr_offset) {
        None => None,
        Some(pointer) => match live_link32(m, pointer + offsets.ruleset.ptr_deref_offset) {
            None => None,
            Some(rules) => match live_link32(m, rules + offsets.ruleset.play_container) {
                None => None,
                Some(container) => match live_link32(m, container + offsets.ruleset.mods_base) {
                    None => None,
                    Some(score) => match live_link32(m, score + offsets.ruleset.mods_ptr) {
                        None => None,
                        Some(holder) => stored_mask(m, offsets, holder),
                    },
                },
            },
        },
    }
}

/// The modifiers that a bit mask stands for, with their display string.
pub open spec fn mask_mods(bits: u32) -> GameplayModsView {
    let names = stable_names(bits, STABLE_MOD_COUNT as int);
    GameplayModsView {
        mods: Seq::new(
            names.len(),
            |i: int| crate::mods::ModInfoView { acronym: names[i], settings: None },
        ),
        mods_string: display_upper(names),
    }
}

/// The modifiers of the play in progress; none unless the client says that
/// one is in progress and the chain to the mask can be followed.
pub open spec fn stable_mods(
    m: Seq<RegionView>,
    offsets: StableOffsets,
    base: int,
    ruleset: int,
) -> Option<GameplayModsView> {
    if game_status(m, offsets, base) == Some(PLAYING as int) {
        match mods_mask(m, offsets, ruleset) {
            Some(bits) => Some(mask_mods(bits)),
            None => None,
        }
    } else {
        None
    }
}

/// A folder and the name of a file as one path. A name that begins with
/// `/` is a path of its own and stands alone. Any other name follows the
/// folder, behind a `/` unless the folder is empty or ends with one.
pub open spec fn joined_path(folder: Seq<char>, file: Seq<char>) -> Seq<char> {
    if file.len() > 0 && file[0] == '/' {
        file
    } else if folder.len() == 0 || folder.last() == '/' {
        folder + file
    } else {
        folder + seq!['/'] + file
    }
}

/// The path of the beatmap's file below the folder of songs: there where
/// folder and file name were both read and neither is empty.
pub open spec fn stable_file_path(folder: Option<Seq<char>>, file: Option<Seq<char>>) -> Option<
    Seq<char>,
> {
    match (folder, file) {
        (Some(f), Some(n)) => if f.len() > 0 && n.len() > 0 {
            Some(joined_path(f, n))
        } else {
            None
        },
        _ => None,
    }
}

/// The selected beatmap: behind two pointers next to the base anchor.
/// `Ok(None)` stands for a client without a selected beatmap.
pub open spec fn stable_beatmap_at(m: Seq<RegionView>, offsets: StableOffsets, base: int) -> Result<
    Option<int>,
    MemoryErrorView,
> {
    if base == 0 {
        Err(MemoryErrorView::ReadFailed("Base address not set."@))
    } else {
        match u32_at(m, base + offsets.base.beatmap_ptr) {
            None => Err(failed_link("Failed to read beatmap pointer: "@)),
            Some(holder) => if holder == 0 {
                Ok(None)
            } else {
                match u32_at(m, holder) {
                    None => Err(failed_link("Failed to read beatmap: "@)),
                    Some(beatmap) => if beatmap == 0 {
                        Ok(None)
                    } else {
                        Ok(Some(beatmap))
                    },
                }
            },
        }
    }
}

/// The snapshot for the beatmap at `beatmap`. A field that cannot be read
/// takes its fallback: zero for the id, an unknown code for the status, a
/// question mark for a text.
pub open spec fn stable_fields(
    m: Seq<RegionView>,
    offsets: StableOffsets,
    base: int,
    ruleset: int,
    beatmap: int,
) -> BeatmapDataView {
    BeatmapDataView {
        id: number_or(i32_at(m, beatmap + offsets.beatmap.map_id), 0),
        artist: text_or_unknown(string_at(m, beatmap + offsets.beatmap.artist, stable_layout())),
        title: text_or_unknown(string_at(m, beatmap + offsets.beatmap.title, stable_layout())),
        difficulty_name: text_or_unknown(
            string_at(m, beatmap + offsets.beatmap.difficulty, stable_layout()),
        ),
        creator: text_or_unknown(string_at(m, beatmap + offsets.beatmap.creator, stable_layout())),
        status: stable_status_of(number_or(i32_at(m, beatmap + offsets.beatmap.ranked_status), -3)),
        mods: stable_mods(m, offsets, base, ruleset),
        osu_file_path: stable_file_path(
            decoded(string_at(m, beatmap + offsets.beatmap.folder, stable_layout())),
            decoded(string_at(m, beatmap + offsets.beatmap.file, stable_layout())),
        ),
        songs_folder: None,
    }
}

/// What a read of the older client yields.
pub open spec fn stable_beatmap(
    m: Seq<RegionView>,
    offsets: StableOffsets,
    base: int,
    ruleset: int,
) -> Result<BeatmapDataView, MemoryErrorView> {
    match stable_beatmap_at(m, offsets, base) {
        Err(e) => Err(e),
        Ok(None) => Ok(unknown_beatmap()),
        Ok(Some(beatmap)) => Ok(stable_fields(m, offsets, base, ruleset, beatmap)),
    }
}

/// Reads the older client. It holds the client's offsets and the two
/// anchors.
#[derive(Debug, Clone, PartialEq)]
pub struct StableReader {
    offsets: StableOffsets,
    base_addr: usize,
    ruleset_addr: usize,
}

/// The 4-byte pointer `offset` bytes behind `base`, where it can be read
/// and is not null.
pub fn read_live32(process: &ProcessMemory, base: usize, offset: usize) -> (target: Option<usize>)
    ensures
        match target {
            Some(t) => live_link32(process@, base + offset) == Some(t as int),
            None => live_link32(process@, base + offset) is None,
        },
{
    match process.read_ptr32_at(base, offset) {
        Ok(t) => if t != 0 {
            Some(t)
        } else {
            None
        },
        Err(_) => None,
    }
}

/// A folder and the name of a file as one path: the name alone where it
/// begins with `/`, else the folder, a `/` unless the folder is empty or
/// ends with one, and the name.
pub fn join_path(folder: &str, file: &str) -> (path: String)
    ensures
        path@ == joined_path(folder@, file@),
{
    let f = chars_of(folder);
    let n = chars_of(file);
    let mut out: Vec<char> = Vec::new();
    if !(n.len() > 0 && n[0] == '/') {
        push_range(&mut out, &f, 0, f.len());
        assert(f@.subrange(0, f@.len() as int) =~= f@);
        if f.len() > 0 && f[f.len() - 1] != '/' {
            out.push('/');
        }
    }
    push_range(&mut out, &n, 0, n.len());
    proof {
        assert(n@.subrange(0, n@.len() as int) =~= n@);
        assert(out@ =~= joined_path(folder@, file@));
    }
    string_of(&out)
}

impl StableReader {
    /// The offsets that this reader works with.
    pub closed spec fn spec_offsets(&self) -> StableOffsets {
        self.offsets
    }

    /// Where the base signature was found.
    pub closed spec fn spec_base(&self) -> int {
        self.base_addr as int
    }

    /// Where the ruleset signature was found.
    pub closed spec fn spec_ruleset(&self) -> int {
        self.ruleset_addr as int
    }

    /// A reader for a client with the given anchors.
    pub fn from_parts(offsets: StableOffsets, base_addr: usize, ruleset_addr: usize) -> (reader:
        StableReader)
        ensures
            reader.spec_offsets() == offsets,
            reader.spec_base() == base_addr,
            reader.spec_ruleset() == ruleset_addr,
    {
        StableReader { offsets, base_addr, ruleset_addr }
    }

    /// Where the base signature was found.
    pub fn base_addr(&self) -> (addr: usize)
        ensures
            addr == self.spec_base(),
    {
        self.base_addr
    }

    /// Where the ruleset signature was found.
    pub fn ruleset_addr(&self) -> (addr: usize)
        ensures
            addr == self.spec_ruleset(),
    {
        self.ruleset_addr
    }

    /// Finds the two anchors of the client captured in `process`. A
    /// signature that is found nowhere ends the search.
    pub fn new(process: &ProcessMemory, offsets: StableOffsets) -> (made: Result<
        StableReader,
        MemoryError,
    >)
        ensures
            match made {
                Ok(reader) => {
                    &&& stable_anchors(process@, offsets) == Ok::<(int, int), MemoryErrorView>(
                        (reader.spec_base(), reader.spec_ruleset()),
                    )
                    &&& reader.spec_offsets() == offsets
                },
                Err(e) => stable_anchors(process@, offsets) == Err::<
                    (int, int),
                    MemoryErrorView,
                >(e@),
            },
    {
        let (base_pattern, base_mask) = parse_pattern(offsets.patterns.base.as_str());
        let base_addr = process.pattern_scan(base_pattern.as_slice(), base_mask.as_slice())?;
        let (ruleset_pattern, ruleset_mask) = parse_pattern(offsets.patterns.ruleset.as_str());
        let ruleset_addr = process.pattern_scan(
            ruleset_pattern.as_slice(),
            ruleset_mask.as_slice(),
        )?;
        Ok(StableReader { offsets, base_addr, ruleset_addr })
    }

    /// Reads the client's state code.
    pub fn read_status(&self, process: &ProcessMemory) -> (status: Option<u32>)
        ensures
            match status {
                Some(code) => game_status(process@, self.spec_offsets(), self.spec_base())
                    == Some(code as int),
                None => game_status(process@, self.spec_offsets(), self.spec_base()) is None,
            },
    {
        let holder = match process.read_ptr32_signed(self.base_addr, self.offsets.status.base_offset) {
            Ok(p) => p,
            Err(_) => {
                return None;
            },
        };
        if holder == 0 {
            return None;
        }
        match process.read_u32(holder) {
            Ok(code) => Some(code),
            Err(_) => None,
        }
    }

    /// Reads the bit mask of the modifiers of the play in progress.
    pub fn read_mods_mask(&self, process: &ProcessMemory) -> (mask: Option<u32>)
        ensures
            mask == mods_mask(process@, self.spec_offsets(), self.spec_ruleset()),
    {
        let pointer = match read_live32(process, self.ruleset_addr, self.offsets.ruleset.ptr_offset) {
            Some(p) => p,
            None => {
                return None;
            },
        };
        let rules = match read_live32(process, pointer, self.offsets.ruleset.ptr_deref_offset) {
            Some(p) => p,
            None => {
                return None;
            },
        };
        let container = match read_live32(process, rules, self.offsets.ruleset.play_container) {
            Some(p) => p,
            None => {
                return None;
            },
        };
        let score = match read_live32(process, container, self.offsets.ruleset.mods_base) {
            Some(p) => p,
            None => {
                return None;
            },
        };
        let holder = match read_live32(process, score, self.offsets.ruleset.mods_ptr) {
            Some(p) => p,
            None => {
                return None;
            },
        };
        let a = match process.read_u32_at(holder, self.offsets.ruleset.mods_xor1) {
            Ok(v) => v,
            Err(_) => {
                return None;
            },
        };
        if self.offsets.ruleset.mods_xor2 == 0 {
            return Some(a);
        }
        let b = match process.read_u32_at(holder, self.offsets.ruleset.mods_xor2) {
            Ok(v) => v,
            Err(_) => {
                return None;
            },
        };
        Some(a ^ b)
    }

    /// Reads the modifiers of the play in progress.
    pub fn read_mods(&self, process: &ProcessMemory) -> (mods: Option<GameplayMods>)
        ensures
            crate::beatmap::mods_view(mods) == stable_mods(
                process@,
                self.spec_offsets(),
                self.spec_base(),
                self.spec_ruleset(),
            ),
    {
        match self.read_status(process) {
            Some(code) => {
                if code != PLAYING {
                    return None;
                }
            },
            None => {
                return None;
            },
        }
        match self.read_mods_mask(process) {
            Some(bits) => Some(mods_of_mask(bits)),
            None => None,
        }
    }

    /// Reads the selected beatmap and the play in progress. A client without
    /// a selected beatmap yields the unknown snapshot; a link to the beatmap
    /// that cannot be read is an error; a field that cannot be read takes
    /// its fallback.
    pub fn read_beatmap(&self, process: &ProcessMemory) -> (r: Result<BeatmapData, MemoryError>)
        ensures
            match r {
                Ok(data) => stable_beatmap(
                    process@,
                    self.spec_offsets(),
                    self.spec_base(),
                    self.spec_ruleset(),
                ) == Ok::<BeatmapDataView, MemoryErrorView>(data@),
                Err(e) => stable_beatmap(
                    process@,
                    self.spec_offsets(),
                    self.spec_base(),
                    self.spec_ruleset(),
                ) == Err::<BeatmapDataView, MemoryErrorView>(e@),
            },
    {
        if self.base_addr == 0 {
            return Err(MemoryError::read_failed("Base address not set."));
        }
        let holder = match process.read_ptr32_signed(self.base_addr, self.offsets.base.beatmap_ptr) {
            Ok(p) => p,
            Err(e) => {
                return Err(describe_failure("Failed to read beatmap pointer: ", &e));
            },
        };
        if holder == 0 {
            return Ok(BeatmapData::unknown());
        }
        let beatmap = match process.read_ptr32(holder) {
            Ok(p) => p,
            Err(e) => {
                return Err(describe_failure("Failed to read beatmap: ", &e));
            },
        };
        if beatmap == 0 {
            return Ok(BeatmapData::unknown());
        }
        let id: i32 = match process.read_i32_at(beatmap, self.offsets.beatmap.map_id) {
            Ok(v) => v,
            Err(_) => 0,
        };
        let status_code: i32 = match process.read_i32_at(beatmap, self.offsets.beatmap.ranked_status) {
            Ok(v) => v,
            Err(_) => -3,
        };
        let status = BeatmapStatus::from_stable_code(status_code);
        let artist = text_or_mark(read_string_at(process, beatmap, self.offsets.beatmap.artist, stable()));
        let title = text_or_mark(read_string_at(process, beatmap, self.offsets.beatmap.title, stable()));
        let difficulty_name = text_or_mark(
            read_string_at(process, beatmap, self.offsets.beatmap.difficulty, stable()),
        );
        let creator = text_or_mark(
            read_string_at(process, beatmap, self.offsets.beatmap.creator, stable()),
        );
        let folder = read_string_at(process, beatmap, self.offsets.beatmap.folder, stable());
        let file = read_string_at(process, beatmap, self.offsets.beatmap.file, stable());
        let osu_file_path: Option<String> = match (folder, file) {
            (Ok(f), Ok(n)) => {
                if !f.as_str().is_empty() && !n.as_str().is_empty() {
                    Some(join_path(f.as_str(), n.as_str()))
                } else {
                    None
                }
            },
            _ => None,
        };
        let mods = self.read_mods(process);
        Ok(
            BeatmapData {
                id,
                artist,
                title,
                difficulty_name,
                creator,
                status,
                mods,
                osu_file_path,
                songs_folder: None,
            },
        )
    }
}

/// The modifiers that a bit mask stands for, with their display string.
pub fn mods_of_mask(bits: u32) -> (mods: GameplayMods)
    ensures
        mods@ == mask_mods(bits),
{
    let list = parse_stable_mods(bits);
    let made = GameplayMods::from_uppercased(list);
    proof {
        let names = stable_names(bits, STABLE_MOD_COUNT as int);
        assert(acronyms(made@.mods) == names);
        assert forall|i: int| 0 <= i < names.len() implies made@.mods[i]
            == (crate::mods::ModInfoView { acronym: names[i], settings: None }) by {
            assert(acronyms(made@.mods)[i] == names[i]);
            assert(list@[i].settings is None);
        }
        assert(made@.mods =~= mask_mods(bits).mods);
    }
    made
}

} // verus!
