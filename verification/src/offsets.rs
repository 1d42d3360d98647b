//! The configuration that tells a reader where a client keeps its state:
//! a signature to find an anchor with, and the byte offsets of the links
//! and fields behind it.

use crate::mods::same_text;
use crate::text::{
    chars_of, lemma_piece_len, parse_unsigned, parsed_unsigned, piece_len, pieces, push_range,
};
use vstd::prelude::*;

verus! {

/// The signatures of the newer client.
#[derive(Debug, Clone, PartialEq)]
pub struct LazerPatterns {
    pub base: String,
}

/// Where the first link stands, counted from the anchor.
#[derive(Debug, Clone, Copy, PartialEq, Eq, Structural)]
pub struct LazerBase {
    pub external_link_opener: isize,
}

#[derive(Debug, Clone, Copy, PartialEq, Eq, Structural)]
pub struct ExternalLinkOpener {
    pub api: usize,
}

#[derive(Debug, Clone, Copy, PartialEq, Eq, Structural)]
pub struct ApiAccess {
    pub game: usize,
}

#[derive(Debug, Clone, Copy, PartialEq, Eq, Structural)]
pub struct OsuGame {
    pub screen_stack: usize,
}

#[derive(Debug, Clone, Copy, PartialEq, Eq, Structural)]
pub struct ScreenStack {
    pub stack: usize,
}

/// Fields of the game object. A `storage` of zero means that the build has
/// no known offset for it.
#[derive(Debug, Clone, Copy, PartialEq, Eq, Structural)]
pub struct OsuGameBase {
    pub beatmap: usize,
    pub storage: usize,
}

#[derive(Debug, Clone, Copy, PartialEq, Eq, Structural)]
pub struct WorkingBeatmap {
    pub beatmap_info: usize,
}

/// Fields of the beatmap's description. A `hash` of zero means that the
/// build has no known offset for it.
#[derive(Debug, Clone, Copy, PartialEq, Eq, Structural)]
pub struct BeatmapInfo {
    pub online_id: usize,
    pub metadata: usize,
    pub difficulty_name: usize,
    pub status: usize,
    pub hash: usize,
}

#[derive(Debug, Clone, Copy, PartialEq, Eq, Structural)]
pub struct BeatmapMetadata {
    pub title: usize,
    pub artist: usize,
    pub author: usize,
}

#[derive(Debug, Clone, Copy, PartialEq, Eq, Structural)]
pub struct RealmUser {
    pub username: usize,
}

#[derive(Debug, Clone, Copy, PartialEq, Eq, Structural)]
pub struct Player {
    pub score: usize,
}

#[derive(Debug, Clone, Copy, PartialEq, Eq, Structural)]
pub struct ScoreInfo {
    pub mods_json: usize,
}

/// Zero where the build has no known offset.
#[derive(Debug, Clone, Copy, PartialEq, Eq, Structural)]
pub struct StorageOffsets {
    pub base_path: usize,
}

/// Zero where the build has no known offset.
#[derive(Debug, Clone, Copy, PartialEq, Eq, Structural)]
pub struct WrappedStorageOffsets {
    pub underlying_storage: usize,
}

/// The offsets of one build of the newer client.
#[derive(Debug, Clone, PartialEq)]
pub struct LazerOffsets {
    pub patterns: LazerPatterns,
    pub base: LazerBase,
    pub external_link_opener: ExternalLinkOpener,
    pub api_access: ApiAccess,
    pub osu_game: OsuGame,
    pub screen_stack: ScreenStack,
    pub osu_game_base: OsuGameBase,
    pub working_beatmap: WorkingBeatmap,
    pub beatmap_info: BeatmapInfo,
    pub beatmap_metadata: BeatmapMetadata,
    pub realm_user: RealmUser,
    pub player: Player,
    pub score_info: ScoreInfo,
    pub storage: StorageOffsets,
    pub wrapped_storage: WrappedStorageOffsets,
}

/// The signatures of the older client.
#[derive(Debug, Clone, PartialEq)]
pub struct StablePatterns {
    pub base: String,
    pub ruleset: String,
}

#[derive(Debug, Clone, Copy, PartialEq, Eq, Structural)]
pub struct StatusOffsets {
    pub base_offset: isize,
}

#[derive(Debug, Clone, Copy, PartialEq, Eq, Structural)]
pub struct StableBase {
    pub beatmap_ptr: isize,
}

#[derive(Debug, Clone, Copy, PartialEq, Eq, Structural)]
pub struct StableBeatmap {
    pub artist: usize,
    pub title: usize,
    pub creator: usize,
    pub difficulty: usize,
    pub map_id: usize,
    pub ranked_status: usize,
    pub folder: usize,
    pub file: usize,
}

/// The chain to the modifiers of a play. A `mods_xor2` of zero says that
/// the bit mask stands as it is at `mods_xor1`; any other value says that
/// the mask is hidden as the exclusive-or of the numbers at the two offsets.
#[derive(Debug, Clone, Copy, PartialEq, Eq, Structural)]
pub struct RulesetOffsets {
    pub ptr_offset: usize,
    pub ptr_deref_offset: usize,
    pub play_container: usize,
    pub mods_base: usize,
    pub mods_ptr: usize,
    pub mods_xor1: usize,
    pub mods_xor2: usize,
}

/// The offsets of the older client.
#[derive(Debug, Clone, PartialEq)]
pub struct StableOffsets {
    pub patterns: StablePatterns,
    pub base: StableBase,
    pub beatmap: StableBeatmap,
    pub ruleset: RulesetOffsets,
    pub status: StatusOffsets,
}

/// The numbers among `parts`, in order: each part that is an unsigned
/// decimal number of 32 bits counts, every other part is passed over.
pub open spec fn numbers_among(parts: Seq<Seq<char>>) -> Seq<int>
    decreases parts.len(),
{
    if parts.len() == 0 {
        Seq::empty()
    } else {
        match parsed_unsigned(parts.last(), 10, u32::MAX as int) {
            Some(v) => numbers_among(parts.drop_last()).push(v),
            None => numbers_among(parts.drop_last()),
        }
    }
}

/// The numbers of a dotted version string.
pub open spec fn version_numbers(version: Seq<char>) -> Seq<int> {
    numbers_among(pieces(version, '.'))
}

/// Whether `a` comes before `b` when both are compared number by number,
/// a proper prefix coming before what it is a prefix of.
pub open spec fn numbers_before(a: Seq<int>, b: Seq<int>) -> bool
    decreases a.len(),
{
    if b.len() == 0 {
        false
    } else if a.len() == 0 {
        true
    } else if a[0] != b[0] {
        a[0] < b[0]
    } else {
        numbers_before(a.drop_first(), b.drop_first())
    }
}

/// The values of a list of numbers.
pub open spec fn number_values(v: Seq<u32>) -> Seq<int> {
    Seq::new(v.len(), |i: int| v[i] as int)
}

/// The numbers of a dotted version string.
pub fn parse_version_numbers(version: &str) -> (numbers: Vec<u32>)
    ensures
        number_values(numbers@) == version_numbers(version@),
{
    let s = chars_of(version);
    let n: usize = s.len();
    let mut numbers: Vec<u32> = Vec::new();
    let mut start: usize = 0;
    let ghost mut done: Seq<Seq<char>> = Seq::empty();
    proof {
        assert(s@.subrange(0, n as int) =~= s@);
        assert(done + pieces(s@, '.') =~= pieces(s@, '.'));
    }
    loop
        invariant_except_break
            done + pieces(s@.subrange(start as int, n as int), '.') == pieces(s@, '.'),
        invariant
            start <= n,
            n == s.len(),
            s@ == version@,
            number_values(numbers@) == numbers_among(done),
        ensures
            number_values(numbers@) == version_numbers(version@),
        decreases n - start,
    {
        let ghost rest = s@.subrange(start as int, n as int);
        let mut end: usize = start;
        while end < n && s[end] != '.'
            invariant
                start <= end <= n,
                n == s.len(),
                forall|k: int| start <= k < end ==> #[trigger] s@[k] != '.',
            decreases n - end,
        {
            end += 1;
        }
        let mut part: Vec<char> = Vec::new();
        push_range(&mut part, &s, start, end);
        proof {
            assert forall|k: int| 0 <= k < end - start implies #[trigger] rest[k] != '.' by {
                assert(rest[k] == s@[start + k]);
            }
            if end < n {
                assert(rest[end - start] == s@[end as int]);
            }
            lemma_piece_len(rest, '.', end - start);
            assert(part@ =~= rest.subrange(0, end - start));
        }
        let ghost before = done;
        let ghost old_numbers = number_values(numbers@);
        proof {
            done = done.push(part@);
            assert(done.drop_last() =~= before);
            assert(done.last() == part@);
        }
        match parse_unsigned(&part, 10, u32::MAX as u64) {
            Some(v) => {
                numbers.push(v as u32);
                assert(number_values(numbers@) =~= old_numbers.push(v as int));
            },
            None => {},
        }
        if end >= n {
            proof {
                assert(rest.subrange(0, end - start) =~= rest);
                assert(pieces(rest, '.') =~= seq![rest]);
                assert(done =~= before + pieces(rest, '.'));
            }
            break;
        }
        proof {
            assert(rest.subrange(end - start + 1, rest.len() as int) =~= s@.subrange(
                end + 1,
                n as int,
            ));
            assert(done + pieces(s@.subrange(end + 1, n as int), '.') =~= before + pieces(
                rest,
                '.',
            ));
        }
        start = end + 1;
    }
    numbers
}

/// Whether `a` comes before `b` when both are compared number by number.
pub fn version_before(a: &Vec<u32>, b: &Vec<u32>) -> (before: bool)
    ensures
        before == numbers_before(number_values(a@), number_values(b@)),
{
    let mut i: usize = 0;
    proof {
        assert(number_values(a@).subrange(0, a@.len() as int) =~= number_values(a@));
        assert(number_values(b@).subrange(0, b@.len() as int) =~= number_values(b@));
    }
    loop
        invariant
            i <= a.len(),
            i <= b.len(),
            numbers_before(number_values(a@), number_values(b@)) == numbers_before(
                number_values(a@).subrange(i as int, a@.len() as int),
                number_values(b@).subrange(i as int, b@.len() as int),
            ),
        decreases a.len() - i,
    {
        let ghost ra = number_values(a@).subrange(i as int, a@.len() as int);
        let ghost rb = number_values(b@).subrange(i as int, b@.len() as int);
        if i >= b.len() {
            return false;
        }
        if i >= a.len() {
            return true;
        }
        assert(ra[0] == a@[i as int] && rb[0] == b@[i as int]);
        if a[i] != b[i] {
            return a[i] < b[i];
        }
        proof {
            assert(ra.drop_first() =~= number_values(a@).subrange(i + 1, a@.len() as int));
            assert(rb.drop_first() =~= number_values(b@).subrange(i + 1, b@.len() as int));
        }
        i += 1;
    }
}

/// What comes before something that is not behind a third comes before that
/// third.
pub proof fn lemma_before_chain(a: Seq<int>, b: Seq<int>, c: Seq<int>)
    requires
        numbers_before(a, b),
        !numbers_before(c, b),
    ensures
        numbers_before(a, c),
    decreases a.len(),
{
    if a.len() > 0 && c.len() > 0 && a[0] == b[0] && b[0] == c[0] {
        lemma_before_chain(a.drop_first(), b.drop_first(), c.drop_first());
    }
}

/// The views of a list of strings.
pub open spec fn string_views(v: Seq<String>) -> Seq<Seq<char>> {
    Seq::new(v.len(), |i: int| v[i]@)
}

/// Entry `i` is the latest of `versions`: no entry has higher numbers, and
/// every entry behind it has lower ones.
pub open spec fn is_latest(versions: Seq<Seq<char>>, i: int) -> bool {
    &&& 0 <= i < versions.len()
    &&& forall|j: int|
        0 <= j < versions.len() ==> !numbers_before(
            version_numbers(versions[i]),
            version_numbers(#[trigger] versions[j]),
        )
    &&& forall|j: int|
        i < j < versions.len() ==> numbers_before(
            version_numbers(#[trigger] versions[j]),
            version_numbers(versions[i]),
        )
}

/// Entry `i` is the first of `versions` that equals `wanted`.
pub open spec fn is_first_equal(versions: Seq<Seq<char>>, wanted: Seq<char>, i: int) -> bool {
    &&& 0 <= i < versions.len()
    &&& versions[i] == wanted
    &&& forall|j: int| 0 <= j < i ==> versions[j] != wanted
}

/// Entry `i` is the one whose offsets serve a client of version `wanted`:
/// the entry of that very version where the table has one, the latest entry
/// where it has none or the version is not known.
pub open spec fn is_selected(versions: Seq<Seq<char>>, wanted: Option<Seq<char>>, i: int) -> bool {
    match wanted {
        Some(v) => if versions.contains(v) {
            is_first_equal(versions, v, i)
        } else {
            is_latest(versions, i)
        },
        None => is_latest(versions, i),
    }
}

/// Finds the entry with the highest version among `versions`, read as
/// dotted numbers; of several with the same numbers, the last.
pub fn get_latest_version(versions: &Vec<String>) -> (latest: Option<usize>)
    ensures
        match latest {
            Some(i) => is_latest(string_views(versions@), i as int),
            None => versions.len() == 0,
        },
{
    if versions.len() == 0 {
        return None;
    }
    let ghost keys = string_views(versions@);
    let mut best: usize = 0;
    let mut best_numbers = parse_version_numbers(versions[0].as_str());
    let mut j: usize = 1;
    assert(keys[0] == versions@[0]@);
    proof {
        lemma_not_before_itself(version_numbers(keys[0]));
    }
    while j < versions.len()
        invariant
            1 <= j <= versions.len(),
            best < j,
            keys == string_views(versions@),
            number_values(best_numbers@) == version_numbers(keys[best as int]),
            forall|k: int|
                0 <= k < j ==> !numbers_before(
                    version_numbers(keys[best as int]),
                    version_numbers(#[trigger] keys[k]),
                ),
            forall|k: int|
                best < k < j ==> numbers_before(
                    version_numbers(#[trigger] keys[k]),
                    version_numbers(keys[best as int]),
                ),
        decreases versions.len() - j,
    {
        let numbers = parse_version_numbers(versions[j].as_str());
        assert(keys[j as int] == versions@[j as int]@);
        if !version_before(&numbers, &best_numbers) {
            proof {
                let top = version_numbers(keys[j as int]);
                let old_top = version_numbers(keys[best as int]);
                assert forall|k: int| 0 <= k < j + 1 implies !numbers_before(
                    top,
                    version_numbers(#[trigger] keys[k]),
                ) by {
                    let other = version_numbers(keys[k]);
                    if numbers_before(top, other) {
                        if k < j {
                            lemma_before_chain(top, other, old_top);
                        } else {
                            lemma_not_before_itself(top);
                        }
                    }
                }
            }
            best = j;
            best_numbers = numbers;
        } else {
            proof {
                lemma_before_one_way(
                    version_numbers(keys[j as int]),
                    version_numbers(keys[best as int]),
                );
            }
        }
        j += 1;
    }
    Some(best)
}

/// Of two lists of numbers, at most one comes before the other.
pub proof fn lemma_before_one_way(a: Seq<int>, b: Seq<int>)
    requires
        numbers_before(a, b),
    ensures
        !numbers_before(b, a),
    decreases a.len(),
{
    if a.len() > 0 && b.len() > 0 && a[0] == b[0] {
        lemma_before_one_way(a.drop_first(), b.drop_first());
    }
}

/// Nothing comes before itself.
pub proof fn lemma_not_before_itself(a: Seq<int>)
    ensures
        !numbers_before(a, a),
    decreases a.len(),
{
    if a.len() > 0 {
        lemma_not_before_itself(a.drop_first());
    }
}

/// Picks the entry whose offsets serve a client of version `wanted`: the
/// entry of that very version where `versions` has one, else the latest.
pub fn select_version(versions: &Vec<String>, wanted: &Option<String>) -> (chosen: Option<usize>)
    ensures
        match chosen {
            Some(i) => is_selected(
                string_views(versions@),
                match *wanted {
                    Some(v) => Some(v@),
                    None => None,
                },
                i as int,
            ),
            None => versions.len() == 0,
        },
{
    let ghost keys = string_views(versions@);
    match wanted {
        Some(v) => {
            let mut i: usize = 0;
            while i < versions.len()
                invariant
                    i <= versions.len(),
                    keys == string_views(versions@),
                    *wanted == Some(*v),
                    forall|j: int| 0 <= j < i ==> keys[j] != v@,
                decreases versions.len() - i,
            {
                assert(keys[i as int] == versions@[i as int]@);
                if same_text(&versions[i], v) {
                    assert(keys.contains(v@));
                    assert(is_first_equal(keys, v@, i as int));
                    return Some(i);
                }
                i += 1;
            }
            assert(!keys.contains(v@));
            get_latest_version(versions)
        },
        None => get_latest_version(versions),
    }
}

} // verus!
