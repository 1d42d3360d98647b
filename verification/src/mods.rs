//! Gameplay modifiers: the acronyms that a client reports, the display
//! string built from them, and the bit flags that the older client packs
//! them into.

use crate::text::{
    chars_of, is_text, joined, push_range, same_chars, string_of, to_uppercase, uppercase_of,
    views,
};
use vstd::prelude::*;
use vstd::string::*;

verus! {

/// One active modifier: its acronym and, where the client attached any, its
/// settings as JSON text.
#[derive(Debug, Clone, PartialEq)]
pub struct ModInfo {
    pub acronym: String,
    pub settings: Option<String>,
}

/// A `ModInfo` with its texts as character sequences.
pub struct ModInfoView {
    pub acronym: Seq<char>,
    pub settings: Option<Seq<char>>,
}

impl View for ModInfo {
    type V = ModInfoView;

    open spec fn view(&self) -> ModInfoView {
        ModInfoView {
            acronym: self.acronym@,
            settings: match self.settings {
                Some(text) => Some(text@),
                None => None,
            },
        }
    }
}

/// The modifiers of one play: each modifier in the order in which it was
/// found, and the display string.
#[derive(Debug, Clone, PartialEq)]
pub struct GameplayMods {
    pub mods: Vec<ModInfo>,
    pub mods_string: String,
}

/// A `GameplayMods` as mathematics.
pub struct GameplayModsView {
    pub mods: Seq<ModInfoView>,
    pub mods_string: Seq<char>,
}

/// The views of a list of modifiers.
pub open spec fn mod_views(mods: Seq<ModInfo>) -> Seq<ModInfoView> {
    Seq::new(mods.len(), |i: int| mods[i]@)
}

/// The acronyms of a list of modifiers.
pub open spec fn acronyms(mods: Seq<ModInfoView>) -> Seq<Seq<char>> {
    Seq::new(mods.len(), |i: int| mods[i].acronym)
}

impl View for GameplayMods {
    type V = GameplayModsView;

    open spec fn view(&self) -> GameplayModsView {
        GameplayModsView { mods: mod_views(self.mods@), mods_string: self.mods_string@ }
    }
}

/// The number of acronyms that have a fixed place in the display string.
pub const PRIORITY_COUNT: usize = 13;

/// The acronym with place `k` in the display string: EZ, HD, FL, HR, DT, NC,
/// HT, DC, SD, PF, NF, RX, AP.
pub open spec fn priority(k: int) -> Seq<char> {
    if k == 0 {
        seq!['E', 'Z']
    } else if k == 1 {
        seq!['H', 'D']
    } else if k == 2 {
        seq!['F', 'L']
    } else if k == 3 {
        seq!['H', 'R']
    } else if k == 4 {
        seq!['D', 'T']
    } else if k == 5 {
        seq!['N', 'C']
    } else if k == 6 {
        seq!['H', 'T']
    } else if k == 7 {
        seq!['D', 'C']
    } else if k == 8 {
        seq!['S', 'D']
    } else if k == 9 {
        seq!['P', 'F']
    } else if k == 10 {
        seq!['N', 'F']
    } else if k == 11 {
        seq!['R', 'X']
    } else {
        seq!['A', 'P']
    }
}

/// The place of `name` among the places from `k` on, where it has one.
pub open spec fn place_from(name: Seq<char>, k: int) -> Option<int>
    decreases PRIORITY_COUNT - k,
{
    if k < 0 || k >= PRIORITY_COUNT {
        None
    } else if name == priority(k) {
        Some(k)
    } else {
        place_from(name, k + 1)
    }
}

/// The rank of an acronym in the display: its place where it has one, and
/// the rank behind all places where it has none.
pub open spec fn rank(name: Seq<char>) -> int {
    match place_from(name, 0) {
        Some(k) => k,
        None => PRIORITY_COUNT as int,
    }
}

/// Whether `a` stands at or before `b` in the order of texts: the first
/// character in which they differ decides, by its code, and a text stands
/// before every text that it begins.
pub open spec fn text_before(a: Seq<char>, b: Seq<char>) -> bool
    decreases a.len(),
{
    if a.len() == 0 {
        true
    } else if b.len() == 0 {
        false
    } else if a[0] != b[0] {
        a[0] < b[0]
    } else {
        text_before(a.drop_first(), b.drop_first())
    }
}

/// Whether the acronym `a` is displayed at or before the acronym `b`: the
/// lower rank first, and among acronyms without a place the order of texts.
pub open spec fn shown_before(a: Seq<char>, b: Seq<char>) -> bool {
    rank(a) < rank(b) || (rank(a) == rank(b) && text_before(a, b))
}

/// `sorted` with `name` put in front of the first acronym that it is
/// displayed before.
pub open spec fn placed(sorted: Seq<Seq<char>>, name: Seq<char>) -> Seq<Seq<char>>
    decreases sorted.len(),
{
    if sorted.len() == 0 {
        seq![name]
    } else if shown_before(name, sorted[0]) {
        seq![name] + sorted
    } else {
        seq![sorted[0]] + placed(sorted.drop_first(), name)
    }
}

/// The acronyms `names` in display order: those with a place by place,
/// then the others in the order of texts.
pub open spec fn arranged(names: Seq<Seq<char>>) -> Seq<Seq<char>>
    decreases names.len(),
{
    if names.len() == 0 {
        Seq::empty()
    } else {
        placed(arranged(names.drop_last()), names.last())
    }
}

/// Acronyms written one behind the other.
pub open spec fn written(names: Seq<Seq<char>>) -> Seq<char> {
    joined(names, Seq::empty())
}

/// Where acronym `i` of a text of `len` characters ends.
pub open spec fn acronym_end(i: int, len: int) -> int {
    if 2 * i + 2 <= len {
        2 * i + 2
    } else {
        len
    }
}

/// The acronyms that a text is made of: two characters each, and a single
/// character that is left at the end as an acronym of its own.
pub open spec fn acronyms_in(text: Seq<char>) -> Seq<Seq<char>> {
    Seq::new(
        ((text.len() + 1) / 2) as nat,
        |i: int| text.subrange(2 * i, acronym_end(i, text.len() as int)),
    )
}

/// The display string for upper-case acronyms written one behind the other:
/// the acronyms of the text in display order.
pub open spec fn ordered(upper: Seq<char>) -> Seq<char> {
    written(arranged(acronyms_in(upper)))
}

/// The display string of a list of upper-case acronyms: `NoMod` for none,
/// else the acronyms in display order.
pub open spec fn display_upper(names: Seq<Seq<char>>) -> Seq<char> {
    if names.len() == 0 {
        "NoMod"@
    } else {
        written(arranged(names))
    }
}

/// Each of `names` in upper case.
pub open spec fn upper_names(names: Seq<Seq<char>>) -> Seq<Seq<char>> {
    Seq::new(names.len(), |i: int| uppercase_of(names[i]))
}

/// The display string of a list of acronyms: `NoMod` for none, else the
/// acronyms in upper case and in display order.
pub open spec fn display_of(names: Seq<Seq<char>>) -> Seq<char> {
    display_upper(upper_names(names))
}

fn priority_chars(k: usize) -> (acronym: Vec<char>)
    requires
        k < PRIORITY_COUNT,
    ensures
        acronym@ == priority(k as int),
{
    let pair: (char, char) = if k == 0 {
        ('E', 'Z')
    } else if k == 1 {
        ('H', 'D')
    } else if k == 2 {
        ('F', 'L')
    } else if k == 3 {
        ('H', 'R')
    } else if k == 4 {
        ('D', 'T')
    } else if k == 5 {
        ('N', 'C')
    } else if k == 6 {
        ('H', 'T')
    } else if k == 7 {
        ('D', 'C')
    } else if k == 8 {
        ('S', 'D')
    } else if k == 9 {
        ('P', 'F')
    } else if k == 10 {
        ('N', 'F')
    } else if k == 11 {
        ('R', 'X')
    } else {
        ('A', 'P')
    };
    let mut acronym: Vec<char> = Vec::new();
    acronym.push(pair.0);
    acronym.push(pair.1);
    assert(acronym@ =~= priority(k as int));
    acronym
}

/// `placed` puts the name in front of the first acronym that it is
/// displayed before, and behind every acronym in front of that one.
pub proof fn lemma_placed_at(sorted: Seq<Seq<char>>, name: Seq<char>, p: int)
    requires
        0 <= p <= sorted.len(),
        forall|j: int| 0 <= j < p ==> !shown_before(name, #[trigger] sorted[j]),
        p == sorted.len() || shown_before(name, sorted[p]),
    ensures
        placed(sorted, name) == sorted.insert(p, name),
    decreases p,
{
    if p == 0 {
        assert(sorted.insert(0, name) =~= seq![name] + sorted);
        if sorted.len() == 0 {
            assert(sorted.insert(0, name) =~= seq![name]);
        }
    } else {
        let rest = sorted.drop_first();
        assert(!shown_before(name, sorted[0]));
        assert forall|j: int| 0 <= j < p - 1 implies !shown_before(name, #[trigger] rest[j]) by {
            assert(rest[j] == sorted[j + 1]);
        }
        if p < sorted.len() {
            assert(rest[p - 1] == sorted[p]);
        }
        lemma_placed_at(rest, name, p - 1);
        assert(sorted.insert(p, name) =~= seq![sorted[0]] + rest.insert(p - 1, name));
    }
}

/// The rank of an acronym in the display.
pub fn rank_of(name: &Vec<char>) -> (place: usize)
    ensures
        place == rank(name@),
{
    let mut k: usize = 0;
    while k < PRIORITY_COUNT
        invariant
            k <= PRIORITY_COUNT,
            place_from(name@, k as int) == place_from(name@, 0),
        decreases PRIORITY_COUNT - k,
    {
        let acronym = priority_chars(k);
        if same_chars(name, &acronym) {
            return k;
        }
        k += 1;
    }
    PRIORITY_COUNT
}

/// Whether `a` stands at or before `b` in the order of texts.
pub fn text_first(a: &Vec<char>, b: &Vec<char>) -> (first: bool)
    ensures
        first == text_before(a@, b@),
{
    let mut i: usize = 0;
    proof {
        assert(a@.subrange(0, a@.len() as int) =~= a@);
        assert(b@.subrange(0, b@.len() as int) =~= b@);
    }
    loop
        invariant
            i <= a.len(),
            i <= b.len(),
            text_before(a@, b@) == text_before(
                a@.subrange(i as int, a@.len() as int),
                b@.subrange(i as int, b@.len() as int),
            ),
        decreases a.len() - i,
    {
        let ghost ra = a@.subrange(i as int, a@.len() as int);
        let ghost rb = b@.subrange(i as int, b@.len() as int);
        if i >= a.len() {
            return true;
        }
        if i >= b.len() {
            return false;
        }
        assert(ra[0] == a@[i as int] && rb[0] == b@[i as int]);
        if a[i] != b[i] {
            return a[i] < b[i];
        }
        proof {
            assert(ra.drop_first() =~= a@.subrange(i + 1, a@.len() as int));
            assert(rb.drop_first() =~= b@.subrange(i + 1, b@.len() as int));
        }
        i += 1;
    }
}

/// Whether the acronym `a` is displayed at or before the acronym `b`.
pub fn comes_first(a: &Vec<char>, b: &Vec<char>) -> (first: bool)
    ensures
        first == shown_before(a@, b@),
{
    let ra = rank_of(a);
    let rb = rank_of(b);
    ra < rb || (ra == rb && text_first(a, b))
}

/// Puts acronyms into display order.
pub fn arrange(names: &Vec<Vec<char>>) -> (sorted: Vec<Vec<char>>)
    ensures
        views(sorted@) == arranged(views(names@)),
{
    let ghost all = views(names@);
    let mut sorted: Vec<Vec<char>> = Vec::new();
    let mut i: usize = 0;
    assert(all.take(0) =~= Seq::<Seq<char>>::empty());
    assert(views(sorted@) =~= arranged(all.take(0)));
    while i < names.len()
        invariant
            i <= names.len(),
            all == views(names@),
            views(sorted@) == arranged(all.take(i as int)),
        decreases names.len() - i,
    {
        let mut name: Vec<char> = Vec::new();
        push_range(&mut name, &names[i], 0, names[i].len());
        proof {
            assert(names@[i as int]@.subrange(0, names@[i as int]@.len() as int)
                =~= names@[i as int]@);
            assert(name@ == all[i as int]);
        }
        let ghost before = views(sorted@);
        let mut p: usize = 0;
        while p < sorted.len() && !comes_first(&name, &sorted[p])
            invariant
                p <= sorted.len(),
                before == views(sorted@),
                forall|j: int| 0 <= j < p ==> !shown_before(name@, #[trigger] before[j]),
            decreases sorted.len() - p,
        {
            assert(before[p as int] == sorted@[p as int]@);
            p += 1;
        }
        proof {
            if p < sorted.len() {
                assert(before[p as int] == sorted@[p as int]@);
            }
            lemma_placed_at(before, name@, p as int);
            assert(all.take(i + 1).drop_last() =~= all.take(i as int));
            assert(all.take(i + 1).last() == all[i as int]);
        }
        sorted.insert(p, name);
        assert(views(sorted@) =~= before.insert(p as int, all[i as int]));
        i += 1;
    }
    assert(all.take(names.len() as int) =~= all);
    sorted
}

/// Cuts a text into its acronyms: two characters each, and a single
/// character that is left at the end as an acronym of its own.
pub fn split_acronyms(text: &Vec<char>) -> (names: Vec<Vec<char>>)
    ensures
        views(names@) == acronyms_in(text@),
{
    let n: usize = text.len();
    let mut names: Vec<Vec<char>> = Vec::new();
    let mut at: usize = 0;
    while at < n
        invariant
            at <= n,
            n == text.len(),
            at % 2 == 0 || at == n,
            names.len() == (at + 1) / 2,
            forall|i: int|
                0 <= i < names.len() ==> (#[trigger] names@[i])@ == text@.subrange(
                    2 * i,
                    acronym_end(i, n as int),
                ),
        decreases n - at,
    {
        let end: usize = if n - at >= 2 {
            at + 2
        } else {
            n
        };
        let mut name: Vec<char> = Vec::new();
        push_range(&mut name, text, at, end);
        assert(end as int == acronym_end(at as int / 2, n as int));
        names.push(name);
        at = end;
    }
    assert(views(names@) =~= acronyms_in(text@));
    names
}

/// Writes acronyms one behind the other.
fn write_names(names: &Vec<Vec<char>>) -> (text: String)
    ensures
        text@ == written(views(names@)),
{
    let chars = crate::text::join(names, &Vec::new());
    string_of(&chars)
}

/// The display string of a list of upper-case acronyms: `NoMod` for none,
/// else the acronyms in display order.
pub fn display_uppercased(names: &Vec<Vec<char>>) -> (shown: String)
    ensures
        shown@ == display_upper(views(names@)),
{
    if names.len() == 0 {
        String::from_str("NoMod")
    } else {
        let sorted = arrange(names);
        write_names(&sorted)
    }
}

/// Puts acronyms that are already in upper case and written one behind the
/// other into display order: those with a place by place (EZ, HD, FL, HR,
/// DT, NC, HT, DC, SD, PF, NF, RX, AP), then the others in the order of
/// texts. The text is cut into acronyms of two characters.
pub fn order_uppercased(upper: &str) -> (shown: String)
    ensures
        shown@ == ordered(upper@),
{
    let names = split_acronyms(&chars_of(upper));
    let sorted = arrange(&names);
    write_names(&sorted)
}

/// Puts acronyms written one behind the other into display order. The text
/// is taken to upper case first.
pub fn order_mods(mods_string: &str) -> (shown: String)
    ensures
        shown@ == ordered(uppercase_of(mods_string@)),
{
    let upper = to_uppercase(mods_string);
    order_uppercased(upper.as_str())
}

/// The number of modifiers that the older client packs into its bit mask.
pub const STABLE_MOD_COUNT: usize = 14;

/// The bit of Sudden Death in the older client's mask.
pub const SUDDEN_DEATH: u32 = 32;

/// The bit of Double Time in the older client's mask.
pub const DOUBLE_TIME: u32 = 64;

/// The bit of Nightcore in the older client's mask.
pub const NIGHTCORE: u32 = 512;

/// The bit of Perfect in the older client's mask.
pub const PERFECT: u32 = 16384;

/// The bit that entry `k` of the older client's table tests.
pub open spec fn stable_flag(k: int) -> u32 {
    if k == 0 {
        2
    } else if k == 1 {
        1
    } else if k == 2 {
        256
    } else if k == 3 {
        16
    } else if k == 4 {
        SUDDEN_DEATH
    } else if k == 5 {
        PERFECT
    } else if k == 6 {
        DOUBLE_TIME
    } else if k == 7 {
        NIGHTCORE
    } else if k == 8 {
        8
    } else if k == 9 {
        1024
    } else if k == 10 {
        128
    } else if k == 11 {
        8192
    } else if k == 12 {
        4096
    } else {
        4
    }
}

/// The acronym of entry `k` of the older client's table: EZ, NF, HT, HR, SD,
/// PF, DT, NC, HD, FL, RX, AP, SO, TD.
pub open spec fn stable_acronym(k: int) -> Seq<char> {
    if k == 0 {
        seq!['E', 'Z']
    } else if k == 1 {
        seq!['N', 'F']
    } else if k == 2 {
        seq!['H', 'T']
    } else if k == 3 {
        seq!['H', 'R']
    } else if k == 4 {
        seq!['S', 'D']
    } else if k == 5 {
        seq!['P', 'F']
    } else if k == 6 {
        seq!['D', 'T']
    } else if k == 7 {
        seq!['N', 'C']
    } else if k == 8 {
        seq!['H', 'D']
    } else if k == 9 {
        seq!['F', 'L']
    } else if k == 10 {
        seq!['R', 'X']
    } else if k == 11 {
        seq!['A', 'P']
    } else if k == 12 {
        seq!['S', 'O']
    } else {
        seq!['T', 'D']
    }
}

/// Whether entry `k` is reported for the mask `bits`: its bit is set, and it
/// is neither Double Time under Nightcore nor Sudden Death under Perfect.
pub open spec fn stable_shown(bits: u32, k: int) -> bool {
    &&& bits & stable_flag(k) != 0
    &&& !(stable_flag(k) == DOUBLE_TIME && bits & NIGHTCORE != 0)
    &&& !(stable_flag(k) == SUDDEN_DEATH && bits & PERFECT != 0)
}

/// The acronyms reported for `bits` among the first `n` entries of the
/// table, in table order.
pub open spec fn stable_names(bits: u32, n: int) -> Seq<Seq<char>>
    decreases n,
{
    if n <= 0 {
        Seq::empty()
    } else if stable_shown(bits, n - 1) {
        stable_names(bits, n - 1).push(stable_acronym(n - 1))
    } else {
        stable_names(bits, n - 1)
    }
}

/// An acronym is reported exactly where an entry with that acronym is shown.
pub proof fn lemma_stable_names_members(bits: u32, n: int, name: Seq<char>)
    requires
        0 <= n <= STABLE_MOD_COUNT,
    ensures
        stable_names(bits, n).contains(name) <==> exists|k: int|
            0 <= k < n && stable_shown(bits, k) && #[trigger] stable_acronym(k) == name,
    decreases n,
{
    if n > 0 {
        lemma_stable_names_members(bits, n - 1, name);
        let prev = stable_names(bits, n - 1);
        if stable_shown(bits, n - 1) {
            let now = prev.push(stable_acronym(n - 1));
            assert(now.last() == stable_acronym(n - 1));
            if now.contains(name) {
                let i = choose|i: int| 0 <= i < now.len() && now[i] == name;
                if i < prev.len() {
                    assert(prev[i] == name);
                    assert(prev.contains(name));
                } else {
                    assert(stable_acronym(n - 1) == name);
                }
            }
            if prev.contains(name) {
                let i = choose|i: int| 0 <= i < prev.len() && prev[i] == name;
                assert(now[i] == name);
            }
            if stable_acronym(n - 1) == name {
                assert(now[now.len() - 1] == name);
            }
        }
    }
}

/// Under Nightcore the list holds `NC` and no `DT`; under Perfect it holds
/// `PF` and no `SD`.
pub proof fn lemma_stable_pairs(bits: u32)
    ensures
        bits & NIGHTCORE != 0 ==> stable_names(bits, STABLE_MOD_COUNT as int).contains(
            seq!['N', 'C'],
        ) && !stable_names(bits, STABLE_MOD_COUNT as int).contains(seq!['D', 'T']),
        bits & PERFECT != 0 ==> stable_names(bits, STABLE_MOD_COUNT as int).contains(
            seq!['P', 'F'],
        ) && !stable_names(bits, STABLE_MOD_COUNT as int).contains(seq!['S', 'D']),
{
    let n = STABLE_MOD_COUNT as int;
    lemma_stable_names_members(bits, n, seq!['N', 'C']);
    lemma_stable_names_members(bits, n, seq!['D', 'T']);
    lemma_stable_names_members(bits, n, seq!['P', 'F']);
    lemma_stable_names_members(bits, n, seq!['S', 'D']);
    assert(stable_acronym(7) == seq!['N', 'C']);
    assert(stable_acronym(5) == seq!['P', 'F']);
    assert forall|k: int| 0 <= k < n && #[trigger] stable_acronym(k) == seq!['D', 'T'] implies k
        == 6 by {
        lemma_acronym_chars(k);
        assert(seq!['D', 'T'][0] == 'D' && seq!['D', 'T'][1] == 'T');
    }
    assert forall|k: int| 0 <= k < n && #[trigger] stable_acronym(k) == seq!['S', 'D'] implies k
        == 4 by {
        lemma_acronym_chars(k);
        assert(seq!['S', 'D'][0] == 'S' && seq!['S', 'D'][1] == 'D');
    }
}

/// The two characters of each entry's acronym.
proof fn lemma_acronym_chars(k: int)
    ensures
        stable_acronym(k).len() == 2,
        k == 4 ==> stable_acronym(k)[0] == 'S' && stable_acronym(k)[1] == 'D',
        k == 6 ==> stable_acronym(k)[0] == 'D' && stable_acronym(k)[1] == 'T',
        k != 4 && 0 <= k < STABLE_MOD_COUNT ==> !(stable_acronym(k)[0] == 'S' && stable_acronym(
            k,
        )[1] == 'D'),
        k != 6 && 0 <= k < STABLE_MOD_COUNT ==> !(stable_acronym(k)[0] == 'D' && stable_acronym(
            k,
        )[1] == 'T'),
{
}

fn stable_entry(k: usize) -> (entry: (u32, Vec<char>))
    requires
        k < STABLE_MOD_COUNT,
    ensures
        entry.0 == stable_flag(k as int),
        entry.1@ == stable_acronym(k as int),
{
    let row: (u32, char, char) = if k == 0 {
        (2, 'E', 'Z')
    } else if k == 1 {
        (1, 'N', 'F')
    } else if k == 2 {
        (256, 'H', 'T')
    } else if k == 3 {
        (16, 'H', 'R')
    } else if k == 4 {
        (SUDDEN_DEATH, 'S', 'D')
    } else if k == 5 {
        (PERFECT, 'P', 'F')
    } else if k == 6 {
        (DOUBLE_TIME, 'D', 'T')
    } else if k == 7 {
        (NIGHTCORE, 'N', 'C')
    } else if k == 8 {
        (8, 'H', 'D')
    } else if k == 9 {
        (1024, 'F', 'L')
    } else if k == 10 {
        (128, 'R', 'X')
    } else if k == 11 {
        (8192, 'A', 'P')
    } else if k == 12 {
        (4096, 'S', 'O')
    } else {
        (4, 'T', 'D')
    };
    let mut acronym: Vec<char> = Vec::new();
    acronym.push(row.1);
    acronym.push(row.2);
    assert(acronym@ =~= stable_acronym(k as int));
    (row.0, acronym)
}

/// Decodes the older client's bit mask into the modifiers it stands for, in
/// table order. Nightcore comes with the bit of Double Time and Perfect with
/// the bit of Sudden Death; the implied one of each pair is left out.
pub fn parse_stable_mods(bits: u32) -> (mods: Vec<ModInfo>)
    ensures
        acronyms(mod_views(mods@)) == stable_names(bits, STABLE_MOD_COUNT as int),
        forall|i: int| 0 <= i < mods.len() ==> (#[trigger] mods[i]).settings is None,
        bits & NIGHTCORE != 0 ==> acronyms(mod_views(mods@)).contains(seq!['N', 'C'])
            && !acronyms(mod_views(mods@)).contains(seq!['D', 'T']),
        bits & PERFECT != 0 ==> acronyms(mod_views(mods@)).contains(seq!['P', 'F']) && !acronyms(
            mod_views(mods@),
        ).contains(seq!['S', 'D']),
{
    let mut mods: Vec<ModInfo> = Vec::new();
    let mut k: usize = 0;
    assert(acronyms(mod_views(mods@)) =~= stable_names(bits, 0));
    while k < STABLE_MOD_COUNT
        invariant
            k <= STABLE_MOD_COUNT,
            acronyms(mod_views(mods@)) == stable_names(bits, k as int),
            forall|i: int| 0 <= i < mods.len() ==> (#[trigger] mods[i]).settings is None,
        decreases STABLE_MOD_COUNT - k,
    {
        let (flag, acronym) = stable_entry(k);
        let ghost before = acronyms(mod_views(mods@));
        if bits & flag != 0 && !(flag == DOUBLE_TIME && bits & NIGHTCORE != 0) && !(flag
            == SUDDEN_DEATH && bits & PERFECT != 0) {
            mods.push(ModInfo { acronym: string_of(&acronym), settings: None });
            assert(acronyms(mod_views(mods@)) =~= before.push(stable_acronym(k as int)));
        }
        k += 1;
    }
    proof {
        lemma_stable_pairs(bits);
    }
    mods
}

/// Whether two strings hold the same characters.
pub fn same_text(a: &String, b: &String) -> (same: bool)
    ensures
        same == (a@ == b@),
{
    *a == *b
}

impl ModInfo {
    /// A copy of this modifier.
    pub fn duplicate(&self) -> (copy: ModInfo)
        ensures
            copy@ == self@,
    {
        let settings = match &self.settings {
            Some(text) => Some(text.clone()),
            None => None,
        };
        ModInfo { acronym: self.acronym.clone(), settings }
    }

    /// Whether two modifiers have the same acronym and the same settings.
    pub fn same_as(&self, other: &ModInfo) -> (same: bool)
        ensures
            same == (self@ == other@),
    {
        let same_settings = match (&self.settings, &other.settings) {
            (Some(a), Some(b)) => same_text(a, b),
            (None, None) => true,
            _ => false,
        };
        same_text(&self.acronym, &other.acronym) && same_settings
    }
}

/// The modifiers of a play without any.
pub open spec fn no_mods() -> GameplayModsView {
    GameplayModsView { mods: Seq::empty(), mods_string: "NoMod"@ }
}

impl GameplayMods {
    /// The modifiers of a play without any: an empty list, shown as `NoMod`.
    pub fn none() -> (mods: GameplayMods)
        ensures
            mods@ == no_mods(),
    {
        let mods = GameplayMods { mods: Vec::new(), mods_string: String::from_str("NoMod") };
        assert(mods@.mods =~= Seq::empty());
        mods
    }

    /// The modifiers of a play from their list: the list as it is, and the
    /// display string of its acronyms, each taken to upper case.
    pub fn from_mods(mods: Vec<ModInfo>) -> (made: GameplayMods)
        ensures
            made@.mods == mod_views(mods@),
            made@.mods_string == display_of(acronyms(mod_views(mods@))),
    {
        let ghost names = upper_names(acronyms(mod_views(mods@)));
        let mut parts: Vec<Vec<char>> = Vec::new();
        let mut i: usize = 0;
        while i < mods.len()
            invariant
                i <= mods.len(),
                names == upper_names(acronyms(mod_views(mods@))),
                views(parts@) == names.take(i as int),
            decreases mods.len() - i,
        {
            let ghost before = views(parts@);
            let upper = to_uppercase(mods[i].acronym.as_str());
            let name = chars_of(upper.as_str());
            assert(name@ == names[i as int]);
            parts.push(name);
            assert(views(parts@) =~= before.push(names[i as int]));
            assert(names.take(i + 1) =~= names.take(i as int).push(names[i as int]));
            i += 1;
        }
        assert(names.take(mods.len() as int) =~= names);
        let mods_string = display_uppercased(&parts);
        GameplayMods { mods, mods_string }
    }

    /// The modifiers of a play from a list whose acronyms are in upper
    /// case: the list as it is, and the display string of its acronyms.
    pub fn from_uppercased(mods: Vec<ModInfo>) -> (made: GameplayMods)
        ensures
            made@.mods == mod_views(mods@),
            made@.mods_string == display_upper(acronyms(mod_views(mods@))),
    {
        let ghost names = acronyms(mod_views(mods@));
        let mut parts: Vec<Vec<char>> = Vec::new();
        let mut i: usize = 0;
        while i < mods.len()
            invariant
                i <= mods.len(),
                names == acronyms(mod_views(mods@)),
                views(parts@) == names.take(i as int),
            decreases mods.len() - i,
        {
            let ghost before = views(parts@);
            let name = chars_of(mods[i].acronym.as_str());
            assert(name@ == names[i as int]);
            parts.push(name);
            assert(views(parts@) =~= before.push(names[i as int]));
            assert(names.take(i + 1) =~= names.take(i as int).push(names[i as int]));
            i += 1;
        }
        assert(names.take(mods.len() as int) =~= names);
        let mods_string = display_uppercased(&parts);
        GameplayMods { mods, mods_string }
    }

    /// A copy of these modifiers.
    pub fn duplicate(&self) -> (copy: GameplayMods)
        ensures
            copy@ == self@,
    {
        let mut mods: Vec<ModInfo> = Vec::new();
        let mut i: usize = 0;
        while i < self.mods.len()
            invariant
                i <= self.mods.len(),
                mod_views(mods@) == mod_views(self.mods@).take(i as int),
            decreases self.mods.len() - i,
        {
            let ghost before = mod_views(mods@);
            let ghost all = mod_views(self.mods@);
            let copy = self.mods[i].duplicate();
            assert(copy@ == all[i as int]);
            mods.push(copy);
            assert(mod_views(mods@) =~= before.push(all[i as int]));
            assert(all.take(i + 1) =~= all.take(i as int).push(all[i as int]));
            i += 1;
        }
        assert(mod_views(self.mods@).take(self.mods.len() as int) =~= mod_views(self.mods@));
        GameplayMods { mods, mods_string: self.mods_string.clone() }
    }

    /// Whether two plays have the same modifiers, with the same settings, in
    /// the same order, and the same display string.
    pub fn same_as(&self, other: &GameplayMods) -> (same: bool)
        ensures
            same == (self@ == other@),
    {
        if self.mods.len() != other.mods.len() {
            assert(mod_views(self.mods@).len() != mod_views(other.mods@).len());
            return false;
        }
        let mut i: usize = 0;
        while i < self.mods.len()
            invariant
                i <= self.mods.len(),
                self.mods.len() == other.mods.len(),
                forall|k: int| 0 <= k < i ==> (#[trigger] self.mods[k])@ == other.mods[k]@,
            decreases self.mods.len() - i,
        {
            if !self.mods[i].same_as(&other.mods[i]) {
                assert(mod_views(self.mods@)[i as int] != mod_views(other.mods@)[i as int]);
                return false;
            }
            i += 1;
        }
        assert(mod_views(self.mods@) =~= mod_views(other.mods@));
        self.mods_string == other.mods_string
    }
}

/// Whether two optional sets of modifiers are the same.
pub open spec fn same_optional_mods(a: Option<GameplayMods>, b: Option<GameplayMods>) -> bool {
    match (a, b) {
        (Some(x), Some(y)) => x@ == y@,
        (None, None) => true,
        _ => false,
    }
}

/// Whether two optional sets of modifiers are the same.
pub fn same_mods(a: &Option<GameplayMods>, b: &Option<GameplayMods>) -> (same: bool)
    ensures
        same == same_optional_mods(*a, *b),
{
    match (a, b) {
        (Some(x), Some(y)) => x.same_as(y),
        (None, None) => true,
        _ => false,
    }
}

/// The bits that an acronym sets in the mask that the performance
/// calculator takes. Nightcore brings the bit of Double Time along, Perfect
/// that of Sudden Death; an acronym that the mask has no bit for sets none.
pub open spec fn acronym_bits(name: Seq<char>) -> u32 {
    if name == "NF"@ {
        1
    } else if name == "EZ"@ {
        2
    } else if name == "TD"@ {
        4
    } else if name == "HD"@ {
        8
    } else if name == "HR"@ {
        16
    } else if name == "SD"@ {
        32
    } else if name == "DT"@ {
        64
    } else if name == "RX"@ {
        128
    } else if name == "HT"@ {
        256
    } else if name == "NC"@ {
        576
    } else if name == "FL"@ {
        1024
    } else if name == "SO"@ {
        4096
    } else if name == "AP"@ {
        8192
    } else if name == "PF"@ {
        16416
    } else {
        0
    }
}

/// The bits of the first `n` of `names`, joined.
pub open spec fn names_bits(names: Seq<Seq<char>>, n: int) -> u32
    decreases n,
{
    if n <= 0 {
        0
    } else {
        names_bits(names, n - 1) | acronym_bits(names[n - 1])
    }
}

fn bits_of(name: &Vec<char>) -> (bits: u32)
    ensures
        bits == acronym_bits(name@),
{
    if is_text(name, "NF") {
        1
    } else if is_text(name, "EZ") {
        2
    } else if is_text(name, "TD") {
        4
    } else if is_text(name, "HD") {
        8
    } else if is_text(name, "HR") {
        16
    } else if is_text(name, "SD") {
        32
    } else if is_text(name, "DT") {
        64
    } else if is_text(name, "RX") {
        128
    } else if is_text(name, "HT") {
        256
    } else if is_text(name, "NC") {
        576
    } else if is_text(name, "FL") {
        1024
    } else if is_text(name, "SO") {
        4096
    } else if is_text(name, "AP") {
        8192
    } else if is_text(name, "PF") {
        16416
    } else {
        0
    }
}

/// The bit mask that the performance calculator takes for a play: the bits
/// of each of its modifiers, and none for a play without modifier data.
pub fn mods_to_bitflag(mods: &Option<GameplayMods>) -> (bits: u32)
    ensures
        bits == match *mods {
            Some(m) => names_bits(acronyms(m@.mods), m@.mods.len() as int),
            None => 0,
        },
{
    match mods {
        None => 0,
        Some(m) => {
            let ghost names = acronyms(m@.mods);
            let mut bits: u32 = 0;
            let mut i: usize = 0;
            while i < m.mods.len()
                invariant
                    i <= m.mods.len(),
                    names == acronyms(m@.mods),
                    bits == names_bits(names, i as int),
                decreases m.mods.len() - i,
            {
                let name = chars_of(m.mods[i].acronym.as_str());
                assert(name@ == names[i as int]);
                bits = bits | bits_of(&name);
                i += 1;
            }
            bits
        },
    }
}

impl Default for ModInfo {
    /// A modifier without acronym and without settings.
    fn default() -> (info: ModInfo)
        ensures
            info@ == (ModInfoView { acronym: Seq::empty(), settings: None }),
    {
        ModInfo { acronym: String::new(), settings: None }
    }
}

impl Default for GameplayMods {
    /// No modifiers and an empty display string.
    fn default() -> (mods: GameplayMods)
        ensures
            mods@ == (GameplayModsView { mods: Seq::empty(), mods_string: Seq::empty() }),
    {
        let mods = GameplayMods { mods: Vec::new(), mods_string: String::new() };
        assert(mods@.mods =~= Seq::empty());
        mods
    }
}

} // verus!
