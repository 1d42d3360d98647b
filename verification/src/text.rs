//! Character-level helpers shared by the parsers and formatters: searching,
//! cutting and replacing in sequences of characters.

use vstd::prelude::*;
use vstd::std_specs::iter::IteratorSpec;

verus! {

/// Whether `pat` stands in `s` with its first character at index `at`.
pub open spec fn occurs(s: Seq<char>, pat: Seq<char>, at: int) -> bool {
    &&& 0 <= at
    &&& at + pat.len() <= s.len()
    &&& forall|j: int| 0 <= j < pat.len() ==> #[trigger] s[at + j] == pat[j]
}

/// Whether `pat` stands somewhere in `s`.
pub open spec fn contains(s: Seq<char>, pat: Seq<char>) -> bool {
    exists|at: int| occurs(s, pat, at)
}

/// Whether `pat` stands in `s` at or behind index `from`.
pub open spec fn contains_from(s: Seq<char>, pat: Seq<char>, from: int) -> bool {
    exists|at: int| from <= at && occurs(s, pat, at)
}

/// `at` is the lowest index at or behind `from` at which `pat` stands in `s`.
pub open spec fn is_first_from(s: Seq<char>, pat: Seq<char>, from: int, at: int) -> bool {
    &&& from <= at
    &&& occurs(s, pat, at)
    &&& forall|k: int| from <= k < at ==> !occurs(s, pat, k)
}

/// The lowest index at or behind `from` at which `pat` stands in `s`;
/// meaningful where there is one.
pub open spec fn index_from(s: Seq<char>, pat: Seq<char>, from: int) -> int {
    choose|at: int| is_first_from(s, pat, from, at)
}

/// The lowest index at which `pat` stands in `s`; meaningful where `s`
/// contains `pat`.
pub open spec fn index_of(s: Seq<char>, pat: Seq<char>) -> int {
    index_from(s, pat, 0)
}

/// `s` with every occurrence of `pat`, taken from the left and without
/// overlap, replaced by `with`. An empty `pat` replaces nothing.
pub open spec fn replaced(s: Seq<char>, pat: Seq<char>, with: Seq<char>) -> Seq<char>
    decreases s.len(),
{
    if pat.len() == 0 || s.len() == 0 {
        s
    } else if occurs(s, pat, 0) {
        with + replaced(s.subrange(pat.len() as int, s.len() as int), pat, with)
    } else {
        seq![s[0]] + replaced(s.drop_first(), pat, with)
    }
}

/// The lowest occurrence behind `from` is the only index that
/// `is_first_from` accepts.
pub proof fn lemma_first_is_index(s: Seq<char>, pat: Seq<char>, from: int, at: int)
    requires
        is_first_from(s, pat, from, at),
    ensures
        index_from(s, pat, from) == at,
        contains_from(s, pat, from),
        from <= 0 ==> contains(s, pat),
{
    let chosen = index_from(s, pat, from);
    assert(is_first_from(s, pat, from, chosen));
    if chosen < at {
        assert(!occurs(s, pat, chosen));
    }
    if at < chosen {
        assert(!occurs(s, pat, at));
    }
}

/// The characters of `s`, in order.
pub fn chars_of(s: &str) -> (v: Vec<char>)
    ensures
        v@ == s@,
{
    let mut it = s.chars();
    let mut v: Vec<char> = Vec::new();
    loop
        invariant
            it.remaining().len() <= s@.len(),
            v@ + it.remaining() =~= s@,
        ensures
            v@ =~= s@,
        decreases s@.len() - v@.len(),
    {
        match it.next() {
            Some(c) => {
                v.push(c);
            },
            None => {
                break;
            },
        }
    }
    v
}

/// Collects characters into a `String` with `String::from_iter`, which keeps
/// each character and their order.
#[verifier::external_body]
pub(crate) fn string_of(chars: &Vec<char>) -> (s: String)
    ensures
        s@ == chars@,
{
    chars.iter().collect()
}

/// Whether `pat` stands in `s` with its first character at index `at`.
pub fn occurs_here(s: &Vec<char>, pat: &Vec<char>, at: usize) -> (found: bool)
    requires
        at + pat.len() <= s.len(),
    ensures
        found == occurs(s@, pat@, at as int),
{
    let mut j: usize = 0;
    while j < pat.len()
        invariant
            j <= pat.len(),
            at + pat.len() <= s.len(),
            forall|k: int| 0 <= k < j ==> #[trigger] s@[at + k] == pat@[k],
        decreases pat.len() - j,
    {
        if s[at + j] != pat[j] {
            return false;
        }
        j += 1;
    }
    true
}

/// The lowest index at or behind `from` at which `pat` stands in `s`.
pub fn find_from(s: &Vec<char>, pat: &Vec<char>, from: usize) -> (found: Option<usize>)
    ensures
        match found {
            Some(at) => is_first_from(s@, pat@, from as int, at as int),
            None => !contains_from(s@, pat@, from as int),
        },
{
    if s.len() < pat.len() || from > s.len() - pat.len() {
        return None;
    }
    let last: usize = s.len() - pat.len();
    let mut i: usize = from;
    while i <= last
        invariant
            from <= i <= last + 1,
            last == s.len() - pat.len(),
            forall|k: int| from <= k < i ==> !occurs(s@, pat@, k),
        decreases last + 1 - i,
    {
        if occurs_here(s, pat, i) {
            return Some(i);
        }
        i += 1;
    }
    None
}

/// Whether `pat` stands somewhere in `s`.
pub fn contains_chars(s: &Vec<char>, pat: &Vec<char>) -> (found: bool)
    ensures
        found == contains(s@, pat@),
{
    match find_from(s, pat, 0) {
        Some(at) => true,
        None => {
            assert forall|at: int| !occurs(s@, pat@, at) by {
                if occurs(s@, pat@, at) {
                    assert(contains_from(s@, pat@, 0));
                }
            }
            false
        },
    }
}

/// Appends the characters of `s` from index `from` up to `to` to `out`.
pub fn push_range(out: &mut Vec<char>, s: &Vec<char>, from: usize, to: usize)
    requires
        from <= to <= s.len(),
    ensures
        final(out)@ == old(out)@ + s@.subrange(from as int, to as int),
{
    let mut i: usize = from;
    while i < to
        invariant
            from <= i <= to <= s.len(),
            out@ == old(out)@ + s@.subrange(from as int, i as int),
        decreases to - i,
    {
        out.push(s[i]);
        assert(s@.subrange(from as int, i + 1) =~= s@.subrange(from as int, i as int).push(s@[i as int]));
        i += 1;
    }
    assert(s@.subrange(from as int, from as int) =~= Seq::<char>::empty());
}

/// `s` with every occurrence of `pat` replaced by `with`.
pub fn replace_all(s: &Vec<char>, pat: &Vec<char>, with: &Vec<char>) -> (out: Vec<char>)
    ensures
        out@ == replaced(s@, pat@, with@),
{
    let mut out: Vec<char> = Vec::new();
    if pat.len() == 0 {
        push_range(&mut out, s, 0, s.len());
        assert(s@.subrange(0, s@.len() as int) =~= s@);
        return out;
    }
    let mut i: usize = 0;
    proof {
        assert(s@.subrange(0, s@.len() as int) =~= s@);
        assert(out@ + replaced(s@, pat@, with@) =~= replaced(s@, pat@, with@));
    }
    while i < s.len()
        invariant
            i <= s.len(),
            pat.len() > 0,
            out@ + replaced(s@.subrange(i as int, s@.len() as int), pat@, with@) == replaced(
                s@,
                pat@,
                with@,
            ),
        decreases s.len() - i,
    {
        let ghost rest = s@.subrange(i as int, s@.len() as int);
        let ghost before = out@;
        if pat.len() <= s.len() - i && occurs_here(s, pat, i) {
            proof {
                assert(occurs(rest, pat@, 0)) by {
                    assert forall|j: int| 0 <= j < pat@.len() implies #[trigger] rest[0 + j]
                        == pat@[j] by {
                        assert(rest[0 + j] == s@[i + j]);
                    }
                }
                assert(rest.subrange(pat@.len() as int, rest.len() as int) =~= s@.subrange(
                    i + pat@.len(),
                    s@.len() as int,
                ));
            }
            push_range(&mut out, with, 0, with.len());
            proof {
                assert(with@.subrange(0, with@.len() as int) =~= with@);
                assert(out@ + replaced(
                    s@.subrange(i + pat@.len(), s@.len() as int),
                    pat@,
                    with@,
                ) =~= before + replaced(rest, pat@, with@));
            }
            i += pat.len();
        } else {
            proof {
                assert(!occurs(rest, pat@, 0)) by {
                    if occurs(rest, pat@, 0) {
                        assert forall|j: int| 0 <= j < pat@.len() implies #[trigger] s@[i + j]
                            == pat@[j] by {
                            assert(rest[0 + j] == s@[i + j]);
                        }
                    }
                }
                assert(rest.drop_first() =~= s@.subrange(i + 1, s@.len() as int));
            }
            out.push(s[i]);
            proof {
                assert(out@ + replaced(s@.subrange(i + 1, s@.len() as int), pat@, with@)
                    =~= before + replaced(rest, pat@, with@));
            }
            i += 1;
        }
    }
    assert(s@.subrange(s@.len() as int, s@.len() as int) =~= Seq::<char>::empty());
    assert(out@ + Seq::<char>::empty() =~= out@);
    out
}

/// Whether `c` has Unicode's `White_Space` property.
pub open spec fn is_space(c: char) -> bool {
    let n = c as int;
    ||| 0x09 <= n <= 0x0D
    ||| n == 0x20
    ||| n == 0x85
    ||| n == 0xA0
    ||| n == 0x1680
    ||| 0x2000 <= n <= 0x200A
    ||| n == 0x2028
    ||| n == 0x2029
    ||| n == 0x202F
    ||| n == 0x205F
    ||| n == 0x3000
}

/// The number of characters in front of the first white space of `s`.
pub open spec fn word_len(s: Seq<char>) -> nat
    decreases s.len(),
{
    if s.len() == 0 || is_space(s[0]) {
        0
    } else {
        1 + word_len(s.drop_first())
    }
}

/// The first word of a text is no longer than the text, and not empty where
/// the text begins with a character that is no white space.
pub proof fn lemma_word_len_bounds(s: Seq<char>)
    ensures
        word_len(s) <= s.len(),
        s.len() > 0 && !is_space(s[0]) ==> word_len(s) > 0,
    decreases s.len(),
{
    if s.len() > 0 && !is_space(s[0]) {
        lemma_word_len_bounds(s.drop_first());
    }
}

/// The maximal runs of characters without white space in `s`, in order.
/// (The test of the first word's length only serves to show that the
/// definition ends; by `lemma_word_len_bounds` it always holds.)
pub open spec fn words(s: Seq<char>) -> Seq<Seq<char>>
    decreases s.len(),
{
    if s.len() == 0 {
        Seq::empty()
    } else if is_space(s[0]) {
        words(s.drop_first())
    } else {
        let n = word_len(s) as int;
        if 0 < n <= s.len() {
            seq![s.subrange(0, n)] + words(s.subrange(n, s.len() as int))
        } else {
            Seq::empty()
        }
    }
}

/// The pieces of `parts` in one sequence, with `sep` between neighbours.
pub open spec fn joined(parts: Seq<Seq<char>>, sep: Seq<char>) -> Seq<char>
    decreases parts.len(),
{
    if parts.len() == 0 {
        Seq::empty()
    } else if parts.len() == 1 {
        parts[0]
    } else {
        joined(parts.drop_last(), sep) + sep + parts.last()
    }
}

/// `s` with each run of white space turned into one blank, and none at
/// either end.
pub open spec fn collapsed(s: Seq<char>) -> Seq<char> {
    joined(words(s), seq![' '])
}

/// The views of a list of character vectors.
pub open spec fn views(v: Seq<Vec<char>>) -> Seq<Seq<char>> {
    Seq::new(v.len(), |i: int| v[i]@)
}

/// A run of `n` characters without white space that ends at the end of `s`
/// or in front of white space is the first word of `s`.
pub proof fn lemma_word_len(s: Seq<char>, n: int)
    requires
        0 <= n <= s.len(),
        forall|k: int| 0 <= k < n ==> !is_space(#[trigger] s[k]),
        n == s.len() || is_space(s[n]),
    ensures
        word_len(s) == n,
    decreases n,
{
    if n > 0 {
        let rest = s.drop_first();
        assert forall|k: int| 0 <= k < n - 1 implies !is_space(#[trigger] rest[k]) by {
            assert(rest[k] == s[k + 1]);
        }
        lemma_word_len(rest, n - 1);
    }
}

/// Whether `c` has Unicode's `White_Space` property.
pub fn is_whitespace(c: char) -> (b: bool)
    ensures
        b == is_space(c),
{
    let n: u32 = c as u32;
    (0x09 <= n && n <= 0x0D) || n == 0x20 || n == 0x85 || n == 0xA0 || n == 0x1680 || (0x2000
        <= n && n <= 0x200A) || n == 0x2028 || n == 0x2029 || n == 0x202F || n == 0x205F || n
        == 0x3000
}

/// Cuts `s` into its words.
pub fn split_words(s: &Vec<char>) -> (out: Vec<Vec<char>>)
    ensures
        views(out@) == words(s@),
{
    let mut out: Vec<Vec<char>> = Vec::new();
    let n: usize = s.len();
    let mut i: usize = 0;
    proof {
        assert(s@.subrange(0, n as int) =~= s@);
        assert(views(out@) + words(s@) =~= words(s@));
    }
    while i < n
        invariant
            i <= n,
            n == s.len(),
            views(out@) + words(s@.subrange(i as int, n as int)) == words(s@),
        decreases n - i,
    {
        let ghost rest = s@.subrange(i as int, n as int);
        let ghost before = views(out@);
        if is_whitespace(s[i]) {
            proof {
                assert(rest[0] == s@[i as int]);
                assert(rest.drop_first() =~= s@.subrange(i + 1, n as int));
            }
            i += 1;
        } else {
            let mut j: usize = i;
            while j < n && !is_whitespace(s[j])
                invariant
                    i <= j <= n,
                    n == s.len(),
                    forall|k: int| i <= k < j ==> !is_space(#[trigger] s@[k]),
                decreases n - j,
            {
                j += 1;
            }
            let mut word: Vec<char> = Vec::new();
            push_range(&mut word, s, i, j);
            proof {
                assert(rest[0] == s@[i as int]);
                assert forall|k: int| 0 <= k < j - i implies !is_space(#[trigger] rest[k]) by {
                    assert(rest[k] == s@[i + k]);
                }
                if j < n {
                    assert(rest[j - i] == s@[j as int]);
                }
                lemma_word_len(rest, j - i);
                assert(rest.subrange(0, j - i) =~= s@.subrange(i as int, j as int));
                assert(rest.subrange(j - i, rest.len() as int) =~= s@.subrange(j as int, n as int));
                assert(word@ =~= rest.subrange(0, j - i));
            }
            out.push(word);
            proof {
                assert(views(out@) =~= before.push(rest.subrange(0, j - i)));
                assert(views(out@) + words(s@.subrange(j as int, n as int)) =~= before + words(
                    rest,
                ));
            }
            i = j;
        }
    }
    proof {
        assert(s@.subrange(n as int, n as int) =~= Seq::<char>::empty());
        assert(views(out@) + Seq::<Seq<char>>::empty() =~= views(out@));
    }
    out
}

/// Joins `parts` with `sep` between neighbours.
pub fn join(parts: &Vec<Vec<char>>, sep: &Vec<char>) -> (out: Vec<char>)
    ensures
        out@ == joined(views(parts@), sep@),
{
    let mut out: Vec<char> = Vec::new();
    let mut i: usize = 0;
    while i < parts.len()
        invariant
            i <= parts.len(),
            out@ == joined(views(parts@).take(i as int), sep@),
        decreases parts.len() - i,
    {
        let ghost done = views(parts@).take(i as int);
        let ghost next = views(parts@).take(i + 1);
        proof {
            assert(next.drop_last() =~= done);
            assert(next.last() == parts@[i as int]@);
        }
        if i > 0 {
            push_range(&mut out, sep, 0, sep.len());
            assert(sep@.subrange(0, sep@.len() as int) =~= sep@);
        }
        let part = &parts[i];
        push_range(&mut out, part, 0, part.len());
        assert(part@.subrange(0, part@.len() as int) =~= part@);
        proof {
            if i == 0 {
                assert(done =~= Seq::<Seq<char>>::empty());
                assert(out@ =~= part@);
            }
        }
        i += 1;
    }
    assert(views(parts@).take(parts@.len() as int) =~= views(parts@));
    out
}

/// Turns each run of white space in `s` into one blank and drops it at both
/// ends.
pub fn collapse_spaces(s: &Vec<char>) -> (out: Vec<char>)
    ensures
        out@ == collapsed(s@),
{
    let parts = split_words(s);
    let mut sep: Vec<char> = Vec::new();
    sep.push(' ');
    assert(sep@ =~= seq![' ']);
    join(&parts, &sep)
}

/// The value of `c` as a digit in base `radix`, with letters of either case
/// for the digits from ten on.
pub open spec fn digit_value(c: char, radix: int) -> Option<int> {
    let n = c as int;
    let d = if 48 <= n <= 57 {
        n - 48
    } else if 97 <= n <= 122 {
        n - 87
    } else if 65 <= n <= 90 {
        n - 55
    } else {
        -1
    };
    if 0 <= d < radix {
        Some(d)
    } else {
        None
    }
}

/// The number that `digits` write in base `radix`, where each is a digit.
pub open spec fn digits_value(digits: Seq<char>, radix: int) -> Option<int>
    decreases digits.len(),
{
    if digits.len() == 0 {
        Some(0)
    } else {
        match (digits_value(digits.drop_last(), radix), digit_value(digits.last(), radix)) {
            (Some(v), Some(d)) => Some(v * radix + d),
            _ => None,
        }
    }
}

/// `word` without one leading plus sign.
pub open spec fn unsigned_digits(word: Seq<char>) -> Seq<char> {
    if word.len() > 0 && word[0] == '+' {
        word.drop_first()
    } else {
        word
    }
}

/// The number that `word` writes in base `radix`: an optional plus sign and
/// at least one digit, with a value of at most `max`.
pub open spec fn parsed_unsigned(word: Seq<char>, radix: int, max: int) -> Option<int> {
    let digits = unsigned_digits(word);
    if digits.len() == 0 {
        None
    } else {
        match digits_value(digits, radix) {
            Some(v) => if v <= max {
                Some(v)
            } else {
                None
            },
            None => None,
        }
    }
}

/// A value never shrinks when more digits follow.
pub proof fn lemma_digits_grow(digits: Seq<char>, radix: int, n: int)
    requires
        2 <= radix,
        0 <= n <= digits.len(),
        digits_value(digits, radix) is Some,
    ensures
        digits_value(digits.take(n), radix) is Some,
        0 <= digits_value(digits.take(n), radix)->0 <= digits_value(digits, radix)->0,
    decreases digits.len() - n,
{
    if n == digits.len() {
        assert(digits.take(n) =~= digits);
        lemma_digits_nonnegative(digits, radix);
    } else {
        assert(digits.drop_last().take(n) =~= digits.take(n));
        lemma_digits_grow(digits.drop_last(), radix, n);
        let v = digits_value(digits.drop_last(), radix)->0;
        let a = digits_value(digits.take(n), radix)->0;
        assert(v * radix >= v) by (nonlinear_arith)
            requires
                v >= 0,
                radix >= 2,
        ;
    }
}

/// A written number is not negative.
pub proof fn lemma_digits_nonnegative(digits: Seq<char>, radix: int)
    requires
        2 <= radix,
        digits_value(digits, radix) is Some,
    ensures
        digits_value(digits, radix)->0 >= 0,
    decreases digits.len(),
{
    if digits.len() > 0 {
        lemma_digits_nonnegative(digits.drop_last(), radix);
        let v = digits_value(digits.drop_last(), radix)->0;
        assert(v * radix >= 0) by (nonlinear_arith)
            requires
                v >= 0,
                radix >= 2,
        ;
    }
}

/// The value of `c` as a digit in base `radix`.
pub fn digit_of(c: char, radix: u32) -> (d: Option<u32>)
    requires
        2 <= radix <= 36,
    ensures
        match d {
            Some(v) => digit_value(c, radix as int) == Some(v as int),
            None => digit_value(c, radix as int) is None,
        },
{
    let n: u32 = c as u32;
    let v: u32 = if 48 <= n && n <= 57 {
        n - 48
    } else if 97 <= n && n <= 122 {
        n - 87
    } else if 65 <= n && n <= 90 {
        n - 55
    } else {
        return None;
    };
    if v < radix {
        Some(v)
    } else {
        None
    }
}

/// Reads `word` as a number in base `radix` of at most `max`.
pub fn parse_unsigned(word: &Vec<char>, radix: u32, max: u64) -> (value: Option<u64>)
    requires
        2 <= radix <= 36,
    ensures
        match value {
            Some(v) => parsed_unsigned(word@, radix as int, max as int) == Some(v as int),
            None => parsed_unsigned(word@, radix as int, max as int) is None,
        },
{
    let n: usize = word.len();
    let first: usize = if n > 0 && word[0] == '+' {
        1
    } else {
        0
    };
    let ghost digits = unsigned_digits(word@);
    assert(digits =~= word@.subrange(first as int, n as int));
    if first == n {
        return None;
    }
    let mut acc: u128 = 0;
    let mut i: usize = first;
    proof {
        assert(digits.take(0) =~= Seq::<char>::empty());
    }
    while i < n
        invariant
            first <= i <= n,
            n == word.len(),
            2 <= radix <= 36,
            digits == word@.subrange(first as int, n as int),
            digits == unsigned_digits(word@),
            digits_value(digits.take(i - first), radix as int) == Some(acc as int),
            acc <= max,
        decreases n - i,
    {
        let ghost done = digits.take(i - first);
        let ghost next = digits.take(i - first + 1);
        proof {
            assert(next.drop_last() =~= done);
            assert(next.last() == word@[i as int]);
        }
        match digit_of(word[i], radix) {
            Some(d) => {
                assert(acc * radix <= 0xFFFF_FFFF_FFFF_FFFF * 36) by (nonlinear_arith)
                    requires
                        0 <= acc <= 0xFFFF_FFFF_FFFF_FFFF,
                        0 <= radix <= 36,
                ;
                let grown: u128 = acc * (radix as u128) + (d as u128);
                assert(digits_value(next, radix as int) == Some(grown as int));
                if grown > max as u128 {
                    proof {
                        if digits_value(digits, radix as int) is Some {
                            lemma_digits_grow(digits, radix as int, i - first + 1);
                        }
                    }
                    return None;
                }
                acc = grown;
            },
            None => {
                proof {
                    assert(digits_value(next, radix as int) is None);
                    if digits_value(digits, radix as int) is Some {
                        lemma_digits_grow(digits, radix as int, i - first + 1);
                    }
                }
                return None;
            },
        }
        i += 1;
    }
    assert(digits.take(n - first) =~= digits);
    Some(acc as u64)
}

/// Whether `s` begins with `prefix`.
pub open spec fn begins_with(s: Seq<char>, prefix: Seq<char>) -> bool {
    occurs(s, prefix, 0)
}

/// Whether `s` ends with `suffix`.
pub open spec fn finishes_with(s: Seq<char>, suffix: Seq<char>) -> bool {
    suffix.len() <= s.len() && occurs(s, suffix, s.len() - suffix.len())
}

/// Whether `s` begins with `prefix`.
pub fn starts_with(s: &Vec<char>, prefix: &Vec<char>) -> (b: bool)
    ensures
        b == begins_with(s@, prefix@),
{
    if prefix.len() > s.len() {
        return false;
    }
    occurs_here(s, prefix, 0)
}

/// Whether `s` ends with `suffix`.
pub fn ends_with(s: &Vec<char>, suffix: &Vec<char>) -> (b: bool)
    ensures
        b == finishes_with(s@, suffix@),
{
    if suffix.len() > s.len() {
        return false;
    }
    occurs_here(s, suffix, s.len() - suffix.len())
}

/// Whether two sequences of characters are the same.
pub fn same_chars(a: &Vec<char>, b: &Vec<char>) -> (same: bool)
    ensures
        same == (a@ == b@),
{
    if a.len() != b.len() {
        return false;
    }
    let found = occurs_here(a, b, 0);
    proof {
        if found {
            assert forall|j: int| 0 <= j < a@.len() implies a@[j] == b@[j] by {
                assert(a@[0 + j] == b@[j]);
            }
            assert(a@ =~= b@);
        }
    }
    found
}

/// Whether `s` is the text `literal`.
pub fn is_text(s: &Vec<char>, literal: &str) -> (same: bool)
    ensures
        same == (s@ == literal@),
{
    let other = chars_of(literal);
    same_chars(s, &other)
}

/// The lower-case form that `str::to_lowercase` gives for a text.
pub uninterp spec fn lowercase_of(s: Seq<char>) -> Seq<char>;

/// The upper-case form that `str::to_uppercase` gives for a text.
pub uninterp spec fn uppercase_of(s: Seq<char>) -> Seq<char>;

/// Lower-cases `s` with `str::to_lowercase`; the result is a function of the
/// characters of `s` alone.
#[verifier::external_body]
pub(crate) fn to_lowercase(s: &str) -> (lower: String)
    ensures
        lower@ == lowercase_of(s@),
{
    s.to_lowercase()
}

/// Upper-cases `s` with `str::to_uppercase`; the result is a function of the
/// characters of `s` alone.
#[verifier::external_body]
pub(crate) fn to_uppercase(s: &str) -> (upper: String)
    ensures
        upper@ == uppercase_of(s@),
{
    s.to_uppercase()
}

/// The character that writes the digit `d`.
pub open spec fn digit_char(d: int) -> char {
    (48 + d) as char
}

/// The decimal digits of `n`, without leading zeros.
pub open spec fn decimal(n: nat) -> Seq<char>
    decreases n,
{
    if n < 10 {
        seq![digit_char(n as int)]
    } else {
        decimal(n / 10).push(digit_char((n % 10) as int))
    }
}

/// The decimal form of `v`, with a minus sign in front of a negative
/// number.
pub open spec fn signed_decimal(v: int) -> Seq<char> {
    if v < 0 {
        seq!['-'] + decimal((-v) as nat)
    } else {
        decimal(v as nat)
    }
}

/// Appends the decimal digits of `n` to `out`.
pub fn push_decimal(out: &mut Vec<char>, n: u64)
    ensures
        final(out)@ == old(out)@ + decimal(n as nat),
    decreases n,
{
    if n >= 10 {
        push_decimal(out, n / 10);
    }
    let d: u8 = (n % 10) as u8;
    let c: char = (48u8 + d) as char;
    out.push(c);
    assert(out@ =~= old(out)@ + decimal(n as nat));
}

/// Appends the decimal form of `v` to `out`.
pub fn push_signed_decimal(out: &mut Vec<char>, v: i64)
    ensures
        final(out)@ == old(out)@ + signed_decimal(v as int),
{
    if v < 0 {
        out.push('-');
        let magnitude: u64 = if v == i64::MIN {
            0x8000_0000_0000_0000
        } else {
            (-v) as u64
        };
        let ghost before = out@;
        push_decimal(out, magnitude);
        assert(out@ =~= old(out)@ + (seq!['-'] + decimal((-v) as nat)));
    } else {
        push_decimal(out, v as u64);
    }
}

/// Appends the characters of `text` to `out`.
pub fn push_text(out: &mut Vec<char>, text: &str)
    ensures
        final(out)@ == old(out)@ + text@,
{
    let chars = chars_of(text);
    push_range(out, &chars, 0, chars.len());
    assert(chars@.subrange(0, chars@.len() as int) =~= chars@);
}

/// The number of white-space characters at the front of `s`.
pub open spec fn leading_spaces(s: Seq<char>) -> nat
    decreases s.len(),
{
    if s.len() == 0 || !is_space(s[0]) {
        0
    } else {
        1 + leading_spaces(s.drop_first())
    }
}

/// The number of white-space characters at the end of `s`.
pub open spec fn trailing_spaces(s: Seq<char>) -> nat
    decreases s.len(),
{
    if s.len() == 0 || !is_space(s.last()) {
        0
    } else {
        1 + trailing_spaces(s.drop_last())
    }
}

/// `s` without the white space at its front and at its end.
pub open spec fn trimmed(s: Seq<char>) -> Seq<char> {
    let front = leading_spaces(s) as int;
    if front >= s.len() {
        Seq::empty()
    } else {
        s.subrange(front, s.len() - trailing_spaces(s))
    }
}

/// A run of `n` white-space characters that ends at the end of `s` or in
/// front of another character is the white space at the front of `s`.
pub proof fn lemma_leading_spaces(s: Seq<char>, n: int)
    requires
        0 <= n <= s.len(),
        forall|k: int| 0 <= k < n ==> is_space(#[trigger] s[k]),
        n == s.len() || !is_space(s[n]),
    ensures
        leading_spaces(s) == n,
    decreases n,
{
    if n > 0 {
        let rest = s.drop_first();
        assert forall|k: int| 0 <= k < n - 1 implies is_space(#[trigger] rest[k]) by {
            assert(rest[k] == s[k + 1]);
        }
        lemma_leading_spaces(rest, n - 1);
    }
}

/// A run of `n` white-space characters that begins at the beginning of `s`
/// or behind another character is the white space at the end of `s`.
pub proof fn lemma_trailing_spaces(s: Seq<char>, n: int)
    requires
        0 <= n <= s.len(),
        forall|k: int| s.len() - n <= k < s.len() ==> is_space(#[trigger] s[k]),
        n == s.len() || !is_space(s[s.len() - n - 1]),
    ensures
        trailing_spaces(s) == n,
    decreases n,
{
    if n > 0 {
        let rest = s.drop_last();
        assert forall|k: int| rest.len() - (n - 1) <= k < rest.len() implies is_space(
            #[trigger] rest[k],
        ) by {
            assert(rest[k] == s[k]);
        }
        if n - 1 < rest.len() {
            assert(rest[rest.len() - (n - 1) - 1] == s[s.len() - n - 1]);
        }
        lemma_trailing_spaces(rest, n - 1);
    }
}

/// Drops the white space at the front and at the end of `s`.
pub fn trim(s: &Vec<char>) -> (out: Vec<char>)
    ensures
        out@ == trimmed(s@),
{
    let n: usize = s.len();
    let mut front: usize = 0;
    while front < n && is_whitespace(s[front])
        invariant
            front <= n,
            n == s.len(),
            forall|k: int| 0 <= k < front ==> is_space(#[trigger] s@[k]),
        decreases n - front,
    {
        front += 1;
    }
    proof {
        lemma_leading_spaces(s@, front as int);
    }
    let mut out: Vec<char> = Vec::new();
    if front == n {
        return out;
    }
    let mut end: usize = n;
    while end > front && is_whitespace(s[end - 1])
        invariant
            front <= end <= n,
            n == s.len(),
            front < n,
            !is_space(s@[front as int]),
            forall|k: int| end <= k < n ==> is_space(#[trigger] s@[k]),
        decreases end,
    {
        end -= 1;
    }
    proof {
        lemma_trailing_spaces(s@, n - end);
    }
    push_range(&mut out, s, front, end);
    out
}

/// The number of characters in front of the first `sep` in `s`.
pub open spec fn piece_len(s: Seq<char>, sep: char) -> nat
    decreases s.len(),
{
    if s.len() == 0 || s[0] == sep {
        0
    } else {
        1 + piece_len(s.drop_first(), sep)
    }
}

/// The pieces that `s` falls into when it is cut at every `sep`.
pub open spec fn pieces(s: Seq<char>, sep: char) -> Seq<Seq<char>>
    decreases s.len(),
{
    let n = piece_len(s, sep) as int;
    if n >= s.len() {
        seq![s]
    } else {
        seq![s.subrange(0, n)] + pieces(s.subrange(n + 1, s.len() as int), sep)
    }
}

/// A run of `n` characters without `sep` that ends at the end of `s` or in
/// front of a `sep` is the first piece of `s`.
pub proof fn lemma_piece_len(s: Seq<char>, sep: char, n: int)
    requires
        0 <= n <= s.len(),
        forall|k: int| 0 <= k < n ==> #[trigger] s[k] != sep,
        n == s.len() || s[n] == sep,
    ensures
        piece_len(s, sep) == n,
    decreases n,
{
    if n > 0 {
        let rest = s.drop_first();
        assert forall|k: int| 0 <= k < n - 1 implies #[trigger] rest[k] != sep by {
            assert(rest[k] == s[k + 1]);
        }
        lemma_piece_len(rest, sep, n - 1);
    }
}

/// `line` without the carriage return at its end, where it has one.
pub open spec fn without_cr(line: Seq<char>) -> Seq<char> {
    if line.len() > 0 && line.last() == '\r' {
        line.drop_last()
    } else {
        line
    }
}

/// The lines of a text: what stands between line feeds, each without the
/// carriage return in front of its line feed. A text that ends in a line
/// feed has no empty line behind it.
pub open spec fn lines(s: Seq<char>) -> Seq<Seq<char>>
    decreases s.len(),
{
    if s.len() == 0 {
        Seq::empty()
    } else {
        let n = piece_len(s, '\n') as int;
        if n >= s.len() {
            seq![s]
        } else {
            seq![without_cr(s.subrange(0, n))] + lines(s.subrange(n + 1, s.len() as int))
        }
    }
}

} // verus!
