//! Laws of the display order of modifiers. The order is total, so a list of
//! acronyms has one arrangement only: the display holds each acronym as
//! often as the list does, those with a place by place and in front of the
//! others, and it does not depend on the order in which the acronyms came.

use crate::mods::{
    acronym_end, acronyms_in, arranged, display_of, display_upper, ordered, place_from, placed,
    priority, rank, shown_before, text_before, upper_names, written, PRIORITY_COUNT,
};
use crate::text::uppercase_of;
use vstd::prelude::*;

verus! {

/// How often `name` stands in `names`.
pub open spec fn occurrences(names: Seq<Seq<char>>, name: Seq<char>) -> nat
    decreases names.len(),
{
    if names.len() == 0 {
        0
    } else {
        (if names[0] == name {
            1nat
        } else {
            0nat
        }) + occurrences(names.drop_first(), name)
    }
}

/// Whether two lists hold the same acronyms, each as often as the other.
pub open spec fn same_names(a: Seq<Seq<char>>, b: Seq<Seq<char>>) -> bool {
    forall|name: Seq<char>| #[trigger] occurrences(a, name) == occurrences(b, name)
}

/// Whether each acronym of `names` is displayed at or before all that follow
/// it.
pub open spec fn in_display_order(names: Seq<Seq<char>>) -> bool {
    forall|i: int, j: int|
        0 <= i < j < names.len() ==> shown_before(#[trigger] names[i], #[trigger] names[j])
}

/// Whether each of `names` has two characters.
pub open spec fn two_letters(names: Seq<Seq<char>>) -> bool {
    forall|i: int| 0 <= i < names.len() ==> (#[trigger] names[i]).len() == 2
}

/// A text stands at or before itself.
pub proof fn lemma_text_before_itself(a: Seq<char>)
    ensures
        text_before(a, a),
    decreases a.len(),
{
    if a.len() > 0 {
        lemma_text_before_itself(a.drop_first());
    }
}

/// Of two texts one stands at or before the other.
pub proof fn lemma_text_before_either(a: Seq<char>, b: Seq<char>)
    ensures
        text_before(a, b) || text_before(b, a),
    decreases a.len(),
{
    if a.len() > 0 && b.len() > 0 && a[0] == b[0] {
        lemma_text_before_either(a.drop_first(), b.drop_first());
    }
}

/// Two texts that stand at or before each other are one text.
pub proof fn lemma_text_before_both(a: Seq<char>, b: Seq<char>)
    requires
        text_before(a, b),
        text_before(b, a),
    ensures
        a == b,
    decreases a.len(),
{
    if a.len() == 0 || b.len() == 0 {
        assert(a =~= b);
    } else {
        lemma_text_before_both(a.drop_first(), b.drop_first());
        assert(a =~= seq![a[0]] + a.drop_first());
        assert(b =~= seq![b[0]] + b.drop_first());
    }
}

/// What stands at or before a text stands at or before all that the text
/// stands at or before.
pub proof fn lemma_text_before_chain(a: Seq<char>, b: Seq<char>, c: Seq<char>)
    requires
        text_before(a, b),
        text_before(b, c),
    ensures
        text_before(a, c),
    decreases a.len(),
{
    if a.len() > 0 && a[0] == b[0] && b[0] == c[0] {
        lemma_text_before_chain(a.drop_first(), b.drop_first(), c.drop_first());
    }
}

/// An acronym whose rank is a place is the acronym of that place, and no
/// rank lies behind the rank of the acronyms without a place.
pub proof fn lemma_rank_is_place(name: Seq<char>)
    ensures
        0 <= rank(name) <= PRIORITY_COUNT,
        rank(name) < PRIORITY_COUNT ==> name == priority(rank(name)),
{
    lemma_place_found(name, 0);
}

proof fn lemma_place_found(name: Seq<char>, k: int)
    requires
        0 <= k <= PRIORITY_COUNT,
    ensures
        match place_from(name, k) {
            Some(p) => k <= p < PRIORITY_COUNT && name == priority(p),
            None => true,
        },
    decreases PRIORITY_COUNT - k,
{
    if k < PRIORITY_COUNT && name != priority(k) {
        lemma_place_found(name, k + 1);
    }
}

/// Of two acronyms one is displayed at or before the other.
pub proof fn lemma_shown_before_either(a: Seq<char>, b: Seq<char>)
    ensures
        shown_before(a, b) || shown_before(b, a),
{
    lemma_text_before_either(a, b);
}

/// Two acronyms that are displayed at or before each other are one acronym.
pub proof fn lemma_shown_before_both(a: Seq<char>, b: Seq<char>)
    requires
        shown_before(a, b),
        shown_before(b, a),
    ensures
        a == b,
{
    lemma_text_before_both(a, b);
}

/// What is displayed at or before an acronym is displayed at or before all
/// that the acronym is displayed at or before.
pub proof fn lemma_shown_before_chain(a: Seq<char>, b: Seq<char>, c: Seq<char>)
    requires
        shown_before(a, b),
        shown_before(b, c),
    ensures
        shown_before(a, c),
{
    if rank(a) == rank(b) && rank(b) == rank(c) {
        lemma_text_before_chain(a, b, c);
    }
}

/// An acronym that is put into a list stands in it once more than before,
/// and every other acronym as often as before.
pub proof fn lemma_placed_keeps_names(sorted: Seq<Seq<char>>, name: Seq<char>, other: Seq<char>)
    ensures
        placed(sorted, name).len() == sorted.len() + 1,
        occurrences(placed(sorted, name), other) == occurrences(sorted, other) + (if name
            == other {
            1nat
        } else {
            0nat
        }),
    decreases sorted.len(),
{
    let out = placed(sorted, name);
    if sorted.len() == 0 {
        assert(out[0] == name);
        assert(out.drop_first() =~= sorted);
    } else if shown_before(name, sorted[0]) {
        assert(out[0] == name);
        assert(out.drop_first() =~= sorted);
    } else {
        let rest = sorted.drop_first();
        lemma_placed_keeps_names(rest, name, other);
        assert(out[0] == sorted[0]);
        assert(out.drop_first() =~= placed(rest, name));
    }
}

/// What is displayed at or before an acronym and at or before all of a list
/// is displayed at or before all of the list with the acronym put in.
proof fn lemma_placed_behind(sorted: Seq<Seq<char>>, name: Seq<char>, low: Seq<char>)
    requires
        shown_before(low, name),
        forall|j: int| 0 <= j < sorted.len() ==> shown_before(low, #[trigger] sorted[j]),
    ensures
        forall|i: int|
            0 <= i < placed(sorted, name).len() ==> shown_before(
                low,
                #[trigger] placed(sorted, name)[i],
            ),
    decreases sorted.len(),
{
    if sorted.len() > 0 && !shown_before(name, sorted[0]) {
        let rest = sorted.drop_first();
        assert forall|j: int| 0 <= j < rest.len() implies shown_before(low, #[trigger] rest[j]) by {
            assert(rest[j] == sorted[j + 1]);
        }
        lemma_placed_behind(rest, name, low);
        let out = placed(sorted, name);
        assert forall|i: int| 0 <= i < out.len() implies shown_before(low, #[trigger] out[i]) by {
            if i == 0 {
                assert(out[0] == sorted[0]);
            } else {
                assert(out[i] == placed(rest, name)[i - 1]);
            }
        }
    } else if sorted.len() > 0 {
        let out = placed(sorted, name);
        assert forall|i: int| 0 <= i < out.len() implies shown_before(low, #[trigger] out[i]) by {
            if i > 0 {
                assert(out[i] == sorted[i - 1]);
            }
        }
    }
}

/// A list in display order is in display order with one more acronym put
/// in.
pub proof fn lemma_placed_in_order(sorted: Seq<Seq<char>>, name: Seq<char>)
    requires
        in_display_order(sorted),
    ensures
        in_display_order(placed(sorted, name)),
    decreases sorted.len(),
{
    let out = placed(sorted, name);
    if sorted.len() == 0 {
    } else if shown_before(name, sorted[0]) {
        assert forall|i: int, j: int| 0 <= i < j < out.len() implies shown_before(
            #[trigger] out[i],
            #[trigger] out[j],
        ) by {
            assert(out[j] == sorted[j - 1]);
            if i == 0 {
                if j - 1 > 0 {
                    assert(shown_before(sorted[0], sorted[j - 1]));
                    lemma_shown_before_chain(name, sorted[0], sorted[j - 1]);
                }
            } else {
                assert(out[i] == sorted[i - 1]);
                assert(shown_before(sorted[i - 1], sorted[j - 1]));
            }
        }
    } else {
        let rest = sorted.drop_first();
        let inner = placed(rest, name);
        assert forall|i: int, j: int| 0 <= i < j < rest.len() implies shown_before(
            #[trigger] rest[i],
            #[trigger] rest[j],
        ) by {
            assert(shown_before(sorted[i + 1], sorted[j + 1]));
        }
        lemma_placed_in_order(rest, name);
        lemma_shown_before_either(name, sorted[0]);
        assert forall|j: int| 0 <= j < rest.len() implies shown_before(
            sorted[0],
            #[trigger] rest[j],
        ) by {
            assert(shown_before(sorted[0], sorted[j + 1]));
        }
        lemma_placed_behind(rest, name, sorted[0]);
        assert forall|i: int, j: int| 0 <= i < j < out.len() implies shown_before(
            #[trigger] out[i],
            #[trigger] out[j],
        ) by {
            assert(out[j] == inner[j - 1]);
            if i == 0 {
                assert(out[0] == sorted[0]);
            } else {
                assert(out[i] == inner[i - 1]);
                assert(shown_before(inner[i - 1], inner[j - 1]));
            }
        }
    }
}

/// How often an acronym stands in a list, counted from the end.
pub proof fn lemma_occurrences_from_the_end(names: Seq<Seq<char>>, name: Seq<char>)
    requires
        names.len() > 0,
    ensures
        occurrences(names, name) == occurrences(names.drop_last(), name) + (if names.last()
            == name {
            1nat
        } else {
            0nat
        }),
    decreases names.len(),
{
    if names.len() == 1 {
        assert(names.drop_first() =~= names.drop_last());
    } else {
        let tail = names.drop_first();
        lemma_occurrences_from_the_end(tail, name);
        assert(tail.drop_last() =~= names.drop_last().drop_first());
        assert(names.drop_last()[0] == names[0]);
    }
}

/// An acronym that a list holds stands at one of its places.
pub proof fn lemma_occurs_somewhere(names: Seq<Seq<char>>, name: Seq<char>) -> (at: int)
    requires
        occurrences(names, name) > 0,
    ensures
        0 <= at < names.len(),
        names[at] == name,
    decreases names.len(),
{
    if names[0] == name {
        0
    } else {
        lemma_occurs_somewhere(names.drop_first(), name) + 1
    }
}

/// Two lists in display order that hold the same acronyms, each as often as
/// the other, are one list.
pub proof fn lemma_one_order(a: Seq<Seq<char>>, b: Seq<Seq<char>>)
    requires
        in_display_order(a),
        in_display_order(b),
        same_names(a, b),
    ensures
        a == b,
    decreases a.len(),
{
    if a.len() == 0 {
        if b.len() > 0 {
            assert(occurrences(a, b[0]) == occurrences(b, b[0]));
        }
        assert(a =~= b);
    } else {
        assert(occurrences(a, a[0]) == occurrences(b, a[0]));
        let in_b = lemma_occurs_somewhere(b, a[0]);
        assert(occurrences(a, b[0]) == occurrences(b, b[0]));
        let in_a = lemma_occurs_somewhere(a, b[0]);
        if a[0] != b[0] {
            assert(shown_before(b[0], b[in_b]));
            assert(shown_before(a[0], a[in_a]));
            lemma_shown_before_both(a[0], b[0]);
        }
        let ta = a.drop_first();
        let tb = b.drop_first();
        assert forall|i: int, j: int| 0 <= i < j < ta.len() implies shown_before(
            #[trigger] ta[i],
            #[trigger] ta[j],
        ) by {
            assert(shown_before(a[i + 1], a[j + 1]));
        }
        assert forall|i: int, j: int| 0 <= i < j < tb.len() implies shown_before(
            #[trigger] tb[i],
            #[trigger] tb[j],
        ) by {
            assert(shown_before(b[i + 1], b[j + 1]));
        }
        assert forall|name: Seq<char>| #[trigger]
            occurrences(ta, name) == occurrences(tb, name) by {
            assert(occurrences(a, name) == occurrences(b, name));
        }
        lemma_one_order(ta, tb);
        assert(a =~= seq![a[0]] + ta);
        assert(b =~= seq![b[0]] + tb);
    }
}

/// The display order loses no acronym and adds none: the arranged list is
/// as long as the list it was made from and holds each acronym as often.
pub proof fn lemma_arranged_keeps_names(names: Seq<Seq<char>>)
    ensures
        arranged(names).len() == names.len(),
        same_names(arranged(names), names),
    decreases names.len(),
{
    if names.len() > 0 {
        let front = names.drop_last();
        lemma_arranged_keeps_names(front);
        lemma_placed_keeps_names(arranged(front), names.last(), names.last());
        assert forall|name: Seq<char>| #[trigger]
            occurrences(arranged(names), name) == occurrences(names, name) by {
            lemma_placed_keeps_names(arranged(front), names.last(), name);
            lemma_occurrences_from_the_end(names, name);
            assert(occurrences(arranged(front), name) == occurrences(front, name));
        }
    }
}

/// The arranged list is in display order: the acronyms with a place stand
/// by place and in front of all others, and the others in the order of
/// texts.
pub proof fn lemma_arranged_in_order(names: Seq<Seq<char>>)
    ensures
        in_display_order(arranged(names)),
        forall|i: int, j: int|
            0 <= i < j < arranged(names).len() ==> rank(#[trigger] arranged(names)[i]) <= rank(
                #[trigger] arranged(names)[j],
            ),
    decreases names.len(),
{
    if names.len() > 0 {
        lemma_arranged_in_order(names.drop_last());
        lemma_placed_in_order(arranged(names.drop_last()), names.last());
    }
    let out = arranged(names);
    assert forall|i: int, j: int| 0 <= i < j < out.len() implies rank(#[trigger] out[i]) <= rank(
        #[trigger] out[j],
    ) by {
        assert(shown_before(out[i], out[j]));
    }
}

/// The display does not depend on the order in which the acronyms came:
/// two lists that hold the same acronyms, each as often as the other, are
/// arranged alike and displayed alike.
pub proof fn lemma_arrangement_ignores_order(a: Seq<Seq<char>>, b: Seq<Seq<char>>)
    requires
        same_names(a, b),
    ensures
        arranged(a) == arranged(b),
        display_upper(a) == display_upper(b),
{
    lemma_arranged_keeps_names(a);
    lemma_arranged_keeps_names(b);
    lemma_arranged_in_order(a);
    lemma_arranged_in_order(b);
    assert forall|name: Seq<char>| #[trigger]
        occurrences(arranged(a), name) == occurrences(arranged(b), name) by {
        assert(occurrences(arranged(a), name) == occurrences(a, name));
        assert(occurrences(a, name) == occurrences(b, name));
        assert(occurrences(arranged(b), name) == occurrences(b, name));
    }
    lemma_one_order(arranged(a), arranged(b));
}

/// Acronyms of two characters written one behind the other make a text of
/// twice their number, in which each stands at twice its place.
pub proof fn lemma_written_pairs(names: Seq<Seq<char>>)
    requires
        two_letters(names),
    ensures
        written(names).len() == 2 * names.len(),
        forall|i: int|
            0 <= i < names.len() ==> written(names).subrange(2 * i, 2 * i + 2)
                == #[trigger] names[i],
    decreases names.len(),
{
    let text = written(names);
    if names.len() == 0 {
    } else if names.len() == 1 {
        assert(names[0].len() == 2);
        assert(text.subrange(0, 2) =~= names[0]);
    } else {
        let front = names.drop_last();
        assert forall|i: int| 0 <= i < front.len() implies (#[trigger] front[i]).len() == 2 by {
            assert(front[i] == names[i]);
        }
        lemma_written_pairs(front);
        let head = written(front);
        assert(names.last().len() == 2);
        assert(text =~= head + names.last());
        assert forall|i: int| 0 <= i < names.len() implies text.subrange(2 * i, 2 * i + 2)
            == #[trigger] names[i] by {
            if i < front.len() {
                assert(front[i] == names[i]);
                assert(text.subrange(2 * i, 2 * i + 2) =~= head.subrange(2 * i, 2 * i + 2));
            } else {
                assert(text.subrange(2 * i, 2 * i + 2) =~= names.last());
            }
        }
    }
}

/// A text that was written from acronyms of two characters is cut into
/// those acronyms again.
pub proof fn lemma_acronyms_of_written(names: Seq<Seq<char>>)
    requires
        two_letters(names),
    ensures
        acronyms_in(written(names)) == names,
{
    lemma_written_pairs(names);
    let text = written(names);
    assert forall|i: int| 0 <= i < names.len() implies acronyms_in(text)[i] == names[i] by {
        assert(acronym_end(i, text.len() as int) == 2 * i + 2);
        assert(text.subrange(2 * i, 2 * i + 2) == names[i]);
    }
    assert(acronyms_in(text) =~= names);
}

/// The display of a text does not depend on the order of its acronyms: two
/// texts written from the same acronyms of two characters, each as often in
/// the one as in the other, with a place in the display order or without,
/// are displayed alike, and so they are where upper case leaves both as
/// they are and they are taken to upper case first.
pub proof fn lemma_display_ignores_input_order(a: Seq<Seq<char>>, b: Seq<Seq<char>>)
    requires
        two_letters(a),
        two_letters(b),
        same_names(a, b),
    ensures
        ordered(written(a)) == ordered(written(b)),
        ordered(written(a)) == written(arranged(a)),
        uppercase_of(written(a)) == written(a) && uppercase_of(written(b)) == written(b)
            ==> ordered(uppercase_of(written(a))) == ordered(uppercase_of(written(b))),
{
    lemma_acronyms_of_written(a);
    lemma_acronyms_of_written(b);
    lemma_arrangement_ignores_order(a, b);
}

/// An acronym that is put into a list at any place stands in it once more
/// than before, and every other acronym as often as before.
pub proof fn lemma_occurrences_with_one_more(
    names: Seq<Seq<char>>,
    at: int,
    name: Seq<char>,
    other: Seq<char>,
)
    requires
        0 <= at <= names.len(),
    ensures
        occurrences(names.insert(at, name), other) == occurrences(names, other) + (if name
            == other {
            1nat
        } else {
            0nat
        }),
    decreases at,
{
    let more = names.insert(at, name);
    if at == 0 {
        assert(more[0] == name);
        assert(more.drop_first() =~= names);
    } else {
        lemma_occurrences_with_one_more(names.drop_first(), at - 1, name, other);
        assert(more[0] == names[0]);
        assert(more.drop_first() =~= names.drop_first().insert(at - 1, name));
    }
}

/// Lists that hold the same acronyms, each as often as the other, still do
/// so when each acronym is taken to upper case.
pub proof fn lemma_upper_case_keeps_names(a: Seq<Seq<char>>, b: Seq<Seq<char>>)
    requires
        same_names(a, b),
    ensures
        same_names(upper_names(a), upper_names(b)),
    decreases a.len(),
{
    if a.len() == 0 {
        if b.len() > 0 {
            assert(occurrences(a, b[0]) == occurrences(b, b[0]));
        }
        assert(upper_names(a) =~= upper_names(b));
    } else {
        let first = a[0];
        assert(occurrences(a, first) == occurrences(b, first));
        let at = lemma_occurs_somewhere(b, first);
        let rest_a = a.drop_first();
        let rest_b = b.remove(at);
        assert(b =~= rest_b.insert(at, first));
        assert forall|name: Seq<char>| #[trigger]
            occurrences(rest_a, name) == occurrences(rest_b, name) by {
            assert(occurrences(a, name) == occurrences(b, name));
            lemma_occurrences_with_one_more(rest_b, at, first, name);
        }
        lemma_upper_case_keeps_names(rest_a, rest_b);
        let upper = uppercase_of(first);
        assert(upper_names(a)[0] == upper);
        assert(upper_names(a).drop_first() =~= upper_names(rest_a));
        assert(upper_names(b) =~= upper_names(rest_b).insert(at, upper));
        assert forall|name: Seq<char>| #[trigger]
            occurrences(upper_names(a), name) == occurrences(upper_names(b), name) by {
            assert(occurrences(upper_names(rest_a), name) == occurrences(
                upper_names(rest_b),
                name,
            ));
            lemma_occurrences_with_one_more(upper_names(rest_b), at, upper, name);
        }
    }
}

/// The display string of a list of modifiers does not depend on the order
/// of the list: two lists that hold the same acronyms, each as often as the
/// other, are displayed alike.
pub proof fn lemma_list_display_ignores_order(a: Seq<Seq<char>>, b: Seq<Seq<char>>)
    requires
        same_names(a, b),
    ensures
        display_of(a) == display_of(b),
{
    lemma_upper_case_keeps_names(a, b);
    lemma_arrangement_ignores_order(upper_names(a), upper_names(b));
}

} // verus!
