//! What the command line asks for.

use crate::mods::same_text;
use crate::offsets::string_views;
use crate::text::{chars_of, is_text, lowercase_of};
use crate::theme::{theme_named, ThemeOverride};
use vstd::prelude::*;

verus! {

/// Whether argument `i` is the flag for the look and has a value behind it.
pub open spec fn is_theme_flag(args: Seq<Seq<char>>, i: int) -> bool {
    &&& 0 <= i
    &&& i + 1 < args.len()
    &&& (args[i] == "--theme"@ || args[i] == "-t"@)
}

/// The look that the arguments from `from` on ask for: the value of the
/// first flag for the look whose value names one, and the system's choice
/// where there is none.
pub open spec fn theme_asked_from(args: Seq<Seq<char>>, from: int) -> ThemeOverride
    decreases args.len() - from,
{
    if from < 0 || from >= args.len() {
        ThemeOverride::System
    } else if is_theme_flag(args, from) && theme_named(lowercase_of(args[from + 1])) is Some {
        theme_named(lowercase_of(args[from + 1]))->0
    } else {
        theme_asked_from(args, from + 1)
    }
}

/// The values that the arguments from `from` on give for the look without
/// naming one, up to the first flag whose value does.
pub open spec fn values_rejected_from(args: Seq<Seq<char>>, from: int) -> Seq<Seq<char>>
    decreases args.len() - from,
{
    if from < 0 || from >= args.len() {
        Seq::empty()
    } else if is_theme_flag(args, from) {
        if theme_named(lowercase_of(args[from + 1])) is Some {
            Seq::empty()
        } else {
            seq![args[from + 1]] + values_rejected_from(args, from + 1)
        }
    } else {
        values_rejected_from(args, from + 1)
    }
}

/// Reads the look that the command line asks for. The second part of the
/// answer holds the values that were given for the look and name none, for
/// a warning.
pub fn args_theme_override(args: &Vec<String>) -> (asked: (ThemeOverride, Vec<String>))
    ensures
        asked.0 == theme_asked_from(string_views(args@), 0),
        string_views(asked.1@) == values_rejected_from(string_views(args@), 0),
{
    let ghost all = string_views(args@);
    let mut rejected: Vec<String> = Vec::new();
    let mut i: usize = 0;
    assert(string_views(rejected@) + values_rejected_from(all, 0) =~= values_rejected_from(all, 0));
    while i < args.len()
        invariant
            i <= args.len(),
            all == string_views(args@),
            theme_asked_from(all, i as int) == theme_asked_from(all, 0),
            string_views(rejected@) + values_rejected_from(all, i as int) == values_rejected_from(
                all,
                0,
            ),
        decreases args.len() - i,
    {
        let word = chars_of(args[i].as_str());
        assert(all[i as int] == args@[i as int]@);
        let ghost before = string_views(rejected@);
        if (is_text(&word, "--theme") || is_text(&word, "-t")) && i + 1 < args.len() {
            assert(all[i + 1] == args@[i + 1]@);
            match ThemeOverride::from_str(args[i + 1].as_str()) {
                Some(theme) => {
                    proof {
                        assert(string_views(rejected@) + Seq::<Seq<char>>::empty()
                            =~= string_views(rejected@));
                    }
                    return (theme, rejected);
                },
                None => {
                    rejected.push(args[i + 1].clone());
                    proof {
                        assert(string_views(rejected@) =~= before.push(all[i + 1]));
                        assert(string_views(rejected@) + values_rejected_from(all, i + 1)
                            =~= before + values_rejected_from(all, i as int));
                    }
                },
            }
        }
        i += 1;
    }
    proof {
        assert(string_views(rejected@) + Seq::<Seq<char>>::empty() =~= string_views(rejected@));
    }
    (ThemeOverride::System, rejected)
}

/// Whether the command line leaves updates switched on: it does unless one
/// of its arguments is `--no-update`.
pub fn args_auto_update(args: &Vec<String>) -> (enabled: bool)
    ensures
        enabled == !string_views(args@).contains("--no-update"@),
{
    let ghost all = string_views(args@);
    let mut i: usize = 0;
    while i < args.len()
        invariant
            i <= args.len(),
            all == string_views(args@),
            forall|j: int| 0 <= j < i ==> all[j] != "--no-update"@,
        decreases args.len() - i,
    {
        assert(all[i as int] == args@[i as int]@);
        if is_text(&chars_of(args[i].as_str()), "--no-update") {
            assert(all.contains("--no-update"@));
            return false;
        }
        i += 1;
    }
    true
}

} // verus!
