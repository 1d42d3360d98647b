//! Masked byte-signature search over a single buffer.

use crate::text::{chars_of, is_text, parse_unsigned, parsed_unsigned, split_words, views, words};
use vstd::prelude::*;

verus! {

/// Whether `pattern` under `mask` matches `data` at offset `at`: every
/// position whose mask bit is set holds the pattern's byte; positions whose
/// mask bit is clear are not compared.
pub open spec fn matches_at(data: Seq<u8>, pattern: Seq<u8>, mask: Seq<bool>, at: int) -> bool {
    &&& 0 <= at
    &&& at + pattern.len() <= data.len()
    &&& forall|j: int| 0 <= j < pattern.len() && mask[j] ==> #[trigger] data[at + j] == pattern[j]
}

/// `at` is a match and no lower offset is.
pub open spec fn is_first_match(data: Seq<u8>, pattern: Seq<u8>, mask: Seq<bool>, at: int) -> bool {
    &&& matches_at(data, pattern, mask, at)
    &&& forall|k: int| 0 <= k < at ==> !matches_at(data, pattern, mask, k)
}

fn matches_here(data: &[u8], pattern: &[u8], mask: &[bool], at: usize) -> (found: bool)
    requires
        pattern.len() == mask.len(),
        at + pattern.len() <= data.len(),
    ensures
        found == matches_at(data@, pattern@, mask@, at as int),
{
    let mut j: usize = 0;
    while j < pattern.len()
        invariant
            j <= pattern.len(),
            pattern.len() == mask.len(),
            at + pattern.len() <= data.len(),
            forall|k: int| 0 <= k < j && mask@[k] ==> #[trigger] data@[at + k] == pattern@[k],
        decreases pattern.len() - j,
    {
        if mask[j] && data[at + j] != pattern[j] {
            return false;
        }
        j += 1;
    }
    true
}

/// Finds the lowest offset in `data` at which `pattern` matches under `mask`.
pub fn find_pattern(data: &[u8], pattern: &[u8], mask: &[bool]) -> (found: Option<usize>)
    ensures
        match found {
            Some(at) => pattern.len() == mask.len() && is_first_match(data@, pattern@, mask@, at as int),
            None => pattern.len() != mask.len() || forall|i: int| !matches_at(data@, pattern@, mask@, i),
        },
{
    if pattern.len() != mask.len() || data.len() < pattern.len() {
        return None;
    }
    let last: usize = data.len() - pattern.len();
    let mut i: usize = 0;
    while i <= last
        invariant
            pattern.len() == mask.len(),
            last == data.len() - pattern.len(),
            i <= last + 1,
            forall|k: int| 0 <= k < i ==> !matches_at(data@, pattern@, mask@, k),
        decreases last + 1 - i,
    {
        if matches_here(data, pattern, mask, i) {
            return Some(i);
        }
        i += 1;
    }
    None
}

/// The byte that one token of a signature stands for: zero for the wildcard
/// `??`, else the token read as a hexadecimal number, and zero where it is
/// none or does not fit a byte.
pub open spec fn token_byte(token: Seq<char>) -> u8 {
    if token == "??"@ {
        0
    } else {
        match parsed_unsigned(token, 16, 255) {
            Some(v) => v as u8,
            None => 0,
        }
    }
}

/// Whether one token of a signature is compared: every token but the
/// wildcard `??` is.
pub open spec fn token_compared(token: Seq<char>) -> bool {
    token != "??"@
}

/// The bytes of a signature written as tokens with white space between
/// them.
pub open spec fn signature_bytes(text: Seq<char>) -> Seq<u8> {
    let tokens = words(text);
    Seq::new(tokens.len(), |i: int| token_byte(tokens[i]))
}

/// The mask of a signature written as tokens with white space between them.
pub open spec fn signature_mask(text: Seq<char>) -> Seq<bool> {
    let tokens = words(text);
    Seq::new(tokens.len(), |i: int| token_compared(tokens[i]))
}

/// Reads a signature: tokens with white space between them, each a byte in
/// hexadecimal or the wildcard `??`.
pub fn parse_pattern(pattern_str: &str) -> (signature: (Vec<u8>, Vec<bool>))
    ensures
        signature.0@ == signature_bytes(pattern_str@),
        signature.1@ == signature_mask(pattern_str@),
{
    let chars = chars_of(pattern_str);
    let tokens = split_words(&chars);
    let ghost spec_tokens = words(pattern_str@);
    let mut pattern: Vec<u8> = Vec::new();
    let mut mask: Vec<bool> = Vec::new();
    let mut i: usize = 0;
    while i < tokens.len()
        invariant
            i <= tokens.len(),
            views(tokens@) == spec_tokens,
            pattern.len() == i,
            mask.len() == i,
            forall|k: int| 0 <= k < i ==> pattern@[k] == token_byte(#[trigger] spec_tokens[k]),
            forall|k: int| 0 <= k < i ==> mask@[k] == token_compared(#[trigger] spec_tokens[k]),
        decreases tokens.len() - i,
    {
        let token = &tokens[i];
        assert(token@ == spec_tokens[i as int]);
        if is_text(token, "??") {
            pattern.push(0);
            mask.push(false);
        } else {
            let byte: u8 = match parse_unsigned(token, 16, 255) {
                Some(v) => v as u8,
                None => 0,
            };
            pattern.push(byte);
            mask.push(true);
        }
        i += 1;
    }
    assert(pattern@ =~= signature_bytes(pattern_str@));
    assert(mask@ =~= signature_mask(pattern_str@));
    (pattern, mask)
}

/// A pattern that is longer than the buffer matches nowhere in it.
pub proof fn lemma_longer_pattern_never_matches(
    data: Seq<u8>,
    pattern: Seq<u8>,
    mask: Seq<bool>,
    at: int,
)
    requires
        pattern.len() > data.len(),
    ensures
        !matches_at(data, pattern, mask, at),
{
}

/// The offset that a search reports does not depend on the bytes that the
/// pattern holds at positions that are not compared.
pub proof fn lemma_wildcards_do_not_count(
    data: Seq<u8>,
    pattern: Seq<u8>,
    other: Seq<u8>,
    mask: Seq<bool>,
    at: int,
)
    requires
        pattern.len() == other.len(),
        forall|j: int| 0 <= j < pattern.len() && mask[j] ==> pattern[j] == other[j],
    ensures
        matches_at(data, pattern, mask, at) == matches_at(data, other, mask, at),
{
    if matches_at(data, pattern, mask, at) {
        assert forall|j: int| 0 <= j < other.len() && mask[j] implies #[trigger] data[at + j]
            == other[j] by {
            assert(data[at + j] == pattern[j]);
        }
    }
    if matches_at(data, other, mask, at) {
        assert forall|j: int| 0 <= j < pattern.len() && mask[j] implies #[trigger] data[at + j]
            == pattern[j] by {
            assert(data[at + j] == other[j]);
        }
    }
}

} // verus!
