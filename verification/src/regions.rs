//! Which stretches of a process's address space are worth capturing: the
//! reading of the listing of mapped regions that one platform offers, and
//! the test of a region's state and protection that the other calls for.

use crate::text::{
    chars_of, lemma_piece_len, lines, parse_unsigned, parsed_unsigned, piece_len, pieces,
    push_range, split_words, views, without_cr, words,
};
use vstd::prelude::*;

verus! {

/// A stretch of address space: where it begins and how many bytes it has.
#[derive(Debug, Clone, Copy, PartialEq, Eq, Structural)]
pub struct RegionRange {
    pub start: usize,
    pub size: usize,
}

/// The address that a word of a listing writes in hexadecimal; zero for a
/// word that writes none.
pub open spec fn listed_address(word: Seq<char>) -> int {
    match parsed_unsigned(word, 16, usize::MAX as int) {
        Some(v) => v,
        None => 0,
    }
}

/// The region that one line of a listing of mapped regions describes,
/// where it is worth capturing: the line's first word is the range
/// `start-end`, its second the permissions, which begin with `r` for a
/// readable region. A line with fewer than two words, a range that is not
/// two addresses with a hyphen between them, an address of zero and an end
/// that is not behind the start all describe nothing.
pub open spec fn listed_region(line: Seq<char>) -> Option<RegionRange> {
    let parts = words(line);
    if parts.len() < 2 || parts[1].len() == 0 || parts[1][0] != 'r' {
        None
    } else {
        let range = pieces(parts[0], '-');
        if range.len() != 2 {
            None
        } else {
            let start = listed_address(range[0]);
            let end = listed_address(range[1]);
            if start == 0 || end == 0 || end <= start {
                None
            } else {
                Some(RegionRange { start: start as usize, size: (end - start) as usize })
            }
        }
    }
}

/// The regions that the first `n` of `rows` describe, in the order of the
/// rows.
pub open spec fn listed_among(rows: Seq<Seq<char>>, n: int) -> Seq<RegionRange>
    decreases n,
{
    if n <= 0 {
        Seq::empty()
    } else {
        match listed_region(rows[n - 1]) {
            Some(region) => listed_among(rows, n - 1).push(region),
            None => listed_among(rows, n - 1),
        }
    }
}

/// The regions that a listing describes.
pub open spec fn listed_regions(listing: Seq<char>) -> Seq<RegionRange> {
    listed_among(lines(listing), lines(listing).len() as int)
}

/// Cuts `s` at every `sep`.
pub fn split_at(s: &Vec<char>, sep: char) -> (out: Vec<Vec<char>>)
    ensures
        views(out@) == pieces(s@, sep),
{
    let n: usize = s.len();
    let mut out: Vec<Vec<char>> = Vec::new();
    let mut start: usize = 0;
    proof {
        assert(s@.subrange(0, n as int) =~= s@);
        assert(views(out@) + pieces(s@, sep) =~= pieces(s@, sep));
    }
    loop
        invariant_except_break
            views(out@) + pieces(s@.subrange(start as int, n as int), sep) == pieces(s@, sep),
        invariant
            start <= n,
            n == s.len(),
        ensures
            views(out@) == pieces(s@, sep),
        decreases n - start,
    {
        let ghost rest = s@.subrange(start as int, n as int);
        let ghost before = views(out@);
        let mut end: usize = start;
        while end < n && s[end] != sep
            invariant
                start <= end <= n,
                n == s.len(),
                forall|k: int| start <= k < end ==> #[trigger] s@[k] != sep,
            decreases n - end,
        {
            end += 1;
        }
        let mut part: Vec<char> = Vec::new();
        push_range(&mut part, s, start, end);
        proof {
            assert forall|k: int| 0 <= k < end - start implies #[trigger] rest[k] != sep by {
                assert(rest[k] == s@[start + k]);
            }
            if end < n {
                assert(rest[end - start] == s@[end as int]);
            }
            lemma_piece_len(rest, sep, end - start);
            assert(part@ =~= rest.subrange(0, end - start));
        }
        out.push(part);
        proof {
            assert(views(out@) =~= before.push(rest.subrange(0, end - start)));
        }
        if end >= n {
            proof {
                assert(rest.subrange(0, end - start) =~= rest);
                assert(pieces(rest, sep) =~= seq![rest]);
                assert(views(out@) =~= before + pieces(rest, sep));
            }
            break;
        }
        proof {
            assert(rest.subrange(end - start + 1, rest.len() as int) =~= s@.subrange(
                end + 1,
                n as int,
            ));
            assert(views(out@) + pieces(s@.subrange(end + 1, n as int), sep) =~= before + pieces(
                rest,
                sep,
            ));
        }
        start = end + 1;
    }
    out
}

/// Cuts `s` into its lines.
pub fn split_lines(s: &Vec<char>) -> (out: Vec<Vec<char>>)
    ensures
        views(out@) == lines(s@),
{
    let n: usize = s.len();
    let mut out: Vec<Vec<char>> = Vec::new();
    let mut start: usize = 0;
    proof {
        assert(s@.subrange(0, n as int) =~= s@);
        assert(views(out@) + lines(s@) =~= lines(s@));
    }
    while start < n
        invariant
            start <= n,
            n == s.len(),
            views(out@) + lines(s@.subrange(start as int, n as int)) == lines(s@),
        decreases n - start,
    {
        let ghost rest = s@.subrange(start as int, n as int);
        let ghost before = views(out@);
        let mut end: usize = start;
        while end < n && s[end] != '\n'
            invariant
                start <= end <= n,
                n == s.len(),
                forall|k: int| start <= k < end ==> #[trigger] s@[k] != '\n',
            decreases n - end,
        {
            end += 1;
        }
        proof {
            assert forall|k: int| 0 <= k < end - start implies #[trigger] rest[k] != '\n' by {
                assert(rest[k] == s@[start + k]);
            }
            if end < n {
                assert(rest[end - start] == s@[end as int]);
            }
            lemma_piece_len(rest, '\n', end - start);
            assert(rest.subrange(0, end - start) =~= s@.subrange(start as int, end as int));
        }
        let stop: usize = if end < n && end > start && s[end - 1] == '\r' {
            end - 1
        } else {
            end
        };
        let mut line: Vec<char> = Vec::new();
        push_range(&mut line, s, start, stop);
        out.push(line);
        proof {
            let raw = s@.subrange(start as int, end as int);
            if end < n {
                assert(line@ =~= without_cr(raw));
                assert(rest.subrange(end - start + 1, rest.len() as int) =~= s@.subrange(
                    end + 1,
                    n as int,
                ));
                assert(views(out@) =~= before.push(without_cr(raw)));
                assert(views(out@) + lines(s@.subrange(end + 1, n as int)) =~= before + lines(
                    rest,
                ));
            } else {
                assert(line@ =~= rest);
                assert(views(out@) =~= before.push(rest));
                assert(s@.subrange(n as int, n as int) =~= Seq::<char>::empty());
                assert(views(out@) + lines(s@.subrange(n as int, n as int)) =~= before + lines(
                    rest,
                ));
            }
        }
        if end >= n {
            start = n;
        } else {
            start = end + 1;
        }
    }
    proof {
        assert(s@.subrange(n as int, n as int) =~= Seq::<char>::empty());
        assert(views(out@) + Seq::<Seq<char>>::empty() =~= views(out@));
    }
    out
}

/// Reads one address of a listing.
fn read_address(word: &Vec<char>) -> (addr: usize)
    ensures
        addr == listed_address(word@),
{
    match parse_unsigned(word, 16, usize::MAX as u64) {
        Some(v) => v as usize,
        None => 0,
    }
}

/// Reads one line of a listing of mapped regions.
pub fn parse_maps_line(line: &Vec<char>) -> (region: Option<RegionRange>)
    ensures
        region == listed_region(line@),
{
    let parts = split_words(line);
    if parts.len() < 2 {
        return None;
    }
    assert(views(parts@)[1] == parts@[1]@);
    assert(views(parts@)[0] == parts@[0]@);
    if parts[1].len() == 0 || parts[1][0] != 'r' {
        return None;
    }
    let range = split_at(&parts[0], '-');
    if range.len() != 2 {
        return None;
    }
    assert(views(range@)[0] == range@[0]@);
    assert(views(range@)[1] == range@[1]@);
    let start = read_address(&range[0]);
    let end = read_address(&range[1]);
    if start == 0 || end == 0 || end <= start {
        return None;
    }
    Some(RegionRange { start, size: end - start })
}

/// Reads a listing of mapped regions: the regions worth capturing, in the
/// order of the listing.
pub fn readable_regions(listing: &str) -> (regions: Vec<RegionRange>)
    ensures
        regions@ == listed_regions(listing@),
{
    let rows = split_lines(&chars_of(listing));
    let ghost spec_rows = lines(listing@);
    let mut regions: Vec<RegionRange> = Vec::new();
    let mut i: usize = 0;
    assert(regions@ =~= listed_among(spec_rows, 0));
    while i < rows.len()
        invariant
            i <= rows.len(),
            views(rows@) == spec_rows,
            regions@ == listed_among(spec_rows, i as int),
        decreases rows.len() - i,
    {
        assert(views(rows@)[i as int] == rows@[i as int]@);
        match parse_maps_line(&rows[i]) {
            Some(region) => {
                regions.push(region);
            },
            None => {},
        }
        i += 1;
    }
    regions
}

/// The state of a region whose pages are committed.
pub const MEM_COMMIT: u32 = 0x1000;

/// The protection of a region that may only be read.
pub const PAGE_READONLY: u32 = 0x02;

/// The protection of a region that may be read and written.
pub const PAGE_READWRITE: u32 = 0x04;

/// The protection of a region that may be executed and read.
pub const PAGE_EXECUTE_READ: u32 = 0x20;

/// The protection of a region that may be executed, read and written.
pub const PAGE_EXECUTE_READWRITE: u32 = 0x40;

/// Whether a region with this state and protection is worth capturing: its
/// pages are committed, and it may be read, with or without writing and
/// executing.
pub fn is_scannable(state: u32, protect: u32) -> (worth: bool)
    ensures
        worth == (state == MEM_COMMIT && (protect == PAGE_READONLY || protect == PAGE_READWRITE
            || protect == PAGE_EXECUTE_READ || protect == PAGE_EXECUTE_READWRITE)),
{
    state == MEM_COMMIT && (protect == PAGE_READONLY || protect == PAGE_READWRITE || protect
        == PAGE_EXECUTE_READ || protect == PAGE_EXECUTE_READWRITE)
}

} // verus!
