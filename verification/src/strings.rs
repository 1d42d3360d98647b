//! Decoding of the strings that the clients keep in memory: a pointer to a
//! string object, a 32-bit length in its header, and UTF-16 code units
//! behind the header.

use crate::errors::{MemoryError, MemoryErrorView};
use crate::memory::{
    i32_at, lemma_outside_address_space, offset_address, ptr_at, u16_at, u32_at, unreadable_text,
    ProcessMemory, RegionView,
};
use crate::text::string_of;
use vstd::prelude::*;

verus! {

/// The longest string, in code units, that is taken for real. A longer
/// length field is taken for the mark of a stale pointer.
pub const MAX_STRING_UNITS: usize = 10000;

/// How a client lays out a string object.
#[derive(Debug, Clone, Copy, PartialEq, Eq, Structural)]
pub struct StringLayout {
    /// Whether the pointer to the object has the width of this build; it has
    /// four bytes otherwise.
    pub native_pointer: bool,
    /// Where in the object the length stands.
    pub length_offset: usize,
    /// Where in the object the first code unit stands.
    pub units_offset: usize,
}

/// The layout of the newer client's strings: a pointer of native width, the
/// length at byte 8, code units from byte 12 on.
pub open spec fn csharp_layout() -> StringLayout {
    StringLayout { native_pointer: true, length_offset: 0x8, units_offset: 0xC }
}

/// The layout of the older client's strings: a 4-byte pointer, the length at
/// byte 4, code units from byte 8 on.
pub open spec fn stable_layout() -> StringLayout {
    StringLayout { native_pointer: false, length_offset: 0x4, units_offset: 0x8 }
}

/// Whether `code` is a Unicode scalar value.
pub open spec fn is_scalar(code: int) -> bool {
    0 <= code <= 0xD7FF || 0xE000 <= code <= 0x10FFFF
}

/// The text that UTF-16 code units spell, where they are well formed: a
/// unit outside the surrogate range stands for itself, a high surrogate
/// with the low surrogate behind it for one character beyond the basic
/// plane, and no other surrogate is accepted.
pub open spec fn utf16_decoded(units: Seq<u16>) -> Option<Seq<char>>
    decreases units.len(),
{
    if units.len() == 0 {
        Some(Seq::empty())
    } else {
        let u = units[0] as int;
        if u < 0xD800 || u > 0xDFFF {
            match utf16_decoded(units.drop_first()) {
                Some(rest) => Some(seq![u as char] + rest),
                None => None,
            }
        } else if u <= 0xDBFF && units.len() >= 2 && 0xDC00 <= units[1] <= 0xDFFF {
            let code = 0x10000 + (u - 0xD800) * 0x400 + (units[1] - 0xDC00);
            match utf16_decoded(units.subrange(2, units.len() as int)) {
                Some(rest) => Some(seq![code as char] + rest),
                None => None,
            }
        } else {
            None
        }
    }
}

/// The `n` code units from `addr` on, where all of them can be read.
pub open spec fn units_at(m: Seq<RegionView>, addr: int, n: int) -> Option<Seq<u16>>
    decreases n,
{
    if n <= 0 {
        Some(Seq::empty())
    } else {
        match (units_at(m, addr, n - 1), u16_at(m, addr + 2 * (n - 1))) {
            (Some(front), Some(unit)) => Some(front.push(unit as u16)),
            _ => None,
        }
    }
}

/// The pointer at `addr`, of native width or of four bytes.
pub open spec fn pointer_at(m: Seq<RegionView>, addr: int, native: bool) -> Option<int> {
    if native {
        ptr_at(m, addr)
    } else {
        u32_at(m, addr)
    }
}

/// The error of a read that touches an unmapped address.
pub open spec fn unreadable_error() -> MemoryErrorView {
    MemoryErrorView::ReadFailed(unreadable_text())
}

/// What decoding the string whose pointer stands at `addr` yields. A null
/// pointer stands for the empty string, and so does a length field that is
/// zero, negative or above `MAX_STRING_UNITS`. A failed read is reported as
/// such, malformed UTF-16 as an invalid string.
pub open spec fn string_at(m: Seq<RegionView>, addr: int, layout: StringLayout) -> Result<
    Seq<char>,
    MemoryErrorView,
> {
    match pointer_at(m, addr, layout.native_pointer) {
        None => Err(unreadable_error()),
        Some(object) => if object == 0 {
            Ok(Seq::empty())
        } else {
            match i32_at(m, object + layout.length_offset) {
                None => Err(unreadable_error()),
                Some(length) => if length <= 0 || length > MAX_STRING_UNITS {
                    Ok(Seq::empty())
                } else {
                    match units_at(m, object + layout.units_offset, length) {
                        None => Err(unreadable_error()),
                        Some(units) => match utf16_decoded(units) {
                            Some(text) => Ok(text),
                            None => Err(MemoryErrorView::InvalidString),
                        },
                    }
                },
            }
        },
    }
}

/// Whether a decoded string is what the specification says: the same text,
/// or the same error.
pub open spec fn string_outcome(
    r: Result<String, MemoryError>,
    expected: Result<Seq<char>, MemoryErrorView>,
) -> bool {
    match r {
        Ok(text) => expected == Ok::<Seq<char>, MemoryErrorView>(text@),
        Err(e) => expected == Err::<Seq<char>, MemoryErrorView>(e@),
    }
}

/// `char::from_u32`: the character with scalar value `code`, and none for a
/// surrogate or a number above the last code point.
#[verifier::external_body]
fn char_of(code: u32) -> (c: Option<char>)
    ensures
        match c {
            Some(ch) => is_scalar(code as int) && ch == code as char,
            None => !is_scalar(code as int),
        },
{
    char::from_u32(code)
}

/// Decodes UTF-16 code units into characters.
pub fn decode_utf16(units: &Vec<u16>) -> (text: Option<Vec<char>>)
    ensures
        match text {
            Some(chars) => utf16_decoded(units@) == Some(chars@),
            None => utf16_decoded(units@) is None,
        },
{
    let n: usize = units.len();
    let mut out: Vec<char> = Vec::new();
    let mut i: usize = 0;
    assert(units@.subrange(0, n as int) =~= units@);
    while i < n
        invariant
            i <= n,
            n == units.len(),
            utf16_decoded(units@) == match utf16_decoded(units@.subrange(i as int, n as int)) {
                Some(rest) => Some(out@ + rest),
                None => None,
            },
        decreases n - i,
    {
        let ghost rest = units@.subrange(i as int, n as int);
        let ghost before = out@;
        let u: u16 = units[i];
        assert(rest[0] == u);
        if u < 0xD800 || u > 0xDFFF {
            match char_of(u as u32) {
                Some(c) => {
                    out.push(c);
                },
                None => {
                    return None;
                },
            }
            proof {
                assert(rest.drop_first() =~= units@.subrange(i + 1, n as int));
                match utf16_decoded(rest.drop_first()) {
                    Some(tail) => {
                        assert(out@ + tail =~= before + (seq![u as char] + tail));
                    },
                    None => {},
                }
            }
            i += 1;
        } else if u <= 0xDBFF && i + 1 < n && 0xDC00 <= units[i + 1] && units[i + 1] <= 0xDFFF {
            let low: u16 = units[i + 1];
            assert(rest[1] == low);
            let code: u32 = 0x10000 + ((u - 0xD800) as u32) * 0x400 + ((low - 0xDC00) as u32);
            match char_of(code) {
                Some(c) => {
                    out.push(c);
                },
                None => {
                    return None;
                },
            }
            proof {
                assert(rest.subrange(2, rest.len() as int) =~= units@.subrange(i + 2, n as int));
                match utf16_decoded(rest.subrange(2, rest.len() as int)) {
                    Some(tail) => {
                        assert(out@ + tail =~= before + (seq![code as char] + tail));
                    },
                    None => {},
                }
            }
            i += 2;
        } else {
            proof {
                if i + 1 < n {
                    assert(rest[1] == units@[i + 1]);
                }
            }
            return None;
        }
    }
    proof {
        assert(units@.subrange(n as int, n as int) =~= Seq::<u16>::empty());
        assert(out@ + Seq::<char>::empty() =~= out@);
    }
    Some(out)
}

/// Decodes the string whose pointer stands at `addr`.
pub fn read_string(process: &ProcessMemory, addr: usize, layout: StringLayout) -> (r: Result<
    String,
    MemoryError,
>)
    ensures
        string_outcome(r, string_at(process@, addr as int, layout)),
{
    let object: usize = if layout.native_pointer {
        process.read_ptr(addr)?
    } else {
        process.read_ptr32(addr)?
    };
    if object == 0 {
        return Ok(String::new());
    }
    let length: i32 = process.read_i32_at(object, layout.length_offset)?;
    if length <= 0 || length as usize > MAX_STRING_UNITS {
        return Ok(String::new());
    }
    let count: usize = length as usize;
    let ghost m = process@;
    let ghost first = object + layout.units_offset;
    let mut units: Vec<u16> = Vec::new();
    let mut i: usize = 0;
    while i < count
        invariant
            i <= count <= MAX_STRING_UNITS,
            m == process@,
            first == object + layout.units_offset,
            object != 0,
            pointer_at(m, addr as int, layout.native_pointer) == Some(object as int),
            i32_at(m, object + layout.length_offset) == Some(count as int),
            units_at(m, first, i as int) == Some(units@),
        decreases count - i,
    {
        match process.read_u16_index(object, layout.units_offset, i) {
            Ok(u) => {
                units.push(u);
            },
            Err(e) => {
                proof {
                    lemma_units_need_each(m, first, count as int, i as int);
                }
                return Err(e);
            },
        }
        i += 1;
    }
    match decode_utf16(&units) {
        Some(chars) => Ok(string_of(&chars)),
        None => Err(MemoryError::InvalidString),
    }
}

/// Where one code unit cannot be read, no run that includes it can.
pub proof fn lemma_units_need_each(m: Seq<RegionView>, addr: int, n: int, i: int)
    requires
        0 <= i < n,
        u16_at(m, addr + 2 * i) is None,
    ensures
        units_at(m, addr, n) is None,
    decreases n,
{
    if i < n - 1 {
        lemma_units_need_each(m, addr, n - 1, i);
    }
}

/// Decodes a string of the newer client.
pub fn read_csharp_string(process: &ProcessMemory, addr: usize) -> (r: Result<String, MemoryError>)
    ensures
        string_outcome(r, string_at(process@, addr as int, csharp_layout())),
{
    read_string(
        process,
        addr,
        StringLayout { native_pointer: true, length_offset: 0x8, units_offset: 0xC },
    )
}

/// Decodes a string of the older client.
pub fn read_stable_string(process: &ProcessMemory, addr: usize) -> (r: Result<String, MemoryError>)
    ensures
        string_outcome(r, string_at(process@, addr as int, stable_layout())),
{
    read_string(
        process,
        addr,
        StringLayout { native_pointer: false, length_offset: 0x4, units_offset: 0x8 },
    )
}

/// Decodes the string whose pointer stands `offset` bytes behind `base`.
pub fn read_string_at(
    process: &ProcessMemory,
    base: usize,
    offset: usize,
    layout: StringLayout,
) -> (r: Result<String, MemoryError>)
    ensures
        string_outcome(r, string_at(process@, base + offset, layout)),
{
    match offset_address(base, offset) {
        Some(addr) => read_string(process, addr, layout),
        None => {
            proof {
                use_type_invariant(process);
                lemma_outside_address_space(process@, base + offset, 8);
                lemma_outside_address_space(process@, base + offset, 4);
            }
            Err(MemoryError::read_failed("address range is not readable"))
        },
    }
}

/// The layout of the newer client's strings.
pub fn csharp() -> (layout: StringLayout)
    ensures
        layout == csharp_layout(),
{
    StringLayout { native_pointer: true, length_offset: 0x8, units_offset: 0xC }
}

/// The layout of the older client's strings.
pub fn stable() -> (layout: StringLayout)
    ensures
        layout == stable_layout(),
{
    StringLayout { native_pointer: false, length_offset: 0x4, units_offset: 0x8 }
}

/// A string object whose length field is zero, negative or above
/// `MAX_STRING_UNITS` decodes to the empty string, whatever stands behind
/// its header.
pub proof fn lemma_length_guard(m: Seq<RegionView>, addr: int, layout: StringLayout)
    requires
        pointer_at(m, addr, layout.native_pointer) is Some,
        pointer_at(m, addr, layout.native_pointer)->0 != 0,
        i32_at(m, pointer_at(m, addr, layout.native_pointer)->0 + layout.length_offset) is Some,
        ({
            let length = i32_at(
                m,
                pointer_at(m, addr, layout.native_pointer)->0 + layout.length_offset,
            )->0;
            length <= 0 || length > MAX_STRING_UNITS
        }),
    ensures
        string_at(m, addr, layout) == Ok::<Seq<char>, MemoryErrorView>(Seq::empty()),
{
}

} // verus!
