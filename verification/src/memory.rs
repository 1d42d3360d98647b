//! A captured view of a process's address space and the fixed-width reads
//! that pointer chains are walked with.

use crate::errors::{MemoryError, MemoryErrorView};
use crate::scan::{find_pattern, is_first_match, matches_at};
use vstd::prelude::*;
use vstd::string::*;

verus! {

/// One captured stretch of the target's address space: the bytes found
/// from `start` on.
#[derive(Debug, Clone, PartialEq)]
pub struct MemoryRegion {
    pub start: usize,
    pub data: Vec<u8>,
}

/// A region as mathematics: its first address and its bytes.
pub struct RegionView {
    pub start: int,
    pub bytes: Seq<u8>,
}

impl RegionView {
    /// The first address behind the region.
    pub open spec fn end(self) -> int {
        self.start + self.bytes.len()
    }

    /// Whether `addr` lies inside the region.
    pub open spec fn holds(self, addr: int) -> bool {
        self.start <= addr < self.end()
    }
}

impl View for MemoryRegion {
    type V = RegionView;

    open spec fn view(&self) -> RegionView {
        RegionView { start: self.start as int, bytes: self.data@ }
    }
}

/// The views of a list of regions, in the same order.
pub open spec fn region_views(regions: Seq<MemoryRegion>) -> Seq<RegionView> {
    Seq::new(regions.len(), |i: int| regions[i]@)
}

/// Regions lie inside the address space, in ascending order, without
/// overlap.
pub open spec fn layout_ok(m: Seq<RegionView>) -> bool {
    &&& forall|i: int| 0 <= i < m.len() ==> 0 <= (#[trigger] m[i]).start && m[i].end() <= usize::MAX
    &&& forall|i: int, j: int|
        0 <= i < j < m.len() ==> (#[trigger] m[i]).end() <= (#[trigger] m[j]).start
}

/// Whether some region holds `addr`.
pub open spec fn mapped(m: Seq<RegionView>, addr: int) -> bool {
    exists|i: int| 0 <= i < m.len() && (#[trigger] m[i]).holds(addr)
}

/// The index of a region that holds `addr`.
pub open spec fn region_of(m: Seq<RegionView>, addr: int) -> int {
    choose|i: int| 0 <= i < m.len() && (#[trigger] m[i]).holds(addr)
}

/// The byte at `addr`; meaningful where `addr` is mapped.
pub open spec fn byte_at(m: Seq<RegionView>, addr: int) -> u8 {
    let region = m[region_of(m, addr)];
    region.bytes[addr - region.start]
}

/// Whether each of the `len` addresses from `addr` on is mapped.
pub open spec fn readable(m: Seq<RegionView>, addr: int, len: int) -> bool {
    forall|a: int| addr <= a < addr + len ==> #[trigger] mapped(m, a)
}

/// The `len` bytes from `addr` on.
pub open spec fn bytes_at(m: Seq<RegionView>, addr: int, len: int) -> Seq<u8> {
    Seq::new(len as nat, |k: int| byte_at(m, addr + k))
}

/// Two bytes as an unsigned little-endian number.
pub open spec fn le_u16(b: Seq<u8>) -> int {
    b[0] + b[1] * 0x100
}

/// Four bytes as an unsigned little-endian number.
pub open spec fn le_u32(b: Seq<u8>) -> int {
    b[0] + b[1] * 0x100 + b[2] * 0x1_0000 + b[3] * 0x100_0000
}

/// Eight bytes as an unsigned little-endian number.
pub open spec fn le_u64(b: Seq<u8>) -> int {
    le_u32(b.subrange(0, 4)) + le_u32(b.subrange(4, 8)) * 0x1_0000_0000
}

/// An unsigned 32-bit number read as two's complement.
pub open spec fn as_signed32(v: int) -> int {
    if v >= 0x8000_0000 {
        v - 0x1_0000_0000
    } else {
        v
    }
}

/// The 16-bit unit at `addr`, where both of its bytes are mapped.
pub open spec fn u16_at(m: Seq<RegionView>, addr: int) -> Option<int> {
    if readable(m, addr, 2) {
        Some(le_u16(bytes_at(m, addr, 2)))
    } else {
        None
    }
}

/// The unsigned 32-bit number at `addr`, where all four bytes are mapped.
pub open spec fn u32_at(m: Seq<RegionView>, addr: int) -> Option<int> {
    if readable(m, addr, 4) {
        Some(le_u32(bytes_at(m, addr, 4)))
    } else {
        None
    }
}

/// The signed 32-bit number at `addr`, where all four bytes are mapped.
pub open spec fn i32_at(m: Seq<RegionView>, addr: int) -> Option<int> {
    match u32_at(m, addr) {
        Some(v) => Some(as_signed32(v)),
        None => None,
    }
}

/// The pointer of this build's width at `addr`, where all of its bytes are
/// mapped.
pub open spec fn ptr_at(m: Seq<RegionView>, addr: int) -> Option<int> {
    if usize::BITS == 64 {
        if readable(m, addr, 8) {
            Some(le_u64(bytes_at(m, addr, 8)))
        } else {
            None
        }
    } else {
        u32_at(m, addr)
    }
}

/// The text carried by the error for a read that touches an unmapped
/// address.
pub open spec fn unreadable_text() -> Seq<char> {
    "address range is not readable"@
}

/// The text carried by the error for a list of regions that is out of
/// order, overlapping or past the end of the address space.
pub open spec fn layout_text() -> Seq<char> {
    "memory regions are not in ascending order"@
}

/// What a read reports: the value where there is one, the read failure
/// otherwise.
pub open spec fn read_outcome<T>(r: Result<T, MemoryError>, expected: Option<int>) -> bool
    where T: Integer
{
    match r {
        Ok(v) => expected == Some(v as int),
        Err(e) => expected is None && e@ == MemoryErrorView::ReadFailed(unreadable_text()),
    }
}

/// Whether the pattern lies inside one region with its first byte at the
/// absolute address `addr`.
pub open spec fn occurs_at(m: Seq<RegionView>, pattern: Seq<u8>, mask: Seq<bool>, addr: int) -> bool {
    exists|i: int|
        0 <= i < m.len() && matches_at((#[trigger] m[i]).bytes, pattern, mask, addr - m[i].start)
}

/// `addr` is the lowest address at which the pattern lies inside one region.
pub open spec fn is_anchor(m: Seq<RegionView>, pattern: Seq<u8>, mask: Seq<bool>, addr: int) -> bool {
    &&& pattern.len() == mask.len()
    &&& occurs_at(m, pattern, mask, addr)
    &&& forall|a: int| a < addr ==> !occurs_at(m, pattern, mask, a)
}

/// The address that a scan for the pattern reports: the lowest at which it
/// lies inside one region, where there is one.
pub open spec fn anchor(m: Seq<RegionView>, pattern: Seq<u8>, mask: Seq<bool>) -> Option<int> {
    if exists|addr: int| is_anchor(m, pattern, mask, addr) {
        Some(choose|addr: int| is_anchor(m, pattern, mask, addr))
    } else {
        None
    }
}

/// The memory of one process as it was captured: a list of regions in
/// ascending order.
#[derive(Debug)]
pub struct ProcessMemory {
    pid: u32,
    regions: Vec<MemoryRegion>,
}

impl View for ProcessMemory {
    type V = Seq<RegionView>;

    closed spec fn view(&self) -> Seq<RegionView> {
        region_views(self.regions@)
    }
}

fn unreadable() -> (error: MemoryError)
    ensures
        error@ == MemoryErrorView::ReadFailed(unreadable_text()),
{
    MemoryError::read_failed("address range is not readable")
}

impl ProcessMemory {
    /// Every capture keeps its regions inside the address space, ascending
    /// and without overlap.
    #[verifier::type_invariant]
    pub open spec fn ordered(self) -> bool {
        layout_ok(self@)
    }

    /// The id of the captured process.
    pub closed spec fn spec_pid(&self) -> u32 {
        self.pid
    }

    /// Takes a capture of process `pid`. The regions must lie inside the
    /// address space, ascending and without overlap; any other list is
    /// refused.
    pub fn new(pid: u32, regions: Vec<MemoryRegion>) -> (made: Result<ProcessMemory, MemoryError>)
        ensures
            match made {
                Ok(memory) => {
                    &&& layout_ok(region_views(regions@))
                    &&& memory@ == region_views(regions@)
                    &&& memory.spec_pid() == pid
                },
                Err(e) => {
                    &&& !layout_ok(region_views(regions@))
                    &&& e@ == MemoryErrorView::ReadFailed(layout_text())
                },
            },
    {
        let ghost m = region_views(regions@);
        let mut floor: usize = 0;
        let mut i: usize = 0;
        while i < regions.len()
            invariant
                i <= regions.len(),
                m == region_views(regions@),
                i == 0 ==> floor == 0,
                i > 0 ==> floor == m[i - 1].end(),
                forall|k: int| 0 <= k < i ==> 0 <= (#[trigger] m[k]).start && m[k].end() <= usize::MAX,
                forall|k: int, j: int|
                    0 <= k < j < i ==> (#[trigger] m[k]).end() <= (#[trigger] m[j]).start,
            decreases regions.len() - i,
        {
            let region = &regions[i];
            assert(m[i as int] == region@);
            if region.start < floor || region.data.len() > usize::MAX - region.start {
                return Err(MemoryError::read_failed("memory regions are not in ascending order"));
            }
            floor = region.start + region.data.len();
            i += 1;
        }
        Ok(ProcessMemory { pid, regions })
    }

    /// The id of the captured process.
    pub fn pid(&self) -> (pid: u32)
        ensures
            pid == self.spec_pid(),
    {
        self.pid
    }

    /// The byte at `addr`, where a region holds it. The regions are in
    /// ascending order, so the search halves its range at every step.
    fn byte(&self, addr: usize) -> (found: Option<u8>)
        ensures
            match found {
                Some(b) => mapped(self@, addr as int) && b == byte_at(self@, addr as int),
                None => !mapped(self@, addr as int),
            },
    {
        proof {
            use_type_invariant(self);
        }
        let ghost m = self@;
        let mut low: usize = 0;
        let mut high: usize = self.regions.len();
        while low < high
            invariant
                low <= high <= self.regions.len(),
                m == self@,
                m == region_views(self.regions@),
                layout_ok(m),
                forall|k: int| 0 <= k < low ==> (#[trigger] m[k]).end() <= addr,
                forall|k: int| high <= k < m.len() ==> (#[trigger] m[k]).start > addr,
            decreases high - low,
        {
            let mid: usize = low + (high - low) / 2;
            let region = &self.regions[mid];
            assert(m[mid as int] == region@);
            if region.start > addr {
                proof {
                    assert forall|k: int| mid <= k < m.len() implies (#[trigger] m[k]).start
                        > addr by {
                        if k > mid {
                            assert(m[mid as int].end() <= m[k].start);
                        }
                    }
                }
                high = mid;
            } else if addr - region.start < region.data.len() {
                proof {
                    assert(m[mid as int].holds(addr as int));
                    let j = region_of(m, addr as int);
                    assert(m[j].holds(addr as int));
                    if j < mid {
                        assert(m[j].end() <= m[mid as int].start);
                    }
                    if j > mid {
                        assert(m[mid as int].end() <= m[j].start);
                    }
                    assert(j == mid);
                }
                return Some(region.data[addr - region.start]);
            } else {
                proof {
                    assert forall|k: int| 0 <= k < mid + 1 implies (#[trigger] m[k]).end()
                        <= addr by {
                        if k < mid {
                            assert(m[k].end() <= m[mid as int].start);
                        }
                    }
                }
                low = mid + 1;
            }
        }
        proof {
            assert forall|k: int| 0 <= k < m.len() implies !(#[trigger] m[k]).holds(
                addr as int,
            ) by {
                if k < low {
                    assert(m[k].end() <= addr);
                } else {
                    assert(m[k].start > addr);
                }
            }
        }
        None
    }

    /// Reads `size` bytes from `addr` on. The read succeeds where every one
    /// of those addresses lies in a captured region.
    pub fn read_bytes(&self, addr: usize, size: usize) -> (r: Result<Vec<u8>, MemoryError>)
        ensures
            match r {
                Ok(bytes) => readable(self@, addr as int, size as int) && bytes@ == bytes_at(
                    self@,
                    addr as int,
                    size as int,
                ),
                Err(e) => !readable(self@, addr as int, size as int) && e@
                    == MemoryErrorView::ReadFailed(unreadable_text()),
            },
    {
        proof {
            use_type_invariant(self);
        }
        let mut out: Vec<u8> = Vec::new();
        let mut k: usize = 0;
        while k < size
            invariant
                k <= size,
                out@.len() == k,
                layout_ok(self@),
                forall|a: int| addr <= a < addr + k ==> #[trigger] mapped(self@, a),
                forall|j: int| 0 <= j < k ==> out@[j] == byte_at(self@, addr + j),
            decreases size - k,
        {
            if k > usize::MAX - addr {
                proof {
                    let a = addr + k;
                    assert(!mapped(self@, a));
                }
                return Err(unreadable());
            }
            match self.byte(addr + k) {
                Some(b) => {
                    out.push(b);
                },
                None => {
                    return Err(unreadable());
                },
            }
            k += 1;
        }
        assert(out@ =~= bytes_at(self@, addr as int, size as int));
        Ok(out)
    }

    /// Reads the 16-bit little-endian unit at `addr`.
    pub fn read_u16(&self, addr: usize) -> (r: Result<u16, MemoryError>)
        ensures
            read_outcome(r, u16_at(self@, addr as int)),
    {
        let b = self.read_bytes(addr, 2)?;
        let v: u16 = b[0] as u16 + (b[1] as u16) * 0x100;
        Ok(v)
    }

    /// Reads the unsigned 32-bit little-endian number at `addr`.
    pub fn read_u32(&self, addr: usize) -> (r: Result<u32, MemoryError>)
        ensures
            read_outcome(r, u32_at(self@, addr as int)),
    {
        let b = self.read_bytes(addr, 4)?;
        let v: u32 = b[0] as u32 + (b[1] as u32) * 0x100 + (b[2] as u32) * 0x1_0000 + (b[3] as u32)
            * 0x100_0000;
        Ok(v)
    }

    /// Reads the signed 32-bit little-endian number at `addr`.
    pub fn read_i32(&self, addr: usize) -> (r: Result<i32, MemoryError>)
        ensures
            read_outcome(r, i32_at(self@, addr as int)),
    {
        let v = self.read_u32(addr)?;
        if v >= 0x8000_0000 {
            let low: i32 = (v - 0x8000_0000) as i32;
            Ok(low + i32::MIN)
        } else {
            Ok(v as i32)
        }
    }

    /// Reads a 4-byte pointer at `addr`, whatever the width of this build.
    pub fn read_ptr32(&self, addr: usize) -> (r: Result<usize, MemoryError>)
        ensures
            read_outcome(r, u32_at(self@, addr as int)),
    {
        let v = self.read_u32(addr)?;
        Ok(v as usize)
    }

    /// Reads a pointer of this build's width at `addr`.
    pub fn read_ptr(&self, addr: usize) -> (r: Result<usize, MemoryError>)
        ensures
            read_outcome(r, ptr_at(self@, addr as int)),
    {
        if usize::BITS == 64 {
            let b = self.read_bytes(addr, 8)?;
            let lo: u64 = b[0] as u64 + (b[1] as u64) * 0x100 + (b[2] as u64) * 0x1_0000 + (
            b[3] as u64) * 0x100_0000;
            let hi: u64 = b[4] as u64 + (b[5] as u64) * 0x100 + (b[6] as u64) * 0x1_0000 + (
            b[7] as u64) * 0x100_0000;
            let v: u64 = lo + hi * 0x1_0000_0000;
            proof {
                let s = bytes_at(self@, addr as int, 8);
                assert(s.subrange(0, 4) =~= seq![s[0], s[1], s[2], s[3]]);
                assert(s.subrange(4, 8) =~= seq![s[4], s[5], s[6], s[7]]);
            }
            Ok(v as usize)
        } else {
            self.read_ptr32(addr)
        }
    }

    /// Searches the captured regions, lowest first, for `pattern` under
    /// `mask` and gives the lowest address at which it lies inside one
    /// region.
    pub fn pattern_scan(&self, pattern: &[u8], mask: &[bool]) -> (r: Result<usize, MemoryError>)
        ensures
            match r {
                Ok(addr) => {
                    &&& is_anchor(self@, pattern@, mask@, addr as int)
                    &&& anchor(self@, pattern@, mask@) == Some(addr as int)
                },
                Err(e) => {
                    &&& e@ == MemoryErrorView::PatternNotFound
                    &&& pattern.len() != mask.len() || forall|a: int|
                        !occurs_at(self@, pattern@, mask@, a)
                    &&& anchor(self@, pattern@, mask@) is None
                },
            },
    {
        proof {
            use_type_invariant(self);
        }
        if pattern.len() != mask.len() {
            return Err(MemoryError::PatternNotFound);
        }
        let ghost m = self@;
        let mut i: usize = 0;
        while i < self.regions.len()
            invariant
                i <= self.regions.len(),
                pattern.len() == mask.len(),
                m == self@,
                m == region_views(self.regions@),
                layout_ok(m),
                forall|k: int, at: int|
                    0 <= k < i ==> !#[trigger] matches_at(m[k].bytes, pattern@, mask@, at),
            decreases self.regions.len() - i,
        {
            let region = &self.regions[i];
            assert(m[i as int] == region@);
            match find_pattern(region.data.as_slice(), pattern, mask) {
                Some(at) => {
                    let addr: usize = region.start + at;
                    proof {
                        assert(matches_at(m[i as int].bytes, pattern@, mask@, addr - m[i as int].start));
                        assert forall|a: int| a < addr implies !occurs_at(m, pattern@, mask@, a) by {
                            if occurs_at(m, pattern@, mask@, a) {
                                let j = choose|j: int|
                                    0 <= j < m.len() && matches_at(
                                        (#[trigger] m[j]).bytes,
                                        pattern@,
                                        mask@,
                                        a - m[j].start,
                                    );
                                if j > i {
                                    assert(m[i as int].end() <= m[j].start);
                                }
                            }
                        }
                    }
                    proof {
                        assert(is_anchor(m, pattern@, mask@, addr as int));
                        let other = choose|a: int| is_anchor(m, pattern@, mask@, a);
                        assert(is_anchor(m, pattern@, mask@, other));
                        if other < addr {
                            assert(!occurs_at(m, pattern@, mask@, other));
                        }
                        if addr < other {
                            assert(!occurs_at(m, pattern@, mask@, addr as int));
                        }
                    }
                    return Ok(addr);
                },
                None => {},
            }
            i += 1;
        }
        Err(MemoryError::PatternNotFound)
    }
}

/// The address `offset` bytes behind `base`, where the address space has
/// one.
pub fn offset_address(base: usize, offset: usize) -> (addr: Option<usize>)
    ensures
        match addr {
            Some(a) => a == base + offset,
            None => base + offset > usize::MAX,
        },
{
    if offset > usize::MAX - base {
        None
    } else {
        Some(base + offset)
    }
}

/// The address `offset` bytes from `base`, forwards or backwards, where the
/// address space has one.
pub fn signed_address(base: usize, offset: isize) -> (addr: Option<usize>)
    ensures
        match addr {
            Some(a) => a == base + offset,
            None => base + offset < 0 || base + offset > usize::MAX,
        },
{
    if offset >= 0 {
        offset_address(base, offset as usize)
    } else if offset == isize::MIN {
        let back: usize = isize::MAX as usize;
        if base > back {
            Some(base - back - 1)
        } else {
            None
        }
    } else {
        let back: usize = (-offset) as usize;
        if base >= back {
            Some(base - back)
        } else {
            None
        }
    }
}

/// No stretch that leaves the address space is readable.
pub proof fn lemma_outside_address_space(m: Seq<RegionView>, addr: int, len: int)
    requires
        layout_ok(m),
        len > 0,
        addr + len - 1 > usize::MAX || addr < 0,
    ensures
        !readable(m, addr, len),
{
    if addr < 0 {
        assert(!mapped(m, addr));
    } else {
        assert(!mapped(m, addr + len - 1));
    }
}

impl ProcessMemory {
    /// Reads a pointer of this build's width `offset` bytes behind `base`.
    pub fn read_ptr_at(&self, base: usize, offset: usize) -> (r: Result<usize, MemoryError>)
        ensures
            read_outcome(r, ptr_at(self@, base + offset)),
    {
        match offset_address(base, offset) {
            Some(addr) => self.read_ptr(addr),
            None => {
                proof {
                    use_type_invariant(self);
                    lemma_outside_address_space(self@, base + offset, 8);
                    lemma_outside_address_space(self@, base + offset, 4);
                }
                Err(unreadable())
            },
        }
    }

    /// Reads a pointer of this build's width `offset` bytes from `base`,
    /// forwards or backwards.
    pub fn read_ptr_signed(&self, base: usize, offset: isize) -> (r: Result<usize, MemoryError>)
        ensures
            read_outcome(r, ptr_at(self@, base + offset)),
    {
        match signed_address(base, offset) {
            Some(addr) => self.read_ptr(addr),
            None => {
                proof {
                    use_type_invariant(self);
                    lemma_outside_address_space(self@, base + offset, 8);
                    lemma_outside_address_space(self@, base + offset, 4);
                }
                Err(unreadable())
            },
        }
    }

    /// Reads a 4-byte pointer `offset` bytes behind `base`.
    pub fn read_ptr32_at(&self, base: usize, offset: usize) -> (r: Result<usize, MemoryError>)
        ensures
            read_outcome(r, u32_at(self@, base + offset)),
    {
        match offset_address(base, offset) {
            Some(addr) => self.read_ptr32(addr),
            None => {
                proof {
                    use_type_invariant(self);
                    lemma_outside_address_space(self@, base + offset, 4);
                }
                Err(unreadable())
            },
        }
    }

    /// Reads a 4-byte pointer `offset` bytes from `base`, forwards or
    /// backwards.
    pub fn read_ptr32_signed(&self, base: usize, offset: isize) -> (r: Result<usize, MemoryError>)
        ensures
            read_outcome(r, u32_at(self@, base + offset)),
    {
        match signed_address(base, offset) {
            Some(addr) => self.read_ptr32(addr),
            None => {
                proof {
                    use_type_invariant(self);
                    lemma_outside_address_space(self@, base + offset, 4);
                }
                Err(unreadable())
            },
        }
    }

    /// Reads the signed 32-bit number `offset` bytes behind `base`.
    pub fn read_i32_at(&self, base: usize, offset: usize) -> (r: Result<i32, MemoryError>)
        ensures
            read_outcome(r, i32_at(self@, base + offset)),
    {
        match offset_address(base, offset) {
            Some(addr) => self.read_i32(addr),
            None => {
                proof {
                    use_type_invariant(self);
                    lemma_outside_address_space(self@, base + offset, 4);
                }
                Err(unreadable())
            },
        }
    }

    /// Reads the 16-bit unit with index `index` in the array that begins
    /// `offset` bytes behind `base`.
    pub fn read_u16_index(&self, base: usize, offset: usize, index: usize) -> (r: Result<
        u16,
        MemoryError,
    >)
        ensures
            read_outcome(r, u16_at(self@, base + offset + 2 * index)),
    {
        let addr = match offset_address(base, offset) {
            Some(first) => {
                if index > usize::MAX / 2 {
                    None
                } else {
                    offset_address(first, 2 * index)
                }
            },
            None => None,
        };
        match addr {
            Some(a) => self.read_u16(a),
            None => {
                proof {
                    use_type_invariant(self);
                    lemma_outside_address_space(self@, base + offset + 2 * index, 2);
                }
                Err(unreadable())
            },
        }
    }

    /// Reads the 16-bit unit `offset` bytes behind `base`.
    pub fn read_u16_at(&self, base: usize, offset: usize) -> (r: Result<u16, MemoryError>)
        ensures
            read_outcome(r, u16_at(self@, base + offset)),
    {
        match offset_address(base, offset) {
            Some(addr) => self.read_u16(addr),
            None => {
                proof {
                    use_type_invariant(self);
                    lemma_outside_address_space(self@, base + offset, 2);
                }
                Err(unreadable())
            },
        }
    }
}

impl ProcessMemory {
    /// Reads the unsigned 32-bit number `offset` bytes behind `base`.
    pub fn read_u32_at(&self, base: usize, offset: usize) -> (r: Result<u32, MemoryError>)
        ensures
            read_outcome(r, u32_at(self@, base + offset)),
    {
        match offset_address(base, offset) {
            Some(addr) => self.read_u32(addr),
            None => {
                proof {
                    use_type_invariant(self);
                    lemma_outside_address_space(self@, base + offset, 4);
                }
                Err(unreadable())
            },
        }
    }
}

} // verus!
