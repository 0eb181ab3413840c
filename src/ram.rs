//! The CHIP-8 main memory: 4096 bytes addressed by 12-bit addresses.
//!
//! Every address handed in is cut down to its low 12 bits, so no access can go
//! out of bounds. The lowest 512 bytes are reserved by convention for system
//! data such as the font table, but nothing prevents writes there.
use crate::sys_font::{font_table, Font};
use vstd::prelude::*;

verus! {

/// The memory is 4 KiB (4096 bytes) in size.
pub const RAM_SIZE: u16 = 4096;

/// One end of an address range, as written by the caller (before masking).
#[derive(Debug, Copy, Clone, PartialEq, Eq, Structural)]
pub enum AddrBound {
    Included(u16),
    Excluded(u16),
    Unbounded,
}

/// The address an access to `addr` lands on: its low 12 bits.
pub open spec fn mask(addr: u16) -> int {
    addr as int % 4096
}

/// First index of the memory block that a range with these bounds selects.
pub open spec fn range_start(start: AddrBound) -> int {
    match start {
        AddrBound::Included(a) => mask(a),
        AddrBound::Excluded(a) => if mask(a) + 1 < 4095 {
            mask(a) + 1
        } else {
            4095
        },
        AddrBound::Unbounded => 0,
    }
}

/// The end a range with this upper bound states: one past the last address,
/// after masking, and never past the end of memory.
pub open spec fn range_end(end: AddrBound) -> int {
    match end {
        AddrBound::Included(a) => if mask(a) + 1 < 4096 {
            mask(a) + 1
        } else {
            4096
        },
        AddrBound::Excluded(a) => mask(a),
        AddrBound::Unbounded => 4096,
    }
}

/// One past the last index of the block that a range with these bounds
/// selects: its stated end, raised to its start when the range is reversed
/// (so that a reversed range selects nothing).
pub open spec fn block_end(start: AddrBound, end: AddrBound) -> int {
    if range_end(end) < range_start(start) {
        range_start(start)
    } else {
        range_end(end)
    }
}

/// The memory right after construction: zero everywhere except for the font
/// table at its preferred address.
pub open spec fn initial_memory() -> Seq<u8> {
    Seq::new(
        4096,
        |i: int|
            if 0x50 <= i < 0xA0 {
                font_table()[i - 0x50]
            } else {
                0u8
            },
    )
}

/// A range of addresses that [`Ram::get_range`] and [`Ram::get_range_mut`] accept.
pub trait AddrRange {
    /// The two ends of the range.
    spec fn spec_bounds(&self) -> (AddrBound, AddrBound);

    fn addr_bounds(&self) -> (r: (AddrBound, AddrBound))
        ensures
            r == self.spec_bounds(),
    ;
}

impl AddrRange for core::ops::Range<u16> {
    open spec fn spec_bounds(&self) -> (AddrBound, AddrBound) {
        (AddrBound::Included(self.start), AddrBound::Excluded(self.end))
    }

    fn addr_bounds(&self) -> (r: (AddrBound, AddrBound)) {
        (AddrBound::Included(self.start), AddrBound::Excluded(self.end))
    }
}

/// Relies on `RangeInclusive::start`: it returns the lower end the range was made with.
pub assume_specification<Idx>[ core::ops::RangeInclusive::<Idx>::start ](
    r: &core::ops::RangeInclusive<Idx>,
) -> (s: &Idx)
    ensures
        *s == r@.start,
;

/// Relies on `RangeInclusive::end`: it returns the upper end the range was made with.
pub assume_specification<Idx>[ core::ops::RangeInclusive::<Idx>::end ](
    r: &core::ops::RangeInclusive<Idx>,
) -> (e: &Idx)
    ensures
        *e == r@.end,
;

impl AddrRange for core::ops::RangeInclusive<u16> {
    /// An inclusive range stands for both of its ends.
    open spec fn spec_bounds(&self) -> (AddrBound, AddrBound) {
        (AddrBound::Included(self@.start), AddrBound::Included(self@.end))
    }

    fn addr_bounds(&self) -> (r: (AddrBound, AddrBound)) {
        (AddrBound::Included(*self.start()), AddrBound::Included(*self.end()))
    }
}

#[verifier::external_type_specification]
#[verifier::reject_recursive_types(Idx)]
pub struct ExRangeFrom<Idx>(core::ops::RangeFrom<Idx>);

#[verifier::external_type_specification]
#[verifier::reject_recursive_types(Idx)]
pub struct ExRangeTo<Idx>(core::ops::RangeTo<Idx>);

#[verifier::external_type_specification]
#[verifier::reject_recursive_types(Idx)]
pub struct ExRangeToInclusive<Idx>(core::ops::RangeToInclusive<Idx>);

#[verifier::external_type_specification]
pub struct ExRangeFull(core::ops::RangeFull);

impl AddrRange for core::ops::RangeFrom<u16> {
    open spec fn spec_bounds(&self) -> (AddrBound, AddrBound) {
        (AddrBound::Included(self.start), AddrBound::Unbounded)
    }

    fn addr_bounds(&self) -> (r: (AddrBound, AddrBound)) {
        (AddrBound::Included(self.start), AddrBound::Unbounded)
    }
}

impl AddrRange for core::ops::RangeTo<u16> {
    open spec fn spec_bounds(&self) -> (AddrBound, AddrBound) {
        (AddrBound::Unbounded, AddrBound::Excluded(self.end))
    }

    fn addr_bounds(&self) -> (r: (AddrBound, AddrBound)) {
        (AddrBound::Unbounded, AddrBound::Excluded(self.end))
    }
}

impl AddrRange for core::ops::RangeToInclusive<u16> {
    open spec fn spec_bounds(&self) -> (AddrBound, AddrBound) {
        (AddrBound::Unbounded, AddrBound::Included(self.end))
    }

    fn addr_bounds(&self) -> (r: (AddrBound, AddrBound)) {
        (AddrBound::Unbounded, AddrBound::Included(self.end))
    }
}

impl AddrRange for core::ops::RangeFull {
    open spec fn spec_bounds(&self) -> (AddrBound, AddrBound) {
        (AddrBound::Unbounded, AddrBound::Unbounded)
    }

    fn addr_bounds(&self) -> (r: (AddrBound, AddrBound)) {
        (AddrBound::Unbounded, AddrBound::Unbounded)
    }
}

impl AddrRange for (AddrBound, AddrBound) {
    open spec fn spec_bounds(&self) -> (AddrBound, AddrBound) {
        *self
    }

    fn addr_bounds(&self) -> (r: (AddrBound, AddrBound)) {
        *self
    }
}

/// The main system memory of a CHIP-8.
#[derive(Debug)]
pub struct Ram {
    mem: [u8; 4096],
}

impl View for Ram {
    type V = Seq<u8>;

    closed spec fn view(&self) -> Seq<u8> {
        self.mem@
    }
}

impl Ram {
    /// New memory, zeroed, with the font table loaded at
    /// [`Font::PREFERRED_TABLE_STARTING_ADDRESS`].
    pub fn new() -> (r: Ram)
        ensures
            r@ == initial_memory(),
    {
        let mut mem: [u8; 4096] = [0u8; 4096];
        let table = Font::get_table_as_bytes();
        let base = addr_to_usize(Font::PREFERRED_TABLE_STARTING_ADDRESS);
        let mut i: usize = 0;
        while i < 80
            invariant
                base == 0x50,
                i <= 80,
                table@ == font_table(),
                forall|k: int|
                    0 <= k < 4096 ==> #[trigger] mem@[k] == if 0x50 <= k < 0x50 + i {
                        font_table()[k - 0x50]
                    } else {
                        0u8
                    },
            decreases 80 - i,
        {
            mem[base + i] = table[i];
            i += 1;
        }
        let r = Ram { mem };
        assert(r@ =~= initial_memory());
        r
    }

    /// The byte at `addr`; only the low 12 bits of `addr` are used.
    pub fn get(&self, addr: u16) -> (r: &u8)
        ensures
            *r == self@[mask(addr)],
    {
        &self.mem[addr_to_usize(addr)]
    }

    /// A mutable reference to the byte at `addr`; only the low 12 bits of
    /// `addr` are used.
    pub fn get_mut(&mut self, addr: u16) -> (r: &mut u8)
        ensures
            *r == old(self)@[mask(addr)],
            final(self)@ == old(self)@.update(mask(addr), *final(r)),
    {
        let i = addr_to_usize(addr);
        &mut self.mem[i]
    }

    /// The block of memory that `addr_range` selects, after masking both ends.
    pub fn get_range<R: AddrRange>(&self, addr_range: R) -> (r: &[u8])
        ensures
            r@ == self@.subrange(
                range_start(addr_range.spec_bounds().0),
                block_end(addr_range.spec_bounds().0, addr_range.spec_bounds().1),
            ),
    {
        let range = addr_range_to_usize_range(addr_range);
        let s: &[u8] = self.mem.as_slice();
        &s[range]
    }

    /// A mutable view of the block of memory that `addr_range` selects, after
    /// masking both ends. Writes through it land in that block and nowhere else.
    pub fn get_range_mut<R: AddrRange>(&mut self, addr_range: R) -> (r: &mut [u8])
        ensures
            r@ == old(self)@.subrange(
                range_start(addr_range.spec_bounds().0),
                block_end(addr_range.spec_bounds().0, addr_range.spec_bounds().1),
            ),
            final(self)@ == old(self)@.subrange(0, range_start(addr_range.spec_bounds().0))
                + final(r)@ + old(self)@.subrange(
                block_end(addr_range.spec_bounds().0, addr_range.spec_bounds().1),
                4096,
            ),
    {
        let range = addr_range_to_usize_range(addr_range);
        let whole: &mut [u8] = &mut self.mem;
        let (_, tail) = whole.split_at_mut(range.start);
        let (block, _) = tail.split_at_mut(range.end - range.start);
        block
    }

    /// Stores `val` at `addr`; only the low 12 bits of `addr` are used.
    pub fn set(&mut self, addr: u16, val: u8)
        ensures
            final(self)@ == old(self)@.update(mask(addr), val),
    {
        self.mem[addr_to_usize(addr)] = val;
    }
}

impl Default for Ram {
    fn default() -> (r: Ram)
        ensures
            r@ == initial_memory(),
    {
        Ram::new()
    }
}

impl core::ops::Index<u16> for Ram {
    type Output = u8;

    /// `ram[addr]` reads the byte at the low 12 bits of `addr`.
    fn index(&self, addr: u16) -> (r: &u8)
        ensures
            *r == self@[mask(addr)],
    {
        self.get(addr)
    }
}

impl core::ops::IndexMut<u16> for Ram {
    /// `ram[addr] = v` writes the byte at the low 12 bits of `addr`.
    fn index_mut(&mut self, addr: u16) -> (r: &mut u8)
        ensures
            *r == old(self)@[mask(addr)],
            final(self)@ == old(self)@.update(mask(addr), *final(r)),
    {
        self.get_mut(addr)
    }
}

/// Cuts off the top 4 bits of an address: addresses are 12 bits wide, so
/// every `u16` address lands on `addr mod 4096`.
pub fn clean_addr(addr: u16) -> (r: u16)
    ensures
        r == mask(addr),
        r == addr % 4096,
        r < 4096,
{
    assert(addr & 0x0FFF == addr % 4096) by (bit_vector);
    addr & 0b0000_1111_1111_1111
}

/// An address as an index into memory, top 4 bits erased.
fn addr_to_usize(addr: u16) -> (r: usize)
    ensures
        r == mask(addr),
        r < 4096,
{
    clean_addr(addr) as usize
}

/// Brings a range of any supported shape to a plain `start..end` range of
/// masked addresses. A reversed range stays reversed.
fn normalize_addr_range<R: AddrRange>(addr_range: R) -> (r: core::ops::Range<u16>)
    ensures
        r.start == range_start(addr_range.spec_bounds().0),
        r.end == range_end(addr_range.spec_bounds().1),
{
    let (start_bound, end_bound) = addr_range.addr_bounds();
    let start: u16 = match start_bound {
        AddrBound::Included(addr) => clean_addr(addr),
        AddrBound::Excluded(addr) => {
            let next = clean_addr(addr) + 1;
            if next < RAM_SIZE - 1 {
                next
            } else {
                RAM_SIZE - 1
            }
        },
        AddrBound::Unbounded => 0,
    };
    let end: u16 = match end_bound {
        AddrBound::Included(addr) => {
            let next = clean_addr(addr) + 1;
            if next < RAM_SIZE {
                next
            } else {
                RAM_SIZE
            }
        },
        AddrBound::Excluded(addr) => clean_addr(addr),
        AddrBound::Unbounded => RAM_SIZE,
    };
    start..end
}

/// The masked range as indices into memory; a reversed range becomes the
/// empty block at its start.
fn addr_range_to_usize_range<R: AddrRange>(addr_range: R) -> (r: core::ops::Range<usize>)
    ensures
        r.start == range_start(addr_range.spec_bounds().0),
        r.end == block_end(addr_range.spec_bounds().0, addr_range.spec_bounds().1),
        r.start <= r.end <= 4096,
{
    let normalized = normalize_addr_range(addr_range);
    let start = normalized.start as usize;
    let end = if normalized.end < normalized.start {
        start
    } else {
        normalized.end as usize
    };
    start..end
}

/// Addresses wrap: `mask(a)` is `a mod 4096`, lies in memory, and an access at
/// `a` is the same access as one at `mask(a)`.
pub proof fn lemma_addresses_wrap(ram: Ram, a: u16)
    ensures
        mask(a) == a as int % 4096,
        0 <= mask(a) < 4096,
        mask(mask(a) as u16) == mask(a),
        ram@.len() == 4096,
        ram@[mask(mask(a) as u16)] == ram@[mask(a)],
        forall|v: u8| #[trigger] ram@.update(mask(mask(a) as u16), v) == ram@.update(mask(a), v),
{
}

} // verus!
