use vstd::prelude::*;

use bitvec::order::Lsb0;
use bitvec::vec::BitVec;

use super::Mode;
use crate::bits::{bit_u128, bits_u128, Bits};
use crate::emotion_engine::bus::PhysicalAddress;

verus! {

/// Bits of a virtual address below the page number.
pub const OFFSET_BITS: u32 = 12;

/// Bytes in a page of the page table.
pub const PAGE_SIZE: u32 = 4096;

/// The offset bits of an address.
pub const OFFSET_MASK: u32 = 4095;

/// Pages in the 32-bit virtual address space.
pub const PAGES: usize = 0x10_0000;

/// Entries in the translation lookaside buffer.
pub const TLB_ENTRIES: usize = 48;

/// One bit per virtual page: whether the page is mapped.
#[verifier::external_body]
pub struct PageBits {
    bits: BitVec<usize, Lsb0>,
}

/// The bits that a `PageBits` holds, by page number.
pub uninterp spec fn page_bits(bits: PageBits) -> Seq<bool>;

/// `BitVec::repeat`: `len` bits, each equal to `value`.
#[verifier::external_body]
fn page_bits_repeat(value: bool, len: usize) -> (r: PageBits)
    ensures
        page_bits(r) == Seq::new(len as nat, |i: int| value),
{
    PageBits { bits: BitVec::repeat(value, len) }
}

/// Indexing a `BitVec`, which panics where `index` is out of bounds.
#[verifier::external_body]
fn page_bits_get(bits: &PageBits, index: usize) -> (r: bool)
    requires
        index < page_bits(*bits).len(),
    ensures
        r == page_bits(*bits)[index as int],
{
    bits.bits[index]
}

/// `BitVec::set`, which panics where `index` is out of bounds.
#[verifier::external_body]
fn page_bits_set(bits: &mut PageBits, index: usize, value: bool)
    requires
        index < page_bits(*old(bits)).len(),
    ensures
        page_bits(*final(bits)) == page_bits(*old(bits)).update(index as int, value),
{
    bits.bits.set(index, value)
}

/// `BitSlice::fill` on `bits[start..end]`, which panics where the range is out of bounds.
#[verifier::external_body]
fn page_bits_fill(bits: &mut PageBits, start: usize, end: usize, value: bool)
    requires
        start <= end <= page_bits(*old(bits)).len(),
    ensures
        page_bits(*final(bits)) == filled(page_bits(*old(bits)), start as int, end as int, value),
{
    bits.bits[start..end].fill(value)
}

/// `bits` with the positions `start..end` set to `value`.
pub open spec fn filled(bits: Seq<bool>, start: int, end: int, value: bool) -> Seq<bool> {
    Seq::new(bits.len(), |i: int| if start <= i < end { value } else { bits[i] })
}

/// Whether `mask` is one of the page masks that select a page size.
pub open spec fn valid_page_mask(mask: u16) -> bool {
    mask == 0 || mask == 0b11 || mask == 0b1111 || mask == 0b11_1111 || mask == 0b1111_1111
        || mask == 0b11_1111_1111 || mask == 0b1111_1111_1111
}

/// An entry of the translation lookaside buffer: a pair of adjacent virtual pages (even and
/// odd) and the physical frames they map to.
#[derive(Debug, PartialEq, Eq, Structural, Clone, Copy)]
pub struct TlbEntry {
    pub raw: u128,
}

impl TlbEntry {
    pub fn new(raw: u128) -> (r: TlbEntry)
        ensures
            r.raw == raw,
    {
        TlbEntry { raw }
    }

    /// Field MASK (bits 109..121): the page size.
    pub open spec fn spec_mask(self) -> u16 {
        bits_u128(self.raw, 109, 121) as u16
    }

    /// Field VPN2 (bits 77..96): the virtual page number of the even page, halved.
    pub open spec fn spec_virtual_page_number_div_2(self) -> u32 {
        bits_u128(self.raw, 77, 96) as u32
    }

    pub open spec fn spec_virtual_page_number_even(self) -> u32 {
        (self.spec_virtual_page_number_div_2() * 2) as u32
    }

    pub open spec fn spec_virtual_page_number_odd(self) -> u32 {
        (self.spec_virtual_page_number_div_2() * 2 + 1) as u32
    }

    /// Field S (bit 63): the entry maps the scratchpad.
    pub open spec fn spec_scratchpad(self) -> bool {
        bit_u128(self.raw, 63)
    }

    /// Field PFN of the even page (bits 38..58).
    pub open spec fn spec_page_frame_number_even(self) -> u32 {
        bits_u128(self.raw, 38, 58) as u32
    }

    /// Field V of the even page (bit 33).
    pub open spec fn spec_valid_even(self) -> bool {
        bit_u128(self.raw, 33)
    }

    /// Field PFN of the odd page (bits 6..26).
    pub open spec fn spec_page_frame_number_odd(self) -> u32 {
        bits_u128(self.raw, 6, 26) as u32
    }

    /// Field V of the odd page (bit 1).
    pub open spec fn spec_valid_odd(self) -> bool {
        bit_u128(self.raw, 1)
    }

    pub fn mask(&self) -> (r: u16)
        ensures
            r == self.spec_mask(),
    {
        self.raw.bits(109, 121) as u16
    }

    pub fn virtual_page_number_div_2(&self) -> (r: u32)
        ensures
            r == self.spec_virtual_page_number_div_2(),
    {
        self.raw.bits(77, 96) as u32
    }

    pub fn virtual_page_number_even(&self) -> (r: u32)
        ensures
            r == self.spec_virtual_page_number_even(),
            r < 0x10_0000,
    {
        proof {
            lemma_entry_field_bounds(self.raw);
        }
        self.raw.bits(77, 96) as u32 * 2
    }

    pub fn virtual_page_number_odd(&self) -> (r: u32)
        ensures
            r == self.spec_virtual_page_number_odd(),
            r < 0x10_0000,
    {
        proof {
            lemma_entry_field_bounds(self.raw);
        }
        self.raw.bits(77, 96) as u32 * 2 + 1
    }

    /// Field G (bit 76): the entry ignores the address space identifier.
    pub fn global(&self) -> (r: bool)
        ensures
            r == bit_u128(self.raw, 76),
    {
        self.raw.bit(76)
    }

    /// Field ASID (bits 64..72).
    pub fn address_space_id(&self) -> (r: u8)
        ensures
            r == bits_u128(self.raw, 64, 72) as u8,
    {
        self.raw.bits(64, 72) as u8
    }

    pub fn scratchpad(&self) -> (r: bool)
        ensures
            r == self.spec_scratchpad(),
    {
        self.raw.bit(63)
    }

    pub fn page_frame_number_even(&self) -> (r: u32)
        ensures
            r == self.spec_page_frame_number_even(),
            r < 0x10_0000,
    {
        proof {
            lemma_entry_field_bounds(self.raw);
        }
        self.raw.bits(38, 58) as u32
    }

    /// Field C of the even page (bits 35..38): the cache mode.
    pub fn cache_mode_even(&self) -> (r: u8)
        ensures
            r == bits_u128(self.raw, 35, 38) as u8,
    {
        self.raw.bits(35, 38) as u8
    }

    /// Field D of the even page (bit 34): the page is writable.
    pub fn dirty_even(&self) -> (r: bool)
        ensures
            r == bit_u128(self.raw, 34),
    {
        self.raw.bit(34)
    }

    pub fn valid_even(&self) -> (r: bool)
        ensures
            r == self.spec_valid_even(),
    {
        self.raw.bit(33)
    }

    pub fn page_frame_number_odd(&self) -> (r: u32)
        ensures
            r == self.spec_page_frame_number_odd(),
            r < 0x10_0000,
    {
        proof {
            lemma_entry_field_bounds(self.raw);
        }
        self.raw.bits(6, 26) as u32
    }

    /// Field C of the odd page (bits 3..6): the cache mode.
    pub fn cache_mode_odd(&self) -> (r: u8)
        ensures
            r == bits_u128(self.raw, 3, 6) as u8,
    {
        self.raw.bits(3, 6) as u8
    }

    /// Field D of the odd page (bit 2): the page is writable.
    pub fn dirty_odd(&self) -> (r: bool)
        ensures
            r == bit_u128(self.raw, 2),
    {
        self.raw.bit(2)
    }

    pub fn valid_odd(&self) -> (r: bool)
        ensures
            r == self.spec_valid_odd(),
    {
        self.raw.bit(1)
    }

    /// Whether the entry selects a page size: it maps the scratchpad or has a valid mask.
    pub open spec fn has_page_size(self) -> bool {
        self.spec_scratchpad() || valid_page_mask(self.spec_mask())
    }

    /// The size in bytes of each of the entry's two pages: 16 KiB for the scratchpad, else the
    /// size that the mask selects.
    pub open spec fn spec_len(self) -> u32 {
        if self.spec_scratchpad() {
            0x4000u32
        } else {
            let mask = self.spec_mask();
            if mask == 0 {
                0x1000u32
            } else if mask == 0b11 {
                0x4000u32
            } else if mask == 0b1111 {
                0x1_0000u32
            } else if mask == 0b11_1111 {
                0x4_0000u32
            } else if mask == 0b1111_1111 {
                0x10_0000u32
            } else if mask == 0b11_1111_1111 {
                0x40_0000u32
            } else {
                0x100_0000u32
            }
        }
    }

    pub fn len(&self) -> (r: u32)
        requires
            self.has_page_size(),
        ensures
            r == self.spec_len(),
    {
        if self.scratchpad() {
            return 16 * 1024;
        }
        match self.mask() {
            0b0000_0000_0000 => 4 * 1024,
            0b0000_0000_0011 => 16 * 1024,
            0b0000_0000_1111 => 64 * 1024,
            0b0000_0011_1111 => 256 * 1024,
            0b0000_1111_1111 => 1024 * 1024,
            0b0011_1111_1111 => 4 * 1024 * 1024,
            _ => 16 * 1024 * 1024,
        }
    }

    /// The physical frame of the even page: its frame number as an address, aligned down to
    /// the page size.
    pub open spec fn even_frame(self) -> u32 {
        ((self.spec_page_frame_number_even() << OFFSET_BITS) as u32) & !((self.spec_len() - 1) as u32)
    }

    /// The physical frame of the odd page.
    pub open spec fn odd_frame(self) -> u32 {
        ((self.spec_page_frame_number_odd() << OFFSET_BITS) as u32) & !((self.spec_len() - 1) as u32)
    }

    /// The (virtual page address, physical frame) pairs that the entry maps: the even page to
    /// the start of the scratchpad for a scratchpad entry; otherwise each page whose valid bit
    /// is set to its frame in memory.
    pub open spec fn spec_mappings(self) -> Seq<(u32, PhysicalAddress)> {
        if self.spec_scratchpad() {
            seq![
                (
                    (self.spec_virtual_page_number_even() << OFFSET_BITS) as u32,
                    PhysicalAddress(0x8000_0000),
                ),
            ]
        } else {
            (if self.spec_valid_even() {
                seq![
                    (
                        (self.spec_virtual_page_number_even() << OFFSET_BITS) as u32,
                        PhysicalAddress(self.even_frame()),
                    ),
                ]
            } else {
                Seq::empty()
            }).add(
                if self.spec_valid_odd() {
                    seq![
                        (
                            (self.spec_virtual_page_number_odd() << OFFSET_BITS) as u32,
                            PhysicalAddress(self.odd_frame()),
                        ),
                    ]
                } else {
                    Seq::empty()
                },
            )
        }
    }

    /// The entry can be written to the TLB: it selects a page size, its memory frames lie below
    /// the scratchpad bit, and every page it maps, and the frame it maps to, ends within the
    /// 32-bit address space.
    pub open spec fn is_well_formed(self) -> bool {
        &&& self.has_page_size()
        &&& !self.spec_scratchpad() ==> self.even_frame() < 0x8000_0000 && self.odd_frame()
            < 0x8000_0000
        &&& forall|i: int|
            0 <= i < self.spec_mappings().len() ==> {
                let (page, frame) = #[trigger] self.spec_mappings()[i];
                &&& page + self.spec_len() < 0x1_0000_0000
                &&& frame.0 + self.spec_len() <= 0x1_0000_0000
            }
    }

    /// Whether the entry can be written to the TLB.
    pub fn check_well_formed(&self) -> (r: bool)
        ensures
            r == self.is_well_formed(),
    {
        let mask = self.mask();
        let scratchpad = self.scratchpad();
        if !(scratchpad || mask == 0 || mask == 0b11 || mask == 0b1111 || mask == 0b11_1111
            || mask == 0b1111_1111 || mask == 0b11_1111_1111 || mask == 0b1111_1111_1111) {
            return false;
        }
        let len = self.len();
        if !scratchpad {
            let frame_mask = !(len - 1);
            let even = (self.page_frame_number_even() << OFFSET_BITS) & frame_mask;
            let odd = (self.page_frame_number_odd() << OFFSET_BITS) & frame_mask;
            if !(even < 0x8000_0000 && odd < 0x8000_0000) {
                return false;
            }
        }
        let mappings = self.mappings();
        let mut i: usize = 0;
        while i < mappings.len()
            invariant
                i <= mappings@.len(),
                mappings@ == self.spec_mappings(),
                len == self.spec_len(),
                forall|j: int|
                    0 <= j < i ==> {
                        let (page, frame) = #[trigger] self.spec_mappings()[j];
                        &&& page + self.spec_len() < 0x1_0000_0000
                        &&& frame.0 + self.spec_len() <= 0x1_0000_0000
                    },
            decreases mappings@.len() - i,
        {
            let (page, frame) = mappings[i];
            if !((page as u64) + (len as u64) < 0x1_0000_0000 && (frame.0 as u64) + (len as u64)
                <= 0x1_0000_0000) {
                return false;
            }
            i = i + 1;
        }
        true
    }

    pub fn mappings(&self) -> (r: Vec<(u32, PhysicalAddress)>)
        requires
            self.has_page_size(),
            !self.spec_scratchpad() ==> self.even_frame() < 0x8000_0000 && self.odd_frame()
                < 0x8000_0000,
        ensures
            r@ == self.spec_mappings(),
    {
        let mut result: Vec<(u32, PhysicalAddress)> = Vec::new();
        if self.scratchpad() {
            result.push(
                (self.virtual_page_number_even() << OFFSET_BITS, PhysicalAddress::scratchpad(0)),
            );
        } else {
            let frame_mask = !(self.len() - 1);
            let even = (self.page_frame_number_even() << OFFSET_BITS) & frame_mask;
            let odd = (self.page_frame_number_odd() << OFFSET_BITS) & frame_mask;
            if self.valid_even() {
                result.push(
                    (self.virtual_page_number_even() << OFFSET_BITS, PhysicalAddress::memory(even)),
                );
            }
            if self.valid_odd() {
                result.push(
                    (self.virtual_page_number_odd() << OFFSET_BITS, PhysicalAddress::memory(odd)),
                );
            }
        }
        proof {
            if self.spec_scratchpad() {
                assert(0u32 | 0x8000_0000u32 == 0x8000_0000u32) by (bit_vector);
            }
            assert(result@ =~= self.spec_mappings());
        }
        result
    }
}

/// Bounds of the fields of a TLB entry.
proof fn lemma_entry_field_bounds(raw: u128)
    by (bit_vector)
    ensures
        bits_u128(raw, 77, 96) < 0x8_0000,
        bits_u128(raw, 38, 58) < 0x10_0000,
        bits_u128(raw, 6, 26) < 0x10_0000,
{
}

/// The pages `start..end` in the table of `mode` that a mapping covers: all of them in kernel
/// mode; in supervisor mode those of the user segment (below 2 GiB) and of the supervisor
/// segment (3 GiB to 3.5 GiB); in user mode those of the user segment.
pub open spec fn mode_maps(mode: Mode, page: int) -> bool {
    match mode {
        Mode::Kernel => true,
        Mode::Supervisor => page < 0x8_0000 || 0xC_0000 <= page < 0xE_0000,
        Mode::User => page < 0x8_0000,
    }
}

/// The page numbers `start..end` covered by a mapping of `len` bytes at `virtual_page`.
pub open spec fn first_page(virtual_page: u32) -> int {
    virtual_page as int / PAGE_SIZE as int
}

pub open spec fn end_page(virtual_page: u32, len: u32) -> int {
    (virtual_page as int + len as int) / PAGE_SIZE as int
}

/// The page table of `mode` after mapping the pages `start..end` to consecutive frames from
/// `frame`.
pub open spec fn mapped_table(
    table: Seq<PhysicalAddress>,
    mode: Mode,
    start: int,
    end: int,
    frame: PhysicalAddress,
) -> Seq<PhysicalAddress> {
    Seq::new(
        table.len(),
        |p: int|
            if start <= p < end && mode_maps(mode, p) {
                PhysicalAddress((frame.0 + (p - start) * PAGE_SIZE) as u32)
            } else {
                table[p]
            },
    )
}

/// The mapped-page bits of `mode` after mapping the pages `start..end`.
pub open spec fn mapped_bits(bits: Seq<bool>, mode: Mode, start: int, end: int) -> Seq<bool> {
    Seq::new(bits.len(), |p: int| if start <= p < end && mode_maps(mode, p) { true } else { bits[p] })
}

/// The page-table state of the MMU in one mode: the frame of each page, and whether it is
/// mapped.
pub struct ModeTable {
    pub pages: Seq<PhysicalAddress>,
    pub mapped: Seq<bool>,
}

/// The tables after unmapping, in every mode, the pages of the first `n` mappings of `entry`.
pub open spec fn unmapped_entry(
    table: ModeTable,
    entry: TlbEntry,
    n: int,
) -> ModeTable
    decreases n,
{
    if n <= 0 {
        table
    } else {
        let previous = unmapped_entry(table, entry, n - 1);
        let (page, _) = entry.spec_mappings()[n - 1];
        ModeTable {
            pages: previous.pages,
            mapped: filled(
                previous.mapped,
                first_page(page),
                end_page(page, entry.spec_len()),
                false,
            ),
        }
    }
}

/// The tables of `mode` after mapping the first `n` mappings of `entry`.
pub open spec fn mapped_entry(table: ModeTable, mode: Mode, entry: TlbEntry, n: int) -> ModeTable
    decreases n,
{
    if n <= 0 {
        table
    } else {
        let previous = mapped_entry(table, mode, entry, n - 1);
        let (page, frame) = entry.spec_mappings()[n - 1];
        let start = first_page(page);
        let end = end_page(page, entry.spec_len());
        ModeTable {
            pages: mapped_table(previous.pages, mode, start, end, frame),
            mapped: mapped_bits(previous.mapped, mode, start, end),
        }
    }
}

/// The memory management unit: the TLB entries, and for each mode a page table that gives
/// the physical frame of every virtual page and whether the page is mapped.
pub struct Mmu {
    tlb_entries: Vec<TlbEntry>,
    pages: Vec<Vec<PhysicalAddress>>,
    mapped: Vec<PageBits>,
}

impl Mmu {
    pub closed spec fn tlb(self) -> Seq<TlbEntry> {
        self.tlb_entries@
    }

    /// The frame of each virtual page in `mode`.
    pub closed spec fn page_table(self, mode: Mode) -> Seq<PhysicalAddress> {
        self.pages@[mode.index()]@
    }

    /// Whether each virtual page is mapped in `mode`.
    pub closed spec fn mapped_pages(self, mode: Mode) -> Seq<bool> {
        page_bits(self.mapped@[mode.index()])
    }

    pub open spec fn table(self, mode: Mode) -> ModeTable {
        ModeTable { pages: self.page_table(mode), mapped: self.mapped_pages(mode) }
    }

    pub closed spec fn wf(self) -> bool {
        &&& self.tlb_entries@.len() == TLB_ENTRIES
        &&& forall|i: int|
            0 <= i < TLB_ENTRIES ==> (#[trigger] self.tlb_entries@[i]).is_well_formed()
        &&& self.pages@.len() == 3
        &&& self.mapped@.len() == 3
        &&& forall|m: int| 0 <= m < 3 ==> (#[trigger] self.pages@[m])@.len() == PAGES
        &&& forall|m: int| 0 <= m < 3 ==> page_bits(#[trigger] self.mapped@[m]).len() == PAGES
    }

    /// Every entry of the TLB is empty; kernel segments kseg0 and kseg1 (2 GiB to 3 GiB) map
    /// directly onto the first 512 MiB of physical memory; nothing else is mapped.
    pub fn new() -> (r: Mmu)
        ensures
            r.wf(),
            forall|i: int| 0 <= i < TLB_ENTRIES ==> #[trigger] r.tlb()[i] == TlbEntry::new_spec(0),
            forall|p: int|
                0 <= p < PAGES ==> #[trigger] r.page_table(Mode::Kernel)[p] == if 0x8_0000 <= p
                    < 0xC_0000 {
                    PhysicalAddress(((p * PAGE_SIZE) % 0x2000_0000) as u32)
                } else {
                    PhysicalAddress(0)
                },
            forall|p: int|
                0 <= p < PAGES ==> #[trigger] r.mapped_pages(Mode::Kernel)[p] == (0x8_0000 <= p
                    < 0xC_0000),
            forall|p: int|
                0 <= p < PAGES ==> #[trigger] r.page_table(Mode::Supervisor)[p] == PhysicalAddress(
                    0,
                ) && r.page_table(Mode::User)[p] == PhysicalAddress(0),
            forall|p: int|
                0 <= p < PAGES ==> !#[trigger] r.mapped_pages(Mode::Supervisor)[p]
                    && !r.mapped_pages(Mode::User)[p],
    {
        let mut kernel_pages = vec![PhysicalAddress::memory(0); PAGES];
        let supervisor_pages = vec![PhysicalAddress::memory(0); PAGES];
        let user_pages = vec![PhysicalAddress::memory(0); PAGES];
        let mut kernel_mapped = page_bits_repeat(false, PAGES);
        let supervisor_mapped = page_bits_repeat(false, PAGES);
        let user_mapped = page_bits_repeat(false, PAGES);
        // kseg0 and kseg1 are mapped directly to physical memory.
        let mut page: usize = 0x8_0000;
        while page < 0xC_0000
            invariant
                0x8_0000 <= page <= 0xC_0000,
                kernel_pages@.len() == PAGES,
                forall|p: int|
                    0 <= p < PAGES ==> #[trigger] kernel_pages@[p] == if 0x8_0000 <= p < page {
                        PhysicalAddress(((p * PAGE_SIZE) % 0x2000_0000) as u32)
                    } else {
                        PhysicalAddress(0)
                    },
            decreases 0xC_0000 - page,
        {
            let address = (page as u32) << OFFSET_BITS;
            let frame = address & 0x1FFF_FFFF;
            proof {
                lemma_kseg_frame(page as u32, address, frame);
            }
            kernel_pages[page] = PhysicalAddress::memory(frame);
            page += 1;
        }
        page_bits_fill(&mut kernel_mapped, 0x8_0000, 0xC_0000, true);
        let mut tlb_entries: Vec<TlbEntry> = Vec::new();
        let mut i: usize = 0;
        while i < TLB_ENTRIES
            invariant
                i <= TLB_ENTRIES,
                tlb_entries@.len() == i,
                forall|j: int| 0 <= j < i ==> #[trigger] tlb_entries@[j] == TlbEntry::new_spec(0),
            decreases TLB_ENTRIES - i,
        {
            tlb_entries.push(TlbEntry::new(0));
            i += 1;
        }
        proof {
            TlbEntry::lemma_empty_entry_well_formed();
        }
        let mut pages: Vec<Vec<PhysicalAddress>> = Vec::new();
        pages.push(kernel_pages);
        pages.push(supervisor_pages);
        pages.push(user_pages);
        let mut mapped: Vec<PageBits> = Vec::new();
        mapped.push(kernel_mapped);
        mapped.push(supervisor_mapped);
        mapped.push(user_mapped);
        Mmu { tlb_entries, pages, mapped }
    }
}

impl TlbEntry {
    pub open spec fn new_spec(raw: u128) -> TlbEntry {
        TlbEntry { raw }
    }

    /// The all-zero entry maps nothing and is well formed.
    proof fn lemma_empty_entry_well_formed()
        ensures
            TlbEntry::new_spec(0).is_well_formed(),
            TlbEntry::new_spec(0).spec_mappings().len() == 0,
    {
        lemma_zero_entry_fields();
        assert(TlbEntry::new_spec(0).spec_mappings() =~= Seq::empty());
    }
}

proof fn lemma_zero_entry_fields()
    by (bit_vector)
    ensures
        bits_u128(0, 109, 121) == 0,
        !bit_u128(0, 63),
        !bit_u128(0, 33),
        !bit_u128(0, 1),
        bits_u128(0, 38, 58) == 0,
        bits_u128(0, 6, 26) == 0,
        (0u32 << 12u32) & !0xFFFu32 == 0,
{
}

/// The kernel frame of a page of kseg0 or kseg1.
proof fn lemma_kseg_frame(page: u32, address: u32, frame: u32)
    by (bit_vector)
    requires
        0x8_0000 <= page < 0xC_0000,
        address == page << 12u32,
        frame == address & 0x1FFF_FFFF,
    ensures
        frame == (page * 4096) % 0x2000_0000,
{
}

/// Shifting by the page offset bits is division and multiplication by the page size.
proof fn lemma_page_shifts(x: u32)
    by (bit_vector)
    ensures
        x >> 12u32 == x / 4096,
        x < 0x10_0000 ==> x << 12u32 == x * 4096,
        x & 0xFFFu32 < 4096,
{
}

impl Mmu {
    /// The physical address of `virtual_address` in `mode`: the frame of its page combined
    /// with its offset within the page.
    pub fn virtual_to_physical(&self, virtual_address: u32, mode: Mode) -> (r: PhysicalAddress)
        requires
            self.wf(),
            self.mapped_pages(mode)[virtual_address as int / PAGE_SIZE as int],
        ensures
            r == PhysicalAddress(
                self.page_table(mode)[virtual_address as int / PAGE_SIZE as int].0 | (
                virtual_address & OFFSET_MASK),
            ),
    {
        proof {
            lemma_page_shifts(virtual_address);
        }
        let page = virtual_address >> OFFSET_BITS;
        let m = mode.to_index();
        let physical_frame_start = self.pages[m][page as usize];
        PhysicalAddress(physical_frame_start.0 | (virtual_address & OFFSET_MASK))
    }

    /// Whether the page of `virtual_address` is mapped in `mode`.
    pub fn is_mapped(&self, virtual_address: u32, mode: Mode) -> (r: bool)
        requires
            self.wf(),
        ensures
            r == self.mapped_pages(mode)[virtual_address as int / PAGE_SIZE as int],
    {
        proof {
            lemma_page_shifts(virtual_address);
        }
        let page = virtual_address >> OFFSET_BITS;
        page_bits_get(&self.mapped[mode.to_index()], page as usize)
    }

    /// Whether the pages of `virtual_range` map in `mode` to consecutive physical frames.
    pub open spec fn spec_physically_consecutive(self, start_page: int, end_page: int, mode: Mode) -> bool {
        forall|p: int|
            start_page <= p <= end_page ==> (#[trigger] self.page_table(mode)[p]).0 == (
            self.page_table(mode)[start_page].0 + (p - start_page) * PAGE_SIZE) % 0x1_0000_0000
    }

    pub fn physically_consecutive(&self, virtual_range: std::ops::Range<u32>, mode: Mode) -> (r: bool)
        requires
            self.wf(),
            virtual_range.end >= 1,
        ensures
            r == self.spec_physically_consecutive(
                virtual_range.start as int / PAGE_SIZE as int,
                (virtual_range.end - 1) as int / PAGE_SIZE as int,
                mode,
            ),
    {
        proof {
            lemma_page_shifts(virtual_range.start);
            lemma_page_shifts((virtual_range.end - 1) as u32);
        }
        let start_page = virtual_range.start >> OFFSET_BITS;
        let end_page = (virtual_range.end - 1) >> OFFSET_BITS;
        assert(start_page as int == virtual_range.start as int / PAGE_SIZE as int);
        assert(end_page as int == (virtual_range.end - 1) as int / PAGE_SIZE as int);
        let m = mode.to_index();
        let table = &self.pages[m];
        let mut physical_frame = table[start_page as usize];
        let mut page = start_page;
        while page <= end_page
            invariant
                self.wf(),
                m == mode.index(),
                *table == self.pages@[m as int],
                start_page as int == virtual_range.start as int / PAGE_SIZE as int,
                end_page as int == (virtual_range.end - 1) as int / PAGE_SIZE as int,
                start_page <= page,
                end_page < PAGES,
                page <= end_page + 1 || page == start_page,
                physical_frame.0 == (table@[start_page as int].0 + (page - start_page) * PAGE_SIZE)
                    % 0x1_0000_0000,
                forall|p: int|
                    start_page <= p < page ==> (#[trigger] table@[p]).0 == (table@[start_page as int].0
                        + (p - start_page) * PAGE_SIZE) % 0x1_0000_0000,
            decreases end_page + 1 - page,
        {
            assert(page < PAGES);
            if table[page as usize] != physical_frame {
                assert(self.page_table(mode)[page as int] == table@[page as int]);
                assert(table@[page as int].0 != physical_frame.0);
                assert(!self.spec_physically_consecutive(start_page as int, end_page as int, mode));
                return false;
            }
            physical_frame = PhysicalAddress(physical_frame.0.wrapping_add(PAGE_SIZE));
            proof {
                assert(physical_frame.0 == (table@[start_page as int].0 + (page + 1 - start_page)
                    * PAGE_SIZE) % 0x1_0000_0000) by (nonlinear_arith)
                    requires
                        physical_frame.0 == (if (table@[start_page as int].0 + (page - start_page)
                            * PAGE_SIZE) % 0x1_0000_0000 + PAGE_SIZE > u32::MAX {
                            (table@[start_page as int].0 + (page - start_page) * PAGE_SIZE)
                                % 0x1_0000_0000 + PAGE_SIZE - 0x1_0000_0000
                        } else {
                            (table@[start_page as int].0 + (page - start_page) * PAGE_SIZE)
                                % 0x1_0000_0000 + PAGE_SIZE
                        }),
                        PAGE_SIZE == 4096,
                ;
            }
            page += 1;
        }
        assert forall|p: int| start_page <= p <= end_page implies (#[trigger] self.page_table(
            mode,
        )[p]).0 == (self.page_table(mode)[start_page as int].0 + (p - start_page) * PAGE_SIZE)
            % 0x1_0000_0000 by {
            assert(table@[p] == self.page_table(mode)[p]);
        }
        true
    }
}

impl Mmu {
    /// Sets the mapped-page bits `start..end` of `mode` to `value`.
    fn fill_mapped(&mut self, mode: Mode, start: usize, end: usize, value: bool)
        requires
            old(self).wf(),
            start <= end <= PAGES,
        ensures
            final(self).wf(),
            final(self).tlb() == old(self).tlb(),
            forall|m: Mode| #[trigger] final(self).page_table(m) == old(self).page_table(m),
            forall|m: Mode|
                m != mode ==> #[trigger] final(self).mapped_pages(m) == old(self).mapped_pages(m),
            final(self).mapped_pages(mode) == filled(
                old(self).mapped_pages(mode),
                start as int,
                end as int,
                value,
            ),
    {
        let m = mode.to_index();
        page_bits_fill(&mut self.mapped[m], start, end, value);
        assert forall|i: int| 0 <= i < 3 implies page_bits(#[trigger] self.mapped@[i]).len()
            == PAGES by {
            assert(old(self).mapped@[i] == self.mapped@[i] || i == m);
        }
    }

    /// Marks page `page` of `mode` as mapped.
    fn set_mapped(&mut self, mode: Mode, page: usize)
        requires
            old(self).wf(),
            page < PAGES,
        ensures
            final(self).wf(),
            final(self).tlb() == old(self).tlb(),
            forall|m: Mode| #[trigger] final(self).page_table(m) == old(self).page_table(m),
            forall|m: Mode|
                m != mode ==> #[trigger] final(self).mapped_pages(m) == old(self).mapped_pages(m),
            final(self).mapped_pages(mode) == old(self).mapped_pages(mode).update(page as int, true),
    {
        let m = mode.to_index();
        page_bits_set(&mut self.mapped[m], page, true);
        assert forall|i: int| 0 <= i < 3 implies page_bits(#[trigger] self.mapped@[i]).len()
            == PAGES by {
            assert(old(self).mapped@[i] == self.mapped@[i] || i == m);
        }
    }

    /// Sets the frame of page `page` of `mode`.
    fn set_page(&mut self, mode: Mode, page: usize, frame: PhysicalAddress)
        requires
            old(self).wf(),
            page < PAGES,
        ensures
            final(self).wf(),
            final(self).tlb() == old(self).tlb(),
            forall|m: Mode| #[trigger] final(self).mapped_pages(m) == old(self).mapped_pages(m),
            forall|m: Mode|
                m != mode ==> #[trigger] final(self).page_table(m) == old(self).page_table(m),
            final(self).page_table(mode) == old(self).page_table(mode).update(page as int, frame),
    {
        let m = mode.to_index();
        self.pages[m][page] = frame;
        assert forall|i: int| 0 <= i < 3 implies (#[trigger] self.pages@[i])@.len() == PAGES by {
            assert(old(self).pages@[i] == self.pages@[i] || i == m);
        }
    }

    /// Clears, in every mode, the mapped bits of the `len` bytes of pages from `virtual_page`.
    fn unmap(&mut self, virtual_page: u32, len: u32)
        requires
            old(self).wf(),
            virtual_page + len <= u32::MAX,
        ensures
            final(self).wf(),
            final(self).tlb() == old(self).tlb(),
            forall|m: Mode| #[trigger] final(self).page_table(m) == old(self).page_table(m),
            forall|m: Mode|
                #[trigger] final(self).mapped_pages(m) == filled(
                    old(self).mapped_pages(m),
                    first_page(virtual_page),
                    end_page(virtual_page, len),
                    false,
                ),
    {
        proof {
            lemma_page_shifts(virtual_page);
            lemma_page_shifts((virtual_page + len) as u32);
        }
        let start_page = virtual_page >> OFFSET_BITS;
        let last = (virtual_page + len) >> OFFSET_BITS;
        self.fill_mapped(Mode::Kernel, start_page as usize, last as usize, false);
        self.fill_mapped(Mode::Supervisor, start_page as usize, last as usize, false);
        self.fill_mapped(Mode::User, start_page as usize, last as usize, false);
        proof {
            assert forall|m: Mode| #[trigger] self.mapped_pages(m) == filled(
                old(self).mapped_pages(m),
                first_page(virtual_page),
                end_page(virtual_page, len),
                false,
            ) by {
                match m {
                    Mode::Kernel => {},
                    Mode::Supervisor => {},
                    Mode::User => {},
                }
            }
        }
    }

    /// Maps the `len` bytes of pages from `virtual_page` to consecutive frames from
    /// `physical_frame`: in kernel mode all of them, in supervisor and user mode those of the
    /// segments that the mode can reach.
    fn map(&mut self, virtual_page: u32, physical_frame: PhysicalAddress, len: u32)
        requires
            old(self).wf(),
            virtual_page + len <= u32::MAX,
            virtual_page % PAGE_SIZE == 0,
            physical_frame.0 + len <= 0x1_0000_0000,
        ensures
            final(self).wf(),
            final(self).tlb() == old(self).tlb(),
            forall|m: Mode|
                #[trigger] final(self).page_table(m) == mapped_table(
                    old(self).page_table(m),
                    m,
                    first_page(virtual_page),
                    end_page(virtual_page, len),
                    physical_frame,
                ),
            forall|m: Mode|
                #[trigger] final(self).mapped_pages(m) == mapped_bits(
                    old(self).mapped_pages(m),
                    m,
                    first_page(virtual_page),
                    end_page(virtual_page, len),
                ),
    {
        proof {
            lemma_page_shifts(virtual_page);
            lemma_page_shifts((virtual_page + len) as u32);
        }
        let start_page = virtual_page >> OFFSET_BITS;
        let last = (virtual_page + len) >> OFFSET_BITS;
        assert((last - start_page) * PAGE_SIZE <= len) by (nonlinear_arith)
            requires
                start_page == virtual_page as int / 4096,
                last == (virtual_page + len) as int / 4096,
                virtual_page % 4096 == 0,
                PAGE_SIZE == 4096,
        ;
        self.fill_mapped(Mode::Kernel, start_page as usize, last as usize, true);
        let ghost old_self = *old(self);
        let mut page = start_page;
        while page < last
            invariant
                self.wf(),
                self.tlb() == old_self.tlb(),
                start_page as int == first_page(virtual_page),
                last as int == end_page(virtual_page, len),
                start_page <= page <= last,
                last <= PAGES,
                physical_frame.0 + len <= 0x1_0000_0000,
                (last - start_page) * PAGE_SIZE <= len,
                forall|m: Mode|
                    #[trigger] self.page_table(m) == mapped_table(
                        old_self.page_table(m),
                        m,
                        start_page as int,
                        page as int,
                        physical_frame,
                    ),
                forall|m: Mode|
                    #[trigger] self.mapped_pages(m) == mapped_bits(
                        old_self.mapped_pages(m),
                        m,
                        start_page as int,
                        if m == Mode::Kernel {
                            last as int
                        } else {
                            page as int
                        },
                    ),
            decreases last - page,
        {
            proof {
                lemma_page_shifts(page);
                lemma_page_shifts((page - start_page) as u32);
            }
            let virtual_address = page << OFFSET_BITS;
            let frame = PhysicalAddress(physical_frame.0 + ((page - start_page) << OFFSET_BITS));
            self.set_page(Mode::Kernel, page as usize, frame);
            if virtual_address < 0x8000_0000 {
                self.set_page(Mode::Supervisor, page as usize, frame);
                self.set_mapped(Mode::Supervisor, page as usize);
                self.set_page(Mode::User, page as usize, frame);
                self.set_mapped(Mode::User, page as usize);
            } else if 0xC000_0000 <= virtual_address && virtual_address < 0xE000_0000 {
                self.set_page(Mode::Supervisor, page as usize, frame);
                self.set_mapped(Mode::Supervisor, page as usize);
            }
            page += 1;
            proof {
                assert forall|m: Mode| #[trigger] self.page_table(m) == mapped_table(
                    old_self.page_table(m),
                    m,
                    start_page as int,
                    page as int,
                    physical_frame,
                ) by {
                    assert(self.page_table(m) =~= mapped_table(
                        old_self.page_table(m),
                        m,
                        start_page as int,
                        page as int,
                        physical_frame,
                    ));
                }
                assert forall|m: Mode| #[trigger] self.mapped_pages(m) == mapped_bits(
                    old_self.mapped_pages(m),
                    m,
                    start_page as int,
                    if m == Mode::Kernel {
                        last as int
                    } else {
                        page as int
                    },
                ) by {
                    assert(self.mapped_pages(m) =~= mapped_bits(
                        old_self.mapped_pages(m),
                        m,
                        start_page as int,
                        if m == Mode::Kernel {
                            last as int
                        } else {
                            page as int
                        },
                    ));
                }
            }
        }
    }
}


impl Mmu {
    /// Clears, in every mode, the mapped bits of the pages that `entry` maps.
    fn unmap_entry(&mut self, entry: TlbEntry)
        requires
            old(self).wf(),
            entry.is_well_formed(),
        ensures
            final(self).wf(),
            final(self).tlb() == old(self).tlb(),
            forall|m: Mode|
                #[trigger] final(self).table(m) == unmapped_entry(
                    old(self).table(m),
                    entry,
                    entry.spec_mappings().len() as int,
                ),
    {
        let len = entry.len();
        let mappings = entry.mappings();
        let ghost old_self = *old(self);
        let mut i: usize = 0;
        while i < mappings.len()
            invariant
                self.wf(),
                self.tlb() == old_self.tlb(),
                entry.is_well_formed(),
                len == entry.spec_len(),
                mappings@ == entry.spec_mappings(),
                i <= mappings@.len(),
                forall|m: Mode|
                    #[trigger] self.table(m) == unmapped_entry(old_self.table(m), entry, i as int),
            decreases mappings@.len() - i,
        {
            let (virtual_page, _) = mappings[i];
            assert(entry.spec_mappings()[i as int].0 + entry.spec_len() < 0x1_0000_0000);
            let ghost before = *self;
            self.unmap(virtual_page, len);
            i += 1;
            assert forall|m: Mode| #[trigger] self.table(m) == unmapped_entry(
                old_self.table(m),
                entry,
                i as int,
            ) by {
                assert(self.table(m).pages == before.table(m).pages);
            }
        }
    }

    /// Maps, in each mode, the pages that `entry` maps.
    fn map_entry(&mut self, entry: TlbEntry)
        requires
            old(self).wf(),
            entry.is_well_formed(),
        ensures
            final(self).wf(),
            final(self).tlb() == old(self).tlb(),
            forall|m: Mode|
                #[trigger] final(self).table(m) == mapped_entry(
                    old(self).table(m),
                    m,
                    entry,
                    entry.spec_mappings().len() as int,
                ),
    {
        let len = entry.len();
        let mappings = entry.mappings();
        let ghost old_self = *old(self);
        let mut i: usize = 0;
        while i < mappings.len()
            invariant
                self.wf(),
                self.tlb() == old_self.tlb(),
                entry.is_well_formed(),
                len == entry.spec_len(),
                mappings@ == entry.spec_mappings(),
                i <= mappings@.len(),
                forall|m: Mode|
                    #[trigger] self.table(m) == mapped_entry(old_self.table(m), m, entry, i as int),
            decreases mappings@.len() - i,
        {
            let (virtual_page, physical_frame) = mappings[i];
            assert(entry.spec_mappings()[i as int].0 + entry.spec_len() < 0x1_0000_0000);
            proof {
                lemma_mapping_page_aligned(entry, i as int);
            }
            let ghost before = *self;
            self.map(virtual_page, physical_frame, len);
            i += 1;
            assert forall|m: Mode| #[trigger] self.table(m) == mapped_entry(
                old_self.table(m),
                m,
                entry,
                i as int,
            ) by {
                let start = first_page(virtual_page);
                let end = end_page(virtual_page, len);
                assert(self.table(m).pages == mapped_table(
                    before.table(m).pages,
                    m,
                    start,
                    end,
                    physical_frame,
                ));
                assert(self.table(m).mapped == mapped_bits(before.table(m).mapped, m, start, end));
            }
        }
    }
}

/// The virtual page of every mapping of an entry is page aligned.
proof fn lemma_mapping_page_aligned(entry: TlbEntry, i: int)
    requires
        0 <= i < entry.spec_mappings().len(),
    ensures
        entry.spec_mappings()[i].0 % PAGE_SIZE == 0,
{
    let even = entry.spec_virtual_page_number_even();
    let odd = entry.spec_virtual_page_number_odd();
    assert((even << 12u32) % 4096 == 0) by (bit_vector);
    assert((odd << 12u32) % 4096 == 0) by (bit_vector);
}


/// `table` with the pages `start..end` mapped to consecutive frames from `frame`.
pub open spec fn remapped(
    table: Seq<PhysicalAddress>,
    start: int,
    end: int,
    frame: u32,
) -> Seq<PhysicalAddress> {
    Seq::new(
        table.len(),
        |p: int|
            if start <= p < end {
                PhysicalAddress((frame + (p - start) * PAGE_SIZE) as u32)
            } else {
                table[p]
            },
    )
}

impl Mmu {
    /// Writes `entry` to TLB slot `index`: the pages of the entry it replaces are unmapped in
    /// every mode, then the pages of `entry` are mapped.
    pub fn write_index(&mut self, index: u8, entry: TlbEntry)
        requires
            old(self).wf(),
            index < TLB_ENTRIES,
            bits_u128(entry.raw, 64, 72) == 0,
            entry.is_well_formed(),
        ensures
            final(self).wf(),
            final(self).tlb() == old(self).tlb().update(index as int, entry),
            forall|m: Mode|
                #[trigger] final(self).table(m) == mapped_entry(
                    unmapped_entry(
                        old(self).table(m),
                        old(self).tlb()[index as int],
                        old(self).tlb()[index as int].spec_mappings().len() as int,
                    ),
                    m,
                    entry,
                    entry.spec_mappings().len() as int,
                ),
    {
        let previous = self.tlb_entries[index as usize];
        self.unmap_entry(previous);
        let ghost unmapped = *self;
        self.tlb_entries.set(index as usize, entry);
        assert forall|m: Mode| #[trigger] self.table(m) == unmapped.table(m) by {}
        self.map_entry(entry);
    }

    /// Maps the `size` bytes from the page-aligned `virtual_address` to the consecutive frames
    /// from the page-aligned `physical_address`, in every mode. With `size` zero nothing changes.
    pub fn mmap(&mut self, virtual_address: u32, size: u32, physical_address: u32)
        requires
            old(self).wf(),
            virtual_address & OFFSET_MASK == 0,
            physical_address & OFFSET_MASK == 0,
            virtual_address + size >= 1,
            virtual_address + size <= u32::MAX,
            physical_address + size - 1 <= u32::MAX,
        ensures
            final(self).wf(),
            final(self).tlb() == old(self).tlb(),
            forall|m: Mode|
                #[trigger] final(self).page_table(m) == remapped(
                    old(self).page_table(m),
                    first_page(virtual_address),
                    pages_end(virtual_address, size),
                    physical_address,
                ),
            forall|m: Mode|
                #[trigger] final(self).mapped_pages(m) == filled(
                    old(self).mapped_pages(m),
                    first_page(virtual_address),
                    pages_end(virtual_address, size),
                    true,
                ),
    {
        proof {
            lemma_page_shifts(virtual_address);
            lemma_page_shifts((virtual_address + size - 1) as u32);
            lemma_aligned(virtual_address);
        }
        let start_page = virtual_address >> OFFSET_BITS;
        let last = (virtual_address + size - 1) >> OFFSET_BITS;
        assert((last - start_page) * PAGE_SIZE <= size - 1) by (nonlinear_arith)
            requires
                start_page == virtual_address as int / 4096,
                last == (virtual_address + size - 1) as int / 4096,
                virtual_address % 4096 == 0,
                PAGE_SIZE == 4096,
        ;
        let ghost old_self = *old(self);
        let mut page = start_page;
        while page <= last
            invariant
                self.wf(),
                self.tlb() == old_self.tlb(),
                start_page as int == first_page(virtual_address),
                last as int + 1 == pages_end(virtual_address, size),
                last < PAGES,
                start_page <= page <= last + 1,
                (last - start_page) * PAGE_SIZE <= size - 1,
                physical_address + size - 1 <= u32::MAX,
                forall|m: Mode| #[trigger] self.mapped_pages(m) == old_self.mapped_pages(m),
                forall|m: Mode|
                    #[trigger] self.page_table(m) == remapped(
                        old_self.page_table(m),
                        start_page as int,
                        page as int,
                        physical_address,
                    ),
            decreases last + 1 - page,
        {
            proof {
                lemma_page_shifts((page - start_page) as u32);
                assert((page - start_page) * PAGE_SIZE <= (last - start_page) * PAGE_SIZE)
                    by (nonlinear_arith)
                    requires
                        page <= last,
                        PAGE_SIZE == 4096,
                ;
            }
            let physical_frame = physical_address + ((page - start_page) << OFFSET_BITS);
            let frame = PhysicalAddress::memory(physical_frame);
            let ghost before = *self;
            self.set_page(Mode::Kernel, page as usize, frame);
            self.set_page(Mode::Supervisor, page as usize, frame);
            self.set_page(Mode::User, page as usize, frame);
            page += 1;
            assert forall|m: Mode| #[trigger] self.page_table(m) == remapped(
                old_self.page_table(m),
                start_page as int,
                page as int,
                physical_address,
            ) by {
                assert(self.page_table(m) == before.page_table(m).update((page - 1) as int, frame));
                assert(self.page_table(m) =~= remapped(
                    old_self.page_table(m),
                    start_page as int,
                    page as int,
                    physical_address,
                ));
            }
        }
        let ghost filled_before = *self;
        self.fill_mapped(Mode::Kernel, start_page as usize, last as usize + 1, true);
        self.fill_mapped(Mode::Supervisor, start_page as usize, last as usize + 1, true);
        self.fill_mapped(Mode::User, start_page as usize, last as usize + 1, true);
        assert forall|m: Mode| #[trigger] self.mapped_pages(m) == filled(
            old_self.mapped_pages(m),
            start_page as int,
            last + 1,
            true,
        ) by {
            match m {
                Mode::Kernel => {},
                Mode::Supervisor => {},
                Mode::User => {},
            }
        }
    }
}

/// One past the page that holds the last of the `size` bytes from `virtual_address`; the first
/// page itself where `size` is zero and `virtual_address` page-aligned.
pub open spec fn pages_end(virtual_address: u32, size: u32) -> int {
    (virtual_address + size - 1) / PAGE_SIZE as int + 1
}

/// An address's offset bits are clear exactly when it is a multiple of the page size.
pub proof fn lemma_aligned(x: u32)
    by (bit_vector)
    ensures
        x & 0xFFFu32 == 0 <==> x % 4096 == 0,
{
}

} // verus!
