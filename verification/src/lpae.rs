//! The Large Physical Address Extension (LPAE) translation tables of ARMv8-A
//! with the 4 KiB granule: descriptor encodings for stage 1 and stage 2,
//! table storage, and the two trees that the hypervisor builds at boot.
use vstd::prelude::*;

verus! {

pub type VirtualAddress = u64;

pub const PAGE_SHIFT: u64 = 12;

pub const PAGE_MASK: u64 = 0xfff;

pub const PAGE_SIZE: usize = 4096;

pub const PAGE_ENTRIES_PER_TABLE: usize = 512;

/// The span of addresses that one level-3 table maps: 2 MiB.
pub const ADDRESS_SPACE_PER_TABLE: usize = 0x20_0000;

pub const PTE_SHIFT: u64 = 9;

pub const PTE_MASK: u64 = 0x1ff;

pub const THIRD_SHIFT: u64 = 12;

pub const SECOND_SHIFT: u64 = 21;

pub const FIRST_SHIFT: u64 = 30;

pub const ZEROETH_SHIFT: u64 = 39;

pub const ALIGN_4K_MASK: u64 = 0xffff_ffff_ffff_f000;

/// The 1 GiB alignment of a stage-2 block.
pub const ALIGN_1G_MASK: u64 = 0xffff_ffff_c000_0000;

/// Bit 0: the descriptor is valid.
pub const PTE_VALID: u64 = 0x1;

/// Bit 1: a table descriptor, or a 4 KiB page at level 3.
pub const PTE_TABLE: u64 = 0x2;

/// Bits [4:2]: the index into the memory attribute indirection register.
pub const PTE_ATTR_MASK: u64 = 0x1c;

/// Bit 5: non-secure.
pub const PTE_NON_SECURE: u64 = 0x20;

/// Bits [7:6]: access permissions (stage 1), or S2AP (stage 2).
pub const PTE_ACCESS_PERMS_MASK: u64 = 0xc0;

/// S2AP `0b11`: the guest may read and write.
pub const PTE_S2AP_READ_WRITE: u64 = 0xc0;

/// Bits [9:8]: shareability.
pub const PTE_SHAREABILITY_MASK: u64 = 0x300;

/// Shareability `0b11`: inner shareable.
pub const PTE_INNER_SHAREABLE: u64 = 0x300;

/// Shareability `0b10`, as the stage-2 table descriptor carries it.
pub const PTE_STAGE2_SHAREABLE: u64 = 0x200;

/// Bit 10: the access flag.
pub const PTE_ACCESS_FLAG: u64 = 0x400;

/// Bit 11: not global.
pub const PTE_NOT_GLOBAL: u64 = 0x800;

/// Bits [47:12]: the output address, or the address of the next table.
pub const PTE_ADDRESS_MASK: u64 = 0x0000_ffff_ffff_f000;

/// Bit 63 of a stage-1 table descriptor: the next table is in non-secure
/// memory.
pub const TABLE_NON_SECURE: u64 = 0x8000_0000_0000_0000;

/// Bits [62:61], the access-permission-table bits.
pub const AP_TABLE_BITS: u64 = 0x6000_0000_0000_0000;

/// The bits of a stage-1 table descriptor that must be zero: [62:61] and
/// [51:48].
pub const TABLE_DESCRIPTOR_RES0: u64 = 0x600f_0000_0000_0000;

/// The bits of a stage-2 table descriptor that must be zero: [63:59] and
/// [51:48].
pub const STAGE2_TABLE_DESCRIPTOR_RES0: u64 = 0xf80f_0000_0000_0000;

/// The largest output address of the Cortex-A53, whose physical address
/// range is 40 bits.
pub const CORTEX_A53_MAX_OA: u64 = 0xff_ffff_ffff;

/// The attribute bits of a stage-1 level-3 page descriptor: valid, page,
/// attribute index 0, non-secure, read-write at EL2 only, inner shareable,
/// access flag set, global.
pub const STAGE1_BLOCK_ATTRS: u64 = PTE_VALID | PTE_TABLE | PTE_NON_SECURE | PTE_INNER_SHAREABLE
    | PTE_ACCESS_FLAG;

/// The attribute bits of a stage-2 table descriptor: valid, table, attribute
/// index 0, non-secure, S2AP read-write, shareability `0b10`, access flag.
pub const STAGE2_TABLE_ATTRS: u64 = PTE_VALID | PTE_TABLE | PTE_NON_SECURE | PTE_S2AP_READ_WRITE
    | PTE_STAGE2_SHAREABLE | PTE_ACCESS_FLAG;

/// The attribute bits of a stage-2 1 GiB block descriptor: valid, block,
/// S2AP read-write, access flag.
pub const STAGE2_BLOCK_ATTRS: u64 = PTE_VALID | PTE_S2AP_READ_WRITE | PTE_ACCESS_FLAG;

pub enum Alignment {
    Kb4,
}

impl Alignment {
    pub open spec fn spec_mask(self) -> u64 {
        match self {
            Alignment::Kb4 => ALIGN_4K_MASK,
        }
    }

    /// The mask that clears the bits below the alignment.
    pub fn mask(self) -> (mask: u64)
        ensures
            mask == self.spec_mask(),
    {
        match self {
            Alignment::Kb4 => ALIGN_4K_MASK,
        }
    }
}

/// The 64-bit value of the stage-1 table descriptor that points at the table
/// at `address`.
pub open spec fn table_descriptor(address: u64) -> u64 {
    ((address >> 12) << 12) | TABLE_NON_SECURE | PTE_VALID | PTE_TABLE
}

/// The 64-bit value of the stage-1 level-3 descriptor that maps a 4 KiB page
/// to the page of `address`.
pub open spec fn block_descriptor(address: u64) -> u64 {
    (address & ALIGN_4K_MASK) | STAGE1_BLOCK_ATTRS
}

/// The 64-bit value of the stage-2 table descriptor that points at the table
/// at `address`.
pub open spec fn table_descriptor_stage2(address: u64) -> u64 {
    (address & ALIGN_4K_MASK & CORTEX_A53_MAX_OA) | STAGE2_TABLE_ATTRS
}

/// The 64-bit value of the stage-2 descriptor that maps a 1 GiB block to the
/// block of `address`.
pub open spec fn block_descriptor_stage2(address: u64) -> u64 {
    (address & ALIGN_1G_MASK) | STAGE2_BLOCK_ATTRS
}

/// An ARM 64-bit LPAE descriptor.
#[derive(Copy, Clone, Debug, PartialEq, Eq, Structural)]
pub struct PageTableEntry(pub u64);

impl PageTableEntry {
    /// Bits [47:12]: where the descriptor points.
    pub open spec fn output_address(self) -> u64 {
        self.0 & PTE_ADDRESS_MASK
    }

    /// Bits [4:2].
    pub open spec fn attr_index(self) -> u64 {
        (self.0 & PTE_ATTR_MASK) >> 2
    }

    /// Bits [7:6].
    pub open spec fn access_perms(self) -> u64 {
        (self.0 & PTE_ACCESS_PERMS_MASK) >> 6
    }

    /// Bits [9:8].
    pub open spec fn shareability(self) -> u64 {
        (self.0 & PTE_SHAREABILITY_MASK) >> 8
    }

    /// Bit 1.
    pub open spec fn is_table(self) -> bool {
        self.0 & PTE_TABLE == PTE_TABLE
    }

    /// Bit 5.
    pub open spec fn non_secure(self) -> bool {
        self.0 & PTE_NON_SECURE == PTE_NON_SECURE
    }

    /// Bit 10.
    pub open spec fn access_flag(self) -> bool {
        self.0 & PTE_ACCESS_FLAG == PTE_ACCESS_FLAG
    }

    /// Bit 11.
    pub open spec fn not_global(self) -> bool {
        self.0 & PTE_NOT_GLOBAL == PTE_NOT_GLOBAL
    }

    /// Bit 63, which only a stage-1 table descriptor uses.
    pub open spec fn non_secure_table(self) -> bool {
        self.0 & TABLE_NON_SECURE == TABLE_NON_SECURE
    }

    pub open spec fn spec_is_valid(&self) -> bool {
        self.0 & PTE_VALID == 1
    }

    /// Whether the valid bit is set.
    #[verifier::when_used_as_spec(spec_is_valid)]
    pub fn is_valid(&self) -> (valid: bool)
        ensures
            valid == self.spec_is_valid(),
    {
        (self.0 & PTE_VALID) == 1
    }

    /// The stage-1 descriptor that points at the next-level table `table`:
    /// the table's address in bits [47:12], valid, table, and the non-secure
    /// table bit. The reserved bits [62:61] and [51:48] of the result have
    /// to be zero.
    pub fn from_table(table: &PageTable) -> (entry: PageTableEntry)
        requires
            table_descriptor(table.base) & TABLE_DESCRIPTOR_RES0 == 0,
        ensures
            entry.0 == table_descriptor(table.base),
    {
        let address: u64 = table.base;
        let mut descriptor: u64 = 0;

        // Set the next-level table address.
        descriptor |= (address >> 12) << 12;

        // This is hypervisor memory, so the non-secure table bit is 1.
        descriptor |= TABLE_NON_SECURE;
        descriptor |= PTE_VALID;
        descriptor |= PTE_TABLE;

        assert(descriptor == table_descriptor(address)) by (bit_vector)
            requires
                descriptor == (((0u64 | ((address >> 12) << 12)) | TABLE_NON_SECURE) | PTE_VALID)
                    | PTE_TABLE,
        ;
        PageTableEntry(descriptor)
    }

    /// The stage-2 descriptor that points at the next-level table `table`.
    /// Address bits from 40 up are cleared, so the reserved bits [63:59] and
    /// [51:48] of the result are zero for every table.
    pub fn from_table_stage2(table: &PageTable) -> (entry: PageTableEntry)
        ensures
            entry.0 == table_descriptor_stage2(table.base),
            entry.0 & STAGE2_TABLE_DESCRIPTOR_RES0 == 0,
    {
        let address: u64 = table.base;

        // Set the next-level table address.
        let d0: u64 = address & !PAGE_MASK;

        // The Cortex-A53 has 40-bit output addresses.
        let d1: u64 = d0 & CORTEX_A53_MAX_OA;

        let d2: u64 = (d1 | PTE_VALID) | PTE_TABLE;

        // AF[10] = 1, SH[9:8] = 0b10.
        let d3: u64 = (d2 | PTE_ACCESS_FLAG) | PTE_STAGE2_SHAREABLE;

        // Memory attribute index 0.
        let d4: u64 = d3 & !PTE_ATTR_MASK;

        // Non-secure, and S2AP read-write.
        let descriptor: u64 = (d4 | PTE_NON_SECURE) | PTE_S2AP_READ_WRITE;

        assert(descriptor == table_descriptor_stage2(address) && descriptor
            & STAGE2_TABLE_DESCRIPTOR_RES0 == 0) by (bit_vector)
            requires
                d0 == address & !PAGE_MASK,
                d1 == d0 & CORTEX_A53_MAX_OA,
                d2 == (d1 | PTE_VALID) | PTE_TABLE,
                d3 == (d2 | PTE_ACCESS_FLAG) | PTE_STAGE2_SHAREABLE,
                d4 == d3 & !PTE_ATTR_MASK,
                descriptor == (d4 | PTE_NON_SECURE) | PTE_S2AP_READ_WRITE,
        ;
        PageTableEntry(descriptor)
    }

    /// The stage-2 descriptor of a 1 GiB block: `address` aligned down to
    /// 1 GiB, valid, not a table, S2AP read-write, access flag set.
    pub fn from_block_stage2(address: u64) -> (entry: PageTableEntry)
        requires
            address <= CORTEX_A53_MAX_OA,
        ensures
            entry.0 == block_descriptor_stage2(address),
    {
        // Align the address to 1 GiB.
        let d0: u64 = address & ALIGN_1G_MASK;

        // Valid; bit 1 stays 0, as this is not a table.
        let d1: u64 = d0 | PTE_VALID;

        // S2AP, then the access flag.
        let descriptor: u64 = (d1 | PTE_S2AP_READ_WRITE) | PTE_ACCESS_FLAG;

        assert(descriptor == block_descriptor_stage2(address)) by (bit_vector)
            requires
                d0 == address & ALIGN_1G_MASK,
                d1 == d0 | PTE_VALID,
                descriptor == (d1 | PTE_S2AP_READ_WRITE) | PTE_ACCESS_FLAG,
        ;
        PageTableEntry(descriptor)
    }

    /// The stage-1 level-3 descriptor of a 4 KiB page: `address` aligned
    /// down to 4 KiB, valid, page, attribute index 0, non-secure, read-write
    /// at EL2 only, inner shareable, access flag set, global.
    pub fn from_block(address: u64) -> (entry: PageTableEntry)
        requires
            address <= CORTEX_A53_MAX_OA,
        ensures
            entry.0 == block_descriptor(address),
    {
        let d0: u64 = address & !PAGE_MASK;

        // For 4 KiB mappings the table bit is set too.
        let d1: u64 = (d0 | PTE_TABLE) | PTE_VALID;

        // Memory attribute index 0: inner shareable, write-back,
        // write-allocate.
        let d2: u64 = d1 & !PTE_ATTR_MASK;

        // Non-secure.
        let d3: u64 = d2 | PTE_NON_SECURE;

        // AP[1:0] = 00: read-write at EL2, no access from EL1 or EL0.
        let d4: u64 = d3 & !PTE_ACCESS_PERMS_MASK;

        // Hypervisor pages are inner shareable, so as to be coherent across
        // processing elements.
        let d5: u64 = d4 | PTE_INNER_SHAREABLE;

        // Software manages the access flag: without it the first access
        // faults.
        let d6: u64 = d5 | PTE_ACCESS_FLAG;

        // Global: no address space identifiers.
        let descriptor: u64 = d6 & !PTE_NOT_GLOBAL;

        assert(descriptor == block_descriptor(address)) by (bit_vector)
            requires
                d0 == address & !PAGE_MASK,
                d1 == (d0 | PTE_TABLE) | PTE_VALID,
                d2 == d1 & !PTE_ATTR_MASK,
                d3 == d2 | PTE_NON_SECURE,
                d4 == d3 & !PTE_ACCESS_PERMS_MASK,
                d5 == d4 | PTE_INNER_SHAREABLE,
                d6 == d5 | PTE_ACCESS_FLAG,
                descriptor == d6 & !PTE_NOT_GLOBAL,
        ;
        PageTableEntry(descriptor)
    }
}

/// What a table is to the table walker: the physical address it lies at and
/// its descriptors, lowest index first.
pub struct TableView {
    pub base: u64,
    pub entries: Seq<PageTableEntry>,
}

impl TableView {
    /// A table of `len` descriptors that is aligned to its size of
    /// `8 * len` bytes and lies within the 40-bit physical address range.
    pub open spec fn wf(self, len: nat) -> bool {
        &&& self.entries.len() == len
        &&& self.base as nat % (8 * len) == 0
        &&& self.base <= CORTEX_A53_MAX_OA
    }

    /// The table with the descriptor at index `i` replaced by `entry`.
    pub open spec fn set(self, i: int, entry: PageTableEntry) -> TableView {
        TableView { base: self.base, entries: self.entries.update(i, entry) }
    }

    /// The table of `len` invalid descriptors at `base`.
    pub open spec fn empty(base: u64, len: nat) -> TableView {
        TableView { base, entries: Seq::new(len, |i: int| PageTableEntry(0)) }
    }

    /// Every descriptor of the table is valid exactly if it is `descriptor`,
    /// and is zero otherwise.
    pub open spec fn points_at(self, descriptor: u64) -> bool {
        forall|i: int|
            0 <= i < self.entries.len() ==> {
                let entry = #[trigger] self.entries[i];
                entry.0 == (if entry.is_valid() {
                    descriptor
                } else {
                    0
                })
            }
    }
}

/// Two concatenated stage-2 root tables: an 8192-byte aligned array of 1024
/// descriptors, together with the physical address it lies at.
pub struct PageTableConcat {
    pub base: u64,
    pub entries: [PageTableEntry; 1024],
}

impl View for PageTableConcat {
    type V = TableView;

    open spec fn view(&self) -> TableView {
        TableView { base: self.base, entries: self.entries@ }
    }
}

impl PageTableConcat {
    /// An empty pair of root tables at the physical address `base`.
    pub fn new(base: u64) -> (table: PageTableConcat)
        requires
            base % 8192 == 0,
            base <= CORTEX_A53_MAX_OA,
        ensures
            table@ == TableView::empty(base, 1024),
            table@.wf(1024),
    {
        let table = PageTableConcat { base, entries: [PageTableEntry(0);1024] };
        assert(table@.entries =~= TableView::empty(base, 1024).entries);
        table
    }
}

/// A 4096-byte aligned table of 512 descriptors, together with the physical
/// address it lies at.
pub struct PageTable {
    pub base: u64,
    pub entries: [PageTableEntry; 512],
}

impl View for PageTable {
    type V = TableView;

    open spec fn view(&self) -> TableView {
        TableView { base: self.base, entries: self.entries@ }
    }
}

impl PageTable {
    /// An empty table at the physical address `base`.
    pub fn new(base: u64) -> (table: PageTable)
        requires
            base % 4096 == 0,
            base <= CORTEX_A53_MAX_OA,
        ensures
            table@ == TableView::empty(base, 512),
            table@.wf(512),
    {
        let table = PageTable { base, entries: [PageTableEntry(0);512] };
        assert(table@.entries =~= TableView::empty(base, 512).entries);
        table
    }
}

/// Whether `address` is an output address of the Cortex-A53, that is,
/// below 2^40.
pub fn is_output_address(address: u64) -> (fits: bool)
    ensures
        fits == (address <= CORTEX_A53_MAX_OA),
{
    address <= CORTEX_A53_MAX_OA
}

/// `vaddr` with the bits below `alignment` cleared.
pub fn align(vaddr: VirtualAddress, alignment: Alignment) -> (aligned: VirtualAddress)
    ensures
        aligned == vaddr & alignment.spec_mask(),
{
    vaddr & alignment.mask()
}

pub open spec fn spec_zeroeth_index(vaddr: VirtualAddress) -> usize {
    ((vaddr >> ZEROETH_SHIFT) & PTE_MASK) as usize
}

pub open spec fn spec_concat_table(vaddr: VirtualAddress) -> usize {
    ((vaddr >> ZEROETH_SHIFT) & 1) as usize
}

pub open spec fn spec_first_index(vaddr: VirtualAddress) -> usize {
    ((vaddr >> FIRST_SHIFT) & PTE_MASK) as usize
}

pub open spec fn spec_second_index(vaddr: VirtualAddress) -> usize {
    ((vaddr >> SECOND_SHIFT) & PTE_MASK) as usize
}

pub open spec fn spec_third_index(vaddr: VirtualAddress) -> usize {
    ((vaddr >> THIRD_SHIFT) & PTE_MASK) as usize
}

pub open spec fn spec_align_4k(addr: u64) -> u64 {
    addr & ALIGN_4K_MASK
}

/// The table indices of an address are 9-bit digits of it: each is below
/// 512 and is the quotient by the span of one entry, taken modulo 512. The
/// 4 KiB alignment of an address is its largest multiple of 4096 below it.
pub proof fn lemma_index_digits(vaddr: u64)
    by (bit_vector)
    ensures
        (vaddr >> 39) & 0x1ff == (vaddr / 0x80_0000_0000) % 512,
        (vaddr >> 30) & 0x1ff == (vaddr / 0x4000_0000) % 512,
        (vaddr >> 21) & 0x1ff == (vaddr / 0x20_0000) % 512,
        (vaddr >> 12) & 0x1ff == (vaddr / 0x1000) % 512,
        (vaddr >> 39) & 1 == (vaddr / 0x80_0000_0000) % 2,
        (vaddr & (1u64 << 39)) >> 39 == (vaddr >> 39) & 1,
        vaddr & 0xffff_ffff_ffff_f000 == vaddr - vaddr % 4096,
{
}

/// Rounding down to a page gives the multiple of 4096 that is at most
/// 4095 below the address.
pub proof fn lemma_align_4k(addr: u64)
    by (bit_vector)
    ensures
        spec_align_4k(addr) % 4096 == 0,
        spec_align_4k(addr) <= addr,
        addr - spec_align_4k(addr) < 4096,
{
}

/* Helpers for navigating the page tables */

/// The index into the level-0 table: bits [47:39] of `vaddr`.
#[verifier::when_used_as_spec(spec_zeroeth_index)]
pub fn pagetable_zeroeth_index(vaddr: VirtualAddress) -> (index: usize)
    ensures
        index == spec_zeroeth_index(vaddr),
        index == (vaddr >> 39) & 0x1ff,
        index == (vaddr / 0x80_0000_0000) % 512,
{
    proof {
        lemma_index_digits(vaddr);
    }
    ((vaddr >> ZEROETH_SHIFT) & PTE_MASK) as usize
}

/// Which of the two concatenated stage-2 root tables translates `vaddr`:
/// bit 39 of it.
#[verifier::when_used_as_spec(spec_concat_table)]
pub fn pagetable_concat_table(vaddr: VirtualAddress) -> (table: usize)
    ensures
        table == spec_concat_table(vaddr),
        table == (vaddr >> 39) & 1,
        table == (vaddr / 0x80_0000_0000) % 2,
{
    proof {
        lemma_index_digits(vaddr);
    }
    let bit = (vaddr & (1u64 << 39)) >> 39;

    bit as usize
}

/// The index into a level-1 table: bits [38:30] of `vaddr`.
#[verifier::when_used_as_spec(spec_first_index)]
pub fn pagetable_first_index(vaddr: VirtualAddress) -> (index: usize)
    ensures
        index == spec_first_index(vaddr),
        index == (vaddr >> 30) & 0x1ff,
        index == (vaddr / 0x4000_0000) % 512,
{
    proof {
        lemma_index_digits(vaddr);
    }
    ((vaddr >> FIRST_SHIFT) & PTE_MASK) as usize
}

/// The index into a level-2 table: bits [29:21] of `vaddr`.
#[verifier::when_used_as_spec(spec_second_index)]
pub fn pagetable_second_index(vaddr: VirtualAddress) -> (index: usize)
    ensures
        index == spec_second_index(vaddr),
        index == (vaddr >> 21) & 0x1ff,
        index == (vaddr / 0x20_0000) % 512,
{
    proof {
        lemma_index_digits(vaddr);
    }
    ((vaddr >> SECOND_SHIFT) & PTE_MASK) as usize
}

/// The index into a level-3 table: bits [20:12] of `vaddr`.
#[verifier::when_used_as_spec(spec_third_index)]
pub fn pagetable_third_index(vaddr: VirtualAddress) -> (index: usize)
    ensures
        index == spec_third_index(vaddr),
        index == (vaddr >> 12) & 0x1ff,
        index == (vaddr / 0x1000) % 512,
{
    proof {
        lemma_index_digits(vaddr);
    }
    ((vaddr >> THIRD_SHIFT) & PTE_MASK) as usize
}

/// `addr` rounded down to a multiple of 4 KiB.
#[verifier::when_used_as_spec(spec_align_4k)]
pub fn align_4k(addr: u64) -> (aligned: u64)
    ensures
        aligned == spec_align_4k(addr),
        aligned == addr - addr % 4096,
{
    proof {
        lemma_index_digits(addr);
    }
    addr & ALIGN_4K_MASK
}

/// What the stage-1 tree is to the table walker: its four tables.
pub struct TreeView {
    pub zeroeth: TableView,
    pub first: TableView,
    pub second: TableView,
    pub third: TableView,
}

impl TreeView {
    /// Four tables of 512 descriptors that lie one after the other in
    /// physical memory, so that no two of them overlap.
    pub open spec fn wf(self) -> bool {
        &&& self.zeroeth.wf(512)
        &&& self.first.wf(512)
        &&& self.second.wf(512)
        &&& self.third.wf(512)
        &&& self.first.base == self.zeroeth.base + 0x1000
        &&& self.second.base == self.zeroeth.base + 0x2000
        &&& self.third.base == self.zeroeth.base + 0x3000
    }

    /// The tree of four empty tables that occupies the 16 KiB from `base`
    /// on, level 0 first.
    pub open spec fn empty(base: u64) -> TreeView {
        TreeView {
            zeroeth: TableView::empty(base, 512),
            first: TableView::empty((base + 0x1000) as u64, 512),
            second: TableView::empty((base + 0x2000) as u64, 512),
            third: TableView::empty((base + 0x3000) as u64, 512),
        }
    }

    /// Validity coupling: a descriptor of a level above the last is valid
    /// exactly if it is the table descriptor of the tree's own next-level
    /// table, and a level-3 descriptor is either zero or a page descriptor
    /// with an output address within 40 bits.
    pub open spec fn coupled(self) -> bool {
        &&& self.zeroeth.points_at(table_descriptor(self.first.base))
        &&& self.first.points_at(table_descriptor(self.second.base))
        &&& self.second.points_at(table_descriptor(self.third.base))
        &&& forall|i: int|
            0 <= i < 512 ==> {
                let entry = #[trigger] self.third.entries[i];
                entry.0 == (if entry.is_valid() {
                    block_descriptor(entry.0 & CORTEX_A53_MAX_OA)
                } else {
                    0
                })
            }
    }

    /// The tree after `vaddr` has been mapped to the page of `paddr`: the
    /// descriptor that `vaddr` selects at each of the levels 0, 1 and 2
    /// points at the next table, and the one it selects at level 3 is the
    /// page descriptor of `paddr`.
    pub open spec fn mapped(self, vaddr: u64, paddr: u64) -> TreeView {
        TreeView {
            zeroeth: self.zeroeth.set(
                pagetable_zeroeth_index(vaddr) as int,
                PageTableEntry(table_descriptor(self.first.base)),
            ),
            first: self.first.set(
                pagetable_first_index(vaddr) as int,
                PageTableEntry(table_descriptor(self.second.base)),
            ),
            second: self.second.set(
                pagetable_second_index(vaddr) as int,
                PageTableEntry(table_descriptor(self.third.base)),
            ),
            third: self.third.set(
                pagetable_third_index(vaddr) as int,
                PageTableEntry(block_descriptor(paddr)),
            ),
        }
    }

    /// The tree after the `pages` consecutive pages from `vaddr` on have
    /// been mapped to the consecutive pages from `paddr` on, lowest first.
    pub open spec fn mapped_range(self, vaddr: u64, paddr: u64, pages: nat) -> TreeView
        decreases pages,
    {
        if pages == 0 {
            self
        } else {
            self.mapped_range(vaddr, paddr, (pages - 1) as nat).mapped(
                (vaddr + 4096 * (pages - 1)) as u64,
                (paddr + 4096 * (pages - 1)) as u64,
            )
        }
    }
}

/// The stage-1 tree of the hypervisor: one table at each of the four
/// levels, enough to map 4 KiB pages within one 2 MiB region.
pub struct PageTableTree {
    pub zeroeth: PageTable,
    pub first: PageTable,
    pub second: PageTable,
    pub third: PageTable,
}

impl View for PageTableTree {
    type V = TreeView;

    open spec fn view(&self) -> TreeView {
        TreeView {
            zeroeth: self.zeroeth@,
            first: self.first@,
            second: self.second@,
            third: self.third@,
        }
    }
}

impl PageTableTree {
    /// An empty tree whose four tables occupy the 16 KiB of physical memory
    /// from `base` on, level 0 first.
    pub fn new(base: u64) -> (tree: PageTableTree)
        requires
            base % 4096 == 0,
            base + 0x4000 <= CORTEX_A53_MAX_OA + 1,
        ensures
            tree@ == TreeView::empty(base),
            tree@.wf(),
            tree@.coupled(),
    {
        let tree = PageTableTree {
            zeroeth: PageTable::new(base),
            first: PageTable::new(base + 0x1000),
            second: PageTable::new(base + 0x2000),
            third: PageTable::new(base + 0x3000),
        };
        proof {
            lemma_coupling(0);
        }
        tree
    }

    /// Maps the 4 KiB page of `vaddr` to the page of `paddr`. Descriptors
    /// that are already there are overwritten.
    pub fn map(&mut self, vaddr: u64, paddr: u64)
        requires
            old(self)@.wf(),
            paddr <= CORTEX_A53_MAX_OA,
        ensures
            final(self)@ == old(self)@.mapped(vaddr, paddr),
            final(self)@.wf(),
            old(self)@.coupled() ==> final(self)@.coupled(),
    {
        let index0 = pagetable_zeroeth_index(vaddr);
        let index1 = pagetable_first_index(vaddr);
        let index2 = pagetable_second_index(vaddr);
        let index3 = pagetable_third_index(vaddr);

        proof {
            lemma_index_digits(vaddr);
            lemma_coupling(self.first.base);
            lemma_coupling(self.second.base);
            lemma_coupling(self.third.base);
            lemma_coupling(paddr);
        }
        let entry0 = PageTableEntry::from_table(&self.first);
        let entry1 = PageTableEntry::from_table(&self.second);
        let entry2 = PageTableEntry::from_table(&self.third);
        let entry3 = PageTableEntry::from_block(paddr);

        self.zeroeth.entries[index0] = entry0;
        self.first.entries[index1] = entry1;
        self.second.entries[index2] = entry2;
        self.third.entries[index3] = entry3;
    }
}

/// What validity coupling rests on in stage 1: the descriptors that `map`
/// installs are valid, zero is not, a table within the 40-bit physical
/// range has a descriptor with the reserved bits zero, and a page
/// descriptor is the page descriptor of its own output address.
proof fn lemma_coupling(address: u64)
    by (bit_vector)
    ensures
        address <= CORTEX_A53_MAX_OA ==> table_descriptor(address) & TABLE_DESCRIPTOR_RES0 == 0,
        table_descriptor(address) & PTE_VALID == 1,
        block_descriptor(address) & PTE_VALID == 1,
        address <= CORTEX_A53_MAX_OA ==> block_descriptor(
            block_descriptor(address) & CORTEX_A53_MAX_OA,
        ) == block_descriptor(address),
        0u64 & PTE_VALID != 1,
{
}

/// What the stage-2 tree is to the table walker: the two concatenated root
/// tables and the one table below them.
pub struct Stage2View {
    pub zeroeth: TableView,
    pub first: TableView,
}

impl Stage2View {
    /// The 1024 root descriptors, aligned to 8 KiB, followed in physical
    /// memory by a table of 512 descriptors.
    pub open spec fn wf(self) -> bool {
        &&& self.zeroeth.wf(1024)
        &&& self.first.wf(512)
        &&& self.first.base == self.zeroeth.base + 0x2000
    }

    /// The empty tree that occupies the 12 KiB from `base` on, the root
    /// tables first.
    pub open spec fn empty(base: u64) -> Stage2View {
        Stage2View {
            zeroeth: TableView::empty(base, 1024),
            first: TableView::empty((base + 0x2000) as u64, 512),
        }
    }

    /// Validity coupling: a root descriptor is valid exactly if it is the
    /// stage-2 table descriptor of the tree's own second table, and a
    /// descriptor of that table is either zero or a 1 GiB block descriptor
    /// with an output address within 40 bits.
    pub open spec fn coupled(self) -> bool {
        &&& self.zeroeth.points_at(table_descriptor_stage2(self.first.base))
        &&& forall|i: int|
            0 <= i < 512 ==> {
                let entry = #[trigger] self.first.entries[i];
                entry.0 == (if entry.is_valid() {
                    block_descriptor_stage2(entry.0 & CORTEX_A53_MAX_OA)
                } else {
                    0
                })
            }
    }

    /// The tree after `vaddr` has been mapped to the 1 GiB block of `paddr`:
    /// bit 39 of `vaddr` selects one of the two root tables, bits [38:30]
    /// the descriptor in it that points at the second table, and bits
    /// [29:21] the descriptor in the second table that becomes the block
    /// descriptor of `paddr`.
    pub open spec fn mapped(self, vaddr: u64, paddr: u64) -> Stage2View {
        Stage2View {
            zeroeth: self.zeroeth.set(
                pagetable_concat_table(vaddr) * 512 + pagetable_first_index(vaddr),
                PageTableEntry(table_descriptor_stage2(self.first.base)),
            ),
            first: self.first.set(
                pagetable_second_index(vaddr) as int,
                PageTableEntry(block_descriptor_stage2(paddr)),
            ),
        }
    }
}

/// The stage-2 tree of the guest: two concatenated root tables and one
/// table below them, for a translation that starts at level 1 and maps
/// 1 GiB blocks.
pub struct PageTableTreeStage2 {
    pub zeroeth: PageTableConcat,
    pub first: PageTable,
}

impl View for PageTableTreeStage2 {
    type V = Stage2View;

    open spec fn view(&self) -> Stage2View {
        Stage2View { zeroeth: self.zeroeth@, first: self.first@ }
    }
}

impl PageTableTreeStage2 {
    /// An empty tree that occupies the 12 KiB of physical memory from
    /// `base` on, the root tables first.
    pub fn new(base: u64) -> (tree: PageTableTreeStage2)
        requires
            base % 8192 == 0,
            base + 0x3000 <= CORTEX_A53_MAX_OA + 1,
        ensures
            tree@ == Stage2View::empty(base),
            tree@.wf(),
            tree@.coupled(),
    {
        let tree = PageTableTreeStage2 {
            zeroeth: PageTableConcat::new(base),
            first: PageTable::new(base + 0x2000),
        };
        proof {
            lemma_coupling(0);
        }
        tree
    }

    /// Maps the 1 GiB block of `vaddr` to the block of `paddr`. Descriptors
    /// that are already there are overwritten.
    pub fn map(&mut self, vaddr: u64, paddr: u64)
        requires
            old(self)@.wf(),
            paddr <= CORTEX_A53_MAX_OA,
        ensures
            final(self)@ == old(self)@.mapped(vaddr, paddr),
            final(self)@.wf(),
            old(self)@.coupled() ==> final(self)@.coupled(),
    {
        let table_start = pagetable_concat_table(vaddr) * 512;
        let index1 = pagetable_first_index(vaddr);
        let index2 = pagetable_second_index(vaddr);

        proof {
            lemma_index_digits(vaddr);
            lemma_coupling_stage2(self.first.base);
            lemma_coupling_stage2(paddr);
        }
        let entry1 = PageTableEntry::from_table_stage2(&self.first);
        let entry2 = PageTableEntry::from_block_stage2(paddr);

        self.zeroeth.entries[table_start + index1] = entry1;
        self.first.entries[index2] = entry2;
    }
}

/// What validity coupling rests on in stage 2: the descriptors that `map`
/// installs are valid, and a block descriptor is the block descriptor of
/// its own output address.
proof fn lemma_coupling_stage2(address: u64)
    by (bit_vector)
    ensures
        table_descriptor_stage2(address) & PTE_VALID == 1,
        block_descriptor_stage2(address) & PTE_VALID == 1,
        address <= CORTEX_A53_MAX_OA ==> block_descriptor_stage2(
            block_descriptor_stage2(address) & CORTEX_A53_MAX_OA,
        ) == block_descriptor_stage2(address),
{
}

/// No descriptor of an address within the 40-bit physical range points
/// off a page boundary or beyond that range: the output address of each
/// of the four kinds of descriptor is a multiple of 4 KiB below 2^40, and
/// that of a stage-2 block a multiple of 1 GiB. A stage-2 table descriptor
/// is cut to the range whatever the address.
pub proof fn lemma_output_address(address: u64)
    ensures
        PageTableEntry(table_descriptor_stage2(address)).output_address() % 4096 == 0,
        PageTableEntry(table_descriptor_stage2(address)).output_address() <= CORTEX_A53_MAX_OA,
        address <= CORTEX_A53_MAX_OA ==> {
            &&& PageTableEntry(table_descriptor(address)).output_address() % 4096 == 0
            &&& PageTableEntry(table_descriptor(address)).output_address() <= CORTEX_A53_MAX_OA
            &&& PageTableEntry(block_descriptor(address)).output_address() % 4096 == 0
            &&& PageTableEntry(block_descriptor(address)).output_address() <= CORTEX_A53_MAX_OA
            &&& PageTableEntry(block_descriptor_stage2(address)).output_address() % 0x4000_0000
                == 0
            &&& PageTableEntry(block_descriptor_stage2(address)).output_address()
                <= CORTEX_A53_MAX_OA
        },
{
    let t = table_descriptor(address);
    let b = block_descriptor(address);
    let t2 = table_descriptor_stage2(address);
    let b2 = block_descriptor_stage2(address);
    assert((t2 & PTE_ADDRESS_MASK) % 4096 == 0 && t2 & PTE_ADDRESS_MASK <= CORTEX_A53_MAX_OA && (
    address <= CORTEX_A53_MAX_OA ==> (t & PTE_ADDRESS_MASK) % 4096 == 0 && t & PTE_ADDRESS_MASK
        <= CORTEX_A53_MAX_OA && (b & PTE_ADDRESS_MASK) % 4096 == 0 && b & PTE_ADDRESS_MASK
        <= CORTEX_A53_MAX_OA && (b2 & PTE_ADDRESS_MASK) % 0x4000_0000 == 0 && b2 & PTE_ADDRESS_MASK
        <= CORTEX_A53_MAX_OA)) by (bit_vector)
        requires
            t == table_descriptor(address),
            b == block_descriptor(address),
            t2 == table_descriptor_stage2(address),
            b2 == block_descriptor_stage2(address),
    ;
}

/// A level-3 page descriptor decodes back to the address it was made from:
/// for a 4 KiB aligned `paddr` within the 40-bit physical range, the output
/// address in bits [47:12] is `paddr`, the reserved bits [51:48] and the
/// bits [63:62] are zero, and the attribute bits are valid, page, attribute
/// index 0, non-secure, access permissions `00`, shareability `11`, access
/// flag set, global.
pub proof fn lemma_block_descriptor_round_trip(paddr: u64)
    requires
        paddr <= CORTEX_A53_MAX_OA,
        paddr & PAGE_MASK == 0,
    ensures
        PageTableEntry(block_descriptor(paddr)).output_address() == paddr,
        (block_descriptor(paddr) >> 12) & 0xf_ffff_ffff == paddr >> 12,
        block_descriptor(paddr) & 0xc00f_0000_0000_0000 == 0,
        PageTableEntry(block_descriptor(paddr)).is_valid(),
        PageTableEntry(block_descriptor(paddr)).is_table(),
        PageTableEntry(block_descriptor(paddr)).attr_index() == 0,
        PageTableEntry(block_descriptor(paddr)).non_secure(),
        PageTableEntry(block_descriptor(paddr)).access_perms() == 0,
        PageTableEntry(block_descriptor(paddr)).shareability() == 3,
        PageTableEntry(block_descriptor(paddr)).access_flag(),
        !PageTableEntry(block_descriptor(paddr)).not_global(),
{
    let d = block_descriptor(paddr);
    assert(d & PTE_ADDRESS_MASK == paddr && (d >> 12) & 0xf_ffff_ffff == paddr >> 12 && d
        & 0xc00f_0000_0000_0000 == 0 && d & PTE_VALID == 1 && d & PTE_TABLE == PTE_TABLE && (d
        & PTE_ATTR_MASK) >> 2 == 0 && d & PTE_NON_SECURE == PTE_NON_SECURE && (d
        & PTE_ACCESS_PERMS_MASK) >> 6 == 0 && (d & PTE_SHAREABILITY_MASK) >> 8 == 3 && d
        & PTE_ACCESS_FLAG == PTE_ACCESS_FLAG && d & PTE_NOT_GLOBAL == 0) by (bit_vector)
        requires
            d == block_descriptor(paddr),
            paddr <= CORTEX_A53_MAX_OA,
            paddr & PAGE_MASK == 0,
    ;
}

/// A block descriptor never leaks the low bits of the address it was made
/// from: whatever the address, the bits below the granule are the
/// attribute bits alone, for the 4 KiB page of stage 1 and for the 1 GiB
/// block of stage 2.
pub proof fn lemma_block_descriptor_low_bits(address: u64)
    by (bit_vector)
    ensures
        block_descriptor(address) & PAGE_MASK == STAGE1_BLOCK_ATTRS,
        block_descriptor_stage2(address) & PAGE_MASK == STAGE2_BLOCK_ATTRS,
        block_descriptor_stage2(address) & 0x3fff_ffff == STAGE2_BLOCK_ATTRS,
{
}

/// What a stage-1 table descriptor holds: bits [47:12] are the table's
/// address shifted right by 12, it is valid, a table, and has the
/// non-secure table bit; for a table within the 40-bit physical range the
/// reserved bits [62:61] and [51:48] are zero and the table's 4 KiB aligned
/// address can be read back.
pub proof fn lemma_table_descriptor_fields(address: u64)
    ensures
        (table_descriptor(address) >> 12) & 0xf_ffff_ffff == (address >> 12) & 0xf_ffff_ffff,
        PageTableEntry(table_descriptor(address)).is_valid(),
        PageTableEntry(table_descriptor(address)).is_table(),
        PageTableEntry(table_descriptor(address)).non_secure_table(),
        table_descriptor(address) & PAGE_MASK == 3,
        address <= CORTEX_A53_MAX_OA ==> table_descriptor(address) & TABLE_DESCRIPTOR_RES0 == 0,
        address <= CORTEX_A53_MAX_OA && address % 4096 == 0 ==> PageTableEntry(
            table_descriptor(address),
        ).output_address() == address,
{
    let d = table_descriptor(address);
    assert((d >> 12) & 0xf_ffff_ffff == (address >> 12) & 0xf_ffff_ffff && d & PTE_VALID == 1 && d
        & PTE_TABLE == PTE_TABLE && d & TABLE_NON_SECURE == TABLE_NON_SECURE && d & PAGE_MASK == 3
        && (address <= CORTEX_A53_MAX_OA ==> d & TABLE_DESCRIPTOR_RES0 == 0) && (address
        <= CORTEX_A53_MAX_OA && address % 4096 == 0 ==> d & PTE_ADDRESS_MASK == address))
        by (bit_vector)
        requires
            d == table_descriptor(address),
    ;
}

/// What a stage-2 table descriptor holds: the table's address cut to 40
/// bits, valid, table, attribute index 0, non-secure, S2AP read-write,
/// shareability `10`, access flag set, and the reserved bits [63:59] and
/// [51:48] zero. What a stage-2 block descriptor holds: the address aligned
/// down to 1 GiB, valid, not a table, S2AP read-write, access flag set.
pub proof fn lemma_stage2_descriptor_fields(address: u64)
    ensures
        PageTableEntry(table_descriptor_stage2(address)).output_address() == address
            & ALIGN_4K_MASK & CORTEX_A53_MAX_OA,
        PageTableEntry(table_descriptor_stage2(address)).is_valid(),
        PageTableEntry(table_descriptor_stage2(address)).is_table(),
        PageTableEntry(table_descriptor_stage2(address)).attr_index() == 0,
        PageTableEntry(table_descriptor_stage2(address)).non_secure(),
        PageTableEntry(table_descriptor_stage2(address)).access_perms() == 3,
        PageTableEntry(table_descriptor_stage2(address)).shareability() == 2,
        PageTableEntry(table_descriptor_stage2(address)).access_flag(),
        table_descriptor_stage2(address) & STAGE2_TABLE_DESCRIPTOR_RES0 == 0,
        address <= CORTEX_A53_MAX_OA ==> PageTableEntry(
            block_descriptor_stage2(address),
        ).output_address() == address & ALIGN_1G_MASK,
        PageTableEntry(block_descriptor_stage2(address)).is_valid(),
        !PageTableEntry(block_descriptor_stage2(address)).is_table(),
        PageTableEntry(block_descriptor_stage2(address)).access_perms() == 3,
        PageTableEntry(block_descriptor_stage2(address)).access_flag(),
{
    let t = table_descriptor_stage2(address);
    let b = block_descriptor_stage2(address);
    assert(t & PTE_ADDRESS_MASK == address & ALIGN_4K_MASK & CORTEX_A53_MAX_OA && t & PTE_VALID
        == 1 && t & PTE_TABLE == PTE_TABLE && (t & PTE_ATTR_MASK) >> 2 == 0 && t & PTE_NON_SECURE
        == PTE_NON_SECURE && (t & PTE_ACCESS_PERMS_MASK) >> 6 == 3 && (t & PTE_SHAREABILITY_MASK)
        >> 8 == 2 && t & PTE_ACCESS_FLAG == PTE_ACCESS_FLAG && t & STAGE2_TABLE_DESCRIPTOR_RES0
        == 0 && (address <= CORTEX_A53_MAX_OA ==> b & PTE_ADDRESS_MASK == address
        & ALIGN_1G_MASK) && b & PTE_VALID == 1 && b & PTE_TABLE == 0 && (b
        & PTE_ACCESS_PERMS_MASK) >> 6 == 3 && b & PTE_ACCESS_FLAG == PTE_ACCESS_FLAG)
        by (bit_vector)
        requires
            t == table_descriptor_stage2(address),
            b == block_descriptor_stage2(address),
    ;
}

/// Mapping a range changes descriptors only: every table stays where it
/// is and keeps its length, so a well-formed tree stays well-formed.
pub proof fn lemma_mapped_range_tables(tree: TreeView, vaddr: u64, paddr: u64, pages: nat)
    requires
        tree.wf(),
    ensures
        tree.mapped_range(vaddr, paddr, pages).wf(),
        tree.mapped_range(vaddr, paddr, pages).zeroeth.base == tree.zeroeth.base,
        tree.mapped_range(vaddr, paddr, pages).first.base == tree.first.base,
        tree.mapped_range(vaddr, paddr, pages).second.base == tree.second.base,
        tree.mapped_range(vaddr, paddr, pages).third.base == tree.third.base,
    decreases pages,
{
    if pages > 0 {
        lemma_mapped_range_tables(tree, vaddr, paddr, (pages - 1) as nat);
        lemma_index_digits((vaddr + 4096 * (pages - 1)) as u64);
    }
}

/// Mapping is idempotent: a second `map` with the same arguments leaves
/// every descriptor of the tree as the first one left it.
pub proof fn lemma_map_idempotent(tree: TreeView, vaddr: u64, paddr: u64)
    requires
        tree.wf(),
    ensures
        tree.mapped(vaddr, paddr).mapped(vaddr, paddr) == tree.mapped(vaddr, paddr),
{
    lemma_index_digits(vaddr);
    let once = tree.mapped(vaddr, paddr);
    let twice = once.mapped(vaddr, paddr);
    assert(twice.zeroeth.entries =~= once.zeroeth.entries);
    assert(twice.first.entries =~= once.first.entries);
    assert(twice.second.entries =~= once.second.entries);
    assert(twice.third.entries =~= once.third.entries);
}

/// Mapping in the stage-2 tree is idempotent too.
pub proof fn lemma_map_stage2_idempotent(tree: Stage2View, vaddr: u64, paddr: u64)
    requires
        tree.wf(),
    ensures
        tree.mapped(vaddr, paddr).mapped(vaddr, paddr) == tree.mapped(vaddr, paddr),
{
    lemma_index_digits(vaddr);
    let once = tree.mapped(vaddr, paddr);
    let twice = once.mapped(vaddr, paddr);
    assert(twice.zeroeth.entries =~= once.zeroeth.entries);
    assert(twice.first.entries =~= once.first.entries);
}

} // verus!
