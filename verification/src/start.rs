//! The boot sequencer: from entry at EL2 with the MMU off to the exception
//! return into the guest at EL1.
//!
//! The order of the operations is what the sequencer is for. Translation
//! control, system control and memory attributes are programmed first;
//! then stale translations are invalidated, the table base is loaded,
//! and only after a full-system barrier is the MMU switched on. The
//! stage-2 configuration is committed by a barrier before the exception
//! return.
use vstd::prelude::*;
use vstd::string::StringSliceAdditionalSpecFns;
use crate::aarch64::{
    Cpu,
    Op,
    Registers,
    Shareable,
    SysReg,
    current_el,
    data_barrier,
    isb,
};
use crate::lpae::{
    ADDRESS_SPACE_PER_TABLE,
    Alignment,
    CORTEX_A53_MAX_OA,
    PAGE_SIZE,
    PageTableTree,
    PageTableTreeStage2,
    Stage2View,
    TreeView,
    align,
    align_4k,
    lemma_align_4k,
    lemma_index_digits,
    lemma_mapped_range_tables,
    spec_align_4k,
};
use crate::memory_attrs;
use crate::memory_attrs::MAIR_NORMAL_WRITE_BACK;
use crate::uart::{UART_BASE, Uart, uart_init, uart_stores, uart_write};
use crate::vm::{VTCR_EL2_CORTEX_A53, get_phys_addr_range, init_vtcr, pa_range};

verus! {

/// The bits of `SCTLR_EL2` that read as one: 4, 5, 11, 16, 18, 22, 23, 28
/// and 29.
pub const SCTLR_EL2_RES1: u64 = (1 << 4) | (1 << 5) | (1 << 11) | (1 << 16) | (1 << 18) | (1 << 22)
    | (1 << 23) | (1 << 28) | (1 << 29);

/// `SCTLR_EL2.M`: the MMU of EL2 is on.
pub const SCTLR_EL2_M: u64 = 1 << 0;

/// `SCTLR_EL2.C`: data accesses are cacheable.
pub const SCTLR_EL2_C: u64 = 1 << 2;

/// `SCTLR_EL2.SA`: a misaligned stack pointer faults.
pub const SCTLR_EL2_SA: u64 = 1 << 3;

/// `SCTLR_EL2.I`: instruction accesses are cacheable.
pub const SCTLR_EL2_I: u64 = 1 << 12;

/// `SCTLR_EL2` as it is programmed before the MMU is switched on: the
/// bits that read as one, both caches and the stack alignment check, and
/// the MMU off.
pub const SCTLR_EL2_PRE_MMU: u64 = SCTLR_EL2_RES1 | SCTLR_EL2_C | SCTLR_EL2_SA | SCTLR_EL2_I;

/// `HCR_EL2.E2H`: a host operating system runs at EL2.
pub const HCR_E2H: u64 = 1 << 34;

/// `HCR_EL2.VM`: stage-2 translation is on.
pub const HCR_VM: u64 = 1 << 0;

/// `HCR_EL2.FMO`: physical FIQs are taken to EL2.
pub const HCR_FMO: u64 = 1 << 3;

/// `HCR_EL2.IMO`: physical IRQs are taken to EL2.
pub const HCR_IMO: u64 = 1 << 4;

/// `HCR_EL2.AMO`: asynchronous aborts are taken to EL2.
pub const HCR_AMO: u64 = 1 << 5;

/// `HCR_EL2.RW`: EL1 is AArch64.
pub const HCR_RW: u64 = 1 << 31;

/// `HCR_EL2.TGE`: general exceptions are taken to EL2.
pub const HCR_TGE: u64 = 1 << 27;

/// `TCR_EL2.IRGN0 = 01`: table walks are inner write-back write-allocate.
pub const TCR_EL2_INNER_WRITE_BACK_WRITE_ALLOC: u64 = 1 << 8;

/// `TCR_EL2.ORGN0 = 01`: table walks are outer write-back write-allocate.
pub const TCR_EL2_OUTER_WRITE_BACK_WRITE_ALLOC: u64 = 1 << 10;

/// `TCR_EL2.SH0 = 11`: table walks are inner shareable.
pub const TCR_EL2_INNER_SHAREABLE: u64 = (1 << 12) | (1 << 13);

/// The bits of `TCR_EL2` that read as one: 23 and 31.
pub const TCR_EL2_RES1: u64 = (1 << 31) | (1 << 23);

/// `TCR_EL2.T0SZ` for a 48-bit virtual address space.
pub const TCR_EL2_T0SZ: u64 = 64 - 48;

/// The mask of an address that fits the 48 bits of a vector base.
pub const VBAR_ADDRESS_MASK: u64 = 0xffff_ffff_ffff;

/// The base of the two concatenated stage-2 root tables is aligned to
/// their 8 KiB.
pub const VTTBR_BASE_MASK: u64 = !0x1fff;

/// Where the guest image is loaded, and where the guest starts.
pub const GUEST_ADDRESS: u64 = 0x4040_0000;

/// `SPSR_EL2.M[3:0]` for EL1 with the stack pointer of EL1.
pub const PSR_MODE_EL1H: u64 = 0x05;

/// `SPSR_EL2.A`: asynchronous aborts are masked.
pub const ABT_MASK: u64 = 1 << 8;

/// `SPSR_EL2.I`: IRQs are masked.
pub const IRQ_MASK: u64 = 1 << 7;

/// `SPSR_EL2.F`: FIQs are masked.
pub const FIQ_MASK: u64 = 1 << 6;

/// The saved program state with which the guest is entered: EL1 with its
/// own stack pointer, AArch64, and aborts, IRQs and FIQs masked.
pub const GUEST_SPSR: u64 = PSR_MODE_EL1H | ABT_MASK | IRQ_MASK | FIQ_MASK;

/// The saved program state with which the guest is entered.
pub fn init_guest_cpsr() -> (spsr: u64)
    ensures
        spsr == GUEST_SPSR,
        spsr == 0x1c5,
{
    assert(GUEST_SPSR == 0x1c5) by (bit_vector);
    PSR_MODE_EL1H | ABT_MASK | IRQ_MASK | FIQ_MASK
}

/// How many pages lie between two addresses, each rounded down to a page.
pub open spec fn range_pages(virt_start: u64, virt_end: u64) -> nat {
    if spec_align_4k(virt_start) < spec_align_4k(virt_end) {
        ((spec_align_4k(virt_end) - spec_align_4k(virt_start)) / 4096) as nat
    } else {
        0
    }
}

/// The last page that a range is mapped to, if there is any, is within the
/// 40-bit physical address range.
pub open spec fn range_fits(virt_start: u64, virt_end: u64, phys_start: u64) -> bool {
    range_pages(virt_start, virt_end) > 0 ==> spec_align_4k(phys_start) + 4096 * (range_pages(
        virt_start,
        virt_end,
    ) - 1) <= CORTEX_A53_MAX_OA
}

/// The pages between two addresses, counted: from the page of the lower
/// address, `range_pages` pages reach the page of the upper one.
pub proof fn lemma_range_pages(virt_start: u64, virt_end: u64)
    ensures
        spec_align_4k(virt_start) < spec_align_4k(virt_end) ==> spec_align_4k(virt_start) + 4096
            * range_pages(virt_start, virt_end) == spec_align_4k(virt_end),
        spec_align_4k(virt_start) >= spec_align_4k(virt_end) ==> range_pages(virt_start, virt_end)
            == 0,
{
    lemma_align_4k(virt_start);
    lemma_align_4k(virt_end);
    let first = spec_align_4k(virt_start) as int;
    let last = spec_align_4k(virt_end) as int;
    if first < last {
        assert((last - first) % 4096 == 0);
        assert(4096 * ((last - first) / 4096) == last - first);
    }
}

/// Maps the pages from `virt_start` up to, but not including, `virt_end`
/// to the pages from `phys_start` on. The three addresses are rounded down
/// to a page.
pub fn map_address_range(
    boot_table_tree: &mut PageTableTree,
    virt_start: u64,
    virt_end: u64,
    phys_start: u64,
)
    requires
        old(boot_table_tree)@.wf(),
        range_fits(virt_start, virt_end, phys_start),
    ensures
        final(boot_table_tree)@ == old(boot_table_tree)@.mapped_range(
            spec_align_4k(virt_start),
            spec_align_4k(phys_start),
            range_pages(virt_start, virt_end),
        ),
        final(boot_table_tree)@.wf(),
        old(boot_table_tree)@.coupled() ==> final(boot_table_tree)@.coupled(),
{
    let start = align(virt_start, Alignment::Kb4);
    let end = align(virt_end, Alignment::Kb4);
    let first = align(phys_start, Alignment::Kb4);
    proof {
        lemma_range_pages(virt_start, virt_end);
    }
    let ghost pages = range_pages(virt_start, virt_end);
    let ghost mut done: nat = 0;
    let mut paddr = first;
    let mut vaddr = start;

    while vaddr < end
        invariant
            pages > 0 ==> first + 4096 * (pages - 1) <= CORTEX_A53_MAX_OA,
            start < end ==> start + 4096 * pages == end,
            start >= end ==> pages == 0,
            done <= pages,
            vaddr == start + 4096 * done,
            paddr == first + 4096 * done,
            boot_table_tree@.wf(),
            old(boot_table_tree)@.coupled() ==> boot_table_tree@.coupled(),
            boot_table_tree@ == old(boot_table_tree)@.mapped_range(start, first, done),
        decreases end - vaddr,
    {
        boot_table_tree.map(vaddr, paddr);
        paddr += PAGE_SIZE as u64;
        vaddr += PAGE_SIZE as u64;
        proof {
            done = done + 1;
        }
    }
}

/// The image of the hypervisor fits the one level-3 table of the boot
/// tree: it is at most 2 MiB long.
pub open spec fn spec_image_fits(start: u64, end: u64) -> bool {
    start <= end && end - start <= ADDRESS_SPACE_PER_TABLE
}

/// Whether the image from `start` up to `end` is at most 2 MiB long.
#[verifier::when_used_as_spec(spec_image_fits)]
pub fn image_fits(start: u64, end: u64) -> (fits: bool)
    ensures
        fits == spec_image_fits(start, end),
{
    start <= end && end - start <= ADDRESS_SPACE_PER_TABLE as u64
}

/// The offset between the load address and the identity map is a whole
/// number of GiB, so that both maps share their tables below level 1.
pub open spec fn spec_offset_aligned(offset: u64) -> bool {
    offset % 0x4000_0000 == 0
}

/// Whether `offset` is a multiple of 1 GiB.
#[verifier::when_used_as_spec(spec_offset_aligned)]
pub fn offset_aligned(offset: u64) -> (aligned: bool)
    ensures
        aligned == spec_offset_aligned(offset),
{
    offset % 0x4000_0000 == 0
}

/// The address of a vector table has its bits from 48 up clear.
pub open spec fn spec_vector_base_fits(irq_vector_addr: u64) -> bool {
    irq_vector_addr & !VBAR_ADDRESS_MASK == 0
}

/// Whether the bits from 48 up of `irq_vector_addr` are clear.
#[verifier::when_used_as_spec(spec_vector_base_fits)]
pub fn vector_base_fits(irq_vector_addr: u64) -> (fits: bool)
    ensures
        fits == spec_vector_base_fits(irq_vector_addr),
{
    irq_vector_addr & !VBAR_ADDRESS_MASK == 0
}

/// Identity-maps the image of the hypervisor, from `start` up to `end`,
/// page by page, and programs the memory attributes that the map refers
/// to.
pub fn setup_boot_pagetables(
    cpu: &mut Cpu,
    boot_table_tree: &mut PageTableTree,
    start: u64,
    end: u64,
    offset: u64,
)
    requires
        image_fits(start, end),
        offset_aligned(offset),
        old(boot_table_tree)@.wf(),
        range_fits(start, end, start),
    ensures
        final(boot_table_tree)@ == old(boot_table_tree)@.mapped_range(
            spec_align_4k(start),
            spec_align_4k(start),
            range_pages(start, end),
        ),
        final(boot_table_tree)@.wf(),
        old(boot_table_tree)@.coupled() ==> final(boot_table_tree)@.coupled(),
        final(cpu)@ == old(cpu)@.step(Op::Msr(SysReg::MAIR_EL2, MAIR_NORMAL_WRITE_BACK)),
{
    // Identity map the hypervisor (virtual address == physical address).
    map_address_range(boot_table_tree, start, end, start);

    // Set the memory attribute indirection register.
    memory_attrs::init(cpu);
}

/// Masks debug exceptions, aborts, IRQs and FIQs at EL2.
pub fn disable_interrupts(cpu: &mut Cpu)
    ensures
        final(cpu)@ == old(cpu)@.step(Op::DaifSet(0xf)),
{
    cpu.issue(Op::DaifSet(0xf));
}

/// Switches stage-2 translation on: sets `HCR_EL2.VM`.
pub fn enable_virt(cpu: &mut Cpu)
    ensures
        final(cpu)@ == old(cpu)@.step(Op::Msr(SysReg::HCR_EL2, old(cpu)@.regs.hcr_el2 | HCR_VM)),
{
    let mut hcr_el2: u64 = cpu.mrs(SysReg::HCR_EL2);
    hcr_el2 |= HCR_VM;
    cpu.msr(SysReg::HCR_EL2, hcr_el2);
}

/// `HCR_EL2` with the interrupts and aborts of the lower exception levels
/// routed to EL2, and EL1 in AArch64.
pub open spec fn hcr_trapping(hcr_el2: u64) -> u64 {
    (hcr_el2 | (HCR_AMO | HCR_FMO | HCR_IMO)) | HCR_RW
}

/// Routes physical IRQs, FIQs and asynchronous aborts of the lower
/// exception levels to EL2, and makes EL1 AArch64. The interrupt masks of
/// EL2 stay as they are.
pub fn trap_lower_el_into_el2(cpu: &mut Cpu)
    ensures
        final(cpu)@ == old(cpu)@.step(Op::DaifSet(0x0)).step(
            Op::Msr(SysReg::HCR_EL2, hcr_trapping(old(cpu)@.regs.hcr_el2)),
        ),
{
    cpu.issue(Op::DaifSet(0x0));

    let mut hcr_el2: u64 = cpu.mrs(SysReg::HCR_EL2);
    hcr_el2 |= HCR_AMO | HCR_FMO | HCR_IMO;

    // Lower exception levels are AArch64.
    hcr_el2 |= HCR_RW;

    cpu.msr(SysReg::HCR_EL2, hcr_el2);
}

/// Invalidates every translation of EL2 that the TLB holds, and waits for
/// the invalidation to complete.
pub fn flush_hypervisor_tlb(cpu: &mut Cpu)
    ensures
        final(cpu)@ == old(cpu)@.step(Op::TlbiAlle2).step(Op::Dsb(Shareable::Non)),
{
    cpu.issue(Op::TlbiAlle2);
    data_barrier(cpu, Shareable::Non);
}

/// Loads the base of the stage-1 tree of EL2.
pub fn switch_ttbr(cpu: &mut Cpu, pagetable_address: u64)
    ensures
        final(cpu)@ == old(cpu)@.step(Op::Msr(SysReg::TTBR0_EL2, pagetable_address)).step(Op::Isb),
{
    cpu.msr(SysReg::TTBR0_EL2, pagetable_address);
    isb(cpu);
}

/// Loads the base of the stage-2 tree of the guest.
pub fn switch_vttbr(cpu: &mut Cpu, pagetable_address: u64)
    ensures
        final(cpu)@ == old(cpu)@.step(Op::Msr(SysReg::VTTBR_EL2, pagetable_address)).step(Op::Isb),
{
    cpu.msr(SysReg::VTTBR_EL2, pagetable_address);
    isb(cpu);
}

/// A bare-metal hypervisor hosts no operating system at EL2: clears
/// `HCR_EL2.E2H`, so that `TCR_EL2` has the layout of a single address
/// range.
pub fn disable_el2_host(cpu: &mut Cpu)
    ensures
        final(cpu)@ == old(cpu)@.step(Op::Msr(SysReg::HCR_EL2, old(cpu)@.regs.hcr_el2 & !HCR_E2H)),
{
    let mut hcr_el2: u64 = cpu.mrs(SysReg::HCR_EL2);
    hcr_el2 &= !HCR_E2H;
    cpu.msr(SysReg::HCR_EL2, hcr_el2);
}

/// The translation control of EL2 for a processor that reports the
/// physical address range `pa_range`: the bits that read as one, table
/// walks that are inner shareable and write-back write-allocate, the
/// physical address size in bits [18:16], and a 48-bit virtual address
/// space.
pub open spec fn tcr_el2_value(pa_range: u64) -> u64 {
    TCR_EL2_RES1 | TCR_EL2_INNER_WRITE_BACK_WRITE_ALLOC | TCR_EL2_OUTER_WRITE_BACK_WRITE_ALLOC
        | TCR_EL2_INNER_SHAREABLE | ((pa_range & 0x7) << 16) | TCR_EL2_T0SZ
}

/// Programs `TCR_EL2`.
pub fn init_tcr(cpu: &mut Cpu)
    ensures
        final(cpu)@ == old(cpu)@.step(
            Op::Msr(SysReg::TCR_EL2, tcr_el2_value(pa_range(old(cpu)@.regs))),
        ),
{
    let mut tcr_el2: u64 = 0;

    tcr_el2 |= TCR_EL2_RES1;
    tcr_el2 |= TCR_EL2_INNER_WRITE_BACK_WRITE_ALLOC;
    tcr_el2 |= TCR_EL2_OUTER_WRITE_BACK_WRITE_ALLOC;
    tcr_el2 |= TCR_EL2_INNER_SHAREABLE;

    // TCR_EL2.PS[18:16]
    let pa_range = get_phys_addr_range(cpu);
    tcr_el2 |= (pa_range & 0x7) << 16;

    // 48-bit virtual address space
    tcr_el2 |= TCR_EL2_T0SZ;
    assert(tcr_el2 == tcr_el2_value(pa_range)) by (bit_vector)
        requires
            tcr_el2 == (((((0u64 | TCR_EL2_RES1) | TCR_EL2_INNER_WRITE_BACK_WRITE_ALLOC)
                | TCR_EL2_OUTER_WRITE_BACK_WRITE_ALLOC) | TCR_EL2_INNER_SHAREABLE) | ((pa_range
                & 0x7) << 16)) | TCR_EL2_T0SZ,
    ;
    cpu.msr(SysReg::TCR_EL2, tcr_el2);
}

/// Switches the MMU of EL2 on: once every write to the tables has
/// completed, sets `SCTLR_EL2.M`, and synchronizes the instruction
/// stream. From then on translations are live.
pub fn enable_mmu(cpu: &mut Cpu)
    ensures
        final(cpu)@ == old(cpu)@.step(Op::Dsb(Shareable::FullSystem)).step(
            Op::Msr(SysReg::SCTLR_EL2, old(cpu)@.regs.sctlr_el2 | SCTLR_EL2_M),
        ).step(Op::Isb),
{
    let mut sctlr_el2: u64 = cpu.mrs(SysReg::SCTLR_EL2);

    // Enable the MMU.
    sctlr_el2 |= SCTLR_EL2_M;

    // Sync all page table modifications.
    data_barrier(cpu, Shareable::FullSystem);

    cpu.msr(SysReg::SCTLR_EL2, sctlr_el2);
    isb(cpu);
}

/// Programs `SCTLR_EL2` with the MMU still off, and makes sure it is
/// loaded before anything else happens.
pub fn init_sctlr(cpu: &mut Cpu)
    ensures
        final(cpu)@ == old(cpu)@.step(Op::Msr(SysReg::SCTLR_EL2, SCTLR_EL2_PRE_MMU)).step(Op::Isb),
{
    // Start from zero, so that every bit that has to be zero is.
    let mut sctlr_el2: u64 = 0;

    // Set the bits that read as one.
    sctlr_el2 |= SCTLR_EL2_RES1;

    // Enable the data cache.
    sctlr_el2 |= SCTLR_EL2_C;

    // Fault on a stack pointer that is not 16-byte aligned.
    sctlr_el2 |= SCTLR_EL2_SA;

    // Enable the instruction cache.
    sctlr_el2 |= SCTLR_EL2_I;

    assert(sctlr_el2 == SCTLR_EL2_PRE_MMU) by (bit_vector)
        requires
            sctlr_el2 == (((0u64 | SCTLR_EL2_RES1) | SCTLR_EL2_C) | SCTLR_EL2_SA) | SCTLR_EL2_I,
    ;
    cpu.msr(SysReg::SCTLR_EL2, sctlr_el2);

    // Make sure SCTLR_EL2 is loaded before we continue.
    isb(cpu);
}

/// Installs the vector table of EL2. Without large virtual addresses the
/// bits from 48 up of the base have to be zero.
pub fn init_el2_interrupts(cpu: &mut Cpu, irq_vector_addr: u64)
    requires
        vector_base_fits(irq_vector_addr),
    ensures
        final(cpu)@ == old(cpu)@.step(Op::Msr(SysReg::VBAR_EL2, irq_vector_addr)).step(Op::Isb),
{
    let vbar_el2 = irq_vector_addr;
    cpu.msr(SysReg::VBAR_EL2, vbar_el2);
    isb(cpu);
}

/// Installs the vector table of EL1. Without large virtual addresses the
/// bits from 48 up of the base have to be zero.
pub fn init_el1_interrupts(cpu: &mut Cpu, irq_vector_addr: u64)
    requires
        vector_base_fits(irq_vector_addr),
    ensures
        final(cpu)@ == old(cpu)@.step(Op::Msr(SysReg::VBAR_EL1, irq_vector_addr)).step(Op::Isb),
{
    let vbar_el1 = irq_vector_addr;
    cpu.msr(SysReg::VBAR_EL1, vbar_el1);
    isb(cpu);
}

/// The operations that launch the guest once its stage-2 tree stands at
/// `guest_tables`: the stage-2 translation control and table base,
/// committed by a barrier; the guest's MMU off; the entry point and the
/// program state of the guest; and at last, behind a barrier and the
/// invalidation of the TLB, the exception return.
pub open spec fn guest_launch(guest_tables: u64) -> Seq<Op> {
    seq![
        Op::Msr(SysReg::VTCR_EL2, VTCR_EL2_CORTEX_A53),
        Op::Msr(SysReg::VTTBR_EL2, guest_tables),
        Op::Isb,
        Op::Msr(SysReg::SCTLR_EL1, 0),
        Op::DaifSet(0x2),
        Op::Msr(SysReg::ELR_EL2, GUEST_ADDRESS),
        Op::Msr(SysReg::SPSR_EL2, GUEST_SPSR),
        Op::Isb,
        Op::TlbiAlle2,
        Op::Dsb(Shareable::Non),
        Op::Eret,
    ]
}

/// The stage-2 tree of the guest at `guest_tables`: the identity map of
/// the 1 GiB block that holds the guest image.
pub open spec fn guest_tree(guest_tables: u64) -> Stage2View {
    Stage2View::empty(guest_tables).mapped(GUEST_ADDRESS, GUEST_ADDRESS)
}

/// Builds the stage-2 tree of the guest at `guest_tables`, programs the
/// stage-2 translation, and returns from the exception level of the
/// hypervisor into the guest, which starts at EL1 with its MMU off and
/// interrupts masked.
pub fn load_guest(cpu: &mut Cpu, guest_tables: u64) -> (stage2_table: PageTableTreeStage2)
    requires
        guest_tables % 8192 == 0,
        guest_tables + 0x3000 <= CORTEX_A53_MAX_OA + 1,
    ensures
        stage2_table@ == guest_tree(guest_tables),
        stage2_table@.wf(),
        stage2_table@.coupled(),
        final(cpu)@.trace == old(cpu)@.trace + guest_launch(guest_tables),
        final(cpu)@.regs == (Registers {
            vtcr_el2: VTCR_EL2_CORTEX_A53,
            vttbr_el2: guest_tables,
            sctlr_el1: 0,
            elr_el2: GUEST_ADDRESS,
            spsr_el2: GUEST_SPSR,
            ..old(cpu)@.regs
        }),
{
    let guest_address: u64 = GUEST_ADDRESS;

    let mut stage2_table = PageTableTreeStage2::new(guest_tables);
    stage2_table.map(guest_address, guest_address);

    // Initialize VTCR_EL2.
    init_vtcr(cpu);

    // Initialize VTTBR_EL2. The two concatenated root tables take 8 KiB, so
    // the base has one bit less than that of a 4 KiB table.
    let vttbr_el2: u64 = stage2_table.zeroeth.base;
    assert(vttbr_el2 & VTTBR_BASE_MASK == vttbr_el2) by (bit_vector)
        requires
            vttbr_el2 % 8192 == 0,
    ;
    switch_vttbr(cpu, vttbr_el2 & VTTBR_BASE_MASK);

    // The guest boots with its MMU off.
    cpu.msr(SysReg::SCTLR_EL1, 0);

    // Keep local IRQs masked.
    cpu.issue(Op::DaifSet(0x2));

    // The exception return restores the program state from SPSR_EL2 and
    // branches to the address in ELR_EL2.
    cpu.msr(SysReg::ELR_EL2, guest_address);
    cpu.msr(SysReg::SPSR_EL2, init_guest_cpsr());

    isb(cpu);
    flush_hypervisor_tlb(cpu);
    cpu.issue(Op::Eret);
    stage2_table
}

/// The page right above the page in which the image ends: where the UART
/// is mapped.
pub open spec fn uart_page(end: u64) -> u64 {
    spec_align_4k((end + PAGE_SIZE) as u64)
}

/// The stage-1 tree of the hypervisor at `tables`: the identity map of the
/// image from `start` up to `end`, and the UART in the page above it.
pub open spec fn boot_tree(tables: u64, start: u64, end: u64) -> TreeView {
    TreeView::empty(tables).mapped_range(
        spec_align_4k(start),
        spec_align_4k(start),
        range_pages(start, end),
    ).mapped(uart_page(end), UART_BASE)
}

/// `HCR_EL2` as the boot leaves it: no host at EL2, stage-2 translation
/// on, interrupts and aborts of the lower exception levels routed to EL2,
/// and EL1 in AArch64.
pub open spec fn hcr_el2_value(hcr_el2: u64) -> u64 {
    hcr_trapping((hcr_el2 & !HCR_E2H) | HCR_VM)
}

/// The operations that bring the processor from entry at EL2 to a live
/// stage-1 translation through the tree at `tables`, in program order.
pub open spec fn mmu_bring_up(regs: Registers, irq_vector_addr: u64, tables: u64) -> Seq<Op> {
    seq![
        Op::DaifSet(0xf),
        Op::Msr(SysReg::HCR_EL2, regs.hcr_el2 & !HCR_E2H),
        Op::Msr(SysReg::TCR_EL2, tcr_el2_value(pa_range(regs))),
        Op::Msr(SysReg::SCTLR_EL2, SCTLR_EL2_PRE_MMU),
        Op::Isb,
        Op::SpSel(1),
        Op::Msr(SysReg::VBAR_EL2, irq_vector_addr),
        Op::Isb,
        Op::Msr(SysReg::VBAR_EL1, irq_vector_addr),
        Op::Isb,
        Op::Msr(SysReg::MAIR_EL2, MAIR_NORMAL_WRITE_BACK),
        Op::TlbiAlle2,
        Op::Dsb(Shareable::Non),
        Op::Msr(SysReg::TTBR0_EL2, tables),
        Op::Isb,
        Op::Dsb(Shareable::FullSystem),
        Op::Msr(SysReg::SCTLR_EL2, SCTLR_EL2_PRE_MMU | SCTLR_EL2_M),
        Op::Isb,
    ]
}

/// The operations that switch virtualization on, once the MMU is on.
pub open spec fn virt_bring_up(regs: Registers) -> Seq<Op> {
    seq![
        Op::Msr(SysReg::HCR_EL2, (regs.hcr_el2 & !HCR_E2H) | HCR_VM),
        Op::DaifSet(0x0),
        Op::Msr(SysReg::HCR_EL2, hcr_el2_value(regs.hcr_el2)),
    ]
}

/// Everything the boot does, in program order, on a processor that is
/// entered with the registers `regs`: the MMU is brought up, the first
/// output goes through the UART, virtualization is switched on, and the
/// guest is launched.
pub open spec fn boot_trace(
    regs: Registers,
    tables: u64,
    guest_tables: u64,
    end: u64,
    irq_vector_addr: u64,
) -> Seq<Op> {
    mmu_bring_up(regs, irq_vector_addr, tables) + uart_stores(
        uart_page(end),
        "UART mapped\n".spec_bytes(),
    ) + virt_bring_up(regs) + guest_launch(guest_tables)
}

/// The registers as the boot leaves them. The exception level, the ID
/// register and the syndrome are as they were.
pub open spec fn boot_regs(
    regs: Registers,
    tables: u64,
    guest_tables: u64,
    irq_vector_addr: u64,
) -> Registers {
    Registers {
        hcr_el2: hcr_el2_value(regs.hcr_el2),
        tcr_el2: tcr_el2_value(pa_range(regs)),
        sctlr_el2: SCTLR_EL2_PRE_MMU | SCTLR_EL2_M,
        sctlr_el1: 0,
        mair_el2: MAIR_NORMAL_WRITE_BACK,
        ttbr0_el2: tables,
        vttbr_el2: guest_tables,
        vtcr_el2: VTCR_EL2_CORTEX_A53,
        vbar_el2: irq_vector_addr,
        vbar_el1: irq_vector_addr,
        elr_el2: GUEST_ADDRESS,
        spsr_el2: GUEST_SPSR,
        ..regs
    }
}

/// What the boot needs: the processor is at EL2; the image is at most
/// 2 MiB long, its pages are within the 40-bit physical address range and
/// the page above it has an address; the load offset is a whole number of
/// GiB; the vector base fits 48 bits; and the 16 KiB at `tables` and the
/// 12 KiB at `guest_tables` are aligned storage for the two trees, within
/// the physical address range, that do not overlap.
pub open spec fn boot_requirements(
    regs: Registers,
    tables: u64,
    guest_tables: u64,
    start: u64,
    end: u64,
    offset: u64,
    irq_vector_addr: u64,
) -> bool {
    &&& regs.el() == 2
    &&& image_fits(start, end)
    &&& offset_aligned(offset)
    &&& vector_base_fits(irq_vector_addr)
    &&& range_fits(start, end, start)
    &&& end + PAGE_SIZE <= u64::MAX
    &&& tables % 4096 == 0
    &&& tables + 0x4000 <= CORTEX_A53_MAX_OA + 1
    &&& guest_tables % 8192 == 0
    &&& guest_tables + 0x3000 <= CORTEX_A53_MAX_OA + 1
    &&& (tables + 0x4000 <= guest_tables || guest_tables + 0x3000 <= tables)
}

/// Whether the hypervisor can boot with these arguments on this
/// processor. Where it cannot, the caller halts.
pub fn can_boot(
    cpu: &Cpu,
    tables: u64,
    guest_tables: u64,
    start: u64,
    end: u64,
    offset: u64,
    irq_vector_addr: u64,
) -> (ok: bool)
    ensures
        ok == boot_requirements(
            cpu@.regs,
            tables,
            guest_tables,
            start,
            end,
            offset,
            irq_vector_addr,
        ),
{
    let first = align_4k(start);
    let last = align_4k(end);
    proof {
        lemma_index_digits(start);
        lemma_index_digits(end);
    }
    let limit: u64 = CORTEX_A53_MAX_OA + 1;
    current_el(cpu) == 2 && image_fits(start, end) && offset_aligned(offset) && vector_base_fits(
        irq_vector_addr,
    ) && (first >= last || last <= limit) && end <= u64::MAX - PAGE_SIZE as u64 && tables % 4096
        == 0 && tables <= limit - 0x4000 && guest_tables % 8192 == 0 && guest_tables <= limit
        - 0x3000 && (tables + 0x4000 <= guest_tables || guest_tables + 0x3000 <= tables)
}

/// What the boot leaves behind for the hypervisor to run on: the two
/// trees that the table walker reads from now on, and the UART.
pub struct Booted {
    pub boot_table_tree: PageTableTree,
    pub stage2_table: PageTableTreeStage2,
    pub uart: Uart,
}

/// Boots the hypervisor and launches the guest.
///
/// The image of the hypervisor lies from `start` up to `end`; `offset` is
/// the distance from its load address to its identity map, and
/// `irq_vector_addr` the address of its vector table. The stage-1 tree is
/// built in the 16 KiB at `tables`, the stage-2 tree of the guest in the
/// 12 KiB at `guest_tables`.
pub fn start_hypervisor(
    cpu: &mut Cpu,
    tables: u64,
    guest_tables: u64,
    start: u64,
    end: u64,
    offset: u64,
    irq_vector_addr: u64,
) -> (booted: Booted)
    requires
        boot_requirements(
            old(cpu)@.regs,
            tables,
            guest_tables,
            start,
            end,
            offset,
            irq_vector_addr,
        ),
    ensures
        booted.boot_table_tree@ == boot_tree(tables, start, end),
        booted.boot_table_tree@.wf(),
        booted.boot_table_tree@.coupled(),
        booted.stage2_table@ == guest_tree(guest_tables),
        booted.stage2_table@.wf(),
        booted.stage2_table@.coupled(),
        booted.uart.virt == uart_page(end),
        final(cpu)@.trace == old(cpu)@.trace + boot_trace(
            old(cpu)@.regs,
            tables,
            guest_tables,
            end,
            irq_vector_addr,
        ),
        final(cpu)@.regs == boot_regs(old(cpu)@.regs, tables, guest_tables, irq_vector_addr),
{
    let ghost regs = cpu@.regs;
    let ghost before = cpu@.trace;
    disable_interrupts(cpu);

    // A bare-metal hypervisor without nested virtualization hosts nothing
    // at EL2.
    disable_el2_host(cpu);

    init_tcr(cpu);
    init_sctlr(cpu);
    cpu.issue(Op::SpSel(1));

    init_el2_interrupts(cpu, irq_vector_addr);
    init_el1_interrupts(cpu, irq_vector_addr);
    assert(cpu@.trace == before + mmu_bring_up(regs, irq_vector_addr, tables).subrange(0, 10));
    assert(cpu@.regs.sctlr_el2 == SCTLR_EL2_PRE_MMU);
    assert(cpu@.regs.hcr_el2 == regs.hcr_el2 & !HCR_E2H);

    let mut boot_table_tree = PageTableTree::new(tables);
    setup_boot_pagetables(cpu, &mut boot_table_tree, start, end, offset);

    let uart_virt = align(end + PAGE_SIZE as u64, Alignment::Kb4);
    boot_table_tree.map(uart_virt, UART_BASE);

    proof {
        lemma_mapped_range_tables(
            TreeView::empty(tables),
            spec_align_4k(start),
            spec_align_4k(start),
            range_pages(start, end),
        );
    }

    // Flush the TLB in case there is stale state.
    flush_hypervisor_tlb(cpu);
    let ttbr0_el2: u64 = boot_table_tree.zeroeth.base;
    switch_ttbr(cpu, ttbr0_el2);

    enable_mmu(cpu);
    assert(cpu@.trace == before + mmu_bring_up(regs, irq_vector_addr, tables));

    let uart = uart_init(uart_virt);
    uart_write(cpu, &uart, "UART mapped\n");

    enable_virt(cpu);
    trap_lower_el_into_el2(cpu);
    assert(cpu@.trace == before + (mmu_bring_up(regs, irq_vector_addr, tables) + uart_stores(
        uart_page(end),
        "UART mapped\n".spec_bytes(),
    ) + virt_bring_up(regs)));
    let stage2_table = load_guest(cpu, guest_tables);

    Booted { boot_table_tree, stage2_table, uart }
}

} // verus!
