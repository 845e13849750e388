//! What every boot guarantees: the order in which the MMU is switched on,
//! the state in which the guest is entered, the fields of the control
//! registers, and what the two trees translate.
use vstd::prelude::*;
use vstd::string::StringSliceAdditionalSpecFns;
use crate::aarch64::{Op, Registers, Shareable, SysReg, occur_at, occur_in_order, writes_to};
use crate::lpae::{
    ALIGN_1G_MASK,
    CORTEX_A53_MAX_OA,
    PAGE_SIZE,
    PTE_ADDRESS_MASK,
    PageTableEntry,
    TreeView,
    block_descriptor_stage2,
    lemma_mapped_range_tables,
    pagetable_third_index,
    spec_align_4k,
    table_descriptor_stage2,
};
use crate::memory_attrs::MAIR_NORMAL_WRITE_BACK;
use crate::start::{
    ABT_MASK,
    FIQ_MASK,
    GUEST_ADDRESS,
    GUEST_SPSR,
    HCR_AMO,
    HCR_E2H,
    HCR_FMO,
    HCR_IMO,
    HCR_RW,
    HCR_VM,
    IRQ_MASK,
    PSR_MODE_EL1H,
    SCTLR_EL2_C,
    SCTLR_EL2_I,
    SCTLR_EL2_M,
    SCTLR_EL2_PRE_MMU,
    SCTLR_EL2_RES1,
    SCTLR_EL2_SA,
    TCR_EL2_RES1,
    boot_regs,
    boot_trace,
    boot_tree,
    guest_launch,
    guest_tree,
    hcr_el2_value,
    image_fits,
    mmu_bring_up,
    range_fits,
    range_pages,
    spec_image_fits,
    tcr_el2_value,
    uart_page,
    virt_bring_up,
};
use crate::uart::{UART_BASE, uart_stores};
use crate::vm::{VTCR_EL2_CORTEX_A53, pa_range};
use crate::walk::{
    lemma_mapped_keeps_translation,
    lemma_mapped_range_translates,
    lemma_mapped_translates,
    lemma_pages_apart,
};

verus! {

/// The operations that switch the MMU of EL2 on for the tree at `tables`,
/// one right after the other: the memory attributes; the invalidation of
/// the TLB and the barrier that waits for it; the table base and the
/// barrier behind it; and, after a full-system barrier, the write that
/// sets `SCTLR_EL2.M`, with the barrier behind it.
pub open spec fn mmu_enable(tables: u64) -> Seq<Op> {
    seq![
        Op::Msr(SysReg::MAIR_EL2, MAIR_NORMAL_WRITE_BACK),
        Op::TlbiAlle2,
        Op::Dsb(Shareable::Non),
        Op::Msr(SysReg::TTBR0_EL2, tables),
        Op::Isb,
        Op::Dsb(Shareable::FullSystem),
        Op::Msr(SysReg::SCTLR_EL2, SCTLR_EL2_PRE_MMU | SCTLR_EL2_M),
        Op::Isb,
    ]
}

/// The stage-2 tree of the guest holds two valid descriptors and no other:
/// root descriptor 1 points at the table below the roots, and descriptor
/// 2 of that table maps the block of the guest onto itself, the GiB from
/// `0x4000_0000` on.
pub proof fn lemma_guest_tree(guest_tables: u64)
    requires
        guest_tables % 8192 == 0,
        guest_tables + 0x3000 <= CORTEX_A53_MAX_OA + 1,
    ensures
        guest_tree(guest_tables).zeroeth.entries == Seq::new(
            1024,
            |i: int|
                if i == 1 {
                    PageTableEntry(table_descriptor_stage2((guest_tables + 0x2000) as u64))
                } else {
                    PageTableEntry(0)
                },
        ),
        guest_tree(guest_tables).first.entries == Seq::new(
            512,
            |i: int|
                if i == 2 {
                    PageTableEntry(0x4000_04c1)
                } else {
                    PageTableEntry(0)
                },
        ),
        PageTableEntry(table_descriptor_stage2((guest_tables + 0x2000) as u64)).output_address()
            == guest_tables + 0x2000,
        PageTableEntry(0x4000_04c1).output_address() == 0x4000_0000,
        PageTableEntry(0x4000_04c1).output_address() == GUEST_ADDRESS & ALIGN_1G_MASK,
{
    let below = (guest_tables + 0x2000) as u64;
    assert(((GUEST_ADDRESS >> 39) & 1) * 512 + ((GUEST_ADDRESS >> 30) & 0x1ff) == 1 && (
    GUEST_ADDRESS >> 21) & 0x1ff == 2 && block_descriptor_stage2(GUEST_ADDRESS) == 0x4000_04c1
        && 0x4000_04c1u64 & PTE_ADDRESS_MASK == 0x4000_0000 && GUEST_ADDRESS & ALIGN_1G_MASK
        == 0x4000_0000) by (bit_vector);
    assert(table_descriptor_stage2(below) & PTE_ADDRESS_MASK == below) by (bit_vector)
        requires
            below % 4096 == 0,
            below <= CORTEX_A53_MAX_OA,
    ;
    let tree = guest_tree(guest_tables);
    assert(tree.zeroeth.entries =~= Seq::new(
        1024,
        |i: int|
            if i == 1 {
                PageTableEntry(table_descriptor_stage2(below))
            } else {
                PageTableEntry(0)
            },
    ));
    assert(tree.first.entries =~= Seq::new(
        512,
        |i: int|
            if i == 2 {
                PageTableEntry(0x4000_04c1)
            } else {
                PageTableEntry(0)
            },
    ));
}

/// The writes that configure the stage-1 translation of EL2, in the order
/// in which the boot issues them: translation control, system control
/// with the MMU off, memory attributes, table base, and system control
/// with the MMU on.
pub open spec fn mmu_configuration(regs: Registers, tables: u64) -> Seq<Op> {
    seq![
        Op::Msr(SysReg::TCR_EL2, tcr_el2_value(pa_range(regs))),
        Op::Msr(SysReg::SCTLR_EL2, SCTLR_EL2_PRE_MMU),
        Op::Msr(SysReg::MAIR_EL2, MAIR_NORMAL_WRITE_BACK),
        Op::Msr(SysReg::TTBR0_EL2, tables),
        Op::Msr(SysReg::SCTLR_EL2, SCTLR_EL2_PRE_MMU | SCTLR_EL2_M),
    ]
}

/// The MMU is switched on in the order that keeps the processor from
/// running under stale or half-configured translations.
///
/// In the trace of every boot the writes of `mmu_configuration` occur in
/// their order, and they are the only writes to these four registers: each
/// is written once, but for `SCTLR_EL2`, which is written first with `M`
/// clear and then with `M` set. The write with the MMU off has a barrier
/// right behind it. From the write to `MAIR_EL2` on, the steps of
/// `mmu_enable` follow each other with nothing in between. Nothing is
/// stored to a device before the MMU is on.
pub proof fn lemma_mmu_enable_order(
    regs: Registers,
    tables: u64,
    guest_tables: u64,
    end: u64,
    irq_vector_addr: u64,
)
    ensures
        ({
            let trace = boot_trace(regs, tables, guest_tables, end, irq_vector_addr);
            &&& occur_in_order(trace, mmu_configuration(regs, tables))
            &&& writes_to(trace, SysReg::TCR_EL2) == set![2int]
            &&& writes_to(trace, SysReg::SCTLR_EL2) == set![3int, 16int]
            &&& writes_to(trace, SysReg::MAIR_EL2) == set![10int]
            &&& writes_to(trace, SysReg::TTBR0_EL2) == set![13int]
            &&& trace[4] == Op::Isb
            &&& trace.subrange(10, 18) == mmu_enable(tables)
            &&& forall|i: int| 0 <= i < 18 ==> !(#[trigger] trace[i] is Store)
        }),
        SCTLR_EL2_PRE_MMU & SCTLR_EL2_M == 0,
        (SCTLR_EL2_PRE_MMU | SCTLR_EL2_M) & SCTLR_EL2_M == SCTLR_EL2_M,
{
    let trace = boot_trace(regs, tables, guest_tables, end, irq_vector_addr);
    let head = mmu_bring_up(regs, irq_vector_addr, tables);
    let stores = uart_stores(uart_page(end), "UART mapped\n".spec_bytes());
    let virt = virt_bring_up(regs);
    let launch = guest_launch(guest_tables);
    assert(head.len() == 18);
    assert(forall|i: int| 0 <= i < 18 ==> trace[i] == head[i]);
    assert(occur_at(trace, mmu_configuration(regs, tables), seq![2int, 3int, 10int, 13int, 16int]));
    assert(SCTLR_EL2_PRE_MMU & SCTLR_EL2_M == 0 && (SCTLR_EL2_PRE_MMU | SCTLR_EL2_M) & SCTLR_EL2_M
        == SCTLR_EL2_M) by (bit_vector);
    assert(trace.subrange(10, 18) =~= mmu_enable(tables));
    assert forall|i: int| 18 <= i < trace.len() implies !(#[trigger] trace[i]).writes(
        SysReg::TCR_EL2,
    ) && !trace[i].writes(SysReg::SCTLR_EL2) && !trace[i].writes(SysReg::MAIR_EL2)
        && !trace[i].writes(SysReg::TTBR0_EL2) by {
        if i < 18 + stores.len() {
            assert(trace[i] == stores[i - 18]);
        } else if i < 18 + stores.len() + 3 {
            assert(trace[i] == virt[i - 18 - stores.len()]);
        } else {
            assert(trace[i] == launch[i - 18 - stores.len() - 3]);
        }
    }
    assert(writes_to(trace, SysReg::TCR_EL2) =~= set![2int]);
    assert(writes_to(trace, SysReg::SCTLR_EL2) =~= set![3int, 16int]);
    assert(writes_to(trace, SysReg::MAIR_EL2) =~= set![10int]);
    assert(writes_to(trace, SysReg::TTBR0_EL2) =~= set![13int]);
}

/// The guest is entered under a committed stage-2 configuration.
///
/// The trace of every boot ends with the steps of `guest_launch`, whose
/// last is the exception return, right behind a barrier, the invalidation
/// of the TLB and the barrier that waits for it. At that point the saved
/// program state selects EL1 with its own stack pointer in AArch64 with
/// aborts, IRQs and FIQs masked; the return address is the entry point of
/// the guest; the stage-2 table base is the root of the guest's tree and
/// the stage-2 translation control is that of the Cortex-A53; stage-2
/// translation is on, no host runs at EL2, the interrupts of the lower
/// exception levels are routed to EL2 and EL1 is AArch64; and the MMU of
/// the guest is off.
pub proof fn lemma_guest_entry(
    regs: Registers,
    tables: u64,
    guest_tables: u64,
    end: u64,
    irq_vector_addr: u64,
)
    ensures
        ({
            let trace = boot_trace(regs, tables, guest_tables, end, irq_vector_addr);
            &&& trace.len() >= 11
            &&& trace.subrange(trace.len() - 11, trace.len() as int) == guest_launch(guest_tables)
            &&& trace.last() == Op::Eret
            &&& trace.subrange(trace.len() - 4, trace.len() as int) == seq![
                Op::Isb,
                Op::TlbiAlle2,
                Op::Dsb(Shareable::Non),
                Op::Eret,
            ]
        }),
        ({
            let after = boot_regs(regs, tables, guest_tables, irq_vector_addr);
            &&& after.spsr_el2 == 0x1c5
            &&& after.spsr_el2 & 0xf == PSR_MODE_EL1H
            &&& after.spsr_el2 & 0x10 == 0
            &&& after.spsr_el2 & (ABT_MASK | IRQ_MASK | FIQ_MASK) == ABT_MASK | IRQ_MASK | FIQ_MASK
            &&& after.elr_el2 == GUEST_ADDRESS
            &&& after.vttbr_el2 == guest_tables
            &&& after.vtcr_el2 == VTCR_EL2_CORTEX_A53
            &&& after.hcr_el2 & HCR_VM == HCR_VM
            &&& after.hcr_el2 & HCR_E2H == 0
            &&& after.hcr_el2 & (HCR_AMO | HCR_FMO | HCR_IMO) == HCR_AMO | HCR_FMO | HCR_IMO
            &&& after.hcr_el2 & HCR_RW == HCR_RW
            &&& after.sctlr_el1 == 0
        }),
{
    let trace = boot_trace(regs, tables, guest_tables, end, irq_vector_addr);
    let launch = guest_launch(guest_tables);
    assert(launch.len() == 11);
    assert(trace.subrange(trace.len() - 11, trace.len() as int) =~= launch);
    assert(trace.last() == launch[10]);
    assert(trace.subrange(trace.len() - 4, trace.len() as int) =~= seq![
        Op::Isb,
        Op::TlbiAlle2,
        Op::Dsb(Shareable::Non),
        Op::Eret,
    ]);
    let hcr = regs.hcr_el2;
    let after = hcr_el2_value(hcr);
    assert(GUEST_SPSR == 0x1c5 && GUEST_SPSR & 0xf == PSR_MODE_EL1H && GUEST_SPSR & 0x10 == 0
        && GUEST_SPSR & (ABT_MASK | IRQ_MASK | FIQ_MASK) == ABT_MASK | IRQ_MASK | FIQ_MASK && after
        & HCR_VM == HCR_VM && after & HCR_E2H == 0 && after & (HCR_AMO | HCR_FMO | HCR_IMO)
        == HCR_AMO | HCR_FMO | HCR_IMO && after & HCR_RW == HCR_RW) by (bit_vector)
        requires
            after == hcr_el2_value(hcr),
    ;
}

/// The fields of the control registers as the boot programs them.
///
/// `TCR_EL2`: bits 31 and 23 are set, the table walks are inner shareable
/// (`11`) and write-back write-allocate (`01`, inner and outer), the
/// physical address size is the low three bits of the reported range, and
/// the size offset is 16, for 48-bit virtual addresses. `SCTLR_EL2` before
/// the MMU is on: the bits 4, 5, 11, 16, 18, 22, 23, 28 and 29 and the
/// bits of the two caches and of the stack alignment check are set, and
/// no other.
pub proof fn lemma_control_register_fields(pa_range: u64)
    by (bit_vector)
    ensures
        tcr_el2_value(pa_range) & TCR_EL2_RES1 == TCR_EL2_RES1,
        (tcr_el2_value(pa_range) >> 16) & 0x7 == pa_range & 0x7,
        (tcr_el2_value(pa_range) >> 12) & 0x3 == 3,
        (tcr_el2_value(pa_range) >> 10) & 0x3 == 1,
        (tcr_el2_value(pa_range) >> 8) & 0x3 == 1,
        tcr_el2_value(pa_range) & 0x3f == 16,
        tcr_el2_value(pa_range) == 0x8080_3510 | ((pa_range & 0x7) << 16),
        SCTLR_EL2_RES1 == 0x30c5_0830,
        SCTLR_EL2_PRE_MMU == 0x30c5_183c,
        SCTLR_EL2_PRE_MMU & SCTLR_EL2_M == 0,
        SCTLR_EL2_PRE_MMU & (SCTLR_EL2_C | SCTLR_EL2_SA | SCTLR_EL2_I) == SCTLR_EL2_C
            | SCTLR_EL2_SA | SCTLR_EL2_I,
{
}

/// Rounding down to pages, in numbers: the pages of two addresses that are
/// at most 2 MiB apart are at most 512 pages apart, and a whole number of
/// pages.
proof fn lemma_page_count(start: int, end: int)
    requires
        0 <= start <= end,
        end - start <= 0x20_0000,
    ensures
        (start - start % 4096) % 4096 == 0,
        (end - end % 4096) % 4096 == 0,
        start - start % 4096 <= end - end % 4096,
        ((end - end % 4096) - (start - start % 4096)) / 4096 <= 512,
        (start - start % 4096) + 4096 * (((end - end % 4096) - (start - start % 4096)) / 4096)
            == end - end % 4096,
        (end + 4096) - (end + 4096) % 4096 == (end - end % 4096) + 4096,
{
    let qs = start / 4096;
    let qe = end / 4096;
    assert(start - start % 4096 == 4096 * qs);
    assert(end - end % 4096 == 4096 * qe);
    assert(qs <= qe);
    assert(qe - qs <= 512);
    assert((4096 * qe - 4096 * qs) / 4096 == qe - qs);
    assert((end + 4096) / 4096 == qe + 1);
}

/// How the pages of an image and the page above it are numbered: an image
/// of at most 2 MiB has at most 512 pages, they are numbered from that of
/// `start` on, and the page that follows the page of `end` has the number
/// behind the last of them.
proof fn lemma_image_pages(start: u64, end: u64)
    requires
        image_fits(start, end),
        end + PAGE_SIZE <= u64::MAX,
    ensures
        range_pages(start, end) <= 512,
        spec_align_4k(start) % 4096 == 0,
        spec_align_4k(start) + 4096 * range_pages(start, end) == spec_align_4k(end),
        uart_page(end) % 4096 == 0,
        uart_page(end) == spec_align_4k(end) + 4096,
{
    let above = (end + PAGE_SIZE) as u64;
    assert(start & 0xffff_ffff_ffff_f000 == start - start % 4096 && end & 0xffff_ffff_ffff_f000
        == end - end % 4096 && above & 0xffff_ffff_ffff_f000 == above - above % 4096)
        by (bit_vector);
    lemma_page_count(start as int, end as int);
}

/// The boot tree maps the UART: the table walk translates the page above
/// the image to the UART's physical page.
pub proof fn lemma_boot_tree_maps_uart(tables: u64, start: u64, end: u64)
    requires
        tables % 4096 == 0,
        tables + 0x4000 <= CORTEX_A53_MAX_OA + 1,
        end + PAGE_SIZE <= u64::MAX,
    ensures
        boot_tree(tables, start, end).translate(uart_page(end)) == Some(UART_BASE),
{
    let image = TreeView::empty(tables).mapped_range(
        spec_align_4k(start),
        spec_align_4k(start),
        range_pages(start, end),
    );
    lemma_mapped_range_tables(
        TreeView::empty(tables),
        spec_align_4k(start),
        spec_align_4k(start),
        range_pages(start, end),
    );
    lemma_mapped_translates(image, uart_page(end), UART_BASE, uart_page(end));
    let above = (end + PAGE_SIZE) as u64;
    assert((UART_BASE & 0xffff_ffff_ffff_f000) | ((above & 0xffff_ffff_ffff_f000) & 0xfff)
        == UART_BASE) by (bit_vector);
}

/// The boot tree maps the image onto itself: the table walk translates
/// each page of the image to the same physical page, unless the UART has
/// taken the page's level-3 descriptor, which it cannot in an image of at
/// most 510 pages.
pub proof fn lemma_boot_tree_maps_image(tables: u64, start: u64, end: u64, page: nat)
    requires
        tables % 4096 == 0,
        tables + 0x4000 <= CORTEX_A53_MAX_OA + 1,
        image_fits(start, end),
        range_fits(start, end, start),
        end + PAGE_SIZE <= u64::MAX,
        page < range_pages(start, end),
    ensures
        range_pages(start, end) <= 512,
        range_pages(start, end) <= 510 || pagetable_third_index(
            (spec_align_4k(start) + 4096 * page) as u64,
        ) != pagetable_third_index(uart_page(end)) ==> boot_tree(tables, start, end).translate(
            (spec_align_4k(start) + 4096 * page) as u64,
        ) == Some((spec_align_4k(start) + 4096 * page) as u64),
{
    let first = spec_align_4k(start);
    let pages = range_pages(start, end);
    let address = (first + 4096 * page) as u64;
    let empty = TreeView::empty(tables);
    let image = empty.mapped_range(first, first, pages);
    lemma_image_pages(start, end);
    lemma_mapped_range_tables(empty, first, first, pages);
    lemma_mapped_range_translates(empty, first, first, pages, page);
    if pages <= 510 {
        lemma_pages_apart(address, uart_page(end));
    }
    if pagetable_third_index(address) != pagetable_third_index(uart_page(end)) {
        lemma_mapped_keeps_translation(image, uart_page(end), UART_BASE, address);
    }
}

} // verus!
