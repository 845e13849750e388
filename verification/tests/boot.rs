use hypervisor::aarch64::{current_el, data_barrier, isb, Cpu, Op, Registers, Shareable, SysReg};
use hypervisor::lpae::{PageTableEntry, PageTableTree};
use hypervisor::start::{
    can_boot, disable_el2_host, disable_interrupts, enable_mmu, enable_virt, flush_hypervisor_tlb,
    image_fits, init_el1_interrupts, init_el2_interrupts, init_guest_cpsr, init_sctlr, init_tcr,
    load_guest, map_address_range, offset_aligned, setup_boot_pagetables, start_hypervisor,
    switch_ttbr, switch_vttbr, trap_lower_el_into_el2, vector_base_fits,
};

const TABLES: u64 = 0x4020_0000;
const GUEST_TABLES: u64 = 0x4020_4000;
const START: u64 = 0x4008_0000;
const END: u64 = 0x4010_0000;
const OFFSET: u64 = 0x4000_0000;
const VECTOR_BASE: u64 = 0x4008_0000;

fn at_el2() -> Registers {
    Registers {
        current_el: 2 << 2,
        // PARange = 0b0010: 40 bits
        id_aa64mmfr0_el1: 0x1122,
        // E2H is set, and so is a bit the boot does not touch
        hcr_el2: 0x4_0000_0002,
        tcr_el2: 0,
        sctlr_el2: 0,
        sctlr_el1: 0x30d0_0800,
        mair_el2: 0,
        ttbr0_el2: 0,
        vttbr_el2: 0,
        vtcr_el2: 0,
        vbar_el2: 0,
        vbar_el1: 0,
        elr_el2: 0,
        spsr_el2: 0,
        esr_el2: 0x1234,
    }
}

fn valid(entries: &[PageTableEntry]) -> Vec<(usize, u64)> {
    entries
        .iter()
        .enumerate()
        .filter(|(_, entry)| entry.is_valid())
        .map(|(index, entry)| (index, entry.0))
        .collect()
}

fn position(trace: &[Op], op: Op) -> usize {
    let found: Vec<usize> = trace
        .iter()
        .enumerate()
        .filter(|(_, other)| **other == op)
        .map(|(index, _)| index)
        .collect();
    assert_eq!(found.len(), 1, "{:?} occurs {} times", op, found.len());
    found[0]
}

#[test]
fn boot_runs_the_whole_sequence() {
    let mut cpu = Cpu::new(at_el2());
    assert!(can_boot(&cpu, TABLES, GUEST_TABLES, START, END, OFFSET, VECTOR_BASE));
    let booted = start_hypervisor(&mut cpu, TABLES, GUEST_TABLES, START, END, OFFSET, VECTOR_BASE);

    let uart_virt = 0x4010_1000;
    let mut expected = vec![
        Op::DaifSet(0xf),
        Op::Msr(SysReg::HCR_EL2, 0x2),
        Op::Msr(SysReg::TCR_EL2, 0x8082_3510),
        Op::Msr(SysReg::SCTLR_EL2, 0x30c5_183c),
        Op::Isb,
        Op::SpSel(1),
        Op::Msr(SysReg::VBAR_EL2, VECTOR_BASE),
        Op::Isb,
        Op::Msr(SysReg::VBAR_EL1, VECTOR_BASE),
        Op::Isb,
        Op::Msr(SysReg::MAIR_EL2, 0xff),
        Op::TlbiAlle2,
        Op::Dsb(Shareable::Non),
        Op::Msr(SysReg::TTBR0_EL2, TABLES),
        Op::Isb,
        Op::Dsb(Shareable::FullSystem),
        Op::Msr(SysReg::SCTLR_EL2, 0x30c5_183d),
        Op::Isb,
    ];
    for byte in "UART mapped\n".bytes() {
        expected.push(Op::Store(uart_virt, byte as u64));
    }
    expected.extend([
        Op::Msr(SysReg::HCR_EL2, 0x3),
        Op::DaifSet(0x0),
        Op::Msr(SysReg::HCR_EL2, 0x8000_003b),
        Op::Msr(SysReg::VTCR_EL2, 0x8002_3558),
        Op::Msr(SysReg::VTTBR_EL2, GUEST_TABLES),
        Op::Isb,
        Op::Msr(SysReg::SCTLR_EL1, 0),
        Op::DaifSet(0x2),
        Op::Msr(SysReg::ELR_EL2, 0x4040_0000),
        Op::Msr(SysReg::SPSR_EL2, 0x1c5),
        Op::Isb,
        Op::TlbiAlle2,
        Op::Dsb(Shareable::Non),
        Op::Eret,
    ]);
    assert_eq!(cpu.trace, expected);
    assert_eq!(cpu.trace.len(), 18 + 12 + 14);

    assert_eq!(
        cpu.regs,
        Registers {
            current_el: 2 << 2,
            id_aa64mmfr0_el1: 0x1122,
            hcr_el2: 0x8000_003b,
            tcr_el2: 0x8082_3510,
            sctlr_el2: 0x30c5_183d,
            sctlr_el1: 0,
            mair_el2: 0xff,
            ttbr0_el2: TABLES,
            vttbr_el2: GUEST_TABLES,
            vtcr_el2: 0x8002_3558,
            vbar_el2: VECTOR_BASE,
            vbar_el1: VECTOR_BASE,
            elr_el2: 0x4040_0000,
            spsr_el2: 0x1c5,
            esr_el2: 0x1234,
        }
    );
    assert_eq!(booted.uart.virt, uart_virt);
}

#[test]
fn boot_prints_uart_mapped() {
    let mut cpu = Cpu::new(at_el2());
    let booted = start_hypervisor(&mut cpu, TABLES, GUEST_TABLES, START, END, OFFSET, VECTOR_BASE);
    let mut text = String::new();
    for op in cpu.trace.iter() {
        if let Op::Store(address, value) = op {
            assert_eq!(*address, booted.uart.virt);
            text.push(*value as u8 as char);
        }
    }
    assert_eq!(text, "UART mapped\n");
}

#[test]
fn boot_switches_the_mmu_on_in_order() {
    let mut cpu = Cpu::new(at_el2());
    start_hypervisor(&mut cpu, TABLES, GUEST_TABLES, START, END, OFFSET, VECTOR_BASE);
    let trace = &cpu.trace;

    let tcr = position(trace, Op::Msr(SysReg::TCR_EL2, 0x8082_3510));
    let sctlr_off = position(trace, Op::Msr(SysReg::SCTLR_EL2, 0x30c5_183c));
    let mair = position(trace, Op::Msr(SysReg::MAIR_EL2, 0xff));
    let ttbr = position(trace, Op::Msr(SysReg::TTBR0_EL2, TABLES));
    let sctlr_on = position(trace, Op::Msr(SysReg::SCTLR_EL2, 0x30c5_183d));
    assert!(tcr < sctlr_off);
    assert!(sctlr_off < mair);
    assert!(mair < ttbr);
    assert!(ttbr < sctlr_on);

    // the barriers in between
    assert_eq!(trace[sctlr_off + 1], Op::Isb);
    assert_eq!(
        trace[mair..sctlr_on + 2],
        [
            Op::Msr(SysReg::MAIR_EL2, 0xff),
            Op::TlbiAlle2,
            Op::Dsb(Shareable::Non),
            Op::Msr(SysReg::TTBR0_EL2, TABLES),
            Op::Isb,
            Op::Dsb(Shareable::FullSystem),
            Op::Msr(SysReg::SCTLR_EL2, 0x30c5_183d),
            Op::Isb,
        ]
    );

    // M is bit 0, and it is written once
    let writes: Vec<u64> = trace
        .iter()
        .filter_map(|op| match op {
            Op::Msr(SysReg::SCTLR_EL2, value) => Some(*value),
            _ => None,
        })
        .collect();
    assert_eq!(writes, vec![0x30c5_183c, 0x30c5_183d]);
    assert_eq!(writes[0] & 1, 0);
    assert_eq!(writes[1] & 1, 1);

    // nothing goes to the UART before the MMU is on
    let first_store = trace.iter().position(|op| matches!(op, Op::Store(_, _))).unwrap();
    assert!(sctlr_on + 1 < first_store);
}

#[test]
fn boot_enters_the_guest_last() {
    let mut cpu = Cpu::new(at_el2());
    start_hypervisor(&mut cpu, TABLES, GUEST_TABLES, START, END, OFFSET, VECTOR_BASE);
    let trace = &cpu.trace;
    let len = trace.len();
    assert_eq!(trace[len - 1], Op::Eret);
    assert_eq!(trace[len - 4..], [Op::Isb, Op::TlbiAlle2, Op::Dsb(Shareable::Non), Op::Eret]);
    let vtcr = position(trace, Op::Msr(SysReg::VTCR_EL2, 0x8002_3558));
    let vttbr = position(trace, Op::Msr(SysReg::VTTBR_EL2, GUEST_TABLES));
    let elr = position(trace, Op::Msr(SysReg::ELR_EL2, 0x4040_0000));
    let spsr = position(trace, Op::Msr(SysReg::SPSR_EL2, 0x1c5));
    assert!(vtcr < vttbr);
    assert_eq!(trace[vttbr + 1], Op::Isb);
    assert!(vttbr < elr);
    assert!(elr < spsr);
    assert!(spsr < len - 4);

    // EL1h, AArch64, aborts, IRQs and FIQs masked
    assert_eq!(cpu.regs.spsr_el2 & 0xf, 0b0101);
    assert_eq!(cpu.regs.spsr_el2 & 0x10, 0);
    assert_eq!(cpu.regs.spsr_el2 & 0x1c0, 0x1c0);
    // VM, the three routing bits and RW are set; E2H is clear
    assert_eq!(cpu.regs.hcr_el2 & 0x1, 0x1);
    assert_eq!(cpu.regs.hcr_el2 & 0x38, 0x38);
    assert_eq!(cpu.regs.hcr_el2 & (1 << 31), 1 << 31);
    assert_eq!(cpu.regs.hcr_el2 & (1 << 34), 0);
}

#[test]
fn boot_builds_both_trees() {
    let mut cpu = Cpu::new(at_el2());
    let booted = start_hypervisor(&mut cpu, TABLES, GUEST_TABLES, START, END, OFFSET, VECTOR_BASE);

    let tree = &booted.boot_table_tree;
    assert_eq!(tree.zeroeth.base, TABLES);
    assert_eq!(valid(&tree.zeroeth.entries), vec![(0, 0x8000_0000_4020_1003)]);
    assert_eq!(valid(&tree.first.entries), vec![(1, 0x8000_0000_4020_2003)]);
    assert_eq!(valid(&tree.second.entries), vec![(0, 0x8000_0000_4020_3003)]);
    let mut pages: Vec<(usize, u64)> = Vec::new();
    for page in 0..128u64 {
        let address = START + page * 0x1000;
        pages.push((0x80 + page as usize, address | 0x723));
    }
    // the UART, in the page above the image
    pages.push((0x101, 0x0900_0723));
    assert_eq!(valid(&tree.third.entries), pages);

    let guest = &booted.stage2_table;
    assert_eq!(guest.zeroeth.base, GUEST_TABLES);
    assert_eq!(guest.first.base, GUEST_TABLES + 0x2000);
    assert_eq!(valid(&guest.zeroeth.entries), vec![(1, 0x4020_66e3)]);
    assert_eq!(valid(&guest.first.entries), vec![(2, 0x4000_04c1)]);
}

#[test]
fn boot_refuses_an_image_over_two_megabytes() {
    let cpu = Cpu::new(at_el2());
    assert!(!can_boot(&cpu, TABLES, GUEST_TABLES, START, 0x4030_0000, OFFSET, VECTOR_BASE));
    assert!(!image_fits(START, 0x4030_0000));
    assert!(!image_fits(START, START + 0x20_0001));
    assert!(image_fits(START, START + 0x20_0000));
    assert!(image_fits(START, END));
    assert!(image_fits(START, START));
    assert!(!image_fits(END, START));
    assert!(!can_boot(&cpu, TABLES, GUEST_TABLES, END, START, OFFSET, VECTOR_BASE));
}

#[test]
fn boot_refuses_an_offset_off_a_gigabyte() {
    let cpu = Cpu::new(at_el2());
    assert!(!can_boot(&cpu, TABLES, GUEST_TABLES, START, END, 0x4000_0400, VECTOR_BASE));
    assert!(!offset_aligned(0x4000_0400));
    assert!(!offset_aligned(1));
    assert!(offset_aligned(0x4000_0000));
    assert!(offset_aligned(0xffff_ff80_0000_0000));
    assert!(offset_aligned(0));
    assert!(can_boot(&cpu, TABLES, GUEST_TABLES, START, END, 0, VECTOR_BASE));
}

#[test]
fn boot_refuses_a_lower_exception_level() {
    for el in [0u64, 1, 3] {
        let cpu = Cpu::new(Registers { current_el: el << 2, ..at_el2() });
        assert_eq!(current_el(&cpu), el);
        assert!(!can_boot(&cpu, TABLES, GUEST_TABLES, START, END, OFFSET, VECTOR_BASE));
    }
    let cpu = Cpu::new(at_el2());
    assert_eq!(current_el(&cpu), 2);
}

#[test]
fn boot_refuses_a_vector_base_over_forty_eight_bits() {
    let cpu = Cpu::new(at_el2());
    assert!(!can_boot(&cpu, TABLES, GUEST_TABLES, START, END, OFFSET, 1 << 48));
    assert!(!vector_base_fits(1 << 48));
    assert!(!vector_base_fits(0xffff_0000_4008_0000));
    assert!(vector_base_fits((1 << 48) - 1));
    assert!(vector_base_fits(VECTOR_BASE));
}

#[test]
fn boot_refuses_misplaced_tables() {
    let cpu = Cpu::new(at_el2());
    // misaligned
    assert!(!can_boot(&cpu, TABLES + 0x800, GUEST_TABLES, START, END, OFFSET, VECTOR_BASE));
    assert!(!can_boot(&cpu, TABLES, GUEST_TABLES + 0x1000, START, END, OFFSET, VECTOR_BASE));
    // beyond the physical address range
    assert!(!can_boot(&cpu, (1 << 40) - 0x3000, GUEST_TABLES, START, END, OFFSET, VECTOR_BASE));
    assert!(!can_boot(&cpu, TABLES, (1 << 40) - 0x2000, START, END, OFFSET, VECTOR_BASE));
    // overlapping
    assert!(!can_boot(&cpu, TABLES, TABLES + 0x2000, START, END, OFFSET, VECTOR_BASE));
    assert!(!can_boot(&cpu, TABLES, TABLES - 0x2000, START, END, OFFSET, VECTOR_BASE));
    // next to each other, either way round
    assert!(can_boot(&cpu, TABLES, TABLES + 0x4000, START, END, OFFSET, VECTOR_BASE));
    assert!(can_boot(&cpu, TABLES + 0x4000, TABLES, START, END, OFFSET, VECTOR_BASE));
    assert!(can_boot(&cpu, (1 << 40) - 0x4000, GUEST_TABLES, START, END, OFFSET, VECTOR_BASE));
}

#[test]
fn boot_refuses_an_image_beyond_the_physical_range() {
    let cpu = Cpu::new(at_el2());
    let top = 1u64 << 40;
    assert!(can_boot(&cpu, TABLES, GUEST_TABLES, top - 0x1000, top, OFFSET, VECTOR_BASE));
    assert!(!can_boot(&cpu, TABLES, GUEST_TABLES, top - 0x1000, top + 0x1000, OFFSET, VECTOR_BASE));
    assert!(!can_boot(&cpu, TABLES, GUEST_TABLES, top, top + 0x1000, OFFSET, VECTOR_BASE));
    // an empty image maps nothing, but the page above it needs an address
    assert!(can_boot(&cpu, TABLES, GUEST_TABLES, top + 0x1000, top + 0x1000, OFFSET, VECTOR_BASE));
    assert!(!can_boot(&cpu, TABLES, GUEST_TABLES, u64::MAX, u64::MAX, OFFSET, VECTOR_BASE));
}

#[test]
fn map_address_range_maps_page_by_page() {
    let mut tree = PageTableTree::new(TABLES);
    map_address_range(&mut tree, 0x4008_0123, 0x4008_3fff, 0x5000_0456);
    assert_eq!(
        valid(&tree.third.entries),
        vec![(0x80, 0x5000_0723), (0x81, 0x5000_1723), (0x82, 0x5000_2723)]
    );
    assert_eq!(valid(&tree.zeroeth.entries), vec![(0, 0x8000_0000_4020_1003)]);
    assert_eq!(valid(&tree.first.entries), vec![(1, 0x8000_0000_4020_2003)]);
    assert_eq!(valid(&tree.second.entries), vec![(0, 0x8000_0000_4020_3003)]);

    // nothing lies between an address and itself, or a lower one
    let mut empty = PageTableTree::new(TABLES);
    map_address_range(&mut empty, 0x4008_0000, 0x4008_0fff, 0x4008_0000);
    map_address_range(&mut empty, 0x4008_0000, 0x4000_0000, 0x4008_0000);
    assert!(valid(&empty.third.entries).is_empty());
    assert!(valid(&empty.zeroeth.entries).is_empty());
}

#[test]
fn setup_boot_pagetables_maps_the_image_onto_itself() {
    let mut cpu = Cpu::new(at_el2());
    let mut tree = PageTableTree::new(TABLES);
    setup_boot_pagetables(&mut cpu, &mut tree, 0x4000_0000, 0x4020_0000, OFFSET);
    let third = valid(&tree.third.entries);
    assert_eq!(third.len(), 512);
    for (index, descriptor) in third {
        assert_eq!(descriptor, (0x4000_0000 + index as u64 * 0x1000) | 0x723);
    }
    assert_eq!(cpu.trace, vec![Op::Msr(SysReg::MAIR_EL2, 0xff)]);
    assert_eq!(cpu.regs.mair_el2, 0xff);
}

#[test]
fn each_step_issues_its_operations() {
    let mut cpu = Cpu::new(at_el2());
    disable_interrupts(&mut cpu);
    assert_eq!(cpu.trace, vec![Op::DaifSet(0xf)]);

    let mut cpu = Cpu::new(at_el2());
    disable_el2_host(&mut cpu);
    assert_eq!(cpu.trace, vec![Op::Msr(SysReg::HCR_EL2, 0x2)]);
    assert_eq!(cpu.regs.hcr_el2, 0x2);

    let mut cpu = Cpu::new(at_el2());
    enable_virt(&mut cpu);
    assert_eq!(cpu.trace, vec![Op::Msr(SysReg::HCR_EL2, 0x4_0000_0003)]);

    let mut cpu = Cpu::new(at_el2());
    trap_lower_el_into_el2(&mut cpu);
    assert_eq!(cpu.trace, vec![Op::DaifSet(0), Op::Msr(SysReg::HCR_EL2, 0x4_8000_003a)]);
    assert_eq!(cpu.regs.hcr_el2, 0x4_8000_003a);

    let mut cpu = Cpu::new(at_el2());
    flush_hypervisor_tlb(&mut cpu);
    assert_eq!(cpu.trace, vec![Op::TlbiAlle2, Op::Dsb(Shareable::Non)]);

    let mut cpu = Cpu::new(at_el2());
    switch_ttbr(&mut cpu, TABLES);
    assert_eq!(cpu.trace, vec![Op::Msr(SysReg::TTBR0_EL2, TABLES), Op::Isb]);
    assert_eq!(cpu.regs.ttbr0_el2, TABLES);

    let mut cpu = Cpu::new(at_el2());
    switch_vttbr(&mut cpu, GUEST_TABLES);
    assert_eq!(cpu.trace, vec![Op::Msr(SysReg::VTTBR_EL2, GUEST_TABLES), Op::Isb]);

    let mut cpu = Cpu::new(at_el2());
    init_sctlr(&mut cpu);
    assert_eq!(cpu.trace, vec![Op::Msr(SysReg::SCTLR_EL2, 0x30c5_183c), Op::Isb]);
    enable_mmu(&mut cpu);
    assert_eq!(
        cpu.trace[2..],
        [Op::Dsb(Shareable::FullSystem), Op::Msr(SysReg::SCTLR_EL2, 0x30c5_183d), Op::Isb]
    );
    assert_eq!(cpu.regs.sctlr_el2, 0x30c5_183d);

    let mut cpu = Cpu::new(at_el2());
    init_el2_interrupts(&mut cpu, VECTOR_BASE);
    init_el1_interrupts(&mut cpu, VECTOR_BASE + 0x800);
    assert_eq!(
        cpu.trace,
        vec![
            Op::Msr(SysReg::VBAR_EL2, VECTOR_BASE),
            Op::Isb,
            Op::Msr(SysReg::VBAR_EL1, VECTOR_BASE + 0x800),
            Op::Isb,
        ]
    );

    let mut cpu = Cpu::new(at_el2());
    data_barrier(&mut cpu, Shareable::Inner);
    data_barrier(&mut cpu, Shareable::Outer);
    isb(&mut cpu);
    assert_eq!(cpu.trace, vec![Op::Dsb(Shareable::Inner), Op::Dsb(Shareable::Outer), Op::Isb]);
    assert_eq!(cpu.regs, at_el2());
}

#[test]
fn tcr_takes_the_physical_address_size_from_the_id_register() {
    for (mmfr0, tcr) in [
        (0x0u64, 0x8080_3510u64),
        (0x1, 0x8081_3510),
        (0x1122, 0x8082_3510),
        (0x5, 0x8085_3510),
        (0xfff6, 0x8086_3510),
    ] {
        let mut cpu = Cpu::new(Registers { id_aa64mmfr0_el1: mmfr0, ..at_el2() });
        init_tcr(&mut cpu);
        assert_eq!(cpu.trace, vec![Op::Msr(SysReg::TCR_EL2, tcr)]);
        assert_eq!(cpu.regs.tcr_el2, tcr);
        // T0SZ = 64 - 48
        assert_eq!(tcr & 0x3f, 16);
    }
}

#[test]
fn guest_is_entered_at_el1h_with_interrupts_masked() {
    assert_eq!(init_guest_cpsr(), 0x1c5);

    let mut cpu = Cpu::new(at_el2());
    let guest = load_guest(&mut cpu, GUEST_TABLES);
    assert_eq!(
        cpu.trace,
        vec![
            Op::Msr(SysReg::VTCR_EL2, 0x8002_3558),
            Op::Msr(SysReg::VTTBR_EL2, GUEST_TABLES),
            Op::Isb,
            Op::Msr(SysReg::SCTLR_EL1, 0),
            Op::DaifSet(0x2),
            Op::Msr(SysReg::ELR_EL2, 0x4040_0000),
            Op::Msr(SysReg::SPSR_EL2, 0x1c5),
            Op::Isb,
            Op::TlbiAlle2,
            Op::Dsb(Shareable::Non),
            Op::Eret,
        ]
    );
    assert_eq!(cpu.regs.sctlr_el1, 0);
    assert_eq!(cpu.regs.vttbr_el2, guest.zeroeth.base);
    assert_eq!(valid(&guest.zeroeth.entries), vec![(1, 0x4020_66e3)]);
    assert_eq!(valid(&guest.first.entries), vec![(2, 0x4000_04c1)]);
}
