use hypervisor::aarch64::{Cpu, Op, Registers, SysReg};
use hypervisor::esr::{
    esr, esr_elx_ec, exception_class, inst_fault_status, print_exception_syndrome,
    print_inst_abort_current, ExceptionLevel,
};
use hypervisor::irq::{irq_handler, print_current_el, print_elr_el2, print_spsr_el2, spsr_mode};
use hypervisor::uart::{uart_init, Uart};
use hypervisor::vm::{get_phys_addr_range, init_vtcr, show_vtcr_el2, VTCR_EL2};

const UART_VIRT: u64 = 0x4010_1000;

fn trapped(esr_el2: u64, spsr_el2: u64, elr_el2: u64) -> Registers {
    Registers {
        current_el: 2 << 2,
        id_aa64mmfr0_el1: 0x1122,
        hcr_el2: 0x8000_003b,
        tcr_el2: 0x8082_3510,
        sctlr_el2: 0x30c5_183d,
        sctlr_el1: 0,
        mair_el2: 0xff,
        ttbr0_el2: 0x4020_0000,
        vttbr_el2: 0x4020_4000,
        vtcr_el2: 0x8002_3558,
        vbar_el2: 0x4008_0000,
        vbar_el1: 0x4008_0000,
        elr_el2,
        spsr_el2,
        esr_el2,
    }
}

fn sent(cpu: &Cpu) -> String {
    let mut text = String::new();
    for op in cpu.trace.iter() {
        match op {
            Op::Store(address, value) => {
                assert_eq!(*address, UART_VIRT);
                assert!(*value < 0x80);
                text.push(*value as u8 as char);
            }
            other => panic!("not a store: {:?}", other),
        }
    }
    text
}

#[test]
fn exception_class_is_bits_31_to_26() {
    assert_eq!(esr_elx_ec(0), 0);
    assert_eq!(esr_elx_ec(0x8400_0004), 0x21);
    assert_eq!(esr_elx_ec(0x9200_0046), 0x24);
    assert_eq!(esr_elx_ec(0xfc00_0000), 0x3f);
    assert_eq!(esr_elx_ec(0x03ff_ffff), 0);
    assert_eq!(esr_elx_ec(0xffff_ffff_03ff_ffff), 0);
    assert_eq!(esr_elx_ec(u64::MAX), 0x3f);
}

#[test]
fn esr_reads_the_syndrome_of_el2() {
    let cpu = Cpu::new(trapped(0x8400_0004, 0x3c9, 0));
    assert_eq!(esr(&cpu, ExceptionLevel::EL2), 0x8400_0004);
    assert_eq!(cpu.mrs(SysReg::ESR_EL2), 0x8400_0004);
    assert!(cpu.trace.is_empty());
}

#[test]
fn fault_status_names_every_code() {
    let named = [
        (0b000000u64, "Address Size Fault, level 0 or TTBR"),
        (0b000001, "Address Size Fault, level 1"),
        (0b000010, "Address Size Fault, level 2"),
        (0b000011, "Address Size Fault, level 3"),
        (0b000100, "Translation fault, level 0"),
        (0b000101, "Translation fault, level 1"),
        (0b000110, "Translation fault, level 2"),
        (0b000111, "Translation fault, level 3"),
        (0b001001, "Access flag fault, level 1"),
        (0b001010, "Access flag fault, level 2"),
        (0b001011, "Access flag fault, level 3"),
        (0b001101, "Permission fault, level 1"),
        (0b001110, "Permission fault, level 2"),
        (0b001111, "Permission fault, level 3"),
        (0b010000, "Synchronous External abort, not on translation table walk"),
        (0b010100, "Synchronous External abort, on translation table walk, level 0"),
        (0b010101, "Synchronous External abort, on translation table walk, level 1"),
        (0b010110, "Synchronous External abort, on translation table walk, level 2"),
        (0b010111, "Synchronous External abort, on translation table walk, level 3"),
        (
            0b011000,
            "Synchronous parity or ECC error on memory access, not on translation table walk",
        ),
        (
            0b011100,
            "Synchronous parity or ECC error on memory access on translation table walk, level 0",
        ),
        (
            0b011101,
            "Synchronous parity or ECC error on memory access on translation table walk, level 1",
        ),
        (
            0b011110,
            "Synchronous parity or ECC error on memory access on translation table walk, level 2",
        ),
        (
            0b011111,
            "Synchronous parity or ECC error on memory access on translation table walk, level 3",
        ),
        (0b110000, "TLB conflict abort"),
    ];
    for code in 0..64u64 {
        let expected = named
            .iter()
            .find(|(named_code, _)| *named_code == code)
            .map(|(_, name)| *name)
            .unwrap_or("Other");
        assert_eq!(inst_fault_status(code), expected);
    }
    assert_eq!(inst_fault_status(64), "Other");
}

#[test]
fn exception_class_names_every_class() {
    let named = [
        (0x01u64, "ESR_ELx_EC_WFx"),
        (0x03, "ESR_ELx_EC_CP15_32"),
        (0x04, "ESR_ELx_EC_CP15_64"),
        (0x05, "ESR_ELx_EC_CP14_MR"),
        (0x06, "ESR_ELx_EC_CP14_LS"),
        (0x07, "ESR_ELx_EC_FP_ASIMD"),
        (0x08, "ESR_ELx_EC_CP10_ID"),
        (0x09, "ESR_ELx_EC_PAC"),
        (0x0c, "ESR_ELx_EC_CP14_64"),
        (0x0e, "ESR_ELx_EC_ILL"),
        (0x11, "ESR_ELx_EC_SVC32"),
        (0x12, "ESR_ELx_EC_HVC32"),
        (0x13, "ESR_ELx_EC_SMC32"),
        (0x15, "ESR_ELx_EC_SVC64"),
        (0x16, "ESR_ELx_EC_HVC64"),
        (0x17, "ESR_ELx_EC_SMC64"),
        (0x18, "ESR_ELx_EC_SYS64"),
        (0x19, "ESR_ELx_EC_SVE"),
        (0x1f, "ESR_ELx_EC_IMP_DEF"),
        (0x20, "Instruction Abort Lower ELx"),
        (0x22, "ESR_ELx_EC_PC_ALIGN"),
        (0x24, "ESR_ELx_EC_DABT_LOW"),
        (0x25, "ESR_ELx_EC_DABT_CUR"),
        (0x26, "ESR_ELx_EC_SP_ALIGN"),
        (0x28, "ESR_ELx_EC_FP_EXC32"),
        (0x2c, "ESR_ELx_EC_FP_EXC64"),
        (0x2f, "ESR_ELx_EC_SERROR"),
        (0x30, "ESR_ELx_EC_BREAKPT_LOW"),
        (0x31, "ESR_ELx_EC_BREAKPT_CUR"),
        (0x32, "ESR_ELx_EC_SOFTSTP_LOW"),
        (0x33, "ESR_ELx_EC_SOFTSTP_CUR"),
        (0x34, "ESR_ELx_EC_WATCHPT_LOW"),
        (0x35, "ESR_ELx_EC_WATCHPT_CUR"),
        (0x38, "ESR_ELx_EC_BKPT32"),
        (0x3a, "ESR_ELx_EC_VECTOR32"),
        (0x3c, "ESR_ELx_EC_BRK64"),
        (0x3f, "ESR_ELx_EC_MAX"),
    ];
    for class in 0..64u64 {
        let expected = named
            .iter()
            .find(|(named_class, _)| *named_class == class)
            .map(|(_, name)| *name)
            .unwrap_or("UNKNOWN");
        assert_eq!(exception_class(class), expected);
    }
}

#[test]
fn instruction_abort_is_reported_with_its_fault_status() {
    let uart = uart_init(UART_VIRT);
    let mut cpu = Cpu::new(trapped(0, 0, 0));
    print_inst_abort_current(&mut cpu, &uart, 0x8400_0004);
    assert_eq!(
        sent(&cpu),
        "Instruction Abort Current ELx\nInstruction Fault Status Code: Translation fault, level 0\n"
    );

    // only the low six bits count
    let mut cpu = Cpu::new(trapped(0, 0, 0));
    print_inst_abort_current(&mut cpu, &uart, 0xffff_ffc0 | 0b001111);
    assert_eq!(
        sent(&cpu),
        "Instruction Abort Current ELx\nInstruction Fault Status Code: Permission fault, level 3\n"
    );
}

#[test]
fn syndrome_of_a_jump_to_zero_is_a_translation_fault() {
    let uart = uart_init(UART_VIRT);
    // instruction abort from the current exception level, 32-bit
    // instruction, translation fault at level 0
    let mut cpu = Cpu::new(trapped((0x21 << 26) | (1 << 25) | 0b000100, 0x3c9, 0));
    print_exception_syndrome(&mut cpu, &uart);
    let text = sent(&cpu);
    let lines: Vec<&str> = text.lines().collect();
    assert_eq!(
        lines,
        vec![
            "Instruction Abort Current ELx",
            "Instruction Fault Status Code: Translation fault, level 0",
        ]
    );
    assert!(text.ends_with('\n'));
}

#[test]
fn syndrome_of_a_guest_store_outside_its_memory_is_a_data_abort() {
    let uart = uart_init(UART_VIRT);
    // data abort from a lower exception level, write, translation fault
    let mut cpu = Cpu::new(trapped((0x24 << 26) | (1 << 25) | (1 << 6) | 0b000101, 0x3c5, 0));
    print_exception_syndrome(&mut cpu, &uart);
    assert_eq!(sent(&cpu), "ESR_ELx_EC_DABT_LOW");

    let mut cpu = Cpu::new(trapped(0x20 << 26, 0x3c5, 0));
    print_exception_syndrome(&mut cpu, &uart);
    assert_eq!(sent(&cpu), "Instruction Abort Lower ELx");

    let mut cpu = Cpu::new(trapped(0, 0x3c5, 0));
    print_exception_syndrome(&mut cpu, &uart);
    assert_eq!(sent(&cpu), "UNKNOWN");
}

#[test]
fn saved_program_state_is_printed_in_binary_and_by_name() {
    let uart = uart_init(UART_VIRT);
    for (spsr, bits, name) in [
        (0x3c0u64, "0000", "EL0t"),
        (0x3c4, "0100", "EL1t"),
        (0x1c5, "0101", "EL1h"),
        (0x3c8, "1000", "EL2t"),
        (0x3c9, "1001", "EL2h"),
        (0x3cd, "1101", "Unknown"),
        (0xf, "1111", "Unknown"),
        (0xffff_ffff_ffff_fff2, "0010", "Unknown"),
    ] {
        let mut cpu = Cpu::new(trapped(0, spsr, 0));
        print_spsr_el2(&mut cpu, &uart);
        assert_eq!(
            sent(&cpu),
            format!("EL from SPSR.M[4:0] : 0b{}\nEL from SPSR.M[4:0] : {}\n", bits, name)
        );
        assert_eq!(spsr_mode(spsr & 0xf), name);
    }
}

#[test]
fn current_exception_level_is_printed_by_name() {
    let uart = uart_init(UART_VIRT);
    for (el, name) in [(0u64, "EL0"), (1, "EL1"), (2, "EL2"), (3, "EL3")] {
        let mut cpu = Cpu::new(Registers { current_el: el << 2, ..trapped(0, 0, 0) });
        print_current_el(&mut cpu, &uart);
        assert_eq!(sent(&cpu), format!("Current EL: {}\n", name));
    }
}

#[test]
fn return_address_is_printed_in_hex() {
    let uart = uart_init(UART_VIRT);
    let mut cpu = Cpu::new(trapped(0, 0, 0x4040_0000));
    print_elr_el2(&mut cpu, &uart);
    assert_eq!(sent(&cpu), "ELR_EL2: 0x0000000040400000\n");
}

#[test]
fn handler_reports_an_instruction_abort_after_a_jump_to_zero() {
    let uart = uart_init(UART_VIRT);
    let regs = trapped((0x21 << 26) | (1 << 25) | 0b000100, 0x3c9, 0);
    let mut cpu = Cpu::new(regs);
    irq_handler(&mut cpu, &uart);
    assert_eq!(
        sent(&cpu),
        "Current EL: EL2\n\
         EL from SPSR.M[4:0] : 0b1001\n\
         EL from SPSR.M[4:0] : EL2h\n\
         ELR_EL2: 0x0000000000000000\n\
         Instruction Abort Current ELx\n\
         Instruction Fault Status Code: Translation fault, level 0\n"
    );
    assert_eq!(cpu.regs, regs);
}

#[test]
fn handler_reports_a_data_abort_of_the_guest() {
    let uart = uart_init(UART_VIRT);
    let regs = trapped((0x24 << 26) | (1 << 25) | (1 << 6) | 0b000101, 0x3c5, 0x4040_1234);
    let mut cpu = Cpu::new(regs);
    irq_handler(&mut cpu, &uart);
    assert_eq!(
        sent(&cpu),
        "Current EL: EL2\n\
         EL from SPSR.M[4:0] : 0b0101\n\
         EL from SPSR.M[4:0] : EL1h\n\
         ELR_EL2: 0x0000000040401234\n\
         ESR_ELx_EC_DABT_LOW"
    );
    assert_eq!(cpu.regs, regs);
}

#[test]
fn handler_is_silent_without_a_uart() {
    let uart = Uart { virt: 0 };
    let regs = trapped((0x21 << 26) | 0b000100, 0x3c9, 0);
    let mut cpu = Cpu::new(regs);
    irq_handler(&mut cpu, &uart);
    assert!(cpu.trace.is_empty());
    assert_eq!(cpu.regs, regs);
}

#[test]
fn physical_address_range_is_the_low_nibble_of_the_id_register() {
    let cpu = Cpu::new(trapped(0, 0, 0));
    assert_eq!(get_phys_addr_range(&cpu), 2);
    let cpu = Cpu::new(Registers { id_aa64mmfr0_el1: 0xffff_fff5, ..trapped(0, 0, 0) });
    assert_eq!(get_phys_addr_range(&cpu), 5);
}

#[test]
fn vtcr_is_committed_for_the_cortex_a53() {
    let mut cpu = Cpu::new(Registers { vtcr_el2: 0, ..trapped(0, 0, 0) });
    init_vtcr(&mut cpu);
    assert_eq!(cpu.trace, vec![Op::Msr(SysReg::VTCR_EL2, 0x8002_3558)]);
    let vtcr = VTCR_EL2::get(&cpu);
    assert_eq!(vtcr, 0x8002_3558);
    // RES1
    assert_eq!(vtcr >> 31, 1);
    // PS = 40 bits
    assert_eq!((vtcr >> 16) & 0x7, 2);
    // TG0 = 4 KiB
    assert_eq!((vtcr >> 14) & 0x3, 0);
    // SH0 = inner shareable
    assert_eq!((vtcr >> 12) & 0x3, 3);
    // SL0 = start at level 1
    assert_eq!((vtcr >> 6) & 0x3, 1);
    // T0SZ = 64 - 40
    assert_eq!(vtcr & 0x3f, 24);
    assert_eq!(VTCR_EL2::t0sz(&cpu), 24);
}

#[test]
fn vtcr_fields_are_set_one_by_one() {
    let mut cpu = Cpu::new(Registers { vtcr_el2: 0, ..trapped(0, 0, 0) });
    VTCR_EL2::set_sh0(&mut cpu, 0x3);
    assert_eq!(VTCR_EL2::get(&cpu), 0x3000);
    VTCR_EL2::set_t0sz(&mut cpu, 24);
    assert_eq!(VTCR_EL2::get(&cpu), 0x3018);
    VTCR_EL2::set_tg0(&mut cpu, 0);
    assert_eq!(VTCR_EL2::get(&cpu), 0x3018);
    VTCR_EL2::set_sl0(&mut cpu, 1);
    assert_eq!(VTCR_EL2::get(&cpu), 0x3058);
    VTCR_EL2::set_ps(&mut cpu, 2);
    assert_eq!(VTCR_EL2::get(&cpu), 0x2_3058);
    VTCR_EL2::reserved(&mut cpu);
    assert_eq!(VTCR_EL2::get(&cpu), 0x8002_3058);
    assert_eq!(cpu.trace.len(), 6);
    assert_eq!(cpu.trace[5], Op::Msr(SysReg::VTCR_EL2, 0x8002_3058));

    // a field is replaced, and cut to its width
    VTCR_EL2::set_sh0(&mut cpu, 0x5);
    assert_eq!(VTCR_EL2::get(&cpu), 0x8002_1058);
    VTCR_EL2::set_tg0(&mut cpu, 0x7);
    assert_eq!(VTCR_EL2::get(&cpu), 0x8002_d058);
    VTCR_EL2::set_sl0(&mut cpu, 0x6);
    assert_eq!(VTCR_EL2::get(&cpu), 0x8002_d098);
    VTCR_EL2::set_t0sz(&mut cpu, 0x3f);
    assert_eq!(VTCR_EL2::get(&cpu), 0x8002_d09f);
    assert_eq!(VTCR_EL2::t0sz(&cpu), 0x1f);
    // the physical address size is only ever added to
    VTCR_EL2::set_ps(&mut cpu, 4);
    assert_eq!(VTCR_EL2::get(&cpu), 0x8006_d09f);
    VTCR_EL2::set(&mut cpu, 0);
    assert_eq!(VTCR_EL2::get(&cpu), 0);
}

#[test]
fn vtcr_is_shown_in_hex() {
    let uart = uart_init(UART_VIRT);
    let mut cpu = Cpu::new(trapped(0, 0, 0));
    show_vtcr_el2(&mut cpu, &uart);
    assert_eq!(
        sent(&cpu),
        "VTCR_EL2: 0x0000000080023558\nVTCR_EL2.T0SZ: 0x0000000000000018\n"
    );
}
