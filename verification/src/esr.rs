//! The exception syndrome register: its exception class, and the fault
//! status of an instruction abort, in words.
#![allow(non_upper_case_globals)]

use vstd::prelude::*;
use vstd::string::StringSliceAdditionalSpecFns;
use crate::aarch64::{Cpu, SysReg};
use crate::uart::{Uart, uart_stores, uart_write, lemma_uart_stores_concat};

verus! {

pub const ESR_ELx_EC_UNKNOWN: u64 = 0x00;

pub const ESR_ELx_EC_WFx: u64 = 0x01;

/* Unallocated EC: 0x02 */

pub const ESR_ELx_EC_CP15_32: u64 = 0x03;

pub const ESR_ELx_EC_CP15_64: u64 = 0x04;

pub const ESR_ELx_EC_CP14_MR: u64 = 0x05;

pub const ESR_ELx_EC_CP14_LS: u64 = 0x06;

pub const ESR_ELx_EC_FP_ASIMD: u64 = 0x07;

/// EL2 only.
pub const ESR_ELx_EC_CP10_ID: u64 = 0x08;

/// EL2 and above.
pub const ESR_ELx_EC_PAC: u64 = 0x09;

/* Unallocated EC: 0x0A - 0x0B */

pub const ESR_ELx_EC_CP14_64: u64 = 0x0C;

/* Unallocated EC: 0x0d */

pub const ESR_ELx_EC_ILL: u64 = 0x0E;

/* Unallocated EC: 0x0F - 0x10 */

pub const ESR_ELx_EC_SVC32: u64 = 0x11;

/// EL2 only.
pub const ESR_ELx_EC_HVC32: u64 = 0x12;

/// EL2 and above.
pub const ESR_ELx_EC_SMC32: u64 = 0x13;

/* Unallocated EC: 0x14 */

pub const ESR_ELx_EC_SVC64: u64 = 0x15;

/// EL2 and above.
pub const ESR_ELx_EC_HVC64: u64 = 0x16;

/// EL2 and above.
pub const ESR_ELx_EC_SMC64: u64 = 0x17;

pub const ESR_ELx_EC_SYS64: u64 = 0x18;

pub const ESR_ELx_EC_SVE: u64 = 0x19;

/* Unallocated EC: 0x1A - 0x1E */

/// EL3 only.
pub const ESR_ELx_EC_IMP_DEF: u64 = 0x1f;

pub const ESR_ELx_EC_IABT_LOW: u64 = 0x20;

pub const ESR_ELx_EC_IABT_CUR: u64 = 0x21;

pub const ESR_ELx_EC_PC_ALIGN: u64 = 0x22;

/* Unallocated EC: 0x23 */

pub const ESR_ELx_EC_DABT_LOW: u64 = 0x24;

pub const ESR_ELx_EC_DABT_CUR: u64 = 0x25;

pub const ESR_ELx_EC_SP_ALIGN: u64 = 0x26;

/* Unallocated EC: 0x27 */

pub const ESR_ELx_EC_FP_EXC32: u64 = 0x28;

/* Unallocated EC: 0x29 - 0x2B */

pub const ESR_ELx_EC_FP_EXC64: u64 = 0x2C;

/* Unallocated EC: 0x2D - 0x2E */

pub const ESR_ELx_EC_SERROR: u64 = 0x2F;

pub const ESR_ELx_EC_BREAKPT_LOW: u64 = 0x30;

pub const ESR_ELx_EC_BREAKPT_CUR: u64 = 0x31;

pub const ESR_ELx_EC_SOFTSTP_LOW: u64 = 0x32;

pub const ESR_ELx_EC_SOFTSTP_CUR: u64 = 0x33;

pub const ESR_ELx_EC_WATCHPT_LOW: u64 = 0x34;

pub const ESR_ELx_EC_WATCHPT_CUR: u64 = 0x35;

/* Unallocated EC: 0x36 - 0x37 */

pub const ESR_ELx_EC_BKPT32: u64 = 0x38;

/* Unallocated EC: 0x39 */

/// EL2 only.
pub const ESR_ELx_EC_VECTOR32: u64 = 0x3A;

/* Unallocated EC: 0x3B */

pub const ESR_ELx_EC_BRK64: u64 = 0x3C;

/* Unallocated EC: 0x3D - 0x3F */

pub const ESR_ELx_EC_MAX: u64 = 0x3F;

pub const ESR_ELx_EC_SHIFT: u64 = 26;

pub const ESR_ELx_EC_MASK: u64 = 0xfc00_0000;

/// The instruction fault status code: the low six bits of the syndrome.
pub const IFSC_MASK: u64 = 0x3f;

pub open spec fn spec_esr_elx_ec(esr: u64) -> u64 {
    (esr >> 26) & 0x3f
}

/// The exception class of a syndrome, `ESR[31:26]`.
#[verifier::when_used_as_spec(spec_esr_elx_ec)]
pub fn esr_elx_ec(esr: u64) -> (ec: u64)
    ensures
        ec == spec_esr_elx_ec(esr),
        ec <= ESR_ELx_EC_MAX,
{
    let ec: u64 = (esr & ESR_ELx_EC_MASK) >> ESR_ELx_EC_SHIFT;
    assert(ec == (esr >> 26) & 0x3f && ec <= 0x3f) by (bit_vector)
        requires
            ec == (esr & 0xfc00_0000u64) >> 26u64,
    ;
    ec
}

/// The exception level whose syndrome register is read.
pub enum ExceptionLevel {
    EL2,
}

/// Reads the syndrome register of the exception level `el`.
pub fn esr(cpu: &Cpu, el: ExceptionLevel) -> (esr: u64)
    ensures
        esr == cpu@.regs.esr_el2,
{
    match el {
        ExceptionLevel::EL2 => cpu.mrs(SysReg::ESR_EL2),
    }
}

/// The fault status of an instruction abort in words, by its code.
pub open spec fn spec_inst_fault_status(ifsc: u64) -> Seq<u8> {
    match ifsc {
        0b000000 => "Address Size Fault, level 0 or TTBR".spec_bytes(),
        0b000001 => "Address Size Fault, level 1".spec_bytes(),
        0b000010 => "Address Size Fault, level 2".spec_bytes(),
        0b000011 => "Address Size Fault, level 3".spec_bytes(),
        0b000100 => "Translation fault, level 0".spec_bytes(),
        0b000101 => "Translation fault, level 1".spec_bytes(),
        0b000110 => "Translation fault, level 2".spec_bytes(),
        0b000111 => "Translation fault, level 3".spec_bytes(),
        0b001001 => "Access flag fault, level 1".spec_bytes(),
        0b001010 => "Access flag fault, level 2".spec_bytes(),
        0b001011 => "Access flag fault, level 3".spec_bytes(),
        0b001101 => "Permission fault, level 1".spec_bytes(),
        0b001110 => "Permission fault, level 2".spec_bytes(),
        0b001111 => "Permission fault, level 3".spec_bytes(),
        0b010000 => "Synchronous External abort, not on translation table walk".spec_bytes(),
        0b010100 => "Synchronous External abort, on translation table walk, level 0".spec_bytes(),
        0b010101 => "Synchronous External abort, on translation table walk, level 1".spec_bytes(),
        0b010110 => "Synchronous External abort, on translation table walk, level 2".spec_bytes(),
        0b010111 => "Synchronous External abort, on translation table walk, level 3".spec_bytes(),
        0b011000 => "Synchronous parity or ECC error on memory access, not on translation table walk".spec_bytes(),
        0b011100 => "Synchronous parity or ECC error on memory access on translation table walk, level 0".spec_bytes(),
        0b011101 => "Synchronous parity or ECC error on memory access on translation table walk, level 1".spec_bytes(),
        0b011110 => "Synchronous parity or ECC error on memory access on translation table walk, level 2".spec_bytes(),
        0b011111 => "Synchronous parity or ECC error on memory access on translation table walk, level 3".spec_bytes(),
        0b110000 => "TLB conflict abort".spec_bytes(),
        _ => "Other".spec_bytes(),
    }
}

/// The fault status of an instruction abort in words: address size,
/// translation, access flag and permission faults by level, synchronous
/// external aborts and parity or ECC errors on or off a table walk, and
/// the TLB conflict abort. Every other code is `Other`.
pub fn inst_fault_status(ifsc: u64) -> (text: &'static str)
    ensures
        text.spec_bytes() == spec_inst_fault_status(ifsc),
{
    match ifsc {
        0b000000 => "Address Size Fault, level 0 or TTBR",
        0b000001 => "Address Size Fault, level 1",
        0b000010 => "Address Size Fault, level 2",
        0b000011 => "Address Size Fault, level 3",
        0b000100 => "Translation fault, level 0",
        0b000101 => "Translation fault, level 1",
        0b000110 => "Translation fault, level 2",
        0b000111 => "Translation fault, level 3",
        0b001001 => "Access flag fault, level 1",
        0b001010 => "Access flag fault, level 2",
        0b001011 => "Access flag fault, level 3",
        0b001101 => "Permission fault, level 1",
        0b001110 => "Permission fault, level 2",
        0b001111 => "Permission fault, level 3",
        0b010000 => "Synchronous External abort, not on translation table walk",
        0b010100 => "Synchronous External abort, on translation table walk, level 0",
        0b010101 => "Synchronous External abort, on translation table walk, level 1",
        0b010110 => "Synchronous External abort, on translation table walk, level 2",
        0b010111 => "Synchronous External abort, on translation table walk, level 3",
        0b011000 => "Synchronous parity or ECC error on memory access, not on translation table walk",
        0b011100 => "Synchronous parity or ECC error on memory access on translation table walk, level 0",
        0b011101 => "Synchronous parity or ECC error on memory access on translation table walk, level 1",
        0b011110 => "Synchronous parity or ECC error on memory access on translation table walk, level 2",
        0b011111 => "Synchronous parity or ECC error on memory access on translation table walk, level 3",
        0b110000 => "TLB conflict abort",
        _ => "Other",
    }
}

/// The two lines that report an instruction abort taken from the current
/// exception level.
pub open spec fn inst_abort_current_text(esr_el2: u64) -> Seq<u8> {
    "Instruction Abort Current ELx\n".spec_bytes() + "Instruction Fault Status Code: ".spec_bytes()
        + spec_inst_fault_status(esr_el2 & IFSC_MASK) + "\n".spec_bytes()
}

/// Reports an instruction abort taken from the current exception level:
/// one line that names it, and one with the fault status in words.
pub fn print_inst_abort_current(cpu: &mut Cpu, uart: &Uart, esr_el2: u64)
    ensures
        final(cpu)@.regs == old(cpu)@.regs,
        final(cpu)@.trace == old(cpu)@.trace + uart_stores(
            uart.virt,
            inst_abort_current_text(esr_el2),
        ),
{
    let ghost a = "Instruction Abort Current ELx\n".spec_bytes();
    let ghost b = a + "Instruction Fault Status Code: ".spec_bytes();
    let ghost c = b + spec_inst_fault_status(esr_el2 & IFSC_MASK);

    uart_write(cpu, uart, "Instruction Abort Current ELx\n");

    let ifsc = esr_el2 & IFSC_MASK;
    let string = inst_fault_status(ifsc);

    uart_write(cpu, uart, "Instruction Fault Status Code: ");
    proof {
        lemma_uart_stores_concat(uart.virt, a, "Instruction Fault Status Code: ".spec_bytes());
    }
    uart_write(cpu, uart, string);
    proof {
        lemma_uart_stores_concat(uart.virt, b, string.spec_bytes());
    }
    uart_write(cpu, uart, "\n");
    proof {
        lemma_uart_stores_concat(uart.virt, c, "\n".spec_bytes());
    }
}

/// The name of an exception class, by its code.
pub open spec fn spec_exception_class(ec: u64) -> Seq<u8> {
    match ec {
        0x01 => "ESR_ELx_EC_WFx".spec_bytes(),
        0x03 => "ESR_ELx_EC_CP15_32".spec_bytes(),
        0x04 => "ESR_ELx_EC_CP15_64".spec_bytes(),
        0x05 => "ESR_ELx_EC_CP14_MR".spec_bytes(),
        0x06 => "ESR_ELx_EC_CP14_LS".spec_bytes(),
        0x07 => "ESR_ELx_EC_FP_ASIMD".spec_bytes(),
        0x08 => "ESR_ELx_EC_CP10_ID".spec_bytes(),
        0x09 => "ESR_ELx_EC_PAC".spec_bytes(),
        0x0C => "ESR_ELx_EC_CP14_64".spec_bytes(),
        0x0E => "ESR_ELx_EC_ILL".spec_bytes(),
        0x11 => "ESR_ELx_EC_SVC32".spec_bytes(),
        0x12 => "ESR_ELx_EC_HVC32".spec_bytes(),
        0x13 => "ESR_ELx_EC_SMC32".spec_bytes(),
        0x15 => "ESR_ELx_EC_SVC64".spec_bytes(),
        0x16 => "ESR_ELx_EC_HVC64".spec_bytes(),
        0x17 => "ESR_ELx_EC_SMC64".spec_bytes(),
        0x18 => "ESR_ELx_EC_SYS64".spec_bytes(),
        0x19 => "ESR_ELx_EC_SVE".spec_bytes(),
        0x1f => "ESR_ELx_EC_IMP_DEF".spec_bytes(),
        0x20 => "Instruction Abort Lower ELx".spec_bytes(),
        0x22 => "ESR_ELx_EC_PC_ALIGN".spec_bytes(),
        0x24 => "ESR_ELx_EC_DABT_LOW".spec_bytes(),
        0x25 => "ESR_ELx_EC_DABT_CUR".spec_bytes(),
        0x26 => "ESR_ELx_EC_SP_ALIGN".spec_bytes(),
        0x28 => "ESR_ELx_EC_FP_EXC32".spec_bytes(),
        0x2C => "ESR_ELx_EC_FP_EXC64".spec_bytes(),
        0x2F => "ESR_ELx_EC_SERROR".spec_bytes(),
        0x30 => "ESR_ELx_EC_BREAKPT_LOW".spec_bytes(),
        0x31 => "ESR_ELx_EC_BREAKPT_CUR".spec_bytes(),
        0x32 => "ESR_ELx_EC_SOFTSTP_LOW".spec_bytes(),
        0x33 => "ESR_ELx_EC_SOFTSTP_CUR".spec_bytes(),
        0x34 => "ESR_ELx_EC_WATCHPT_LOW".spec_bytes(),
        0x35 => "ESR_ELx_EC_WATCHPT_CUR".spec_bytes(),
        0x38 => "ESR_ELx_EC_BKPT32".spec_bytes(),
        0x3A => "ESR_ELx_EC_VECTOR32".spec_bytes(),
        0x3C => "ESR_ELx_EC_BRK64".spec_bytes(),
        0x3F => "ESR_ELx_EC_MAX".spec_bytes(),
        _ => "UNKNOWN".spec_bytes(),
    }
}

/// The name of an exception class other than the instruction abort from
/// the current exception level, which is reported at length. A class
/// without a name is `UNKNOWN`.
pub fn exception_class(ec: u64) -> (text: &'static str)
    ensures
        text.spec_bytes() == spec_exception_class(ec),
{
    match ec {
        ESR_ELx_EC_WFx => "ESR_ELx_EC_WFx",
        ESR_ELx_EC_CP15_32 => "ESR_ELx_EC_CP15_32",
        ESR_ELx_EC_CP15_64 => "ESR_ELx_EC_CP15_64",
        ESR_ELx_EC_CP14_MR => "ESR_ELx_EC_CP14_MR",
        ESR_ELx_EC_CP14_LS => "ESR_ELx_EC_CP14_LS",
        ESR_ELx_EC_FP_ASIMD => "ESR_ELx_EC_FP_ASIMD",
        ESR_ELx_EC_CP10_ID => "ESR_ELx_EC_CP10_ID",
        ESR_ELx_EC_PAC => "ESR_ELx_EC_PAC",
        ESR_ELx_EC_CP14_64 => "ESR_ELx_EC_CP14_64",
        ESR_ELx_EC_ILL => "ESR_ELx_EC_ILL",
        ESR_ELx_EC_SVC32 => "ESR_ELx_EC_SVC32",
        ESR_ELx_EC_HVC32 => "ESR_ELx_EC_HVC32",
        ESR_ELx_EC_SMC32 => "ESR_ELx_EC_SMC32",
        ESR_ELx_EC_SVC64 => "ESR_ELx_EC_SVC64",
        ESR_ELx_EC_HVC64 => "ESR_ELx_EC_HVC64",
        ESR_ELx_EC_SMC64 => "ESR_ELx_EC_SMC64",
        ESR_ELx_EC_SYS64 => "ESR_ELx_EC_SYS64",
        ESR_ELx_EC_SVE => "ESR_ELx_EC_SVE",
        ESR_ELx_EC_IMP_DEF => "ESR_ELx_EC_IMP_DEF",
        ESR_ELx_EC_IABT_LOW => "Instruction Abort Lower ELx",
        ESR_ELx_EC_PC_ALIGN => "ESR_ELx_EC_PC_ALIGN",
        ESR_ELx_EC_DABT_LOW => "ESR_ELx_EC_DABT_LOW",
        ESR_ELx_EC_DABT_CUR => "ESR_ELx_EC_DABT_CUR",
        ESR_ELx_EC_SP_ALIGN => "ESR_ELx_EC_SP_ALIGN",
        ESR_ELx_EC_FP_EXC32 => "ESR_ELx_EC_FP_EXC32",
        ESR_ELx_EC_FP_EXC64 => "ESR_ELx_EC_FP_EXC64",
        ESR_ELx_EC_SERROR => "ESR_ELx_EC_SERROR",
        ESR_ELx_EC_BREAKPT_LOW => "ESR_ELx_EC_BREAKPT_LOW",
        ESR_ELx_EC_BREAKPT_CUR => "ESR_ELx_EC_BREAKPT_CUR",
        ESR_ELx_EC_SOFTSTP_LOW => "ESR_ELx_EC_SOFTSTP_LOW",
        ESR_ELx_EC_SOFTSTP_CUR => "ESR_ELx_EC_SOFTSTP_CUR",
        ESR_ELx_EC_WATCHPT_LOW => "ESR_ELx_EC_WATCHPT_LOW",
        ESR_ELx_EC_WATCHPT_CUR => "ESR_ELx_EC_WATCHPT_CUR",
        ESR_ELx_EC_BKPT32 => "ESR_ELx_EC_BKPT32",
        ESR_ELx_EC_VECTOR32 => "ESR_ELx_EC_VECTOR32",
        ESR_ELx_EC_BRK64 => "ESR_ELx_EC_BRK64",
        ESR_ELx_EC_MAX => "ESR_ELx_EC_MAX",
        _ => "UNKNOWN",
    }
}

/// What the handler prints for a syndrome: the report of an instruction
/// abort from the current exception level, or else the name of the
/// exception class.
pub open spec fn exception_syndrome_text(esr_el2: u64) -> Seq<u8> {
    if esr_elx_ec(esr_el2) == ESR_ELx_EC_IABT_CUR {
        inst_abort_current_text(esr_el2)
    } else {
        spec_exception_class(esr_elx_ec(esr_el2))
    }
}

/// Reads the syndrome of the exception taken to EL2 and prints what it
/// says.
pub fn print_exception_syndrome(cpu: &mut Cpu, uart: &Uart)
    ensures
        final(cpu)@.regs == old(cpu)@.regs,
        final(cpu)@.trace == old(cpu)@.trace + uart_stores(
            uart.virt,
            exception_syndrome_text(old(cpu)@.regs.esr_el2),
        ),
{
    let esr_el2 = esr(cpu, ExceptionLevel::EL2);
    let ec = esr_elx_ec(esr_el2);

    match ec {
        ESR_ELx_EC_IABT_CUR => print_inst_abort_current(cpu, uart, esr_el2),
        _ => uart_write(cpu, uart, exception_class(ec)),
    }
}

} // verus!
