//! The stage-2 translation control of the guest: `VTCR_EL2` and the
//! physical address range that the processor reports.
use vstd::prelude::*;
use vstd::string::StringSliceAdditionalSpecFns;
use crate::aarch64::{Cpu, Op, SysReg};
use crate::common::{hex_text, print_hex};
use crate::uart::{Uart, uart_stores, uart_write, lemma_uart_stores_concat};

verus! {

/// `ID_AA64MMFR0_EL1[3:0]`: the encoding of the physical address range
/// that the processor supports.
pub open spec fn pa_range(regs: crate::aarch64::Registers) -> u64 {
    regs.id_aa64mmfr0_el1 & 0xf
}

/// Reads the physical address range, `ID_AA64MMFR0_EL1.PARange`.
pub fn get_phys_addr_range(cpu: &Cpu) -> (range: u64)
    ensures
        range == pa_range(cpu@.regs),
{
    let mmfr0: u64 = cpu.mrs(SysReg::ID_AA64MMFR0_EL1);

    // ID_AA64MMFR0_EL1[3:0] is PARange
    mmfr0 & 0xf
}

/// The low five bits of `VTCR_EL2`, which `VTCR_EL2::t0sz` reads and
/// `VTCR_EL2::set_t0sz` writes.
pub const VTCR_EL2_T0SZ_MASK: u64 = 0b11111;

/// `VTCR_EL2.SH0`, bits [13:12].
pub const VTCR_EL2_SH0_MASK: u64 = 0x3000;

/// `VTCR_EL2.SL0`, bits [7:6].
pub const VTCR_EL2_SL0_MASK: u64 = 0xc0;

/// `VTCR_EL2.TG0`, bits [15:14].
pub const VTCR_EL2_TG0_MASK: u64 = 0xc000;

/// Bit 31 of `VTCR_EL2` reads as one.
pub const VTCR_EL2_RES1: u64 = 0x8000_0000;

/// The bits of `VTCR_EL2` that `VTCR_EL2::reserved` wants zero: [62:32],
/// [24:23] and 20.
pub const VTCR_EL2_RES0: u64 = 0x7fff_ffff_0190_0000;

/// The value of `VTCR_EL2` for the Cortex-A53: 40-bit physical addresses,
/// 4 KiB granule, inner shareable, write-back write-allocate table walks,
/// a walk that starts at level 1, and a 40-bit intermediate physical
/// address space.
pub const VTCR_EL2_CORTEX_A53: u64 = 0x8002_3558;

/// `reg` with the field that `mask` covers replaced by `val`, moved to the
/// field's place and cut to the field's width.
pub open spec fn with_field(reg: u64, val: u64, shift: u64, mask: u64) -> u64 {
    (reg & !mask) | ((val << shift) & mask)
}

/// The virtualization translation control register.
#[allow(non_camel_case_types)]
pub struct VTCR_EL2 {}

impl VTCR_EL2 {
    /// Reads the register.
    pub fn get(cpu: &Cpu) -> (reg: u64)
        ensures
            reg == cpu@.regs.vtcr_el2,
    {
        cpu.mrs(SysReg::VTCR_EL2)
    }

    /// Writes the register.
    pub fn set(cpu: &mut Cpu, val: u64)
        ensures
            final(cpu)@ == old(cpu)@.step(Op::Msr(SysReg::VTCR_EL2, val)),
    {
        cpu.msr(SysReg::VTCR_EL2, val);
    }

    /// Reads the low five bits of the register, the size offset of the
    /// region that stage 2 translates.
    pub fn t0sz(cpu: &Cpu) -> (t0sz: u64)
        ensures
            t0sz == cpu@.regs.vtcr_el2 & VTCR_EL2_T0SZ_MASK,
    {
        VTCR_EL2::get(cpu) & VTCR_EL2_T0SZ_MASK
    }

    /// Replaces the low five bits of the register by those of `val`.
    pub fn set_t0sz(cpu: &mut Cpu, val: u64)
        ensures
            final(cpu)@ == old(cpu)@.step(
                Op::Msr(
                    SysReg::VTCR_EL2,
                    with_field(old(cpu)@.regs.vtcr_el2, val, 0, VTCR_EL2_T0SZ_MASK),
                ),
            ),
    {
        let mut reg = VTCR_EL2::get(cpu);

        reg &= !VTCR_EL2_T0SZ_MASK;
        reg |= (val << 0) & VTCR_EL2_T0SZ_MASK;

        cpu.msr(SysReg::VTCR_EL2, reg);
    }

    /// Replaces the shareability of the table walks, bits [13:12], by the
    /// low two bits of `val`.
    pub fn set_sh0(cpu: &mut Cpu, val: u64)
        ensures
            final(cpu)@ == old(cpu)@.step(
                Op::Msr(
                    SysReg::VTCR_EL2,
                    with_field(old(cpu)@.regs.vtcr_el2, val, 12, VTCR_EL2_SH0_MASK),
                ),
            ),
    {
        let mut reg = VTCR_EL2::get(cpu);

        reg &= !VTCR_EL2_SH0_MASK;
        reg |= (val << 12) & VTCR_EL2_SH0_MASK;

        cpu.msr(SysReg::VTCR_EL2, reg);
    }

    /// Replaces the starting level of the walk, bits [7:6], by the low two
    /// bits of `val`.
    pub fn set_sl0(cpu: &mut Cpu, val: u64)
        ensures
            final(cpu)@ == old(cpu)@.step(
                Op::Msr(
                    SysReg::VTCR_EL2,
                    with_field(old(cpu)@.regs.vtcr_el2, val, 6, VTCR_EL2_SL0_MASK),
                ),
            ),
    {
        let mut reg = VTCR_EL2::get(cpu);

        reg &= !VTCR_EL2_SL0_MASK;
        reg |= (val << 6) & VTCR_EL2_SL0_MASK;

        cpu.msr(SysReg::VTCR_EL2, reg);
    }

    /// Replaces the granule size, bits [15:14], by the low two bits of
    /// `val`.
    pub fn set_tg0(cpu: &mut Cpu, val: u64)
        ensures
            final(cpu)@ == old(cpu)@.step(
                Op::Msr(
                    SysReg::VTCR_EL2,
                    with_field(old(cpu)@.regs.vtcr_el2, val, 14, VTCR_EL2_TG0_MASK),
                ),
            ),
    {
        let mut reg = VTCR_EL2::get(cpu);

        reg &= !VTCR_EL2_TG0_MASK;
        reg |= (val << 14) & VTCR_EL2_TG0_MASK;

        cpu.msr(SysReg::VTCR_EL2, reg);
    }

    /// Sets those bits of the physical address size, from bit 16 up, that
    /// are set in `val`. Bits that are set already stay set.
    pub fn set_ps(cpu: &mut Cpu, val: u64)
        ensures
            final(cpu)@ == old(cpu)@.step(
                Op::Msr(SysReg::VTCR_EL2, old(cpu)@.regs.vtcr_el2 | (val << 16)),
            ),
    {
        let mut reg = VTCR_EL2::get(cpu);

        reg |= val << 16;

        cpu.msr(SysReg::VTCR_EL2, reg);
    }

    /// Sets bit 31, which reads as one. The bits [62:32], [24:23] and 20
    /// have to be zero.
    pub fn reserved(cpu: &mut Cpu)
        requires
            (old(cpu)@.regs.vtcr_el2 | VTCR_EL2_RES1) & VTCR_EL2_RES0 == 0,
        ensures
            final(cpu)@ == old(cpu)@.step(
                Op::Msr(SysReg::VTCR_EL2, old(cpu)@.regs.vtcr_el2 | VTCR_EL2_RES1),
            ),
    {
        let mut reg = VTCR_EL2::get(cpu);
        reg |= VTCR_EL2_RES1;
        cpu.msr(SysReg::VTCR_EL2, reg);
    }
}

/// The two lines that `show_vtcr_el2` prints for a value of `VTCR_EL2`.
pub open spec fn vtcr_el2_text(vtcr_el2: u64) -> Seq<u8> {
    "VTCR_EL2: ".spec_bytes() + hex_text(vtcr_el2) + "\n".spec_bytes()
        + "VTCR_EL2.T0SZ: ".spec_bytes() + hex_text(vtcr_el2 & VTCR_EL2_T0SZ_MASK)
        + "\n".spec_bytes()
}

/// Prints `VTCR_EL2` and its low five bits, in hexadecimal, one line each.
pub fn show_vtcr_el2(cpu: &mut Cpu, uart: &Uart)
    ensures
        final(cpu)@.regs == old(cpu)@.regs,
        final(cpu)@.trace == old(cpu)@.trace + uart_stores(
            uart.virt,
            vtcr_el2_text(old(cpu)@.regs.vtcr_el2),
        ),
{
    let ghost reg = cpu@.regs.vtcr_el2;
    let ghost a = "VTCR_EL2: ".spec_bytes();
    let ghost b = a + hex_text(reg);
    let ghost c = b + "\n".spec_bytes();
    let ghost d = c + "VTCR_EL2.T0SZ: ".spec_bytes();
    let ghost e = d + hex_text(reg & VTCR_EL2_T0SZ_MASK);

    uart_write(cpu, uart, "VTCR_EL2: ");
    print_hex(cpu, uart, VTCR_EL2::get(cpu));
    proof {
        lemma_uart_stores_concat(uart.virt, a, hex_text(reg));
    }
    uart_write(cpu, uart, "\n");
    proof {
        lemma_uart_stores_concat(uart.virt, b, "\n".spec_bytes());
    }
    uart_write(cpu, uart, "VTCR_EL2.T0SZ: ");
    proof {
        lemma_uart_stores_concat(uart.virt, c, "VTCR_EL2.T0SZ: ".spec_bytes());
    }

    let val = VTCR_EL2::t0sz(cpu);
    print_hex(cpu, uart, val);
    proof {
        lemma_uart_stores_concat(uart.virt, d, hex_text(val));
    }
    uart_write(cpu, uart, "\n");
    proof {
        lemma_uart_stores_concat(uart.virt, e, "\n".spec_bytes());
    }
}

/// Programs `VTCR_EL2` for the Cortex-A53.
pub fn init_vtcr(cpu: &mut Cpu)
    ensures
        final(cpu)@ == old(cpu)@.step(Op::Msr(SysReg::VTCR_EL2, VTCR_EL2_CORTEX_A53)),
{
    VTCR_EL2::set(cpu, VTCR_EL2_CORTEX_A53);
}

/// The fields of the value that `init_vtcr` writes: bit 31 is set, the
/// physical address size is `010` (40 bits), the granule `00` (4 KiB), the
/// shareability `11` (inner), the outer and inner cacheability `01`
/// (write-back write-allocate), the starting level `01` (level 1), the
/// size offset is 24 (a 40-bit input address), and every other bit is
/// zero.
pub proof fn lemma_vtcr_el2_cortex_a53_fields()
    by (bit_vector)
    ensures
        VTCR_EL2_CORTEX_A53 & VTCR_EL2_RES1 == VTCR_EL2_RES1,
        (VTCR_EL2_CORTEX_A53 >> 16) & 0x7 == 2,
        (VTCR_EL2_CORTEX_A53 & VTCR_EL2_TG0_MASK) >> 14 == 0,
        (VTCR_EL2_CORTEX_A53 & VTCR_EL2_SH0_MASK) >> 12 == 3,
        (VTCR_EL2_CORTEX_A53 >> 10) & 0x3 == 1,
        (VTCR_EL2_CORTEX_A53 >> 8) & 0x3 == 1,
        (VTCR_EL2_CORTEX_A53 & VTCR_EL2_SL0_MASK) >> 6 == 1,
        VTCR_EL2_CORTEX_A53 & 0x3f == 24,
        VTCR_EL2_CORTEX_A53 & 0x3f == 64 - 40,
        VTCR_EL2_CORTEX_A53 & VTCR_EL2_RES0 == 0,
        VTCR_EL2_CORTEX_A53 == VTCR_EL2_RES1 | (2u64 << 16) | (3u64 << 12) | (1u64 << 10) | (1u64
            << 8) | (1u64 << 6) | 24,
{
}

} // verus!
