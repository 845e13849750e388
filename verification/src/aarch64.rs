//! The CPU facade: system registers, barriers and the other privileged
//! operations of the boot path, issued against a model of the processor.
//!
//! A [`Cpu`] holds the system register file and the trace of every
//! side-effecting operation in program order. Reading a register has no
//! effect; everything else is an [`Op`] and is appended to the trace.
use vstd::prelude::*;

verus! {

/// The four ARMv8 exception levels.
#[derive(Clone, Copy, Debug, PartialEq, Eq, Structural)]
pub enum ExceptionLevel {
    EL0,
    EL1,
    EL2,
    EL3,
}

/// The shareability domain of a data-synchronization barrier.
#[derive(Clone, Copy, Debug, PartialEq, Eq, Structural)]
pub enum Shareable {
    Non,
    Inner,
    Outer,
    FullSystem,
}

/// The system registers that the boot path and the exception handler touch.
#[allow(non_camel_case_types)]
#[derive(Clone, Copy, Debug, PartialEq, Eq, Structural)]
pub enum SysReg {
    CurrentEL,
    ID_AA64MMFR0_EL1,
    HCR_EL2,
    TCR_EL2,
    SCTLR_EL2,
    SCTLR_EL1,
    MAIR_EL2,
    TTBR0_EL2,
    VTTBR_EL2,
    VTCR_EL2,
    VBAR_EL2,
    VBAR_EL1,
    ELR_EL2,
    SPSR_EL2,
    ESR_EL2,
}

impl SysReg {
    /// `CurrentEL` and the ID register are read-only; a write to them is
    /// undefined.
    pub open spec fn writable(self) -> bool {
        self != SysReg::CurrentEL && self != SysReg::ID_AA64MMFR0_EL1
    }
}

/// One side-effecting operation of the processor.
#[derive(Clone, Copy, Debug, PartialEq, Eq, Structural)]
pub enum Op {
    /// `msr <reg>, <value>`
    Msr(SysReg, u64),
    /// `msr DAIFSet, #imm`
    DaifSet(u64),
    /// `msr SPSel, #imm`
    SpSel(u64),
    /// `dsb <domain>`
    Dsb(Shareable),
    /// `isb`
    Isb,
    /// `tlbi alle2`
    TlbiAlle2,
    /// A 64-bit store of `value` to the device register at `address`.
    Store(u64, u64),
    /// `eret`
    Eret,
}

impl Op {
    /// The operation is a write to the register `reg`.
    pub open spec fn writes(self, reg: SysReg) -> bool {
        match self {
            Op::Msr(to, _) => to == reg,
            _ => false,
        }
    }

    /// An operation the processor can carry out: every operation but a write
    /// to a read-only register.
    pub open spec fn defined(self) -> bool {
        match self {
            Op::Msr(reg, _) => reg.writable(),
            _ => true,
        }
    }
}

/// The system register file.
#[derive(Clone, Copy, Debug, PartialEq, Eq, Structural)]
pub struct Registers {
    pub current_el: u64,
    pub id_aa64mmfr0_el1: u64,
    pub hcr_el2: u64,
    pub tcr_el2: u64,
    pub sctlr_el2: u64,
    pub sctlr_el1: u64,
    pub mair_el2: u64,
    pub ttbr0_el2: u64,
    pub vttbr_el2: u64,
    pub vtcr_el2: u64,
    pub vbar_el2: u64,
    pub vbar_el1: u64,
    pub elr_el2: u64,
    pub spsr_el2: u64,
    pub esr_el2: u64,
}

impl Registers {
    /// The value that a read of `reg` returns.
    pub open spec fn get(self, reg: SysReg) -> u64 {
        match reg {
            SysReg::CurrentEL => self.current_el,
            SysReg::ID_AA64MMFR0_EL1 => self.id_aa64mmfr0_el1,
            SysReg::HCR_EL2 => self.hcr_el2,
            SysReg::TCR_EL2 => self.tcr_el2,
            SysReg::SCTLR_EL2 => self.sctlr_el2,
            SysReg::SCTLR_EL1 => self.sctlr_el1,
            SysReg::MAIR_EL2 => self.mair_el2,
            SysReg::TTBR0_EL2 => self.ttbr0_el2,
            SysReg::VTTBR_EL2 => self.vttbr_el2,
            SysReg::VTCR_EL2 => self.vtcr_el2,
            SysReg::VBAR_EL2 => self.vbar_el2,
            SysReg::VBAR_EL1 => self.vbar_el1,
            SysReg::ELR_EL2 => self.elr_el2,
            SysReg::SPSR_EL2 => self.spsr_el2,
            SysReg::ESR_EL2 => self.esr_el2,
        }
    }

    /// The register file after `val` has been written to `reg`.
    pub open spec fn put(self, reg: SysReg, val: u64) -> Registers {
        match reg {
            SysReg::CurrentEL => Registers { current_el: val, ..self },
            SysReg::ID_AA64MMFR0_EL1 => Registers { id_aa64mmfr0_el1: val, ..self },
            SysReg::HCR_EL2 => Registers { hcr_el2: val, ..self },
            SysReg::TCR_EL2 => Registers { tcr_el2: val, ..self },
            SysReg::SCTLR_EL2 => Registers { sctlr_el2: val, ..self },
            SysReg::SCTLR_EL1 => Registers { sctlr_el1: val, ..self },
            SysReg::MAIR_EL2 => Registers { mair_el2: val, ..self },
            SysReg::TTBR0_EL2 => Registers { ttbr0_el2: val, ..self },
            SysReg::VTTBR_EL2 => Registers { vttbr_el2: val, ..self },
            SysReg::VTCR_EL2 => Registers { vtcr_el2: val, ..self },
            SysReg::VBAR_EL2 => Registers { vbar_el2: val, ..self },
            SysReg::VBAR_EL1 => Registers { vbar_el1: val, ..self },
            SysReg::ELR_EL2 => Registers { elr_el2: val, ..self },
            SysReg::SPSR_EL2 => Registers { spsr_el2: val, ..self },
            SysReg::ESR_EL2 => Registers { esr_el2: val, ..self },
        }
    }

    /// The exception level that `CurrentEL[3:2]` encodes.
    pub open spec fn el(self) -> u64 {
        (self.current_el >> 2) & 0x3
    }
}

/// The abstract state of a [`Cpu`]: its register file and the operations it
/// has carried out so far, oldest first.
pub struct CpuState {
    pub regs: Registers,
    pub trace: Seq<Op>,
}

impl CpuState {
    /// The state after the processor has carried out `op`.
    pub open spec fn step(self, op: Op) -> CpuState {
        CpuState {
            regs: match op {
                Op::Msr(reg, val) => self.regs.put(reg, val),
                _ => self.regs,
            },
            trace: self.trace.push(op),
        }
    }
}

/// The processor: a register file and the program-order trace of the
/// operations issued on it.
pub struct Cpu {
    pub regs: Registers,
    pub trace: Vec<Op>,
}

impl View for Cpu {
    type V = CpuState;

    open spec fn view(&self) -> CpuState {
        CpuState { regs: self.regs, trace: self.trace@ }
    }
}

impl Cpu {
    /// A processor with the given register file that has not carried out any
    /// operation yet.
    pub fn new(regs: Registers) -> (cpu: Cpu)
        ensures
            cpu@.regs == regs,
            cpu@.trace == Seq::<Op>::empty(),
    {
        Cpu { regs, trace: Vec::new() }
    }

    /// Reads a system register (`mrs`).
    pub fn mrs(&self, reg: SysReg) -> (val: u64)
        ensures
            val == self@.regs.get(reg),
    {
        match reg {
            SysReg::CurrentEL => self.regs.current_el,
            SysReg::ID_AA64MMFR0_EL1 => self.regs.id_aa64mmfr0_el1,
            SysReg::HCR_EL2 => self.regs.hcr_el2,
            SysReg::TCR_EL2 => self.regs.tcr_el2,
            SysReg::SCTLR_EL2 => self.regs.sctlr_el2,
            SysReg::SCTLR_EL1 => self.regs.sctlr_el1,
            SysReg::MAIR_EL2 => self.regs.mair_el2,
            SysReg::TTBR0_EL2 => self.regs.ttbr0_el2,
            SysReg::VTTBR_EL2 => self.regs.vttbr_el2,
            SysReg::VTCR_EL2 => self.regs.vtcr_el2,
            SysReg::VBAR_EL2 => self.regs.vbar_el2,
            SysReg::VBAR_EL1 => self.regs.vbar_el1,
            SysReg::ELR_EL2 => self.regs.elr_el2,
            SysReg::SPSR_EL2 => self.regs.spsr_el2,
            SysReg::ESR_EL2 => self.regs.esr_el2,
        }
    }

    /// Carries out one operation: a register write lands in the register
    /// file, and every operation is appended to the trace.
    pub fn issue(&mut self, op: Op)
        requires
            op.defined(),
        ensures
            final(self)@ == old(self)@.step(op),
    {
        match op {
            Op::Msr(reg, val) => {
                match reg {
                    SysReg::CurrentEL => {},
                    SysReg::ID_AA64MMFR0_EL1 => {},
                    SysReg::HCR_EL2 => { self.regs.hcr_el2 = val; },
                    SysReg::TCR_EL2 => { self.regs.tcr_el2 = val; },
                    SysReg::SCTLR_EL2 => { self.regs.sctlr_el2 = val; },
                    SysReg::SCTLR_EL1 => { self.regs.sctlr_el1 = val; },
                    SysReg::MAIR_EL2 => { self.regs.mair_el2 = val; },
                    SysReg::TTBR0_EL2 => { self.regs.ttbr0_el2 = val; },
                    SysReg::VTTBR_EL2 => { self.regs.vttbr_el2 = val; },
                    SysReg::VTCR_EL2 => { self.regs.vtcr_el2 = val; },
                    SysReg::VBAR_EL2 => { self.regs.vbar_el2 = val; },
                    SysReg::VBAR_EL1 => { self.regs.vbar_el1 = val; },
                    SysReg::ELR_EL2 => { self.regs.elr_el2 = val; },
                    SysReg::SPSR_EL2 => { self.regs.spsr_el2 = val; },
                    SysReg::ESR_EL2 => { self.regs.esr_el2 = val; },
                }
            },
            _ => {},
        }
        self.trace.push(op);
    }

    /// Writes a system register (`msr`).
    pub fn msr(&mut self, reg: SysReg, val: u64)
        requires
            reg.writable(),
        ensures
            final(self)@ == old(self)@.step(Op::Msr(reg, val)),
    {
        self.issue(Op::Msr(reg, val));
    }
}

/// The current exception level, `CurrentEL[3:2]`: 0, 1, 2 or 3.
pub fn current_el(cpu: &Cpu) -> (el: u64)
    ensures
        el == cpu@.regs.el(),
        el <= 3,
{
    let el: u64 = cpu.mrs(SysReg::CurrentEL);
    assert((el >> 2) & 0x3 <= 3) by (bit_vector);
    (el >> 2) & 0x3
}

/// Issues a data-synchronization barrier for the domain `sh`.
pub fn data_barrier(cpu: &mut Cpu, sh: Shareable)
    ensures
        final(cpu)@ == old(cpu)@.step(Op::Dsb(sh)),
{
    cpu.issue(Op::Dsb(sh));
}

/// Issues an instruction-synchronization barrier.
pub fn isb(cpu: &mut Cpu)
    ensures
        final(cpu)@ == old(cpu)@.step(Op::Isb),
{
    cpu.issue(Op::Isb);
}

/// The positions in `trace` of the writes to the register `reg`.
pub open spec fn writes_to(trace: Seq<Op>, reg: SysReg) -> Set<int> {
    Set::new(|i: int| 0 <= i < trace.len() && trace[i].writes(reg))
}

/// The operations `ops` stand in `trace` at the positions `at`, which
/// grow from one operation to the next.
pub open spec fn occur_at(trace: Seq<Op>, ops: Seq<Op>, at: Seq<int>) -> bool {
    &&& at.len() == ops.len()
    &&& forall|i: int|
        0 <= i < at.len() ==> 0 <= #[trigger] at[i] < trace.len() && trace[at[i]] == ops[i]
    &&& forall|i: int, j: int| 0 <= i < j < at.len() ==> #[trigger] at[i] < #[trigger] at[j]
}

/// The operations `ops` occur in `trace` in this order, with anything, or
/// nothing, before, between and after them.
pub open spec fn occur_in_order(trace: Seq<Op>, ops: Seq<Op>) -> bool {
    exists|at: Seq<int>| occur_at(trace, ops, at)
}

} // verus!
