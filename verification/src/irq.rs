//! The exception handler of EL2: a report of where the exception came
//! from and what it was, sent through the UART.
use vstd::prelude::*;
use vstd::string::StringSliceAdditionalSpecFns;
use vstd::string::is_ascii_spec_bytes;
use crate::aarch64::{Cpu, Registers, SysReg, current_el};
use crate::common::{hex_text, print_hex};
use crate::esr::{exception_syndrome_text, print_exception_syndrome};
use crate::uart::{Uart, uart_stores, uart_write, lemma_uart_stores_concat};

verus! {

/// The ASCII digit of bit `index` of `val`.
pub open spec fn bit_digit(val: u64, index: int) -> u8 {
    if (val >> (index as u64)) & 1 == 1 {
        0x31
    } else {
        0x30
    }
}

/// The name of the mode that `SPSR_EL2.M[3:0]` encodes: the exception
/// level the exception came from and the stack pointer it used.
pub open spec fn spec_spsr_mode(m: u64) -> Seq<u8> {
    match m {
        0b0000 => "EL0t".spec_bytes(),
        0b0100 => "EL1t".spec_bytes(),
        0b0101 => "EL1h".spec_bytes(),
        0b1000 => "EL2t".spec_bytes(),
        0b1001 => "EL2h".spec_bytes(),
        _ => "Unknown".spec_bytes(),
    }
}

/// The name of the mode that `SPSR_EL2.M[3:0]` encodes, `Unknown` for an
/// encoding that names none.
pub fn spsr_mode(m: u64) -> (text: &'static str)
    ensures
        text.spec_bytes() == spec_spsr_mode(m),
{
    match m {
        0b0000 => "EL0t",
        0b0100 => "EL1t",
        0b0101 => "EL1h",
        0b1000 => "EL2t",
        0b1001 => "EL2h",
        _ => "Unknown",
    }
}

/// The two lines that report the mode field of the saved program state:
/// its four bits, most significant first, and the name of the mode.
pub open spec fn spsr_el2_text(spsr: u64) -> Seq<u8> {
    "EL from SPSR.M[4:0] : ".spec_bytes() + "0b".spec_bytes() + Seq::new(
        4,
        |i: int| bit_digit(spsr, 3 - i),
    ) + "\n".spec_bytes() + "EL from SPSR.M[4:0] : ".spec_bytes() + spec_spsr_mode(spsr & 0xf)
        + "\n".spec_bytes()
}

/// Prints the mode field of `SPSR_EL2`, in binary and by name.
pub fn print_spsr_el2(cpu: &mut Cpu, uart: &Uart)
    ensures
        final(cpu)@.regs == old(cpu)@.regs,
        final(cpu)@.trace == old(cpu)@.trace + uart_stores(
            uart.virt,
            spsr_el2_text(old(cpu)@.regs.spsr_el2),
        ),
{
    broadcast use is_ascii_spec_bytes;

    let spsr: u64 = cpu.mrs(SysReg::SPSR_EL2);
    let m: u64 = spsr & 0xf;
    let ghost head = "EL from SPSR.M[4:0] : ".spec_bytes() + "0b".spec_bytes();

    uart_write(cpu, uart, "EL from SPSR.M[4:0] : ");
    uart_write(cpu, uart, "0b");
    proof {
        lemma_uart_stores_concat(
            uart.virt,
            "EL from SPSR.M[4:0] : ".spec_bytes(),
            "0b".spec_bytes(),
        );
        reveal_strlit("1");
        reveal_strlit("0");
        assert(vstd::string::is_ascii("1"));
        assert(vstd::string::is_ascii("0"));
        assert("1".spec_bytes() =~= seq![0x31u8]);
        assert("0".spec_bytes() =~= seq![0x30u8]);
    }
    let ghost mut sent: Seq<u8> = head;
    let mut i: u64 = 0;
    while i < 4
        invariant
            i <= 4,
            "1".spec_bytes() == seq![0x31u8],
            "0".spec_bytes() == seq![0x30u8],
            sent == head + Seq::new(i as nat, |k: int| bit_digit(spsr, 3 - k)),
            cpu@.regs == old(cpu)@.regs,
            cpu@.trace == old(cpu)@.trace + uart_stores(uart.virt, sent),
        decreases 4 - i,
    {
        let digit = if (spsr >> (3 - i)) & 1 == 1 {
            "1"
        } else {
            "0"
        };
        uart_write(cpu, uart, digit);
        proof {
            lemma_uart_stores_concat(uart.virt, sent, digit.spec_bytes());
            let next = sent + digit.spec_bytes();
            assert(next =~= head + Seq::new((i + 1) as nat, |k: int| bit_digit(spsr, 3 - k)));
            sent = next;
        }
        i += 1;
    }
    let ghost a = sent + "\n".spec_bytes();
    let ghost b = a + "EL from SPSR.M[4:0] : ".spec_bytes();
    let ghost c = b + spec_spsr_mode(m);
    uart_write(cpu, uart, "\n");
    proof {
        lemma_uart_stores_concat(uart.virt, sent, "\n".spec_bytes());
    }
    uart_write(cpu, uart, "EL from SPSR.M[4:0] : ");
    proof {
        lemma_uart_stores_concat(uart.virt, a, "EL from SPSR.M[4:0] : ".spec_bytes());
    }
    let mode = spsr_mode(m);
    uart_write(cpu, uart, mode);
    proof {
        lemma_uart_stores_concat(uart.virt, b, mode.spec_bytes());
    }
    uart_write(cpu, uart, "\n");
    proof {
        lemma_uart_stores_concat(uart.virt, c, "\n".spec_bytes());
    }
}

/// The name of an exception level.
pub open spec fn spec_el_name(el: u64) -> Seq<u8> {
    match el {
        0 => "EL0".spec_bytes(),
        1 => "EL1".spec_bytes(),
        2 => "EL2".spec_bytes(),
        _ => "EL3".spec_bytes(),
    }
}

/// The line that reports the current exception level.
pub open spec fn current_el_text(el: u64) -> Seq<u8> {
    "Current EL: ".spec_bytes() + spec_el_name(el) + "\n".spec_bytes()
}

/// Prints the current exception level.
pub fn print_current_el(cpu: &mut Cpu, uart: &Uart)
    ensures
        final(cpu)@.regs == old(cpu)@.regs,
        final(cpu)@.trace == old(cpu)@.trace + uart_stores(
            uart.virt,
            current_el_text(old(cpu)@.regs.el()),
        ),
{
    let ghost a = "Current EL: ".spec_bytes();
    let ghost b = a + spec_el_name(cpu@.regs.el());
    uart_write(cpu, uart, "Current EL: ");
    let name = match current_el(cpu) {
        0 => "EL0",
        1 => "EL1",
        2 => "EL2",
        _ => "EL3",
    };
    uart_write(cpu, uart, name);
    proof {
        lemma_uart_stores_concat(uart.virt, a, name.spec_bytes());
    }
    uart_write(cpu, uart, "\n");
    proof {
        lemma_uart_stores_concat(uart.virt, b, "\n".spec_bytes());
    }
}

/// The line that reports the exception return address.
pub open spec fn elr_el2_text(elr_el2: u64) -> Seq<u8> {
    "ELR_EL2: ".spec_bytes() + hex_text(elr_el2) + "\n".spec_bytes()
}

/// Prints the exception return address, `ELR_EL2`, in hexadecimal.
pub fn print_elr_el2(cpu: &mut Cpu, uart: &Uart)
    ensures
        final(cpu)@.regs == old(cpu)@.regs,
        final(cpu)@.trace == old(cpu)@.trace + uart_stores(
            uart.virt,
            elr_el2_text(old(cpu)@.regs.elr_el2),
        ),
{
    let ghost a = "ELR_EL2: ".spec_bytes();
    let ghost b = a + hex_text(cpu@.regs.elr_el2);
    uart_write(cpu, uart, "ELR_EL2: ");
    let elr_el2: u64 = cpu.mrs(SysReg::ELR_EL2);

    print_hex(cpu, uart, elr_el2);
    proof {
        lemma_uart_stores_concat(uart.virt, a, hex_text(elr_el2));
    }
    uart_write(cpu, uart, "\n");
    proof {
        lemma_uart_stores_concat(uart.virt, b, "\n".spec_bytes());
    }
}

/// Everything the handler prints for an exception taken to EL2: the
/// current exception level, the mode the exception came from, the address
/// it returns to, and the syndrome.
pub open spec fn exception_report(regs: Registers) -> Seq<u8> {
    current_el_text(regs.el()) + spsr_el2_text(regs.spsr_el2) + elr_el2_text(regs.elr_el2)
        + exception_syndrome_text(regs.esr_el2)
}

/// The handler of every exception taken to EL2. It prints the report and
/// changes nothing else; there is no return from the exception, so the
/// caller halts.
pub fn irq_handler(cpu: &mut Cpu, uart: &Uart)
    ensures
        final(cpu)@.regs == old(cpu)@.regs,
        final(cpu)@.trace == old(cpu)@.trace + uart_stores(
            uart.virt,
            exception_report(old(cpu)@.regs),
        ),
{
    let ghost regs = cpu@.regs;
    let ghost a = current_el_text(regs.el());
    let ghost b = a + spsr_el2_text(regs.spsr_el2);
    let ghost c = b + elr_el2_text(regs.elr_el2);
    print_current_el(cpu, uart);
    print_spsr_el2(cpu, uart);
    proof {
        lemma_uart_stores_concat(uart.virt, a, spsr_el2_text(regs.spsr_el2));
    }
    print_elr_el2(cpu, uart);
    proof {
        lemma_uart_stores_concat(uart.virt, b, elr_el2_text(regs.elr_el2));
    }
    print_exception_syndrome(cpu, uart);
    proof {
        lemma_uart_stores_concat(uart.virt, c, exception_syndrome_text(regs.esr_el2));
    }
}

} // verus!
