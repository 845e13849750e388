//! The UART driver: every byte is one store to the data register at the
//! start of the device's page.
use vstd::prelude::*;
use vstd::string::StringSliceAdditionalSpecFns;
use crate::aarch64::{Cpu, Op};

verus! {

/// The physical address of the UART of the QEMU `virt` machine.
pub const UART_BASE: u64 = 0x0900_0000;

/// The size of the UART's register page.
pub const UART_SIZE: u64 = 0x0000_1000;

/// The UART as the hypervisor sees it: the virtual address at which its
/// page is mapped, or zero as long as it is not mapped.
#[derive(Clone, Copy, Debug, PartialEq, Eq, Structural)]
pub struct Uart {
    pub virt: u64,
}

/// The stores that send `bytes` through the UART mapped at `virt`, first
/// byte first; none as long as the UART is not mapped.
pub open spec fn uart_stores(virt: u64, bytes: Seq<u8>) -> Seq<Op> {
    if virt == 0 {
        Seq::empty()
    } else {
        Seq::new(bytes.len(), |i: int| Op::Store(virt, bytes[i] as u64))
    }
}

/// What has been sent and what is sent next add up: the stores for two
/// runs of bytes, one after the other, are the stores for their
/// concatenation.
pub proof fn lemma_uart_stores_concat(virt: u64, first: Seq<u8>, second: Seq<u8>)
    ensures
        uart_stores(virt, first) + uart_stores(virt, second) == uart_stores(virt, first + second),
{
    assert(uart_stores(virt, first) + uart_stores(virt, second) =~= uart_stores(
        virt,
        first + second,
    ));
}

/// The UART, mapped at the virtual address `uart_virt`.
pub fn uart_init(uart_virt: u64) -> (uart: Uart)
    ensures
        uart.virt == uart_virt,
{
    Uart { virt: uart_virt }
}

/// Sends the bytes of `string`, one store each. Does nothing as long as
/// the UART is not mapped.
pub fn uart_write(cpu: &mut Cpu, uart: &Uart, string: &str)
    ensures
        final(cpu)@.regs == old(cpu)@.regs,
        final(cpu)@.trace == old(cpu)@.trace + uart_stores(uart.virt, string.spec_bytes()),
{
    if uart.virt == 0 {
        return ;
    }
    let bytes = string.as_bytes();
    let mut i: usize = 0;
    while i < bytes.len()
        invariant
            i <= bytes.len(),
            bytes@ == string.spec_bytes(),
            uart.virt != 0,
            cpu@.regs == old(cpu)@.regs,
            cpu@.trace == old(cpu)@.trace + uart_stores(uart.virt, bytes@.subrange(0, i as int)),
        decreases bytes.len() - i,
    {
        cpu.issue(Op::Store(uart.virt, bytes[i] as u64));
        assert(uart_stores(uart.virt, bytes@.subrange(0, i as int)).push(
            Op::Store(uart.virt, bytes@[i as int] as u64),
        ) =~= uart_stores(uart.virt, bytes@.subrange(0, i + 1)));
        i += 1;
    }
    assert(bytes@.subrange(0, i as int) =~= bytes@);
}

} // verus!
