//! Bit primitives shared by the descriptor and register code, and the
//! printing of 64-bit values in hexadecimal.
use vstd::prelude::*;
use vstd::string::StringSliceAdditionalSpecFns;
use vstd::string::is_ascii_spec_bytes;
use crate::aarch64::Cpu;
use crate::uart::{Uart, uart_stores, uart_write, lemma_uart_stores_concat};

verus! {

/// Whether bit `i` of `value` is set.
pub open spec fn bit_is_set(value: u64, i: u64) -> bool {
    (value >> i) & 1 == 1
}

/// The 64-bit value of `1 << x`: bit `x` alone, or nothing where there is
/// no bit `x`.
pub open spec fn spec_bit(x: u64) -> u64 {
    if x < 64 {
        1u64 << x
    } else {
        0
    }
}

/// The mask that has bit `x` set and no other.
#[verifier::when_used_as_spec(spec_bit)]
pub fn bit(x: u64) -> (mask: u64)
    ensures
        forall|i: u64| i < 64 ==> (bit_is_set(mask, i) <==> i == x),
        mask == spec_bit(x),
{
    let mask: u64 = if x < 64 {
        1u64 << x
    } else {
        0
    };
    assert(forall|i: u64| i < 64 ==> (((mask >> i) & 1 == 1) <==> i == x)) by (bit_vector)
        requires
            mask == (if x < 64 {
                1u64 << x
            } else {
                0
            }),
    ;
    mask
}

/// The ones from bit `start` up to bit `end`, or up to bit 63 where `end`
/// is beyond it; nothing where no bit lies between the two.
pub open spec fn spec_bitfield(end: u64, start: u64) -> u64 {
    if start > end || start >= 64 {
        0
    } else if end >= 64 {
        0xffff_ffff_ffff_ffffu64 << start
    } else {
        (0xffff_ffff_ffff_ffffu64 >> ((63 - (end - start)) as u64)) << start
    }
}

/// The contiguous mask that covers bits `[end:start]`, both ends included.
#[verifier::when_used_as_spec(spec_bitfield)]
#[verifier::rlimit(30)]
pub fn bitfield(end: u64, start: u64) -> (mask: u64)
    ensures
        forall|i: u64| i < 64 ==> (bit_is_set(mask, i) <==> start <= i <= end),
        mask == spec_bitfield(end, start),
{
    if start > end || start >= 64 {
        assert(forall|i: u64| i < 64 ==> (((0u64 >> i) & 1 == 1) <==> start <= i <= end))
            by (bit_vector)
            requires
                start > end || start >= 64,
        ;
        return 0;
    }
    let top: u64 = if end >= 64 {
        63
    } else {
        end
    };
    let spare: u64 = 63 - (top - start);
    let mask: u64 = (u64::MAX >> spare) << start;
    assert((forall|i: u64| i < 64 ==> (((mask >> i) & 1 == 1) <==> start <= i <= end)) && (end >= 64
        ==> mask == 0xffff_ffff_ffff_ffffu64 << start)) by (bit_vector)
        requires
            start <= end,
            start < 64,
            top == (if end >= 64 {
                63
            } else {
                end
            }),
            spare == 63 - (top - start),
            mask == (0xffff_ffff_ffff_ffffu64 >> spare) << start,
    ;
    mask
}

/// The ASCII code of the lower-case hexadecimal digit of `val`.
pub open spec fn hex_digit(val: u64) -> u8 {
    if val < 10 {
        (0x30 + val) as u8
    } else {
        (0x57 + val) as u8
    }
}

/// The nibble of `val` that is `index` places from its most significant
/// one.
pub open spec fn nibble(val: u64, index: int) -> u64 {
    (val >> ((60 - 4 * index) as u64)) & 0xf
}

/// The text of `val` as `0x` and sixteen lower-case hexadecimal digits,
/// most significant first.
pub open spec fn hex_text(val: u64) -> Seq<u8> {
    seq![0x30u8, 0x78u8] + Seq::new(16, |i: int| hex_digit(nibble(val, i)))
}

/// The lower-case hexadecimal digit of a value below 16.
pub fn to_hex(val: u64) -> (digit: &'static str)
    requires
        val <= 0xf,
    ensures
        digit.spec_bytes() == seq![hex_digit(val)],
{
    broadcast use is_ascii_spec_bytes;

    proof {
        reveal_strlit("0");
        reveal_strlit("1");
        reveal_strlit("2");
        reveal_strlit("3");
        reveal_strlit("4");
        reveal_strlit("5");
        reveal_strlit("6");
        reveal_strlit("7");
        reveal_strlit("8");
        reveal_strlit("9");
        reveal_strlit("a");
        reveal_strlit("b");
        reveal_strlit("c");
        reveal_strlit("d");
        reveal_strlit("e");
        reveal_strlit("f");
    }
    let digit = match val {
        0x0 => "0",
        0x1 => "1",
        0x2 => "2",
        0x3 => "3",
        0x4 => "4",
        0x5 => "5",
        0x6 => "6",
        0x7 => "7",
        0x8 => "8",
        0x9 => "9",
        0xa => "a",
        0xb => "b",
        0xc => "c",
        0xd => "d",
        0xe => "e",
        _ => "f",
    };
    assert(vstd::string::is_ascii(digit));
    assert(digit.spec_bytes() =~= seq![hex_digit(val)]);
    digit
}

/// Sends `val` through the UART as `0x` and sixteen hexadecimal digits.
pub fn print_hex(cpu: &mut Cpu, uart: &Uart, val: u64)
    ensures
        final(cpu)@.regs == old(cpu)@.regs,
        final(cpu)@.trace == old(cpu)@.trace + uart_stores(uart.virt, hex_text(val)),
{
    let nibbles: u64 = 64 / 4;

    proof {
        reveal_strlit("0x");
    }
    uart_write(cpu, uart, "0x");
    let ghost mut sent: Seq<u8> = "0x".spec_bytes();
    assert(sent =~= seq![0x30u8, 0x78u8]) by {
        broadcast use is_ascii_spec_bytes;

        assert(vstd::string::is_ascii("0x"));
    }
    let mut i: u64 = 0;
    while i < nibbles
        invariant
            i <= nibbles,
            nibbles == 16,
            sent == seq![0x30u8, 0x78u8] + Seq::new(i as nat, |k: int| hex_digit(nibble(val, k))),
            cpu@.regs == old(cpu)@.regs,
            cpu@.trace == old(cpu)@.trace + uart_stores(uart.virt, sent),
        decreases nibbles - i,
    {
        let shift: u64 = 60 - 4 * i;
        let digit: u64 = (val & (0xf << shift)) >> shift;
        assert(digit == (val >> shift) & 0xf && digit <= 0xf) by (bit_vector)
            requires
                digit == (val & (0xfu64 << shift)) >> shift,
                shift <= 60,
        ;
        let text = to_hex(digit);
        uart_write(cpu, uart, text);
        proof {
            lemma_uart_stores_concat(uart.virt, sent, text.spec_bytes());
            let next = sent + text.spec_bytes();
            assert(next =~= seq![0x30u8, 0x78u8] + Seq::new(
                (i + 1) as nat,
                |k: int| hex_digit(nibble(val, k)),
            ));
            sent = next;
        }
        i += 1;
    }
    assert(sent =~= hex_text(val));
}

} // verus!
