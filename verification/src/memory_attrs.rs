//! The configuration of the ARMv8 memory attributes: the shareability and
//! cacheability of hypervisor memory, as the memory attribute indirection
//! register of EL2 holds them.
use vstd::prelude::*;
use crate::aarch64::{Cpu, Op, SysReg};

verus! {

/// The mask that clears the attribute index, bits [4:2], of a descriptor.
pub const INNER_SHARE_WRITE_BACK_WRITE_ALLOC: u64 = !0x1c;

/// Attribute encoding `0xff`: normal memory, inner and outer write-back,
/// read- and write-allocate.
pub const MAIR_NORMAL_WRITE_BACK: u64 = 0xff;

pub enum MemAttr {
    InnerShareWriteBackWriteAlloc,
    ClearMask,
}

impl MemAttr {
    /// The mask to apply to a descriptor for the attribute: both variants
    /// select attribute index 0, that is, clear bits [4:2].
    pub fn mask(&self) -> (mask: u64)
        ensures
            mask == !0x1cu64,
    {
        match *self {
            MemAttr::InnerShareWriteBackWriteAlloc => INNER_SHARE_WRITE_BACK_WRITE_ALLOC,
            MemAttr::ClearMask => INNER_SHARE_WRITE_BACK_WRITE_ALLOC,
        }
    }

    /// The complement of bits [4:2].
    pub fn clear_mask() -> (mask: u64)
        ensures
            mask == !0x1cu64,
    {
        INNER_SHARE_WRITE_BACK_WRITE_ALLOC
    }
}

/// The attribute that a value of the indirection register holds at
/// `index`: byte `index` of it.
pub open spec fn mair_attr(mair: u64, index: u64) -> u64 {
    (mair >> (8 * index) as u64) & 0xff
}

/// Programs `MAIR_EL2` so that attribute index 0 is normal write-back
/// write-allocate memory, the only kind the hypervisor uses. The other
/// seven attributes are zero.
pub fn init(cpu: &mut Cpu)
    ensures
        final(cpu)@ == old(cpu)@.step(Op::Msr(SysReg::MAIR_EL2, MAIR_NORMAL_WRITE_BACK)),
{
    cpu.msr(SysReg::MAIR_EL2, MAIR_NORMAL_WRITE_BACK);
}

/// In the value that `init` writes, attribute 0 is `0xff` and each of the
/// attributes 1 to 7 is zero.
pub proof fn lemma_mair_attributes(index: u64)
    requires
        index < 8,
    ensures
        mair_attr(MAIR_NORMAL_WRITE_BACK, index) == (if index == 0 {
            0xffu64
        } else {
            0u64
        }),
{
    let shift = (8 * index) as u64;
    assert((0xffu64 >> shift) & 0xff == (if shift == 0 {
        0xffu64
    } else {
        0u64
    })) by (bit_vector)
        requires
            shift == 0 || 8 <= shift < 64,
    ;
}

} // verus!
