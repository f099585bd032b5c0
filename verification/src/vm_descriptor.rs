//! Fields of an AArch64 stage-1 page descriptor that user space reads and
//! writes: access permissions, unprivileged execute-never, and the two
//! software-defined bits that mark copy-on-write and shared ("library")
//! pages.
use vstd::prelude::*;
use crate::bitfield::{Field, FieldValue};

verus! {

/// Mask of the access permission field, bits [7:6].
pub const AP_MASK: u64 = 0xc0;

/// `AP` = `0b01`: read/write at EL1 and EL0.
pub const AP_RW_EL1_EL0_BITS: u64 = 0x40;

/// `AP` = `0b11`: read-only at EL1 and EL0.
pub const AP_RO_EL1_EL0_BITS: u64 = 0xc0;

/// Unprivileged execute-never, bit 54.
pub const UXN_BIT: u64 = 0x0040_0000_0000_0000;

/// Copy-on-write marker, software bit 55.
pub const COW_BIT: u64 = 0x0080_0000_0000_0000;

/// Shared ("library") page marker, software bit 56.
pub const LIB_BIT: u64 = 0x0100_0000_0000_0000;

/// The `AP` field.
pub fn ap() -> (f: Field)
    ensures
        f.mask == 3,
        f.shift == 6,
{
    Field::new(3, 6)
}

/// The `UXN` field.
pub fn uxn() -> (f: Field)
    ensures
        f.mask == 1,
        f.shift == 54,
        f.mask << f.shift == UXN_BIT,
{
    assert((1u64 << 54u64) == 0x0040_0000_0000_0000u64) by (bit_vector);
    Field::new(1, 54)
}

/// The `COW` field.
pub fn cow() -> (f: Field)
    ensures
        f.mask == 1,
        f.shift == 55,
        f.mask << f.shift == COW_BIT,
{
    assert((1u64 << 55u64) == 0x0080_0000_0000_0000u64) by (bit_vector);
    Field::new(1, 55)
}

/// The `LIB` field.
pub fn lib() -> (f: Field)
    ensures
        f.mask == 1,
        f.shift == 56,
        f.mask << f.shift == LIB_BIT,
{
    assert((1u64 << 56u64) == 0x0100_0000_0000_0000u64) by (bit_vector);
    Field::new(1, 56)
}

/// `AP::RW_EL1_EL0`.
pub fn ap_rw_el1_el0() -> (fv: FieldValue)
    ensures
        fv.mask == AP_MASK,
        fv.value == AP_RW_EL1_EL0_BITS,
{
    assert((3u64 << 6u64) == 0xc0u64 && ((1u64 & 3u64) << 6u64) == 0x40u64) by (bit_vector);
    ap().val(1)
}

/// `AP::RO_EL1_EL0`.
pub fn ap_ro_el1_el0() -> (fv: FieldValue)
    ensures
        fv.mask == AP_MASK,
        fv.value == AP_RO_EL1_EL0_BITS,
{
    assert((3u64 << 6u64) == 0xc0u64 && ((3u64 & 3u64) << 6u64) == 0xc0u64) by (bit_vector);
    ap().val(3)
}

/// A one-bit field set to `on`.
pub fn flag(f: Field, on: bool) -> (fv: FieldValue)
    requires
        f.mask == 1,
        f.shift < 64,
    ensures
        fv.mask == f.mask << f.shift,
        fv.value == (if on { f.mask << f.shift } else { 0 }),
{
    let shift = f.shift;
    assert(((1u64 & 1u64) << shift) == (1u64 << shift) && ((0u64 & 1u64) << shift) == 0u64)
        by (bit_vector);
    f.val(if on { 1 } else { 0 })
}

} // verus!
