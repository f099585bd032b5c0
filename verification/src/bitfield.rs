//! Bit fields of a 64-bit register value, with the semantics of the
//! `Field` / `FieldValue` / `LocalRegisterCopy` types of the `register`
//! (tock-registers) crate, specialised to `u64`.
use vstd::prelude::*;

verus! {

/// A field of a register: `mask` is unshifted, `shift` is the position of
/// its least significant bit.
#[derive(Clone, Copy, Debug)]
pub struct Field {
    pub mask: u64,
    pub shift: usize,
}

/// A value for one or more fields: `mask` and `value` are already shifted
/// into place.
#[derive(Clone, Copy, Debug)]
pub struct FieldValue {
    pub mask: u64,
    pub value: u64,
}

impl Field {
    pub fn new(mask: u64, shift: usize) -> (f: Field)
        ensures
            f.mask == mask,
            f.shift == shift,
    {
        Field { mask, shift }
    }

    /// Whether one or more bits of the field are set in `val`.
    pub fn is_set(&self, val: u64) -> (r: bool)
        requires
            self.shift < 64,
        ensures
            r == (val & (self.mask << self.shift) != 0),
    {
        val & (self.mask << self.shift) != 0
    }

    /// The field set to `value` (cut to the field's width).
    pub fn val(&self, value: u64) -> (fv: FieldValue)
        requires
            self.shift < 64,
        ensures
            fv.mask == self.mask << self.shift,
            fv.value == (value & self.mask) << self.shift,
    {
        FieldValue::new(self.mask, self.shift, value)
    }
}

impl FieldValue {
    pub fn new(mask: u64, shift: usize, value: u64) -> (fv: FieldValue)
        requires
            shift < 64,
        ensures
            fv.mask == mask << shift,
            fv.value == (value & mask) << shift,
    {
        FieldValue { mask: mask << shift, value: (value & mask) << shift }
    }

    /// Both field values together (the crate's `+` on `FieldValue`).
    pub fn combine(self, rhs: FieldValue) -> (fv: FieldValue)
        ensures
            fv.mask == self.mask | rhs.mask,
            fv.value == self.value | rhs.value,
    {
        FieldValue { mask: self.mask | rhs.mask, value: self.value | rhs.value }
    }

    /// Whether every bit of the fields in `val` equals this value.
    pub fn matches_all(&self, val: u64) -> (r: bool)
        ensures
            r == (val & self.mask == self.value),
    {
        val & self.mask == self.value
    }
}

} // verus!
