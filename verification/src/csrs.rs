//! The control and status registers that the hypervisor works with: their
//! numbers, and the bit fields of those it reads and writes by field.
use vstd::prelude::*;
use core::marker::PhantomData;

pub mod defs;

pub use crate::consts::traps;

verus! {

/// The bits of the register value `val` that lie in the field of width mask
/// `mask` at bit `shift`, moved down to bit 0.
pub open spec fn field_read(mask: u64, shift: usize, val: u64) -> u64 {
    (val & (mask << shift)) >> shift
}

/// A field of width mask `mask` at bit `shift` lies within the 64 bits of a register.
pub open spec fn field_fits(mask: u64, shift: usize) -> bool {
    shift < 64 && mask <= u64::MAX >> shift
}

/// The register value `val` with its field replaced by `value`; bits of
/// `value` beyond the field's width are dropped.
pub open spec fn field_modify(mask: u64, shift: usize, value: u64, val: u64) -> u64 {
    (val & !(mask << shift)) | ((value & mask) << shift)
}

/// A field that was written reads back as the share of the value that its
/// width admits, and a write to it changes no bit outside of it.
pub proof fn lemma_field_read_after_modify(mask: u64, shift: usize, value: u64, val: u64)
    requires
        field_fits(mask, shift),
    ensures
        field_read(mask, shift, field_modify(mask, shift, value, val)) == value & mask,
        field_modify(mask, shift, value, val) & !(mask << shift) == val & !(mask << shift),
{
    let s = shift as u64;
    assert(s < 64 && mask <= u64::MAX >> s ==> ((((val & !(mask << s)) | ((value & mask) << s))
        & (mask << s)) >> s) == value & mask) by (bit_vector);
    assert(((val & !(mask << s)) | ((value & mask) << s)) & !(mask << s) == val & !(mask << s))
        by (bit_vector);
}

/// A bit field of the register `R`: `mask` has one bit set for each bit of the
/// field, from bit 0 up, and `shift` is the place of the field's lowest bit
/// in the register.
pub struct Field<R> {
    mask: u64,
    shift: usize,
    associated_register: PhantomData<R>,
}

impl<R> Clone for Field<R> {
    fn clone(&self) -> (field: Field<R>)
        ensures
            field == *self,
    {
        *self
    }
}

impl<R> Copy for Field<R> {

}

impl<R> Field<R> {
    #[verifier::type_invariant]
    spec fn shift_in_range(self) -> bool {
        self.shift < 64
    }

    /// The mask of the field, not shifted.
    pub closed spec fn spec_mask(self) -> u64 {
        self.mask
    }

    /// The place of the field's lowest bit.
    pub closed spec fn spec_shift(self) -> usize {
        self.shift
    }

    /// The field of width mask `mask` at bit `shift`.
    pub fn new(mask: u64, shift: usize) -> (field: Field<R>)
        requires
            shift < 64,
        ensures
            field.spec_mask() == mask,
            field.spec_shift() == shift,
    {
        Field { mask, shift, associated_register: PhantomData }
    }

    /// The mask of the field, not shifted.
    #[verifier::when_used_as_spec(spec_mask)]
    pub fn mask(self) -> (mask: u64)
        ensures
            mask == self.spec_mask(),
    {
        self.mask
    }

    /// The place of the field's lowest bit.
    #[verifier::when_used_as_spec(spec_shift)]
    pub fn shift(self) -> (shift: usize)
        ensures
            shift == self.spec_shift(),
            shift < 64,
    {
        proof {
            use_type_invariant(self);
        }
        self.shift
    }

    /// The value of the field in the register value `val`.
    pub fn read(self, val: u64) -> (r: u64)
        ensures
            r == field_read(self.mask(), self.shift(), val),
    {
        proof {
            use_type_invariant(self);
        }
        (val & (self.mask << self.shift)) >> self.shift
    }

    /// Whether any bit of the field is set in the register value `val`.
    pub fn is_set(self, val: u64) -> (r: bool)
        ensures
            r == (val & (self.mask() << self.shift()) != 0),
    {
        proof {
            use_type_invariant(self);
        }
        val & (self.mask << self.shift) != 0
    }

    /// The field holding `value`; bits of `value` beyond the field's width are dropped.
    pub fn val(self, value: u64) -> (fv: FieldValue<R>)
        ensures
            fv == FieldValue::<R>::spec_new(self.mask(), self.shift(), value),
    {
        proof {
            use_type_invariant(self);
        }
        FieldValue::new(self.mask, self.shift, value)
    }

    /// The field with all its bits set.
    pub fn set(self) -> (fv: FieldValue<R>)
        ensures
            fv == FieldValue::<R>::spec_new(self.mask(), self.shift(), self.mask()),
    {
        self.val(self.mask)
    }

    /// The field with all its bits clear.
    pub fn clear(self) -> (fv: FieldValue<R>)
        ensures
            fv == FieldValue::<R>::spec_new(self.mask(), self.shift(), 0),
    {
        self.val(0)
    }
}

/// Values for some fields of the register `R`, in place: `mask` covers the
/// fields, and `value` holds what they are to contain.
pub struct FieldValue<R> {
    mask: u64,
    value: u64,
    associated_register: PhantomData<R>,
}

impl<R> Clone for FieldValue<R> {
    fn clone(&self) -> (fv: FieldValue<R>)
        ensures
            fv == *self,
    {
        *self
    }
}

impl<R> Copy for FieldValue<R> {

}

impl<R> FieldValue<R> {
    /// The field of width mask `mask` at bit `shift`, holding `value`.
    pub closed spec fn spec_new(mask: u64, shift: usize, value: u64) -> FieldValue<R> {
        FieldValue {
            mask: mask << shift,
            value: (value & mask) << shift,
            associated_register: PhantomData,
        }
    }

    /// A field value covers its field, and holds the field's share of the value.
    pub proof fn lemma_spec_new(mask: u64, shift: usize, value: u64)
        ensures
            Self::spec_new(mask, shift, value).mask() == mask << shift,
            Self::spec_new(mask, shift, value).value() == (value & mask) << shift,
    {
    }

    /// The field of width mask `mask` at bit `shift`, holding `value`; bits
    /// of `value` beyond the field's width are dropped.
    pub fn new(mask: u64, shift: usize, value: u64) -> (fv: FieldValue<R>)
        requires
            shift < 64,
        ensures
            fv == Self::spec_new(mask, shift, value),
            fv.mask() == mask << shift,
            fv.value() == (value & mask) << shift,
    {
        FieldValue {
            mask: mask << shift,
            value: (value & mask) << shift,
            associated_register: PhantomData,
        }
    }

    /// The bits of the register that the fields cover.
    pub closed spec fn spec_mask(self) -> u64 {
        self.mask
    }

    /// The contents of the fields, at their place in the register.
    pub closed spec fn spec_value(self) -> u64 {
        self.value
    }

    /// The bits of the register that the fields cover.
    #[verifier::when_used_as_spec(spec_mask)]
    pub fn mask(self) -> (mask: u64)
        ensures
            mask == self.spec_mask(),
    {
        self.mask
    }

    /// The contents of the fields, at their place in the register.
    #[verifier::when_used_as_spec(spec_value)]
    pub fn value(self) -> (value: u64)
        ensures
            value == self.spec_value(),
    {
        self.value
    }

    /// The register value `val` with the fields replaced by their values.
    pub fn modify(self, val: u64) -> (r: u64)
        ensures
            r == (val & !self.mask()) | self.value(),
    {
        (val & !self.mask) | self.value
    }

    /// Whether the fields hold their values in the register value `val`.
    pub fn matches_all(self, val: u64) -> (r: bool)
        ensures
            r == (val & self.mask() == self.value()),
    {
        val & self.mask == self.value
    }

    /// The values of both: those of `self` and those of `rhs`.
    pub fn and(self, rhs: FieldValue<R>) -> (fv: FieldValue<R>)
        ensures
            fv.mask() == self.mask() | rhs.mask(),
            fv.value() == self.value() | rhs.value(),
    {
        FieldValue {
            mask: self.mask | rhs.mask,
            value: self.value | rhs.value,
            associated_register: PhantomData,
        }
    }
}

} // verus!
