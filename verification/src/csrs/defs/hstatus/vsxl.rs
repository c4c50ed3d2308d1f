//! Native base integer ISA width for VS-mode.
use vstd::prelude::*;
use vstd::std_specs::convert::FromSpecImpl;
use crate::csrs::FieldValue;
use crate::csrs::defs::hstatus::Register;

verus! {

/// Width mask of the field.
pub const MASK: u64 = 0x3;

/// Place of the field's lowest bit in the register.
pub const SHIFT: usize = 32;

/// The values of the field that have a name.
#[derive(Clone, Copy, Debug, PartialEq, Eq, Structural)]
pub enum Value {
    /// 32-bit.
    Xlen32,
    /// 64-bit.
    Xlen64,
}

impl Value {
    /// The number that stands for the value in the field.
    pub open spec fn spec_number(self) -> u64 {
        match self {
            Value::Xlen32 => 1,
            Value::Xlen64 => 2,
        }
    }

    /// The number that stands for the value in the field.
    #[verifier::when_used_as_spec(spec_number)]
    pub fn number(self) -> (n: u64)
        ensures
            n == self.spec_number(),
    {
        match self {
            Value::Xlen32 => 1,
            Value::Xlen64 => 2,
        }
    }

    /// The named value that the field value `v` stands for, if it stands for one.
    pub open spec fn spec_try_from_value(v: u64) -> Option<Value> {
        if v == 1 {
            Some(Value::Xlen32)
        } else if v == 2 {
            Some(Value::Xlen64)
        } else {
            None
        }
    }

    /// The named value that the field value `v` stands for, if it stands for one.
    pub fn try_from_value(v: u64) -> (r: Option<Value>)
        ensures
            r == Self::spec_try_from_value(v),
            r matches Some(value) ==> value.number() == v,
    {
        if v == 1 {
            Some(Value::Xlen32)
        } else if v == 2 {
            Some(Value::Xlen64)
        } else {
            None
        }
    }
}

impl FromSpecImpl<Value> for FieldValue<Register> {
    open spec fn obeys_from_spec() -> bool {
        true
    }

    open spec fn from_spec(v: Value) -> FieldValue<Register> {
        FieldValue::<Register>::spec_new(MASK, SHIFT, v.number())
    }
}

impl From<Value> for FieldValue<Register> {
    /// The field holding the named value `v`.
    fn from(v: Value) -> (fv: FieldValue<Register>) {
        FieldValue::new(MASK, SHIFT, v.number())
    }
}

} // verus!
