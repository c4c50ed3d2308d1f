//! Virtualization mode at time of trap.
use vstd::prelude::*;
use vstd::std_specs::convert::FromSpecImpl;
use crate::csrs::FieldValue;
use crate::csrs::defs::hstatus::Register;

verus! {

/// Width mask of the field.
pub const MASK: u64 = 0x1;

/// Place of the field's lowest bit in the register.
pub const SHIFT: usize = 7;

/// The values of the field that have a name.
#[derive(Clone, Copy, Debug, PartialEq, Eq, Structural)]
pub enum Value {
    /// User mode.
    User,
    /// Supervisor mode.
    Supervisor,
}

impl Value {
    /// The number that stands for the value in the field.
    pub open spec fn spec_number(self) -> u64 {
        match self {
            Value::User => 0,
            Value::Supervisor => 1,
        }
    }

    /// The number that stands for the value in the field.
    #[verifier::when_used_as_spec(spec_number)]
    pub fn number(self) -> (n: u64)
        ensures
            n == self.spec_number(),
    {
        match self {
            Value::User => 0,
            Value::Supervisor => 1,
        }
    }

    /// The named value that the field value `v` stands for, if it stands for one.
    pub open spec fn spec_try_from_value(v: u64) -> Option<Value> {
        if v == 0 {
            Some(Value::User)
        } else if v == 1 {
            Some(Value::Supervisor)
        } else {
            None
        }
    }

    /// The named value that the field value `v` stands for, if it stands for one.
    pub fn try_from_value(v: u64) -> (r: Option<Value>)
        ensures
            r == Self::spec_try_from_value(v),
            r matches Some(value) ==> value.number() == v,
    {
        if v == 0 {
            Some(Value::User)
        } else if v == 1 {
            Some(Value::Supervisor)
        } else {
            None
        }
    }
}

impl FromSpecImpl<Value> for FieldValue<Register> {
    open spec fn obeys_from_spec() -> bool {
        true
    }

    open spec fn from_spec(v: Value) -> FieldValue<Register> {
        FieldValue::<Register>::spec_new(MASK, SHIFT, v.number())
    }
}

impl From<Value> for FieldValue<Register> {
    /// The field holding the named value `v`.
    fn from(v: Value) -> (fv: FieldValue<Register>) {
        FieldValue::new(MASK, SHIFT, v.number())
    }
}

} // verus!
