//! Supervisor interrupt enable register.
use vstd::prelude::*;
use crate::csrs::Field;

verus! {

/// Names the `sie` register in the type of its fields.
#[derive(Clone, Copy, Debug)]
pub struct Register;

/// Supervisor software interrupt.
pub fn ssoft() -> (field: Field<Register>)
    ensures
        field.mask() == 0x1,
        field.shift() == 1,
{
    Field::new(0x1, 1)
}

/// Supervisor timer interrupt.
pub fn stimer() -> (field: Field<Register>)
    ensures
        field.mask() == 0x1,
        field.shift() == 5,
{
    Field::new(0x1, 5)
}

/// Supervisor external interrupt.
pub fn sext() -> (field: Field<Register>)
    ensures
        field.mask() == 0x1,
        field.shift() == 9,
{
    Field::new(0x1, 9)
}

} // verus!
