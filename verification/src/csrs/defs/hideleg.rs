//! Hypervisor interrupt delegation register.
use vstd::prelude::*;
use crate::csrs::Field;

verus! {

/// Names the `hideleg` register in the type of its fields.
#[derive(Clone, Copy, Debug)]
pub struct Register;

/// VS-mode software interrupt.
pub fn vssoft() -> (field: Field<Register>)
    ensures
        field.mask() == 0x1,
        field.shift() == 2,
{
    Field::new(0x1, 2)
}

/// VS-mode timer interrupt.
pub fn vstimer() -> (field: Field<Register>)
    ensures
        field.mask() == 0x1,
        field.shift() == 6,
{
    Field::new(0x1, 6)
}

/// VS-mode external interrupt.
pub fn vsext() -> (field: Field<Register>)
    ensures
        field.mask() == 0x1,
        field.shift() == 10,
{
    Field::new(0x1, 10)
}

} // verus!
