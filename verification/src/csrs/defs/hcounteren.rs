//! Hypervisor counter enable register.
use vstd::prelude::*;
use crate::csrs::Field;

verus! {

/// Names the `hcounteren` register in the type of its fields.
#[derive(Clone, Copy, Debug)]
pub struct Register;

/// Cycle.
pub fn cycle() -> (field: Field<Register>)
    ensures
        field.mask() == 0x1,
        field.shift() == 0,
{
    Field::new(0x1, 0)
}

/// Time.
pub fn time() -> (field: Field<Register>)
    ensures
        field.mask() == 0x1,
        field.shift() == 1,
{
    Field::new(0x1, 1)
}

/// Instret.
pub fn instret() -> (field: Field<Register>)
    ensures
        field.mask() == 0x1,
        field.shift() == 2,
{
    Field::new(0x1, 2)
}

/// HPM.
pub fn hpm() -> (field: Field<Register>)
    ensures
        field.mask() == 0x1fffffff,
        field.shift() == 3,
{
    Field::new(0x1fffffff, 3)
}

} // verus!
