//! Hypervisor exception delegation register.
use vstd::prelude::*;
use crate::csrs::Field;

verus! {

/// Names the `hedeleg` register in the type of its fields.
#[derive(Clone, Copy, Debug)]
pub struct Register;

/// Instruction address misaligned.
pub fn instr_misaligned() -> (field: Field<Register>)
    ensures
        field.mask() == 0x1,
        field.shift() == 0,
{
    Field::new(0x1, 0)
}

/// Instruction access fault.
pub fn instr_fault() -> (field: Field<Register>)
    ensures
        field.mask() == 0x1,
        field.shift() == 1,
{
    Field::new(0x1, 1)
}

/// Illegal instruction.
pub fn illegal_instr() -> (field: Field<Register>)
    ensures
        field.mask() == 0x1,
        field.shift() == 2,
{
    Field::new(0x1, 2)
}

/// Breakpoint.
pub fn breakpoint() -> (field: Field<Register>)
    ensures
        field.mask() == 0x1,
        field.shift() == 3,
{
    Field::new(0x1, 3)
}

/// Load address misaligned.
pub fn load_misaligned() -> (field: Field<Register>)
    ensures
        field.mask() == 0x1,
        field.shift() == 4,
{
    Field::new(0x1, 4)
}

/// Load access fault.
pub fn load_fault() -> (field: Field<Register>)
    ensures
        field.mask() == 0x1,
        field.shift() == 5,
{
    Field::new(0x1, 5)
}

/// Store address misaligned.
pub fn store_misaligned() -> (field: Field<Register>)
    ensures
        field.mask() == 0x1,
        field.shift() == 6,
{
    Field::new(0x1, 6)
}

/// Store access fault.
pub fn store_fault() -> (field: Field<Register>)
    ensures
        field.mask() == 0x1,
        field.shift() == 7,
{
    Field::new(0x1, 7)
}

/// User environment call.
pub fn u_ecall() -> (field: Field<Register>)
    ensures
        field.mask() == 0x1,
        field.shift() == 8,
{
    Field::new(0x1, 8)
}

/// Instruction page fault.
pub fn instr_page_fault() -> (field: Field<Register>)
    ensures
        field.mask() == 0x1,
        field.shift() == 12,
{
    Field::new(0x1, 12)
}

/// Load page fault.
pub fn load_page_fault() -> (field: Field<Register>)
    ensures
        field.mask() == 0x1,
        field.shift() == 13,
{
    Field::new(0x1, 13)
}

/// Store page fault.
pub fn store_page_fault() -> (field: Field<Register>)
    ensures
        field.mask() == 0x1,
        field.shift() == 15,
{
    Field::new(0x1, 15)
}

} // verus!
