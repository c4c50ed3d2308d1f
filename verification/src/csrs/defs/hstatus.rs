//! Hypervisor status register.
use vstd::prelude::*;
use crate::csrs::Field;

pub mod spv;
pub mod spvp;
pub mod vsxl;

verus! {

/// Names the `hstatus` register in the type of its fields.
#[derive(Clone, Copy, Debug)]
pub struct Register;

/// VS mode endianness control.
pub fn vsbe() -> (field: Field<Register>)
    ensures
        field.mask() == 0x1,
        field.shift() == 6,
{
    Field::new(0x1, 6)
}

/// A guest virtual address was written to stval as a result of the trap.
pub fn gva() -> (field: Field<Register>)
    ensures
        field.mask() == 0x1,
        field.shift() == 6,
{
    Field::new(0x1, 6)
}

/// Virtualization mode at time of trap.
pub fn spv() -> (field: Field<Register>)
    ensures
        field.mask() == 0x1,
        field.shift() == 7,
{
    Field::new(0x1, 7)
}

/// Privilege level the virtual hart was executing before entering HS-mode.
pub fn spvp() -> (field: Field<Register>)
    ensures
        field.mask() == 0x1,
        field.shift() == 8,
{
    Field::new(0x1, 8)
}

/// Allow hypervisor instructions in U-mode.
pub fn hu() -> (field: Field<Register>)
    ensures
        field.mask() == 0x1,
        field.shift() == 9,
{
    Field::new(0x1, 9)
}

/// Selects the guest external interrupt source for VS external interrupts.
pub fn vgein() -> (field: Field<Register>)
    ensures
        field.mask() == 0x3f,
        field.shift() == 12,
{
    Field::new(0x3f, 12)
}

/// Trap on SFENCE, SINVAL, or changes to vsatp.
pub fn vtvm() -> (field: Field<Register>)
    ensures
        field.mask() == 0x1,
        field.shift() == 20,
{
    Field::new(0x1, 20)
}

/// Trap on WFI timeout.
pub fn vtw() -> (field: Field<Register>)
    ensures
        field.mask() == 0x1,
        field.shift() == 21,
{
    Field::new(0x1, 21)
}

/// Trap SRET instruction.
pub fn vtsr() -> (field: Field<Register>)
    ensures
        field.mask() == 0x1,
        field.shift() == 22,
{
    Field::new(0x1, 22)
}

/// Native base integer ISA width for VS-mode.
pub fn vsxl() -> (field: Field<Register>)
    ensures
        field.mask() == 0x3,
        field.shift() == 32,
{
    Field::new(0x3, 32)
}

} // verus!
