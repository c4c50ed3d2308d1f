//! Addresses and access flags that pass between the vCPU and its caller.
use vstd::prelude::*;

verus! {

/// A guest-physical address.
#[derive(Clone, Copy, Debug, PartialEq, Eq, Structural)]
pub struct GuestPhysAddr(pub u64);

/// A host-physical address.
#[derive(Clone, Copy, Debug, PartialEq, Eq, Structural)]
pub struct HostPhysAddr(pub u64);

/// The kinds of access that a mapping allows, one bit each; no bit set means none.
#[derive(Clone, Copy, Debug, PartialEq, Eq, Structural)]
pub struct MappingFlags(pub u64);

} // verus!
