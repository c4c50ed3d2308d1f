//! Decoding of remote fence requests.
use vstd::prelude::*;

verus! {

/// Function identifier of a remote `FENCE.I`.
pub const REMOTE_FENCE_I: u64 = 0;

/// Function identifier of a remote `SFENCE.VMA`.
pub const REMOTE_SFENCE_VMA: u64 = 1;

/// The error type `AxError` of the `axerrno` crate. Nothing is read of a
/// value of it, and the decoder below returns none.
#[verifier::external_type_specification]
#[verifier::external_body]
pub struct ExAxError(axerrno::AxError);

/// A remote fence function.
#[derive(Clone, Copy, Debug, PartialEq, Eq, Structural)]
pub enum RemoteFenceFunction {
    /// FenceI
    FenceI {
        /// The hart mask.
        hart_mask: u64,
        /// The hart mask base.
        hart_mask_base: u64,
    },
    /// RemoteSFenceVMA
    RemoteSFenceVMA {
        /// The hart mask.
        hart_mask: u64,
        /// The hart mask base.
        hart_mask_base: u64,
        /// The start address.
        start_addr: u64,
        /// The size.
        size: u64,
    },
}

impl RemoteFenceFunction {
    /// Whether `function_id` names a remote fence that can be decoded.
    pub open spec fn spec_is_supported(function_id: u64) -> bool {
        function_id == REMOTE_FENCE_I || function_id == REMOTE_SFENCE_VMA
    }

    /// The remote fence that the words `args` ask for: the function
    /// identifier is word 6, its arguments are words 0 to 3.
    pub open spec fn spec_from_args(args: Seq<u64>) -> RemoteFenceFunction {
        if args[6] == REMOTE_FENCE_I {
            RemoteFenceFunction::FenceI { hart_mask: args[0], hart_mask_base: args[1] }
        } else {
            RemoteFenceFunction::RemoteSFenceVMA {
                hart_mask: args[0],
                hart_mask_base: args[1],
                start_addr: args[2],
                size: args[3],
            }
        }
    }

    /// Whether `function_id` names a remote fence that [`Self::from_args`] decodes.
    pub fn is_supported(function_id: u64) -> (r: bool)
        ensures
            r == Self::spec_is_supported(function_id),
    {
        function_id == REMOTE_FENCE_I || function_id == REMOTE_SFENCE_VMA
    }

    /// Parse the arguments to the function: `args[6]` names it, and must
    /// name one that is supported; `args[0]` to `args[3]` are its arguments.
    pub fn from_args(args: &[u64]) -> (r: axerrno::AxResult<RemoteFenceFunction>)
        requires
            args@.len() > 6,
            Self::spec_is_supported(args@[6]),
        ensures
            r == Ok::<RemoteFenceFunction, axerrno::AxError>(Self::spec_from_args(args@)),
    {
        if args[6] == REMOTE_FENCE_I {
            Ok(RemoteFenceFunction::FenceI { hart_mask: args[0], hart_mask_base: args[1] })
        } else {
            Ok(
                RemoteFenceFunction::RemoteSFenceVMA {
                    hart_mask: args[0],
                    hart_mask_base: args[1],
                    start_addr: args[2],
                    size: args[3],
                },
            )
        }
    }
}

} // verus!
