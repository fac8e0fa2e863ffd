use vstd::prelude::*;

verus! {

/// Every way a faucet operation can fail. A failed operation changes nothing.
#[derive(Debug, Clone, Copy, PartialEq, Eq, Structural)]
pub enum FaucetError {
    /// The requested amount is above the ceiling of the amount policy.
    AmountExceedsPolicy,
    /// The signing identity is not the authority the holding or asset expects.
    InsufficientAuthority,
    /// The reserve holds less than the requested amount.
    InsufficientFunds,
    /// A claim marker already exists for this requester and asset.
    AlreadyClaimed,
    /// No valid proof exists for the authority label.
    NoValidProof,
    /// The holdings involved belong to different assets.
    MintMismatch,
    /// The destination holding is not owned by the requester.
    DestinationNotOwned,
    /// A balance or the supply would leave the range of `u64`.
    Overflow,
}

} // verus!
