use vstd::prelude::*;

verus! {

/// Why an instruction was refused. A refused instruction changes no account.
#[derive(Debug, Clone, Copy, PartialEq, Eq, Structural)]
pub enum HydraError {
    /// The agent name is longer than the allowed number of bytes.
    NameTooLong,
    /// The specialization is longer than the allowed number of bytes.
    SpecTooLong,
    /// The revenue share is above 10000 basis points.
    InvalidRevenueShare,
    /// The agent has been deactivated.
    AgentInactive,
    /// The parent already sits at the deepest allowed level.
    MaxDepthReached,
    /// An amount of zero was supplied.
    ZeroAmount,
    /// A root agent has no parent to distribute to.
    NoParentAgent,
    /// The parent account or wallet given is not the child's recorded parent.
    ParentMismatch,
    /// A root agent is already registered.
    RootAlreadyRegistered,
    /// The signer is not the identity that the instruction requires.
    Unauthorized,
    /// A counter would leave the 64-bit range.
    ArithmeticOverflow,
    /// The currency transfer to the parent's wallet did not go through.
    TransferFailed,
}

} // verus!
