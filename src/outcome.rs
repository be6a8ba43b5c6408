//! How an attempt ends.
use vstd::prelude::*;

verus! {

/// Why the ledger refused a template.
#[derive(Clone, Copy, Debug, PartialEq, Eq, Structural)]
pub enum RejectReason {
    /// The hotkey already holds a slot on the subnet.
    AlreadyRegistered,
    /// The nonce was already used.
    StaleNonce,
    /// The account cannot pay the burn and the tip.
    InsufficientBalance,
    /// Any other refusal.
    Other,
}

/// The failures an attempt can end in.
#[derive(Clone, Copy, Debug, PartialEq, Eq, Structural)]
pub enum ErrorKind {
    /// Every endpoint was unreachable.
    EndpointUnavailable,
    /// A chain call failed, and failed again on a fresh session.
    Chain,
    /// The wallet or the hotkey could not be resolved to key material.
    InvalidIdentity,
    /// The ledger refused the submission.
    SubmissionRejected(RejectReason),
}

/// Why an attempt ended without inclusion and without an error.
#[derive(Clone, Copy, Debug, PartialEq, Eq, Structural)]
pub enum NotIncludedReason {
    /// Every replacement round was used and nothing was included.
    RoundsExhausted,
    /// The ledger dropped the pending template.
    Dropped,
    /// The attempt's deadline passed first.
    Timeout,
    /// The caller cancelled the attempt.
    Cancelled,
}

/// A block of the ledger.
#[derive(Clone, Copy, Debug, PartialEq, Eq, Structural)]
pub struct BlockRef {
    pub number: u64,
}

/// The status of a broadcast template, as the chain reports it.
#[derive(Clone, Copy, Debug, PartialEq, Eq, Structural)]
pub enum TxStatus {
    InBlock(BlockRef),
    Finalized(BlockRef),
    Dropped,
    Invalid(RejectReason),
}

/// The terminal result of one attempt.
#[derive(Clone, Copy, Debug, PartialEq, Eq, Structural)]
pub enum SubmissionOutcome {
    Included(BlockRef),
    NotIncluded(NotIncludedReason),
    Error(ErrorKind),
}

impl SubmissionOutcome {
    /// The registration is on chain.
    pub fn is_included(&self) -> (r: bool)
        ensures
            r == (*self is Included),
    {
        match self {
            SubmissionOutcome::Included(_) => true,
            _ => false,
        }
    }
}

} // verus!
