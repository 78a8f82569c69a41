use vstd::prelude::*;

verus! {

/// Why an operation was refused.
#[derive(Clone, Copy, Debug, PartialEq, Eq, Structural)]
pub enum HtlcError {
    /// No contract is stored under the hash lock.
    NotFound,
    /// A contract is already stored under the hash lock.
    AlreadyExists,
    /// The contract was already claimed or refunded.
    AlreadyFinalized,
    /// The preimage does not hash to the lock.
    InvalidPreimage,
    /// The timeout height has been reached: the contract can no longer be claimed.
    Expired,
    /// The timeout height has not been reached: the contract cannot be refunded yet.
    NotYetExpired,
    /// The user has no reward to claim.
    NoRewardAvailable,
    /// An argument has the wrong length or shape.
    InvalidInput,
    /// The store holds bytes that are not a well-formed contract.
    StorageFailure,
    /// The ledger refused to move the funds.
    TransferFailure,
}

impl HtlcError {
    pub open spec fn spec_code(self) -> int {
        match self {
            HtlcError::NotFound => -1,
            HtlcError::NoRewardAvailable => -2,
            HtlcError::AlreadyExists => -3,
            HtlcError::AlreadyFinalized => -4,
            HtlcError::InvalidPreimage => -5,
            HtlcError::Expired => -6,
            HtlcError::NotYetExpired => -7,
            HtlcError::InvalidInput => -8,
            HtlcError::StorageFailure => -9,
            HtlcError::TransferFailure => -10,
        }
    }

    /// The negative result code that reports this error to an invoker.
    pub fn code(&self) -> (r: i32)
        ensures
            r == self.spec_code(),
            r < 0,
    {
        match self {
            HtlcError::NotFound => -1,
            HtlcError::NoRewardAvailable => -2,
            HtlcError::AlreadyExists => -3,
            HtlcError::AlreadyFinalized => -4,
            HtlcError::InvalidPreimage => -5,
            HtlcError::Expired => -6,
            HtlcError::NotYetExpired => -7,
            HtlcError::InvalidInput => -8,
            HtlcError::StorageFailure => -9,
            HtlcError::TransferFailure => -10,
        }
    }
}

/// What kind of state change an event reports.
#[derive(Clone, Copy, Debug, PartialEq, Eq, Structural)]
pub enum EventKind {
    FundsLocked,
    FundsClaimed,
    FundsRefunded,
    RewardClaimed,
}

/// A notification of a state change, for the host to emit.
#[derive(Clone, Debug)]
pub struct Event {
    pub kind: EventKind,
    /// The hash lock of the contract, or the user who claimed a reward.
    pub subject: Vec<u8>,
}

/// Funds that a settled contract releases, for the host's ledger to move.
#[derive(Clone, Debug)]
pub struct Settlement {
    pub recipient: Vec<u8>,
    pub amount: u64,
    pub event: Event,
}

} // verus!
