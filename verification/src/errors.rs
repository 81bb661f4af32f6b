//! The error codes that an operation of the bridge can return.
use vstd::prelude::*;

verus! {

/// All errors that an operation of the bridge may return.
///
/// An operation that returns one of these has changed nothing.
#[derive(Clone, Copy, Debug, PartialEq, Eq, Structural)]
pub enum BridgeError {
    /// The bridge has not been initialized yet.
    NotInitialized,
    /// `initialize` was called on an initialized bridge.
    AlreadyInitialized,
    /// A token amount is not positive, or is below the configured minimum.
    InvalidAmount,
    /// A rate in basis points exceeds its maximum.
    FeeTooHigh,
    /// The targets and amounts of a batch have different lengths.
    MismatchedArrays,
    /// The bridge is paused.
    ContractPaused,
    /// The target is on the blocklist.
    AddressBlocked,
    /// Allowlist mode is on and the target is not allowlisted.
    AddressNotAllowlisted,
    /// A withdrawal or reclaim exceeds what is available.
    InsufficientReclaimable,
    /// The asset is not on the whitelist.
    AssetNotWhitelisted,
    /// The source would exceed its daily transfer limit.
    DailyLimitExceeded,
    /// The supplied sequential nonce is not the stored one.
    DuplicateNonce,
    /// The deadline has passed.
    TransactionExpired,
    /// No loyalty token has been configured.
    LoyaltyTokenNotSet,
    /// The cross-chain transaction has already been processed.
    ReplayedNonce,
    /// A signature comes from a key that is not a registered relayer.
    NotRelayer,
    /// There are fewer relayers, or relayer signatures, than the threshold.
    BelowThreshold,
    /// The threshold would exceed the number of registered relayers.
    ThresholdExceedsRelayers,
    /// No timelock entry has the given id.
    TimelockNotFound,
    /// The release time of the timelock has not been reached.
    TimelockNotMatured,
    /// The release time is not in the future, or the cliff lies after it.
    InvalidReleaseTime,
    /// This may not be done now (a second claim, a handoff that was not proposed, a
    /// second scheduled upgrade).
    Unauthorized,
    /// The authorization nonce has already been used.
    AuthNonceAlreadyUsed,
    /// The ledger sequence is outside the window of the authorization entry.
    AuthNonceExpired,
    /// No upgrade has been scheduled.
    UpgradeNotScheduled,
    /// The given hash is not the scheduled one.
    UpgradeHashMismatch,
    /// The timelock of the scheduled upgrade has not elapsed.
    UpgradeTimelockActive,
    /// A fee withdrawal exceeds the maximum per call.
    WithdrawExceedsLimit,
    /// An arithmetic operation left the range of `i128`.
    Overflow,
    /// No commitment has the given id.
    CommitmentNotFound,
    /// The commitment has already been revealed.
    CommitmentAlreadyRevealed,
    /// The deadline of the commitment has passed.
    CommitmentExpired,
    /// The revealed amount and nonce do not hash to the committed value.
    CommitmentHashMismatch,
    /// The minimum delay between commit and reveal has not elapsed.
    CommitmentNotMatured,
    /// The swap yielded less than the requested minimum.
    SlippageExceeded,
    /// The pool returned nothing.
    SwapFailed,
    /// The signature of a meta-transaction is malformed (reserved).
    MetaTxInvalidSignature,
    /// The deadline of the meta-transaction has passed.
    MetaTxExpired,
    /// The nonce of the meta-transaction has already been used.
    MetaTxNonceAlreadyUsed,
    /// The bridge has been migrated away from and is inactive for good.
    ContractDeactivated,
    /// A list exceeds the maximum batch size.
    BatchTooLarge,
    /// The textual form of an address is too long.
    InvalidAddress,
    /// A relayer key occurs more than once among the signatures.
    DuplicateRelayerSignature,
    /// The pool of the swap route is not on the pool whitelist.
    PoolNotWhitelisted,
    /// The swap route does not have exactly one pool.
    MultiHopNotSupported,
    /// A call was made while another one was in progress.
    Reentrant,
    /// There are more fee tiers than allowed.
    TooManyFeeTiers,
    /// The requested time to live is below the minimum.
    InvalidTtl,
    /// The key is not the one that the source registered.
    MetaTxPubkeySourceMismatch,
}

impl BridgeError {
    /// The number by which clients know an error. Numbers are never reused.
    pub open spec fn spec_code(self) -> u32 {
        match self {
            BridgeError::NotInitialized => 1,
            BridgeError::AlreadyInitialized => 2,
            BridgeError::InvalidAmount => 3,
            BridgeError::FeeTooHigh => 4,
            BridgeError::MismatchedArrays => 5,
            BridgeError::ContractPaused => 6,
            BridgeError::AddressBlocked => 7,
            BridgeError::AddressNotAllowlisted => 8,
            BridgeError::InsufficientReclaimable => 9,
            BridgeError::AssetNotWhitelisted => 10,
            BridgeError::DailyLimitExceeded => 11,
            BridgeError::DuplicateNonce => 12,
            BridgeError::TransactionExpired => 13,
            BridgeError::LoyaltyTokenNotSet => 14,
            BridgeError::ReplayedNonce => 15,
            BridgeError::NotRelayer => 16,
            BridgeError::BelowThreshold => 17,
            BridgeError::ThresholdExceedsRelayers => 18,
            BridgeError::TimelockNotFound => 19,
            BridgeError::TimelockNotMatured => 20,
            BridgeError::InvalidReleaseTime => 21,
            BridgeError::Unauthorized => 22,
            BridgeError::AuthNonceAlreadyUsed => 23,
            BridgeError::AuthNonceExpired => 24,
            BridgeError::UpgradeNotScheduled => 25,
            BridgeError::UpgradeHashMismatch => 26,
            BridgeError::UpgradeTimelockActive => 27,
            BridgeError::WithdrawExceedsLimit => 28,
            BridgeError::Overflow => 29,
            BridgeError::CommitmentNotFound => 30,
            BridgeError::CommitmentAlreadyRevealed => 31,
            BridgeError::CommitmentExpired => 32,
            BridgeError::CommitmentHashMismatch => 33,
            BridgeError::CommitmentNotMatured => 34,
            BridgeError::SlippageExceeded => 35,
            BridgeError::SwapFailed => 36,
            BridgeError::MetaTxInvalidSignature => 37,
            BridgeError::MetaTxExpired => 38,
            BridgeError::MetaTxNonceAlreadyUsed => 39,
            BridgeError::ContractDeactivated => 40,
            BridgeError::BatchTooLarge => 41,
            BridgeError::InvalidAddress => 42,
            BridgeError::MultiHopNotSupported => 43,
            BridgeError::Reentrant => 44,
            BridgeError::DuplicateRelayerSignature => 45,
            BridgeError::PoolNotWhitelisted => 46,
            BridgeError::TooManyFeeTiers => 47,
            BridgeError::InvalidTtl => 48,
            BridgeError::MetaTxPubkeySourceMismatch => 49,
        }
    }

    /// Returns the number by which clients know this error.
    pub fn code(self) -> (code: u32)
        ensures
            code == self.spec_code(),
            1 <= code <= 49,
    {
        match self {
            BridgeError::NotInitialized => 1,
            BridgeError::AlreadyInitialized => 2,
            BridgeError::InvalidAmount => 3,
            BridgeError::FeeTooHigh => 4,
            BridgeError::MismatchedArrays => 5,
            BridgeError::ContractPaused => 6,
            BridgeError::AddressBlocked => 7,
            BridgeError::AddressNotAllowlisted => 8,
            BridgeError::InsufficientReclaimable => 9,
            BridgeError::AssetNotWhitelisted => 10,
            BridgeError::DailyLimitExceeded => 11,
            BridgeError::DuplicateNonce => 12,
            BridgeError::TransactionExpired => 13,
            BridgeError::LoyaltyTokenNotSet => 14,
            BridgeError::ReplayedNonce => 15,
            BridgeError::NotRelayer => 16,
            BridgeError::BelowThreshold => 17,
            BridgeError::ThresholdExceedsRelayers => 18,
            BridgeError::TimelockNotFound => 19,
            BridgeError::TimelockNotMatured => 20,
            BridgeError::InvalidReleaseTime => 21,
            BridgeError::Unauthorized => 22,
            BridgeError::AuthNonceAlreadyUsed => 23,
            BridgeError::AuthNonceExpired => 24,
            BridgeError::UpgradeNotScheduled => 25,
            BridgeError::UpgradeHashMismatch => 26,
            BridgeError::UpgradeTimelockActive => 27,
            BridgeError::WithdrawExceedsLimit => 28,
            BridgeError::Overflow => 29,
            BridgeError::CommitmentNotFound => 30,
            BridgeError::CommitmentAlreadyRevealed => 31,
            BridgeError::CommitmentExpired => 32,
            BridgeError::CommitmentHashMismatch => 33,
            BridgeError::CommitmentNotMatured => 34,
            BridgeError::SlippageExceeded => 35,
            BridgeError::SwapFailed => 36,
            BridgeError::MetaTxInvalidSignature => 37,
            BridgeError::MetaTxExpired => 38,
            BridgeError::MetaTxNonceAlreadyUsed => 39,
            BridgeError::ContractDeactivated => 40,
            BridgeError::BatchTooLarge => 41,
            BridgeError::InvalidAddress => 42,
            BridgeError::MultiHopNotSupported => 43,
            BridgeError::Reentrant => 44,
            BridgeError::DuplicateRelayerSignature => 45,
            BridgeError::PoolNotWhitelisted => 46,
            BridgeError::TooManyFeeTiers => 47,
            BridgeError::InvalidTtl => 48,
            BridgeError::MetaTxPubkeySourceMismatch => 49,
        }
    }
}

/// No two errors share a number.
pub proof fn codes_are_distinct(a: BridgeError, b: BridgeError)
    ensures
        a.spec_code() == b.spec_code() <==> a == b,
{
}

/// The numbers of the errors, in the order in which they are published: the first is
/// number one.
pub proof fn codes_follow_the_list(i: int)
    requires
        0 <= i < 49,
    ensures
        seq![
            BridgeError::NotInitialized,
            BridgeError::AlreadyInitialized,
            BridgeError::InvalidAmount,
            BridgeError::FeeTooHigh,
            BridgeError::MismatchedArrays,
            BridgeError::ContractPaused,
            BridgeError::AddressBlocked,
            BridgeError::AddressNotAllowlisted,
            BridgeError::InsufficientReclaimable,
            BridgeError::AssetNotWhitelisted,
            BridgeError::DailyLimitExceeded,
            BridgeError::DuplicateNonce,
            BridgeError::TransactionExpired,
            BridgeError::LoyaltyTokenNotSet,
            BridgeError::ReplayedNonce,
            BridgeError::NotRelayer,
            BridgeError::BelowThreshold,
            BridgeError::ThresholdExceedsRelayers,
            BridgeError::TimelockNotFound,
            BridgeError::TimelockNotMatured,
            BridgeError::InvalidReleaseTime,
            BridgeError::Unauthorized,
            BridgeError::AuthNonceAlreadyUsed,
            BridgeError::AuthNonceExpired,
            BridgeError::UpgradeNotScheduled,
            BridgeError::UpgradeHashMismatch,
            BridgeError::UpgradeTimelockActive,
            BridgeError::WithdrawExceedsLimit,
            BridgeError::Overflow,
            BridgeError::CommitmentNotFound,
            BridgeError::CommitmentAlreadyRevealed,
            BridgeError::CommitmentExpired,
            BridgeError::CommitmentHashMismatch,
            BridgeError::CommitmentNotMatured,
            BridgeError::SlippageExceeded,
            BridgeError::SwapFailed,
            BridgeError::MetaTxInvalidSignature,
            BridgeError::MetaTxExpired,
            BridgeError::MetaTxNonceAlreadyUsed,
            BridgeError::ContractDeactivated,
            BridgeError::BatchTooLarge,
            BridgeError::InvalidAddress,
            BridgeError::MultiHopNotSupported,
            BridgeError::Reentrant,
            BridgeError::DuplicateRelayerSignature,
            BridgeError::PoolNotWhitelisted,
            BridgeError::TooManyFeeTiers,
            BridgeError::InvalidTtl,
            BridgeError::MetaTxPubkeySourceMismatch,
        ][i].spec_code() == i + 1,
{
}

} // verus!
