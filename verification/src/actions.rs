//! What a call asks of the host, in the order in which it is to be done.
//!
//! An operation of the bridge decides and keeps the books. Everything that
//! happens outside of them (authorization, signatures, tokens, pools, times to
//! live, code, events) it asks for, as a list of actions. The host performs
//! them one by one; if one of them fails, the whole call is undone.
use vstd::prelude::*;

use crate::bytes::{Bytes32, Signature};
use crate::types::{Address, DataKey, FeeTier, Stored};

verus! {

/// An event that the bridge publishes.
#[derive(Clone, Copy, Debug, PartialEq, Eq, Structural)]
pub enum Event {
    Initialized { admin: Address, fee_collector: Address, fee_bps: u32 },
    CAddressFunded { asset: Address, source: Address, target: Address, amount: i128, fee: i128 },
    BatchTransferFailed { source: Address, target: Address, amount: i128 },
    BatchCompleted { source: Address, num_success: u32, num_failures: u32 },
    FeeBpsChanged { old_fee_bps: u32, new_fee_bps: u32, admin: Address },
    FeeCollectorChanged { old_collector: Address, new_collector: Address, admin: Address },
    FeeCollectorTransferred { old_collector: Address, new_collector: Address },
    AdminChanged { old_admin: Address, new_admin: Address },
    AdminTransferred { old_admin: Address, new_admin: Address },
    FeesWithdrawn { fee_collector: Address, amount: i128, asset: Address },
    ReferralRateChanged { bps: u32 },
    ReferralPaid { source: Address, referrer: Address, amount: i128, asset: Address },
    ContractPaused { admin: Address },
    ContractUnpaused { admin: Address },
    ContractUpgraded { old_hash: Bytes32, new_hash: Bytes32, admin: Address },
    UpgradeScheduled { new_hash: Bytes32, executable_after_ledger: u32, admin: Address },
    UpgradeCancelled { cancelled_hash: Bytes32, admin: Address },
    EmergencyMigrated { admin: Address, new_contract: Address },
    MigratedEntry { key: DataKey, value: Stored },
    MigratedAsset { asset: Address },
    MigratedPool { pool: Address },
    MigratedTier { tier: FeeTier },
    TokensReclaimed { admin: Address, asset: Address, amount: i128, destination: Address },
    LoyaltyTokenSet { admin: Address, token: Address, amount_per_fund: i128 },
    LoyaltyMintSkipped { recipient: Address, amount: i128, reserve: i128 },
    FeeTiersSet { admin: Address, count: u32 },
    CrossChainFunded {
        target: Address,
        chain_id: u32,
        tx_hash: Bytes32,
        amount: i128,
        fee: i128,
        asset: Address,
    },
    TimelockCreated {
        source: Address,
        target: Address,
        id: u64,
        amount: i128,
        asset: Address,
        release_time: u64,
        cliff_time: u64,
    },
    TimelockClaimed { target: Address, id: u64, net_amount: i128, fee: i128, asset: Address },
    InstanceTtlExtended { admin: Address, ttl: u32 },
    PersistentTtlExtended { admin: Address, asset: Address, ttl: u32 },
    TimelockTtlExtended { admin: Address, id: u64, ttl: u32 },
    CommitmentTtlExtended { admin: Address, id: u64, ttl: u32 },
    RelayerTtlExtended { admin: Address, pubkey: Bytes32, ttl: u32 },
    SourcePersistentTtlExtended { admin: Address, source: Address, asset: Address, ttl: u32 },
    AuthUsed { source: Address, nonce: u64 },
    CommitFund {
        source: Address,
        target: Address,
        id: u64,
        amount_hash: Bytes32,
        asset: Address,
        deadline: u64,
    },
    CommitRevealFunded {
        asset: Address,
        source: Address,
        target: Address,
        commitment_id: u64,
        amount: i128,
        fee: i128,
    },
    SwapAndFunded {
        source_asset: Address,
        target_asset: Address,
        source: Address,
        target: Address,
        source_amount: i128,
        received_amount: i128,
        fee: i128,
    },
    MetaSignerRegistered { source: Address, pubkey: Bytes32 },
    MetaFundExecuted {
        asset: Address,
        source: Address,
        target: Address,
        amount: i128,
        fee: i128,
        nonce: u64,
    },
}

/// Something that the host is asked to do.
#[derive(Clone, Copy, Debug, PartialEq, Eq, Structural)]
pub enum Action {
    /// Fail unless the address has authorized the call.
    RequireAuth { address: Address },
    /// Fail unless the signature over the message is that of the key.
    VerifySignature { pubkey: Bytes32, message: Bytes32, signature: Signature },
    /// Move tokens.
    Transfer { asset: Address, from: Address, to: Address, amount: i128 },
    /// Have the pool swap what it has received. Hand on what it reports, and what
    /// the bridge held of the target asset right before and right after.
    InvokeSwap { pool: Address, target_asset: Address, min_amount_out: i128, to: Address },
    /// Read what the bridge holds of the token, and do what
    /// `settle_loyalty` says for that reserve.
    RewardLoyalty { token: Address, recipient: Address, amount: i128 },
    /// Let the instance entries live until `extend_to` ledgers from now, if they
    /// would live for less than `threshold` ledgers.
    ExtendInstanceTtl { threshold: u32, extend_to: u32 },
    /// The same for one persistent entry.
    ExtendTtl { key: DataKey, threshold: u32, extend_to: u32 },
    /// Replace the code of the bridge.
    UpdateWasm { hash: Bytes32 },
    /// Publish an event.
    Publish { event: Event },
}

} // verus!
