//! The values that the bridge stores and the constants of its rules.
use vstd::prelude::*;

use crate::bytes::{Bytes32, Signature};
use crate::table::Key;

verus! {

/// The highest fee rate, in basis points.
pub const MAX_FEE_BPS: u32 = 1_000;

/// The number of basis points in the whole.
pub const FEE_DENOMINATOR: i128 = 10_000;

/// The highest share of a fee that a referrer can get, in basis points.
pub const MAX_REFERRAL_BPS: u32 = 10_000;

/// The most entries that a list handed to the bridge may have.
pub const MAX_BATCH_SIZE: u32 = 100;

/// The most fee tiers that can be set. They are searched one by one on every
/// funding call.
pub const MAX_FEE_TIERS: u32 = 50;

/// The longest time to live of an entry, in ledgers (about a year).
pub const MAX_ALLOWED_TTL: u32 = 3_110_400;

/// The shortest time to live that can be set as a maximum (about a week).
pub const MIN_ALLOWED_TTL: u32 = 120_960;

/// The remaining time to live below which an entry is in danger.
pub const CRITICAL_ENTRY_TTL_THRESHOLD: u32 = 100_000;

/// The ledgers between scheduling and executing an upgrade (about a day).
pub const UPGRADE_TIMELOCK_LEDGERS: u32 = 17_280;

/// The ledgers between a commitment and its reveal.
pub const COMMIT_REVEAL_MIN_DELAY_LEDGERS: u32 = 5;

/// The longest textual form of an address that is hashed.
pub const MAX_STRKEY_LEN: usize = 64;

/// The length of a day, in seconds.
pub const SECONDS_PER_DAY: u64 = 86_400;

/// What an address names.
#[derive(Clone, Copy, Debug, PartialEq, Eq, Structural)]
pub enum AddressKind {
    /// An account, by its Ed25519 public key.
    Account,
    /// A contract, by its hash.
    Contract,
}

/// An account or a contract on the network.
#[derive(Clone, Copy, Debug, PartialEq, Eq, Structural)]
pub struct Address {
    /// What the address names.
    pub kind: AddressKind,
    /// The key of the account or the hash of the contract.
    pub id: Bytes32,
}

/// The ledger in which a call runs.
#[derive(Clone, Copy, Debug, PartialEq, Eq, Structural)]
pub struct Ledger {
    /// The Unix time, in seconds.
    pub timestamp: u64,
    /// The number of the ledger.
    pub sequence: u32,
    /// The address of the bridge itself.
    pub contract: Address,
}

/// The names of everything that the bridge stores.
#[derive(Clone, Copy, Debug, PartialEq, Eq, Structural)]
pub enum DataKey {
    Admin,
    FeeCollector,
    FeeBps,
    Initialized,
    Paused,
    Blocked(Address),
    Allowlisted(Address),
    AllowlistMode,
    AccruedFees(Address),
    AssetWhitelist,
    TotalBridged(Address),
    TotalFeesCollected(Address),
    SourceDailyLimit(Address, Address),
    AssetFeeCap(Address),
    Nonce(Address),
    ReferralRate,
    Config,
    AssetStats(Address),
    Relayer(Bytes32),
    RelayerCount,
    RelayerThreshold,
    CrossChainNonce(Bytes32),
    DailyUsage(Address, Address, u64),
    FeeTiers,
    SourceBridgedVolume(Address),
    LoyaltyToken,
    LoyaltyAmountPerFund,
    TimelockId,
    Timelock(u64),
    UserDeposit(Address, Address),
    MaxInstanceTtl,
    MaxPersistentTtl,
    BridgeConfig,
    AuthNonce(Address),
    UsedAuthNonce(Address, u64),
    PendingUpgrade,
    CurrentWasmHash,
    PendingAdmin,
    PendingFeeCollector,
    MaxWithdrawPerTx,
    Entered,
    MinimumAmount,
    CommitmentId,
    Commitment(u64),
    MetaTxNonce(Address, u64),
    MetaSigner(Address),
    Deactivated,
    PoolWhitelist,
}

/// What is stored under a name.
#[derive(Clone, Copy, Debug, PartialEq, Eq, Structural)]
pub enum Stored {
    Flag(bool),
    Rate(u32),
    Number(u64),
    Amount(i128),
    Party(Address),
    Hash(Bytes32),
    Config(BridgeConfig),
    Roles(BridgeConfigData),
    Counters(AssetCounters),
    Timelock(TimelockEntry),
    Commitment(CommitmentEntry),
    Upgrade(PendingUpgrade),
}

/// The settings that every funding call reads.
#[derive(Clone, Copy, Debug, PartialEq, Eq, Structural)]
pub struct BridgeConfig {
    /// The fee in basis points (0 to 1 000).
    pub fee_bps: u32,
    /// Whether the bridge is paused.
    pub paused: bool,
    /// Whether only allowlisted addresses may receive funds.
    pub allowlist_mode: bool,
}

/// The two roles and the fee rate, as one stored entry.
#[derive(Clone, Copy, Debug, PartialEq, Eq, Structural)]
pub struct BridgeConfigData {
    pub admin: Address,
    pub fee_collector: Address,
    pub fee_bps: u32,
}

/// The running totals of one asset.
#[derive(Clone, Copy, Debug, PartialEq, Eq, Structural)]
pub struct AssetCounters {
    /// Fees that the fee collector has not withdrawn yet.
    pub accrued_fees: i128,
    /// All that was delivered to recipients, fees deducted.
    pub total_bridged: i128,
    /// All fees ever charged.
    pub total_fees_collected: i128,
    /// The sum of the timelocked deposits that have not been claimed. They are
    /// part of the token balance of the bridge but belong to their recipients.
    pub locked_timelock: i128,
}

/// The fee rate of sources whose bridged volume lies in a range.
#[derive(Clone, Copy, Debug, PartialEq, Eq, Structural)]
pub struct FeeTier {
    /// The lowest volume in the range.
    pub min_volume: i128,
    /// The highest volume in the range.
    pub max_volume: i128,
    /// The fee in basis points (0 to 1 000).
    pub fee_bps: u32,
}

impl FeeTier {
    /// Whether a volume lies in the range of the tier.
    pub open spec fn covers(self, volume: i128) -> bool {
        self.min_volume <= volume <= self.max_volume
    }
}

/// The signature of one relayer on a cross-chain event.
#[derive(Clone, Copy, Debug, PartialEq, Eq, Structural)]
pub struct RelayerSig {
    /// The Ed25519 public key of the relayer.
    pub pubkey: Bytes32,
    /// The signature over the hash of the payload.
    pub signature: Signature,
}

/// Tokens that a recipient may claim from some time on.
#[derive(Clone, Copy, Debug, PartialEq, Eq, Structural)]
pub struct TimelockEntry {
    /// Who deposited the tokens.
    pub source: Address,
    /// Who may claim them.
    pub target: Address,
    /// The token contract.
    pub asset: Address,
    /// What was deposited. The fee is deducted when it is claimed.
    pub amount: i128,
    /// The Unix time from which it may be claimed.
    pub release_time: u64,
    /// A cliff, for information only.
    pub cliff_time: u64,
    /// Whether it has been claimed.
    pub claimed: bool,
}

/// An upgrade that waits for its timelock.
#[derive(Clone, Copy, Debug, PartialEq, Eq, Structural)]
pub struct PendingUpgrade {
    /// The hash of the new code.
    pub new_wasm_hash: Bytes32,
    /// The first ledger in which the upgrade may be executed.
    pub executable_after_ledger: u32,
}

/// A transfer whose amount has been committed to but not revealed.
#[derive(Clone, Copy, Debug, PartialEq, Eq, Structural)]
pub struct CommitmentEntry {
    /// Who will provide the tokens.
    pub source: Address,
    /// Who will receive them.
    pub target: Address,
    /// The token contract.
    pub asset: Address,
    /// The SHA-256 hash of the 16 bytes of the amount and the 8 bytes of a nonce.
    pub amount_hash: Bytes32,
    /// The Unix time before which it must be revealed.
    pub deadline: u64,
    /// The ledger in which the commitment was made.
    pub committed_at_ledger: u32,
    /// Whether it has been revealed.
    pub revealed: bool,
}

/// A transfer that its source has signed and that anyone may submit.
#[derive(Clone, Copy, Debug, PartialEq, Eq, Structural)]
pub struct MetaFundParams {
    /// Who provides the tokens.
    pub source: Address,
    /// Who receives them.
    pub target: Address,
    /// The token contract.
    pub asset: Address,
    /// The amount, of which the fee is deducted.
    pub amount: i128,
    /// A number that the source uses once.
    pub nonce: u64,
    /// The last Unix time at which it may be submitted.
    pub deadline: u64,
}

/// A source and an asset, as the key of what is kept for the two.
#[derive(Clone, Copy, Debug, PartialEq, Eq, Structural)]
pub struct SourceAsset {
    pub source: Address,
    pub asset: Address,
}

/// A source and a number that it uses once, as a key.
#[derive(Clone, Copy, Debug, PartialEq, Eq, Structural)]
pub struct SourceNonce {
    pub source: Address,
    pub nonce: u64,
}

/// A source, an asset and a day since the epoch, as a key.
#[derive(Clone, Copy, Debug, PartialEq, Eq, Structural)]
pub struct SourceAssetDay {
    pub source: Address,
    pub asset: Address,
    pub day: u64,
}

impl Key for u64 {
    open spec fn before(self, other: Self) -> bool {
        self < other
    }

    proof fn keys_are_ordered(a: Self, b: Self, c: Self) {
    }

    fn same(&self, other: &Self) -> (r: bool) {
        *self == *other
    }

    fn comes_before(&self, other: &Self) -> (r: bool) {
        *self < *other
    }
}

impl Key for Bytes32 {
    open spec fn before(self, other: Self) -> bool {
        self.hi < other.hi || self.hi == other.hi && self.lo < other.lo
    }

    proof fn keys_are_ordered(a: Self, b: Self, c: Self) {
    }

    fn same(&self, other: &Self) -> (r: bool) {
        *self == *other
    }

    fn comes_before(&self, other: &Self) -> (r: bool) {
        self.hi < other.hi || self.hi == other.hi && self.lo < other.lo
    }
}

impl Key for Address {
    open spec fn before(self, other: Self) -> bool {
        match (self.kind, other.kind) {
            (AddressKind::Account, AddressKind::Contract) => true,
            (AddressKind::Contract, AddressKind::Account) => false,
            _ => self.id.before(other.id),
        }
    }

    proof fn keys_are_ordered(a: Self, b: Self, c: Self) {
        Bytes32::keys_are_ordered(a.id, b.id, c.id);
    }

    fn same(&self, other: &Self) -> (r: bool) {
        *self == *other
    }

    fn comes_before(&self, other: &Self) -> (r: bool) {
        match (self.kind, other.kind) {
            (AddressKind::Account, AddressKind::Contract) => true,
            (AddressKind::Contract, AddressKind::Account) => false,
            _ => self.id.comes_before(&other.id),
        }
    }
}

impl Key for SourceAsset {
    open spec fn before(self, other: Self) -> bool {
        self.source.before(other.source) || self.source == other.source && self.asset.before(
            other.asset,
        )
    }

    proof fn keys_are_ordered(a: Self, b: Self, c: Self) {
        Address::keys_are_ordered(a.source, b.source, c.source);
        Address::keys_are_ordered(a.asset, b.asset, c.asset);
    }

    fn same(&self, other: &Self) -> (r: bool) {
        *self == *other
    }

    fn comes_before(&self, other: &Self) -> (r: bool) {
        self.source.comes_before(&other.source) || self.source == other.source
            && self.asset.comes_before(&other.asset)
    }
}

impl Key for SourceNonce {
    open spec fn before(self, other: Self) -> bool {
        self.source.before(other.source) || self.source == other.source && self.nonce < other.nonce
    }

    proof fn keys_are_ordered(a: Self, b: Self, c: Self) {
        Address::keys_are_ordered(a.source, b.source, c.source);
    }

    fn same(&self, other: &Self) -> (r: bool) {
        *self == *other
    }

    fn comes_before(&self, other: &Self) -> (r: bool) {
        self.source.comes_before(&other.source) || self.source == other.source && self.nonce
            < other.nonce
    }
}

impl Key for SourceAssetDay {
    open spec fn before(self, other: Self) -> bool {
        {
            ||| self.source.before(other.source)
            ||| self.source == other.source && self.asset.before(other.asset)
            ||| self.source == other.source && self.asset == other.asset && self.day < other.day
        }
    }

    proof fn keys_are_ordered(a: Self, b: Self, c: Self) {
        Address::keys_are_ordered(a.source, b.source, c.source);
        Address::keys_are_ordered(a.asset, b.asset, c.asset);
    }

    fn same(&self, other: &Self) -> (r: bool) {
        *self == *other
    }

    fn comes_before(&self, other: &Self) -> (r: bool) {
        self.source.comes_before(&other.source) || self.source == other.source && (
        self.asset.comes_before(&other.asset) || self.asset == other.asset && self.day < other.day)
    }
}

} // verus!
