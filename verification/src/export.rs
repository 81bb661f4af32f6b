//! Everything that the bridge stores, as events.
//!
//! A bridge that is left publishes one event for each entry that it has stored,
//! with the name of the entry and its value.
use vstd::prelude::*;
use vstd::set_lib::lemma_len_subset;

use crate::actions::{Action, Event};
use crate::bytes::Bytes32;
use crate::host::{address_of, key_address, key_of};
use crate::lists::{listed, listed_keys, listing, listing_holds, map_order, map_order_is_strict};
use crate::order::{listing_lists, listing_of, lists, strict};
use crate::state::{empty_state, lookup, BridgeState, Instance, OnboardingBridge};
use crate::table::{key_order, key_order_is_strict, keys_of, Key, Table};
use crate::types::{
    Address, AssetCounters, BridgeConfig, BridgeConfigData, CommitmentEntry, DataKey, FeeTier,
    Ledger, PendingUpgrade, SourceAsset, SourceAssetDay, SourceNonce, Stored, TimelockEntry,
};

verus! {

/// A type of values that are stored.
pub trait Storable: Copy {
    /// The value as it is published.
    spec fn stored(self) -> Stored;

    /// The value as it is published.
    fn store(self) -> (r: Stored)
        ensures
            r == self.stored(),
    ;
}

impl Storable for bool {
    open spec fn stored(self) -> Stored {
        Stored::Flag(self)
    }

    fn store(self) -> (r: Stored) {
        Stored::Flag(self)
    }
}

impl Storable for u32 {
    open spec fn stored(self) -> Stored {
        Stored::Rate(self)
    }

    fn store(self) -> (r: Stored) {
        Stored::Rate(self)
    }
}

impl Storable for u64 {
    open spec fn stored(self) -> Stored {
        Stored::Number(self)
    }

    fn store(self) -> (r: Stored) {
        Stored::Number(self)
    }
}

impl Storable for i128 {
    open spec fn stored(self) -> Stored {
        Stored::Amount(self)
    }

    fn store(self) -> (r: Stored) {
        Stored::Amount(self)
    }
}

impl Storable for Address {
    open spec fn stored(self) -> Stored {
        Stored::Party(self)
    }

    fn store(self) -> (r: Stored) {
        Stored::Party(self)
    }
}

impl Storable for Bytes32 {
    open spec fn stored(self) -> Stored {
        Stored::Hash(self)
    }

    fn store(self) -> (r: Stored) {
        Stored::Hash(self)
    }
}

impl Storable for BridgeConfig {
    open spec fn stored(self) -> Stored {
        Stored::Config(self)
    }

    fn store(self) -> (r: Stored) {
        Stored::Config(self)
    }
}

impl Storable for BridgeConfigData {
    open spec fn stored(self) -> Stored {
        Stored::Roles(self)
    }

    fn store(self) -> (r: Stored) {
        Stored::Roles(self)
    }
}

impl Storable for AssetCounters {
    open spec fn stored(self) -> Stored {
        Stored::Counters(self)
    }

    fn store(self) -> (r: Stored) {
        Stored::Counters(self)
    }
}

impl Storable for TimelockEntry {
    open spec fn stored(self) -> Stored {
        Stored::Timelock(self)
    }

    fn store(self) -> (r: Stored) {
        Stored::Timelock(self)
    }
}

impl Storable for CommitmentEntry {
    open spec fn stored(self) -> Stored {
        Stored::Commitment(self)
    }

    fn store(self) -> (r: Stored) {
        Stored::Commitment(self)
    }
}

impl Storable for PendingUpgrade {
    open spec fn stored(self) -> Stored {
        Stored::Upgrade(self)
    }

    fn store(self) -> (r: Stored) {
        Stored::Upgrade(self)
    }
}

/// A kind of entries that are stored by key.
pub trait Shelf<K: Key>: Copy {
    /// The name of the entry with a key.
    spec fn name(self, k: K) -> DataKey;

    /// The name of the entry with a key.
    fn name_of(self, k: K) -> (r: DataKey)
        ensures
            r == self.name(k),
    ;
}

/// What is stored for an address.
#[derive(Clone, Copy, Debug, PartialEq, Eq, Structural)]
pub enum PerAddress {
    Blocked,
    Allowlisted,
    AssetStats,
    AccruedFees,
    TotalBridged,
    TotalFeesCollected,
    AssetFeeCap,
    Nonce,
    AuthNonce,
    SourceBridgedVolume,
    MetaSigner,
}

impl Shelf<Address> for PerAddress {
    open spec fn name(self, k: Address) -> DataKey {
        match self {
            PerAddress::Blocked => DataKey::Blocked(k),
            PerAddress::Allowlisted => DataKey::Allowlisted(k),
            PerAddress::AssetStats => DataKey::AssetStats(k),
            PerAddress::AccruedFees => DataKey::AccruedFees(k),
            PerAddress::TotalBridged => DataKey::TotalBridged(k),
            PerAddress::TotalFeesCollected => DataKey::TotalFeesCollected(k),
            PerAddress::AssetFeeCap => DataKey::AssetFeeCap(k),
            PerAddress::Nonce => DataKey::Nonce(k),
            PerAddress::AuthNonce => DataKey::AuthNonce(k),
            PerAddress::SourceBridgedVolume => DataKey::SourceBridgedVolume(k),
            PerAddress::MetaSigner => DataKey::MetaSigner(k),
        }
    }

    fn name_of(self, k: Address) -> (r: DataKey) {
        match self {
            PerAddress::Blocked => DataKey::Blocked(k),
            PerAddress::Allowlisted => DataKey::Allowlisted(k),
            PerAddress::AssetStats => DataKey::AssetStats(k),
            PerAddress::AccruedFees => DataKey::AccruedFees(k),
            PerAddress::TotalBridged => DataKey::TotalBridged(k),
            PerAddress::TotalFeesCollected => DataKey::TotalFeesCollected(k),
            PerAddress::AssetFeeCap => DataKey::AssetFeeCap(k),
            PerAddress::Nonce => DataKey::Nonce(k),
            PerAddress::AuthNonce => DataKey::AuthNonce(k),
            PerAddress::SourceBridgedVolume => DataKey::SourceBridgedVolume(k),
            PerAddress::MetaSigner => DataKey::MetaSigner(k),
        }
    }
}

/// What is stored for a source and a number that it uses once.
#[derive(Clone, Copy, Debug, PartialEq, Eq, Structural)]
pub enum PerNumber {
    UsedAuthNonce,
    MetaTxNonce,
}

impl Shelf<SourceNonce> for PerNumber {
    open spec fn name(self, k: SourceNonce) -> DataKey {
        match self {
            PerNumber::UsedAuthNonce => DataKey::UsedAuthNonce(k.source, k.nonce),
            PerNumber::MetaTxNonce => DataKey::MetaTxNonce(k.source, k.nonce),
        }
    }

    fn name_of(self, k: SourceNonce) -> (r: DataKey) {
        match self {
            PerNumber::UsedAuthNonce => DataKey::UsedAuthNonce(k.source, k.nonce),
            PerNumber::MetaTxNonce => DataKey::MetaTxNonce(k.source, k.nonce),
        }
    }
}

/// What is stored for a source and an asset.
#[derive(Clone, Copy, Debug, PartialEq, Eq, Structural)]
pub enum PerPair {
    SourceDailyLimit,
    UserDeposit,
}

impl Shelf<SourceAsset> for PerPair {
    open spec fn name(self, k: SourceAsset) -> DataKey {
        match self {
            PerPair::SourceDailyLimit => DataKey::SourceDailyLimit(k.source, k.asset),
            PerPair::UserDeposit => DataKey::UserDeposit(k.source, k.asset),
        }
    }

    fn name_of(self, k: SourceAsset) -> (r: DataKey) {
        match self {
            PerPair::SourceDailyLimit => DataKey::SourceDailyLimit(k.source, k.asset),
            PerPair::UserDeposit => DataKey::UserDeposit(k.source, k.asset),
        }
    }
}

/// What is stored for a source, an asset and a day.
#[derive(Clone, Copy, Debug, PartialEq, Eq, Structural)]
pub enum PerDay {
    DailyUsage,
}

impl Shelf<SourceAssetDay> for PerDay {
    open spec fn name(self, k: SourceAssetDay) -> DataKey {
        match self {
            PerDay::DailyUsage => DataKey::DailyUsage(k.source, k.asset, k.day),
        }
    }

    fn name_of(self, k: SourceAssetDay) -> (r: DataKey) {
        match self {
            PerDay::DailyUsage => DataKey::DailyUsage(k.source, k.asset, k.day),
        }
    }
}

/// What is stored for a key of a relayer or for a hash.
#[derive(Clone, Copy, Debug, PartialEq, Eq, Structural)]
pub enum PerHash {
    Relayer,
    CrossChainNonce,
}

impl Shelf<Bytes32> for PerHash {
    open spec fn name(self, k: Bytes32) -> DataKey {
        match self {
            PerHash::Relayer => DataKey::Relayer(k),
            PerHash::CrossChainNonce => DataKey::CrossChainNonce(k),
        }
    }

    fn name_of(self, k: Bytes32) -> (r: DataKey) {
        match self {
            PerHash::Relayer => DataKey::Relayer(k),
            PerHash::CrossChainNonce => DataKey::CrossChainNonce(k),
        }
    }
}

/// What is stored under an id.
#[derive(Clone, Copy, Debug, PartialEq, Eq, Structural)]
pub enum PerId {
    Timelock,
    Commitment,
}

impl Shelf<u64> for PerId {
    open spec fn name(self, k: u64) -> DataKey {
        match self {
            PerId::Timelock => DataKey::Timelock(k),
            PerId::Commitment => DataKey::Commitment(k),
        }
    }

    fn name_of(self, k: u64) -> (r: DataKey) {
        match self {
            PerId::Timelock => DataKey::Timelock(k),
            PerId::Commitment => DataKey::Commitment(k),
        }
    }
}

/// The event of one entry.
pub open spec fn entry(key: DataKey, value: Stored) -> Action {
    Action::Publish { event: Event::MigratedEntry { key, value } }
}

/// The events of the entries of one kind, in the order of their keys.
pub open spec fn entries<K: Key, V: Storable, S: Shelf<K>>(shelf: S, m: Map<K, V>) -> Seq<Action> {
    let keys = keys_of(m);
    Seq::new(keys.len(), |i: int| entry(shelf.name(keys[i]), m[keys[i]].stored()))
}

/// A list with the event of an entry, where there is one.
pub open spec fn put<V: Storable>(list: Seq<Action>, key: DataKey, value: Option<V>) -> Seq<
    Action,
> {
    match value {
        Some(v) => list.push(entry(key, v.stored())),
        None => list,
    }
}

/// A mark that is stored only where it is set.
pub open spec fn flag_if(set: bool) -> Option<bool> {
    if set {
        Some(true)
    } else {
        None
    }
}

/// The events of the contract-wide entries.
pub open spec fn instance_entries(i: Instance) -> Seq<Action> {
    let l1 = put(Seq::<Action>::empty(), DataKey::Initialized, flag_if(i.initialized));
    let l2 = put(l1, DataKey::Deactivated, flag_if(i.deactivated));
    let l3 = put(l2, DataKey::Entered, flag_if(i.entered));
    let l4 = put(l3, DataKey::Admin, i.admin);
    let l5 = put(l4, DataKey::FeeCollector, i.fee_collector);
    let l6 = put(l5, DataKey::PendingAdmin, i.pending_admin);
    let l7 = put(l6, DataKey::PendingFeeCollector, i.pending_fee_collector);
    let l8 = put(l7, DataKey::FeeBps, i.fee_bps);
    let l9 = put(l8, DataKey::Paused, i.paused);
    let l10 = put(l9, DataKey::AllowlistMode, i.allowlist_mode);
    let l11 = put(l10, DataKey::Config, i.config);
    let l12 = put(l11, DataKey::BridgeConfig, i.bridge_config);
    let l13 = put(l12, DataKey::ReferralRate, i.referral_rate);
    let l14 = put(l13, DataKey::MinimumAmount, i.minimum_amount);
    let l15 = put(l14, DataKey::MaxWithdrawPerTx, i.max_withdraw_per_tx);
    let l16 = put(l15, DataKey::LoyaltyToken, i.loyalty_token);
    let l17 = put(l16, DataKey::LoyaltyAmountPerFund, i.loyalty_amount_per_fund);
    let l18 = put(l17, DataKey::RelayerCount, i.relayer_count);
    let l19 = put(l18, DataKey::RelayerThreshold, i.relayer_threshold);
    let l20 = put(l19, DataKey::TimelockId, i.timelock_id);
    let l21 = put(l20, DataKey::CommitmentId, i.commitment_id);
    let l22 = put(l21, DataKey::MaxInstanceTtl, i.max_instance_ttl);
    let l23 = put(l22, DataKey::MaxPersistentTtl, i.max_persistent_ttl);
    let l24 = put(l23, DataKey::PendingUpgrade, i.pending_upgrade);
    let l25 = put(l24, DataKey::CurrentWasmHash, i.current_wasm_hash);
    l25
}

/// The events of the fee tiers.
pub open spec fn tier_events(tiers: Option<Seq<FeeTier>>) -> Seq<Action> {
    match tiers {
        Some(tiers) => Seq::new(
            tiers.len(),
            |i: int| Action::Publish { event: Event::MigratedTier { tier: tiers[i] } },
        ),
        None => Seq::empty(),
    }
}

/// The events of the whitelisted assets.
pub open spec fn asset_events(m: Map<(u32, u128, u128), bool>) -> Seq<Action> {
    let keys = listing(m);
    Seq::new(
        keys.len(),
        |i: int| Action::Publish { event: Event::MigratedAsset { asset: address_of(keys[i]) } },
    )
}

/// The events of the whitelisted pools.
pub open spec fn pool_events(m: Map<(u32, u128, u128), bool>) -> Seq<Action> {
    let keys = listing(m);
    Seq::new(
        keys.len(),
        |i: int| Action::Publish { event: Event::MigratedPool { pool: address_of(keys[i]) } },
    )
}

/// The events of all that the bridge has stored.
#[verifier::opaque]
pub open spec fn export(s: BridgeState) -> Seq<Action> {
    let p0 = instance_entries(s.instance) + tier_events(s.fee_tiers);
    let p1 = p0 + asset_events(s.asset_whitelist);
    let p2 = p1 + pool_events(s.pool_whitelist);
    let p3 = p2 + entries(PerAddress::Blocked, s.blocked);
    let p4 = p3 + entries(PerAddress::Allowlisted, s.allowlisted);
    let p5 = p4 + entries(PerAddress::AssetStats, s.asset_stats);
    let p6 = p5 + entries(PerAddress::AccruedFees, s.accrued_fees);
    let p7 = p6 + entries(PerAddress::TotalBridged, s.total_bridged);
    let p8 = p7 + entries(PerAddress::TotalFeesCollected, s.total_fees_collected);
    let p9 = p8 + entries(PerAddress::AssetFeeCap, s.asset_fee_cap);
    let p10 = p9 + entries(PerAddress::Nonce, s.nonce);
    let p11 = p10 + entries(PerAddress::AuthNonce, s.auth_nonce);
    let p12 = p11 + entries(PerAddress::SourceBridgedVolume, s.source_bridged_volume);
    let p13 = p12 + entries(PerAddress::MetaSigner, s.meta_signer);
    let p14 = p13 + entries(PerNumber::UsedAuthNonce, s.used_auth_nonce);
    let p15 = p14 + entries(PerNumber::MetaTxNonce, s.meta_tx_nonce);
    let p16 = p15 + entries(PerPair::SourceDailyLimit, s.source_daily_limit);
    let p17 = p16 + entries(PerPair::UserDeposit, s.user_deposit);
    let p18 = p17 + entries(PerDay::DailyUsage, s.daily_usage);
    let p19 = p18 + entries(PerHash::Relayer, s.relayer);
    let p20 = p19 + entries(PerHash::CrossChainNonce, s.cross_chain_nonce);
    let p21 = p20 + entries(PerId::Timelock, s.timelock);
    let p22 = p21 + entries(PerId::Commitment, s.commitment);
    p22
}

/// Adds the event of an entry, where there is one.
fn add_entry<V: Storable>(out: &mut Vec<Action>, key: DataKey, value: Option<V>)
    ensures
        final(out)@ == put(old(out)@, key, value),
{
    if let Some(v) = value {
        let value: Stored = v.store();
        out.push(Action::Publish { event: Event::MigratedEntry { key, value } });
    }
}

/// A mark that is stored only where it is set.
fn set_flag(set: bool) -> (r: Option<bool>)
    ensures
        r == flag_if(set),
{
    if set {
        Some(true)
    } else {
        None
    }
}

/// Adds the events of the contract-wide entries.
fn add_instance(out: &mut Vec<Action>, i: Instance)
    requires
        old(out)@.len() == 0,
    ensures
        final(out)@ == instance_entries(i),
{
    assert(out@ =~= Seq::<Action>::empty());
    add_entry(out, DataKey::Initialized, set_flag(i.initialized));
    add_entry(out, DataKey::Deactivated, set_flag(i.deactivated));
    add_entry(out, DataKey::Entered, set_flag(i.entered));
    add_entry(out, DataKey::Admin, i.admin);
    add_entry(out, DataKey::FeeCollector, i.fee_collector);
    add_entry(out, DataKey::PendingAdmin, i.pending_admin);
    add_entry(out, DataKey::PendingFeeCollector, i.pending_fee_collector);
    add_entry(out, DataKey::FeeBps, i.fee_bps);
    add_entry(out, DataKey::Paused, i.paused);
    add_entry(out, DataKey::AllowlistMode, i.allowlist_mode);
    add_entry(out, DataKey::Config, i.config);
    add_entry(out, DataKey::BridgeConfig, i.bridge_config);
    add_entry(out, DataKey::ReferralRate, i.referral_rate);
    add_entry(out, DataKey::MinimumAmount, i.minimum_amount);
    add_entry(out, DataKey::MaxWithdrawPerTx, i.max_withdraw_per_tx);
    add_entry(out, DataKey::LoyaltyToken, i.loyalty_token);
    add_entry(out, DataKey::LoyaltyAmountPerFund, i.loyalty_amount_per_fund);
    add_entry(out, DataKey::RelayerCount, i.relayer_count);
    add_entry(out, DataKey::RelayerThreshold, i.relayer_threshold);
    add_entry(out, DataKey::TimelockId, i.timelock_id);
    add_entry(out, DataKey::CommitmentId, i.commitment_id);
    add_entry(out, DataKey::MaxInstanceTtl, i.max_instance_ttl);
    add_entry(out, DataKey::MaxPersistentTtl, i.max_persistent_ttl);
    add_entry(out, DataKey::PendingUpgrade, i.pending_upgrade);
    add_entry(out, DataKey::CurrentWasmHash, i.current_wasm_hash);
}

/// Adds the events of the entries of one kind.
fn add_entries<K: Key, V: Storable, S: Shelf<K>>(
    out: &mut Vec<Action>,
    shelf: S,
    table: &Table<K, V>,
)
    ensures
        final(out)@ == old(out)@ + entries(shelf, table@),
{
    let keys: Vec<K> = table.keys();
    let ghost all = entries(shelf, table@);
    let mut i: usize = 0;
    assert(out@ =~= old(out)@ + all.take(0));
    while i < keys.len()
        invariant
            i <= keys@.len(),
            keys@ == keys_of(table@),
            lists(key_order::<K>(), table@.dom(), keys@),
            all == entries(shelf, table@),
            out@ == old(out)@ + all.take(i as int),
        decreases keys@.len() - i,
    {
        let k: K = keys[i];
        assert(keys@.contains(k));
        let value: Option<V> = table.get(k);
        add_entry(out, shelf.name_of(k), value);
        i = i + 1;
        assert(out@ =~= old(out)@ + all.take(i as int));
    }
    assert(all.take(i as int) =~= all);
}

/// Adds the events of the fee tiers.
fn add_tiers(out: &mut Vec<Action>, tiers: &Vec<FeeTier>)
    ensures
        final(out)@ == old(out)@ + tier_events(Some(tiers@)),
{
    let ghost all = tier_events(Some(tiers@));
    let mut i: usize = 0;
    assert(out@ =~= old(out)@ + all.take(0));
    while i < tiers.len()
        invariant
            i <= tiers@.len(),
            all == tier_events(Some(tiers@)),
            out@ == old(out)@ + all.take(i as int),
        decreases tiers@.len() - i,
    {
        out.push(Action::Publish { event: Event::MigratedTier { tier: tiers[i] } });
        i = i + 1;
        assert(out@ =~= old(out)@ + all.take(i as int));
    }
    assert(all.take(i as int) =~= all);
}

/// Adds the events of the whitelisted assets.
fn add_assets(
    out: &mut Vec<Action>,
    keys: &Vec<(u32, u128, u128)>,
    m: Ghost<Map<(u32, u128, u128), bool>>,
)
    requires
        keys@ == listing(m@),
    ensures
        final(out)@ == old(out)@ + asset_events(m@),
{
    let ghost all = asset_events(m@);
    let mut i: usize = 0;
    assert(out@ =~= old(out)@ + all.take(0));
    while i < keys.len()
        invariant
            i <= keys@.len(),
            keys@ == listing(m@),
            all == asset_events(m@),
            out@ == old(out)@ + all.take(i as int),
        decreases keys@.len() - i,
    {
        let asset: Address = key_address(keys[i]);
        out.push(Action::Publish { event: Event::MigratedAsset { asset } });
        i = i + 1;
        assert(out@ =~= old(out)@ + all.take(i as int));
    }
    assert(all.take(i as int) =~= all);
}

/// Adds the events of the whitelisted pools.
fn add_pools(
    out: &mut Vec<Action>,
    keys: &Vec<(u32, u128, u128)>,
    m: Ghost<Map<(u32, u128, u128), bool>>,
)
    requires
        keys@ == listing(m@),
    ensures
        final(out)@ == old(out)@ + pool_events(m@),
{
    let ghost all = pool_events(m@);
    let mut i: usize = 0;
    assert(out@ =~= old(out)@ + all.take(0));
    while i < keys.len()
        invariant
            i <= keys@.len(),
            keys@ == listing(m@),
            all == pool_events(m@),
            out@ == old(out)@ + all.take(i as int),
        decreases keys@.len() - i,
    {
        let pool: Address = key_address(keys[i]);
        out.push(Action::Publish { event: Event::MigratedPool { pool } });
        i = i + 1;
        assert(out@ =~= old(out)@ + all.take(i as int));
    }
    assert(all.take(i as int) =~= all);
}

impl OnboardingBridge {
    /// The events of all that the bridge has stored.
    pub(crate) fn export(&self) -> (out: Vec<Action>)
        ensures
            out@ == export(self@),
    {
        reveal(export);
        let mut out: Vec<Action> = Vec::new();
        add_instance(&mut out, self.instance);
        match &self.fee_tiers {
            Some(tiers) => add_tiers(&mut out, tiers),
            None => {
                assert(out@ + tier_events(None) =~= out@);
            },
        }
        let assets: Vec<(u32, u128, u128)> = listed_keys(&self.asset_whitelist);
        add_assets(&mut out, &assets, Ghost(self@.asset_whitelist));
        let pools: Vec<(u32, u128, u128)> = listed_keys(&self.pool_whitelist);
        add_pools(&mut out, &pools, Ghost(self@.pool_whitelist));
        add_entries(&mut out, PerAddress::Blocked, &self.blocked);
        add_entries(&mut out, PerAddress::Allowlisted, &self.allowlisted);
        add_entries(&mut out, PerAddress::AssetStats, &self.asset_stats);
        add_entries(&mut out, PerAddress::AccruedFees, &self.accrued_fees);
        add_entries(&mut out, PerAddress::TotalBridged, &self.total_bridged);
        add_entries(&mut out, PerAddress::TotalFeesCollected, &self.total_fees_collected);
        add_entries(&mut out, PerAddress::AssetFeeCap, &self.asset_fee_cap);
        add_entries(&mut out, PerAddress::Nonce, &self.nonce);
        add_entries(&mut out, PerAddress::AuthNonce, &self.auth_nonce);
        add_entries(&mut out, PerAddress::SourceBridgedVolume, &self.source_bridged_volume);
        add_entries(&mut out, PerAddress::MetaSigner, &self.meta_signer);
        add_entries(&mut out, PerNumber::UsedAuthNonce, &self.used_auth_nonce);
        add_entries(&mut out, PerNumber::MetaTxNonce, &self.meta_tx_nonce);
        add_entries(&mut out, PerPair::SourceDailyLimit, &self.source_daily_limit);
        add_entries(&mut out, PerPair::UserDeposit, &self.user_deposit);
        add_entries(&mut out, PerDay::DailyUsage, &self.daily_usage);
        add_entries(&mut out, PerHash::Relayer, &self.relayer);
        add_entries(&mut out, PerHash::CrossChainNonce, &self.cross_chain_nonce);
        add_entries(&mut out, PerId::Timelock, &self.timelock);
        add_entries(&mut out, PerId::Commitment, &self.commitment);
        out
    }
}

/// What is stored under a name. The whitelists and the fee tiers, which hold many
/// values under one name, are left out.
pub open spec fn stored_at(s: BridgeState, key: DataKey) -> Option<Stored> {
    match key {
        DataKey::Initialized => stored_value(flag_if(s.instance.initialized)),
        DataKey::Deactivated => stored_value(flag_if(s.instance.deactivated)),
        DataKey::Entered => stored_value(flag_if(s.instance.entered)),
        DataKey::Admin => stored_value(s.instance.admin),
        DataKey::FeeCollector => stored_value(s.instance.fee_collector),
        DataKey::PendingAdmin => stored_value(s.instance.pending_admin),
        DataKey::PendingFeeCollector => stored_value(s.instance.pending_fee_collector),
        DataKey::FeeBps => stored_value(s.instance.fee_bps),
        DataKey::Paused => stored_value(s.instance.paused),
        DataKey::AllowlistMode => stored_value(s.instance.allowlist_mode),
        DataKey::Config => stored_value(s.instance.config),
        DataKey::BridgeConfig => stored_value(s.instance.bridge_config),
        DataKey::ReferralRate => stored_value(s.instance.referral_rate),
        DataKey::MinimumAmount => stored_value(s.instance.minimum_amount),
        DataKey::MaxWithdrawPerTx => stored_value(s.instance.max_withdraw_per_tx),
        DataKey::LoyaltyToken => stored_value(s.instance.loyalty_token),
        DataKey::LoyaltyAmountPerFund => stored_value(s.instance.loyalty_amount_per_fund),
        DataKey::RelayerCount => stored_value(s.instance.relayer_count),
        DataKey::RelayerThreshold => stored_value(s.instance.relayer_threshold),
        DataKey::TimelockId => stored_value(s.instance.timelock_id),
        DataKey::CommitmentId => stored_value(s.instance.commitment_id),
        DataKey::MaxInstanceTtl => stored_value(s.instance.max_instance_ttl),
        DataKey::MaxPersistentTtl => stored_value(s.instance.max_persistent_ttl),
        DataKey::PendingUpgrade => stored_value(s.instance.pending_upgrade),
        DataKey::CurrentWasmHash => stored_value(s.instance.current_wasm_hash),
        DataKey::Blocked(a) => stored_value(lookup(s.blocked, a)),
        DataKey::Allowlisted(a) => stored_value(lookup(s.allowlisted, a)),
        DataKey::AssetStats(a) => stored_value(lookup(s.asset_stats, a)),
        DataKey::AccruedFees(a) => stored_value(lookup(s.accrued_fees, a)),
        DataKey::TotalBridged(a) => stored_value(lookup(s.total_bridged, a)),
        DataKey::TotalFeesCollected(a) => stored_value(lookup(s.total_fees_collected, a)),
        DataKey::AssetFeeCap(a) => stored_value(lookup(s.asset_fee_cap, a)),
        DataKey::Nonce(a) => stored_value(lookup(s.nonce, a)),
        DataKey::AuthNonce(a) => stored_value(lookup(s.auth_nonce, a)),
        DataKey::SourceBridgedVolume(a) => stored_value(lookup(s.source_bridged_volume, a)),
        DataKey::MetaSigner(a) => stored_value(lookup(s.meta_signer, a)),
        DataKey::UsedAuthNonce(source, nonce) => stored_value(
            lookup(s.used_auth_nonce, SourceNonce { source, nonce }),
        ),
        DataKey::MetaTxNonce(source, nonce) => stored_value(
            lookup(s.meta_tx_nonce, SourceNonce { source, nonce }),
        ),
        DataKey::SourceDailyLimit(source, asset) => stored_value(
            lookup(s.source_daily_limit, SourceAsset { source, asset }),
        ),
        DataKey::UserDeposit(source, asset) => stored_value(
            lookup(s.user_deposit, SourceAsset { source, asset }),
        ),
        DataKey::DailyUsage(source, asset, day) => stored_value(
            lookup(s.daily_usage, SourceAssetDay { source, asset, day }),
        ),
        DataKey::Relayer(h) => stored_value(lookup(s.relayer, h)),
        DataKey::CrossChainNonce(h) => stored_value(lookup(s.cross_chain_nonce, h)),
        DataKey::Timelock(id) => stored_value(lookup(s.timelock, id)),
        DataKey::Commitment(id) => stored_value(lookup(s.commitment, id)),
        DataKey::AssetWhitelist | DataKey::PoolWhitelist | DataKey::FeeTiers => None,
    }
}

/// A value as it is published, where there is one.
pub open spec fn stored_value<V: Storable>(value: Option<V>) -> Option<Stored> {
    match value {
        Some(v) => Some(v.stored()),
        None => None,
    }
}

/// Whether all tables and whitelists are finite, as those of a bridge are.
pub open spec fn finite_books(s: BridgeState) -> bool {
    &&& s.asset_whitelist.dom().finite()
    &&& s.pool_whitelist.dom().finite()
    &&& s.blocked.dom().finite()
    &&& s.allowlisted.dom().finite()
    &&& s.asset_stats.dom().finite()
    &&& s.accrued_fees.dom().finite()
    &&& s.total_bridged.dom().finite()
    &&& s.total_fees_collected.dom().finite()
    &&& s.asset_fee_cap.dom().finite()
    &&& s.nonce.dom().finite()
    &&& s.auth_nonce.dom().finite()
    &&& s.source_bridged_volume.dom().finite()
    &&& s.meta_signer.dom().finite()
    &&& s.used_auth_nonce.dom().finite()
    &&& s.meta_tx_nonce.dom().finite()
    &&& s.source_daily_limit.dom().finite()
    &&& s.user_deposit.dom().finite()
    &&& s.daily_usage.dom().finite()
    &&& s.relayer.dom().finite()
    &&& s.cross_chain_nonce.dom().finite()
    &&& s.timelock.dom().finite()
    &&& s.commitment.dom().finite()
}

impl OnboardingBridge {
    /// The tables of a bridge are finite; its whitelists have to be shown to be.
    pub proof fn books_are_finite(&self)
        requires
            self@.asset_whitelist.dom().finite(),
            self@.pool_whitelist.dom().finite(),
        ensures
            finite_books(self@),
    {
        self.blocked.is_bounded();
        self.allowlisted.is_bounded();
        self.asset_stats.is_bounded();
        self.accrued_fees.is_bounded();
        self.total_bridged.is_bounded();
        self.total_fees_collected.is_bounded();
        self.asset_fee_cap.is_bounded();
        self.nonce.is_bounded();
        self.auth_nonce.is_bounded();
        self.source_bridged_volume.is_bounded();
        self.meta_signer.is_bounded();
        self.used_auth_nonce.is_bounded();
        self.meta_tx_nonce.is_bounded();
        self.source_daily_limit.is_bounded();
        self.user_deposit.is_bounded();
        self.daily_usage.is_bounded();
        self.relayer.is_bounded();
        self.cross_chain_nonce.is_bounded();
        self.timelock.is_bounded();
        self.commitment.is_bounded();
    }
}

/// The event of an entry is among those of its kind.
proof fn entry_is_among<K: Key, V: Storable, S: Shelf<K>>(shelf: S, m: Map<K, V>, k: K)
    requires
        m.dom().finite(),
        m.contains_key(k),
    ensures
        entries(shelf, m).contains(entry(shelf.name(k), m[k].stored())),
{
    key_order_is_strict::<K>();
    listing_lists(key_order::<K>(), m.dom());
    let keys = keys_of(m);
    assert(keys.contains(k));
    let i = choose|i: int| 0 <= i < keys.len() && keys[i] == k;
    assert(entries(shelf, m)[i] == entry(shelf.name(k), m[k].stored()));
}

/// The events of one kind are those of its entries.
proof fn entries_are_there<K: Key, V: Storable, S: Shelf<K>>(
    shelf: S,
    m: Map<K, V>,
    x: Action,
) -> (k: K)
    requires
        m.dom().finite(),
        entries(shelf, m).contains(x),
    ensures
        m.contains_key(k),
        x == entry(shelf.name(k), m[k].stored()),
{
    key_order_is_strict::<K>();
    listing_lists(key_order::<K>(), m.dom());
    let keys = keys_of(m);
    let i = choose|i: int| 0 <= i < keys.len() && entries(shelf, m)[i] == x;
    assert(keys.contains(keys[i]));
    keys[i]
}

/// What is in two lists together is in one of them.
proof fn longer_holds(a: Seq<Action>, b: Seq<Action>, x: Action)
    ensures
        a.contains(x) || b.contains(x) <==> (a + b).contains(x),
{
    if (a + b).contains(x) {
        let i = choose|i: int| 0 <= i < (a + b).len() && (a + b)[i] == x;
        if i < a.len() {
            assert(a[i] == x);
        } else {
            assert(b[i - a.len()] == x);
        }
    }
    if a.contains(x) {
        let i = choose|i: int| 0 <= i < a.len() && a[i] == x;
        assert((a + b)[i] == x);
    }
    if b.contains(x) {
        let i = choose|i: int| 0 <= i < b.len() && b[i] == x;
        assert((a + b)[a.len() + i] == x);
    }
}

/// Adding an entry keeps the others, and adds nothing else.
proof fn put_holds<V: Storable>(list: Seq<Action>, key: DataKey, value: Option<V>, x: Action)
    ensures
        put(list, key, value).contains(x) <==> list.contains(x) || is_entry(key, value, x),
        value matches Some(v) ==> put(list, key, value).contains(entry(key, v.stored())),
{
    if let Some(v) = value {
        let longer = put(list, key, value);
        if longer.contains(x) {
            let i = choose|i: int| 0 <= i < longer.len() && longer[i] == x;
            if i < list.len() {
                assert(list[i] == x);
            }
        }
        assert(longer[list.len() as int] == entry(key, v.stored()));
        if list.contains(x) {
            let i = choose|i: int| 0 <= i < list.len() && list[i] == x;
            assert(longer[i] == x);
        }
    }
}

/// Whether an action is the event of a value that is there.
spec fn is_entry<V: Storable>(key: DataKey, value: Option<V>, x: Action) -> bool {
    value is Some && x == entry(key, value->0.stored())
}

/// The events of the contract-wide entries are those of the entries that are there.
proof fn instance_entries_hold(s: BridgeState, x: Action)
    ensures
        instance_entries(s.instance).contains(x) <==> {
            ||| is_entry(DataKey::Initialized, flag_if(s.instance.initialized), x)
            ||| is_entry(DataKey::Deactivated, flag_if(s.instance.deactivated), x)
            ||| is_entry(DataKey::Entered, flag_if(s.instance.entered), x)
            ||| is_entry(DataKey::Admin, s.instance.admin, x)
            ||| is_entry(DataKey::FeeCollector, s.instance.fee_collector, x)
            ||| is_entry(DataKey::PendingAdmin, s.instance.pending_admin, x)
            ||| is_entry(DataKey::PendingFeeCollector, s.instance.pending_fee_collector, x)
            ||| is_entry(DataKey::FeeBps, s.instance.fee_bps, x)
            ||| is_entry(DataKey::Paused, s.instance.paused, x)
            ||| is_entry(DataKey::AllowlistMode, s.instance.allowlist_mode, x)
            ||| is_entry(DataKey::Config, s.instance.config, x)
            ||| is_entry(DataKey::BridgeConfig, s.instance.bridge_config, x)
            ||| is_entry(DataKey::ReferralRate, s.instance.referral_rate, x)
            ||| is_entry(DataKey::MinimumAmount, s.instance.minimum_amount, x)
            ||| is_entry(DataKey::MaxWithdrawPerTx, s.instance.max_withdraw_per_tx, x)
            ||| is_entry(DataKey::LoyaltyToken, s.instance.loyalty_token, x)
            ||| is_entry(DataKey::LoyaltyAmountPerFund, s.instance.loyalty_amount_per_fund, x)
            ||| is_entry(DataKey::RelayerCount, s.instance.relayer_count, x)
            ||| is_entry(DataKey::RelayerThreshold, s.instance.relayer_threshold, x)
            ||| is_entry(DataKey::TimelockId, s.instance.timelock_id, x)
            ||| is_entry(DataKey::CommitmentId, s.instance.commitment_id, x)
            ||| is_entry(DataKey::MaxInstanceTtl, s.instance.max_instance_ttl, x)
            ||| is_entry(DataKey::MaxPersistentTtl, s.instance.max_persistent_ttl, x)
            ||| is_entry(DataKey::PendingUpgrade, s.instance.pending_upgrade, x)
            ||| is_entry(DataKey::CurrentWasmHash, s.instance.current_wasm_hash, x)
        },
{
    let i = s.instance;
    put_holds(Seq::<Action>::empty(), DataKey::Initialized, flag_if(i.initialized), x);
    let l1 = put(Seq::<Action>::empty(), DataKey::Initialized, flag_if(i.initialized));
    put_holds(l1, DataKey::Deactivated, flag_if(i.deactivated), x);
    let l2 = put(l1, DataKey::Deactivated, flag_if(i.deactivated));
    put_holds(l2, DataKey::Entered, flag_if(i.entered), x);
    let l3 = put(l2, DataKey::Entered, flag_if(i.entered));
    put_holds(l3, DataKey::Admin, i.admin, x);
    let l4 = put(l3, DataKey::Admin, i.admin);
    put_holds(l4, DataKey::FeeCollector, i.fee_collector, x);
    let l5 = put(l4, DataKey::FeeCollector, i.fee_collector);
    put_holds(l5, DataKey::PendingAdmin, i.pending_admin, x);
    let l6 = put(l5, DataKey::PendingAdmin, i.pending_admin);
    put_holds(l6, DataKey::PendingFeeCollector, i.pending_fee_collector, x);
    let l7 = put(l6, DataKey::PendingFeeCollector, i.pending_fee_collector);
    put_holds(l7, DataKey::FeeBps, i.fee_bps, x);
    let l8 = put(l7, DataKey::FeeBps, i.fee_bps);
    put_holds(l8, DataKey::Paused, i.paused, x);
    let l9 = put(l8, DataKey::Paused, i.paused);
    put_holds(l9, DataKey::AllowlistMode, i.allowlist_mode, x);
    let l10 = put(l9, DataKey::AllowlistMode, i.allowlist_mode);
    put_holds(l10, DataKey::Config, i.config, x);
    let l11 = put(l10, DataKey::Config, i.config);
    put_holds(l11, DataKey::BridgeConfig, i.bridge_config, x);
    let l12 = put(l11, DataKey::BridgeConfig, i.bridge_config);
    put_holds(l12, DataKey::ReferralRate, i.referral_rate, x);
    let l13 = put(l12, DataKey::ReferralRate, i.referral_rate);
    put_holds(l13, DataKey::MinimumAmount, i.minimum_amount, x);
    let l14 = put(l13, DataKey::MinimumAmount, i.minimum_amount);
    put_holds(l14, DataKey::MaxWithdrawPerTx, i.max_withdraw_per_tx, x);
    let l15 = put(l14, DataKey::MaxWithdrawPerTx, i.max_withdraw_per_tx);
    put_holds(l15, DataKey::LoyaltyToken, i.loyalty_token, x);
    let l16 = put(l15, DataKey::LoyaltyToken, i.loyalty_token);
    put_holds(l16, DataKey::LoyaltyAmountPerFund, i.loyalty_amount_per_fund, x);
    let l17 = put(l16, DataKey::LoyaltyAmountPerFund, i.loyalty_amount_per_fund);
    put_holds(l17, DataKey::RelayerCount, i.relayer_count, x);
    let l18 = put(l17, DataKey::RelayerCount, i.relayer_count);
    put_holds(l18, DataKey::RelayerThreshold, i.relayer_threshold, x);
    let l19 = put(l18, DataKey::RelayerThreshold, i.relayer_threshold);
    put_holds(l19, DataKey::TimelockId, i.timelock_id, x);
    let l20 = put(l19, DataKey::TimelockId, i.timelock_id);
    put_holds(l20, DataKey::CommitmentId, i.commitment_id, x);
    let l21 = put(l20, DataKey::CommitmentId, i.commitment_id);
    put_holds(l21, DataKey::MaxInstanceTtl, i.max_instance_ttl, x);
    let l22 = put(l21, DataKey::MaxInstanceTtl, i.max_instance_ttl);
    put_holds(l22, DataKey::MaxPersistentTtl, i.max_persistent_ttl, x);
    let l23 = put(l22, DataKey::MaxPersistentTtl, i.max_persistent_ttl);
    put_holds(l23, DataKey::PendingUpgrade, i.pending_upgrade, x);
    let l24 = put(l23, DataKey::PendingUpgrade, i.pending_upgrade);
    put_holds(l24, DataKey::CurrentWasmHash, i.current_wasm_hash, x);
    let l25 = put(l24, DataKey::CurrentWasmHash, i.current_wasm_hash);
}

/// The event of a contract-wide entry is among those of them all.
proof fn instance_entry_is_among(s: BridgeState, key: DataKey)
    requires
        stored_at(s, key) is Some,
        ({
            ||| key is Initialized
            ||| key is Deactivated
            ||| key is Entered
            ||| key is Admin
            ||| key is FeeCollector
            ||| key is PendingAdmin
            ||| key is PendingFeeCollector
            ||| key is FeeBps
            ||| key is Paused
            ||| key is AllowlistMode
            ||| key is Config
            ||| key is BridgeConfig
            ||| key is ReferralRate
            ||| key is MinimumAmount
            ||| key is MaxWithdrawPerTx
            ||| key is LoyaltyToken
            ||| key is LoyaltyAmountPerFund
            ||| key is RelayerCount
            ||| key is RelayerThreshold
            ||| key is TimelockId
            ||| key is CommitmentId
            ||| key is MaxInstanceTtl
            ||| key is MaxPersistentTtl
            ||| key is PendingUpgrade
            ||| key is CurrentWasmHash
        }),
    ensures
        instance_entries(s.instance).contains(entry(key, stored_at(s, key)->0)),
{
    let i = s.instance;
    let x = entry(key, stored_at(s, key)->0);
    instance_entries_hold(s, x);
}

/// What one part of the export holds, the export holds, and nothing else.
proof fn part_is_exported(s: BridgeState, x: Action)
    ensures
        ({
            ||| instance_entries(s.instance).contains(x)
            ||| tier_events(s.fee_tiers).contains(x)
            ||| asset_events(s.asset_whitelist).contains(x)
            ||| pool_events(s.pool_whitelist).contains(x)
            ||| entries(PerAddress::Blocked, s.blocked).contains(x)
            ||| entries(PerAddress::Allowlisted, s.allowlisted).contains(x)
            ||| entries(PerAddress::AssetStats, s.asset_stats).contains(x)
            ||| entries(PerAddress::AccruedFees, s.accrued_fees).contains(x)
            ||| entries(PerAddress::TotalBridged, s.total_bridged).contains(x)
            ||| entries(PerAddress::TotalFeesCollected, s.total_fees_collected).contains(x)
            ||| entries(PerAddress::AssetFeeCap, s.asset_fee_cap).contains(x)
            ||| entries(PerAddress::Nonce, s.nonce).contains(x)
            ||| entries(PerAddress::AuthNonce, s.auth_nonce).contains(x)
            ||| entries(PerAddress::SourceBridgedVolume, s.source_bridged_volume).contains(x)
            ||| entries(PerAddress::MetaSigner, s.meta_signer).contains(x)
            ||| entries(PerNumber::UsedAuthNonce, s.used_auth_nonce).contains(x)
            ||| entries(PerNumber::MetaTxNonce, s.meta_tx_nonce).contains(x)
            ||| entries(PerPair::SourceDailyLimit, s.source_daily_limit).contains(x)
            ||| entries(PerPair::UserDeposit, s.user_deposit).contains(x)
            ||| entries(PerDay::DailyUsage, s.daily_usage).contains(x)
            ||| entries(PerHash::Relayer, s.relayer).contains(x)
            ||| entries(PerHash::CrossChainNonce, s.cross_chain_nonce).contains(x)
            ||| entries(PerId::Timelock, s.timelock).contains(x)
            ||| entries(PerId::Commitment, s.commitment).contains(x)
        }) <==> export(s).contains(x),
{
    reveal(export);
    longer_holds(instance_entries(s.instance), tier_events(s.fee_tiers), x);
    let p0 = instance_entries(s.instance) + tier_events(s.fee_tiers);
    longer_holds(p0, asset_events(s.asset_whitelist), x);
    let p1 = p0 + asset_events(s.asset_whitelist);
    longer_holds(p1, pool_events(s.pool_whitelist), x);
    let p2 = p1 + pool_events(s.pool_whitelist);
    longer_holds(p2, entries(PerAddress::Blocked, s.blocked), x);
    let p3 = p2 + entries(PerAddress::Blocked, s.blocked);
    longer_holds(p3, entries(PerAddress::Allowlisted, s.allowlisted), x);
    let p4 = p3 + entries(PerAddress::Allowlisted, s.allowlisted);
    longer_holds(p4, entries(PerAddress::AssetStats, s.asset_stats), x);
    let p5 = p4 + entries(PerAddress::AssetStats, s.asset_stats);
    longer_holds(p5, entries(PerAddress::AccruedFees, s.accrued_fees), x);
    let p6 = p5 + entries(PerAddress::AccruedFees, s.accrued_fees);
    longer_holds(p6, entries(PerAddress::TotalBridged, s.total_bridged), x);
    let p7 = p6 + entries(PerAddress::TotalBridged, s.total_bridged);
    longer_holds(p7, entries(PerAddress::TotalFeesCollected, s.total_fees_collected), x);
    let p8 = p7 + entries(PerAddress::TotalFeesCollected, s.total_fees_collected);
    longer_holds(p8, entries(PerAddress::AssetFeeCap, s.asset_fee_cap), x);
    let p9 = p8 + entries(PerAddress::AssetFeeCap, s.asset_fee_cap);
    longer_holds(p9, entries(PerAddress::Nonce, s.nonce), x);
    let p10 = p9 + entries(PerAddress::Nonce, s.nonce);
    longer_holds(p10, entries(PerAddress::AuthNonce, s.auth_nonce), x);
    let p11 = p10 + entries(PerAddress::AuthNonce, s.auth_nonce);
    longer_holds(p11, entries(PerAddress::SourceBridgedVolume, s.source_bridged_volume), x);
    let p12 = p11 + entries(PerAddress::SourceBridgedVolume, s.source_bridged_volume);
    longer_holds(p12, entries(PerAddress::MetaSigner, s.meta_signer), x);
    let p13 = p12 + entries(PerAddress::MetaSigner, s.meta_signer);
    longer_holds(p13, entries(PerNumber::UsedAuthNonce, s.used_auth_nonce), x);
    let p14 = p13 + entries(PerNumber::UsedAuthNonce, s.used_auth_nonce);
    longer_holds(p14, entries(PerNumber::MetaTxNonce, s.meta_tx_nonce), x);
    let p15 = p14 + entries(PerNumber::MetaTxNonce, s.meta_tx_nonce);
    longer_holds(p15, entries(PerPair::SourceDailyLimit, s.source_daily_limit), x);
    let p16 = p15 + entries(PerPair::SourceDailyLimit, s.source_daily_limit);
    longer_holds(p16, entries(PerPair::UserDeposit, s.user_deposit), x);
    let p17 = p16 + entries(PerPair::UserDeposit, s.user_deposit);
    longer_holds(p17, entries(PerDay::DailyUsage, s.daily_usage), x);
    let p18 = p17 + entries(PerDay::DailyUsage, s.daily_usage);
    longer_holds(p18, entries(PerHash::Relayer, s.relayer), x);
    let p19 = p18 + entries(PerHash::Relayer, s.relayer);
    longer_holds(p19, entries(PerHash::CrossChainNonce, s.cross_chain_nonce), x);
    let p20 = p19 + entries(PerHash::CrossChainNonce, s.cross_chain_nonce);
    longer_holds(p20, entries(PerId::Timelock, s.timelock), x);
    let p21 = p20 + entries(PerId::Timelock, s.timelock);
    longer_holds(p21, entries(PerId::Commitment, s.commitment), x);
    let p22 = p21 + entries(PerId::Commitment, s.commitment);
}

/// Everything that the bridge has stored is exported: each entry with its name and
/// value, each whitelisted asset and pool, and each fee tier.
pub proof fn everything_is_exported(
    s: BridgeState,
    key: DataKey,
    asset: Address,
    pool: Address,
    position: int,
)
    requires
        finite_books(s),
    ensures
        stored_at(s, key) matches Some(value) ==> export(s).contains(entry(key, value)),
        s.asset_is_listed(asset) ==> export(s).contains(
            Action::Publish { event: Event::MigratedAsset { asset } },
        ),
        s.pool_is_listed(pool) ==> export(s).contains(
            Action::Publish { event: Event::MigratedPool { pool } },
        ),
        s.fee_tiers matches Some(tiers) ==> (0 <= position < tiers.len() ==> export(s).contains(
            Action::Publish { event: Event::MigratedTier { tier: tiers[position] } },
        )),
{
    if let Some(value) = stored_at(s, key) {
        part_is_exported(s, entry(key, value));
        match key {
            DataKey::Blocked(a) => {
                entry_is_among(PerAddress::Blocked, s.blocked, a);
            },
            DataKey::Allowlisted(a) => {
                entry_is_among(PerAddress::Allowlisted, s.allowlisted, a);
            },
            DataKey::AssetStats(a) => {
                entry_is_among(PerAddress::AssetStats, s.asset_stats, a);
            },
            DataKey::AccruedFees(a) => {
                entry_is_among(PerAddress::AccruedFees, s.accrued_fees, a);
            },
            DataKey::TotalBridged(a) => {
                entry_is_among(PerAddress::TotalBridged, s.total_bridged, a);
            },
            DataKey::TotalFeesCollected(a) => {
                entry_is_among(PerAddress::TotalFeesCollected, s.total_fees_collected, a);
            },
            DataKey::AssetFeeCap(a) => {
                entry_is_among(PerAddress::AssetFeeCap, s.asset_fee_cap, a);
            },
            DataKey::Nonce(a) => {
                entry_is_among(PerAddress::Nonce, s.nonce, a);
            },
            DataKey::AuthNonce(a) => {
                entry_is_among(PerAddress::AuthNonce, s.auth_nonce, a);
            },
            DataKey::SourceBridgedVolume(a) => {
                entry_is_among(PerAddress::SourceBridgedVolume, s.source_bridged_volume, a);
            },
            DataKey::MetaSigner(a) => {
                entry_is_among(PerAddress::MetaSigner, s.meta_signer, a);
            },
            DataKey::UsedAuthNonce(source, nonce) => {
                let k = SourceNonce { source, nonce };
                entry_is_among(PerNumber::UsedAuthNonce, s.used_auth_nonce, k);
            },
            DataKey::MetaTxNonce(source, nonce) => {
                let k = SourceNonce { source, nonce };
                entry_is_among(PerNumber::MetaTxNonce, s.meta_tx_nonce, k);
            },
            DataKey::SourceDailyLimit(source, asset) => {
                let k = SourceAsset { source, asset };
                entry_is_among(PerPair::SourceDailyLimit, s.source_daily_limit, k);
            },
            DataKey::UserDeposit(source, asset) => {
                let k = SourceAsset { source, asset };
                entry_is_among(PerPair::UserDeposit, s.user_deposit, k);
            },
            DataKey::DailyUsage(source, asset, day) => {
                let k = SourceAssetDay { source, asset, day };
                entry_is_among(PerDay::DailyUsage, s.daily_usage, k);
            },
            DataKey::Relayer(h) => {
                entry_is_among(PerHash::Relayer, s.relayer, h);
            },
            DataKey::CrossChainNonce(h) => {
                entry_is_among(PerHash::CrossChainNonce, s.cross_chain_nonce, h);
            },
            DataKey::Timelock(id) => {
                entry_is_among(PerId::Timelock, s.timelock, id);
            },
            DataKey::Commitment(id) => {
                entry_is_among(PerId::Commitment, s.commitment, id);
            },
            _ => {
                instance_entry_is_among(s, key);
            },
        }
    }
    if s.asset_is_listed(asset) {
        listing_holds(s.asset_whitelist);
        let keys = listing(s.asset_whitelist);
        let k = key_of(asset);
        assert(listed(s.asset_whitelist).contains(k));
        assert(keys.contains(k));
        let i = choose|i: int| 0 <= i < keys.len() && keys[i] == k;
        let x = Action::Publish { event: Event::MigratedAsset { asset } };
        assert(asset_events(s.asset_whitelist)[i] == x);
        part_is_exported(s, x);
    }
    if s.pool_is_listed(pool) {
        listing_holds(s.pool_whitelist);
        let keys = listing(s.pool_whitelist);
        let k = key_of(pool);
        assert(listed(s.pool_whitelist).contains(k));
        assert(keys.contains(k));
        let i = choose|i: int| 0 <= i < keys.len() && keys[i] == k;
        let x = Action::Publish { event: Event::MigratedPool { pool } };
        assert(pool_events(s.pool_whitelist)[i] == x);
        part_is_exported(s, x);
    }
    if let Some(tiers) = s.fee_tiers {
        if 0 <= position < tiers.len() {
            let x = Action::Publish { event: Event::MigratedTier { tier: tiers[position] } };
            assert(tier_events(s.fee_tiers)[position] == x);
            part_is_exported(s, x);
        }
    }
}

/// Nothing is exported but what the bridge has stored: every entry that is exported
/// stands under its name with its value, and every asset, pool and tier is listed.
pub proof fn nothing_else_is_exported(s: BridgeState, x: Action)
    requires
        finite_books(s),
        export(s).contains(x),
    ensures
        match x {
            Action::Publish { event: Event::MigratedEntry { key, value } } => stored_at(s, key)
                == Some(value),
            Action::Publish { event: Event::MigratedAsset { asset } } => s.asset_is_listed(asset),
            Action::Publish { event: Event::MigratedPool { pool } } => s.pool_is_listed(pool),
            Action::Publish { event: Event::MigratedTier { tier } } => s.fee_tiers is Some
                && s.fee_tiers->0.contains(tier),
            _ => false,
        },
{
    part_is_exported(s, x);
    if instance_entries(s.instance).contains(x) {
        instance_entries_hold(s, x);
    } else if tier_events(s.fee_tiers).contains(x) {
        let tiers = s.fee_tiers->0;
        let i = choose|i: int| 0 <= i < tiers.len() && tier_events(s.fee_tiers)[i] == x;
        assert(tiers.contains(tiers[i]));
    } else if asset_events(s.asset_whitelist).contains(x) {
        listing_holds(s.asset_whitelist);
        let keys = listing(s.asset_whitelist);
        let i = choose|i: int| 0 <= i < keys.len() && asset_events(s.asset_whitelist)[i] == x;
        assert(keys.contains(keys[i]));
        assert(listed(s.asset_whitelist).contains(keys[i]));
    } else if pool_events(s.pool_whitelist).contains(x) {
        listing_holds(s.pool_whitelist);
        let keys = listing(s.pool_whitelist);
        let i = choose|i: int| 0 <= i < keys.len() && pool_events(s.pool_whitelist)[i] == x;
        assert(keys.contains(keys[i]));
        assert(listed(s.pool_whitelist).contains(keys[i]));
    } else if entries(PerAddress::Blocked, s.blocked).contains(x) {
        let k = entries_are_there(PerAddress::Blocked, s.blocked, x);
    } else if entries(PerAddress::Allowlisted, s.allowlisted).contains(x) {
        let k = entries_are_there(PerAddress::Allowlisted, s.allowlisted, x);
    } else if entries(PerAddress::AssetStats, s.asset_stats).contains(x) {
        let k = entries_are_there(PerAddress::AssetStats, s.asset_stats, x);
    } else if entries(PerAddress::AccruedFees, s.accrued_fees).contains(x) {
        let k = entries_are_there(PerAddress::AccruedFees, s.accrued_fees, x);
    } else if entries(PerAddress::TotalBridged, s.total_bridged).contains(x) {
        let k = entries_are_there(PerAddress::TotalBridged, s.total_bridged, x);
    } else if entries(PerAddress::TotalFeesCollected, s.total_fees_collected).contains(x) {
        let k = entries_are_there(PerAddress::TotalFeesCollected, s.total_fees_collected, x);
    } else if entries(PerAddress::AssetFeeCap, s.asset_fee_cap).contains(x) {
        let k = entries_are_there(PerAddress::AssetFeeCap, s.asset_fee_cap, x);
    } else if entries(PerAddress::Nonce, s.nonce).contains(x) {
        let k = entries_are_there(PerAddress::Nonce, s.nonce, x);
    } else if entries(PerAddress::AuthNonce, s.auth_nonce).contains(x) {
        let k = entries_are_there(PerAddress::AuthNonce, s.auth_nonce, x);
    } else if entries(PerAddress::SourceBridgedVolume, s.source_bridged_volume).contains(x) {
        let k = entries_are_there(PerAddress::SourceBridgedVolume, s.source_bridged_volume, x);
    } else if entries(PerAddress::MetaSigner, s.meta_signer).contains(x) {
        let k = entries_are_there(PerAddress::MetaSigner, s.meta_signer, x);
    } else if entries(PerNumber::UsedAuthNonce, s.used_auth_nonce).contains(x) {
        let k = entries_are_there(PerNumber::UsedAuthNonce, s.used_auth_nonce, x);
    } else if entries(PerNumber::MetaTxNonce, s.meta_tx_nonce).contains(x) {
        let k = entries_are_there(PerNumber::MetaTxNonce, s.meta_tx_nonce, x);
    } else if entries(PerPair::SourceDailyLimit, s.source_daily_limit).contains(x) {
        let k = entries_are_there(PerPair::SourceDailyLimit, s.source_daily_limit, x);
    } else if entries(PerPair::UserDeposit, s.user_deposit).contains(x) {
        let k = entries_are_there(PerPair::UserDeposit, s.user_deposit, x);
    } else if entries(PerDay::DailyUsage, s.daily_usage).contains(x) {
        let k = entries_are_there(PerDay::DailyUsage, s.daily_usage, x);
    } else if entries(PerHash::Relayer, s.relayer).contains(x) {
        let k = entries_are_there(PerHash::Relayer, s.relayer, x);
    } else if entries(PerHash::CrossChainNonce, s.cross_chain_nonce).contains(x) {
        let k = entries_are_there(PerHash::CrossChainNonce, s.cross_chain_nonce, x);
    } else if entries(PerId::Timelock, s.timelock).contains(x) {
        let k = entries_are_there(PerId::Timelock, s.timelock, x);
    } else if entries(PerId::Commitment, s.commitment).contains(x) {
        let k = entries_are_there(PerId::Commitment, s.commitment, x);
    }
}

/// The value of a table at a key, if there is one.
pub open spec fn value_at<K, V>(m: Map<K, V>, k: K) -> Option<V> {
    if m.contains_key(k) {
        Some(m[k])
    } else {
        None
    }
}

/// A value as it is shown, if there is one.
pub open spec fn shown<V>(value: Option<V>, show: spec_fn(V) -> Stored) -> Option<Stored> {
    match value {
        Some(v) => Some(show(v)),
        None => None,
    }
}

/// Under the name of an entry that there is once stands the entry.
pub proof fn what_stands_under_a_single_name(s: BridgeState)
    ensures
        ({
            let i = s.instance;
            let flag = |v: bool| Stored::Flag(v);
            let rate = |v: u32| Stored::Rate(v);
            let number = |v: u64| Stored::Number(v);
            let amount = |v: i128| Stored::Amount(v);
            let party = |v: Address| Stored::Party(v);
            let hash = |v: Bytes32| Stored::Hash(v);
            let config = |v: BridgeConfig| Stored::Config(v);
            let roles = |v: BridgeConfigData| Stored::Roles(v);
            let upgrade = |v: PendingUpgrade| Stored::Upgrade(v);
            &&& i.initialized ==> stored_at(s, DataKey::Initialized) == Some(Stored::Flag(true))
            &&& !i.initialized ==> stored_at(s, DataKey::Initialized) is None
            &&& i.deactivated ==> stored_at(s, DataKey::Deactivated) == Some(Stored::Flag(true))
            &&& !i.deactivated ==> stored_at(s, DataKey::Deactivated) is None
            &&& i.entered ==> stored_at(s, DataKey::Entered) == Some(Stored::Flag(true))
            &&& !i.entered ==> stored_at(s, DataKey::Entered) is None
            &&& stored_at(s, DataKey::Admin) == shown(i.admin, party)
            &&& stored_at(s, DataKey::FeeCollector) == shown(i.fee_collector, party)
            &&& stored_at(s, DataKey::PendingAdmin) == shown(i.pending_admin, party)
            &&& stored_at(s, DataKey::PendingFeeCollector) == shown(i.pending_fee_collector, party)
            &&& stored_at(s, DataKey::FeeBps) == shown(i.fee_bps, rate)
            &&& stored_at(s, DataKey::Paused) == shown(i.paused, flag)
            &&& stored_at(s, DataKey::AllowlistMode) == shown(i.allowlist_mode, flag)
            &&& stored_at(s, DataKey::Config) == shown(i.config, config)
            &&& stored_at(s, DataKey::BridgeConfig) == shown(i.bridge_config, roles)
            &&& stored_at(s, DataKey::ReferralRate) == shown(i.referral_rate, rate)
            &&& stored_at(s, DataKey::MinimumAmount) == shown(i.minimum_amount, amount)
            &&& stored_at(s, DataKey::MaxWithdrawPerTx) == shown(i.max_withdraw_per_tx, amount)
            &&& stored_at(s, DataKey::LoyaltyToken) == shown(i.loyalty_token, party)
            &&& stored_at(s, DataKey::LoyaltyAmountPerFund)
                == shown(i.loyalty_amount_per_fund, amount)
            &&& stored_at(s, DataKey::RelayerCount) == shown(i.relayer_count, rate)
            &&& stored_at(s, DataKey::RelayerThreshold) == shown(i.relayer_threshold, rate)
            &&& stored_at(s, DataKey::TimelockId) == shown(i.timelock_id, number)
            &&& stored_at(s, DataKey::CommitmentId) == shown(i.commitment_id, number)
            &&& stored_at(s, DataKey::MaxInstanceTtl) == shown(i.max_instance_ttl, rate)
            &&& stored_at(s, DataKey::MaxPersistentTtl) == shown(i.max_persistent_ttl, rate)
            &&& stored_at(s, DataKey::PendingUpgrade) == shown(i.pending_upgrade, upgrade)
            &&& stored_at(s, DataKey::CurrentWasmHash) == shown(i.current_wasm_hash, hash)
        }),
{
}

/// Under a name that belongs to an address, a number, a pair or a hash stands the
/// entry of that one.
pub proof fn what_stands_under_a_name(
    s: BridgeState,
    a: Address,
    b: Address,
    n: u64,
    h: Bytes32,
)
    ensures
        ({
            let flag = |v: bool| Stored::Flag(v);
            let rate = |v: u32| Stored::Rate(v);
            let number = |v: u64| Stored::Number(v);
            let amount = |v: i128| Stored::Amount(v);
            let hash = |v: Bytes32| Stored::Hash(v);
            let counters = |v: AssetCounters| Stored::Counters(v);
            let lock = |v: TimelockEntry| Stored::Timelock(v);
            let commitment = |v: CommitmentEntry| Stored::Commitment(v);
            let used = SourceNonce { source: a, nonce: n };
            let pair = SourceAsset { source: a, asset: b };
            let day = SourceAssetDay { source: a, asset: b, day: n };
            &&& stored_at(s, DataKey::Blocked(a)) == shown(value_at(s.blocked, a), flag)
            &&& stored_at(s, DataKey::Allowlisted(a)) == shown(value_at(s.allowlisted, a), flag)
            &&& stored_at(s, DataKey::AssetStats(a)) == shown(value_at(s.asset_stats, a), counters)
            &&& stored_at(s, DataKey::AccruedFees(a)) == shown(value_at(s.accrued_fees, a), amount)
            &&& stored_at(s, DataKey::TotalBridged(a))
                == shown(value_at(s.total_bridged, a), amount)
            &&& stored_at(s, DataKey::TotalFeesCollected(a))
                == shown(value_at(s.total_fees_collected, a), amount)
            &&& stored_at(s, DataKey::AssetFeeCap(a)) == shown(value_at(s.asset_fee_cap, a), rate)
            &&& stored_at(s, DataKey::Nonce(a)) == shown(value_at(s.nonce, a), number)
            &&& stored_at(s, DataKey::AuthNonce(a)) == shown(value_at(s.auth_nonce, a), number)
            &&& stored_at(s, DataKey::SourceBridgedVolume(a))
                == shown(value_at(s.source_bridged_volume, a), amount)
            &&& stored_at(s, DataKey::MetaSigner(a)) == shown(value_at(s.meta_signer, a), hash)
            &&& stored_at(s, DataKey::UsedAuthNonce(a, n))
                == shown(value_at(s.used_auth_nonce, used), flag)
            &&& stored_at(s, DataKey::MetaTxNonce(a, n))
                == shown(value_at(s.meta_tx_nonce, used), flag)
            &&& stored_at(s, DataKey::SourceDailyLimit(a, b))
                == shown(value_at(s.source_daily_limit, pair), amount)
            &&& stored_at(s, DataKey::UserDeposit(a, b))
                == shown(value_at(s.user_deposit, pair), amount)
            &&& stored_at(s, DataKey::DailyUsage(a, b, n))
                == shown(value_at(s.daily_usage, day), amount)
            &&& stored_at(s, DataKey::Relayer(h)) == shown(value_at(s.relayer, h), flag)
            &&& stored_at(s, DataKey::CrossChainNonce(h))
                == shown(value_at(s.cross_chain_nonce, h), flag)
            &&& stored_at(s, DataKey::Timelock(n)) == shown(value_at(s.timelock, n), lock)
            &&& stored_at(s, DataKey::Commitment(n)) == shown(value_at(s.commitment, n), commitment)
        }),
{
}

/// A new bridge has stored nothing.
pub proof fn a_new_bridge_stores_nothing(ledger: Ledger, key: DataKey)
    ensures
        stored_at(empty_state(ledger), key) is None,
{
}

/// One where there is a value.
pub open spec fn one_if<V>(value: Option<V>) -> nat {
    if value is Some {
        1
    } else {
        0
    }
}

/// An ascending list of the members of a set is as long as the set is large.
proof fn listing_len<K>(before: spec_fn(K, K) -> bool, members: Set<K>)
    requires
        strict(before),
        members.finite(),
    ensures
        listing_of(before, members).len() == members.len(),
{
    listing_lists(before, members);
    let list = listing_of(before, members);
    assert forall|i: int, j: int| 0 <= i < j < list.len() implies list[i] != list[j] by {
        assert(before(list[i], list[j]));
    }
    assert(list.no_duplicates());
    list.unique_seq_to_set();
    assert(list.to_set() =~= members);
}

/// There are as many events of a kind as there are entries.
proof fn entries_len<K: Key, V: Storable, S: Shelf<K>>(shelf: S, m: Map<K, V>)
    requires
        m.dom().finite(),
    ensures
        entries(shelf, m).len() == m.dom().len(),
{
    key_order_is_strict::<K>();
    listing_len(key_order::<K>(), m.dom());
}

/// How many contract-wide entries there are.
pub open spec fn single_entries(i: Instance) -> nat {
    one_if(flag_if(i.initialized)) + one_if(flag_if(i.deactivated)) + one_if(flag_if(i.entered))
        + one_if(i.admin)
        + one_if(i.fee_collector)
        + one_if(i.pending_admin)
        + one_if(i.pending_fee_collector)
        + one_if(i.fee_bps)
        + one_if(i.paused)
        + one_if(i.allowlist_mode)
        + one_if(i.config)
        + one_if(i.bridge_config)
        + one_if(i.referral_rate)
        + one_if(i.minimum_amount)
        + one_if(i.max_withdraw_per_tx)
        + one_if(i.loyalty_token)
        + one_if(i.loyalty_amount_per_fund)
        + one_if(i.relayer_count)
        + one_if(i.relayer_threshold)
        + one_if(i.timelock_id)
        + one_if(i.commitment_id)
        + one_if(i.max_instance_ttl)
        + one_if(i.max_persistent_ttl)
        + one_if(i.pending_upgrade)
        + one_if(i.current_wasm_hash)
}

/// An entry adds one event, where it is there.
proof fn put_len<V: Storable>(list: Seq<Action>, key: DataKey, value: Option<V>)
    ensures
        put(list, key, value).len() == list.len() + one_if(value),
{
}

/// There are as many events of contract-wide entries as there are such entries.
proof fn instance_entries_len(i: Instance)
    ensures
        instance_entries(i).len() == single_entries(i),
{
    put_len(Seq::<Action>::empty(), DataKey::Initialized, flag_if(i.initialized));
    let l1 = put(Seq::<Action>::empty(), DataKey::Initialized, flag_if(i.initialized));
    put_len(l1, DataKey::Deactivated, flag_if(i.deactivated));
    let l2 = put(l1, DataKey::Deactivated, flag_if(i.deactivated));
    put_len(l2, DataKey::Entered, flag_if(i.entered));
    let l3 = put(l2, DataKey::Entered, flag_if(i.entered));
    put_len(l3, DataKey::Admin, i.admin);
    let l4 = put(l3, DataKey::Admin, i.admin);
    put_len(l4, DataKey::FeeCollector, i.fee_collector);
    let l5 = put(l4, DataKey::FeeCollector, i.fee_collector);
    put_len(l5, DataKey::PendingAdmin, i.pending_admin);
    let l6 = put(l5, DataKey::PendingAdmin, i.pending_admin);
    put_len(l6, DataKey::PendingFeeCollector, i.pending_fee_collector);
    let l7 = put(l6, DataKey::PendingFeeCollector, i.pending_fee_collector);
    put_len(l7, DataKey::FeeBps, i.fee_bps);
    let l8 = put(l7, DataKey::FeeBps, i.fee_bps);
    put_len(l8, DataKey::Paused, i.paused);
    let l9 = put(l8, DataKey::Paused, i.paused);
    put_len(l9, DataKey::AllowlistMode, i.allowlist_mode);
    let l10 = put(l9, DataKey::AllowlistMode, i.allowlist_mode);
    put_len(l10, DataKey::Config, i.config);
    let l11 = put(l10, DataKey::Config, i.config);
    put_len(l11, DataKey::BridgeConfig, i.bridge_config);
    let l12 = put(l11, DataKey::BridgeConfig, i.bridge_config);
    put_len(l12, DataKey::ReferralRate, i.referral_rate);
    let l13 = put(l12, DataKey::ReferralRate, i.referral_rate);
    put_len(l13, DataKey::MinimumAmount, i.minimum_amount);
    let l14 = put(l13, DataKey::MinimumAmount, i.minimum_amount);
    put_len(l14, DataKey::MaxWithdrawPerTx, i.max_withdraw_per_tx);
    let l15 = put(l14, DataKey::MaxWithdrawPerTx, i.max_withdraw_per_tx);
    put_len(l15, DataKey::LoyaltyToken, i.loyalty_token);
    let l16 = put(l15, DataKey::LoyaltyToken, i.loyalty_token);
    put_len(l16, DataKey::LoyaltyAmountPerFund, i.loyalty_amount_per_fund);
    let l17 = put(l16, DataKey::LoyaltyAmountPerFund, i.loyalty_amount_per_fund);
    put_len(l17, DataKey::RelayerCount, i.relayer_count);
    let l18 = put(l17, DataKey::RelayerCount, i.relayer_count);
    put_len(l18, DataKey::RelayerThreshold, i.relayer_threshold);
    let l19 = put(l18, DataKey::RelayerThreshold, i.relayer_threshold);
    put_len(l19, DataKey::TimelockId, i.timelock_id);
    let l20 = put(l19, DataKey::TimelockId, i.timelock_id);
    put_len(l20, DataKey::CommitmentId, i.commitment_id);
    let l21 = put(l20, DataKey::CommitmentId, i.commitment_id);
    put_len(l21, DataKey::MaxInstanceTtl, i.max_instance_ttl);
    let l22 = put(l21, DataKey::MaxInstanceTtl, i.max_instance_ttl);
    put_len(l22, DataKey::MaxPersistentTtl, i.max_persistent_ttl);
    let l23 = put(l22, DataKey::MaxPersistentTtl, i.max_persistent_ttl);
    put_len(l23, DataKey::PendingUpgrade, i.pending_upgrade);
    let l24 = put(l23, DataKey::PendingUpgrade, i.pending_upgrade);
    put_len(l24, DataKey::CurrentWasmHash, i.current_wasm_hash);
    let l25 = put(l24, DataKey::CurrentWasmHash, i.current_wasm_hash);
    assert(instance_entries(i) == l25);
}

/// Two lists together are as long as both.
proof fn both_len(a: Seq<Action>, b: Seq<Action>)
    ensures
        (a + b).len() == a.len() + b.len(),
{
}

/// How long the parts of the export are together.
spec fn parts_len(s: BridgeState) -> nat {
    instance_entries(s.instance).len()
        + tier_events(s.fee_tiers).len()
        + asset_events(s.asset_whitelist).len()
        + pool_events(s.pool_whitelist).len()
        + entries(PerAddress::Blocked, s.blocked).len()
        + entries(PerAddress::Allowlisted, s.allowlisted).len()
        + entries(PerAddress::AssetStats, s.asset_stats).len()
        + entries(PerAddress::AccruedFees, s.accrued_fees).len()
        + entries(PerAddress::TotalBridged, s.total_bridged).len()
        + entries(PerAddress::TotalFeesCollected, s.total_fees_collected).len()
        + entries(PerAddress::AssetFeeCap, s.asset_fee_cap).len()
        + entries(PerAddress::Nonce, s.nonce).len()
        + entries(PerAddress::AuthNonce, s.auth_nonce).len()
        + entries(PerAddress::SourceBridgedVolume, s.source_bridged_volume).len()
        + entries(PerAddress::MetaSigner, s.meta_signer).len()
        + entries(PerNumber::UsedAuthNonce, s.used_auth_nonce).len()
        + entries(PerNumber::MetaTxNonce, s.meta_tx_nonce).len()
        + entries(PerPair::SourceDailyLimit, s.source_daily_limit).len()
        + entries(PerPair::UserDeposit, s.user_deposit).len()
        + entries(PerDay::DailyUsage, s.daily_usage).len()
        + entries(PerHash::Relayer, s.relayer).len()
        + entries(PerHash::CrossChainNonce, s.cross_chain_nonce).len()
        + entries(PerId::Timelock, s.timelock).len()
        + entries(PerId::Commitment, s.commitment).len()
}

/// The export is as long as its parts together.
proof fn parts_add_up(s: BridgeState)
    ensures
        export(s).len() == parts_len(s),
{
    reveal(export);
    let p = instance_entries(s.instance);
    both_len(p, tier_events(s.fee_tiers));
    let p = p + tier_events(s.fee_tiers);
    both_len(p, asset_events(s.asset_whitelist));
    let p = p + asset_events(s.asset_whitelist);
    both_len(p, pool_events(s.pool_whitelist));
    let p = p + pool_events(s.pool_whitelist);
    both_len(p, entries(PerAddress::Blocked, s.blocked));
    let p = p + entries(PerAddress::Blocked, s.blocked);
    both_len(p, entries(PerAddress::Allowlisted, s.allowlisted));
    let p = p + entries(PerAddress::Allowlisted, s.allowlisted);
    both_len(p, entries(PerAddress::AssetStats, s.asset_stats));
    let p = p + entries(PerAddress::AssetStats, s.asset_stats);
    both_len(p, entries(PerAddress::AccruedFees, s.accrued_fees));
    let p = p + entries(PerAddress::AccruedFees, s.accrued_fees);
    both_len(p, entries(PerAddress::TotalBridged, s.total_bridged));
    let p = p + entries(PerAddress::TotalBridged, s.total_bridged);
    both_len(p, entries(PerAddress::TotalFeesCollected, s.total_fees_collected));
    let p = p + entries(PerAddress::TotalFeesCollected, s.total_fees_collected);
    both_len(p, entries(PerAddress::AssetFeeCap, s.asset_fee_cap));
    let p = p + entries(PerAddress::AssetFeeCap, s.asset_fee_cap);
    both_len(p, entries(PerAddress::Nonce, s.nonce));
    let p = p + entries(PerAddress::Nonce, s.nonce);
    both_len(p, entries(PerAddress::AuthNonce, s.auth_nonce));
    let p = p + entries(PerAddress::AuthNonce, s.auth_nonce);
    both_len(p, entries(PerAddress::SourceBridgedVolume, s.source_bridged_volume));
    let p = p + entries(PerAddress::SourceBridgedVolume, s.source_bridged_volume);
    both_len(p, entries(PerAddress::MetaSigner, s.meta_signer));
    let p = p + entries(PerAddress::MetaSigner, s.meta_signer);
    both_len(p, entries(PerNumber::UsedAuthNonce, s.used_auth_nonce));
    let p = p + entries(PerNumber::UsedAuthNonce, s.used_auth_nonce);
    both_len(p, entries(PerNumber::MetaTxNonce, s.meta_tx_nonce));
    let p = p + entries(PerNumber::MetaTxNonce, s.meta_tx_nonce);
    both_len(p, entries(PerPair::SourceDailyLimit, s.source_daily_limit));
    let p = p + entries(PerPair::SourceDailyLimit, s.source_daily_limit);
    both_len(p, entries(PerPair::UserDeposit, s.user_deposit));
    let p = p + entries(PerPair::UserDeposit, s.user_deposit);
    both_len(p, entries(PerDay::DailyUsage, s.daily_usage));
    let p = p + entries(PerDay::DailyUsage, s.daily_usage);
    both_len(p, entries(PerHash::Relayer, s.relayer));
    let p = p + entries(PerHash::Relayer, s.relayer);
    both_len(p, entries(PerHash::CrossChainNonce, s.cross_chain_nonce));
    let p = p + entries(PerHash::CrossChainNonce, s.cross_chain_nonce);
    both_len(p, entries(PerId::Timelock, s.timelock));
    let p = p + entries(PerId::Timelock, s.timelock);
    both_len(p, entries(PerId::Commitment, s.commitment));
    let p = p + entries(PerId::Commitment, s.commitment);
    assert(export(s) == p);
}

/// There is one event for each entry, each whitelisted asset and pool, and each tier,
/// and no event twice for one of them.
pub proof fn as_many_events_as_entries(s: BridgeState)
    requires
        finite_books(s),
    ensures
        export(s).len() == single_entries(s.instance) + (match s.fee_tiers {
            Some(tiers) => tiers.len(),
            None => 0,
        }) + listed(s.asset_whitelist).len() + listed(s.pool_whitelist).len()
            + s.blocked.dom().len()
            + s.allowlisted.dom().len()
            + s.asset_stats.dom().len()
            + s.accrued_fees.dom().len()
            + s.total_bridged.dom().len()
            + s.total_fees_collected.dom().len()
            + s.asset_fee_cap.dom().len()
            + s.nonce.dom().len()
            + s.auth_nonce.dom().len()
            + s.source_bridged_volume.dom().len()
            + s.meta_signer.dom().len()
            + s.used_auth_nonce.dom().len()
            + s.meta_tx_nonce.dom().len()
            + s.source_daily_limit.dom().len()
            + s.user_deposit.dom().len()
            + s.daily_usage.dom().len()
            + s.relayer.dom().len()
            + s.cross_chain_nonce.dom().len()
            + s.timelock.dom().len()
            + s.commitment.dom().len(),
{
    assert(export(s).len() == parts_len(s)) by {
        parts_add_up(s);
    }
    instance_entries_len(s.instance);
    map_order_is_strict();
    lemma_len_subset(listed(s.asset_whitelist), s.asset_whitelist.dom());
    lemma_len_subset(listed(s.pool_whitelist), s.pool_whitelist.dom());
    listing_len(map_order(), listed(s.asset_whitelist));
    listing_len(map_order(), listed(s.pool_whitelist));
    entries_len(PerAddress::Blocked, s.blocked);
    entries_len(PerAddress::Allowlisted, s.allowlisted);
    entries_len(PerAddress::AssetStats, s.asset_stats);
    entries_len(PerAddress::AccruedFees, s.accrued_fees);
    entries_len(PerAddress::TotalBridged, s.total_bridged);
    entries_len(PerAddress::TotalFeesCollected, s.total_fees_collected);
    entries_len(PerAddress::AssetFeeCap, s.asset_fee_cap);
    entries_len(PerAddress::Nonce, s.nonce);
    entries_len(PerAddress::AuthNonce, s.auth_nonce);
    entries_len(PerAddress::SourceBridgedVolume, s.source_bridged_volume);
    entries_len(PerAddress::MetaSigner, s.meta_signer);
    entries_len(PerNumber::UsedAuthNonce, s.used_auth_nonce);
    entries_len(PerNumber::MetaTxNonce, s.meta_tx_nonce);
    entries_len(PerPair::SourceDailyLimit, s.source_daily_limit);
    entries_len(PerPair::UserDeposit, s.user_deposit);
    entries_len(PerDay::DailyUsage, s.daily_usage);
    entries_len(PerHash::Relayer, s.relayer);
    entries_len(PerHash::CrossChainNonce, s.cross_chain_nonce);
    entries_len(PerId::Timelock, s.timelock);
    entries_len(PerId::Commitment, s.commitment);
}

} // verus!
