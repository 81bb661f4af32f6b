//! The books of the bridge.
use vstd::prelude::*;

use crate::actions::{Action, Event};
use crate::bytes::Bytes32;
use crate::errors::BridgeError;
use crate::host::{flags, flags_new, key_of};
use crate::table::Table;
use crate::types::{
    Address, AssetCounters, BridgeConfig, BridgeConfigData, CommitmentEntry, FeeTier, Ledger,
    PendingUpgrade, SourceAsset, SourceAssetDay, SourceNonce, TimelockEntry, MAX_ALLOWED_TTL,
    MAX_FEE_BPS, MAX_REFERRAL_BPS,
};

verus! {

/// What the bridge keeps once, in the instance tier of the storage. `None` is an
/// entry that was never written.
#[derive(Clone, Copy, Debug, PartialEq, Eq, Structural)]
pub struct Instance {
    pub initialized: bool,
    pub deactivated: bool,
    pub entered: bool,
    pub admin: Option<Address>,
    pub fee_collector: Option<Address>,
    pub pending_admin: Option<Address>,
    pub pending_fee_collector: Option<Address>,
    pub fee_bps: Option<u32>,
    pub paused: Option<bool>,
    pub allowlist_mode: Option<bool>,
    pub config: Option<BridgeConfig>,
    pub bridge_config: Option<BridgeConfigData>,
    pub referral_rate: Option<u32>,
    pub minimum_amount: Option<i128>,
    pub max_withdraw_per_tx: Option<i128>,
    pub loyalty_token: Option<Address>,
    pub loyalty_amount_per_fund: Option<i128>,
    pub relayer_count: Option<u32>,
    pub relayer_threshold: Option<u32>,
    pub timelock_id: Option<u64>,
    pub commitment_id: Option<u64>,
    pub max_instance_ttl: Option<u32>,
    pub max_persistent_ttl: Option<u32>,
    pub pending_upgrade: Option<PendingUpgrade>,
    pub current_wasm_hash: Option<Bytes32>,
}

/// The bridge: its books, the ledger in which the current call runs, and what
/// the call has asked of the host so far.
pub struct OnboardingBridge {
    pub ledger: Ledger,
    pub instance: Instance,
    pub fee_tiers: Option<Vec<FeeTier>>,
    pub asset_whitelist: soroban_sdk::Map<(u32, u128, u128), bool>,
    pub pool_whitelist: soroban_sdk::Map<(u32, u128, u128), bool>,
    pub blocked: Table<Address, bool>,
    pub allowlisted: Table<Address, bool>,
    pub asset_stats: Table<Address, AssetCounters>,
    pub accrued_fees: Table<Address, i128>,
    pub total_bridged: Table<Address, i128>,
    pub total_fees_collected: Table<Address, i128>,
    pub asset_fee_cap: Table<Address, u32>,
    pub nonce: Table<Address, u64>,
    pub auth_nonce: Table<Address, u64>,
    pub used_auth_nonce: Table<SourceNonce, bool>,
    pub source_daily_limit: Table<SourceAsset, i128>,
    pub daily_usage: Table<SourceAssetDay, i128>,
    pub user_deposit: Table<SourceAsset, i128>,
    pub source_bridged_volume: Table<Address, i128>,
    pub relayer: Table<Bytes32, bool>,
    pub cross_chain_nonce: Table<Bytes32, bool>,
    pub timelock: Table<u64, TimelockEntry>,
    pub commitment: Table<u64, CommitmentEntry>,
    pub meta_tx_nonce: Table<SourceNonce, bool>,
    pub meta_signer: Table<Address, Bytes32>,
    pub actions: Vec<Action>,
}

/// The bridge as a mathematical value.
#[verifier::ext_equal]
pub struct BridgeState {
    pub ledger: Ledger,
    pub instance: Instance,
    pub fee_tiers: Option<Seq<FeeTier>>,
    pub asset_whitelist: Map<(u32, u128, u128), bool>,
    pub pool_whitelist: Map<(u32, u128, u128), bool>,
    pub blocked: Map<Address, bool>,
    pub allowlisted: Map<Address, bool>,
    pub asset_stats: Map<Address, AssetCounters>,
    pub accrued_fees: Map<Address, i128>,
    pub total_bridged: Map<Address, i128>,
    pub total_fees_collected: Map<Address, i128>,
    pub asset_fee_cap: Map<Address, u32>,
    pub nonce: Map<Address, u64>,
    pub auth_nonce: Map<Address, u64>,
    pub used_auth_nonce: Map<SourceNonce, bool>,
    pub source_daily_limit: Map<SourceAsset, i128>,
    pub daily_usage: Map<SourceAssetDay, i128>,
    pub user_deposit: Map<SourceAsset, i128>,
    pub source_bridged_volume: Map<Address, i128>,
    pub relayer: Map<Bytes32, bool>,
    pub cross_chain_nonce: Map<Bytes32, bool>,
    pub timelock: Map<u64, TimelockEntry>,
    pub commitment: Map<u64, CommitmentEntry>,
    pub meta_tx_nonce: Map<SourceNonce, bool>,
    pub meta_signer: Map<Address, Bytes32>,
    pub actions: Seq<Action>,
}

impl View for OnboardingBridge {
    type V = BridgeState;

    open spec fn view(&self) -> BridgeState {
        BridgeState {
            ledger: self.ledger,
            instance: self.instance,
            fee_tiers: match self.fee_tiers {
                Some(tiers) => Some(tiers@),
                None => None,
            },
            asset_whitelist: flags(self.asset_whitelist),
            pool_whitelist: flags(self.pool_whitelist),
            blocked: self.blocked@,
            allowlisted: self.allowlisted@,
            asset_stats: self.asset_stats@,
            accrued_fees: self.accrued_fees@,
            total_bridged: self.total_bridged@,
            total_fees_collected: self.total_fees_collected@,
            asset_fee_cap: self.asset_fee_cap@,
            nonce: self.nonce@,
            auth_nonce: self.auth_nonce@,
            used_auth_nonce: self.used_auth_nonce@,
            source_daily_limit: self.source_daily_limit@,
            daily_usage: self.daily_usage@,
            user_deposit: self.user_deposit@,
            source_bridged_volume: self.source_bridged_volume@,
            relayer: self.relayer@,
            cross_chain_nonce: self.cross_chain_nonce@,
            timelock: self.timelock@,
            commitment: self.commitment@,
            meta_tx_nonce: self.meta_tx_nonce@,
            meta_signer: self.meta_signer@,
            actions: self.actions@,
        }
    }
}

/// What a map holds for a key, or a default.
pub open spec fn value_or<K, V>(m: Map<K, V>, k: K, default: V) -> V {
    if m.contains_key(k) {
        m[k]
    } else {
        default
    }
}

/// What an option holds, or a default.
pub open spec fn option_or<V>(o: Option<V>, default: V) -> V {
    match o {
        Some(v) => v,
        None => default,
    }
}

/// What a map holds for a key, if anything.
pub open spec fn lookup<K, V>(m: Map<K, V>, k: K) -> Option<V> {
    if m.contains_key(k) {
        Some(m[k])
    } else {
        None
    }
}

/// The earlier of two reasons to refuse a call.
pub open spec fn first(a: Option<BridgeError>, b: Option<BridgeError>) -> Option<BridgeError> {
    if a is Some {
        a
    } else {
        b
    }
}

/// A reason to refuse a call, where the condition holds.
pub open spec fn refuse_if(condition: bool, e: BridgeError) -> Option<BridgeError> {
    if condition {
        Some(e)
    } else {
        None
    }
}

/// What a call returns that has nothing to return.
pub open spec fn verdict(e: Option<BridgeError>) -> Result<(), BridgeError> {
    match e {
        Some(e) => Err(e),
        None => Ok(()),
    }
}

/// What a call returns that succeeds with `value`.
pub open spec fn answer<T>(e: Option<BridgeError>, value: T) -> Result<T, BridgeError> {
    match e {
        Some(e) => Err(e),
        None => Ok(value),
    }
}

/// The books of an asset that was never bridged.
pub open spec fn no_counters() -> AssetCounters {
    AssetCounters { accrued_fees: 0, total_bridged: 0, total_fees_collected: 0, locked_timelock: 0 }
}

impl BridgeState {
    /// What holds of the books of every bridge: once it is initialized its roles
    /// are known, only an initialized one has been left, and no stored rate exceeds
    /// its maximum.
    pub open spec fn wf(self) -> bool {
        &&& self.instance.initialized ==> self.instance.admin is Some
        &&& self.instance.initialized ==> self.instance.fee_collector is Some
        &&& self.instance.deactivated ==> self.instance.initialized
        &&& self.config().fee_bps <= MAX_FEE_BPS
        &&& self.referral_rate() <= MAX_REFERRAL_BPS
        &&& self.fee_tiers matches Some(tiers) ==> forall|i: int|
            0 <= i < tiers.len() ==> (#[trigger] tiers[i]).fee_bps <= MAX_FEE_BPS
    }

    /// The admin of an initialized bridge.
    pub open spec fn admin(self) -> Address {
        self.instance.admin->0
    }

    /// The fee collector of an initialized bridge.
    pub open spec fn fee_collector(self) -> Address {
        self.instance.fee_collector->0
    }

    /// The settings, or those of a bridge on which nothing has been set.
    pub open spec fn config(self) -> BridgeConfig {
        option_or(
            self.instance.config,
            BridgeConfig { fee_bps: 0, paused: false, allowlist_mode: false },
        )
    }

    /// The roles and the fee rate, as they are cached.
    pub open spec fn bridge_config(self) -> BridgeConfigData {
        option_or(
            self.instance.bridge_config,
            BridgeConfigData {
                admin: self.admin(),
                fee_collector: self.fee_collector(),
                fee_bps: self.config().fee_bps,
            },
        )
    }

    pub open spec fn referral_rate(self) -> u32 {
        option_or(self.instance.referral_rate, 0)
    }

    pub open spec fn minimum_amount(self) -> i128 {
        option_or(self.instance.minimum_amount, 0)
    }

    pub open spec fn max_withdraw_per_tx(self) -> i128 {
        option_or(self.instance.max_withdraw_per_tx, 0)
    }

    pub open spec fn max_instance_ttl(self) -> u32 {
        option_or(self.instance.max_instance_ttl, MAX_ALLOWED_TTL)
    }

    pub open spec fn max_persistent_ttl(self) -> u32 {
        option_or(self.instance.max_persistent_ttl, MAX_ALLOWED_TTL)
    }

    pub open spec fn nonce_of(self, caller: Address) -> u64 {
        value_or(self.nonce, caller, 0)
    }

    pub open spec fn counters_of(self, asset: Address) -> AssetCounters {
        value_or(self.asset_stats, asset, no_counters())
    }

    pub open spec fn volume_of(self, source: Address) -> i128 {
        value_or(self.source_bridged_volume, source, 0)
    }

    pub open spec fn deposit_of(self, source: Address, asset: Address) -> i128 {
        value_or(self.user_deposit, SourceAsset { source, asset }, 0)
    }

    pub open spec fn is_blocked(self, a: Address) -> bool {
        value_or(self.blocked, a, false)
    }

    pub open spec fn is_allowlisted(self, a: Address) -> bool {
        value_or(self.allowlisted, a, false)
    }

    pub open spec fn asset_is_listed(self, asset: Address) -> bool {
        value_or(self.asset_whitelist, key_of(asset), false)
    }

    pub open spec fn pool_is_listed(self, pool: Address) -> bool {
        value_or(self.pool_whitelist, key_of(pool), false)
    }

    /// The books with one more action asked for.
    pub open spec fn act(self, action: Action) -> BridgeState {
        BridgeState { actions: self.actions.push(action), ..self }
    }

    /// The books with further actions asked for.
    pub open spec fn act_all(self, more: Seq<Action>) -> BridgeState {
        BridgeState { actions: self.actions + more, ..self }
    }

    pub open spec fn publish(self, event: Event) -> BridgeState {
        self.act(Action::Publish { event })
    }

    pub open spec fn require_auth(self, address: Address) -> BridgeState {
        self.act(Action::RequireAuth { address })
    }

    pub open spec fn transfer(
        self,
        asset: Address,
        from: Address,
        to: Address,
        amount: i128,
    ) -> BridgeState {
        self.act(Action::Transfer { asset, from, to, amount })
    }

    /// The request to take tokens from an address.
    pub open spec fn pull(self, asset: Address, from: Address, amount: i128) -> BridgeState {
        self.transfer(asset, from, self.ledger.contract, amount)
    }

    /// The request to send tokens of the bridge, where there is something to send.
    pub open spec fn pay_out(self, asset: Address, to: Address, amount: i128) -> BridgeState {
        if amount > 0 {
            self.transfer(asset, self.ledger.contract, to, amount)
        } else {
            self
        }
    }

    /// The request to keep the instance entries alive: for as long as is set as
    /// their maximum, once they have less than a quarter of it left.
    pub open spec fn keep_alive(self) -> BridgeState {
        self.act(
            Action::ExtendInstanceTtl {
                threshold: (self.max_instance_ttl() / 4) as u32,
                extend_to: self.max_instance_ttl(),
            },
        )
    }

    /// The reward for a funding call, where one is configured.
    pub open spec fn reward(self, recipient: Address) -> BridgeState {
        let amount = option_or(self.instance.loyalty_amount_per_fund, 0);
        match self.instance.loyalty_token {
            Some(token) => if amount > 0 {
                self.act(Action::RewardLoyalty { token, recipient, amount })
            } else {
                self
            },
            None => self,
        }
    }

    /// The books after a nonce has been consumed.
    pub open spec fn consume(self, caller: Address, nonce: Option<u64>) -> BridgeState {
        match nonce {
            Some(n) => BridgeState { nonce: self.nonce.insert(caller, (n + 1) as u64), ..self },
            None => self,
        }
    }

    /// The books with new totals of an asset, and the copies of three of them.
    pub open spec fn with_counters(self, asset: Address, c: AssetCounters) -> BridgeState {
        BridgeState {
            asset_stats: self.asset_stats.insert(asset, c),
            accrued_fees: self.accrued_fees.insert(asset, c.accrued_fees),
            total_bridged: self.total_bridged.insert(asset, c.total_bridged),
            total_fees_collected: self.total_fees_collected.insert(asset, c.total_fees_collected),
            ..self
        }
    }

    /// The books with a new volume of a source.
    pub open spec fn with_volume(self, source: Address, volume: i128) -> BridgeState {
        BridgeState { source_bridged_volume: self.source_bridged_volume.insert(source, volume), ..self }
    }

    /// The books with a new total of what a source has deposited of an asset.
    pub open spec fn with_deposit(
        self,
        source: Address,
        asset: Address,
        deposit: i128,
    ) -> BridgeState {
        BridgeState {
            user_deposit: self.user_deposit.insert(SourceAsset { source, asset }, deposit),
            ..self
        }
    }

    /// The books with other instance entries.
    pub open spec fn with_instance(self, instance: Instance) -> BridgeState {
        BridgeState { instance, ..self }
    }

    /// The books after the admin has been asked to authorize a call and its nonce
    /// has been consumed.
    pub open spec fn admin_call(self, nonce: Option<u64>) -> BridgeState {
        self.consume(self.admin(), nonce).require_auth(self.admin()).keep_alive()
    }

    /// Why a call of the admin is refused that has nothing else to go wrong.
    pub open spec fn admin_error(self, nonce: Option<u64>) -> Option<BridgeError> {
        first(self.running_error(), self.nonce_error(self.admin(), nonce))
    }

    /// Why a call is refused that changes the books while the bridge is active.
    pub open spec fn active_error(self) -> Option<BridgeError> {
        first(
            refuse_if(self.instance.entered, BridgeError::Reentrant),
            first(
                refuse_if(!self.instance.initialized, BridgeError::NotInitialized),
                refuse_if(self.instance.deactivated, BridgeError::ContractDeactivated),
            ),
        )
    }

    /// Why a call is refused that changes the books and is disabled by a pause.
    pub open spec fn running_error(self) -> Option<BridgeError> {
        first(
            self.active_error(),
            refuse_if(self.config().paused, BridgeError::ContractPaused),
        )
    }

    /// Why a query is refused that needs an initialized bridge.
    pub open spec fn query_error(self) -> Option<BridgeError> {
        refuse_if(!self.instance.initialized, BridgeError::NotInitialized)
    }

    /// Why a nonce is refused: one was given, and it is not the caller's next.
    pub open spec fn nonce_error(self, caller: Address, nonce: Option<u64>) -> Option<BridgeError> {
        match nonce {
            Some(n) => refuse_if(n != self.nonce_of(caller), BridgeError::DuplicateNonce),
            None => None,
        }
    }

    /// Whether the caller's next nonce after this one is still a number.
    pub open spec fn nonce_fits(self, caller: Address, nonce: Option<u64>) -> bool {
        nonce matches Some(n) ==> n < u64::MAX
    }

    /// Why a deadline is refused: it is in the past.
    pub open spec fn deadline_error(self, deadline: Option<u64>) -> Option<BridgeError> {
        match deadline {
            Some(d) => refuse_if(self.ledger.timestamp > d, BridgeError::TransactionExpired),
            None => None,
        }
    }

    /// Why an amount is refused: it is not positive, or below the minimum.
    pub open spec fn amount_error(self, amount: i128) -> Option<BridgeError> {
        refuse_if(amount <= 0 || amount < self.minimum_amount(), BridgeError::InvalidAmount)
    }

    /// Why a target is refused. Being blocked counts before the allowlist.
    pub open spec fn access_error(self, target: Address) -> Option<BridgeError> {
        first(
            refuse_if(self.is_blocked(target), BridgeError::AddressBlocked),
            refuse_if(
                self.config().allowlist_mode && !self.is_allowlisted(target),
                BridgeError::AddressNotAllowlisted,
            ),
        )
    }

    /// Why an asset is refused: it is not whitelisted.
    pub open spec fn asset_error(self, asset: Address) -> Option<BridgeError> {
        refuse_if(!self.asset_is_listed(asset), BridgeError::AssetNotWhitelisted)
    }
}

impl OnboardingBridge {
    /// A bridge with empty books.
    pub fn new(env: &soroban_sdk::Env, ledger: Ledger) -> (r: OnboardingBridge)
        ensures
            r@ == empty_state(ledger),
            r@.wf(),
    {
        let r = OnboardingBridge {
            ledger,
            instance: Instance {
                initialized: false,
                deactivated: false,
                entered: false,
                admin: None,
                fee_collector: None,
                pending_admin: None,
                pending_fee_collector: None,
                fee_bps: None,
                paused: None,
                allowlist_mode: None,
                config: None,
                bridge_config: None,
                referral_rate: None,
                minimum_amount: None,
                max_withdraw_per_tx: None,
                loyalty_token: None,
                loyalty_amount_per_fund: None,
                relayer_count: None,
                relayer_threshold: None,
                timelock_id: None,
                commitment_id: None,
                max_instance_ttl: None,
                max_persistent_ttl: None,
                pending_upgrade: None,
                current_wasm_hash: None,
            },
            fee_tiers: None,
            asset_whitelist: flags_new(env),
            pool_whitelist: flags_new(env),
            blocked: Table::new(),
            allowlisted: Table::new(),
            asset_stats: Table::new(),
            accrued_fees: Table::new(),
            total_bridged: Table::new(),
            total_fees_collected: Table::new(),
            asset_fee_cap: Table::new(),
            nonce: Table::new(),
            auth_nonce: Table::new(),
            used_auth_nonce: Table::new(),
            source_daily_limit: Table::new(),
            daily_usage: Table::new(),
            user_deposit: Table::new(),
            source_bridged_volume: Table::new(),
            relayer: Table::new(),
            cross_chain_nonce: Table::new(),
            timelock: Table::new(),
            commitment: Table::new(),
            meta_tx_nonce: Table::new(),
            meta_signer: Table::new(),
            actions: Vec::new(),
        };
        r
    }
}

/// The books of a bridge on which nothing has been done.
pub open spec fn empty_state(ledger: Ledger) -> BridgeState {
    BridgeState {
        ledger,
        instance: Instance {
            initialized: false,
            deactivated: false,
            entered: false,
            admin: None,
            fee_collector: None,
            pending_admin: None,
            pending_fee_collector: None,
            fee_bps: None,
            paused: None,
            allowlist_mode: None,
            config: None,
            bridge_config: None,
            referral_rate: None,
            minimum_amount: None,
            max_withdraw_per_tx: None,
            loyalty_token: None,
            loyalty_amount_per_fund: None,
            relayer_count: None,
            relayer_threshold: None,
            timelock_id: None,
            commitment_id: None,
            max_instance_ttl: None,
            max_persistent_ttl: None,
            pending_upgrade: None,
            current_wasm_hash: None,
        },
        fee_tiers: None,
        asset_whitelist: Map::empty(),
        pool_whitelist: Map::empty(),
        blocked: Map::empty(),
        allowlisted: Map::empty(),
        asset_stats: Map::empty(),
        accrued_fees: Map::empty(),
        total_bridged: Map::empty(),
        total_fees_collected: Map::empty(),
        asset_fee_cap: Map::empty(),
        nonce: Map::empty(),
        auth_nonce: Map::empty(),
        used_auth_nonce: Map::empty(),
        source_daily_limit: Map::empty(),
        daily_usage: Map::empty(),
        user_deposit: Map::empty(),
        source_bridged_volume: Map::empty(),
        relayer: Map::empty(),
        cross_chain_nonce: Map::empty(),
        timelock: Map::empty(),
        commitment: Map::empty(),
        meta_tx_nonce: Map::empty(),
        meta_signer: Map::empty(),
        actions: Seq::empty(),
    }
}

} // verus!
