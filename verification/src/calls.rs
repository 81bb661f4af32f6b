//! All calls that change the books, as one function of the books.
//!
//! The contracts of the operations are stated one by one. Here they are put
//! together, so that what holds of every call and of every bridge can be said
//! once.
use vstd::prelude::*;

use crate::actions::Event;
use crate::batch::{batch_effect, batch_error};
use crate::bytes::{Bytes32, Signature};
use crate::commit_reveal::{commit_effect, commit_error, reveal_effect, reveal_error};
use crate::crosschain::{crosschain_effect, crosschain_error};
use crate::errors::BridgeError;
use crate::funding::{fund_effect, fund_error, referral_effect, referral_error};
use crate::lifecycle::{
    initialize_effect, initialize_error, migrate_effect, pause_effect, unpause_effect,
};
use crate::lists::{
    allowlist_effect, allowlist_mode_effect, asset_list_effect, blocklist_effect, pool_list_effect,
};
use crate::meta_tx::{meta_fund_effect, meta_fund_error, register_effect, register_error};
use crate::nonces::{auth_entry_effect, auth_entry_error};
use crate::relayers::{
    add_relayer_effect, remove_relayer_effect, remove_relayer_error, threshold_effect,
    threshold_error,
};
use crate::roles::{
    accept_admin_effect, accept_admin_error, accept_fee_collector_effect,
    accept_fee_collector_error, propose_admin_effect, propose_fee_collector_effect,
    set_admin_effect, set_fee_collector_effect,
};
use crate::safe_math::fits;
use crate::settings::{
    daily_limit_effect, fee_cap_effect, fee_tiers_effect, fee_tiers_error, loyalty_effect,
    loyalty_error, max_withdraw_effect, minimum_amount_effect, rate_error, referral_rate_effect,
    set_fee_bps_effect,
};
use crate::state::{empty_state, BridgeState};
use crate::swap::{
    complete_swap_effect, complete_swap_error, swap_effect, swap_error, PendingSwap,
};
use crate::timelock::{claim_effect, claim_error, lock_effect, lock_error};
use crate::treasury::{reclaim_effect, reclaim_error, withdraw_effect, withdraw_error};
use crate::ttl::{
    at_most, extend_entry_effect, extend_entry_error, extend_instance_effect,
    extend_persistent_effect, extend_source_effect, set_max_instance_effect,
    set_max_persistent_effect, set_max_ttl_error,
};
use crate::types::{
    Address, DataKey, FeeTier, Ledger, MetaFundParams, RelayerSig, MAX_ALLOWED_TTL, MAX_FEE_BPS,
    MAX_REFERRAL_BPS,
};
use crate::upgrade::{
    cancel_upgrade_effect, cancel_upgrade_error, execute_upgrade_effect, execute_upgrade_error,
    schedule_effect, schedule_upgrade_error, upgrade_effect,
};

verus! {

/// Setting up, pausing and leaving the bridge.
#[allow(inconsistent_fields)]
pub enum LifecycleCall {
    Initialize { admin: Address, fee_collector: Address, fee_bps: u32, nonce: Option<u64> },
    Pause { nonce: Option<u64> },
    Unpause { nonce: Option<u64> },
    EmergencyMigrate { new_contract: Address, migrate_data: bool },
}

impl LifecycleCall {
    /// Why the call is refused.
    #[verifier::opaque]
    pub open spec fn refusal(self, s: BridgeState) -> Option<BridgeError> {
        match self {
            LifecycleCall::Initialize { admin, fee_bps, nonce, .. } => {
                initialize_error(s, admin, fee_bps, nonce)
            },
            LifecycleCall::Pause { nonce } => s.active_admin_error(nonce),
            LifecycleCall::Unpause { nonce } => s.active_admin_error(nonce),
            LifecycleCall::EmergencyMigrate { .. } => s.active_error(),
        }
    }

    /// Whether the numbers that the call advances are still numbers of their types.
    #[verifier::opaque]
    pub open spec fn countable(self, s: BridgeState) -> bool {
        match self {
            LifecycleCall::Initialize { nonce, .. } => nonce matches Some(n) ==> n < u64::MAX,
            LifecycleCall::Pause { nonce } => nonce matches Some(n) ==> n < u64::MAX,
            LifecycleCall::Unpause { nonce } => nonce matches Some(n) ==> n < u64::MAX,
            _ => true,
        }
    }

    /// The books after the call, where it is carried out.
    #[verifier::opaque]
    pub open spec fn effect(self, s: BridgeState) -> BridgeState {
        match self {
            LifecycleCall::Initialize { admin, fee_collector, fee_bps, nonce } => {
                initialize_effect(s, admin, fee_collector, fee_bps, nonce)
            },
            LifecycleCall::Pause { nonce } => pause_effect(s, nonce),
            LifecycleCall::Unpause { nonce } => unpause_effect(s, nonce),
            LifecycleCall::EmergencyMigrate { new_contract, migrate_data } => {
                migrate_effect(s, new_contract, migrate_data)
            },
        }
    }

    /// Whether the call is carried out.
    pub open spec fn succeeds(self, s: BridgeState) -> bool {
        self.refusal(s) is None && self.countable(s)
    }

    /// The books after the call, carried out or not.
    pub open spec fn step(self, s: BridgeState) -> BridgeState {
        if self.succeeds(s) {
            self.effect(s)
        } else {
            s
        }
    }
}

/// Moving tokens from a source to a target at once.
#[allow(inconsistent_fields)]
pub enum FundingCall {
    Fund {
        source: Address,
        target: Address,
        asset: Address,
        amount: i128,
        nonce: Option<u64>,
        deadline: Option<u64>,
    },
    FundWithReferral {
        source: Address,
        target: Address,
        asset: Address,
        amount: i128,
        referrer: Option<Address>,
    },
    BatchFund {
        source: Address,
        targets: Seq<Address>,
        amounts: Seq<i128>,
        asset: Address,
        nonce: Option<u64>,
        deadline: Option<u64>,
    },
    MetaFund {
        params: MetaFundParams,
        pubkey: Bytes32,
        signature: Signature,
        payload: Result<Bytes32, BridgeError>,
    },
    Reveal {
        id: u64,
        source: Address,
        target: Address,
        asset: Address,
        amount: i128,
        computed: Bytes32,
    },
}

impl FundingCall {
    /// Why the call is refused.
    #[verifier::opaque]
    pub open spec fn refusal(self, s: BridgeState) -> Option<BridgeError> {
        match self {
            FundingCall::Fund { source, target, asset, amount, nonce, deadline } => {
                fund_error(s, source, target, asset, amount, nonce, deadline)
            },
            FundingCall::FundWithReferral { source, target, asset, amount, referrer } => {
                referral_error(s, source, target, asset, amount, referrer)
            },
            FundingCall::BatchFund { source, targets, amounts, asset, nonce, deadline } => {
                batch_error(s, source, targets, amounts, asset, nonce, deadline)
            },
            FundingCall::MetaFund { params, pubkey, payload, .. } => {
                meta_fund_error(s, params, pubkey, payload)
            },
            FundingCall::Reveal { id, source, target, asset, amount, computed } => {
                reveal_error(s, id, source, target, asset, amount, computed)
            },
        }
    }

    /// Whether the numbers that the call advances are still numbers of their types.
    #[verifier::opaque]
    pub open spec fn countable(self, s: BridgeState) -> bool {
        match self {
            FundingCall::Fund { nonce, .. } => nonce matches Some(n) ==> n < u64::MAX,
            FundingCall::BatchFund { nonce, .. } => nonce matches Some(n) ==> n < u64::MAX,
            _ => true,
        }
    }

    /// The books after the call, where it is carried out.
    #[verifier::opaque]
    pub open spec fn effect(self, s: BridgeState) -> BridgeState {
        match self {
            FundingCall::Fund { source, target, asset, amount, nonce, .. } => {
                fund_effect(s, source, target, asset, amount, nonce)
            },
            FundingCall::FundWithReferral { source, target, asset, amount, referrer } => {
                referral_effect(s, source, target, asset, amount, referrer)
            },
            FundingCall::BatchFund { source, targets, amounts, asset, nonce, .. } => {
                batch_effect(s, source, targets, amounts, asset, nonce)
            },
            FundingCall::MetaFund { params, pubkey, signature, payload } => {
                meta_fund_effect(s, params, pubkey, signature, payload->Ok_0)
            },
            FundingCall::Reveal { id, source, target, asset, amount, .. } => {
                reveal_effect(s, id, source, target, asset, amount)
            },
        }
    }

    /// Whether the call is carried out.
    pub open spec fn succeeds(self, s: BridgeState) -> bool {
        self.refusal(s) is None && self.countable(s)
    }

    /// The books after the call, carried out or not.
    pub open spec fn step(self, s: BridgeState) -> BridgeState {
        if self.succeeds(s) {
            self.effect(s)
        } else {
            s
        }
    }
}

/// Promising tokens for later, and what comes from elsewhere.
#[allow(inconsistent_fields)]
pub enum DeferredCall {
    Lock {
        source: Address,
        target: Address,
        asset: Address,
        amount: i128,
        release_time: u64,
        cliff_time: u64,
        nonce: Option<u64>,
        deadline: Option<u64>,
    },
    Claim { id: u64 },
    Commit {
        source: Address,
        target: Address,
        asset: Address,
        amount_hash: Bytes32,
        deadline: u64,
    },
    CrossChain {
        chain_id: u32,
        tx_hash: Bytes32,
        target: Address,
        asset: Address,
        amount: i128,
        sigs: Seq<RelayerSig>,
        nonce: Bytes32,
        payload: Result<Bytes32, BridgeError>,
    },
}

impl DeferredCall {
    /// Why the call is refused.
    #[verifier::opaque]
    pub open spec fn refusal(self, s: BridgeState) -> Option<BridgeError> {
        match self {
            DeferredCall::Lock {
                source,
                target,
                asset,
                amount,
                release_time,
                cliff_time,
                nonce,
                deadline,
            } => {
                lock_error(
                    s,
                    source,
                    target,
                    asset,
                    amount,
                    release_time,
                    cliff_time,
                    nonce,
                    deadline,
                )
            },
            DeferredCall::Claim { id } => claim_error(s, id),
            DeferredCall::Commit { target, asset, deadline, .. } => {
                commit_error(s, target, asset, deadline)
            },
            DeferredCall::CrossChain { target, asset, amount, sigs, nonce, payload, .. } => {
                crosschain_error(s, target, asset, amount, sigs, nonce, payload)
            },
        }
    }

    /// Whether the numbers that the call advances are still numbers of their types.
    #[verifier::opaque]
    pub open spec fn countable(self, s: BridgeState) -> bool {
        match self {
            DeferredCall::Lock { asset, amount, nonce, .. } => {
                &&& nonce matches Some(n) ==> n < u64::MAX
                &&& s.next_timelock() < u64::MAX
                &&& fits(s.locked(asset) + amount)
            },
            DeferredCall::Claim { id } => {
                fits(s.locked(s.timelock[id].asset) - s.timelock[id].amount)
            },
            DeferredCall::Commit { .. } => s.next_commitment() < u64::MAX,
            _ => true,
        }
    }

    /// The books after the call, where it is carried out.
    #[verifier::opaque]
    pub open spec fn effect(self, s: BridgeState) -> BridgeState {
        match self {
            DeferredCall::Lock {
                source,
                target,
                asset,
                amount,
                release_time,
                cliff_time,
                nonce,
                ..
            } => {
                lock_effect(s, source, target, asset, amount, release_time, cliff_time, nonce)
            },
            DeferredCall::Claim { id } => claim_effect(s, id),
            DeferredCall::Commit { source, target, asset, amount_hash, deadline } => {
                commit_effect(s, source, target, asset, amount_hash, deadline)
            },
            DeferredCall::CrossChain {
                chain_id,
                tx_hash,
                target,
                asset,
                amount,
                sigs,
                nonce,
                payload,
            } => {
                crosschain_effect(
                    s,
                    chain_id,
                    tx_hash,
                    target,
                    asset,
                    amount,
                    sigs,
                    nonce,
                    payload->Ok_0,
                )
            },
        }
    }

    /// Whether the call is carried out.
    pub open spec fn succeeds(self, s: BridgeState) -> bool {
        self.refusal(s) is None && self.countable(s)
    }

    /// The books after the call, carried out or not.
    pub open spec fn step(self, s: BridgeState) -> BridgeState {
        if self.succeeds(s) {
            self.effect(s)
        } else {
            s
        }
    }
}

/// The two halves of a swap. The second is made after the first, with the nonce
/// that the first has accepted.
#[allow(inconsistent_fields)]
pub enum SwapCall {
    Begin { pending: PendingSwap, deadline: Option<u64> },
    Complete {
        pending: PendingSwap,
        reported: i128,
        balance_before: i128,
        balance_after: i128,
    },
}

impl SwapCall {
    /// Why the call is refused.
    #[verifier::opaque]
    pub open spec fn refusal(self, s: BridgeState) -> Option<BridgeError> {
        match self {
            SwapCall::Begin { pending, deadline } => {
                swap_error(
                    s,
                    pending.source,
                    pending.target,
                    pending.target_asset,
                    pending.source_amount,
                    pending.min_target_amount,
                    seq![pending.pool],
                    pending.nonce,
                    deadline,
                )
            },
            SwapCall::Complete { pending, reported, balance_before, balance_after } => {
                complete_swap_error(s, pending, reported, balance_before, balance_after)
            },
        }
    }

    /// Whether the numbers that the call advances are still numbers of their types.
    #[verifier::opaque]
    pub open spec fn countable(self, s: BridgeState) -> bool {
        match self {
            SwapCall::Complete { pending, .. } => {
                &&& s.instance.entered
                &&& pending.source_amount > 0
                &&& s.nonce_error(pending.source, pending.nonce) is None
                &&& s.nonce_fits(pending.source, pending.nonce)
            },
            _ => true,
        }
    }

    /// The books after the call, where it is carried out.
    #[verifier::opaque]
    pub open spec fn effect(self, s: BridgeState) -> BridgeState {
        match self {
            SwapCall::Begin { pending, .. } => swap_effect(s, pending),
            SwapCall::Complete { pending, reported, .. } => {
                complete_swap_effect(s, pending, reported)
            },
        }
    }

    /// Whether the call is carried out.
    pub open spec fn succeeds(self, s: BridgeState) -> bool {
        self.refusal(s) is None && self.countable(s)
    }

    /// The books after the call, carried out or not. A swap that fails is over.
    pub open spec fn step(self, s: BridgeState) -> BridgeState {
        if self.succeeds(s) {
            self.effect(s)
        } else if self is Complete {
            s.with_entered(false)
        } else {
            s
        }
    }
}

/// Keys, numbers used once, and taking tokens out of the bridge.
#[allow(inconsistent_fields)]
pub enum HoldingCall {
    RegisterMetaSigner { source: Address, pubkey: Bytes32 },
    VerifyAuthEntry { source: Address, nonce: u64, valid_after: u32, valid_before: u32 },
    WithdrawFees { asset: Address, amount: i128, nonce: Option<u64> },
    ReclaimTokens {
        asset: Address,
        amount: i128,
        destination: Address,
        nonce: Option<u64>,
        balance: i128,
    },
}

impl HoldingCall {
    /// Why the call is refused.
    #[verifier::opaque]
    pub open spec fn refusal(self, s: BridgeState) -> Option<BridgeError> {
        match self {
            HoldingCall::RegisterMetaSigner { .. } => register_error(s),
            HoldingCall::VerifyAuthEntry { source, nonce, valid_after, valid_before } => {
                auth_entry_error(s, source, nonce, valid_after, valid_before)
            },
            HoldingCall::WithdrawFees { asset, amount, nonce } => {
                withdraw_error(s, asset, amount, nonce)
            },
            HoldingCall::ReclaimTokens { asset, amount, nonce, balance, .. } => {
                reclaim_error(s, asset, amount, nonce, balance)
            },
        }
    }

    /// Whether the numbers that the call advances are still numbers of their types.
    #[verifier::opaque]
    pub open spec fn countable(self, s: BridgeState) -> bool {
        match self {
            HoldingCall::VerifyAuthEntry { nonce, .. } => nonce < u64::MAX,
            HoldingCall::WithdrawFees { nonce, .. } => nonce matches Some(n) ==> n < u64::MAX,
            HoldingCall::ReclaimTokens { nonce, .. } => nonce matches Some(n) ==> n < u64::MAX,
            _ => true,
        }
    }

    /// The books after the call, where it is carried out.
    #[verifier::opaque]
    pub open spec fn effect(self, s: BridgeState) -> BridgeState {
        match self {
            HoldingCall::RegisterMetaSigner { source, pubkey } => {
                register_effect(s, source, pubkey)
            },
            HoldingCall::VerifyAuthEntry { source, nonce, .. } => {
                auth_entry_effect(s, source, nonce)
            },
            HoldingCall::WithdrawFees { asset, amount, nonce } => {
                withdraw_effect(s, asset, amount, nonce)
            },
            HoldingCall::ReclaimTokens { asset, amount, destination, nonce, .. } => {
                reclaim_effect(s, asset, amount, destination, nonce)
            },
        }
    }

    /// Whether the call is carried out.
    pub open spec fn succeeds(self, s: BridgeState) -> bool {
        self.refusal(s) is None && self.countable(s)
    }

    /// The books after the call, carried out or not.
    pub open spec fn step(self, s: BridgeState) -> BridgeState {
        if self.succeeds(s) {
            self.effect(s)
        } else {
            s
        }
    }
}

/// Handing roles on.
#[allow(inconsistent_fields)]
pub enum RoleCall {
    SetAdmin { new_admin: Address, nonce: Option<u64> },
    ProposeAdmin { new_admin: Address, nonce: Option<u64> },
    AcceptAdmin,
    SetFeeCollector { new_collector: Address, nonce: Option<u64> },
    ProposeFeeCollector { new_collector: Address, nonce: Option<u64> },
    AcceptFeeCollector,
}

impl RoleCall {
    /// Why the call is refused.
    #[verifier::opaque]
    pub open spec fn refusal(self, s: BridgeState) -> Option<BridgeError> {
        match self {
            RoleCall::SetAdmin { nonce, .. } => s.admin_error(nonce),
            RoleCall::ProposeAdmin { nonce, .. } => s.admin_error(nonce),
            RoleCall::AcceptAdmin => accept_admin_error(s),
            RoleCall::SetFeeCollector { nonce, .. } => s.admin_error(nonce),
            RoleCall::ProposeFeeCollector { nonce, .. } => s.admin_error(nonce),
            RoleCall::AcceptFeeCollector => accept_fee_collector_error(s),
        }
    }

    /// Whether the numbers that the call advances are still numbers of their types.
    #[verifier::opaque]
    pub open spec fn countable(self, s: BridgeState) -> bool {
        match self {
            RoleCall::SetAdmin { nonce, .. } => nonce matches Some(n) ==> n < u64::MAX,
            RoleCall::ProposeAdmin { nonce, .. } => nonce matches Some(n) ==> n < u64::MAX,
            RoleCall::SetFeeCollector { nonce, .. } => nonce matches Some(n) ==> n < u64::MAX,
            RoleCall::ProposeFeeCollector { nonce, .. } => nonce matches Some(n) ==> n < u64::MAX,
            _ => true,
        }
    }

    /// The books after the call, where it is carried out.
    #[verifier::opaque]
    pub open spec fn effect(self, s: BridgeState) -> BridgeState {
        match self {
            RoleCall::SetAdmin { new_admin, nonce } => set_admin_effect(s, new_admin, nonce),
            RoleCall::ProposeAdmin { new_admin, nonce } => {
                propose_admin_effect(s, new_admin, nonce)
            },
            RoleCall::AcceptAdmin => accept_admin_effect(s),
            RoleCall::SetFeeCollector { new_collector, nonce } => {
                set_fee_collector_effect(s, new_collector, nonce)
            },
            RoleCall::ProposeFeeCollector { new_collector, nonce } => {
                propose_fee_collector_effect(s, new_collector, nonce)
            },
            RoleCall::AcceptFeeCollector => accept_fee_collector_effect(s),
        }
    }

    /// Whether the call is carried out.
    pub open spec fn succeeds(self, s: BridgeState) -> bool {
        self.refusal(s) is None && self.countable(s)
    }

    /// The books after the call, carried out or not.
    pub open spec fn step(self, s: BridgeState) -> BridgeState {
        if self.succeeds(s) {
            self.effect(s)
        } else {
            s
        }
    }
}

/// Setting rates.
#[allow(inconsistent_fields)]
pub enum RateCall {
    SetFeeBps { bps: u32, nonce: Option<u64> },
    SetAssetFeeCap { asset: Address, bps: u32, nonce: Option<u64> },
    SetReferralRate { bps: u32, nonce: Option<u64> },
    SetFeeTiers { tiers: Seq<FeeTier> },
}

impl RateCall {
    /// Why the call is refused.
    #[verifier::opaque]
    pub open spec fn refusal(self, s: BridgeState) -> Option<BridgeError> {
        match self {
            RateCall::SetFeeBps { bps, nonce } => rate_error(s, bps, MAX_FEE_BPS, nonce),
            RateCall::SetAssetFeeCap { bps, nonce, .. } => rate_error(s, bps, MAX_FEE_BPS, nonce),
            RateCall::SetReferralRate { bps, nonce } => {
                rate_error(s, bps, MAX_REFERRAL_BPS, nonce)
            },
            RateCall::SetFeeTiers { tiers } => fee_tiers_error(s, tiers),
        }
    }

    /// Whether the numbers that the call advances are still numbers of their types.
    #[verifier::opaque]
    pub open spec fn countable(self, s: BridgeState) -> bool {
        match self {
            RateCall::SetFeeBps { nonce, .. } => nonce matches Some(n) ==> n < u64::MAX,
            RateCall::SetAssetFeeCap { nonce, .. } => nonce matches Some(n) ==> n < u64::MAX,
            RateCall::SetReferralRate { nonce, .. } => nonce matches Some(n) ==> n < u64::MAX,
            _ => true,
        }
    }

    /// The books after the call, where it is carried out.
    #[verifier::opaque]
    pub open spec fn effect(self, s: BridgeState) -> BridgeState {
        match self {
            RateCall::SetFeeBps { bps, nonce } => set_fee_bps_effect(s, bps, nonce),
            RateCall::SetAssetFeeCap { asset, bps, nonce } => fee_cap_effect(s, asset, bps, nonce),
            RateCall::SetReferralRate { bps, nonce } => referral_rate_effect(s, bps, nonce),
            RateCall::SetFeeTiers { tiers } => fee_tiers_effect(s, tiers),
        }
    }

    /// Whether the call is carried out.
    pub open spec fn succeeds(self, s: BridgeState) -> bool {
        self.refusal(s) is None && self.countable(s)
    }

    /// The books after the call, carried out or not.
    pub open spec fn step(self, s: BridgeState) -> BridgeState {
        if self.succeeds(s) {
            self.effect(s)
        } else {
            s
        }
    }
}

/// Setting limits and rewards.
#[allow(inconsistent_fields)]
pub enum LimitCall {
    SetDailyLimit { source: Address, asset: Address, limit: i128, nonce: Option<u64> },
    SetMinimumAmount { amount: i128, nonce: Option<u64> },
    SetMaxWithdraw { amount: i128, nonce: Option<u64> },
    SetLoyaltyToken { token: Address, amount_per_fund: i128 },
}

impl LimitCall {
    /// Why the call is refused.
    #[verifier::opaque]
    pub open spec fn refusal(self, s: BridgeState) -> Option<BridgeError> {
        match self {
            LimitCall::SetDailyLimit { nonce, .. } => s.admin_error(nonce),
            LimitCall::SetMinimumAmount { nonce, .. } => s.admin_error(nonce),
            LimitCall::SetMaxWithdraw { nonce, .. } => s.admin_error(nonce),
            LimitCall::SetLoyaltyToken { amount_per_fund, .. } => {
                loyalty_error(s, amount_per_fund)
            },
        }
    }

    /// Whether the numbers that the call advances are still numbers of their types.
    #[verifier::opaque]
    pub open spec fn countable(self, s: BridgeState) -> bool {
        match self {
            LimitCall::SetDailyLimit { nonce, .. } => nonce matches Some(n) ==> n < u64::MAX,
            LimitCall::SetMinimumAmount { nonce, .. } => nonce matches Some(n) ==> n < u64::MAX,
            LimitCall::SetMaxWithdraw { nonce, .. } => nonce matches Some(n) ==> n < u64::MAX,
            _ => true,
        }
    }

    /// The books after the call, where it is carried out.
    #[verifier::opaque]
    pub open spec fn effect(self, s: BridgeState) -> BridgeState {
        match self {
            LimitCall::SetDailyLimit { source, asset, limit, nonce } => {
                daily_limit_effect(s, source, asset, limit, nonce)
            },
            LimitCall::SetMinimumAmount { amount, nonce } => {
                minimum_amount_effect(s, amount, nonce)
            },
            LimitCall::SetMaxWithdraw { amount, nonce } => max_withdraw_effect(s, amount, nonce),
            LimitCall::SetLoyaltyToken { token, amount_per_fund } => {
                loyalty_effect(s, token, amount_per_fund)
            },
        }
    }

    /// Whether the call is carried out.
    pub open spec fn succeeds(self, s: BridgeState) -> bool {
        self.refusal(s) is None && self.countable(s)
    }

    /// The books after the call, carried out or not.
    pub open spec fn step(self, s: BridgeState) -> BridgeState {
        if self.succeeds(s) {
            self.effect(s)
        } else {
            s
        }
    }
}

/// Changing lists.
#[allow(inconsistent_fields)]
pub enum ListCall {
    SetBlocked { address: Address, blocked: bool, nonce: Option<u64> },
    SetAllowlisted { address: Address, allowed: bool, nonce: Option<u64> },
    SetAllowlistMode { enabled: bool, nonce: Option<u64> },
    SetAssetListed { asset: Address, listed: bool, nonce: Option<u64> },
    SetPoolListed { pool: Address, listed: bool, nonce: Option<u64> },
}

impl ListCall {
    /// Why the call is refused.
    #[verifier::opaque]
    pub open spec fn refusal(self, s: BridgeState) -> Option<BridgeError> {
        match self {
            ListCall::SetBlocked { nonce, .. } => s.admin_error(nonce),
            ListCall::SetAllowlisted { nonce, .. } => s.admin_error(nonce),
            ListCall::SetAllowlistMode { nonce, .. } => s.admin_error(nonce),
            ListCall::SetAssetListed { nonce, .. } => s.admin_error(nonce),
            ListCall::SetPoolListed { nonce, .. } => s.admin_error(nonce),
        }
    }

    /// Whether the numbers that the call advances are still numbers of their types.
    #[verifier::opaque]
    pub open spec fn countable(self, s: BridgeState) -> bool {
        match self {
            ListCall::SetBlocked { nonce, .. } => nonce matches Some(n) ==> n < u64::MAX,
            ListCall::SetAllowlisted { nonce, .. } => nonce matches Some(n) ==> n < u64::MAX,
            ListCall::SetAllowlistMode { nonce, .. } => nonce matches Some(n) ==> n < u64::MAX,
            ListCall::SetAssetListed { nonce, .. } => nonce matches Some(n) ==> n < u64::MAX,
            ListCall::SetPoolListed { nonce, .. } => nonce matches Some(n) ==> n < u64::MAX,
        }
    }

    /// The books after the call, where it is carried out.
    #[verifier::opaque]
    pub open spec fn effect(self, s: BridgeState) -> BridgeState {
        match self {
            ListCall::SetBlocked { address, blocked, nonce } => {
                blocklist_effect(s, address, blocked, nonce)
            },
            ListCall::SetAllowlisted { address, allowed, nonce } => {
                allowlist_effect(s, address, allowed, nonce)
            },
            ListCall::SetAllowlistMode { enabled, nonce } => {
                allowlist_mode_effect(s, enabled, nonce)
            },
            ListCall::SetAssetListed { asset, listed, nonce } => {
                asset_list_effect(s, asset, listed, nonce)
            },
            ListCall::SetPoolListed { pool, listed, nonce } => {
                pool_list_effect(s, pool, listed, nonce)
            },
        }
    }

    /// Whether the call is carried out.
    pub open spec fn succeeds(self, s: BridgeState) -> bool {
        self.refusal(s) is None && self.countable(s)
    }

    /// The books after the call, carried out or not.
    pub open spec fn step(self, s: BridgeState) -> BridgeState {
        if self.succeeds(s) {
            self.effect(s)
        } else {
            s
        }
    }
}

/// Changing the relayers.
#[allow(inconsistent_fields)]
pub enum RelayerCall {
    Add { pubkey: Bytes32 },
    Remove { pubkey: Bytes32 },
    SetThreshold { threshold: u32 },
}

impl RelayerCall {
    /// Why the call is refused.
    #[verifier::opaque]
    pub open spec fn refusal(self, s: BridgeState) -> Option<BridgeError> {
        match self {
            RelayerCall::Add { .. } => s.running_error(),
            RelayerCall::Remove { pubkey } => remove_relayer_error(s, pubkey),
            RelayerCall::SetThreshold { threshold } => threshold_error(s, threshold),
        }
    }

    /// Whether the numbers that the call advances are still numbers of their types.
    #[verifier::opaque]
    pub open spec fn countable(self, s: BridgeState) -> bool {
        match self {
            RelayerCall::Add { pubkey } => s.is_relayer(pubkey) || s.relayer_count() < u32::MAX,
            _ => true,
        }
    }

    /// The books after the call, where it is carried out.
    #[verifier::opaque]
    pub open spec fn effect(self, s: BridgeState) -> BridgeState {
        match self {
            RelayerCall::Add { pubkey } => add_relayer_effect(s, pubkey),
            RelayerCall::Remove { pubkey } => remove_relayer_effect(s, pubkey),
            RelayerCall::SetThreshold { threshold } => threshold_effect(s, threshold),
        }
    }

    /// Whether the call is carried out.
    pub open spec fn succeeds(self, s: BridgeState) -> bool {
        self.refusal(s) is None && self.countable(s)
    }

    /// The books after the call, carried out or not.
    pub open spec fn step(self, s: BridgeState) -> BridgeState {
        if self.succeeds(s) {
            self.effect(s)
        } else {
            s
        }
    }
}

/// Replacing the code.
#[allow(inconsistent_fields)]
pub enum UpgradeCall {
    Upgrade { hash: Bytes32, nonce: Option<u64> },
    Schedule { hash: Bytes32, nonce: Option<u64> },
    Execute { hash: Bytes32, nonce: Option<u64> },
    Cancel { nonce: Option<u64> },
}

impl UpgradeCall {
    /// Why the call is refused.
    #[verifier::opaque]
    pub open spec fn refusal(self, s: BridgeState) -> Option<BridgeError> {
        match self {
            UpgradeCall::Upgrade { nonce, .. } => s.active_admin_error(nonce),
            UpgradeCall::Schedule { nonce, .. } => schedule_upgrade_error(s, nonce),
            UpgradeCall::Execute { hash, nonce } => execute_upgrade_error(s, hash, nonce),
            UpgradeCall::Cancel { nonce } => cancel_upgrade_error(s, nonce),
        }
    }

    /// Whether the numbers that the call advances are still numbers of their types.
    #[verifier::opaque]
    pub open spec fn countable(self, s: BridgeState) -> bool {
        match self {
            UpgradeCall::Upgrade { nonce, .. } => nonce matches Some(n) ==> n < u64::MAX,
            UpgradeCall::Schedule { nonce, .. } => nonce matches Some(n) ==> n < u64::MAX,
            UpgradeCall::Execute { nonce, .. } => nonce matches Some(n) ==> n < u64::MAX,
            UpgradeCall::Cancel { nonce } => nonce matches Some(n) ==> n < u64::MAX,
        }
    }

    /// The books after the call, where it is carried out.
    #[verifier::opaque]
    pub open spec fn effect(self, s: BridgeState) -> BridgeState {
        match self {
            UpgradeCall::Upgrade { hash, nonce } => upgrade_effect(s, hash, nonce),
            UpgradeCall::Schedule { hash, nonce } => schedule_effect(s, hash, nonce),
            UpgradeCall::Execute { hash, nonce } => execute_upgrade_effect(s, hash, nonce),
            UpgradeCall::Cancel { nonce } => cancel_upgrade_effect(s, nonce),
        }
    }

    /// Whether the call is carried out.
    pub open spec fn succeeds(self, s: BridgeState) -> bool {
        self.refusal(s) is None && self.countable(s)
    }

    /// The books after the call, carried out or not.
    pub open spec fn step(self, s: BridgeState) -> BridgeState {
        if self.succeeds(s) {
            self.effect(s)
        } else {
            s
        }
    }
}

/// Keeping what is stored alive.
#[allow(inconsistent_fields)]
pub enum UpkeepCall {
    SetMaxInstance { ttl: u32 },
    SetMaxPersistent { ttl: u32 },
    ExtendInstance { ttl: u32 },
    ExtendPersistent { asset: Address, ttl: u32 },
    ExtendSource { source: Address, asset: Address, ttl: u32 },
    ExtendTimelock { id: u64, ttl: u32 },
    ExtendCommitment { id: u64, ttl: u32 },
    ExtendRelayer { pubkey: Bytes32, ttl: u32 },
}

impl UpkeepCall {
    /// Why the call is refused.
    #[verifier::opaque]
    pub open spec fn refusal(self, s: BridgeState) -> Option<BridgeError> {
        match self {
            UpkeepCall::SetMaxInstance { ttl } => set_max_ttl_error(s, ttl),
            UpkeepCall::SetMaxPersistent { ttl } => set_max_ttl_error(s, ttl),
            UpkeepCall::ExtendInstance { .. } => s.upkeep_error(),
            UpkeepCall::ExtendPersistent { .. } => s.upkeep_error(),
            UpkeepCall::ExtendSource { .. } => s.upkeep_error(),
            UpkeepCall::ExtendTimelock { id, .. } => {
                extend_entry_error(
                    s,
                    s.timelock.contains_key(id),
                    BridgeError::TimelockNotFound,
                )
            },
            UpkeepCall::ExtendCommitment { id, .. } => {
                extend_entry_error(
                    s,
                    s.commitment.contains_key(id),
                    BridgeError::CommitmentNotFound,
                )
            },
            UpkeepCall::ExtendRelayer { pubkey, .. } => {
                extend_entry_error(s, s.is_relayer(pubkey), BridgeError::NotRelayer)
            },
        }
    }

    /// Whether the numbers that the call advances are still numbers of their types.
    #[verifier::opaque]
    pub open spec fn countable(self, s: BridgeState) -> bool {
        match self {
            _ => true,
        }
    }

    /// The books after the call, where it is carried out.
    #[verifier::opaque]
    pub open spec fn effect(self, s: BridgeState) -> BridgeState {
        match self {
            UpkeepCall::SetMaxInstance { ttl } => set_max_instance_effect(s, ttl),
            UpkeepCall::SetMaxPersistent { ttl } => set_max_persistent_effect(s, ttl),
            UpkeepCall::ExtendInstance { ttl } => extend_instance_effect(s, ttl),
            UpkeepCall::ExtendPersistent { asset, ttl } => extend_persistent_effect(s, asset, ttl),
            UpkeepCall::ExtendSource { source, asset, ttl } => {
                extend_source_effect(s, source, asset, ttl)
            },
            UpkeepCall::ExtendTimelock { id, ttl } => {
                extend_entry_effect(
                    s,
                    DataKey::Timelock(id),
                    ttl,
                    Event::TimelockTtlExtended {
                        admin: s.admin(),
                        id,
                        ttl: at_most(ttl, MAX_ALLOWED_TTL),
                    },
                )
            },
            UpkeepCall::ExtendCommitment { id, ttl } => {
                extend_entry_effect(
                    s,
                    DataKey::Commitment(id),
                    ttl,
                    Event::CommitmentTtlExtended {
                        admin: s.admin(),
                        id,
                        ttl: at_most(ttl, MAX_ALLOWED_TTL),
                    },
                )
            },
            UpkeepCall::ExtendRelayer { pubkey, ttl } => {
                extend_entry_effect(
                    s,
                    DataKey::Relayer(pubkey),
                    ttl,
                    Event::RelayerTtlExtended {
                        admin: s.admin(),
                        pubkey,
                        ttl: at_most(ttl, MAX_ALLOWED_TTL),
                    },
                )
            },
        }
    }

    /// Whether the call is carried out.
    pub open spec fn succeeds(self, s: BridgeState) -> bool {
        self.refusal(s) is None && self.countable(s)
    }

    /// The books after the call, carried out or not.
    pub open spec fn step(self, s: BridgeState) -> BridgeState {
        if self.succeeds(s) {
            self.effect(s)
        } else {
            s
        }
    }
}

/// A call that changes the books. What an outside party answers in the course
/// of a call (a hash, a balance, what came out of a pool) is part of it.
pub enum Call {
    Lifecycle(LifecycleCall),
    Funding(FundingCall),
    Deferred(DeferredCall),
    Swap(SwapCall),
    Holding(HoldingCall),
    Role(RoleCall),
    Rate(RateCall),
    Limit(LimitCall),
    List(ListCall),
    Relayer(RelayerCall),
    Upgrade(UpgradeCall),
    Upkeep(UpkeepCall),
}

/// Why a call is refused.
pub open spec fn refusal(s: BridgeState, call: Call) -> Option<BridgeError> {
    match call {
        Call::Lifecycle(c) => c.refusal(s),
        Call::Funding(c) => c.refusal(s),
        Call::Deferred(c) => c.refusal(s),
        Call::Swap(c) => c.refusal(s),
        Call::Holding(c) => c.refusal(s),
        Call::Role(c) => c.refusal(s),
        Call::Rate(c) => c.refusal(s),
        Call::Limit(c) => c.refusal(s),
        Call::List(c) => c.refusal(s),
        Call::Relayer(c) => c.refusal(s),
        Call::Upgrade(c) => c.refusal(s),
        Call::Upkeep(c) => c.refusal(s),
    }
}

/// Whether a call is carried out.
pub open spec fn succeeds(s: BridgeState, call: Call) -> bool {
    match call {
        Call::Lifecycle(c) => c.succeeds(s),
        Call::Funding(c) => c.succeeds(s),
        Call::Deferred(c) => c.succeeds(s),
        Call::Swap(c) => c.succeeds(s),
        Call::Holding(c) => c.succeeds(s),
        Call::Role(c) => c.succeeds(s),
        Call::Rate(c) => c.succeeds(s),
        Call::Limit(c) => c.succeeds(s),
        Call::List(c) => c.succeeds(s),
        Call::Relayer(c) => c.succeeds(s),
        Call::Upgrade(c) => c.succeeds(s),
        Call::Upkeep(c) => c.succeeds(s),
    }
}

/// The books after a call, carried out or not.
pub open spec fn step(s: BridgeState, call: Call) -> BridgeState {
    match call {
        Call::Lifecycle(c) => c.step(s),
        Call::Funding(c) => c.step(s),
        Call::Deferred(c) => c.step(s),
        Call::Swap(c) => c.step(s),
        Call::Holding(c) => c.step(s),
        Call::Role(c) => c.step(s),
        Call::Rate(c) => c.step(s),
        Call::Limit(c) => c.step(s),
        Call::List(c) => c.step(s),
        Call::Relayer(c) => c.step(s),
        Call::Upgrade(c) => c.step(s),
        Call::Upkeep(c) => c.step(s),
    }
}

/// The books in another ledger, with the actions of earlier calls done.
pub open spec fn next_ledger(s: BridgeState, ledger: Ledger) -> BridgeState {
    BridgeState { ledger, actions: Seq::empty(), ..s }
}

/// The books of a new bridge after any calls, each in its ledger.
pub open spec fn history(start: Ledger, calls: Seq<(Ledger, Call)>) -> BridgeState
    decreases calls.len(),
{
    if calls.len() == 0 {
        empty_state(start)
    } else {
        let (ledger, call) = calls.last();
        step(next_ledger(history(start, calls.drop_last()), ledger), call)
    }
}

} // verus!
