//! What the admin has set stands until it is set again.
use vstd::prelude::*;

use crate::batch::{batch_effect, batch_entries_effect, batch_tally, sum, Tally};
use crate::bytes::{Bytes32, Signature};
use crate::calls::{
    step, succeeds, Call, DeferredCall, FundingCall, HoldingCall, LifecycleCall, LimitCall,
    ListCall, RateCall, RelayerCall, RoleCall, SwapCall, UpgradeCall, UpkeepCall,
};
use crate::commit_reveal::reveal_effect;
use crate::funding::{fund_effect, referral_effect};
use crate::host::key_of;
use crate::invariants::{
    extend_persistent_keeps, extend_source_keeps, same_books,
};
use crate::meta_tx::meta_fund_effect;
use crate::state::BridgeState;
use crate::types::{Address, FeeTier, MetaFundParams, SourceAsset};

verus! {

/// All that the admin can set, but for the roles, the relayers and the times to
/// live.
#[verifier::ext_equal]
pub struct Settings {
    pub fee_bps: u32,
    pub fee_caps: Map<Address, u32>,
    pub fee_tiers: Option<Seq<FeeTier>>,
    pub referral_rate: u32,
    pub daily_limits: Map<SourceAsset, i128>,
    pub minimum_amount: i128,
    pub max_withdraw_per_tx: i128,
    pub loyalty_token: Option<Address>,
    pub loyalty_amount: Option<i128>,
    pub allowlist_mode: bool,
    pub blocked: Map<Address, bool>,
    pub allowlisted: Map<Address, bool>,
    pub assets: Map<(u32, u128, u128), bool>,
    pub pools: Map<(u32, u128, u128), bool>,
}

/// What is set in the books.
pub open spec fn settings(s: BridgeState) -> Settings {
    Settings {
        fee_bps: s.config().fee_bps,
        fee_caps: s.asset_fee_cap,
        fee_tiers: s.fee_tiers,
        referral_rate: s.referral_rate(),
        daily_limits: s.source_daily_limit,
        minimum_amount: s.minimum_amount(),
        max_withdraw_per_tx: s.max_withdraw_per_tx(),
        loyalty_token: s.instance.loyalty_token,
        loyalty_amount: s.instance.loyalty_amount_per_fund,
        allowlist_mode: s.config().allowlist_mode,
        blocked: s.blocked,
        allowlisted: s.allowlisted,
        assets: s.asset_whitelist,
        pools: s.pool_whitelist,
    }
}

/// A list with an entry put on it, or taken off.
pub open spec fn with_entry<K>(list: Map<K, bool>, k: K, listed: bool) -> Map<K, bool> {
    if listed {
        list.insert(k, true)
    } else {
        list.remove(k)
    }
}

/// What is set after a call that sets a rate.
pub open spec fn set_rate(x: Settings, call: RateCall) -> Settings {
    match call {
        RateCall::SetFeeBps { bps, .. } => Settings { fee_bps: bps, ..x },
        RateCall::SetAssetFeeCap { asset, bps, .. } => Settings {
            fee_caps: x.fee_caps.insert(asset, bps),
            ..x
        },
        RateCall::SetReferralRate { bps, .. } => Settings { referral_rate: bps, ..x },
        RateCall::SetFeeTiers { tiers } => Settings { fee_tiers: Some(tiers), ..x },
    }
}

/// What is set after a call that sets a limit or a reward.
pub open spec fn set_limit(x: Settings, call: LimitCall) -> Settings {
    match call {
        LimitCall::SetDailyLimit { source, asset, limit, .. } => Settings {
            daily_limits: x.daily_limits.insert(SourceAsset { source, asset }, limit),
            ..x
        },
        LimitCall::SetMinimumAmount { amount, .. } => Settings { minimum_amount: amount, ..x },
        LimitCall::SetMaxWithdraw { amount, .. } => Settings { max_withdraw_per_tx: amount, ..x },
        LimitCall::SetLoyaltyToken { token, amount_per_fund } => Settings {
            loyalty_token: Some(token),
            loyalty_amount: Some(amount_per_fund),
            ..x
        },
    }
}

/// What is set after a call that changes a list.
pub open spec fn set_list(x: Settings, call: ListCall) -> Settings {
    match call {
        ListCall::SetBlocked { address, blocked, .. } => Settings {
            blocked: with_entry(x.blocked, address, blocked),
            ..x
        },
        ListCall::SetAllowlisted { address, allowed, .. } => Settings {
            allowlisted: with_entry(x.allowlisted, address, allowed),
            ..x
        },
        ListCall::SetAllowlistMode { enabled, .. } => Settings { allowlist_mode: enabled, ..x },
        ListCall::SetAssetListed { asset, listed, .. } => Settings {
            assets: with_entry(x.assets, key_of(asset), listed),
            ..x
        },
        ListCall::SetPoolListed { pool, listed, .. } => Settings {
            pools: with_entry(x.pools, key_of(pool), listed),
            ..x
        },
    }
}

/// What is set after a call that has been carried out.
pub open spec fn set_by(x: Settings, call: Call) -> Settings {
    match call {
        Call::Lifecycle(LifecycleCall::Initialize { fee_bps, .. }) => Settings { fee_bps, ..x },
        Call::Rate(c) => set_rate(x, c),
        Call::Limit(c) => set_limit(x, c),
        Call::List(c) => set_list(x, c),
        _ => x,
    }
}

proof fn lifecycle_sets(s: BridgeState, c: LifecycleCall)
    ensures
        settings(c.effect(s)) == set_by(settings(s), Call::Lifecycle(c)),
{
    reveal(LifecycleCall::effect);
}

proof fn fund_sets_nothing(
    s: BridgeState,
    source: Address,
    target: Address,
    asset: Address,
    amount: i128,
    nonce: Option<u64>,
)
    ensures
        settings(fund_effect(s, source, target, asset, amount, nonce)) == settings(s),
{
}

proof fn referral_sets_nothing(
    s: BridgeState,
    source: Address,
    target: Address,
    asset: Address,
    amount: i128,
    referrer: Option<Address>,
)
    ensures
        settings(referral_effect(s, source, target, asset, amount, referrer)) == settings(s),
{
}

proof fn batch_sets_nothing(
    s: BridgeState,
    source: Address,
    asset: Address,
    nonce: Option<u64>,
    total: i128,
    t: Tally,
)
    ensures
        settings(batch_entries_effect(s, source, asset, nonce, total, t)) == settings(s),
{
}

proof fn meta_fund_sets_nothing(
    s: BridgeState,
    params: MetaFundParams,
    pubkey: Bytes32,
    signature: Signature,
    payload: Bytes32,
)
    ensures
        settings(meta_fund_effect(s, params, pubkey, signature, payload)) == settings(s),
{
}

proof fn reveal_sets_nothing(
    s: BridgeState,
    id: u64,
    source: Address,
    target: Address,
    asset: Address,
    amount: i128,
)
    ensures
        settings(reveal_effect(s, id, source, target, asset, amount)) == settings(s),
{
}

proof fn funding_sets_nothing(s: BridgeState, c: FundingCall)
    ensures
        settings(c.effect(s)) == settings(s),
{
    match c {
        FundingCall::Fund { source, target, asset, amount, nonce, .. } => {
            assert(c.effect(s) == fund_effect(s, source, target, asset, amount, nonce)) by {
                reveal(FundingCall::effect);
            }
            fund_sets_nothing(s, source, target, asset, amount, nonce);
        },
        FundingCall::FundWithReferral { source, target, asset, amount, referrer } => {
            assert(c.effect(s) == referral_effect(s, source, target, asset, amount, referrer)) by {
                reveal(FundingCall::effect);
            }
            referral_sets_nothing(s, source, target, asset, amount, referrer);
        },
        FundingCall::BatchFund { source, targets, amounts, asset, nonce, .. } => {
            assert(c.effect(s) == batch_effect(s, source, targets, amounts, asset, nonce)) by {
                reveal(FundingCall::effect);
            }
            let t = batch_tally(s, source, targets, amounts, asset);
            batch_sets_nothing(s, source, asset, nonce, sum(amounts) as i128, t);
        },
        FundingCall::MetaFund { params, pubkey, signature, payload } => {
            let hash = payload->Ok_0;
            assert(c.effect(s) == meta_fund_effect(s, params, pubkey, signature, hash)) by {
                reveal(FundingCall::effect);
            }
            meta_fund_sets_nothing(s, params, pubkey, signature, hash);
        },
        FundingCall::Reveal { id, source, target, asset, amount, .. } => {
            assert(c.effect(s) == reveal_effect(s, id, source, target, asset, amount)) by {
                reveal(FundingCall::effect);
            }
            reveal_sets_nothing(s, id, source, target, asset, amount);
        },
    }
}

proof fn deferred_sets_nothing(s: BridgeState, c: DeferredCall)
    ensures
        settings(c.effect(s)) == settings(s),
{
    reveal(DeferredCall::effect);
}

proof fn swap_sets_nothing(s: BridgeState, c: SwapCall)
    ensures
        settings(c.effect(s)) == settings(s),
{
    reveal(SwapCall::effect);
}

proof fn holding_sets_nothing(s: BridgeState, c: HoldingCall)
    ensures
        settings(c.effect(s)) == settings(s),
{
    reveal(HoldingCall::effect);
}

proof fn role_sets_nothing(s: BridgeState, c: RoleCall)
    ensures
        settings(c.effect(s)) == settings(s),
{
    reveal(RoleCall::effect);
}

proof fn rate_sets(s: BridgeState, c: RateCall)
    ensures
        settings(c.effect(s)) == set_rate(settings(s), c),
{
    reveal(RateCall::effect);
}

proof fn limit_sets(s: BridgeState, c: LimitCall)
    ensures
        settings(c.effect(s)) == set_limit(settings(s), c),
{
    reveal(LimitCall::effect);
}

proof fn list_sets(s: BridgeState, c: ListCall)
    ensures
        settings(c.effect(s)) == set_list(settings(s), c),
{
    reveal(ListCall::effect);
}

proof fn relayer_sets_nothing(s: BridgeState, c: RelayerCall)
    ensures
        settings(c.effect(s)) == settings(s),
{
    reveal(RelayerCall::effect);
}

proof fn upgrade_sets_nothing(s: BridgeState, c: UpgradeCall)
    ensures
        settings(c.effect(s)) == settings(s),
{
    reveal(UpgradeCall::effect);
}

proof fn upkeep_sets_nothing(s: BridgeState, c: UpkeepCall)
    ensures
        settings(c.effect(s)) == settings(s),
{
    match c {
        UpkeepCall::ExtendPersistent { asset, ttl } => {
            extend_persistent_keeps(s, asset, ttl);
            reveal(same_books);
            reveal(UpkeepCall::effect);
        },
        UpkeepCall::ExtendSource { source, asset, ttl } => {
            extend_source_keeps(s, source, asset, ttl);
            reveal(same_books);
            reveal(UpkeepCall::effect);
        },
        _ => {
            reveal(UpkeepCall::effect);
        },
    }
}

/// A setting has the value that the last call that set it gave it: such a call
/// changes that setting and no other, and every other call leaves all of them as
/// they are.
pub proof fn settings_stand_until_set(s: BridgeState, call: Call)
    ensures
        settings(step(s, call)) == (if succeeds(s, call) {
            set_by(settings(s), call)
        } else {
            settings(s)
        }),
{
    if succeeds(s, call) {
        match call {
            Call::Lifecycle(c) => lifecycle_sets(s, c),
            Call::Funding(c) => funding_sets_nothing(s, c),
            Call::Deferred(c) => deferred_sets_nothing(s, c),
            Call::Swap(c) => swap_sets_nothing(s, c),
            Call::Holding(c) => holding_sets_nothing(s, c),
            Call::Role(c) => role_sets_nothing(s, c),
            Call::Rate(c) => rate_sets(s, c),
            Call::Limit(c) => limit_sets(s, c),
            Call::List(c) => list_sets(s, c),
            Call::Relayer(c) => relayer_sets_nothing(s, c),
            Call::Upgrade(c) => upgrade_sets_nothing(s, c),
            Call::Upkeep(c) => upkeep_sets_nothing(s, c),
        }
    }
}

} // verus!
