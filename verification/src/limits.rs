//! What a source moves of an asset in a day stays within its limit.
use vstd::prelude::*;

use crate::batch::{batch_effect, batch_entries_effect, batch_error, batch_tally, sum, Tally};
use crate::bytes::{Bytes32, Signature};
use crate::calls::{
    next_ledger, step, succeeds, Call, DeferredCall, FundingCall, HoldingCall, LifecycleCall,
    LimitCall, ListCall, RateCall, RelayerCall, RoleCall, SwapCall, UpgradeCall, UpkeepCall,
};
use crate::commit_reveal::reveal_effect;
use crate::funding::{fund_effect, fund_error, referral_effect, referral_error};
use crate::invariants::{
    extend_persistent_keeps, extend_source_keeps, same_books,
};
use crate::meta_tx::{meta_fund_effect, meta_fund_error};
use crate::state::{value_or, BridgeState};
use crate::types::{Address, Ledger, MetaFundParams, SourceAssetDay, SECONDS_PER_DAY};

verus! {

/// The day of a ledger.
pub open spec fn day_of(ledger: Ledger) -> u64 {
    (ledger.timestamp / SECONDS_PER_DAY) as u64
}

/// What has been counted of a source and an asset on a day.
pub open spec fn used_on(s: BridgeState, source: Address, asset: Address, day: u64) -> int {
    value_or(s.daily_usage, SourceAssetDay { source, asset, day }, 0) as int
}

/// The books after one amount has been held against the limit, and counted where
/// the limit allows it.
pub open spec fn offer(
    s: BridgeState,
    source: Address,
    asset: Address,
    amount: i128,
) -> BridgeState {
    if s.usage_error(source, asset, amount) is None {
        s.count_usage(source, asset, amount)
    } else {
        s
    }
}

/// The books after amounts have been held against the limit, one after the other.
pub open spec fn offer_all(
    s: BridgeState,
    source: Address,
    asset: Address,
    amounts: Seq<i128>,
) -> BridgeState
    decreases amounts.len(),
{
    if amounts.len() == 0 {
        s
    } else {
        offer(offer_all(s, source, asset, amounts.drop_last()), source, asset, amounts.last())
    }
}

/// The sum of those of the amounts that the limit allows.
pub open spec fn allowed_sum(
    s: BridgeState,
    source: Address,
    asset: Address,
    amounts: Seq<i128>,
) -> int
    decreases amounts.len(),
{
    if amounts.len() == 0 {
        0
    } else {
        let before = allowed_sum(s, source, asset, amounts.drop_last());
        let t = offer_all(s, source, asset, amounts.drop_last());
        if t.usage_error(source, asset, amounts.last()) is None {
            before + amounts.last()
        } else {
            before
        }
    }
}

/// Of amounts that are held against a limit one after the other on one day, those
/// that are allowed sum to what is counted and to at most the limit, and each that
/// is refused would have taken that sum above the limit. What is counted of other
/// sources, assets and days is not touched.
pub proof fn allowed_amounts_add_up(
    s: BridgeState,
    source: Address,
    asset: Address,
    amounts: Seq<i128>,
    other: SourceAssetDay,
)
    requires
        s.daily_limit_of(source, asset) > 0,
        s.used_today(source, asset) == 0,
        forall|i: int| 0 <= i < amounts.len() ==> (#[trigger] amounts[i]) >= 0,
    ensures
        ({
            let t = offer_all(s, source, asset, amounts);
            let limit = s.daily_limit_of(source, asset);
            &&& t.used_today(source, asset) == allowed_sum(s, source, asset, amounts)
            &&& 0 <= allowed_sum(s, source, asset, amounts) <= limit
            &&& forall|i: int| #![trigger amounts.take(i)]
                0 <= i < amounts.len() && offer_all(
                    s,
                    source,
                    asset,
                    amounts.take(i),
                ).usage_error(source, asset, amounts[i]) is Some ==> allowed_sum(
                    s,
                    source,
                    asset,
                    amounts.take(i),
                ) + amounts[i] > limit
            &&& other != s.usage_key(source, asset) ==> value_or(t.daily_usage, other, 0)
                == value_or(s.daily_usage, other, 0)
            &&& t == (BridgeState { daily_usage: t.daily_usage, ..s })
        }),
    decreases amounts.len(),
{
    if amounts.len() > 0 {
        let rest = amounts.drop_last();
        let last = amounts.last();
        assert forall|i: int| 0 <= i < rest.len() implies (#[trigger] rest[i]) >= 0 by {
            assert(rest[i] == amounts[i]);
        }
        allowed_amounts_add_up(s, source, asset, rest, other);
        assert forall|i: int| #![trigger amounts.take(i)]
            0 <= i < amounts.len() && offer_all(
                s,
                source,
                asset,
                amounts.take(i),
            ).usage_error(source, asset, amounts[i]) is Some implies allowed_sum(
            s,
            source,
            asset,
            amounts.take(i),
        ) + amounts[i] > s.daily_limit_of(source, asset) by {
            if i < rest.len() {
                assert(rest.take(i) =~= amounts.take(i));
                assert(rest[i] == amounts[i]);
            } else {
                assert(amounts.take(i) =~= rest);
            }
        }
    }
}

/// What a call moves of an asset for a source, as far as it counts toward the daily
/// limit.
pub open spec fn metered(call: Call, source: Address, asset: Address) -> int {
    match call {
        Call::Funding(FundingCall::Fund { source: x, asset: y, amount, .. }) => {
            if x == source && y == asset {
                amount as int
            } else {
                0
            }
        },
        Call::Funding(FundingCall::FundWithReferral { source: x, asset: y, amount, .. }) => {
            if x == source && y == asset {
                amount as int
            } else {
                0
            }
        },
        Call::Funding(FundingCall::BatchFund { source: x, asset: y, targets, amounts, .. }) => {
            if x == source && y == asset && targets.len() > 0 {
                sum(amounts)
            } else {
                0
            }
        },
        Call::Funding(FundingCall::MetaFund { params, .. }) => {
            if params.source == source && params.asset == asset {
                params.amount as int
            } else {
                0
            }
        },
        _ => 0,
    }
}

proof fn fund_counts(
    s: BridgeState,
    source: Address,
    target: Address,
    asset: Address,
    amount: i128,
    nonce: Option<u64>,
)
    ensures
        fund_effect(s, source, target, asset, amount, nonce).daily_usage == s.count_usage(
            source,
            asset,
            amount,
        ).daily_usage,
{
}

proof fn referral_counts(
    s: BridgeState,
    source: Address,
    target: Address,
    asset: Address,
    amount: i128,
    referrer: Option<Address>,
)
    ensures
        referral_effect(s, source, target, asset, amount, referrer).daily_usage == s.count_usage(
            source,
            asset,
            amount,
        ).daily_usage,
{
}

proof fn batch_counts(
    s: BridgeState,
    source: Address,
    asset: Address,
    nonce: Option<u64>,
    total: i128,
    t: Tally,
)
    ensures
        batch_entries_effect(s, source, asset, nonce, total, t).daily_usage == s.count_usage(
            source,
            asset,
            total,
        ).daily_usage,
{
}

proof fn meta_fund_counts(
    s: BridgeState,
    p: MetaFundParams,
    pubkey: Bytes32,
    signature: Signature,
    payload: Bytes32,
)
    ensures
        meta_fund_effect(s, p, pubkey, signature, payload).daily_usage == s.count_usage(
            p.source,
            p.asset,
            p.amount,
        ).daily_usage,
{
}

proof fn reveal_counts_nothing(
    s: BridgeState,
    id: u64,
    source: Address,
    target: Address,
    asset: Address,
    amount: i128,
)
    ensures
        reveal_effect(s, id, source, target, asset, amount).daily_usage == s.daily_usage,
{
}

/// What one funding call that is carried out counts toward the limit.
proof fn funding_counts(
    s: BridgeState,
    c: FundingCall,
    source: Address,
    asset: Address,
    day: u64,
)
    requires
        c.succeeds(s),
    ensures
        counted(s, c.effect(s), Call::Funding(c), source, asset, day),
{
    match c {
        FundingCall::Fund { source: x, target, asset: y, amount, nonce, deadline } => {
            assert(fund_error(s, x, target, y, amount, nonce, deadline) is None && c.effect(s)
                == fund_effect(s, x, target, y, amount, nonce)) by {
                reveal(FundingCall::refusal);
                reveal(FundingCall::effect);
            }
            fund_counts(s, x, target, y, amount, nonce);
        },
        FundingCall::FundWithReferral { source: x, target, asset: y, amount, referrer } => {
            assert(referral_error(s, x, target, y, amount, referrer) is None && c.effect(s)
                == referral_effect(s, x, target, y, amount, referrer)) by {
                reveal(FundingCall::refusal);
                reveal(FundingCall::effect);
            }
            referral_counts(s, x, target, y, amount, referrer);
        },
        FundingCall::BatchFund { source: x, targets, amounts, asset: y, nonce, deadline } => {
            assert(batch_error(s, x, targets, amounts, y, nonce, deadline) is None && c.effect(s)
                == batch_effect(s, x, targets, amounts, y, nonce)) by {
                reveal(FundingCall::refusal);
                reveal(FundingCall::effect);
            }
            let t = batch_tally(s, x, targets, amounts, y);
            batch_counts(s, x, y, nonce, sum(amounts) as i128, t);
        },
        FundingCall::MetaFund { params, pubkey, signature, payload } => {
            let hash = payload->Ok_0;
            assert(meta_fund_error(s, params, pubkey, payload) is None && c.effect(s)
                == meta_fund_effect(s, params, pubkey, signature, hash)) by {
                reveal(FundingCall::refusal);
                reveal(FundingCall::effect);
            }
            meta_fund_counts(s, params, pubkey, signature, hash);
        },
        FundingCall::Reveal { id, source: x, target, asset: y, amount, .. } => {
            assert(c.effect(s) == reveal_effect(s, id, x, target, y, amount)) by {
                reveal(FundingCall::effect);
            }
            reveal_counts_nothing(s, id, x, target, y, amount);
        },
    }
}

/// Whether what a call moves has been counted, on the day of the call and no other,
/// and stays within the limit.
pub open spec fn counted(
    s: BridgeState,
    t: BridgeState,
    call: Call,
    source: Address,
    asset: Address,
    day: u64,
) -> bool {
    let limit = s.daily_limit_of(source, asset);
    let moved = metered(call, source, asset);
    if limit != 0 && day == day_of(s.ledger) && moved != 0 {
        &&& used_on(t, source, asset, day) == used_on(s, source, asset, day) + moved
        &&& used_on(t, source, asset, day) <= limit
    } else {
        used_on(t, source, asset, day) == used_on(s, source, asset, day)
    }
}

proof fn lifecycle_counts_nothing(s: BridgeState, c: LifecycleCall)
    ensures
        c.effect(s).daily_usage == s.daily_usage,
{
    reveal(LifecycleCall::effect);
}

proof fn deferred_counts_nothing(s: BridgeState, c: DeferredCall)
    ensures
        c.effect(s).daily_usage == s.daily_usage,
{
    reveal(DeferredCall::effect);
}

proof fn swap_counts_nothing(s: BridgeState, c: SwapCall)
    ensures
        c.effect(s).daily_usage == s.daily_usage,
{
    reveal(SwapCall::effect);
}

proof fn holding_counts_nothing(s: BridgeState, c: HoldingCall)
    ensures
        c.effect(s).daily_usage == s.daily_usage,
{
    reveal(HoldingCall::effect);
}

proof fn role_counts_nothing(s: BridgeState, c: RoleCall)
    ensures
        c.effect(s).daily_usage == s.daily_usage,
{
    reveal(RoleCall::effect);
}

proof fn rate_counts_nothing(s: BridgeState, c: RateCall)
    ensures
        c.effect(s).daily_usage == s.daily_usage,
{
    reveal(RateCall::effect);
}

proof fn limit_counts_nothing(s: BridgeState, c: LimitCall)
    ensures
        c.effect(s).daily_usage == s.daily_usage,
{
    reveal(LimitCall::effect);
}

proof fn list_counts_nothing(s: BridgeState, c: ListCall)
    ensures
        c.effect(s).daily_usage == s.daily_usage,
{
    reveal(ListCall::effect);
}

proof fn relayer_counts_nothing(s: BridgeState, c: RelayerCall)
    ensures
        c.effect(s).daily_usage == s.daily_usage,
{
    reveal(RelayerCall::effect);
}

proof fn upgrade_counts_nothing(s: BridgeState, c: UpgradeCall)
    ensures
        c.effect(s).daily_usage == s.daily_usage,
{
    reveal(UpgradeCall::effect);
}

proof fn upkeep_counts_nothing(s: BridgeState, c: UpkeepCall)
    ensures
        c.effect(s).daily_usage == s.daily_usage,
{
    match c {
        UpkeepCall::ExtendPersistent { asset, ttl } => {
            extend_persistent_keeps(s, asset, ttl);
            reveal(same_books);
            reveal(UpkeepCall::effect);
        },
        UpkeepCall::ExtendSource { source, asset, ttl } => {
            extend_source_keeps(s, source, asset, ttl);
            reveal(same_books);
            reveal(UpkeepCall::effect);
        },
        _ => {
            reveal(UpkeepCall::effect);
        },
    }
}

/// A call that is carried out counts what it moves toward the limit of its source,
/// if there is one, whichever way it funds: alone, with a referrer, in a batch or
/// by a meta-transaction. Every other call, and every refused one, counts nothing.
pub proof fn calls_count_what_they_move(
    s: BridgeState,
    call: Call,
    source: Address,
    asset: Address,
    day: u64,
)
    ensures
        if succeeds(s, call) {
            counted(s, step(s, call), call, source, asset, day)
        } else {
            used_on(step(s, call), source, asset, day) == used_on(s, source, asset, day)
        },
{
    if succeeds(s, call) {
        match call {
            Call::Lifecycle(c) => lifecycle_counts_nothing(s, c),
            Call::Funding(c) => funding_counts(s, c, source, asset, day),
            Call::Deferred(c) => deferred_counts_nothing(s, c),
            Call::Swap(c) => swap_counts_nothing(s, c),
            Call::Holding(c) => holding_counts_nothing(s, c),
            Call::Role(c) => role_counts_nothing(s, c),
            Call::Rate(c) => rate_counts_nothing(s, c),
            Call::Limit(c) => limit_counts_nothing(s, c),
            Call::List(c) => list_counts_nothing(s, c),
            Call::Relayer(c) => relayer_counts_nothing(s, c),
            Call::Upgrade(c) => upgrade_counts_nothing(s, c),
            Call::Upkeep(c) => upkeep_counts_nothing(s, c),
        }
    }
}

/// The books after any calls, each in its ledger.
pub open spec fn after_calls(s: BridgeState, calls: Seq<(Ledger, Call)>) -> BridgeState
    decreases calls.len(),
{
    if calls.len() == 0 {
        s
    } else {
        let (ledger, call) = calls.last();
        step(next_ledger(after_calls(s, calls.drop_last()), ledger), call)
    }
}

/// What those of the calls that are carried out move in all.
pub open spec fn moved_by(
    s: BridgeState,
    calls: Seq<(Ledger, Call)>,
    source: Address,
    asset: Address,
) -> int
    decreases calls.len(),
{
    if calls.len() == 0 {
        0
    } else {
        let (ledger, call) = calls.last();
        let before = moved_by(s, calls.drop_last(), source, asset);
        if succeeds(next_ledger(after_calls(s, calls.drop_last()), ledger), call) {
            before + metered(call, source, asset)
        } else {
            before
        }
    }
}

/// While a limit stands, all that a source moves of an asset in a day, by any calls,
/// sums to what is counted and stays within the limit; what is counted of another
/// day does not change.
pub proof fn a_day_stays_within_its_limit(
    s: BridgeState,
    calls: Seq<(Ledger, Call)>,
    source: Address,
    asset: Address,
    day: u64,
    other_day: u64,
    limit: i128,
)
    requires
        limit > 0,
        used_on(s, source, asset, day) == 0,
        forall|i: int| 0 <= i < calls.len() ==> day_of((#[trigger] calls[i]).0) == day,
        forall|i: int|
            0 <= i <= calls.len() ==> after_calls(
                s,
                #[trigger] calls.take(i),
            ).daily_limit_of(source, asset) == limit,
        other_day != day,
    ensures
        ({
            let t = after_calls(s, calls);
            let moved = moved_by(s, calls, source, asset);
            &&& used_on(t, source, asset, day) == moved
            &&& moved <= limit
            &&& used_on(t, source, asset, other_day) == used_on(s, source, asset, other_day)
        }),
    decreases calls.len(),
{
    if calls.len() > 0 {
        let rest = calls.drop_last();
        let (ledger, call) = calls.last();
        assert forall|i: int| 0 <= i < rest.len() implies day_of((#[trigger] rest[i]).0) == day by {
            assert(rest[i] == calls[i]);
        }
        assert forall|i: int| 0 <= i <= rest.len() implies after_calls(
            s,
            #[trigger] rest.take(i),
        ).daily_limit_of(source, asset) == limit by {
            assert(rest.take(i) =~= calls.take(i));
        }
        a_day_stays_within_its_limit(s, rest, source, asset, day, other_day, limit);
        assert(calls.take(calls.len() - 1) =~= rest);
        assert(calls[calls.len() - 1] == calls.last());
        let before = next_ledger(after_calls(s, rest), ledger);
        calls_count_what_they_move(before, call, source, asset, day);
        calls_count_what_they_move(before, call, source, asset, other_day);
        assert(before.daily_limit_of(source, asset) == limit);
    }
}

} // verus!
