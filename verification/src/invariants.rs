//! What holds of the books of every bridge, whatever calls it has seen.
use vstd::prelude::*;

use crate::actions::{Action, Event};
use crate::batch::{
    batch_books_error, batch_effect, batch_entries_effect, batch_error, batch_plan_error,
    batch_tally, payout_sum, sum, tally_balances, Tally,
};
use crate::books::credited;
use crate::bytes::{Bytes32, Signature};
use crate::calls::{
    history, next_ledger, step, Call, DeferredCall, FundingCall, HoldingCall, LifecycleCall,
    LimitCall, ListCall, RateCall, RelayerCall, RoleCall, SwapCall, UpgradeCall, UpkeepCall,
};
use crate::errors::BridgeError;
use crate::commit_reveal::{commit_effect, reveal_effect, reveal_error};
use crate::crosschain::crosschain_effect;
use crate::fees::{fee_bounds, rates_are_capped};
use crate::funding::{
    fund_effect, fund_error, referral_effect, referral_error, referral_share, share_bounds,
};
use crate::host::{address_of, key_of};
use crate::meta_tx::{meta_fund_effect, meta_fund_error};
use crate::safe_math::fits;
use crate::settings::some_tier_too_high;
use crate::state::{empty_state, no_counters, value_or, BridgeState};
use crate::timelock::{claim_effect, claim_error, lock_effect};
use crate::ttl::{at_most, extend_persistent_effect, extend_source_effect, persistent_ttl};
use crate::types::{
    Address, AssetCounters, BridgeConfigData, CommitmentEntry, DataKey, Ledger, MetaFundParams,
    RelayerSig, SourceAsset, SourceNonce, TimelockEntry, MAX_ALLOWED_TTL, MAX_FEE_BPS,
    MIN_ALLOWED_TTL,
};

verus! {

/// The copies of the totals agree with the totals.
#[verifier::opaque]
pub open spec fn totals_mirrored(
    stats: Map<Address, AssetCounters>,
    accrued: Map<Address, i128>,
    bridged: Map<Address, i128>,
    collected: Map<Address, i128>,
) -> bool {
    forall|a: Address|
        #![trigger stats.contains_key(a)]
        #![trigger accrued.contains_key(a)]
        #![trigger bridged.contains_key(a)]
        #![trigger collected.contains_key(a)]
        {
            &&& accrued.contains_key(a) == stats.contains_key(a)
            &&& bridged.contains_key(a) == stats.contains_key(a)
            &&& collected.contains_key(a) == stats.contains_key(a)
            &&& stats.contains_key(a) ==> {
                &&& accrued[a] == stats[a].accrued_fees
                &&& bridged[a] == stats[a].total_bridged
                &&& collected[a] == stats[a].total_fees_collected
            }
        }
}

/// The copies of the settings agree with the settings.
pub open spec fn settings_mirrored(s: BridgeState) -> bool {
    &&& s.instance.fee_bps matches Some(bps) ==> bps == s.config().fee_bps
    &&& s.instance.paused matches Some(paused) ==> paused == s.config().paused
    &&& s.instance.allowlist_mode matches Some(mode) ==> mode == s.config().allowlist_mode
    &&& s.instance.initialized ==> s.bridge_config() == (BridgeConfigData {
        admin: s.admin(),
        fee_collector: s.fee_collector(),
        fee_bps: s.config().fee_bps,
    })
}

/// What holds of the totals of an asset: none is negative, and no more fees are
/// waiting than were ever charged.
pub open spec fn counters_sound(c: AssetCounters) -> bool {
    &&& 0 <= c.accrued_fees <= c.total_fees_collected
    &&& 0 <= c.total_bridged
    &&& 0 <= c.locked_timelock
}

/// The totals of every asset are sound.
#[verifier::opaque]
pub open spec fn totals_sound(stats: Map<Address, AssetCounters>) -> bool {
    forall|a: Address| #[trigger] stats.contains_key(a) ==> counters_sound(stats[a])
}

/// The sum of the deposits of an asset among the first `n` timelock entries that
/// have not been claimed.
pub open spec fn unclaimed(entries: Map<u64, TimelockEntry>, asset: Address, n: nat) -> int
    decreases n,
{
    if n == 0 {
        0
    } else {
        let id = (n - 1) as u64;
        unclaimed(entries, asset, (n - 1) as nat) + if entries.contains_key(id)
            && entries[id].asset == asset && !entries[id].claimed {
            entries[id].amount as int
        } else {
            0
        }
    }
}

/// Timelock entries have the ids that were given out, and their amounts are
/// positive.
#[verifier::opaque]
pub open spec fn timelocks_sound(entries: Map<u64, TimelockEntry>, next: u64) -> bool {
    forall|id: u64| #[trigger]
        entries.contains_key(id) ==> id < next && entries[id].amount > 0
}

/// Commitments have the ids that were given out.
#[verifier::opaque]
pub open spec fn commitments_sound(entries: Map<u64, CommitmentEntry>, next: u64) -> bool {
    forall|id: u64| #[trigger] entries.contains_key(id) ==> id < next
}

/// What is counted as locked is what the recipients have not claimed.
#[verifier::opaque]
pub open spec fn locked_sound(
    stats: Map<Address, AssetCounters>,
    entries: Map<u64, TimelockEntry>,
    next: u64,
) -> bool {
    forall|a: Address|
        #![trigger unclaimed(entries, a, next as nat)]
        #![trigger value_or(stats, a, no_counters())]
        value_or(stats, a, no_counters()).locked_timelock == unclaimed(entries, a, next as nat)
}

/// The relayers are counted right, and there are as many as have to sign.
#[verifier::opaque]
pub open spec fn relayers_sound(
    relayers: Map<Bytes32, bool>,
    count: u32,
    threshold: Option<u32>,
) -> bool {
    &&& relayers.dom().finite()
    &&& relayers.dom().len() == count
    &&& forall|k: Bytes32| #[trigger] relayers.contains_key(k) ==> relayers[k]
    &&& threshold matches Some(t) ==> t <= count
}

/// The counter of a source lies above every number that it has used in an
/// authorization entry.
#[verifier::opaque]
pub open spec fn auth_nonces_sound(
    used: Map<SourceNonce, bool>,
    counters: Map<Address, u64>,
) -> bool {
    forall|k: SourceNonce| #[trigger]
        value_or(used, k, false) ==> k.nonce < value_or(counters, k.source, 0)
}

/// Every cap is a rate that can be charged.
#[verifier::opaque]
pub open spec fn caps_sound(caps: Map<Address, u32>) -> bool {
    forall|a: Address| #[trigger] caps.contains_key(a) ==> caps[a] <= MAX_FEE_BPS
}

/// Both maxima of times to live are within their bounds.
pub open spec fn ttls_sound(s: BridgeState) -> bool {
    &&& MIN_ALLOWED_TTL <= s.max_instance_ttl() <= MAX_ALLOWED_TTL
    &&& MIN_ALLOWED_TTL <= s.max_persistent_ttl() <= MAX_ALLOWED_TTL
}

/// No volume is negative.
#[verifier::opaque]
pub open spec fn volumes_sound(volumes: Map<Address, i128>) -> bool {
    forall|a: Address| #[trigger] volumes.contains_key(a) ==> volumes[a] >= 0
}

/// Whatever stands on a whitelist is listed, and is an address.
#[verifier::opaque]
pub open spec fn whitelist_sound(list: Map<(u32, u128, u128), bool>) -> bool {
    &&& list.dom().finite()
    &&& forall|k: (u32, u128, u128)| #[trigger]
        list.contains_key(k) ==> list[k] && key_of(address_of(k)) == k
}

/// The books of a bridge that has only ever been called.
pub open spec fn sound(s: BridgeState) -> bool {
    &&& s.wf()
    &&& settings_mirrored(s)
    &&& ttls_sound(s)
    &&& totals_mirrored(s.asset_stats, s.accrued_fees, s.total_bridged, s.total_fees_collected)
    &&& totals_sound(s.asset_stats)
    &&& timelocks_sound(s.timelock, s.next_timelock())
    &&& locked_sound(s.asset_stats, s.timelock, s.next_timelock())
    &&& commitments_sound(s.commitment, s.next_commitment())
    &&& relayers_sound(s.relayer, s.relayer_count(), s.instance.relayer_threshold)
    &&& auth_nonces_sound(s.used_auth_nonce, s.auth_nonce)
    &&& caps_sound(s.asset_fee_cap)
    &&& volumes_sound(s.source_bridged_volume)
    &&& whitelist_sound(s.asset_whitelist)
    &&& whitelist_sound(s.pool_whitelist)
}

/// Nothing that was marked is unmarked.
#[verifier::opaque]
pub open spec fn marks_stay<K>(before: Map<K, bool>, after: Map<K, bool>) -> bool {
    forall|k: K|
        #![trigger value_or(before, k, false)]
        #![trigger value_or(after, k, false)]
        value_or(before, k, false) ==> value_or(after, k, false)
}

/// No nonce goes back.
#[verifier::opaque]
pub open spec fn nonces_stay(before: Map<Address, u64>, after: Map<Address, u64>) -> bool {
    forall|a: Address|
        #![trigger value_or(before, a, 0)]
        #![trigger value_or(after, a, 0)]
        value_or(before, a, 0) <= value_or(after, a, 0)
}

/// The totals of what was ever delivered and charged never go back.
#[verifier::opaque]
pub open spec fn totals_stay(
    before: Map<Address, AssetCounters>,
    after: Map<Address, AssetCounters>,
) -> bool {
    forall|a: Address|
        #![trigger value_or(before, a, no_counters())]
        #![trigger value_or(after, a, no_counters())]
        {
            let b = value_or(before, a, no_counters());
            let c = value_or(after, a, no_counters());
            b.total_bridged <= c.total_bridged && b.total_fees_collected <= c.total_fees_collected
        }
}

/// A timelock entry never goes away, and all that changes of it is that it is
/// claimed, once.
#[verifier::opaque]
pub open spec fn timelocks_stay(
    before: Map<u64, TimelockEntry>,
    after: Map<u64, TimelockEntry>,
) -> bool {
    forall|id: u64|
        #![trigger before.contains_key(id)]
        #![trigger after.contains_key(id)]
        before.contains_key(id) ==> {
            &&& after.contains_key(id)
            &&& after[id] == before[id] || after[id] == (TimelockEntry {
                claimed: true,
                ..before[id]
            })
        }
}

/// A commitment never goes away, and all that changes of it is that it is
/// revealed, once.
#[verifier::opaque]
pub open spec fn commitments_stay(
    before: Map<u64, CommitmentEntry>,
    after: Map<u64, CommitmentEntry>,
) -> bool {
    forall|id: u64|
        #![trigger before.contains_key(id)]
        #![trigger after.contains_key(id)]
        before.contains_key(id) ==> {
            &&& after.contains_key(id)
            &&& after[id] == before[id] || after[id] == (CommitmentEntry {
                revealed: true,
                ..before[id]
            })
        }
}

/// What can only be done, and not undone.
pub open spec fn progress(s: BridgeState, t: BridgeState) -> bool {
    &&& s.instance.initialized ==> t.instance.initialized
    &&& s.instance.deactivated ==> t.instance.deactivated
    &&& s.next_timelock() <= t.next_timelock()
    &&& s.next_commitment() <= t.next_commitment()
    &&& nonces_stay(s.nonce, t.nonce)
    &&& nonces_stay(s.auth_nonce, t.auth_nonce)
    &&& marks_stay(s.used_auth_nonce, t.used_auth_nonce)
    &&& marks_stay(s.meta_tx_nonce, t.meta_tx_nonce)
    &&& marks_stay(s.cross_chain_nonce, t.cross_chain_nonce)
    &&& totals_stay(s.asset_stats, t.asset_stats)
    &&& timelocks_stay(s.timelock, t.timelock)
    &&& commitments_stay(s.commitment, t.commitment)
}

/// A call leaves sound books, and undoes nothing that cannot be undone.
pub open spec fn kept(s: BridgeState, t: BridgeState) -> bool {
    sound(t) && progress(s, t)
}

/// Where nothing is done nothing is undone.
pub proof fn progress_of_nothing(s: BridgeState)
    ensures
        progress(s, s),
{
    reveal(nonces_stay);
    reveal(marks_stay);
    reveal(totals_stay);
    reveal(timelocks_stay);
    reveal(commitments_stay);
}

/// What the first call has not undone and the second has not, both have not.
pub proof fn progress_adds_up(r: BridgeState, s: BridgeState, t: BridgeState)
    requires
        progress(r, s),
        progress(s, t),
    ensures
        progress(r, t),
{
    reveal(nonces_stay);
    reveal(marks_stay);
    reveal(totals_stay);
    reveal(timelocks_stay);
    reveal(commitments_stay);
}

/// Handing roles on keeps the books sound.
pub proof fn role_calls_keep(s: BridgeState, call: RoleCall)
    requires
        sound(s),
    ensures
        kept(s, call.step(s)),
{
    reveal(RoleCall::refusal);
    reveal(RoleCall::countable);
    reveal(RoleCall::effect);
    progress_of_nothing(s);
    match call {
        RoleCall::SetAdmin { nonce, .. } => consume_keeps(s, s.admin(), nonce),
        RoleCall::ProposeAdmin { nonce, .. } => consume_keeps(s, s.admin(), nonce),
        RoleCall::SetFeeCollector { nonce, .. } => consume_keeps(s, s.admin(), nonce),
        RoleCall::ProposeFeeCollector { nonce, .. } => consume_keeps(s, s.admin(), nonce),
        _ => {},
    }
}

/// Consuming the caller's next nonce advances it.
proof fn consume_keeps(s: BridgeState, caller: Address, nonce: Option<u64>)
    ensures
        s.nonce_error(caller, nonce) is None && s.nonce_fits(caller, nonce) ==> nonces_stay(
            s.nonce,
            s.consume(caller, nonce).nonce,
        ),
{
    reveal(nonces_stay);
}

/// New totals of an asset keep the books sound, where they are sound themselves,
/// lock the same and do not go back.
proof fn counters_keep(s: BridgeState, asset: Address, c: AssetCounters)
    requires
        sound(s),
        counters_sound(c),
        c.locked_timelock == s.locked(asset),
        c.total_bridged >= s.counters_of(asset).total_bridged,
        c.total_fees_collected >= s.counters_of(asset).total_fees_collected,
    ensures
        ({
            let t = s.with_counters(asset, c);
            &&& totals_mirrored(
                t.asset_stats,
                t.accrued_fees,
                t.total_bridged,
                t.total_fees_collected,
            )
            &&& totals_sound(t.asset_stats)
            &&& locked_sound(t.asset_stats, t.timelock, t.next_timelock())
            &&& totals_stay(s.asset_stats, t.asset_stats)
        }),
{
    let t = s.with_counters(asset, c);
    assert(totals_mirrored(
        t.asset_stats,
        t.accrued_fees,
        t.total_bridged,
        t.total_fees_collected,
    )) by {
        reveal(totals_mirrored);
    }
    assert(totals_sound(t.asset_stats)) by {
        reveal(totals_sound);
    }
    assert(locked_sound(t.asset_stats, t.timelock, t.next_timelock())) by {
        reveal(locked_sound);
        let next = s.next_timelock() as nat;
        assert forall|a: Address|
            value_or(t.asset_stats, a, no_counters()).locked_timelock == #[trigger] unclaimed(
                t.timelock,
                a,
                next,
            ) by {
            assert(value_or(s.asset_stats, a, no_counters()).locked_timelock == unclaimed(
                s.timelock,
                a,
                next,
            ));
        }
    }
    assert(totals_stay(s.asset_stats, t.asset_stats)) by {
        reveal(totals_stay);
    }
}

/// The totals of an asset are sound.
proof fn counters_of_sound(s: BridgeState, asset: Address)
    requires
        sound(s),
    ensures
        counters_sound(s.counters_of(asset)),
        s.volume_of(asset) >= 0,
{
    reveal(totals_sound);
    reveal(volumes_sound);
}

/// Crediting an asset with a delivery and its fee keeps its totals sound.
proof fn credit_keeps(s: BridgeState, asset: Address, accrued: int, net: int, fee: int)
    requires
        sound(s),
        0 <= accrued <= fee,
        0 <= net,
        credited(s.counters_of(asset), accrued, net, fee) is Ok,
    ensures
        ({
            let t = s.with_counters(
                asset,
                credited(s.counters_of(asset), accrued, net, fee)->Ok_0,
            );
            &&& totals_mirrored(
                t.asset_stats,
                t.accrued_fees,
                t.total_bridged,
                t.total_fees_collected,
            )
            &&& totals_sound(t.asset_stats)
            &&& locked_sound(t.asset_stats, t.timelock, t.next_timelock())
            &&& totals_stay(s.asset_stats, t.asset_stats)
        }),
{
    counters_of_sound(s, asset);
    counters_keep(s, asset, credited(s.counters_of(asset), accrued, net, fee)->Ok_0);
}

/// A new volume that is not negative keeps the volumes sound.
proof fn volume_keeps(s: BridgeState, source: Address, amount: i128)
    requires
        sound(s),
        amount >= 0,
        s.volume_of(source) + amount <= i128::MAX,
    ensures
        volumes_sound(
            s.source_bridged_volume.insert(source, (s.volume_of(source) + amount) as i128),
        ),
{
    reveal(volumes_sound);
}

/// On sound books the charge on a positive amount leaves something, and neither
/// part of it is negative.
proof fn charge_sound(s: BridgeState, source: Address, asset: Address, amount: i128)
    requires
        s.wf(),
        amount > 0,
        s.charge(source, asset, amount) is Ok,
    ensures
        ({
            let c = s.charge(source, asset, amount)->Ok_0;
            &&& 0 <= c.fee
            &&& 0 < c.net
            &&& c.fee + c.net == amount
        }),
{
    rates_are_capped(s, source, asset);
    fee_bounds(amount as int, s.effective_bps(source, asset) as int);
}

/// Funding calls keep the books sound.
pub proof fn funding_calls_keep(s: BridgeState, call: FundingCall)
    requires
        sound(s),
    ensures
        kept(s, call.step(s)),
{
    progress_of_nothing(s);
    if call.succeeds(s) {
        match call {
            FundingCall::Fund { source, target, asset, amount, nonce, deadline } => {
                fund_keeps(s, source, target, asset, amount, nonce, deadline);
            },
            FundingCall::FundWithReferral { source, target, asset, amount, referrer } => {
                referral_keeps(s, source, target, asset, amount, referrer);
            },
            FundingCall::BatchFund { source, targets, amounts, asset, nonce, deadline } => {
                batch_keeps(s, source, targets, amounts, asset, nonce, deadline);
            },
            FundingCall::MetaFund { params, pubkey, signature, payload } => {
                meta_fund_keeps(s, params, pubkey, signature, payload);
            },
            FundingCall::Reveal { id, source, target, asset, amount, computed } => {
                reveal_keeps(s, id, source, target, asset, amount, computed);
            },
        }
    }
}

proof fn fund_keeps(
    s: BridgeState,
    source: Address,
    target: Address,
    asset: Address,
    amount: i128,
    nonce: Option<u64>,
    deadline: Option<u64>,
)
    requires
        sound(s),
        (FundingCall::Fund { source, target, asset, amount, nonce, deadline }).succeeds(s),
    ensures
        kept(
            s,
            (FundingCall::Fund { source, target, asset, amount, nonce, deadline }).effect(s),
        ),
{
    let call = FundingCall::Fund { source, target, asset, amount, nonce, deadline };
    assert(fund_error(s, source, target, asset, amount, nonce, deadline) is None) by {
        reveal(FundingCall::refusal);
    }
    assert(s.nonce_fits(source, nonce)) by {
        reveal(FundingCall::countable);
    }
    assert(call.effect(s) == fund_effect(s, source, target, asset, amount, nonce)) by {
        reveal(FundingCall::effect);
    }
    progress_of_nothing(s);
    consume_keeps(s, source, nonce);
    charge_sound(s, source, asset, amount);
    let c = s.charge(source, asset, amount)->Ok_0;
    credit_keeps(s, asset, c.fee as int, c.net as int, c.fee as int);
    volume_keeps(s, source, amount);
}

proof fn referral_keeps(
    s: BridgeState,
    source: Address,
    target: Address,
    asset: Address,
    amount: i128,
    referrer: Option<Address>,
)
    requires
        sound(s),
        (FundingCall::FundWithReferral { source, target, asset, amount, referrer }).succeeds(s),
    ensures
        kept(
            s,
            (FundingCall::FundWithReferral { source, target, asset, amount, referrer }).effect(s),
        ),
{
    let call = FundingCall::FundWithReferral { source, target, asset, amount, referrer };
    assert(referral_error(s, source, target, asset, amount, referrer) is None) by {
        reveal(FundingCall::refusal);
    }
    assert(call.effect(s) == referral_effect(s, source, target, asset, amount, referrer)) by {
        reveal(FundingCall::effect);
    }
    progress_of_nothing(s);
    charge_sound(s, source, asset, amount);
    let c = s.charge(source, asset, amount)->Ok_0;
    share_bounds(s, c.fee, referrer);
    credit_keeps(
        s,
        asset,
        c.fee - referral_share(s, c.fee, referrer),
        c.net as int,
        c.fee as int,
    );
    volume_keeps(s, source, amount);
}

proof fn batch_keeps(
    s: BridgeState,
    source: Address,
    targets: Seq<Address>,
    amounts: Seq<i128>,
    asset: Address,
    nonce: Option<u64>,
    deadline: Option<u64>,
)
    requires
        sound(s),
        (FundingCall::BatchFund { source, targets, amounts, asset, nonce, deadline }).succeeds(s),
    ensures
        kept(
            s,
            (FundingCall::BatchFund { source, targets, amounts, asset, nonce, deadline }).effect(s),
        ),
{
    let call = FundingCall::BatchFund { source, targets, amounts, asset, nonce, deadline };
    assert(batch_error(s, source, targets, amounts, asset, nonce, deadline) is None) by {
        reveal(FundingCall::refusal);
    }
    assert(s.nonce_fits(source, nonce)) by {
        reveal(FundingCall::countable);
    }
    assert(call.effect(s) == batch_effect(s, source, targets, amounts, asset, nonce)) by {
        reveal(FundingCall::effect);
    }
    progress_of_nothing(s);
    if targets.len() > 0 {
        batch_is_balanced(s, source, targets, amounts, asset, nonce);
        let t = batch_tally(s, source, targets, amounts, asset);
        batch_entries_keep(s, source, asset, nonce, sum(amounts) as i128, t);
    }
}

proof fn batch_entries_keep(
    s: BridgeState,
    source: Address,
    asset: Address,
    nonce: Option<u64>,
    total: i128,
    t: Tally,
)
    requires
        sound(s),
        s.nonce_error(source, nonce) is None,
        s.nonce_fits(source, nonce),
        batch_books_error(s, source, asset, t) is None,
        0 <= t.fees <= i128::MAX,
        0 <= t.net <= i128::MAX,
        0 <= t.gross <= i128::MAX,
    ensures
        kept(s, batch_entries_effect(s, source, asset, nonce, total, t)),
{
    progress_of_nothing(s);
    consume_keeps(s, source, nonce);
    credit_keeps(s, asset, t.fees, t.net, t.fees);
    volume_keeps(s, source, t.gross as i128);
}

/// In a batch that is not refused, what is taken from the source is what is
/// delivered, kept as fees and returned, and none of these is negative.
pub proof fn batch_is_balanced(
    s: BridgeState,
    source: Address,
    targets: Seq<Address>,
    amounts: Seq<i128>,
    asset: Address,
    nonce: Option<u64>,
)
    requires
        s.wf(),
        targets.len() == amounts.len(),
        batch_plan_error(s, source, targets, amounts, asset, nonce) is None,
    ensures
        ({
            let t = batch_tally(s, source, targets, amounts, asset);
            &&& sum(amounts) == payout_sum(t.payouts) + t.fees + t.refund
            &&& payout_sum(t.payouts) == t.net
            &&& t.gross == t.net + t.fees
            &&& t.gross + t.refund == sum(amounts)
            &&& sum(amounts) <= i128::MAX
            &&& 0 <= t.fees
            &&& 0 <= t.net
            &&& 0 <= t.refund
            &&& t.num_success + t.num_failures == targets.len()
            &&& forall|i: int| 0 <= i < t.payouts.len() ==> (#[trigger] t.payouts[i]).amount > 0
        }),
{
    assert forall|i: int| 0 <= i < amounts.len() implies (#[trigger] amounts[i]) > 0 by {
        assert(s.amount_error(amounts[i]) is None);
    }
    rates_are_capped(s, source, asset);
    assert(amounts.take(amounts.len() as int) =~= amounts);
    tally_balances(
        s,
        source,
        asset,
        s.effective_bps(source, asset),
        targets,
        amounts,
        targets.len(),
    );
}

proof fn meta_fund_keeps(
    s: BridgeState,
    params: MetaFundParams,
    pubkey: Bytes32,
    signature: Signature,
    payload: Result<Bytes32, BridgeError>,
)
    requires
        sound(s),
        (FundingCall::MetaFund { params, pubkey, signature, payload }).succeeds(s),
    ensures
        kept(s, (FundingCall::MetaFund { params, pubkey, signature, payload }).effect(s)),
{
    let call = FundingCall::MetaFund { params, pubkey, signature, payload };
    assert(meta_fund_error(s, params, pubkey, payload) is None) by {
        reveal(FundingCall::refusal);
    }
    assert(call.effect(s) == meta_fund_effect(s, params, pubkey, signature, payload->Ok_0)) by {
        reveal(FundingCall::effect);
    }
    progress_of_nothing(s);
    charge_sound(s, params.source, params.asset, params.amount);
    let c = s.charge(params.source, params.asset, params.amount)->Ok_0;
    credit_keeps(s, params.asset, c.fee as int, c.net as int, c.fee as int);
    volume_keeps(s, params.source, params.amount);
    mark_keeps(s.meta_tx_nonce, SourceNonce { source: params.source, nonce: params.nonce });
}

/// Marking something unmarks nothing.
proof fn mark_keeps<K>(marks: Map<K, bool>, k: K)
    ensures
        marks_stay(marks, marks.insert(k, true)),
{
    reveal(marks_stay);
}

proof fn reveal_keeps(
    s: BridgeState,
    id: u64,
    source: Address,
    target: Address,
    asset: Address,
    amount: i128,
    computed: Bytes32,
)
    requires
        sound(s),
        (FundingCall::Reveal { id, source, target, asset, amount, computed }).succeeds(s),
    ensures
        kept(s, (FundingCall::Reveal { id, source, target, asset, amount, computed }).effect(s)),
{
    let call = FundingCall::Reveal { id, source, target, asset, amount, computed };
    assert(reveal_error(s, id, source, target, asset, amount, computed) is None) by {
        reveal(FundingCall::refusal);
    }
    assert(call.effect(s) == reveal_effect(s, id, source, target, asset, amount)) by {
        reveal(FundingCall::effect);
    }
    progress_of_nothing(s);
    charge_sound(s, source, asset, amount);
    let c = s.charge(source, asset, amount)->Ok_0;
    credit_keeps(s, asset, c.fee as int, c.net as int, c.fee as int);
    volume_keeps(s, source, amount);
    let after = s.commitment.insert(id, CommitmentEntry { revealed: true, ..s.commitment[id] });
    assert(commitments_sound(after, s.next_commitment())) by {
        reveal(commitments_sound);
    }
    assert(commitments_stay(s.commitment, after)) by {
        reveal(commitments_stay);
    }
}

/// Setting limits and rewards keeps the books sound.
pub proof fn limit_calls_keep(s: BridgeState, call: LimitCall)
    requires
        sound(s),
    ensures
        kept(s, call.step(s)),
{
    reveal(LimitCall::refusal);
    reveal(LimitCall::countable);
    reveal(LimitCall::effect);
    progress_of_nothing(s);
    match call {
        LimitCall::SetDailyLimit { nonce, .. } => consume_keeps(s, s.admin(), nonce),
        LimitCall::SetMinimumAmount { nonce, .. } => consume_keeps(s, s.admin(), nonce),
        LimitCall::SetMaxWithdraw { nonce, .. } => consume_keeps(s, s.admin(), nonce),
        _ => {},
    }
}

/// Replacing the code keeps the books sound.
pub proof fn upgrade_calls_keep(s: BridgeState, call: UpgradeCall)
    requires
        sound(s),
    ensures
        kept(s, call.step(s)),
{
    reveal(UpgradeCall::refusal);
    reveal(UpgradeCall::countable);
    reveal(UpgradeCall::effect);
    progress_of_nothing(s);
    match call {
        UpgradeCall::Upgrade { nonce, .. } => consume_keeps(s, s.admin(), nonce),
        UpgradeCall::Schedule { nonce, .. } => consume_keeps(s, s.admin(), nonce),
        UpgradeCall::Execute { nonce, .. } => consume_keeps(s, s.admin(), nonce),
        UpgradeCall::Cancel { nonce } => consume_keeps(s, s.admin(), nonce),
    }
}

/// Whether two books differ at most in what is asked of the host.
#[verifier::opaque]
pub open spec fn same_books(s: BridgeState, t: BridgeState) -> bool {
    t == (BridgeState { actions: t.actions, ..s })
}

/// Books that differ only in what is asked of the host are equally sound.
proof fn same_books_kept(s: BridgeState, t: BridgeState)
    requires
        sound(s),
        same_books(s, t),
    ensures
        kept(s, t),
{
    reveal(same_books);
    progress_of_nothing(s);
}

/// Asking for one more thing changes nothing else.
proof fn asking_changes_no_books(s: BridgeState, t: BridgeState, action: Action)
    requires
        same_books(s, t),
    ensures
        same_books(s, t.act(action)),
{
    reveal(same_books);
}

proof fn extending_changes_no_books(
    s: BridgeState,
    t: BridgeState,
    exists: bool,
    key: DataKey,
    ttl: u32,
)
    requires
        same_books(s, t),
    ensures
        same_books(s, t.extend(key, ttl)),
        same_books(s, t.extend_if(exists, key, ttl)),
{
    reveal(same_books);
}

/// Keeping the entries of an asset alive changes no books.
pub proof fn extend_persistent_keeps(s: BridgeState, asset: Address, ttl: u32)
    ensures
        same_books(s, extend_persistent_effect(s, asset, ttl)),
{
    let actual = persistent_ttl(s, ttl);
    assert(same_books(s, s)) by {
        reveal(same_books);
    }
    let t0 = s.require_auth(s.admin());
    asking_changes_no_books(s, s, Action::RequireAuth { address: s.admin() });
    let e1 = s.accrued_fees.contains_key(asset);
    extending_changes_no_books(s, t0, e1, DataKey::AccruedFees(asset), actual);
    let t1 = t0.extend_if(e1, DataKey::AccruedFees(asset), actual);
    let e2 = s.total_bridged.contains_key(asset);
    extending_changes_no_books(s, t1, e2, DataKey::TotalBridged(asset), actual);
    let t2 = t1.extend_if(e2, DataKey::TotalBridged(asset), actual);
    let e3 = s.total_fees_collected.contains_key(asset);
    extending_changes_no_books(s, t2, e3, DataKey::TotalFeesCollected(asset), actual);
    let t3 = t2.extend_if(e3, DataKey::TotalFeesCollected(asset), actual);
    let e4 = s.asset_stats.contains_key(asset);
    extending_changes_no_books(s, t3, e4, DataKey::AssetStats(asset), actual);
    let t4 = t3.extend_if(e4, DataKey::AssetStats(asset), actual);
    let e5 = s.asset_fee_cap.contains_key(asset);
    extending_changes_no_books(s, t4, e5, DataKey::AssetFeeCap(asset), actual);
    let t5 = t4.extend_if(e5, DataKey::AssetFeeCap(asset), actual);
    let event = Event::PersistentTtlExtended { admin: s.admin(), asset, ttl: actual };
    asking_changes_no_books(s, t5, Action::Publish { event });
}

/// Keeping the entries of a source alive changes no books.
pub proof fn extend_source_keeps(s: BridgeState, source: Address, asset: Address, ttl: u32)
    ensures
        same_books(s, extend_source_effect(s, source, asset, ttl)),
{
    let actual = at_most(ttl, MAX_ALLOWED_TTL);
    let pair = SourceAsset { source, asset };
    let usage = s.usage_key(source, asset);
    assert(same_books(s, s)) by {
        reveal(same_books);
    }
    let t0 = s.require_auth(s.admin());
    asking_changes_no_books(s, s, Action::RequireAuth { address: s.admin() });
    let e1 = s.source_daily_limit.contains_key(pair);
    let k1 = DataKey::SourceDailyLimit(source, asset);
    extending_changes_no_books(s, t0, e1, k1, actual);
    let t1 = t0.extend_if(e1, k1, actual);
    let e2 = s.daily_usage.contains_key(usage);
    let k2 = DataKey::DailyUsage(source, asset, usage.day);
    extending_changes_no_books(s, t1, e2, k2, actual);
    let t2 = t1.extend_if(e2, k2, actual);
    let e3 = s.user_deposit.contains_key(pair);
    let k3 = DataKey::UserDeposit(source, asset);
    extending_changes_no_books(s, t2, e3, k3, actual);
    let t3 = t2.extend_if(e3, k3, actual);
    let e4 = s.source_bridged_volume.contains_key(source);
    let k4 = DataKey::SourceBridgedVolume(source);
    extending_changes_no_books(s, t3, e4, k4, actual);
    let t4 = t3.extend_if(e4, k4, actual);
    let e5 = s.nonce.contains_key(source);
    let k5 = DataKey::Nonce(source);
    extending_changes_no_books(s, t4, e5, k5, actual);
    let t5 = t4.extend_if(e5, k5, actual);
    let e6 = s.auth_nonce.contains_key(source);
    let k6 = DataKey::AuthNonce(source);
    extending_changes_no_books(s, t5, e6, k6, actual);
    let t6 = t5.extend_if(e6, k6, actual);
    let event = Event::SourcePersistentTtlExtended { admin: s.admin(), source, asset, ttl: actual };
    asking_changes_no_books(s, t6, Action::Publish { event });
}

/// Keeping entries alive keeps the books sound.
pub proof fn upkeep_calls_keep(s: BridgeState, call: UpkeepCall)
    requires
        sound(s),
    ensures
        kept(s, call.step(s)),
{
    progress_of_nothing(s);
    match call {
        UpkeepCall::ExtendPersistent { asset, ttl } => {
            extend_persistent_keeps(s, asset, ttl);
            assert(same_books(s, call.effect(s))) by {
                reveal(UpkeepCall::effect);
            }
            same_books_kept(s, call.effect(s));
        },
        UpkeepCall::ExtendSource { source, asset, ttl } => {
            extend_source_keeps(s, source, asset, ttl);
            assert(same_books(s, call.effect(s))) by {
                reveal(UpkeepCall::effect);
            }
            same_books_kept(s, call.effect(s));
        },
        _ => entry_upkeep_keeps(s, call),
    }
}

proof fn entry_upkeep_keeps(s: BridgeState, call: UpkeepCall)
    requires
        sound(s),
        !(call is ExtendPersistent),
        !(call is ExtendSource),
    ensures
        kept(s, call.step(s)),
{
    reveal(UpkeepCall::refusal);
    reveal(UpkeepCall::effect);
    progress_of_nothing(s);
}

/// Setting rates keeps the books sound.
pub proof fn rate_calls_keep(s: BridgeState, call: RateCall)
    requires
        sound(s),
    ensures
        kept(s, call.step(s)),
{
    reveal(RateCall::refusal);
    reveal(RateCall::countable);
    reveal(RateCall::effect);
    progress_of_nothing(s);
    match call {
        RateCall::SetFeeBps { nonce, .. } => consume_keeps(s, s.admin(), nonce),
        RateCall::SetAssetFeeCap { asset, bps, nonce } => {
            consume_keeps(s, s.admin(), nonce);
            if bps <= MAX_FEE_BPS {
                assert(caps_sound(s.asset_fee_cap.insert(asset, bps))) by {
                    reveal(caps_sound);
                }
            }
        },
        RateCall::SetReferralRate { nonce, .. } => consume_keeps(s, s.admin(), nonce),
        RateCall::SetFeeTiers { tiers } => {
            if !some_tier_too_high(tiers) {
                assert forall|i: int| 0 <= i < tiers.len() implies (#[trigger] tiers[i]).fee_bps
                    <= MAX_FEE_BPS by {}
            }
        },
    }
}

/// Changing lists keeps the books sound.
pub proof fn list_calls_keep(s: BridgeState, call: ListCall)
    requires
        sound(s),
    ensures
        kept(s, call.step(s)),
{
    reveal(ListCall::refusal);
    reveal(ListCall::countable);
    reveal(ListCall::effect);
    progress_of_nothing(s);
    match call {
        ListCall::SetBlocked { nonce, .. } => consume_keeps(s, s.admin(), nonce),
        ListCall::SetAllowlisted { nonce, .. } => consume_keeps(s, s.admin(), nonce),
        ListCall::SetAllowlistMode { nonce, .. } => consume_keeps(s, s.admin(), nonce),
        ListCall::SetAssetListed { asset, nonce, .. } => {
            consume_keeps(s, s.admin(), nonce);
            whitelist_keeps(s.asset_whitelist, asset);
        },
        ListCall::SetPoolListed { pool, nonce, .. } => {
            consume_keeps(s, s.admin(), nonce);
            whitelist_keeps(s.pool_whitelist, pool);
        },
    }
}

/// Listing something, or taking it off, keeps a whitelist sound.
proof fn whitelist_keeps(list: Map<(u32, u128, u128), bool>, a: Address)
    requires
        whitelist_sound(list),
    ensures
        whitelist_sound(list.insert(key_of(a), true)),
        whitelist_sound(list.remove(key_of(a))),
{
    reveal(whitelist_sound);
}

/// Changing the relayers keeps them counted, and as many as have to sign.
pub proof fn relayer_calls_keep(s: BridgeState, call: RelayerCall)
    requires
        sound(s),
    ensures
        kept(s, call.step(s)),
{
    reveal(RelayerCall::refusal);
    reveal(RelayerCall::countable);
    reveal(RelayerCall::effect);
    progress_of_nothing(s);
    let t = call.step(s);
    assert(relayers_sound(t.relayer, t.relayer_count(), t.instance.relayer_threshold)) by {
        reveal(relayers_sound);
        if let RelayerCall::Remove { pubkey } = call {
            if s.is_relayer(pubkey) {
                assert(s.relayer.dom().contains(pubkey));
            }
        }
    }
}

/// Setting up, pausing and leaving the bridge keeps the books sound.
pub proof fn lifecycle_calls_keep(s: BridgeState, call: LifecycleCall)
    requires
        sound(s),
    ensures
        kept(s, call.step(s)),
{
    reveal(LifecycleCall::refusal);
    reveal(LifecycleCall::countable);
    reveal(LifecycleCall::effect);
    progress_of_nothing(s);
    match call {
        LifecycleCall::Initialize { admin, nonce, .. } => consume_keeps(s, admin, nonce),
        LifecycleCall::Pause { nonce } => consume_keeps(s, s.admin(), nonce),
        LifecycleCall::Unpause { nonce } => consume_keeps(s, s.admin(), nonce),
        LifecycleCall::EmergencyMigrate { .. } => {},
    }
}

/// Keys, numbers used once, and taking tokens out of the bridge keep the books
/// sound.
pub proof fn holding_calls_keep(s: BridgeState, call: HoldingCall)
    requires
        sound(s),
    ensures
        kept(s, call.step(s)),
{
    reveal(HoldingCall::refusal);
    reveal(HoldingCall::countable);
    reveal(HoldingCall::effect);
    progress_of_nothing(s);
    match call {
        HoldingCall::RegisterMetaSigner { .. } => {},
        HoldingCall::VerifyAuthEntry { source, nonce, .. } => {
            if nonce < u64::MAX {
                burn_keeps(s, source, nonce);
            }
        },
        HoldingCall::WithdrawFees { asset, amount, nonce } => {
            consume_keeps(s, s.fee_collector(), nonce);
            let c = s.counters_of(asset);
            if 0 < amount <= c.accrued_fees {
                counters_of_sound(s, asset);
                counters_keep(
                    s,
                    asset,
                    AssetCounters { accrued_fees: (c.accrued_fees - amount) as i128, ..c },
                );
            }
        },
        HoldingCall::ReclaimTokens { nonce, .. } => consume_keeps(s, s.admin(), nonce),
    }
}

/// Using up a number keeps the counter of the source above all used numbers.
proof fn burn_keeps(s: BridgeState, source: Address, nonce: u64)
    requires
        sound(s),
        nonce < u64::MAX,
    ensures
        auth_nonces_sound(
            s.burn(source, nonce).used_auth_nonce,
            s.burn(source, nonce).auth_nonce,
        ),
        marks_stay(s.used_auth_nonce, s.burn(source, nonce).used_auth_nonce),
        nonces_stay(s.auth_nonce, s.burn(source, nonce).auth_nonce),
{
    mark_keeps(s.used_auth_nonce, SourceNonce { source, nonce });
    let t = s.burn(source, nonce);
    assert(nonces_stay(s.auth_nonce, t.auth_nonce)) by {
        reveal(nonces_stay);
    }
    reveal(auth_nonces_sound);
    assert forall|k: SourceNonce| #[trigger] value_or(t.used_auth_nonce, k, false) implies k.nonce
        < value_or(t.auth_nonce, k.source, 0) by {
        if k != (SourceNonce { source, nonce }) {
            assert(value_or(s.used_auth_nonce, k, false));
        }
    }
}

/// The two halves of a swap keep the books sound.
pub proof fn swap_calls_keep(s: BridgeState, call: SwapCall)
    requires
        sound(s),
    ensures
        kept(s, call.step(s)),
{
    reveal(SwapCall::refusal);
    reveal(SwapCall::countable);
    reveal(SwapCall::effect);
    progress_of_nothing(s);
    if let SwapCall::Complete { pending, reported, .. } = call {
        if call.succeeds(s) {
            consume_keeps(s, pending.source, pending.nonce);
            charge_sound(s, pending.source, pending.target_asset, reported);
            let c = s.charge(pending.source, pending.target_asset, reported)->Ok_0;
            credit_keeps(s, pending.target_asset, c.fee as int, c.net as int, c.fee as int);
            volume_keeps(s, pending.source, pending.source_amount);
        }
    }
}

/// Later entries do not count among the first `n`.
proof fn unclaimed_ignores_later(
    entries: Map<u64, TimelockEntry>,
    id: u64,
    entry: TimelockEntry,
    asset: Address,
    n: nat,
)
    requires
        n <= id,
    ensures
        unclaimed(entries.insert(id, entry), asset, n) == unclaimed(entries, asset, n),
    decreases n,
{
    if n > 0 {
        unclaimed_ignores_later(entries, id, entry, asset, (n - 1) as nat);
    }
}

/// A claim takes the amount of its entry off the sum of its asset.
proof fn unclaimed_after_claim(
    entries: Map<u64, TimelockEntry>,
    id: u64,
    asset: Address,
    n: nat,
)
    requires
        id < n <= u64::MAX,
        entries.contains_key(id),
        !entries[id].claimed,
    ensures
        unclaimed(
            entries.insert(id, TimelockEntry { claimed: true, ..entries[id] }),
            asset,
            n,
        ) == unclaimed(entries, asset, n) - if entries[id].asset == asset {
            entries[id].amount as int
        } else {
            0
        },
    decreases n,
{
    let claimed = TimelockEntry { claimed: true, ..entries[id] };
    if n - 1 == id {
        unclaimed_ignores_later(entries, id, claimed, asset, (n - 1) as nat);
    } else {
        unclaimed_after_claim(entries, id, asset, (n - 1) as nat);
    }
}

/// An entry that has not been claimed is part of the sum of its asset, which is
/// not negative.
proof fn unclaimed_covers(entries: Map<u64, TimelockEntry>, id: u64, asset: Address, n: nat)
    requires
        n <= u64::MAX,
        forall|k: u64| #[trigger] entries.contains_key(k) ==> entries[k].amount > 0,
    ensures
        unclaimed(entries, asset, n) >= 0,
        id < n && entries.contains_key(id) && !entries[id].claimed && entries[id].asset == asset
            ==> entries[id].amount <= unclaimed(entries, asset, n),
    decreases n,
{
    if n > 0 {
        unclaimed_covers(entries, id, asset, (n - 1) as nat);
        assert(entries.contains_key((n - 1) as u64) ==> entries[(n - 1) as u64].amount > 0);
    }
}

/// What a recipient may claim is locked for it: the counter of its asset is at
/// least the amount of the entry.
pub proof fn claims_are_covered(s: BridgeState, id: u64)
    requires
        sound(s),
        s.timelock.contains_key(id),
        !s.timelock[id].claimed,
    ensures
        0 < s.timelock[id].amount <= s.locked(s.timelock[id].asset),
{
    reveal(locked_sound);
    reveal(timelocks_sound);
    let asset = s.timelock[id].asset;
    unclaimed_covers(s.timelock, id, asset, s.next_timelock() as nat);
    assert(value_or(s.asset_stats, asset, no_counters()).locked_timelock == unclaimed(
        s.timelock,
        asset,
        s.next_timelock() as nat,
    ));
}

proof fn lock_keeps(
    s: BridgeState,
    source: Address,
    target: Address,
    asset: Address,
    amount: i128,
    release_time: u64,
    cliff_time: u64,
    nonce: Option<u64>,
)
    requires
        sound(s),
        amount > 0,
        s.nonce_error(source, nonce) is None,
        s.nonce_fits(source, nonce),
        s.next_timelock() < u64::MAX,
        fits(s.locked(asset) + amount),
    ensures
        kept(
            s,
            lock_effect(s, source, target, asset, amount, release_time, cliff_time, nonce),
        ),
{
    let t = lock_effect(s, source, target, asset, amount, release_time, cliff_time, nonce);
    let id = s.next_timelock();
    let entry = TimelockEntry {
        source,
        target,
        asset,
        amount,
        release_time,
        cliff_time,
        claimed: false,
    };
    let c = AssetCounters {
        locked_timelock: (s.locked(asset) + amount) as i128,
        ..s.counters_of(asset)
    };
    assert(t.timelock == s.timelock.insert(id, entry));
    assert(t.asset_stats == s.asset_stats.insert(asset, c));
    assert(t.next_timelock() == id + 1);
    progress_of_nothing(s);
    consume_keeps(s, source, nonce);
    counters_of_sound(s, asset);
    assert(totals_mirrored(
        t.asset_stats,
        t.accrued_fees,
        t.total_bridged,
        t.total_fees_collected,
    )) by {
        reveal(totals_mirrored);
    }
    assert(totals_sound(t.asset_stats)) by {
        reveal(totals_sound);
    }
    assert(totals_stay(s.asset_stats, t.asset_stats)) by {
        reveal(totals_stay);
    }
    assert(timelocks_sound(t.timelock, t.next_timelock())) by {
        reveal(timelocks_sound);
    }
    assert(timelocks_stay(s.timelock, t.timelock)) by {
        reveal(timelocks_stay);
        reveal(timelocks_sound);
    }
    assert(locked_sound(t.asset_stats, t.timelock, t.next_timelock())) by {
        reveal(locked_sound);
        assert forall|a: Address|
            value_or(t.asset_stats, a, no_counters()).locked_timelock == #[trigger] unclaimed(
                t.timelock,
                a,
                t.next_timelock() as nat,
            ) by {
            unclaimed_ignores_later(s.timelock, id, entry, a, id as nat);
            assert(value_or(s.asset_stats, a, no_counters()).locked_timelock == unclaimed(
                s.timelock,
                a,
                id as nat,
            ));
        }
    }
}

proof fn claim_keeps(s: BridgeState, id: u64)
    requires
        sound(s),
        claim_error(s, id) is None,
    ensures
        kept(s, claim_effect(s, id)),
{
    let t = claim_effect(s, id);
    let entry = s.timelock[id];
    let asset = entry.asset;
    claims_are_covered(s, id);
    fee_bounds(entry.amount as int, s.capped_bps(asset, s.config().fee_bps) as int);
    let c = s.flat_charge(asset, entry.amount)->Ok_0;
    let credited_counters = credited(
        s.counters_of(asset),
        c.fee as int,
        c.net as int,
        c.fee as int,
    )->Ok_0;
    let counters = AssetCounters {
        locked_timelock: (s.locked(asset) - entry.amount) as i128,
        ..credited_counters
    };
    assert(t.timelock == s.timelock.insert(id, TimelockEntry { claimed: true, ..entry }));
    assert(t.asset_stats == s.asset_stats.insert(asset, counters));
    progress_of_nothing(s);
    counters_of_sound(s, asset);
    assert(totals_mirrored(
        t.asset_stats,
        t.accrued_fees,
        t.total_bridged,
        t.total_fees_collected,
    )) by {
        reveal(totals_mirrored);
    }
    assert(totals_sound(t.asset_stats)) by {
        reveal(totals_sound);
    }
    assert(totals_stay(s.asset_stats, t.asset_stats)) by {
        reveal(totals_stay);
    }
    assert(timelocks_sound(t.timelock, t.next_timelock())) by {
        reveal(timelocks_sound);
    }
    assert(timelocks_stay(s.timelock, t.timelock)) by {
        reveal(timelocks_stay);
    }
    assert(locked_sound(t.asset_stats, t.timelock, t.next_timelock())) by {
        reveal(locked_sound);
        let next = s.next_timelock() as nat;
        assert(id < next) by {
            reveal(timelocks_sound);
        }
        assert forall|a: Address|
            value_or(t.asset_stats, a, no_counters()).locked_timelock == #[trigger] unclaimed(
                t.timelock,
                a,
                next,
            ) by {
            unclaimed_after_claim(s.timelock, id, a, next);
            assert(value_or(s.asset_stats, a, no_counters()).locked_timelock == unclaimed(
                s.timelock,
                a,
                next,
            ));
        }
    }
}

proof fn crosschain_keeps(
    s: BridgeState,
    chain_id: u32,
    tx_hash: Bytes32,
    target: Address,
    asset: Address,
    amount: i128,
    sigs: Seq<RelayerSig>,
    nonce: Bytes32,
    payload: Bytes32,
)
    requires
        sound(s),
        amount > 0,
        s.flat_charge(asset, amount) is Ok,
        ({
            let c = s.flat_charge(asset, amount)->Ok_0;
            credited(s.counters_of(asset), c.fee as int, c.net as int, c.fee as int) is Ok
        }),
    ensures
        kept(
            s,
            crosschain_effect(
                s,
                chain_id,
                tx_hash,
                target,
                asset,
                amount,
                sigs,
                nonce,
                payload,
            ),
        ),
{
    progress_of_nothing(s);
    fee_bounds(amount as int, s.capped_bps(asset, s.config().fee_bps) as int);
    let c = s.flat_charge(asset, amount)->Ok_0;
    credit_keeps(s, asset, c.fee as int, c.net as int, c.fee as int);
    mark_keeps(s.cross_chain_nonce, nonce);
}

proof fn commit_keeps(
    s: BridgeState,
    source: Address,
    target: Address,
    asset: Address,
    amount_hash: Bytes32,
    deadline: u64,
)
    requires
        sound(s),
        s.next_commitment() < u64::MAX,
    ensures
        kept(s, commit_effect(s, source, target, asset, amount_hash, deadline)),
{
    let t = commit_effect(s, source, target, asset, amount_hash, deadline);
    progress_of_nothing(s);
    assert(commitments_sound(t.commitment, t.next_commitment())) by {
        reveal(commitments_sound);
    }
    assert(commitments_stay(s.commitment, t.commitment)) by {
        reveal(commitments_stay);
        reveal(commitments_sound);
    }
}

/// Promising tokens for later, and what comes from elsewhere, keeps the books
/// sound.
pub proof fn deferred_calls_keep(s: BridgeState, call: DeferredCall)
    requires
        sound(s),
    ensures
        kept(s, call.step(s)),
{
    progress_of_nothing(s);
    if call.succeeds(s) {
        reveal(DeferredCall::refusal);
        reveal(DeferredCall::countable);
        reveal(DeferredCall::effect);
        match call {
            DeferredCall::Lock {
                source,
                target,
                asset,
                amount,
                release_time,
                cliff_time,
                nonce,
                deadline,
            } => lock_keeps(
                s,
                source,
                target,
                asset,
                amount,
                release_time,
                cliff_time,
                nonce,
            ),
            DeferredCall::Claim { id } => claim_keeps(s, id),
            DeferredCall::Commit { source, target, asset, amount_hash, deadline } => commit_keeps(
                s,
                source,
                target,
                asset,
                amount_hash,
                deadline,
            ),
            DeferredCall::CrossChain {
                chain_id,
                tx_hash,
                target,
                asset,
                amount,
                sigs,
                nonce,
                payload,
            } => crosschain_keeps(
                s,
                chain_id,
                tx_hash,
                target,
                asset,
                amount,
                sigs,
                nonce,
                payload->Ok_0,
            ),
        }
    }
}

/// Every call keeps the books sound, and undoes nothing that cannot be undone.
pub proof fn calls_keep_the_books(s: BridgeState, call: Call)
    requires
        sound(s),
    ensures
        kept(s, step(s, call)),
{
    match call {
        Call::Lifecycle(c) => lifecycle_calls_keep(s, c),
        Call::Funding(c) => funding_calls_keep(s, c),
        Call::Deferred(c) => deferred_calls_keep(s, c),
        Call::Swap(c) => swap_calls_keep(s, c),
        Call::Holding(c) => holding_calls_keep(s, c),
        Call::Role(c) => role_calls_keep(s, c),
        Call::Rate(c) => rate_calls_keep(s, c),
        Call::Limit(c) => limit_calls_keep(s, c),
        Call::List(c) => list_calls_keep(s, c),
        Call::Relayer(c) => relayer_calls_keep(s, c),
        Call::Upgrade(c) => upgrade_calls_keep(s, c),
        Call::Upkeep(c) => upkeep_calls_keep(s, c),
    }
}

/// The books of every bridge are sound, whatever calls it has seen.
pub proof fn every_history_is_sound(start: Ledger, calls: Seq<(Ledger, Call)>)
    ensures
        sound(history(start, calls)),
    decreases calls.len(),
{
    if calls.len() == 0 {
        empty_books_are_sound(start);
    } else {
        let before = history(start, calls.drop_last());
        every_history_is_sound(start, calls.drop_last());
        let (ledger, call) = calls.last();
        assert(sound(next_ledger(before, ledger)));
        calls_keep_the_books(next_ledger(before, ledger), call);
    }
}

/// What a bridge has done it never undoes: a later history has all that an
/// earlier one has.
pub proof fn histories_only_grow(start: Ledger, calls: Seq<(Ledger, Call)>, n: nat)
    requires
        n <= calls.len(),
    ensures
        progress(history(start, calls.take(n as int)), history(start, calls)),
    decreases calls.len() - n,
{
    if n == calls.len() {
        assert(calls.take(n as int) =~= calls);
        progress_of_nothing(history(start, calls));
    } else {
        let shorter = calls.drop_last();
        histories_only_grow(start, shorter, n);
        assert(shorter.take(n as int) =~= calls.take(n as int));
        every_history_is_sound(start, shorter);
        let before = history(start, shorter);
        let (ledger, call) = calls.last();
        let ready = next_ledger(before, ledger);
        assert(sound(ready));
        progress_of_nothing(before);
        assert(progress(before, ready));
        calls_keep_the_books(ready, call);
        progress_adds_up(before, ready, step(ready, call));
        progress_adds_up(history(start, calls.take(n as int)), before, step(ready, call));
    }
}

proof fn empty_books_are_sound(ledger: Ledger)
    ensures
        sound(empty_state(ledger)),
{
    reveal(totals_mirrored);
    reveal(totals_sound);
    reveal(timelocks_sound);
    reveal(locked_sound);
    reveal(commitments_sound);
    reveal(relayers_sound);
    reveal(auth_nonces_sound);
    reveal(caps_sound);
    reveal(volumes_sound);
    reveal(whitelist_sound);
}

} // verus!
