//! What users of the bridge may rely on.
use vstd::prelude::*;

use crate::actions::{Action, Event};
use crate::batch::{
    batch_effect, batch_error, batch_tally, delivered_to, once_each, paid_to, payout_sum, sum,
    tally_pays_each_target_once,
};
use crate::books::loyalty_settlement;
use crate::bytes::{Bytes32, Signature};
use crate::calls::{history, refusal, Call, DeferredCall, FundingCall, SwapCall};
use crate::commit_reveal::{commit_effect, matures_at, reveal_error};
use crate::crosschain::{crosschain_error, signed_before, signers_error};
use crate::errors::BridgeError;
use crate::export::{entry, everything_is_exported, export, finite_books, stored_at};
use crate::fees::{charge_at, fee_bounds, fee_on, find_tier_is_first, rates_are_capped, Charge};
use crate::funding::{fund_effect, fund_error};
use crate::host::{address_of, key_of};
use crate::invariants::{
    batch_is_balanced, commitments_sound, every_history_is_sound, relayers_sound, sound,
    timelocks_sound, ttls_sound,
};
use crate::lifecycle::migrate_effect;
use crate::lists::{
    addresses, allowlist_effect, asset_list_effect, blocklist_effect, listed, listing,
    listing_holds, map_order, page, pages, pool_list_effect, smaller,
};
use crate::meta_tx::{meta_fund_effect, meta_fund_error, register_effect};
use crate::relayers::{relayer_keys, relayers_counted};
use crate::safe_math::fits;
use crate::state::{lookup, BridgeState, Instance};
use crate::swap::{complete_swap_error, swap_effect, swap_error, PendingSwap};
use crate::timelock::{claim_error, lock_effect};
use crate::types::{
    Address, CommitmentEntry, DataKey, Ledger, MetaFundParams, RelayerSig, MAX_BATCH_SIZE,
    MAX_FEE_BPS, MIN_ALLOWED_TTL, UPGRADE_TIMELOCK_LEDGERS,
};
use crate::upgrade::{
    cancel_upgrade_effect, execute_upgrade_effect, execute_upgrade_error, schedule_effect,
    schedule_upgrade_error,
};

verus! {

/// What `query_effective_fee` answers is what a transfer is charged: the fee
/// accrues, and what is left is delivered and counted.
pub proof fn quoted_fee_is_charged(
    s: BridgeState,
    source: Address,
    target: Address,
    asset: Address,
    amount: i128,
    nonce: Option<u64>,
    deadline: Option<u64>,
)
    requires
        s.wf(),
        fund_error(s, source, target, asset, amount, nonce, deadline) is None,
    ensures
        ({
            let c = s.charge(source, asset, amount)->Ok_0;
            let t = fund_effect(s, source, target, asset, amount, nonce);
            &&& s.charge(source, asset, amount) is Ok
            &&& c.fee_bps == s.effective_bps(source, asset)
            &&& c.fee == (amount * c.fee_bps) / 10_000
            &&& c.fee + c.net == amount
            &&& 0 <= c.fee
            &&& 10 * c.fee <= amount
            &&& 0 < c.net
            &&& t.counters_of(asset).accrued_fees == s.counters_of(asset).accrued_fees + c.fee
            &&& t.counters_of(asset).total_fees_collected == s.counters_of(
                asset,
            ).total_fees_collected + c.fee
            &&& t.counters_of(asset).total_bridged == s.counters_of(asset).total_bridged + c.net
            &&& t.volume_of(source) == s.volume_of(source) + amount
            &&& t.deposit_of(source, asset) == s.deposit_of(source, asset) + amount
            &&& t.actions.last() == (Action::Publish {
                event: Event::CAddressFunded { asset, source, target, amount, fee: c.fee },
            })
        }),
{
    rates_are_capped(s, source, asset);
    fee_bounds(amount as int, s.effective_bps(source, asset) as int);
}

/// The rate that is charged is the one of the first tier that covers the volume
/// of the source, or the global one, and never more than the cap of the asset.
pub proof fn charged_rate(s: BridgeState, source: Address, asset: Address)
    requires
        s.wf(),
    ensures
        s.effective_bps(source, asset) <= s.fee_cap_of(asset),
        s.effective_bps(source, asset) <= MAX_FEE_BPS,
        s.tier_of(source) is None ==> s.effective_bps(source, asset) <= s.config().fee_bps,
        s.tier_of(source) matches Some(tier) ==> s.effective_bps(source, asset) <= tier.fee_bps
            && tier.covers(s.volume_of(source)),
        s.tier_of(source) is None && s.config().fee_bps <= s.fee_cap_of(asset)
            ==> s.effective_bps(source, asset) == s.config().fee_bps,
{
    rates_are_capped(s, source, asset);
    if let Some(tiers) = s.fee_tiers {
        find_tier_is_first(tiers, s.volume_of(source));
    }
}

/// At a rate of zero nothing is charged.
pub proof fn no_rate_no_fee(amount: i128)
    ensures
        charge_at(amount, 0) == Ok::<Charge, BridgeError>(
            Charge { fee_bps: 0, fee: 0, net: amount },
        ),
{
    assert(amount * 0 == 0);
}

/// A higher amount is never charged less, nor does it deliver less.
pub proof fn fees_are_monotonic(a: int, b: int, bps: int)
    requires
        a <= b,
        0 <= bps <= MAX_FEE_BPS,
    ensures
        fee_on(a, bps) <= fee_on(b, bps),
        a - fee_on(a, bps) <= b - fee_on(b, bps),
{
    assert(a * bps <= b * bps) by (nonlinear_arith)
        requires
            a <= b,
            0 <= bps,
    ;
    assert(b * bps - a * bps <= (b - a) * 10_000) by (nonlinear_arith)
        requires
            a <= b,
            0 <= bps <= 1_000,
    ;
}

/// A batch that is carried out pays every target at most once, just what its
/// entries deliver, and pays nothing to a target that may not receive funds. What
/// it takes from the source is what it pays, keeps as fees and returns.
pub proof fn batches_deliver(
    s: BridgeState,
    source: Address,
    targets: Seq<Address>,
    amounts: Seq<i128>,
    asset: Address,
    nonce: Option<u64>,
    deadline: Option<u64>,
    to: Address,
)
    requires
        s.wf(),
        batch_error(s, source, targets, amounts, asset, nonce, deadline) is None,
        targets.len() > 0,
    ensures
        ({
            let t = batch_tally(s, source, targets, amounts, asset);
            let bps = s.effective_bps(source, asset);
            &&& once_each(t.payouts)
            &&& paid_to(t.payouts, to) == delivered_to(
                s,
                bps,
                targets,
                amounts,
                to,
                targets.len(),
            )
            &&& s.access_error(to) is Some ==> paid_to(t.payouts, to) == 0
            &&& sum(amounts) == payout_sum(t.payouts) + t.fees + t.refund
            &&& t.num_success + t.num_failures == targets.len()
        }),
{
    batch_is_balanced(s, source, targets, amounts, asset, nonce);
    rates_are_capped(s, source, asset);
    assert forall|i: int| 0 <= i < amounts.len() implies (#[trigger] amounts[i]) > 0 by {
        assert(s.amount_error(amounts[i]) is None);
    }
    assert(amounts.take(amounts.len() as int) =~= amounts);
    tally_pays_each_target_once(
        s,
        source,
        asset,
        s.effective_bps(source, asset),
        targets,
        amounts,
        targets.len(),
        to,
    );
    if s.access_error(to) is Some {
        denied_targets_get_nothing(
            s,
            s.effective_bps(source, asset),
            targets,
            amounts,
            to,
            targets.len(),
        );
    }
}

proof fn denied_targets_get_nothing(
    s: BridgeState,
    bps: u32,
    targets: Seq<Address>,
    amounts: Seq<i128>,
    to: Address,
    n: nat,
)
    requires
        s.access_error(to) is Some,
    ensures
        delivered_to(s, bps, targets, amounts, to, n) == 0,
    decreases n,
{
    if n > 0 {
        denied_targets_get_nothing(s, bps, targets, amounts, to, (n - 1) as nat);
    }
}

/// A batch without entries does nothing, whatever the asset.
pub proof fn empty_batch_does_nothing(
    s: BridgeState,
    source: Address,
    asset: Address,
    nonce: Option<u64>,
)
    requires
        s.running_error() is None,
    ensures
        batch_error(
            s,
            source,
            Seq::<Address>::empty(),
            Seq::<i128>::empty(),
            asset,
            nonce,
            None,
        ) is None,
        batch_effect(s, source, Seq::<Address>::empty(), Seq::<i128>::empty(), asset, nonce) == s,
{
}

/// A blocked address is refused, allowlisted or not; in allowlist mode an address
/// that is not allowlisted is refused; any other address is not.
pub proof fn who_may_receive(s: BridgeState, target: Address)
    ensures
        s.is_blocked(target) ==> s.access_error(target) == Some(BridgeError::AddressBlocked),
        !s.is_blocked(target) && s.config().allowlist_mode && !s.is_allowlisted(target)
            ==> s.access_error(target) == Some(BridgeError::AddressNotAllowlisted),
        !s.is_blocked(target) && (!s.config().allowlist_mode || s.is_allowlisted(target))
            ==> s.access_error(target) is None,
{
}

/// The asset that a call delivers or undertakes to deliver, if it funds anyone.
pub open spec fn funded_asset(call: Call) -> Option<Address> {
    match call {
        Call::Funding(FundingCall::Fund { asset, .. }) => Some(asset),
        Call::Funding(FundingCall::FundWithReferral { asset, .. }) => Some(asset),
        Call::Funding(FundingCall::BatchFund { asset, targets, .. }) => if targets.len() > 0 {
            Some(asset)
        } else {
            None
        },
        Call::Funding(FundingCall::MetaFund { params, .. }) => Some(params.asset),
        Call::Funding(FundingCall::Reveal { asset, .. }) => Some(asset),
        Call::Deferred(DeferredCall::Lock { asset, .. }) => Some(asset),
        Call::Deferred(DeferredCall::Commit { asset, .. }) => Some(asset),
        Call::Deferred(DeferredCall::CrossChain { asset, .. }) => Some(asset),
        Call::Swap(SwapCall::Begin { pending, .. }) => Some(pending.target_asset),
        _ => None,
    }
}

/// The one target of a call that funds someone. A batch has many, and skips those
/// that may not receive funds.
pub open spec fn funded_target(call: Call) -> Option<Address> {
    match call {
        Call::Funding(FundingCall::Fund { target, .. }) => Some(target),
        Call::Funding(FundingCall::FundWithReferral { target, .. }) => Some(target),
        Call::Funding(FundingCall::MetaFund { params, .. }) => Some(params.target),
        Call::Funding(FundingCall::Reveal { target, .. }) => Some(target),
        Call::Deferred(DeferredCall::Lock { target, .. }) => Some(target),
        Call::Deferred(DeferredCall::Commit { target, .. }) => Some(target),
        Call::Deferred(DeferredCall::CrossChain { target, .. }) => Some(target),
        Call::Swap(SwapCall::Begin { pending, .. }) => Some(pending.target),
        _ => None,
    }
}

/// No call funds anyone with an asset that is not on the whitelist, nor an address
/// that may not receive funds, however long ago either was taken off its list.
pub proof fn funding_respects_the_lists(s: BridgeState, call: Call)
    requires
        refusal(s, call) is None,
    ensures
        funded_asset(call) matches Some(asset) ==> s.asset_is_listed(asset),
        funded_target(call) matches Some(target) ==> s.access_error(target) is None,
{
    match call {
        Call::Funding(_) => {
            reveal(FundingCall::refusal);
        },
        Call::Deferred(_) => {
            reveal(DeferredCall::refusal);
        },
        Call::Swap(_) => {
            reveal(SwapCall::refusal);
        },
        _ => {},
    }
}

/// A migration with its data publishes all that the bridge has stored: each entry
/// with its name and value, each whitelisted asset and pool, and each fee tier.
pub proof fn a_migration_publishes_everything(
    s: BridgeState,
    new_contract: Address,
    key: DataKey,
    asset: Address,
    pool: Address,
    position: int,
)
    requires
        finite_books(s),
    ensures
        ({
            let t = migrate_effect(s, new_contract, true);
            &&& stored_at(t, key) matches Some(value) ==> t.actions.contains(entry(key, value))
            &&& t.asset_is_listed(asset) ==> t.actions.contains(
                Action::Publish { event: Event::MigratedAsset { asset } },
            )
            &&& t.pool_is_listed(pool) ==> t.actions.contains(
                Action::Publish { event: Event::MigratedPool { pool } },
            )
            &&& t.fee_tiers matches Some(tiers) ==> (0 <= position < tiers.len()
                ==> t.actions.contains(
                Action::Publish { event: Event::MigratedTier { tier: tiers[position] } },
            ))
        }),
{
    let left = s.admin_call(None).with_paused(true);
    let gone = left.with_instance(Instance { deactivated: true, ..left.instance }).publish(
        Event::EmergencyMigrated { admin: s.admin(), new_contract },
    );
    let t = migrate_effect(s, new_contract, true);
    assert(finite_books(gone));
    everything_is_exported(gone, key, asset, pool, position);
    assert(stored_at(t, key) == stored_at(gone, key));
    assert forall|x: Action| #[trigger] export(gone).contains(x) implies t.actions.contains(x) by {
        let i = choose|i: int| 0 <= i < export(gone).len() && export(gone)[i] == x;
        assert(t.actions[gone.actions.len() + i] == x);
    }
}

/// Putting an address or an asset on a list, and taking it off, does just that.
pub proof fn lists_hold_what_was_put(
    s: BridgeState,
    a: Address,
    other: Address,
    nonce: Option<u64>,
)
    requires
        a != other,
    ensures
        blocklist_effect(s, a, true, nonce).is_blocked(a),
        !blocklist_effect(s, a, false, nonce).is_blocked(a),
        blocklist_effect(s, a, true, nonce).is_blocked(other) == s.is_blocked(other),
        allowlist_effect(s, a, true, nonce).is_allowlisted(a),
        !allowlist_effect(s, a, false, nonce).is_allowlisted(a),
        allowlist_effect(s, a, true, nonce).is_allowlisted(other) == s.is_allowlisted(other),
        asset_list_effect(s, a, true, nonce).asset_is_listed(a),
        !asset_list_effect(s, a, false, nonce).asset_is_listed(a),
        asset_list_effect(s, a, true, nonce).asset_is_listed(other) == s.asset_is_listed(other),
        pool_list_effect(s, a, true, nonce).pool_is_listed(a),
        !pool_list_effect(s, a, false, nonce).pool_is_listed(a),
        pool_list_effect(s, a, true, nonce).pool_is_listed(other) == s.pool_is_listed(other),
{
}

/// Listing an asset or a pool a second time leaves the list as it is.
pub proof fn listing_twice_is_listing_once(
    s: BridgeState,
    a: Address,
    n1: Option<u64>,
    n2: Option<u64>,
)
    ensures
        ({
            let once = asset_list_effect(s, a, true, n1);
            asset_list_effect(once, a, true, n2).asset_whitelist == once.asset_whitelist
        }),
        ({
            let once = pool_list_effect(s, a, true, n1);
            pool_list_effect(once, a, true, n2).pool_whitelist == once.pool_whitelist
        }),
{
    let once = asset_list_effect(s, a, true, n1);
    assert(asset_list_effect(once, a, true, n2).asset_whitelist =~= once.asset_whitelist);
    let pool = pool_list_effect(s, a, true, n1);
    assert(pool_list_effect(pool, a, true, n2).pool_whitelist =~= pool.pool_whitelist);
}

/// Taking an asset off the whitelist keeps its totals.
pub proof fn delisting_keeps_totals(s: BridgeState, asset: Address, nonce: Option<u64>)
    ensures
        asset_list_effect(s, asset, false, nonce).asset_stats == s.asset_stats,
{
}

/// The pages of a list, one after the other, are the list: a page goes on where
/// the one before it ended, and beyond the end of the list there is nothing.
pub proof fn pages_follow_each_other<T>(list: Seq<T>, offset: u32, limit: u32, next: u32)
    requires
        limit <= MAX_BATCH_SIZE,
        offset + limit <= u32::MAX,
        offset <= list.len(),
    ensures
        page(list, offset, limit).len() <= MAX_BATCH_SIZE,
        list.take(offset as int) + page(list, offset, limit) == list.take(
            if offset + limit <= list.len() {
                offset + limit
            } else {
                list.len() as int
            },
        ),
        next >= list.len() ==> page(list, next, limit).len() == 0,
{
    let end = if offset + limit <= list.len() {
        offset + limit
    } else {
        list.len() as int
    };
    assert(list.take(offset as int) + page(list, offset, limit) =~= list.take(end));
}

/// The first pages of a list are its beginning.
proof fn pages_are_a_beginning<T>(list: Seq<T>, size: u32, count: nat)
    requires
        1 <= size <= MAX_BATCH_SIZE,
        (count - 1) * size <= u32::MAX,
    ensures
        pages(list, size, count) == list.take(smaller(count * size, list.len() as int)),
    decreases count,
{
    if count == 0 {
        assert(0 * size == 0);
        assert(pages(list, size, count) =~= list.take(0));
    } else {
        let before = (count - 1) as nat;
        assert(before * size + size == count * size) by (nonlinear_arith)
            requires
                before == count - 1,
        ;
        assert((before - 1) * size <= before * size && 0 <= before * size) by (nonlinear_arith)
            requires
                before >= 0,
                size >= 0,
        ;
        pages_are_a_beginning(list, size, before);
        let offset = (before * size) as u32;
        assert(offset == before * size);
        assert(pages(list, size, count) =~= list.take(
            smaller(count * size, list.len() as int),
        ));
    }
}

/// A page of the whitelist has as many entries as are left, up to the limit and the
/// maximum. The pages taken one after the other list every whitelisted asset
/// exactly once and nothing else, and beyond the end of the list they are empty.
pub proof fn pages_list_every_asset(
    s: BridgeState,
    offset: u32,
    limit: u32,
    size: u32,
    count: nat,
)
    requires
        s.asset_whitelist.dom().finite(),
        1 <= size <= MAX_BATCH_SIZE,
        (count - 1) * size <= u32::MAX,
        count * size >= listing(s.asset_whitelist).len(),
    ensures
        ({
            let all = addresses(listing(s.asset_whitelist));
            let n = all.len() as int;
            let left = n - smaller(offset as int, n);
            let run = pages(all, size, count);
            &&& page(all, offset, limit).len() == smaller(
                smaller(limit as int, MAX_BATCH_SIZE as int),
                left,
            )
            &&& offset >= n ==> page(all, offset, limit).len() == 0
            &&& run == all
            &&& run.no_duplicates()
            &&& forall|a: Address| #[trigger] run.contains(a) <==> s.asset_is_listed(a)
        }),
{
    let m = s.asset_whitelist;
    let keys = listing(m);
    let all = addresses(keys);
    let before = map_order();
    listing_holds(m);
    pages_are_a_beginning(all, size, count);
    assert(all.take(all.len() as int) =~= all);
    assert forall|i: int| 0 <= i < keys.len() implies listed(m).contains(#[trigger] keys[i]) by {
        assert(keys.contains(keys[i]));
    }
    assert forall|i: int, j: int| 0 <= i < j < all.len() implies all[i] != all[j] by {
        assert(before(keys[i], keys[j]));
        assert(key_of(address_of(keys[i])) == keys[i]);
        assert(key_of(address_of(keys[j])) == keys[j]);
    }
    assert forall|a: Address| #[trigger] all.contains(a) <==> s.asset_is_listed(a) by {
        if all.contains(a) {
            let i = choose|i: int| 0 <= i < all.len() && all[i] == a;
            assert(listed(m).contains(keys[i]));
            assert(key_of(a) == keys[i]);
        }
        if s.asset_is_listed(a) {
            assert(listed(m).contains(key_of(a)));
            assert(keys.contains(key_of(a)));
            let i = choose|i: int| 0 <= i < keys.len() && keys[i] == key_of(a);
            assert(all[i] == a);
        }
    }
}

/// In every history the counter of the relayers says how many there are.
pub proof fn relayers_are_counted(start: Ledger, calls: Seq<(Ledger, Call)>)
    ensures
        relayers_counted(history(start, calls)),
{
    every_history_is_sound(start, calls);
    reveal(relayers_sound);
    let s = history(start, calls);
    assert(relayer_keys(s) =~= s.relayer.dom());
}

/// A reward is paid out only from what the bridge holds of the token.
pub proof fn rewards_never_overdraw(
    contract: Address,
    token: Address,
    recipient: Address,
    amount: i128,
    reserve: i128,
)
    ensures
        match loyalty_settlement(contract, token, recipient, amount, reserve) {
            Action::Transfer { asset, from, to, amount: paid } => asset == token && from == contract
                && to == recipient && paid == amount && amount <= reserve,
            Action::Publish { event } => reserve < amount && event == (Event::LoyaltyMintSkipped {
                recipient,
                amount,
                reserve,
            }),
            _ => false,
        },
{
}

/// There is one scheduled upgrade at a time: while there is one, another cannot be
/// scheduled. It is executed with its hash and no other, not before its timelock
/// has elapsed and from then on; after that, or once it is cancelled, there is none
/// and another can be scheduled.
pub proof fn scheduled_upgrade_waits(
    s: BridgeState,
    hash: Bytes32,
    other: Bytes32,
    nonce: Option<u64>,
    later: BridgeState,
)
    requires
        schedule_upgrade_error(s, nonce) is None,
        later.instance == schedule_effect(s, hash, nonce).instance,
        other != hash,
        s.ledger.sequence + UPGRADE_TIMELOCK_LEDGERS <= u32::MAX,
    ensures
        schedule_upgrade_error(later, None) == Some(BridgeError::Unauthorized),
        schedule_upgrade_error(execute_upgrade_effect(later, hash, None), None) is None,
        schedule_upgrade_error(cancel_upgrade_effect(later, None), None) is None,
        execute_upgrade_error(later, other, None) == Some(BridgeError::UpgradeHashMismatch),
        later.ledger.sequence < s.ledger.sequence + UPGRADE_TIMELOCK_LEDGERS
            ==> execute_upgrade_error(later, hash, None) == Some(
            BridgeError::UpgradeTimelockActive,
        ),
        later.ledger.sequence >= s.ledger.sequence + UPGRADE_TIMELOCK_LEDGERS
            ==> execute_upgrade_error(later, hash, None) is None,
        execute_upgrade_error(execute_upgrade_effect(later, hash, None), hash, None) == Some(
            BridgeError::UpgradeNotScheduled,
        ),
        execute_upgrade_error(cancel_upgrade_effect(later, None), hash, None) == Some(
            BridgeError::UpgradeNotScheduled,
        ),
{
}

/// Whoever signs a cross-chain transfer that is carried out is a registered
/// relayer, no relayer counts twice, and there are as many as the threshold asks.
pub proof fn crosschain_needs_the_threshold(
    s: BridgeState,
    target: Address,
    asset: Address,
    amount: i128,
    sigs: Seq<RelayerSig>,
    nonce: Bytes32,
    payload: Result<Bytes32, BridgeError>,
)
    requires
        crosschain_error(s, target, asset, amount, sigs, nonce, payload) is None,
    ensures
        sigs.len() >= s.relayer_threshold(),
        forall|i: int| 0 <= i < sigs.len() ==> s.is_relayer((#[trigger] sigs[i]).pubkey),
        forall|i: int, j: int|
            0 <= i < j < sigs.len() ==> (#[trigger] sigs[i]).pubkey != (#[trigger] sigs[j]).pubkey,
{
    signers_are_distinct_relayers(s, sigs, sigs.len());
}

proof fn signers_are_distinct_relayers(s: BridgeState, sigs: Seq<RelayerSig>, n: nat)
    requires
        n <= sigs.len(),
        signers_error(s, sigs, n) is None,
    ensures
        forall|i: int| 0 <= i < n ==> s.is_relayer((#[trigger] sigs[i]).pubkey),
        forall|i: int, j: int|
            0 <= i < j < n ==> (#[trigger] sigs[i]).pubkey != (#[trigger] sigs[j]).pubkey,
    decreases n,
{
    if n > 0 {
        signers_are_distinct_relayers(s, sigs, (n - 1) as nat);
        assert forall|i: int, j: int| 0 <= i < j < n implies (#[trigger] sigs[i]).pubkey != (
        #[trigger] sigs[j]).pubkey by {
            if j == n - 1 {
                assert(!signed_before(sigs, n - 1));
            }
        }
    }
}

/// A commitment is revealed only with what hashes to it, by the parties that it
/// names, after the delay and before its deadline.
pub proof fn reveals_match_their_commitment(
    s: BridgeState,
    id: u64,
    source: Address,
    target: Address,
    asset: Address,
    amount: i128,
    computed: Bytes32,
)
    requires
        reveal_error(s, id, source, target, asset, amount, computed) is None,
    ensures
        s.commitment.contains_key(id),
        s.commitment[id].amount_hash == computed,
        s.commitment[id].source == source,
        s.commitment[id].target == target,
        s.commitment[id].asset == asset,
        s.ledger.timestamp < s.commitment[id].deadline,
        s.ledger.sequence >= matures_at(s.commitment[id]),
        !s.commitment[id].revealed,
        amount > 0,
{
}

/// A commitment is stored as it was made, under an id of its own, and moves no
/// tokens.
pub proof fn commitments_are_stored(
    s: BridgeState,
    source: Address,
    target: Address,
    asset: Address,
    amount_hash: Bytes32,
    deadline: u64,
)
    requires
        sound(s),
        s.next_commitment() < u64::MAX,
    ensures
        ({
            let t = commit_effect(s, source, target, asset, amount_hash, deadline);
            let id = s.next_commitment();
            &&& !s.commitment.contains_key(id)
            &&& lookup(t.commitment, id) == Some(
                CommitmentEntry {
                    source,
                    target,
                    asset,
                    amount_hash,
                    deadline,
                    committed_at_ledger: s.ledger.sequence,
                    revealed: false,
                },
            )
            &&& t.next_commitment() == id + 1
            &&& t.asset_stats == s.asset_stats
            &&& t.actions.take(s.actions.len() as int) == s.actions
            &&& forall|i: int|
                s.actions.len() <= i < t.actions.len() ==> !((#[trigger] t.actions[i]) is Transfer)
        }),
{
    reveal(commitments_sound);
    let t = commit_effect(s, source, target, asset, amount_hash, deadline);
    assert(t.actions.take(s.actions.len() as int) =~= s.actions);
}

/// A deposit is claimed by nobody before its release, and what is deposited is
/// what is locked.
pub proof fn locks_hold_until_release(
    s: BridgeState,
    source: Address,
    target: Address,
    asset: Address,
    amount: i128,
    release_time: u64,
    cliff_time: u64,
    nonce: Option<u64>,
    later: BridgeState,
)
    requires
        sound(s),
        s.next_timelock() < u64::MAX,
        fits(s.locked(asset) + amount),
        later.timelock == lock_effect(
            s,
            source,
            target,
            asset,
            amount,
            release_time,
            cliff_time,
            nonce,
        ).timelock,
        later.ledger.timestamp < release_time,
    ensures
        !s.timelock.contains_key(s.next_timelock()),
        later.timelock.contains_key(s.next_timelock()),
        claim_error(later, s.next_timelock()) is Some,
        later.running_error() is None ==> claim_error(later, s.next_timelock()) == Some(
            BridgeError::TimelockNotMatured,
        ),
        lock_effect(
            s,
            source,
            target,
            asset,
            amount,
            release_time,
            cliff_time,
            nonce,
        ).locked(asset) == s.locked(asset) + amount,
{
    reveal(timelocks_sound);
}

/// A meta-transaction is carried out only with the key that its source has
/// registered, and the host is asked to verify the signature before anything else.
pub proof fn meta_transactions_need_the_registered_key(
    s: BridgeState,
    p: MetaFundParams,
    pubkey: Bytes32,
    signature: Signature,
    payload: Result<Bytes32, BridgeError>,
)
    requires
        meta_fund_error(s, p, pubkey, payload) is None,
    ensures
        lookup(s.meta_signer, p.source) == Some(pubkey),
        payload is Ok,
        s.ledger.timestamp <= p.deadline,
        ({
            let message = payload->Ok_0;
            let t = meta_fund_effect(s, p, pubkey, signature, message);
            &&& t.actions.len() > s.actions.len()
            &&& t.actions.take(s.actions.len() as int) == s.actions
            &&& t.actions[s.actions.len() as int] == (Action::VerifySignature {
                pubkey,
                message,
                signature,
            })
        }),
{
    let t = meta_fund_effect(s, p, pubkey, signature, payload->Ok_0);
    assert(t.actions.take(s.actions.len() as int) =~= s.actions);
}

/// A registered key is found again, and that of another source is not touched.
pub proof fn registered_keys_are_found(
    s: BridgeState,
    source: Address,
    other: Address,
    pubkey: Bytes32,
)
    requires
        source != other,
    ensures
        lookup(register_effect(s, source, pubkey).meta_signer, source) == Some(pubkey),
        lookup(register_effect(s, source, pubkey).meta_signer, other) == lookup(
            s.meta_signer,
            other,
        ),
{
}

/// A swap delivers only where the bridge has received at least what was asked for,
/// whatever the pool reports, and where the pool reports as much.
pub proof fn swaps_respect_their_minimum(
    s: BridgeState,
    p: PendingSwap,
    reported: i128,
    balance_before: i128,
    balance_after: i128,
)
    ensures
        ({
            let error = complete_swap_error(s, p, reported, balance_before, balance_after);
            let received = balance_after - balance_before;
            &&& error is None ==> reported > 0 && reported >= p.min_target_amount && received
                >= p.min_target_amount
            &&& reported <= 0 ==> error == Some(BridgeError::SwapFailed)
            &&& reported > 0 && (reported < p.min_target_amount || received < p.min_target_amount)
                ==> error == Some(BridgeError::SlippageExceeded)
        }),
{
}

/// A swap that fails leaves the books as they were before it began, but for what
/// was asked of the host, which the host undoes.
pub proof fn failed_swaps_leave_nothing(s: BridgeState, p: PendingSwap)
    requires
        !s.instance.entered,
    ensures
        ({
            let t = swap_effect(s, p).with_entered(false);
            t == (BridgeState { actions: t.actions, ..s })
        }),
{
}

/// A swap uses one pool, which the admin has whitelisted.
pub proof fn swaps_use_whitelisted_pools(
    s: BridgeState,
    source: Address,
    target: Address,
    target_asset: Address,
    source_amount: i128,
    min_target_amount: i128,
    swap_route: Seq<Address>,
    nonce: Option<u64>,
    deadline: Option<u64>,
)
    requires
        swap_error(
            s,
            source,
            target,
            target_asset,
            source_amount,
            min_target_amount,
            swap_route,
            nonce,
            deadline,
        ) is None,
    ensures
        swap_route.len() == 1,
        s.pool_is_listed(swap_route[0]),
        s.asset_is_listed(target_asset),
{
}

/// The threshold below which calls keep the instance entries alive is never zero.
pub proof fn instance_is_kept_alive(s: BridgeState)
    requires
        ttls_sound(s),
    ensures
        s.max_instance_ttl() / 4 >= MIN_ALLOWED_TTL / 4 > 0,
{
}

} // verus!
