//! What the calls move into the bridge and out of it, and what the bridge owes.
//!
//! The bridge owes accrued fees to the fee collector and locked deposits to
//! their recipients. Rewards are paid from a reserve of their own and do not
//! count here.
use vstd::prelude::*;

use crate::actions::{Action, Event};
use crate::batch::{
    batch_booked, batch_books_error, batch_effect, batch_entries_effect, batch_error, batch_tally,
    payout_sum, payout_transfers, sum, tally, Payout, Tally,
};
use crate::books::credited;
use crate::bytes::{Bytes32, Signature};
use crate::commit_reveal::{reveal_effect, reveal_error};
use crate::fees::{fee_bounds, rates_are_capped};
use crate::funding::{
    fund_effect, fund_error, referral_effect, referral_error, referral_share, share_bounds,
};
use crate::invariants::{batch_is_balanced, claims_are_covered, sound};
use crate::meta_tx::{meta_fund_effect, meta_fund_error};
use crate::safe_math::fits;
use crate::state::{option_or, BridgeState, Instance};
use crate::swap::{complete_swap_effect, complete_swap_error, swap_effect, PendingSwap};
use crate::timelock::{claim_effect, claim_error, lock_effect};
use crate::treasury::{reclaim_effect, reclaim_error, withdraw_effect, withdraw_error};
use crate::types::{
    Address, AssetCounters, CommitmentEntry, MetaFundParams, SourceNonce, TimelockEntry,
};

verus! {

/// What an action moves into the bridge, less what it moves out.
pub open spec fn flow_of(action: Action, contract: Address, asset: Address) -> int {
    match action {
        Action::Transfer { asset: moved, from, to, amount } => if moved == asset {
            (if to == contract {
                amount as int
            } else {
                0
            }) - (if from == contract {
                amount as int
            } else {
                0
            })
        } else {
            0
        },
        _ => 0,
    }
}

/// What actions move into the bridge, less what they move out.
pub open spec fn flow(actions: Seq<Action>, contract: Address, asset: Address) -> int
    decreases actions.len(),
{
    if actions.len() == 0 {
        0
    } else {
        flow(actions.drop_last(), contract, asset) + flow_of(actions.last(), contract, asset)
    }
}

impl BridgeState {
    /// What the actions that were asked for move into the bridge.
    pub open spec fn inflow(self, asset: Address) -> int {
        flow(self.actions, self.ledger.contract, asset)
    }

    /// What the bridge owes of an asset.
    pub open spec fn owed(self, asset: Address) -> int {
        self.counters_of(asset).accrued_fees + self.locked(asset)
    }
}

/// One more action adds what it moves.
proof fn flow_push(actions: Seq<Action>, a: Action, contract: Address, asset: Address)
    ensures
        flow(actions.push(a), contract, asset) == flow(actions, contract, asset) + flow_of(
            a,
            contract,
            asset,
        ),
{
    assert(actions.push(a).drop_last() =~= actions);
}

/// More actions add what they move.
proof fn flow_add(a: Seq<Action>, b: Seq<Action>, contract: Address, asset: Address)
    ensures
        flow(a + b, contract, asset) == flow(a, contract, asset) + flow(b, contract, asset),
    decreases b.len(),
{
    if b.len() == 0 {
        assert(a + b =~= a);
    } else {
        flow_add(a, b.drop_last(), contract, asset);
        assert((a + b).drop_last() =~= a + b.drop_last());
    }
}

/// Asking for something other than a transfer moves nothing.
proof fn act_flow(s: BridgeState, action: Action, asset: Address)
    ensures
        s.act(action).inflow(asset) == s.inflow(asset) + flow_of(
            action,
            s.ledger.contract,
            asset,
        ),
{
    flow_push(s.actions, action, s.ledger.contract, asset);
}

/// What the steps of a call move.
proof fn steps_flow(
    s: BridgeState,
    a: Address,
    moved: Address,
    amount: i128,
    event: Event,
    asset: Address,
)
    ensures
        s.require_auth(a).inflow(asset) == s.inflow(asset),
        s.keep_alive().inflow(asset) == s.inflow(asset),
        s.reward(a).inflow(asset) == s.inflow(asset),
        s.publish(event).inflow(asset) == s.inflow(asset),
        a != s.ledger.contract ==> s.pull(moved, a, amount).inflow(asset) == s.inflow(asset) + (
        if moved == asset {
            amount as int
        } else {
            0
        }),
        amount >= 0 ==> s.pay_out(moved, a, amount).inflow(asset) >= s.inflow(asset) - (
        if moved == asset {
            amount as int
        } else {
            0
        }),
        amount >= 0 && a != s.ledger.contract ==> s.pay_out(moved, a, amount).inflow(asset)
            == s.inflow(asset) - (if moved == asset {
            amount as int
        } else {
            0
        }),
{
    let contract = s.ledger.contract;
    act_flow(s, Action::RequireAuth { address: a }, asset);
    act_flow(
        s,
        Action::ExtendInstanceTtl {
            threshold: (s.max_instance_ttl() / 4) as u32,
            extend_to: s.max_instance_ttl(),
        },
        asset,
    );
    act_flow(s, Action::Publish { event }, asset);
    act_flow(s, Action::Transfer { asset: moved, from: a, to: contract, amount }, asset);
    act_flow(s, Action::Transfer { asset: moved, from: contract, to: a, amount }, asset);
    if let Some(token) = s.instance.loyalty_token {
        act_flow(
            s,
            Action::RewardLoyalty {
                token,
                recipient: a,
                amount: option_or(s.instance.loyalty_amount_per_fund, 0),
            },
            asset,
        );
    }
}

/// A transfer covers the fee that it makes the bridge owe, whoever the source is
/// but the bridge itself.
pub proof fn fund_covers(
    s: BridgeState,
    source: Address,
    target: Address,
    asset: Address,
    amount: i128,
    nonce: Option<u64>,
    deadline: Option<u64>,
    a: Address,
)
    requires
        s.wf(),
        fund_error(s, source, target, asset, amount, nonce, deadline) is None,
        source != s.ledger.contract,
    ensures
        ({
            let t = fund_effect(s, source, target, asset, amount, nonce);
            &&& t.inflow(a) - s.inflow(a) >= t.owed(a) - s.owed(a)
            &&& target != s.ledger.contract ==> t.inflow(a) - s.inflow(a) == t.owed(a) - s.owed(a)
        }),
{
    let c = s.charge(source, asset, amount)->Ok_0;
    rates_are_capped(s, source, asset);
    fee_bounds(amount as int, s.effective_bps(source, asset) as int);
    let event = Event::CAddressFunded {
        asset,
        source,
        target,
        amount,
        fee: c.fee,
    };
    let s0 = s.book(source, asset, amount, c.fee, c).count_usage(source, asset, amount).consume(
        source,
        nonce,
    );
    assert(s0.actions == s.actions);
    let s1 = s0.require_auth(source);
    let s2 = s1.keep_alive();
    let s3 = s2.pull(asset, source, amount);
    let s4 = s3.pay_out(asset, target, c.net);
    let s5 = s4.reward(source);
    steps_flow(s0, source, asset, amount, event, a);
    steps_flow(s1, source, asset, amount, event, a);
    steps_flow(s2, source, asset, amount, event, a);
    steps_flow(s3, target, asset, c.net, event, a);
    steps_flow(s4, source, asset, amount, event, a);
    steps_flow(s5, source, asset, amount, event, a);
    assert(s5.publish(event).asset_stats == s0.asset_stats);
}

/// A signed transfer covers the fee that it makes the bridge owe.
pub proof fn meta_fund_covers(
    s: BridgeState,
    p: MetaFundParams,
    pubkey: Bytes32,
    signature: Signature,
    payload: Bytes32,
    a: Address,
)
    requires
        s.wf(),
        meta_fund_error(s, p, pubkey, Ok(payload)) is None,
        p.source != s.ledger.contract,
    ensures
        ({
            let t = meta_fund_effect(s, p, pubkey, signature, payload);
            &&& t.inflow(a) - s.inflow(a) >= t.owed(a) - s.owed(a)
            &&& p.target != s.ledger.contract ==> t.inflow(a) - s.inflow(a) == t.owed(a) - s.owed(
                a,
            )
        }),
{
    let c = s.charge(p.source, p.asset, p.amount)->Ok_0;
    rates_are_capped(s, p.source, p.asset);
    fee_bounds(p.amount as int, s.effective_bps(p.source, p.asset) as int);
    let event = Event::MetaFundExecuted {
        asset: p.asset,
        source: p.source,
        target: p.target,
        amount: p.amount,
        fee: c.fee,
        nonce: p.nonce,
    };
    let booked = s.book(p.source, p.asset, p.amount, c.fee, c).count_usage(
        p.source,
        p.asset,
        p.amount,
    );
    let s0 = BridgeState {
        meta_tx_nonce: booked.meta_tx_nonce.insert(
            SourceNonce { source: p.source, nonce: p.nonce },
            true,
        ),
        ..booked
    };
    assert(s0.actions == s.actions);
    let verify = Action::VerifySignature { pubkey, message: payload, signature };
    let s1 = s0.act(verify);
    let s2 = s1.pull(p.asset, p.source, p.amount);
    let s3 = s2.pay_out(p.asset, p.target, c.net);
    let s4 = s3.keep_alive();
    let s5 = s4.reward(p.source);
    act_flow(s0, verify, a);
    steps_flow(s1, p.source, p.asset, p.amount, event, a);
    steps_flow(s2, p.target, p.asset, c.net, event, a);
    steps_flow(s3, p.source, p.asset, p.amount, event, a);
    steps_flow(s4, p.source, p.asset, p.amount, event, a);
    steps_flow(s5, p.source, p.asset, p.amount, event, a);
    assert(s5.publish(event).asset_stats == s0.asset_stats);
}

/// A revealed transfer covers the fee that it makes the bridge owe.
pub proof fn reveal_covers(
    s: BridgeState,
    id: u64,
    source: Address,
    target: Address,
    asset: Address,
    amount: i128,
    computed: Bytes32,
    a: Address,
)
    requires
        s.wf(),
        reveal_error(s, id, source, target, asset, amount, computed) is None,
        source != s.ledger.contract,
    ensures
        ({
            let t = reveal_effect(s, id, source, target, asset, amount);
            &&& t.inflow(a) - s.inflow(a) >= t.owed(a) - s.owed(a)
            &&& target != s.ledger.contract ==> t.inflow(a) - s.inflow(a) == t.owed(a) - s.owed(a)
        }),
{
    let c = s.charge(source, asset, amount)->Ok_0;
    rates_are_capped(s, source, asset);
    fee_bounds(amount as int, s.effective_bps(source, asset) as int);
    let event = Event::CommitRevealFunded {
        asset,
        source,
        target,
        commitment_id: id,
        amount,
        fee: c.fee,
    };
    let s0 = BridgeState {
        commitment: s.commitment.insert(
            id,
            CommitmentEntry { revealed: true, ..s.commitment[id] },
        ),
        ..s
    }.with_volume(source, (s.volume_of(source) + amount) as i128).with_counters(
        asset,
        credited(s.counters_of(asset), c.fee as int, c.net as int, c.fee as int)->Ok_0,
    );
    assert(s0.actions == s.actions);
    let s1 = s0.require_auth(source);
    let s2 = s1.pull(asset, source, amount);
    let s3 = s2.pay_out(asset, target, c.net);
    let s4 = s3.keep_alive();
    let s5 = s4.reward(source);
    steps_flow(s0, source, asset, amount, event, a);
    steps_flow(s1, source, asset, amount, event, a);
    steps_flow(s2, target, asset, c.net, event, a);
    steps_flow(s3, source, asset, amount, event, a);
    steps_flow(s4, source, asset, amount, event, a);
    steps_flow(s5, source, asset, amount, event, a);
    assert(s5.publish(event).asset_stats == s0.asset_stats);
}

/// A transfer with a referrer covers the part of the fee that the bridge keeps:
/// the fee is what the referrer gets and what accrues.
pub proof fn referral_covers(
    s: BridgeState,
    source: Address,
    target: Address,
    asset: Address,
    amount: i128,
    referrer: Option<Address>,
    a: Address,
)
    requires
        s.wf(),
        referral_error(s, source, target, asset, amount, referrer) is None,
        source != s.ledger.contract,
    ensures
        ({
            let t = referral_effect(s, source, target, asset, amount, referrer);
            let c = s.charge(source, asset, amount)->Ok_0;
            let share = referral_share(s, c.fee, referrer);
            &&& t.inflow(a) - s.inflow(a) >= t.owed(a) - s.owed(a)
            &&& t.counters_of(asset).accrued_fees - s.counters_of(asset).accrued_fees + share
                == c.fee
            &&& t.counters_of(asset).total_fees_collected - s.counters_of(
                asset,
            ).total_fees_collected == c.fee
        }),
{
    let c = s.charge(source, asset, amount)->Ok_0;
    rates_are_capped(s, source, asset);
    fee_bounds(amount as int, s.effective_bps(source, asset) as int);
    share_bounds(s, c.fee, referrer);
    let share = referral_share(s, c.fee, referrer);
    let event = Event::CAddressFunded { asset, source, target, amount, fee: c.fee };
    let s0 = s.book(source, asset, amount, (c.fee - share) as i128, c).count_usage(
        source,
        asset,
        amount,
    );
    assert(s0.actions == s.actions);
    let s1 = s0.require_auth(source);
    let s2 = s1.keep_alive();
    let s3 = s2.pull(asset, source, amount);
    let s4 = s3.pay_out(asset, target, c.net);
    steps_flow(s0, source, asset, amount, event, a);
    steps_flow(s1, source, asset, amount, event, a);
    steps_flow(s2, source, asset, amount, event, a);
    steps_flow(s3, target, asset, c.net, event, a);
    let s5 = match referrer {
        Some(to) => if share > 0 {
            s4.pay_out(asset, to, share).publish(
                Event::ReferralPaid { source, referrer: to, amount: share, asset },
            )
        } else {
            s4
        },
        None => s4,
    };
    if let Some(to) = referrer {
        let paid = Event::ReferralPaid { source, referrer: to, amount: share, asset };
        steps_flow(s4, to, asset, share, paid, a);
        steps_flow(s4.pay_out(asset, to, share), to, asset, share, paid, a);
    }
    steps_flow(s5, source, asset, amount, event, a);
    steps_flow(s5.reward(source), source, asset, amount, event, a);
    assert(s5.reward(source).publish(event).asset_stats == s0.asset_stats);
}

/// Events move nothing.
proof fn events_flow(
    s: BridgeState,
    source: Address,
    asset: Address,
    bps: u32,
    targets: Seq<Address>,
    amounts: Seq<i128>,
    n: nat,
    contract: Address,
    a: Address,
)
    ensures
        flow(tally(s, source, asset, bps, targets, amounts, n).events, contract, a) == 0,
    decreases n,
{
    if n > 0 {
        events_flow(s, source, asset, bps, targets, amounts, (n - 1) as nat, contract, a);
        let before = tally(s, source, asset, bps, targets, amounts, (n - 1) as nat).events;
        let after = tally(s, source, asset, bps, targets, amounts, n).events;
        assert(after.drop_last() =~= before);
    }
}

/// Payouts move no more out of the bridge than their sum.
proof fn payouts_flow(asset: Address, contract: Address, payouts: Seq<Payout>, a: Address)
    requires
        forall|i: int| 0 <= i < payouts.len() ==> (#[trigger] payouts[i]).amount > 0,
    ensures
        flow(payout_transfers(asset, contract, payouts), contract, a) >= -(if a == asset {
            payout_sum(payouts)
        } else {
            0
        }),
    decreases payouts.len(),
{
    let transfers = payout_transfers(asset, contract, payouts);
    if payouts.len() > 0 {
        let rest = payouts.drop_first();
        assert forall|i: int| 0 <= i < rest.len() implies (#[trigger] rest[i]).amount > 0 by {
            assert(payouts[i + 1].amount > 0);
        }
        payouts_flow(asset, contract, rest, a);
        let head = seq![transfers[0]];
        assert(transfers =~= head + payout_transfers(asset, contract, rest));
        flow_add(head, payout_transfers(asset, contract, rest), contract, a);
        assert(head.drop_last() =~= Seq::<Action>::empty());
        assert(flow(head.drop_last(), contract, a) == 0);
        assert(payouts[0].amount > 0);
    }
}

/// More actions add what they move.
proof fn act_all_flow(s: BridgeState, more: Seq<Action>, asset: Address)
    ensures
        s.act_all(more).inflow(asset) == s.inflow(asset) + flow(more, s.ledger.contract, asset),
{
    flow_add(s.actions, more, s.ledger.contract, asset);
}

/// A batch covers the fees that it makes the bridge owe. What was taken for
/// targets that were skipped goes back to the source.
pub proof fn batch_covers(
    s: BridgeState,
    source: Address,
    targets: Seq<Address>,
    amounts: Seq<i128>,
    asset: Address,
    nonce: Option<u64>,
    deadline: Option<u64>,
    a: Address,
)
    requires
        s.wf(),
        batch_error(s, source, targets, amounts, asset, nonce, deadline) is None,
        source != s.ledger.contract,
    ensures
        ({
            let t = batch_effect(s, source, targets, amounts, asset, nonce);
            t.inflow(a) - s.inflow(a) >= t.owed(a) - s.owed(a)
        }),
{
    if targets.len() > 0 {
        batch_is_balanced(s, source, targets, amounts, asset, nonce);
        let contract = s.ledger.contract;
        let t = batch_tally(s, source, targets, amounts, asset);
        events_flow(
            s,
            source,
            asset,
            s.effective_bps(source, asset),
            targets,
            amounts,
            targets.len(),
            contract,
            a,
        );
        payouts_flow(asset, contract, t.payouts, a);
        batch_entries_cover(s, source, asset, nonce, sum(amounts) as i128, t, a);
    }
}

proof fn batch_entries_cover(
    s: BridgeState,
    source: Address,
    asset: Address,
    nonce: Option<u64>,
    total: i128,
    t: Tally,
    a: Address,
)
    requires
        batch_books_error(s, source, asset, t) is None,
        source != s.ledger.contract,
        0 <= t.fees,
        0 <= t.net,
        0 <= t.refund,
        t.gross == t.net + t.fees,
        total == t.gross + t.refund,
        flow(t.events, s.ledger.contract, a) == 0,
        flow(payout_transfers(asset, s.ledger.contract, t.payouts), s.ledger.contract, a) >= -(
        if a == asset {
            t.net
        } else {
            0
        }),
    ensures
        ({
            let after = batch_entries_effect(s, source, asset, nonce, total, t);
            after.inflow(a) - s.inflow(a) >= after.owed(a) - s.owed(a)
        }),
{
    let done = Event::BatchCompleted {
        source,
        num_success: t.num_success as u32,
        num_failures: t.num_failures as u32,
    };
    let s0 = batch_booked(s, source, asset, s.effective_bps(source, asset), t).count_usage(
        source,
        asset,
        total,
    ).consume(source, nonce);
    assert(s0.actions == s.actions);
    let s1 = s0.require_auth(source);
    let s2 = s1.keep_alive();
    let s3 = s2.pull(asset, source, total);
    let s4 = s3.act_all(t.events);
    let s5 = s4.act_all(payout_transfers(asset, s.ledger.contract, t.payouts));
    let s6 = s5.pay_out(asset, source, t.refund as i128);
    let s7 = if t.num_success > 0 {
        s6.reward(source)
    } else {
        s6
    };
    steps_flow(s0, source, asset, total, done, a);
    steps_flow(s1, source, asset, total, done, a);
    steps_flow(s2, source, asset, total, done, a);
    act_all_flow(s3, t.events, a);
    act_all_flow(s4, payout_transfers(asset, s.ledger.contract, t.payouts), a);
    steps_flow(s5, source, asset, t.refund as i128, done, a);
    steps_flow(s6, source, asset, total, done, a);
    steps_flow(s7, source, asset, total, done, a);
    assert(s7.publish(done).asset_stats == s0.asset_stats);
}

/// A deposit that is locked is taken from its source, and owed to its recipient.
pub proof fn lock_covers(
    s: BridgeState,
    source: Address,
    target: Address,
    asset: Address,
    amount: i128,
    release_time: u64,
    cliff_time: u64,
    nonce: Option<u64>,
    a: Address,
)
    requires
        source != s.ledger.contract,
        fits(s.locked(asset) + amount),
    ensures
        ({
            let t = lock_effect(
                s,
                source,
                target,
                asset,
                amount,
                release_time,
                cliff_time,
                nonce,
            );
            t.inflow(a) - s.inflow(a) == t.owed(a) - s.owed(a)
        }),
{
    let id = s.next_timelock();
    let entry = TimelockEntry {
        source,
        target,
        asset,
        amount,
        release_time,
        cliff_time,
        claimed: false,
    };
    let event = Event::TimelockCreated {
        source,
        target,
        id,
        amount,
        asset,
        release_time,
        cliff_time,
    };
    let locked = s.with_locked(asset, (s.locked(asset) + amount) as i128).consume(source, nonce);
    let s0 = BridgeState {
        instance: Instance { timelock_id: Some((id + 1) as u64), ..s.instance },
        timelock: s.timelock.insert(id, entry),
        ..locked
    };
    assert(s0.actions == s.actions);
    let s1 = s0.require_auth(source);
    let s2 = s1.keep_alive();
    let s3 = s2.pull(asset, source, amount);
    let s4 = s3.reward(source);
    steps_flow(s0, source, asset, amount, event, a);
    steps_flow(s1, source, asset, amount, event, a);
    steps_flow(s2, source, asset, amount, event, a);
    steps_flow(s3, source, asset, amount, event, a);
    steps_flow(s4, source, asset, amount, event, a);
    assert(s4.publish(event).asset_stats == s0.asset_stats);
}

/// A claim pays out no more than it takes off what the bridge owes.
pub proof fn claim_covers(s: BridgeState, id: u64, a: Address)
    requires
        sound(s),
        claim_error(s, id) is None,
    ensures
        ({
            let t = claim_effect(s, id);
            t.inflow(a) - s.inflow(a) >= t.owed(a) - s.owed(a)
        }),
{
    let entry = s.timelock[id];
    claims_are_covered(s, id);
    fee_bounds(entry.amount as int, s.capped_bps(entry.asset, s.config().fee_bps) as int);
    let c = s.flat_charge(entry.asset, entry.amount)->Ok_0;
    let counters = credited(
        s.counters_of(entry.asset),
        c.fee as int,
        c.net as int,
        c.fee as int,
    )->Ok_0;
    let event = Event::TimelockClaimed {
        target: entry.target,
        id,
        net_amount: c.net,
        fee: c.fee,
        asset: entry.asset,
    };
    let s0 = BridgeState {
        timelock: s.timelock.insert(id, TimelockEntry { claimed: true, ..entry }),
        ..s
    }.with_counters(
        entry.asset,
        AssetCounters {
            locked_timelock: (s.locked(entry.asset) - entry.amount) as i128,
            ..counters
        },
    );
    assert(s0.actions == s.actions);
    let s1 = s0.require_auth(entry.target);
    let s2 = s1.keep_alive();
    let s3 = s2.pay_out(entry.asset, entry.target, c.net);
    steps_flow(s0, entry.target, entry.asset, c.net, event, a);
    steps_flow(s1, entry.target, entry.asset, c.net, event, a);
    steps_flow(s2, entry.target, entry.asset, c.net, event, a);
    steps_flow(s3, entry.target, entry.asset, c.net, event, a);
    assert(s3.publish(event).asset_stats == s0.asset_stats);
}

/// A withdrawal takes off what is owed what it pays out.
pub proof fn withdraw_covers(
    s: BridgeState,
    asset: Address,
    amount: i128,
    nonce: Option<u64>,
    a: Address,
)
    requires
        withdraw_error(s, asset, amount, nonce) is None,
    ensures
        ({
            let t = withdraw_effect(s, asset, amount, nonce);
            &&& t.inflow(a) - s.inflow(a) >= t.owed(a) - s.owed(a)
            &&& t.counters_of(asset).accrued_fees == s.counters_of(asset).accrued_fees - amount
            &&& t.counters_of(asset).total_fees_collected == s.counters_of(
                asset,
            ).total_fees_collected
        }),
{
    let c = s.counters_of(asset);
    let to = s.fee_collector();
    let event = Event::FeesWithdrawn { fee_collector: to, amount, asset };
    let s0 = s.with_counters(
        asset,
        AssetCounters { accrued_fees: (c.accrued_fees - amount) as i128, ..c },
    ).consume(to, nonce);
    assert(s0.actions == s.actions);
    let s1 = s0.require_auth(to);
    let s2 = s1.keep_alive();
    let s3 = s2.pay_out(asset, to, amount);
    steps_flow(s0, to, asset, amount, event, a);
    steps_flow(s1, to, asset, amount, event, a);
    steps_flow(s2, to, asset, amount, event, a);
    steps_flow(s3, to, asset, amount, event, a);
    assert(s3.publish(event).asset_stats == s0.asset_stats);
}

/// After the admin has reclaimed tokens, the bridge still holds what it owes.
pub proof fn reclaim_leaves_what_is_owed(
    s: BridgeState,
    asset: Address,
    amount: i128,
    destination: Address,
    nonce: Option<u64>,
    balance: i128,
)
    requires
        reclaim_error(s, asset, amount, nonce, balance) is None,
    ensures
        ({
            let t = reclaim_effect(s, asset, amount, destination, nonce);
            &&& t.owed(asset) == s.owed(asset)
            &&& balance + t.inflow(asset) - s.inflow(asset) >= t.owed(asset)
        }),
{
    let event = Event::TokensReclaimed { admin: s.admin(), asset, amount, destination };
    let s0 = s.consume(s.admin(), nonce);
    let s1 = s0.require_auth(s.admin());
    let s2 = s1.keep_alive();
    let s3 = s2.pay_out(asset, destination, amount);
    steps_flow(s0, s.admin(), asset, amount, event, asset);
    steps_flow(s1, s.admin(), asset, amount, event, asset);
    steps_flow(s2, destination, asset, amount, event, asset);
    steps_flow(s3, destination, asset, amount, event, asset);
    assert(s3.publish(event).asset_stats == s.asset_stats);
}

/// The first half of a swap passes on to the pool what it takes from the source,
/// and makes the bridge owe nothing.
pub proof fn begin_swap_covers(s: BridgeState, p: PendingSwap, a: Address)
    requires
        p.source != s.ledger.contract,
        p.source_amount > 0,
    ensures
        ({
            let t = swap_effect(s, p);
            &&& t.owed(a) == s.owed(a)
            &&& t.inflow(a) >= s.inflow(a)
            &&& p.pool != s.ledger.contract ==> t.inflow(a) == s.inflow(a)
        }),
{
    let contract = s.ledger.contract;
    let none = Event::ContractPaused { admin: s.admin() };
    let s0 = s.with_entered(true);
    let s1 = s0.require_auth(p.source);
    let s2 = s1.keep_alive();
    let s3 = s2.pull(p.source_asset, p.source, p.source_amount);
    let push = Action::Transfer {
        asset: p.source_asset,
        from: contract,
        to: p.pool,
        amount: p.source_amount,
    };
    let invoke = Action::InvokeSwap {
        pool: p.pool,
        target_asset: p.target_asset,
        min_amount_out: p.min_target_amount,
        to: contract,
    };
    steps_flow(s0, p.source, p.source_asset, p.source_amount, none, a);
    steps_flow(s1, p.source, p.source_asset, p.source_amount, none, a);
    steps_flow(s2, p.source, p.source_asset, p.source_amount, none, a);
    act_flow(s3, push, a);
    act_flow(s3.act(push), invoke, a);
}

/// The second half of a swap pays out no more than came from the pool, less the fee
/// that it makes the bridge owe, where the pool reports no more than it gave.
pub proof fn complete_swap_covers(
    s: BridgeState,
    p: PendingSwap,
    reported: i128,
    balance_before: i128,
    balance_after: i128,
    a: Address,
)
    requires
        s.wf(),
        complete_swap_error(s, p, reported, balance_before, balance_after) is None,
        reported <= balance_after - balance_before,
    ensures
        ({
            let t = complete_swap_effect(s, p, reported);
            let received: int = if a == p.target_asset {
                balance_after - balance_before
            } else {
                0
            };
            received + t.inflow(a) - s.inflow(a) >= t.owed(a) - s.owed(a)
        }),
{
    let c = s.charge(p.source, p.target_asset, reported)->Ok_0;
    rates_are_capped(s, p.source, p.target_asset);
    fee_bounds(reported as int, s.effective_bps(p.source, p.target_asset) as int);
    let event = Event::SwapAndFunded {
        source_asset: p.source_asset,
        target_asset: p.target_asset,
        source: p.source,
        target: p.target,
        source_amount: p.source_amount,
        received_amount: reported,
        fee: c.fee,
    };
    let s0 = s.with_entered(false).consume(p.source, p.nonce).with_volume(
        p.source,
        (s.volume_of(p.source) + p.source_amount) as i128,
    ).with_counters(
        p.target_asset,
        credited(s.counters_of(p.target_asset), c.fee as int, c.net as int, c.fee as int)->Ok_0,
    );
    assert(s0.actions == s.actions);
    let s1 = s0.pay_out(p.target_asset, p.target, c.net);
    let s2 = s1.reward(p.source);
    steps_flow(s0, p.target, p.target_asset, c.net, event, a);
    steps_flow(s1, p.source, p.target_asset, c.net, event, a);
    steps_flow(s2, p.source, p.target_asset, c.net, event, a);
    assert(s2.publish(event).asset_stats == s0.asset_stats);
}

} // verus!
