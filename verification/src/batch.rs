//! Funding many addresses in one call.
//!
//! The whole sum is taken from the source at once. Targets that may not receive
//! funds are skipped, and what was meant for them goes back to the source. A
//! target that occurs more than once gets one transfer.
use vstd::prelude::*;

use crate::actions::{Action, Event};
use crate::books::credited;
use crate::errors::BridgeError;
use crate::fees::{charge_at, compute_charge, fee_bounds, rates_are_capped, Charge};
use crate::safe_math::{fits, safe_add};
use crate::state::{first, refuse_if, verdict, BridgeState, OnboardingBridge};
use crate::types::{Address, MAX_BATCH_SIZE};

verus! {

/// What one target gets in all.
#[derive(Clone, Copy, Debug, PartialEq, Eq, Structural)]
pub struct Payout {
    pub to: Address,
    pub amount: i128,
}

/// The sum of a list of amounts.
pub open spec fn sum(amounts: Seq<i128>) -> int
    decreases amounts.len(),
{
    if amounts.len() == 0 {
        0
    } else {
        sum(amounts.drop_last()) + amounts.last()
    }
}

/// The sum of what is paid out.
pub open spec fn payout_sum(payouts: Seq<Payout>) -> int
    decreases payouts.len(),
{
    if payouts.len() == 0 {
        0
    } else {
        payouts[0].amount + payout_sum(payouts.drop_first())
    }
}

/// The payouts with another amount for a target: on top of what the target gets
/// already, or at the end.
pub open spec fn add_payout(payouts: Seq<Payout>, to: Address, amount: int) -> Seq<Payout>
    decreases payouts.len(),
{
    if payouts.len() == 0 {
        seq![Payout { to, amount: amount as i128 }]
    } else if payouts[0].to == to {
        payouts.update(0, Payout { to, amount: (payouts[0].amount + amount) as i128 })
    } else {
        seq![payouts[0]] + add_payout(payouts.drop_first(), to, amount)
    }
}

/// What the entries of a batch come to.
#[verifier::ext_equal]
pub struct Tally {
    /// How many targets get funds.
    pub num_success: nat,
    /// How many are skipped.
    pub num_failures: nat,
    /// The sum of the amounts of the targets that get funds.
    pub gross: int,
    /// What they get, fees deducted.
    pub net: int,
    /// The fees.
    pub fees: int,
    /// The sum of the amounts of the skipped targets.
    pub refund: int,
    /// What each target gets.
    pub payouts: Seq<Payout>,
    /// What is published about the entries.
    pub events: Seq<Action>,
}

/// What the first `n` entries of a batch come to, at a rate of `bps`.
pub open spec fn tally(
    s: BridgeState,
    source: Address,
    asset: Address,
    bps: u32,
    targets: Seq<Address>,
    amounts: Seq<i128>,
    n: nat,
) -> Tally
    decreases n,
{
    if n == 0 {
        Tally {
            num_success: 0,
            num_failures: 0,
            gross: 0,
            net: 0,
            fees: 0,
            refund: 0,
            payouts: Seq::empty(),
            events: Seq::empty(),
        }
    } else {
        let t = tally(s, source, asset, bps, targets, amounts, (n - 1) as nat);
        let target = targets[n - 1];
        let amount = amounts[n - 1];
        if s.access_error(target) is Some {
            Tally {
                num_failures: t.num_failures + 1,
                refund: t.refund + amount,
                events: t.events.push(
                    Action::Publish {
                        event: Event::BatchTransferFailed { source, target, amount },
                    },
                ),
                ..t
            }
        } else {
            let c = charge_at(amount, bps)->Ok_0;
            Tally {
                num_success: t.num_success + 1,
                gross: t.gross + amount,
                net: t.net + c.net,
                fees: t.fees + c.fee,
                payouts: add_payout(t.payouts, target, c.net as int),
                events: t.events.push(
                    Action::Publish {
                        event: Event::CAddressFunded { asset, source, target, amount, fee: c.fee },
                    },
                ),
                ..t
            }
        }
    }
}

/// Whether the fee of one of the first `n` entries cannot be computed.
pub open spec fn some_fee_overflows(
    s: BridgeState,
    bps: u32,
    targets: Seq<Address>,
    amounts: Seq<i128>,
    n: int,
) -> bool {
    exists|i: int|
        0 <= i < n && s.access_error(#[trigger] targets[i]) is None && charge_at(
            amounts[i],
            bps,
        ) is Err
}

/// Whether one of the amounts is not acceptable.
pub open spec fn some_amount_invalid(s: BridgeState, amounts: Seq<i128>) -> bool {
    exists|i: int| 0 <= i < amounts.len() && s.amount_error(#[trigger] amounts[i]) is Some
}

/// The transfers of what each target gets.
pub open spec fn payout_transfers(
    asset: Address,
    contract: Address,
    payouts: Seq<Payout>,
) -> Seq<Action> {
    Seq::new(
        payouts.len(),
        |i: int|
            Action::Transfer {
                asset,
                from: contract,
                to: payouts[i].to,
                amount: payouts[i].amount,
            },
    )
}

/// The books after the totals of a batch have been booked.
pub open spec fn batch_booked(
    s: BridgeState,
    source: Address,
    asset: Address,
    bps: u32,
    t: Tally,
) -> BridgeState {
    s.book(
        source,
        asset,
        t.gross as i128,
        t.fees as i128,
        Charge { fee_bps: bps, fee: t.fees as i128, net: t.net as i128 },
    )
}

/// Why the entries of a batch are refused, before any total is looked at.
pub open spec fn batch_plan_error(
    s: BridgeState,
    source: Address,
    targets: Seq<Address>,
    amounts: Seq<i128>,
    asset: Address,
    nonce: Option<u64>,
) -> Option<BridgeError> {
    first(
        s.asset_error(asset),
        first(
            refuse_if(some_amount_invalid(s, amounts), BridgeError::InvalidAmount),
            first(
                refuse_if(!fits(sum(amounts)), BridgeError::Overflow),
                first(
                    s.usage_error(source, asset, sum(amounts) as i128),
                    first(
                        s.nonce_error(source, nonce),
                        refuse_if(
                            some_fee_overflows(
                                s,
                                s.effective_bps(source, asset),
                                targets,
                                amounts,
                                targets.len() as int,
                            ),
                            BridgeError::Overflow,
                        ),
                    ),
                ),
            ),
        ),
    )
}

/// Why the totals cannot take up a batch.
pub open spec fn batch_books_error(
    s: BridgeState,
    source: Address,
    asset: Address,
    t: Tally,
) -> Option<BridgeError> {
    refuse_if(
        !fits(s.deposit_of(source, asset) + t.gross) || !fits(s.volume_of(source) + t.gross)
            || credited(s.counters_of(asset), t.fees, t.net, t.fees) is Err,
        BridgeError::Overflow,
    )
}

/// Why `batch_fund_c_address` refuses a call that has entries.
pub open spec fn batch_entries_error(
    s: BridgeState,
    source: Address,
    targets: Seq<Address>,
    amounts: Seq<i128>,
    asset: Address,
    nonce: Option<u64>,
) -> Option<BridgeError> {
    first(
        batch_plan_error(s, source, targets, amounts, asset, nonce),
        batch_books_error(s, source, asset, batch_tally(s, source, targets, amounts, asset)),
    )
}

/// What all entries of a batch come to.
pub open spec fn batch_tally(
    s: BridgeState,
    source: Address,
    targets: Seq<Address>,
    amounts: Seq<i128>,
    asset: Address,
) -> Tally {
    tally(s, source, asset, s.effective_bps(source, asset), targets, amounts, targets.len())
}

/// Why `batch_fund_c_address` refuses a call.
pub open spec fn batch_error(
    s: BridgeState,
    source: Address,
    targets: Seq<Address>,
    amounts: Seq<i128>,
    asset: Address,
    nonce: Option<u64>,
    deadline: Option<u64>,
) -> Option<BridgeError> {
    first(
        s.running_error(),
        first(
            refuse_if(targets.len() > MAX_BATCH_SIZE, BridgeError::BatchTooLarge),
            first(
                s.deadline_error(deadline),
                first(
                    refuse_if(targets.len() != amounts.len(), BridgeError::MismatchedArrays),
                    if targets.len() == 0 {
                        None
                    } else {
                        batch_entries_error(s, source, targets, amounts, asset, nonce)
                    },
                ),
            ),
        ),
    )
}

/// The books after a batch that has entries.
pub open spec fn batch_entries_effect(
    s: BridgeState,
    source: Address,
    asset: Address,
    nonce: Option<u64>,
    total: i128,
    t: Tally,
) -> BridgeState {
    let paid = batch_booked(s, source, asset, s.effective_bps(source, asset), t)
        .count_usage(source, asset, total)
        .consume(source, nonce)
        .require_auth(source)
        .keep_alive()
        .pull(asset, source, total)
        .act_all(t.events)
        .act_all(payout_transfers(asset, s.ledger.contract, t.payouts))
        .pay_out(asset, source, t.refund as i128);
    let rewarded = if t.num_success > 0 {
        paid.reward(source)
    } else {
        paid
    };
    rewarded.publish(
        Event::BatchCompleted {
            source,
            num_success: t.num_success as u32,
            num_failures: t.num_failures as u32,
        },
    )
}

/// The books after `batch_fund_c_address`. A batch without entries does nothing.
pub open spec fn batch_effect(
    s: BridgeState,
    source: Address,
    targets: Seq<Address>,
    amounts: Seq<i128>,
    asset: Address,
    nonce: Option<u64>,
) -> BridgeState {
    if targets.len() == 0 {
        s
    } else {
        batch_entries_effect(
            s,
            source,
            asset,
            nonce,
            sum(amounts) as i128,
            batch_tally(s, source, targets, amounts, asset),
        )
    }
}

/// What holds of the tally of acceptable amounts: nothing is lost between the
/// sum that is taken and what is delivered, kept as fees and returned.
pub proof fn tally_balances(
    s: BridgeState,
    source: Address,
    asset: Address,
    bps: u32,
    targets: Seq<Address>,
    amounts: Seq<i128>,
    n: nat,
)
    requires
        bps <= 1_000,
        n <= amounts.len(),
        forall|i: int| 0 <= i < n ==> (#[trigger] amounts[i]) > 0,
        !some_fee_overflows(s, bps, targets, amounts, n as int),
        fits(sum(amounts.take(n as int))),
    ensures
        ({
            let t = tally(s, source, asset, bps, targets, amounts, n);
            &&& t.gross + t.refund == sum(amounts.take(n as int))
            &&& t.net + t.fees == t.gross
            &&& payout_sum(t.payouts) == t.net
            &&& t.num_success + t.num_failures == n
            &&& 0 <= t.refund
            &&& 0 <= t.fees
            &&& t.num_success <= t.net
            &&& t.payouts.len() <= t.num_success
            &&& t.events.len() == n
            &&& forall|i: int| 0 <= i < t.payouts.len() ==> (#[trigger] t.payouts[i]).amount > 0
        }),
    decreases n,
{
    if n > 0 {
        let m = (n - 1) as nat;
        let before = amounts.take(m as int);
        let upto = amounts.take(n as int);
        assert(upto.drop_last() =~= before);
        assert(sum(upto) == sum(before) + amounts[m as int]);
        sum_is_positive(before);
        assert(!some_fee_overflows(s, bps, targets, amounts, m as int)) by {
            if some_fee_overflows(s, bps, targets, amounts, m as int) {
                let i = choose|i: int|
                    0 <= i < m && s.access_error(#[trigger] targets[i]) is None && charge_at(
                        amounts[i],
                        bps,
                    ) is Err;
                assert(s.access_error(targets[i]) is None && charge_at(amounts[i], bps) is Err);
            }
        }
        tally_balances(s, source, asset, bps, targets, amounts, m);
        let t = tally(s, source, asset, bps, targets, amounts, m);
        let amount = amounts[m as int];
        if s.access_error(targets[m as int]) is None {
            assert(charge_at(amount, bps) is Ok) by {
                if charge_at(amount, bps) is Err {
                    assert(s.access_error(targets[m as int]) is None);
                }
            }
            let c = charge_at(amount, bps)->Ok_0;
            fee_bounds(amount as int, bps as int);
            add_payout_sum(t.payouts, targets[m as int], c.net as int);
        }
    }
}

/// The sum of positive amounts is not negative.
pub proof fn sum_is_positive(amounts: Seq<i128>)
    requires
        forall|i: int| 0 <= i < amounts.len() ==> (#[trigger] amounts[i]) > 0,
    ensures
        sum(amounts) >= 0,
    decreases amounts.len(),
{
    if amounts.len() > 0 {
        assert forall|i: int| 0 <= i < amounts.drop_last().len() implies (
        #[trigger] amounts.drop_last()[i]) > 0 by {
            assert(amounts[i] > 0);
        }
        sum_is_positive(amounts.drop_last());
    }
}

/// The sum of the first amounts is at most the sum of all, where all are
/// positive.
proof fn sum_grows(amounts: Seq<i128>, n: int)
    requires
        0 <= n <= amounts.len(),
        forall|i: int| 0 <= i < amounts.len() ==> (#[trigger] amounts[i]) > 0,
    ensures
        sum(amounts.take(n)) <= sum(amounts),
    decreases amounts.len() - n,
{
    if n == amounts.len() {
        assert(amounts.take(n) =~= amounts);
    } else {
        sum_grows(amounts, n + 1);
        assert(amounts.take(n + 1).drop_last() =~= amounts.take(n));
        assert(amounts.take(n + 1).last() == amounts[n]);
    }
}

/// A payout of a list is at most its sum, where all are positive.
pub proof fn payout_below_sum(payouts: Seq<Payout>, i: int)
    requires
        0 <= i < payouts.len(),
        forall|j: int| 0 <= j < payouts.len() ==> (#[trigger] payouts[j]).amount > 0,
    ensures
        0 < payouts[i].amount <= payout_sum(payouts),
    decreases payouts.len(),
{
    let rest = payouts.drop_first();
    assert forall|j: int| 0 <= j < rest.len() implies (#[trigger] rest[j]).amount > 0 by {
        assert(payouts[j + 1].amount > 0);
    }
    assert(payouts[0].amount > 0);
    if i > 0 {
        payout_below_sum(rest, i - 1);
        assert(rest[i - 1] == payouts[i]);
    } else if rest.len() > 0 {
        payout_below_sum(rest, 0);
    } else {
        assert(payout_sum(rest) == 0);
    }
}

/// Another amount for a target adds that amount to the sum.
proof fn add_payout_sum(payouts: Seq<Payout>, to: Address, amount: int)
    requires
        forall|j: int| 0 <= j < payouts.len() ==> (#[trigger] payouts[j]).amount > 0,
        amount > 0,
        fits(payout_sum(payouts) + amount),
    ensures
        payout_sum(add_payout(payouts, to, amount)) == payout_sum(payouts) + amount,
        add_payout(payouts, to, amount).len() <= payouts.len() + 1,
        forall|j: int|
            0 <= j < add_payout(payouts, to, amount).len() ==> (#[trigger] add_payout(
                payouts,
                to,
                amount,
            )[j]).amount > 0,
    decreases payouts.len(),
{
    let after = add_payout(payouts, to, amount);
    if payouts.len() == 0 {
        assert(after.drop_first() =~= Seq::<Payout>::empty());
        assert(payout_sum(after.drop_first()) == 0);
        assert(payout_sum(after) == after[0].amount + payout_sum(after.drop_first()));
    } else {
        let rest = payouts.drop_first();
        assert forall|j: int| 0 <= j < rest.len() implies (#[trigger] rest[j]).amount > 0 by {
            assert(payouts[j + 1].amount > 0);
        }
        payout_below_sum(payouts, 0);
        if payouts[0].to == to {
            assert(after.drop_first() =~= rest);
            assert(payout_sum(rest) >= 0) by {
                if rest.len() > 0 {
                    payout_below_sum(rest, 0);
                }
            }
        } else {
            add_payout_sum(rest, to, amount);
            assert(after.drop_first() =~= add_payout(rest, to, amount));
            assert(after[0] == payouts[0]);
            assert forall|j: int| 0 <= j < after.len() implies (#[trigger] after[j]).amount > 0 by {
                if j > 0 {
                    assert(after[j] == add_payout(rest, to, amount)[j - 1]);
                }
            }
        }
    }
}

/// Where an amount is added: at the first payout to the target.
pub proof fn add_payout_at(payouts: Seq<Payout>, to: Address, amount: int, i: int)
    requires
        0 <= i < payouts.len(),
        payouts[i].to == to,
        forall|j: int| 0 <= j < i ==> (#[trigger] payouts[j]).to != to,
    ensures
        add_payout(payouts, to, amount) == payouts.update(
            i,
            Payout { to, amount: (payouts[i].amount + amount) as i128 },
        ),
    decreases payouts.len(),
{
    if i > 0 {
        assert(payouts[0].to != to);
        let rest = payouts.drop_first();
        assert forall|j: int| 0 <= j < i - 1 implies (#[trigger] rest[j]).to != to by {
            assert(payouts[j + 1].to != to);
        }
        add_payout_at(rest, to, amount, i - 1);
        assert(add_payout(payouts, to, amount) =~= payouts.update(
            i,
            Payout { to, amount: (payouts[i].amount + amount) as i128 },
        ));
    }
}

/// Where an amount is added for a new target: at the end.
pub proof fn add_payout_new(payouts: Seq<Payout>, to: Address, amount: int)
    requires
        forall|j: int| 0 <= j < payouts.len() ==> (#[trigger] payouts[j]).to != to,
    ensures
        add_payout(payouts, to, amount) == payouts.push(Payout { to, amount: amount as i128 }),
    decreases payouts.len(),
{
    if payouts.len() > 0 {
        assert(payouts[0].to != to);
        let rest = payouts.drop_first();
        assert forall|j: int| 0 <= j < rest.len() implies (#[trigger] rest[j]).to != to by {
            assert(payouts[j + 1].to != to);
        }
        add_payout_new(rest, to, amount);
    }
    assert(add_payout(payouts, to, amount) =~= payouts.push(
        Payout { to, amount: amount as i128 },
    ));
}

/// Whether no target occurs twice among the payouts.
pub open spec fn once_each(payouts: Seq<Payout>) -> bool {
    forall|i: int, j: int|
        0 <= i < j < payouts.len() ==> (#[trigger] payouts[i]).to != (#[trigger] payouts[j]).to
}

/// What the payouts come to for one target.
pub open spec fn paid_to(payouts: Seq<Payout>, to: Address) -> int
    decreases payouts.len(),
{
    if payouts.len() == 0 {
        0
    } else {
        paid_to(payouts.drop_last(), to) + if payouts.last().to == to {
            payouts.last().amount as int
        } else {
            0
        }
    }
}

/// What one target gets of the first `n` entries of a batch: the sum of what its
/// entries deliver, or nothing where it may not receive funds.
pub open spec fn delivered_to(
    s: BridgeState,
    bps: u32,
    targets: Seq<Address>,
    amounts: Seq<i128>,
    to: Address,
    n: nat,
) -> int
    decreases n,
{
    if n == 0 {
        0
    } else {
        delivered_to(s, bps, targets, amounts, to, (n - 1) as nat) + if targets[n - 1] == to
            && s.access_error(to) is None {
            charge_at(amounts[n - 1], bps)->Ok_0.net as int
        } else {
            0
        }
    }
}

/// A new amount at one position changes what its target gets by the difference.
proof fn paid_to_update(payouts: Seq<Payout>, i: int, amount: i128, to: Address)
    requires
        0 <= i < payouts.len(),
    ensures
        paid_to(payouts.update(i, Payout { to: payouts[i].to, amount }), to) == paid_to(
            payouts,
            to,
        ) + if payouts[i].to == to {
            amount - payouts[i].amount
        } else {
            0
        },
    decreases payouts.len(),
{
    let after = payouts.update(i, Payout { to: payouts[i].to, amount });
    if i == payouts.len() - 1 {
        assert(after.drop_last() =~= payouts.drop_last());
    } else {
        paid_to_update(payouts.drop_last(), i, amount, to);
        assert(after.drop_last() =~= payouts.drop_last().update(
            i,
            Payout { to: payouts[i].to, amount },
        ));
    }
}

/// Another amount for a target is added to what the target gets, and no target
/// comes to occur twice.
proof fn add_payout_adds(payouts: Seq<Payout>, to: Address, amount: int, other: Address)
    requires
        once_each(payouts),
        amount > 0,
        forall|j: int| 0 <= j < payouts.len() ==> (#[trigger] payouts[j]).amount > 0,
        fits(payout_sum(payouts) + amount),
    ensures
        once_each(add_payout(payouts, to, amount)),
        paid_to(add_payout(payouts, to, amount), other) == paid_to(payouts, other) + if other
            == to {
            amount
        } else {
            0
        },
        forall|j: int|
            0 <= j < add_payout(payouts, to, amount).len() ==> (#[trigger] add_payout(
                payouts,
                to,
                amount,
            )[j]).to == to || exists|k: int|
                0 <= k < payouts.len() && (#[trigger] payouts[k]).to == add_payout(
                    payouts,
                    to,
                    amount,
                )[j].to,
{
    let after = add_payout(payouts, to, amount);
    assert(payout_sum(payouts) >= 0) by {
        if payouts.len() > 0 {
            payout_below_sum(payouts, 0);
        }
    }
    if exists|i: int| 0 <= i < payouts.len() && (#[trigger] payouts[i]).to == to {
        let i = choose|i: int| 0 <= i < payouts.len() && (#[trigger] payouts[i]).to == to;
        assert forall|j: int| 0 <= j < i implies (#[trigger] payouts[j]).to != to by {}
        add_payout_at(payouts, to, amount, i);
        payout_below_sum(payouts, i);
        paid_to_update(payouts, i, (payouts[i].amount + amount) as i128, other);
        assert forall|j: int| 0 <= j < after.len() implies (#[trigger] after[j]).to
            == payouts[j].to by {}
    } else {
        add_payout_new(payouts, to, amount);
        assert(after.drop_last() =~= payouts);
        assert forall|j: int| 0 <= j < payouts.len() implies after[j] == payouts[j] by {}
        assert forall|x: int, y: int| 0 <= x < y < after.len() implies (#[trigger] after[x]).to != (
        #[trigger] after[y]).to by {
            if y < payouts.len() {
                assert(payouts[x].to != payouts[y].to);
            } else {
                assert(payouts[x].to != to);
            }
        }
    }
}

/// In a batch every target gets at most one transfer, of just what its entries
/// deliver, and a target that may not receive funds gets none.
pub proof fn tally_pays_each_target_once(
    s: BridgeState,
    source: Address,
    asset: Address,
    bps: u32,
    targets: Seq<Address>,
    amounts: Seq<i128>,
    n: nat,
    to: Address,
)
    requires
        bps <= 1_000,
        n <= amounts.len(),
        n <= targets.len(),
        forall|i: int| 0 <= i < n ==> (#[trigger] amounts[i]) > 0,
        !some_fee_overflows(s, bps, targets, amounts, n as int),
        fits(sum(amounts.take(n as int))),
    ensures
        ({
            let payouts = tally(s, source, asset, bps, targets, amounts, n).payouts;
            &&& once_each(payouts)
            &&& paid_to(payouts, to) == delivered_to(s, bps, targets, amounts, to, n)
            &&& forall|i: int|
                0 <= i < payouts.len() ==> s.access_error((#[trigger] payouts[i]).to) is None
        }),
    decreases n,
{
    if n > 0 {
        let m = (n - 1) as nat;
        let before = amounts.take(m as int);
        let upto = amounts.take(n as int);
        assert(upto.drop_last() =~= before);
        assert(sum(upto) == sum(before) + amounts[m as int]);
        sum_is_positive(before);
        assert(!some_fee_overflows(s, bps, targets, amounts, m as int)) by {
            if some_fee_overflows(s, bps, targets, amounts, m as int) {
                let i = choose|i: int|
                    0 <= i < m && s.access_error(#[trigger] targets[i]) is None && charge_at(
                        amounts[i],
                        bps,
                    ) is Err;
                assert(s.access_error(targets[i]) is None && charge_at(amounts[i], bps) is Err);
            }
        }
        tally_pays_each_target_once(s, source, asset, bps, targets, amounts, m, to);
        tally_balances(s, source, asset, bps, targets, amounts, m);
        let t = tally(s, source, asset, bps, targets, amounts, m);
        let amount = amounts[m as int];
        let target = targets[m as int];
        if s.access_error(target) is None {
            assert(charge_at(amount, bps) is Ok) by {
                if charge_at(amount, bps) is Err {
                    assert(s.access_error(targets[m as int]) is None);
                }
            }
            let c = charge_at(amount, bps)->Ok_0;
            fee_bounds(amount as int, bps as int);
            add_payout_adds(t.payouts, target, c.net as int, to);
        }
    }
}

/// Adds an amount for a target.
fn push_payout(payouts: &mut Vec<Payout>, to: Address, amount: i128)
    requires
        amount > 0,
        forall|j: int| 0 <= j < old(payouts)@.len() ==> (#[trigger] old(payouts)@[j]).amount > 0,
        fits(payout_sum(old(payouts)@) + amount),
    ensures
        final(payouts)@ == add_payout(old(payouts)@, to, amount as int),
{
    let mut i: usize = 0;
    while i < payouts.len()
        invariant
            i <= payouts@.len(),
            payouts@ == old(payouts)@,
            amount > 0,
            forall|j: int| 0 <= j < i ==> (#[trigger] payouts@[j]).to != to,
            forall|j: int| 0 <= j < payouts@.len() ==> (#[trigger] payouts@[j]).amount > 0,
            fits(payout_sum(payouts@) + amount),
        decreases payouts@.len() - i,
    {
        if payouts[i].to == to {
            proof {
                payout_below_sum(payouts@, i as int);
                add_payout_at(payouts@, to, amount as int, i as int);
            }
            let updated: i128 = payouts[i].amount + amount;
            payouts.set(i, Payout { to, amount: updated });
            return;
        }
        i = i + 1;
    }
    proof {
        add_payout_new(payouts@, to, amount as int);
    }
    payouts.push(Payout { to, amount });
}

/// What the entries of a batch come to, as it is computed.
struct Counted {
    num_success: u32,
    num_failures: u32,
    gross: i128,
    net: i128,
    fees: i128,
    refund: i128,
    payouts: Vec<Payout>,
    events: Vec<Action>,
}

impl Counted {
    spec fn is(self, t: Tally) -> bool {
        &&& self.num_success == t.num_success
        &&& self.num_failures == t.num_failures
        &&& self.gross == t.gross
        &&& self.net == t.net
        &&& self.fees == t.fees
        &&& self.refund == t.refund
        &&& self.payouts@ == t.payouts
        &&& self.events@ == t.events
    }
}

impl OnboardingBridge {
    /// Fails where one of the amounts is not acceptable.
    fn check_amounts(&self, amounts: &Vec<i128>) -> (r: Result<(), BridgeError>)
        ensures
            r == verdict(
                refuse_if(some_amount_invalid(self@, amounts@), BridgeError::InvalidAmount),
            ),
    {
        let mut i: usize = 0;
        while i < amounts.len()
            invariant
                i <= amounts@.len(),
                forall|j: int|
                    0 <= j < i ==> self@.amount_error(#[trigger] amounts@[j]) is None,
            decreases amounts@.len() - i,
        {
            let checked = self.check_amount(amounts[i]);
            if checked.is_err() {
                assert(self@.amount_error(amounts@[i as int]) is Some);
                return Err(BridgeError::InvalidAmount);
            }
            i = i + 1;
        }
        Ok(())
    }

    /// What the entries of a batch come to. `Overflow` where a fee cannot be
    /// computed.
    fn count_entries(
        &self,
        source: Address,
        asset: Address,
        bps: u32,
        targets: &Vec<Address>,
        amounts: &Vec<i128>,
    ) -> (r: Result<Counted, BridgeError>)
        requires
            bps <= 1_000,
            targets@.len() == amounts@.len(),
            targets@.len() <= MAX_BATCH_SIZE,
            forall|i: int| 0 <= i < amounts@.len() ==> (#[trigger] amounts@[i]) > 0,
            fits(sum(amounts@)),
        ensures
            match r {
                Ok(counted) => {
                    &&& !some_fee_overflows(self@, bps, targets@, amounts@, targets@.len() as int)
                    &&& counted.is(
                        tally(
                            self@,
                            source,
                            asset,
                            bps,
                            targets@,
                            amounts@,
                            targets@.len(),
                        ),
                    )
                },
                Err(e) => e == BridgeError::Overflow && some_fee_overflows(
                    self@,
                    bps,
                    targets@,
                    amounts@,
                    targets@.len() as int,
                ),
            },
    {
        let mut counted = Counted {
            num_success: 0,
            num_failures: 0,
            gross: 0,
            net: 0,
            fees: 0,
            refund: 0,
            payouts: Vec::new(),
            events: Vec::new(),
        };
        let mut i: usize = 0;
        assert(counted.payouts@ =~= Seq::<Payout>::empty());
        assert(counted.events@ =~= Seq::<Action>::empty());
        while i < targets.len()
            invariant
                i <= targets@.len(),
                bps <= 1_000,
                targets@.len() == amounts@.len(),
                targets@.len() <= MAX_BATCH_SIZE,
                forall|j: int| 0 <= j < amounts@.len() ==> (#[trigger] amounts@[j]) > 0,
                fits(sum(amounts@)),
                !some_fee_overflows(self@, bps, targets@, amounts@, i as int),
                counted.is(tally(self@, source, asset, bps, targets@, amounts@, i as nat)),
            decreases targets@.len() - i,
        {
            let target: Address = targets[i];
            let amount: i128 = amounts[i];
            proof {
                sum_grows(amounts@, i as int);
                sum_grows(amounts@, i + 1);
                assert(amounts@.take(i + 1).drop_last() =~= amounts@.take(i as int));
                sum_is_positive(amounts@.take(i as int));
                sum_is_positive(amounts@.take(i + 1));
                tally_balances(self@, source, asset, bps, targets@, amounts@, i as nat);
            }
            let allowed: bool = self.check_access(target).is_ok();
            if allowed {
                let charged: Result<Charge, BridgeError> = compute_charge(amount, bps);
                let c: Charge = match charged {
                    Ok(c) => c,
                    Err(e) => {
                        assert(self@.access_error(targets@[i as int]) is None && charge_at(
                            amounts@[i as int],
                            bps,
                        ) is Err);
                        return Err(e);
                    },
                };
                proof {
                    fee_bounds(amount as int, bps as int);
                }
                counted.num_success = counted.num_success + 1;
                counted.gross = counted.gross + amount;
                counted.net = counted.net + c.net;
                counted.fees = counted.fees + c.fee;
                push_payout(&mut counted.payouts, target, c.net);
                counted.events.push(
                    Action::Publish {
                        event: Event::CAddressFunded { asset, source, target, amount, fee: c.fee },
                    },
                );
            } else {
                counted.num_failures = counted.num_failures + 1;
                counted.refund = counted.refund + amount;
                counted.events.push(
                    Action::Publish {
                        event: Event::BatchTransferFailed { source, target, amount },
                    },
                );
            }
            i = i + 1;
        }
        Ok(counted)
    }

    /// Asks for the transfers of what each target gets.
    fn pay_all(&mut self, asset: Address, payouts: &Vec<Payout>)
        ensures
            final(self)@ == old(self)@.act_all(
                payout_transfers(asset, old(self)@.ledger.contract, payouts@),
            ),
    {
        let contract: Address = self.ledger.contract;
        let ghost transfers = payout_transfers(asset, contract, payouts@);
        let mut i: usize = 0;
        assert(self@.actions =~= old(self)@.actions + transfers.take(0));
        while i < payouts.len()
            invariant
                i <= payouts@.len(),
                transfers == payout_transfers(asset, contract, payouts@),
                self@ == old(self)@.act_all(transfers.take(i as int)),
            decreases payouts@.len() - i,
        {
            self.transfer(asset, contract, payouts[i].to, payouts[i].amount);
            i = i + 1;
            assert(self@.actions =~= old(self)@.actions + transfers.take(i as int));
        }
        assert(transfers.take(i as int) =~= transfers);
    }

    /// Checks the entries of a batch and counts what they come to: the sum of the
    /// amounts, what the source will have moved today, and the tally.
    fn plan_batch(
        &self,
        source: Address,
        targets: &Vec<Address>,
        amounts: &Vec<i128>,
        asset: Address,
        nonce: Option<u64>,
    ) -> (r: Result<(i128, Option<i128>, Counted), BridgeError>)
        requires
            self@.wf(),
            targets@.len() == amounts@.len(),
            targets@.len() <= MAX_BATCH_SIZE,
        ensures
            r is Err <==> batch_plan_error(self@, source, targets@, amounts@, asset, nonce) is Some,
            r matches Err(e) ==> batch_plan_error(
                self@,
                source,
                targets@,
                amounts@,
                asset,
                nonce,
            ) == Some(e),
            r matches Ok((total, usage, counted)) ==> {
                let t = batch_tally(self@, source, targets@, amounts@, asset);
                &&& total == sum(amounts@)
                &&& usage == (if self@.daily_limit_of(source, asset) == 0 {
                    None
                } else {
                    Some((self@.used_today(source, asset) + total) as i128)
                })
                &&& counted.is(t)
            },
    {
        self.check_asset_whitelisted(asset)?;
        self.check_amounts(amounts)?;
        assert forall|i: int| 0 <= i < amounts@.len() implies (#[trigger] amounts@[i]) > 0 by {
            assert(self@.amount_error(amounts@[i]) is None);
        }
        let total: i128 = sum_amounts(amounts)?;
        let usage: Option<i128> = self.check_daily_limit(source, asset, total)?;
        self.check_nonce(source, nonce)?;
        let tiered: u32 = self.get_tiered_fee_bps(source, self.read_fee_bps());
        let bps: u32 = self.get_effective_fee_bps(asset, tiered);
        proof {
            rates_are_capped(self@, source, asset);
        }
        let counted: Counted = self.count_entries(source, asset, bps, targets, amounts)?;
        Ok((total, usage, counted))
    }

    /// Books a batch and asks for its transfers.
    fn settle_batch(
        &mut self,
        source: Address,
        asset: Address,
        nonce: Option<u64>,
        total: i128,
        usage: Option<i128>,
        counted: Counted,
        Ghost(t): Ghost<Tally>,
    ) -> (r: Result<(), BridgeError>)
        requires
            counted.is(t),
            usage == (if old(self)@.daily_limit_of(source, asset) == 0 {
                None
            } else {
                Some((old(self)@.used_today(source, asset) + total) as i128)
            }),
            batch_books_error(old(self)@, source, asset, t) is None ==> old(self)@.nonce_fits(
                source,
                nonce,
            ),
        ensures
            r == verdict(batch_books_error(old(self)@, source, asset, t)),
            final(self)@ == (if r is Ok {
                batch_entries_effect(old(self)@, source, asset, nonce, total, t)
            } else {
                old(self)@
            }),
    {
        let tiered: u32 = self.get_tiered_fee_bps(source, self.read_fee_bps());
        let bps: u32 = self.get_effective_fee_bps(asset, tiered);
        self.book_transfer(
            source,
            asset,
            counted.gross,
            counted.fees,
            Charge { fee_bps: bps, fee: counted.fees, net: counted.net },
        )?;
        self.save_daily_usage(source, asset, usage);
        self.consume_nonce(source, nonce);
        self.require_auth(source);
        self.keep_alive();
        self.pull(asset, source, total);
        self.act_all(&counted.events);
        self.pay_all(asset, &counted.payouts);
        self.pay_out(asset, source, counted.refund);
        if counted.num_success > 0 {
            self.mint_loyalty_tokens(source);
        }
        self.publish(
            Event::BatchCompleted {
                source,
                num_success: counted.num_success,
                num_failures: counted.num_failures,
            },
        );
        Ok(())
    }

    /// Funds every target with its amount of `asset` from `source`, less the fee.
    pub fn batch_fund_c_address(
        &mut self,
        source: Address,
        targets: &Vec<Address>,
        amounts: &Vec<i128>,
        asset: Address,
        nonce: Option<u64>,
        deadline: Option<u64>,
    ) -> (r: Result<(), BridgeError>)
        requires
            old(self)@.wf(),
            batch_error(old(self)@, source, targets@, amounts@, asset, nonce, deadline) is None
                ==> old(self)@.nonce_fits(source, nonce),
        ensures
            r == verdict(
                batch_error(old(self)@, source, targets@, amounts@, asset, nonce, deadline),
            ),
            final(self)@ == (if r is Ok {
                batch_effect(old(self)@, source, targets@, amounts@, asset, nonce)
            } else {
                old(self)@
            }),
            final(self)@.wf(),
    {
        self.check_running()?;
        if targets.len() > MAX_BATCH_SIZE as usize {
            return Err(BridgeError::BatchTooLarge);
        }
        self.check_deadline(deadline)?;
        if targets.len() != amounts.len() {
            return Err(BridgeError::MismatchedArrays);
        }
        if targets.len() == 0 {
            return Ok(());
        }
        let (total, usage, counted) = self.plan_batch(source, targets, amounts, asset, nonce)?;
        let ghost t = batch_tally(self@, source, targets@, amounts@, asset);
        self.settle_batch(source, asset, nonce, total, usage, counted, Ghost(t))
    }
}

/// The sum of the amounts, all of which are positive. `Overflow` where it leaves
/// the range of `i128`.
fn sum_amounts(amounts: &Vec<i128>) -> (r: Result<i128, BridgeError>)
    requires
        forall|i: int| 0 <= i < amounts@.len() ==> (#[trigger] amounts@[i]) > 0,
    ensures
        match r {
            Ok(total) => total == sum(amounts@),
            Err(e) => e == BridgeError::Overflow && !fits(sum(amounts@)),
        },
{
    let mut total: i128 = 0;
    let mut i: usize = 0;
    assert(amounts@.take(0) =~= Seq::<i128>::empty());
    while i < amounts.len()
        invariant
            i <= amounts@.len(),
            total == sum(amounts@.take(i as int)),
            forall|j: int| 0 <= j < amounts@.len() ==> (#[trigger] amounts@[j]) > 0,
        decreases amounts@.len() - i,
    {
        proof {
            assert(amounts@.take(i + 1).drop_last() =~= amounts@.take(i as int));
            sum_is_positive(amounts@.take(i as int));
            sum_grows(amounts@, i + 1);
        }
        total = safe_add(total, amounts[i])?;
        i = i + 1;
    }
    assert(amounts@.take(i as int) =~= amounts@);
    Ok(total)
}

} // verus!
