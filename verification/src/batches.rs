//! What a batch takes, charges, delivers and returns, and when it is accepted.
use vstd::prelude::*;

use crate::acceptance::{totals_have_room, when_fund_is_accepted};
use crate::actions::{Action, Event};
use crate::batch::{
    add_payout_at, add_payout_new, batch_effect, batch_error, batch_tally, payout_below_sum,
    payout_transfers, some_amount_invalid, some_fee_overflows, sum, sum_is_positive, tally,
    tally_balances,
};
use crate::deliveries::{deposit_grows, totals_grow, volume_grows, what_fund_does};
use crate::errors::BridgeError;
use crate::fees::{charge_at, fee_bounds, rates_are_capped};
use crate::funding::{fund_effect, fund_error};
use crate::invariants::batch_is_balanced;
use crate::readings::{
    a_charge_splits_the_amount, alive_request, bridged_by, closed_reason, deposited_by, in_range,
    in_time, is_enough, is_open, limit_reason, lists_asset, may_receive, nonce_is_due,
    nonces_after, reward_of, totals_of, usage_after, within_limit,
};
use crate::state::BridgeState;
use crate::types::Address;

verus! {

/// The sum of a number for each of the first `n` entries.
pub open spec fn total(n: nat, part: spec_fn(int) -> int) -> int
    decreases n,
{
    if n == 0 {
        0
    } else {
        total((n - 1) as nat, part) + part(n - 1)
    }
}

/// The fee on an entry.
pub open spec fn fee_at(amounts: Seq<i128>, rate: int, i: int) -> int {
    (amounts[i] * rate) / 10_000
}

/// What is taken for an entry.
pub open spec fn taken_for(amounts: Seq<i128>) -> spec_fn(int) -> int {
    |i: int| amounts[i] as int
}

/// What is taken for an entry whose target may receive.
pub open spec fn moved_for(
    s: BridgeState,
    targets: Seq<Address>,
    amounts: Seq<i128>,
) -> spec_fn(int) -> int {
    |i: int|
        if may_receive(s, targets[i]) {
            amounts[i] as int
        } else {
            0
        }
}

/// What is taken for an entry whose target may not receive.
pub open spec fn returned_for(
    s: BridgeState,
    targets: Seq<Address>,
    amounts: Seq<i128>,
) -> spec_fn(int) -> int {
    |i: int|
        if may_receive(s, targets[i]) {
            0
        } else {
            amounts[i] as int
        }
}

/// The fee on an entry whose target may receive.
pub open spec fn charged_for(
    s: BridgeState,
    targets: Seq<Address>,
    amounts: Seq<i128>,
    rate: int,
) -> spec_fn(int) -> int {
    |i: int|
        if may_receive(s, targets[i]) {
            fee_at(amounts, rate, i)
        } else {
            0
        }
}

/// One for an entry whose target may receive.
pub open spec fn served(s: BridgeState, targets: Seq<Address>) -> spec_fn(int) -> int {
    |i: int|
        if may_receive(s, targets[i]) {
            1
        } else {
            0
        }
}

/// What an entry delivers to one target.
pub open spec fn owed_to(
    s: BridgeState,
    targets: Seq<Address>,
    amounts: Seq<i128>,
    rate: int,
    to: Address,
) -> spec_fn(int) -> int {
    |i: int|
        if targets[i] == to && may_receive(s, to) {
            amounts[i] - fee_at(amounts, rate, i)
        } else {
            0
        }
}

/// The targets of the first `n` entries that may receive, each once, in the order in
/// which they occur first.
pub open spec fn receivers(s: BridgeState, targets: Seq<Address>, n: nat) -> Seq<Address>
    decreases n,
{
    if n == 0 {
        Seq::empty()
    } else {
        let before = receivers(s, targets, (n - 1) as nat);
        let target = targets[n - 1];
        if may_receive(s, target) && !before.contains(target) {
            before.push(target)
        } else {
            before
        }
    }
}

/// What is published about the first `n` entries, one by one.
pub open spec fn reports(
    s: BridgeState,
    source: Address,
    asset: Address,
    rate: int,
    targets: Seq<Address>,
    amounts: Seq<i128>,
    n: nat,
) -> Seq<Action> {
    Seq::new(
        n,
        |i: int|
            Action::Publish {
                event: if may_receive(s, targets[i]) {
                    Event::CAddressFunded {
                        asset,
                        source,
                        target: targets[i],
                        amount: amounts[i],
                        fee: fee_at(amounts, rate, i) as i128,
                    }
                } else {
                    Event::BatchTransferFailed { source, target: targets[i], amount: amounts[i] }
                },
            },
    )
}

/// The transfers to the targets of the first `n` entries, one for each.
pub open spec fn deliveries(
    s: BridgeState,
    asset: Address,
    rate: int,
    targets: Seq<Address>,
    amounts: Seq<i128>,
    n: nat,
) -> Seq<Action> {
    let to = receivers(s, targets, n);
    Seq::new(
        to.len(),
        |k: int|
            Action::Transfer {
                asset,
                from: s.ledger.contract,
                to: to[k],
                amount: total(n, owed_to(s, targets, amounts, rate, to[k])) as i128,
            },
    )
}

/// Whether all amounts are enough.
pub open spec fn all_enough(s: BridgeState, amounts: Seq<i128>) -> bool {
    forall|i: int| 0 <= i < amounts.len() ==> is_enough(s, (#[trigger] amounts[i]) as int)
}

/// Whether the fees on all entries whose targets may receive can be computed.
pub open spec fn all_charged(
    s: BridgeState,
    targets: Seq<Address>,
    amounts: Seq<i128>,
    rate: int,
) -> bool {
    forall|i: int|
        0 <= i < targets.len() && may_receive(s, #[trigger] targets[i]) ==> in_range(
            amounts[i] * rate,
        )
}

/// The sum of the amounts is what is taken.
proof fn sum_is_total(amounts: Seq<i128>, n: nat)
    requires
        n <= amounts.len(),
    ensures
        sum(amounts.take(n as int)) == total(n, taken_for(amounts)),
    decreases n,
{
    if n > 0 {
        sum_is_total(amounts, (n - 1) as nat);
        assert(amounts.take(n as int).drop_last() =~= amounts.take(n - 1));
    }
}

/// Every target that may receive is among the receivers, no other address is, and
/// none is twice.
pub proof fn receivers_are_served_once(
    s: BridgeState,
    targets: Seq<Address>,
    n: nat,
    to: Address,
)
    requires
        n <= targets.len(),
    ensures
        receivers(s, targets, n).no_duplicates(),
        receivers(s, targets, n).contains(to) <==> may_receive(s, to) && exists|i: int|
            0 <= i < n && #[trigger] targets[i] == to,
    decreases n,
{
    if n > 0 {
        let m = (n - 1) as nat;
        receivers_are_served_once(s, targets, m, to);
        let before = receivers(s, targets, m);
        let after = receivers(s, targets, n);
        let target = targets[m as int];
        if may_receive(s, target) && !before.contains(target) {
            assert(after.last() == target);
            assert forall|x: Address| before.contains(x) implies after.contains(x) by {
                let k = choose|k: int| 0 <= k < before.len() && before[k] == x;
                assert(after[k] == x);
            }
        } else if may_receive(s, target) && target == to {
            assert(before.contains(to));
        }
    }
}

/// An address that no entry names is owed nothing.
proof fn strangers_are_owed_nothing(
    s: BridgeState,
    targets: Seq<Address>,
    amounts: Seq<i128>,
    rate: int,
    to: Address,
    n: nat,
)
    requires
        n <= targets.len(),
        !receivers(s, targets, n).contains(to),
    ensures
        total(n, owed_to(s, targets, amounts, rate, to)) == 0,
    decreases n,
{
    if n > 0 {
        let m = (n - 1) as nat;
        let before = receivers(s, targets, m);
        let after = receivers(s, targets, n);
        assert(!before.contains(to)) by {
            if before.contains(to) {
                let k = choose|k: int| 0 <= k < before.len() && before[k] == to;
                assert(after[k] == to);
            }
        }
        if may_receive(s, to) && targets[m as int] == to {
            assert(after.last() == to);
        }
        strangers_are_owed_nothing(s, targets, amounts, rate, to, m);
    }
}

/// The first entries of a batch come to the sums over them, entry by entry.
proof fn a_tally_adds_up(
    s: BridgeState,
    source: Address,
    asset: Address,
    bps: u32,
    targets: Seq<Address>,
    amounts: Seq<i128>,
    n: nat,
)
    requires
        bps <= 1_000,
        n <= amounts.len(),
        n <= targets.len(),
        forall|i: int| 0 <= i < n ==> (#[trigger] amounts[i]) > 0,
        forall|i: int|
            0 <= i < n && may_receive(s, #[trigger] targets[i]) ==> in_range(amounts[i] * bps),
        in_range(total(n, taken_for(amounts))),
    ensures
        ({
            let t = tally(s, source, asset, bps, targets, amounts, n);
            let rate = bps as int;
            let to = receivers(s, targets, n);
            let served = total(n, served(s, targets));
            &&& t.num_success == served
            &&& t.num_failures == n - served
            &&& t.gross == total(n, moved_for(s, targets, amounts))
            &&& t.fees == total(n, charged_for(s, targets, amounts, rate))
            &&& t.net == t.gross - t.fees
            &&& t.refund == total(n, returned_for(s, targets, amounts))
            &&& t.events =~= reports(s, source, asset, rate, targets, amounts, n)
            &&& t.payouts.len() == to.len()
            &&& forall|k: int|
                0 <= k < to.len() ==> (#[trigger] t.payouts[k]).to == to[k]
                    && t.payouts[k].amount == total(
                    n,
                    owed_to(s, targets, amounts, rate, to[k]),
                )
        }),
    decreases n,
{
    if n > 0 {
        let m = (n - 1) as nat;
        let rate = bps as int;
        let target = targets[m as int];
        let amount = amounts[m as int];
        sum_is_total(amounts, n);
        sum_is_total(amounts, m);
        assert(amounts.take(n as int).drop_last() =~= amounts.take(m as int));
        let upto = amounts.take(n as int);
        assert(forall|i: int| 0 <= i < n ==> upto[i] == amounts[i]);
        sum_is_positive(amounts.take(m as int));
        a_tally_adds_up(s, source, asset, bps, targets, amounts, m);
        assert forall|i: int| 0 <= i < n && s.access_error(#[trigger] targets[i]) is None implies
            charge_at(amounts[i], bps) is Ok by {
            a_charge_splits_the_amount(amounts[i], bps);
        }
        tally_balances(s, source, asset, bps, targets, amounts, m);
        let t = tally(s, source, asset, bps, targets, amounts, m);
        let u = tally(s, source, asset, bps, targets, amounts, n);
        let before = receivers(s, targets, m);
        let to = receivers(s, targets, n);
        receivers_are_served_once(s, targets, m, target);
        if may_receive(s, target) {
            a_charge_splits_the_amount(amount, bps);
            fee_bounds(amount as int, rate);
            let net = amount - fee_at(amounts, rate, m as int);
            assert(charge_at(amount, bps)->Ok_0.net == net);
            if before.contains(target) {
                let i = choose|i: int| 0 <= i < before.len() && before[i] == target;
                assert(t.payouts[i].to == target);
                assert forall|j: int| 0 <= j < i implies (#[trigger] t.payouts[j]).to
                    != target by {
                    assert(before[j] != before[i]);
                }
                add_payout_at(t.payouts, target, net, i);
                payout_below_sum(t.payouts, i);
                assert forall|k: int| 0 <= k < to.len() implies (#[trigger] u.payouts[k]).to
                    == to[k] && u.payouts[k].amount == total(
                    n,
                    owed_to(s, targets, amounts, rate, to[k]),
                ) by {
                    assert(t.payouts[k].to == before[k]);
                    if k != i {
                        assert(before[k] != before[i]);
                    }
                }
            } else {
                strangers_are_owed_nothing(s, targets, amounts, rate, target, m);
                assert forall|j: int| 0 <= j < t.payouts.len() implies (
                #[trigger] t.payouts[j]).to != target by {
                    assert(before[j] == t.payouts[j].to);
                }
                add_payout_new(t.payouts, target, net);
                assert forall|k: int| 0 <= k < to.len() implies (#[trigger] u.payouts[k]).to
                    == to[k] && u.payouts[k].amount == total(
                    n,
                    owed_to(s, targets, amounts, rate, to[k]),
                ) by {
                    if k < before.len() {
                        assert(t.payouts[k].to == before[k]);
                    }
                }
            }
        } else {
            assert forall|k: int| 0 <= k < to.len() implies (#[trigger] u.payouts[k]).to == to[k]
                && u.payouts[k].amount == total(
                n,
                owed_to(s, targets, amounts, rate, to[k]),
            ) by {
                assert(t.payouts[k].to == before[k]);
            }
        }
    }
}

/// `batch_fund_c_address` is carried out exactly where the bridge is open, there are
/// at most a hundred targets and as many amounts, the deadline has not passed, and,
/// where there is an entry, the asset is listed, every amount is enough, their sum is
/// within the daily limit, the nonce is due and the books have room; the first of
/// these that fails is the error. That a target may not receive is no reason.
pub proof fn when_a_batch_is_accepted(
    s: BridgeState,
    source: Address,
    targets: Seq<Address>,
    amounts: Seq<i128>,
    asset: Address,
    nonce: Option<u64>,
    deadline: Option<u64>,
)
    requires
        s.wf(),
    ensures
        ({
            let e = batch_error(s, source, targets, amounts, asset, nonce, deadline);
            let n = targets.len();
            let rate = s.effective_bps(source, asset) as int;
            let taken = total(n, taken_for(amounts));
            let moved = total(n, moved_for(s, targets, amounts));
            let fees = total(n, charged_for(s, targets, amounts, rate));
            let small = is_open(s) && n <= 100;
            let timely = small && in_time(s, deadline);
            let paired = timely && n == amounts.len();
            let listed = paired && lists_asset(s, asset);
            let enough = listed && all_enough(s, amounts);
            let summed = enough && in_range(taken);
            let limited = summed && within_limit(s, source, asset, taken);
            let due = limited && nonce_is_due(s, source, nonce);
            let charged = due && all_charged(s, targets, amounts, rate);
            let booked = charged && in_range(deposited_by(s, source, asset) + moved) && in_range(
                bridged_by(s, source) + moved,
            ) && totals_have_room(s, asset, fees, moved - fees, fees);
            &&& e is None <==> booked || (paired && n == 0)
            &&& !is_open(s) ==> e == Some(closed_reason(s))
            &&& is_open(s) && !small ==> e == Some(BridgeError::BatchTooLarge)
            &&& small && !timely ==> e == Some(BridgeError::TransactionExpired)
            &&& timely && !paired ==> e == Some(BridgeError::MismatchedArrays)
            &&& n > 0 ==> {
                &&& paired && !listed ==> e == Some(BridgeError::AssetNotWhitelisted)
                &&& listed && !enough ==> e == Some(BridgeError::InvalidAmount)
                &&& enough && !summed ==> e == Some(BridgeError::Overflow)
                &&& summed && !limited ==> e == Some(limit_reason(s, source, asset, taken))
                &&& limited && !due ==> e == Some(BridgeError::DuplicateNonce)
                &&& due && !booked ==> e == Some(BridgeError::Overflow)
            }
        }),
{
    if targets.len() == amounts.len() && targets.len() > 0 {
        let n = targets.len();
        let bps = s.effective_bps(source, asset);
        rates_are_capped(s, source, asset);
        sum_is_total(amounts, n);
        assert(amounts.take(n as int) =~= amounts);
        assert(some_amount_invalid(s, amounts) <==> !all_enough(s, amounts)) by {
            assert forall|i: int| 0 <= i < n implies (s.amount_error(#[trigger] amounts[i]) is Some)
                == !is_enough(s, amounts[i] as int) by {}
        }
        if !some_amount_invalid(s, amounts) {
            assert forall|i: int| 0 <= i < n implies (#[trigger] amounts[i]) > 0 by {
                assert(is_enough(s, amounts[i] as int));
            }
            sum_is_positive(amounts);
            assert(some_fee_overflows(s, bps, targets, amounts, n as int) <==> !all_charged(
                s,
                targets,
                amounts,
                bps as int,
            )) by {
                assert forall|i: int| 0 <= i < n implies (s.access_error(
                    #[trigger] targets[i],
                ) is None && charge_at(amounts[i], bps) is Err) == (may_receive(s, targets[i])
                    && !in_range(amounts[i] * bps)) by {
                    a_charge_splits_the_amount(amounts[i], bps);
                }
            }
            if in_range(sum(amounts)) && all_charged(s, targets, amounts, bps as int) {
                a_tally_adds_up(s, source, asset, bps, targets, amounts, n);
            }
        }
    }
}

/// A batch without an entry does nothing. Any other takes the sum of its amounts
/// from the source, whom it has asked, reports on every entry, delivers to every
/// target that may receive, in one transfer, what its entries come to less the fees
/// on them, returns to the source what was meant for others, rewards the source once
/// where anybody got anything, and counts what was delivered.
pub proof fn what_a_batch_does(
    s: BridgeState,
    source: Address,
    targets: Seq<Address>,
    amounts: Seq<i128>,
    asset: Address,
    nonce: Option<u64>,
    deadline: Option<u64>,
)
    requires
        s.wf(),
        batch_error(s, source, targets, amounts, asset, nonce, deadline) is None,
    ensures
        ({
            let t = batch_effect(s, source, targets, amounts, asset, nonce);
            let n = targets.len();
            let rate = s.effective_bps(source, asset) as int;
            let contract = s.ledger.contract;
            let taken = total(n, taken_for(amounts));
            let moved = total(n, moved_for(s, targets, amounts));
            let returned = total(n, returned_for(s, targets, amounts));
            let fees = total(n, charged_for(s, targets, amounts, rate));
            let successes = total(n, served(s, targets));
            &&& n == 0 ==> t == s
            &&& n > 0 ==> {
                &&& taken == moved + returned
                &&& 0 <= fees <= moved
                &&& 0 <= returned
                &&& t.actions == s.actions + seq![
                    Action::RequireAuth { address: source },
                    alive_request(s),
                    Action::Transfer { asset, from: source, to: contract, amount: taken as i128 },
                ] + reports(s, source, asset, rate, targets, amounts, n) + deliveries(
                    s,
                    asset,
                    rate,
                    targets,
                    amounts,
                    n,
                ) + (if returned > 0 {
                    seq![
                        Action::Transfer {
                            asset,
                            from: contract,
                            to: source,
                            amount: returned as i128,
                        },
                    ]
                } else {
                    Seq::empty()
                }) + (if successes > 0 {
                    reward_of(s, source)
                } else {
                    Seq::empty()
                }) + seq![
                    Action::Publish {
                        event: Event::BatchCompleted {
                            source,
                            num_success: successes as u32,
                            num_failures: (n - successes) as u32,
                        },
                    },
                ]
                &&& totals_grow(
                    s,
                    t,
                    asset,
                    fees,
                    moved - fees,
                    fees,
                    totals_of(s, asset).locked_timelock as int,
                )
                &&& volume_grows(s, t, source, moved)
                &&& deposit_grows(s, t, source, asset, moved)
                &&& t.daily_usage == usage_after(s, source, asset, taken)
                &&& t.nonce == nonces_after(s, source, nonce)
                &&& t == (BridgeState {
                    asset_stats: t.asset_stats,
                    accrued_fees: t.accrued_fees,
                    total_bridged: t.total_bridged,
                    total_fees_collected: t.total_fees_collected,
                    source_bridged_volume: t.source_bridged_volume,
                    user_deposit: t.user_deposit,
                    daily_usage: t.daily_usage,
                    nonce: t.nonce,
                    actions: t.actions,
                    ..s
                })
            }
        }),
{
    if targets.len() > 0 {
        let n = targets.len();
        let bps = s.effective_bps(source, asset);
        let rate = bps as int;
        rates_are_capped(s, source, asset);
        when_a_batch_is_accepted(s, source, targets, amounts, asset, nonce, deadline);
        sum_is_total(amounts, n);
        assert(amounts.take(n as int) =~= amounts);
        assert forall|i: int| 0 <= i < n implies (#[trigger] amounts[i]) > 0 by {
            assert(is_enough(s, amounts[i] as int));
        }
        a_tally_adds_up(s, source, asset, bps, targets, amounts, n);
        batch_is_balanced(s, source, targets, amounts, asset, nonce);
        let tally = batch_tally(s, source, targets, amounts, asset);
        assert(payout_transfers(asset, s.ledger.contract, tally.payouts) =~= deliveries(
            s,
            asset,
            rate,
            targets,
            amounts,
            n,
        )) by {
            let to = receivers(s, targets, n);
            assert forall|k: int| 0 <= k < to.len() implies (#[trigger] tally.payouts[k]).to
                == to[k] by {}
        }
    }
}

/// A batch of one target that may receive does to the books what a funding does.
pub proof fn a_batch_of_one_is_a_funding(
    s: BridgeState,
    source: Address,
    target: Address,
    asset: Address,
    amount: i128,
    nonce: Option<u64>,
    deadline: Option<u64>,
)
    requires
        s.wf(),
        fund_error(s, source, target, asset, amount, nonce, deadline) is None,
    ensures
        batch_error(s, source, seq![target], seq![amount], asset, nonce, deadline) is None,
        ({
            let t = batch_effect(s, source, seq![target], seq![amount], asset, nonce);
            t == (BridgeState {
                actions: t.actions,
                ..fund_effect(s, source, target, asset, amount, nonce)
            })
        }),
{
    let targets = seq![target];
    let amounts = seq![amount];
    reveal_with_fuel(total, 2);
    when_fund_is_accepted(s, source, target, asset, amount, nonce, deadline);
    when_a_batch_is_accepted(s, source, targets, amounts, asset, nonce, deadline);
    what_fund_does(s, source, target, asset, amount, nonce, deadline);
    what_a_batch_does(s, source, targets, amounts, asset, nonce, deadline);
}

} // verus!
