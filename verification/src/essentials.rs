//! The central rules of funding, spelled out entry by entry: what each kind of
//! transfer costs, moves and rewards, and which swaps and attested transfers are
//! accepted.
use vstd::prelude::*;

use crate::acceptance::{
    signers_are_distinct_relayers, when_a_crosschain_transfer_is_accepted, when_a_swap_is_accepted,
    when_fund_is_accepted, when_referral_is_accepted,
};
use crate::actions::{Action, Event};
use crate::batch::{batch_effect, batch_error};
use crate::batches::{deliveries, reports, returned_for, served, total, what_a_batch_does};
use crate::bytes::{Bytes32, Signature};
use crate::commit_reveal::{commit_effect, reveal_effect, reveal_error};
use crate::crosschain::{crosschain_effect, crosschain_error};
use crate::deliveries::{
    what_a_crosschain_transfer_does, what_a_meta_transaction_does, what_a_reveal_does,
    what_beginning_a_swap_does, what_completing_a_swap_does, what_fund_does, what_referral_does,
};
use crate::errors::BridgeError;
use crate::fees::{fee_bounds, rates_are_capped};
use crate::funding::{fund_effect, fund_error, referral_effect, referral_error};
use crate::meta_tx::{meta_fund_effect, meta_fund_error};
use crate::readings::{may_receive, reward_of};
use crate::state::BridgeState;
use crate::swap::{complete_swap_effect, complete_swap_error, swap_effect, swap_error, PendingSwap};
use crate::timelock::{claim_effect, lock_effect};
use crate::types::{Address, MetaFundParams, RelayerSig, SourceAsset, SourceAssetDay};

verus! {

/// Whether a call that started with `s` and ended with `t` has moved an amount from a
/// source to a target at a fee: it has moved the amount into the bridge and the rest
/// to the target, in this order, and nothing else; the fee has been added to the
/// accrued fees and to the fees collected of the asset, and the rest to what has been
/// bridged of it.
pub open spec fn transfer_at_a_fee(
    s: BridgeState,
    t: BridgeState,
    source: Address,
    target: Address,
    asset: Address,
    amount: i128,
    fee: int,
) -> bool {
    let contract = s.ledger.contract;
    let known = s.asset_stats.contains_key(asset);
    &&& t.asset_stats.contains_key(asset)
    &&& t.asset_stats[asset].accrued_fees == fee + (if known {
        s.asset_stats[asset].accrued_fees as int
    } else {
        0
    })
    &&& t.asset_stats[asset].total_fees_collected == fee + (if known {
        s.asset_stats[asset].total_fees_collected as int
    } else {
        0
    })
    &&& t.asset_stats[asset].total_bridged == amount - fee + (if known {
        s.asset_stats[asset].total_bridged as int
    } else {
        0
    })
    &&& t.asset_stats[asset].locked_timelock == (if known {
        s.asset_stats[asset].locked_timelock as int
    } else {
        0
    })
    &&& exists|i: int, o: int|
        {
            &&& s.actions.len() <= i < o < t.actions.len()
            &&& #[trigger] t.actions[i] == (Action::Transfer {
                asset,
                from: source,
                to: contract,
                amount,
            })
            &&& #[trigger] t.actions[o] == (Action::Transfer {
                asset,
                from: contract,
                to: target,
                amount: (amount - fee) as i128,
            })
            &&& forall|k: int|
                s.actions.len() <= k < t.actions.len() && k != i && k != o
                    ==> !((#[trigger] t.actions[k]) is Transfer)
        }
}

/// Whether a call that started with `s` and ended with `t` has rewarded an address:
/// once, with the amount and the token that are set, where a token and a positive
/// amount are set, and otherwise not at all. Nobody else is rewarded.
pub open spec fn rewards(s: BridgeState, t: BridgeState, recipient: Address) -> bool {
    let set = s.instance.loyalty_token is Some && s.instance.loyalty_amount_per_fund is Some
        && s.instance.loyalty_amount_per_fund->0 > 0;
    &&& set ==> exists|i: int|
        {
            &&& s.actions.len() <= i < t.actions.len()
            &&& #[trigger] t.actions[i] == (Action::RewardLoyalty {
                token: s.instance.loyalty_token->0,
                recipient,
                amount: s.instance.loyalty_amount_per_fund->0,
            })
            &&& forall|k: int|
                s.actions.len() <= k < t.actions.len() && k != i
                    ==> !((#[trigger] t.actions[k]) is RewardLoyalty)
        }
    &&& !set ==> rewards_nobody(s, t)
}

/// Whether a call that started with `s` and ended with `t` has rewarded nobody.
pub open spec fn rewards_nobody(s: BridgeState, t: BridgeState) -> bool {
    forall|k: int|
        s.actions.len() <= k < t.actions.len() ==> !((#[trigger] t.actions[k]) is RewardLoyalty)
}

/// Shows where the transfers stand that a call asks for.
proof fn transfers_stand_at(
    s: BridgeState,
    t: BridgeState,
    source: Address,
    target: Address,
    asset: Address,
    amount: i128,
    fee: int,
    i: int,
)
    requires
        s.actions.len() <= i,
        i + 1 < t.actions.len(),
        t.actions[i] == (Action::Transfer {
            asset,
            from: source,
            to: s.ledger.contract,
            amount,
        }),
        t.actions[i + 1] == (Action::Transfer {
            asset,
            from: s.ledger.contract,
            to: target,
            amount: (amount - fee) as i128,
        }),
        forall|k: int|
            s.actions.len() <= k < t.actions.len() && k != i && k != i + 1
                ==> !((#[trigger] t.actions[k]) is Transfer),
    ensures
        exists|i: int, o: int|
            {
                &&& s.actions.len() <= i < o < t.actions.len()
                &&& #[trigger] t.actions[i] == (Action::Transfer {
                    asset,
                    from: source,
                    to: s.ledger.contract,
                    amount,
                })
                &&& #[trigger] t.actions[o] == (Action::Transfer {
                    asset,
                    from: s.ledger.contract,
                    to: target,
                    amount: (amount - fee) as i128,
                })
                &&& forall|k: int|
                    s.actions.len() <= k < t.actions.len() && k != i && k != o
                        ==> !((#[trigger] t.actions[k]) is Transfer)
            },
{
    let o = i + 1;
    assert(t.actions[i] is Transfer && t.actions[o] is Transfer);
}

/// A funding costs the share that the rate of its source for the asset makes of the
/// amount, and rewards the source.
pub proof fn a_funding_costs_and_rewards(
    s: BridgeState,
    source: Address,
    target: Address,
    asset: Address,
    amount: i128,
    nonce: Option<u64>,
    deadline: Option<u64>,
)
    requires
        s.wf(),
        fund_error(s, source, target, asset, amount, nonce, deadline) is None,
    ensures
        ({
            let t = fund_effect(s, source, target, asset, amount, nonce);
            let fee = (amount * s.effective_bps(source, asset)) / 10_000;
            &&& transfer_at_a_fee(s, t, source, target, asset, amount, fee)
            &&& t.actions.last() == (Action::Publish {
                event: Event::CAddressFunded { asset, source, target, amount, fee: fee as i128 },
            })
            &&& rewards(s, t, source)
        }),
{
    what_fund_does(s, source, target, asset, amount, nonce, deadline);
    let t = fund_effect(s, source, target, asset, amount, nonce);
    let fee = (amount * s.effective_bps(source, asset)) / 10_000;
    let n = s.actions.len() as int;
    transfers_stand_at(s, t, source, target, asset, amount, fee, n + 2);
    if !rewards_nobody(s, t) {
        assert(t.actions[n + 4] is RewardLoyalty);
    }
}

/// A reveal costs the share that the rate of its source for the asset makes of the
/// amount, and rewards the source.
pub proof fn a_reveal_costs_and_rewards(
    s: BridgeState,
    id: u64,
    source: Address,
    target: Address,
    asset: Address,
    amount: i128,
    computed: Bytes32,
)
    requires
        s.wf(),
        reveal_error(s, id, source, target, asset, amount, computed) is None,
    ensures
        ({
            let t = reveal_effect(s, id, source, target, asset, amount);
            let fee = (amount * s.effective_bps(source, asset)) / 10_000;
            &&& transfer_at_a_fee(s, t, source, target, asset, amount, fee)
            &&& t.actions.last() == (Action::Publish {
                event: Event::CommitRevealFunded {
                    asset,
                    source,
                    target,
                    commitment_id: id,
                    amount,
                    fee: fee as i128,
                },
            })
            &&& rewards(s, t, source)
        }),
{
    what_a_reveal_does(s, id, source, target, asset, amount, computed);
    let t = reveal_effect(s, id, source, target, asset, amount);
    let fee = (amount * s.effective_bps(source, asset)) / 10_000;
    let n = s.actions.len() as int;
    transfers_stand_at(s, t, source, target, asset, amount, fee, n + 1);
    if !rewards_nobody(s, t) {
        assert(t.actions[n + 4] is RewardLoyalty);
    }
}

/// A meta-transaction costs the share that the rate of its source for the asset makes
/// of the amount, and rewards the source. Its books and its transfers are those of a
/// funding of the same amount by the same source.
pub proof fn a_meta_transaction_costs_and_rewards(
    s: BridgeState,
    p: MetaFundParams,
    pubkey: Bytes32,
    signature: Signature,
    payload: Result<Bytes32, BridgeError>,
)
    requires
        s.wf(),
        meta_fund_error(s, p, pubkey, payload) is None,
    ensures
        ({
            let t = meta_fund_effect(s, p, pubkey, signature, payload->Ok_0);
            let plain = fund_effect(s, p.source, p.target, p.asset, p.amount, None);
            let fee = (p.amount * s.effective_bps(p.source, p.asset)) / 10_000;
            &&& transfer_at_a_fee(s, t, p.source, p.target, p.asset, p.amount, fee)
            &&& transfer_at_a_fee(s, plain, p.source, p.target, p.asset, p.amount, fee)
            &&& t.asset_stats == plain.asset_stats
            &&& t.accrued_fees == plain.accrued_fees
            &&& t.total_bridged == plain.total_bridged
            &&& t.total_fees_collected == plain.total_fees_collected
            &&& t.source_bridged_volume == plain.source_bridged_volume
            &&& t.user_deposit == plain.user_deposit
            &&& t.daily_usage == plain.daily_usage
            &&& t.actions.last() == (Action::Publish {
                event: Event::MetaFundExecuted {
                    asset: p.asset,
                    source: p.source,
                    target: p.target,
                    amount: p.amount,
                    fee: fee as i128,
                    nonce: p.nonce,
                },
            })
            &&& rewards(s, t, p.source)
        }),
{
    what_a_meta_transaction_does(s, p, pubkey, signature, payload);
    a_funding_costs_and_rewards(s, p.source, p.target, p.asset, p.amount, None, None);
    let t = meta_fund_effect(s, p, pubkey, signature, payload->Ok_0);
    let fee = (p.amount * s.effective_bps(p.source, p.asset)) / 10_000;
    let n = s.actions.len() as int;
    transfers_stand_at(s, t, p.source, p.target, p.asset, p.amount, fee, n + 1);
    if !rewards_nobody(s, t) {
        assert(t.actions[n + 4] is RewardLoyalty);
    }
}

/// Whether an address stands on a whitelist.
pub open spec fn on_whitelist(m: Map<(u32, u128, u128), bool>, a: Address) -> bool {
    let key = (
        if a.kind is Account {
            0u32
        } else {
            1u32
        },
        a.id.hi,
        a.id.lo,
    );
    m.contains_key(key) && m[key]
}

/// Whether the bridge runs: it is set up, neither left nor paused, and no call is in
/// progress.
pub open spec fn runs(s: BridgeState) -> bool {
    &&& s.instance.initialized
    &&& !s.instance.deactivated
    &&& !s.instance.entered
    &&& s.instance.config matches Some(c) ==> !c.paused
}

/// Whether an address is neither blocked nor, where only allowlisted addresses may
/// receive, left out.
pub open spec fn is_welcome(s: BridgeState, a: Address) -> bool {
    &&& !(s.blocked.contains_key(a) && s.blocked[a])
    &&& s.instance.config matches Some(c) ==> (c.allowlist_mode ==> s.allowlisted.contains_key(a)
        && s.allowlisted[a])
}

/// A swap is accepted exactly where the bridge runs, a deadline has not passed, both
/// amounts are positive, the target is welcome, the target asset is whitelisted, the
/// route is one whitelisted pool, and a nonce is the next of the source.
pub proof fn a_swap_is_accepted_exactly(
    s: BridgeState,
    source: Address,
    target: Address,
    target_asset: Address,
    source_amount: i128,
    min_target_amount: i128,
    swap_route: Seq<Address>,
    nonce: Option<u64>,
    deadline: Option<u64>,
)
    ensures
        swap_error(
            s,
            source,
            target,
            target_asset,
            source_amount,
            min_target_amount,
            swap_route,
            nonce,
            deadline,
        ) is None <==> {
            &&& runs(s)
            &&& deadline is Some ==> s.ledger.timestamp <= deadline->0
            &&& source_amount > 0
            &&& min_target_amount > 0
            &&& is_welcome(s, target)
            &&& on_whitelist(s.asset_whitelist, target_asset)
            &&& swap_route.len() == 1
            &&& on_whitelist(s.pool_whitelist, swap_route[0])
            &&& nonce is Some ==> nonce->0 == (if s.nonce.contains_key(source) {
                s.nonce[source]
            } else {
                0
            })
        },
{
    when_a_swap_is_accepted(
        s,
        source,
        target,
        target_asset,
        source_amount,
        min_target_amount,
        swap_route,
        nonce,
        deadline,
    );
}

/// An attested transfer is accepted exactly where the bridge runs, the amount is
/// positive, the target is welcome, the asset is whitelisted, the event has not been
/// processed, every signer is a relayer and signs once, there are as many signatures
/// as the threshold asks or more, there is a hash to sign, and the totals have room.
/// For want of signatures it is refused only where there are fewer than that.
pub proof fn an_attested_transfer_is_accepted_exactly(
    s: BridgeState,
    target: Address,
    asset: Address,
    amount: i128,
    sigs: Seq<RelayerSig>,
    nonce: Bytes32,
    payload: Result<Bytes32, BridgeError>,
)
    requires
        s.wf(),
    ensures
        ({
            let e = crosschain_error(s, target, asset, amount, sigs, nonce, payload);
            let threshold: int = match s.instance.relayer_threshold {
                Some(n) => n as int,
                None => 1,
            };
            let global: int = match s.instance.config {
                Some(c) => c.fee_bps as int,
                None => 0,
            };
            let cap: int = if s.asset_fee_cap.contains_key(asset) {
                s.asset_fee_cap[asset] as int
            } else {
                1_000
            };
            let rate = if global <= cap {
                global
            } else {
                cap
            };
            let fee = (amount * rate) / 10_000;
            let known = s.asset_stats.contains_key(asset);
            let old = s.asset_stats[asset];
            let welcome = runs(s) && amount > 0 && is_welcome(s, target) && on_whitelist(
                s.asset_whitelist,
                asset,
            ) && !(s.cross_chain_nonce.contains_key(nonce) && s.cross_chain_nonce[nonce]);
            let signers = forall|i: int|
                0 <= i < sigs.len() ==> s.relayer.contains_key((#[trigger] sigs[i]).pubkey)
                    && s.relayer[sigs[i].pubkey];
            let distinct = forall|i: int, j: int|
                0 <= i < j < sigs.len() ==> (#[trigger] sigs[i]).pubkey != (
                #[trigger] sigs[j]).pubkey;
            let room = amount * rate <= i128::MAX && (known ==> {
                &&& old.accrued_fees + fee <= i128::MAX
                &&& old.total_bridged + amount - fee <= i128::MAX
                &&& old.total_fees_collected + fee <= i128::MAX
            });
            &&& e is None <==> welcome && signers && distinct && sigs.len() >= threshold
                && payload is Ok && room
            &&& e == Some(BridgeError::BelowThreshold) && payload is Ok ==> sigs.len() < threshold
            &&& welcome && signers && distinct && sigs.len() < threshold ==> e == Some(
                BridgeError::BelowThreshold,
            )
        }),
{
    when_a_crosschain_transfer_is_accepted(s, target, asset, amount, sigs, nonce, payload);
    if amount > 0 {
        let rate = s.capped_bps(asset, s.config().fee_bps);
        fee_bounds(amount as int, rate as int);
    }
    assert(signers_are_distinct_relayers(s, sigs) <==> (forall|i: int|
        0 <= i < sigs.len() ==> s.relayer.contains_key((#[trigger] sigs[i]).pubkey)
            && s.relayer[sigs[i].pubkey]) && (forall|i: int, j: int|
        0 <= i < j < sigs.len() ==> (#[trigger] sigs[i]).pubkey != (#[trigger] sigs[j]).pubkey));
}

/// A funding is accepted exactly where the bridge runs, a deadline has not passed, the
/// amount is positive and not below the minimum, the target is welcome, the asset is
/// whitelisted, the source stays within its daily limit, a nonce is the next of the
/// source, and the books have room.
pub proof fn a_funding_is_accepted_exactly(
    s: BridgeState,
    source: Address,
    target: Address,
    asset: Address,
    amount: i128,
    nonce: Option<u64>,
    deadline: Option<u64>,
)
    requires
        s.wf(),
    ensures
        ({
            let pair = SourceAsset { source, asset };
            let day = SourceAssetDay { source, asset, day: (s.ledger.timestamp / 86_400) as u64 };
            let limit: int = if s.source_daily_limit.contains_key(pair) {
                s.source_daily_limit[pair] as int
            } else {
                0
            };
            let used: int = if s.daily_usage.contains_key(day) {
                s.daily_usage[day] as int
            } else {
                0
            };
            let deposit: int = if s.user_deposit.contains_key(pair) {
                s.user_deposit[pair] as int
            } else {
                0
            };
            let volume: int = if s.source_bridged_volume.contains_key(source) {
                s.source_bridged_volume[source] as int
            } else {
                0
            };
            let rate = s.effective_bps(source, asset) as int;
            let fee = (amount * rate) / 10_000;
            let known = s.asset_stats.contains_key(asset);
            let old = s.asset_stats[asset];
            fund_error(s, source, target, asset, amount, nonce, deadline) is None <==> {
                &&& runs(s)
                &&& deadline is Some ==> s.ledger.timestamp <= deadline->0
                &&& amount > 0
                &&& s.instance.minimum_amount is Some ==> amount >= s.instance.minimum_amount->0
                &&& is_welcome(s, target)
                &&& on_whitelist(s.asset_whitelist, asset)
                &&& limit != 0 ==> used + amount <= limit
                &&& nonce is Some ==> nonce->0 == (if s.nonce.contains_key(source) {
                    s.nonce[source]
                } else {
                    0
                })
                &&& amount * rate <= i128::MAX
                &&& deposit + amount <= i128::MAX
                &&& volume + amount <= i128::MAX
                &&& known ==> {
                    &&& old.accrued_fees + fee <= i128::MAX
                    &&& old.total_bridged + amount - fee <= i128::MAX
                    &&& old.total_fees_collected + fee <= i128::MAX
                }
            }
        }),
{
    when_fund_is_accepted(s, source, target, asset, amount, nonce, deadline);
    if amount > 0 {
        rates_are_capped(s, source, asset);
        fee_bounds(amount as int, s.effective_bps(source, asset) as int);
    }
}

/// A referral funding rewards its source.
pub proof fn a_referral_rewards_the_source(
    s: BridgeState,
    source: Address,
    target: Address,
    asset: Address,
    amount: i128,
    referrer: Option<Address>,
)
    requires
        s.wf(),
        referral_error(s, source, target, asset, amount, referrer) is None,
    ensures
        rewards(s, referral_effect(s, source, target, asset, amount, referrer), source),
{
    what_referral_does(s, source, target, asset, amount, referrer);
    let t = referral_effect(s, source, target, asset, amount, referrer);
    let n = s.actions.len() as int;
    if t == fund_effect(s, source, target, asset, amount, None) {
        when_referral_is_accepted(s, source, target, asset, amount, referrer);
        when_fund_is_accepted(s, source, target, asset, amount, None, None);
        if fund_error(s, source, target, asset, amount, None, None) is None {
            a_funding_costs_and_rewards(s, source, target, asset, amount, None, None);
        }
    } else if !rewards_nobody(s, t) {
        assert(t.actions[n + 6] is RewardLoyalty);
    }
}

/// A timelocked funding rewards its source, and the claim of what was locked rewards
/// nobody.
pub proof fn a_lock_rewards_the_source(
    s: BridgeState,
    source: Address,
    target: Address,
    asset: Address,
    amount: i128,
    release_time: u64,
    cliff_time: u64,
    nonce: Option<u64>,
    id: u64,
)
    ensures
        rewards(
            s,
            lock_effect(s, source, target, asset, amount, release_time, cliff_time, nonce),
            source,
        ),
        rewards_nobody(s, claim_effect(s, id)),
{
    let t = lock_effect(s, source, target, asset, amount, release_time, cliff_time, nonce);
    let n = s.actions.len() as int;
    if !rewards_nobody(s, t) {
        assert(t.actions[n + 3] is RewardLoyalty);
    }
}

/// A commitment rewards nobody: its reveal does.
pub proof fn a_commitment_rewards_nobody(
    s: BridgeState,
    source: Address,
    target: Address,
    asset: Address,
    amount_hash: Bytes32,
    deadline: u64,
)
    ensures
        rewards_nobody(s, commit_effect(s, source, target, asset, amount_hash, deadline)),
{
}

/// A swap rewards its source, and does so when it is completed.
pub proof fn a_swap_rewards_the_source(
    s: BridgeState,
    p: PendingSwap,
    reported: i128,
    balance_before: i128,
    balance_after: i128,
)
    requires
        s.wf(),
    ensures
        rewards_nobody(s, swap_effect(s, p)),
        complete_swap_error(s, p, reported, balance_before, balance_after) is None ==> rewards(
            s,
            complete_swap_effect(s, p, reported),
            p.source,
        ),
{
    what_beginning_a_swap_does(s, p);
    if complete_swap_error(s, p, reported, balance_before, balance_after) is None {
        what_completing_a_swap_does(s, p, reported, balance_before, balance_after);
        let t = complete_swap_effect(s, p, reported);
        let n = s.actions.len() as int;
        if !rewards_nobody(s, t) {
            assert(t.actions[n + 1] is RewardLoyalty);
        }
    }
}

/// An attested transfer rewards its target.
pub proof fn an_attested_transfer_rewards_the_target(
    s: BridgeState,
    chain_id: u32,
    tx_hash: Bytes32,
    target: Address,
    asset: Address,
    amount: i128,
    sigs: Seq<RelayerSig>,
    nonce: Bytes32,
    payload: Result<Bytes32, BridgeError>,
)
    requires
        s.wf(),
        crosschain_error(s, target, asset, amount, sigs, nonce, payload) is None,
    ensures
        rewards(
            s,
            crosschain_effect(
                s,
                chain_id,
                tx_hash,
                target,
                asset,
                amount,
                sigs,
                nonce,
                payload->Ok_0,
            ),
            target,
        ),
{
    what_a_crosschain_transfer_does(
        s,
        chain_id,
        tx_hash,
        target,
        asset,
        amount,
        sigs,
        nonce,
        payload,
    );
    let t = crosschain_effect(
        s,
        chain_id,
        tx_hash,
        target,
        asset,
        amount,
        sigs,
        nonce,
        payload->Ok_0,
    );
    let n = (s.actions.len() + sigs.len()) as int;
    if !rewards_nobody(s, t) {
        assert(t.actions[n + 2] is RewardLoyalty);
    }
}

/// A batch rewards its source once, however many targets it has, where one of them
/// may receive, and otherwise nobody.
pub proof fn a_batch_rewards_the_source(
    s: BridgeState,
    source: Address,
    targets: Seq<Address>,
    amounts: Seq<i128>,
    asset: Address,
    nonce: Option<u64>,
    deadline: Option<u64>,
)
    requires
        s.wf(),
        batch_error(s, source, targets, amounts, asset, nonce, deadline) is None,
    ensures
        ({
            let t = batch_effect(s, source, targets, amounts, asset, nonce);
            let any = exists|i: int| 0 <= i < targets.len() && is_welcome(s, #[trigger] targets[i]);
            &&& any ==> rewards(s, t, source)
            &&& !any ==> rewards_nobody(s, t)
        }),
{
    what_a_batch_does(s, source, targets, amounts, asset, nonce, deadline);
    let t = batch_effect(s, source, targets, amounts, asset, nonce);
    let n = targets.len();
    served_counts(s, targets, n);
    if n > 0 {
        let rate = s.effective_bps(source, asset) as int;
        let a = reports(s, source, asset, rate, targets, amounts, n);
        let b = deliveries(s, asset, rate, targets, amounts, n);
        let back = if total(n, returned_for(s, targets, amounts)) > 0 {
            1int
        } else {
            0
        };
        let at = s.actions.len() + 3 + a.len() + b.len() + back;
        if total(n, served(s, targets)) > 0 && reward_of(s, source).len() > 0 {
            assert(t.actions[at] is RewardLoyalty);
        }
    }
}

/// The number of targets that are served is positive exactly where one may receive.
proof fn served_counts(s: BridgeState, targets: Seq<Address>, n: nat)
    requires
        n <= targets.len(),
    ensures
        total(n, served(s, targets)) >= 0,
        total(n, served(s, targets)) > 0 <==> exists|i: int|
            0 <= i < n && is_welcome(s, #[trigger] targets[i]),
    decreases n,
{
    if n > 0 {
        served_counts(s, targets, (n - 1) as nat);
        assert(is_welcome(s, targets[n - 1]) <==> may_receive(s, targets[n - 1]));
    }
}

} // verus!
