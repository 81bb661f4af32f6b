//! What a funding call does: who is asked, what is moved, whom it rewards, and what
//! is counted.
use vstd::prelude::*;

use crate::actions::{Action, Event};
use crate::bytes::{Bytes32, Signature};
use crate::commit_reveal::{commit_effect, reveal_effect, reveal_error};
use crate::crosschain::{crosschain_effect, crosschain_error, verifications};
use crate::errors::BridgeError;
use crate::fees::{fee_bounds, rates_are_capped};
use crate::funding::{fund_effect, fund_error, referral_effect, referral_error, share_bounds};
use crate::meta_tx::{meta_fund_effect, meta_fund_error};
use crate::readings::{
    a_charge_splits_the_amount, alive_request, bridged_by, cap_on, deposited_by, global_rate,
    in_range, lower, nonces_after, reward_of, totals_of, usage_after,
};
use crate::state::{BridgeState, Instance};
use crate::swap::{complete_swap_effect, complete_swap_error, swap_effect, PendingSwap};
use crate::timelock::{claim_effect, claim_error, lock_effect};
use crate::types::{
    Address, CommitmentEntry, MetaFundParams, RelayerSig, SourceAsset, SourceNonce,
    TimelockEntry,
};

verus! {

/// Whether the totals of an asset, and the copies of three of them, have grown by
/// the part of a fee that is kept, by what was delivered and by the fee; whether
/// what is locked of it is `locked`; and whether no other asset is concerned.
pub open spec fn totals_grow(
    s: BridgeState,
    t: BridgeState,
    asset: Address,
    kept: int,
    net: int,
    fee: int,
    locked: int,
) -> bool {
    let before = totals_of(s, asset);
    let c = totals_of(t, asset);
    &&& c.accrued_fees == before.accrued_fees + kept
    &&& c.total_bridged == before.total_bridged + net
    &&& c.total_fees_collected == before.total_fees_collected + fee
    &&& c.locked_timelock == locked
    &&& t.asset_stats == s.asset_stats.insert(asset, c)
    &&& t.accrued_fees == s.accrued_fees.insert(asset, c.accrued_fees)
    &&& t.total_bridged == s.total_bridged.insert(asset, c.total_bridged)
    &&& t.total_fees_collected == s.total_fees_collected.insert(asset, c.total_fees_collected)
}

/// Whether an amount more is counted as bridged by a source.
pub open spec fn volume_grows(
    s: BridgeState,
    t: BridgeState,
    source: Address,
    amount: int,
) -> bool {
    &&& bridged_by(t, source) == bridged_by(s, source) + amount
    &&& t.source_bridged_volume == s.source_bridged_volume.insert(
        source,
        t.source_bridged_volume[source],
    )
    &&& t.source_bridged_volume.contains_key(source)
}

/// Whether an amount more is counted as deposited by a source.
pub open spec fn deposit_grows(
    s: BridgeState,
    t: BridgeState,
    source: Address,
    asset: Address,
    amount: int,
) -> bool {
    let k = SourceAsset { source, asset };
    &&& deposited_by(t, source, asset) == deposited_by(s, source, asset) + amount
    &&& t.user_deposit.contains_key(k)
    &&& t.user_deposit == s.user_deposit.insert(k, t.user_deposit[k])
}

/// A funding call takes the amount from the source, whom it has asked, delivers it
/// to the target less the share that the rate of the source makes, rewards the
/// source, and counts all of it.
pub proof fn what_fund_does(
    s: BridgeState,
    source: Address,
    target: Address,
    asset: Address,
    amount: i128,
    nonce: Option<u64>,
    deadline: Option<u64>,
)
    requires
        s.wf(),
        fund_error(s, source, target, asset, amount, nonce, deadline) is None,
    ensures
        ({
            let t = fund_effect(s, source, target, asset, amount, nonce);
            let fee = (amount * s.effective_bps(source, asset)) / 10_000;
            let net = amount - fee;
            let contract = s.ledger.contract;
            &&& 0 <= fee
            &&& 0 < net
            &&& t.actions == s.actions + seq![
                Action::RequireAuth { address: source },
                alive_request(s),
                Action::Transfer { asset, from: source, to: contract, amount },
                Action::Transfer { asset, from: contract, to: target, amount: net as i128 },
            ] + reward_of(s, source) + seq![
                Action::Publish {
                    event: Event::CAddressFunded {
                        asset,
                        source,
                        target,
                        amount,
                        fee: fee as i128,
                    },
                },
            ]
            &&& totals_grow(s, t, asset, fee, net, fee, totals_of(s, asset).locked_timelock as int)
            &&& volume_grows(s, t, source, amount as int)
            &&& deposit_grows(s, t, source, asset, amount as int)
            &&& t.daily_usage == usage_after(s, source, asset, amount as int)
            &&& t.nonce == nonces_after(s, source, nonce)
            &&& t == (BridgeState {
                asset_stats: t.asset_stats,
                accrued_fees: t.accrued_fees,
                total_bridged: t.total_bridged,
                total_fees_collected: t.total_fees_collected,
                source_bridged_volume: t.source_bridged_volume,
                user_deposit: t.user_deposit,
                daily_usage: t.daily_usage,
                nonce: t.nonce,
                actions: t.actions,
                ..s
            })
        }),
{
    rates_are_capped(s, source, asset);
    a_charge_splits_the_amount(amount, s.effective_bps(source, asset));
    fee_bounds(amount as int, s.effective_bps(source, asset) as int);
}

/// Without a referrer, or where the referrer gets no share, a referral funding is a
/// funding without a nonce. Otherwise the referrer is paid its share of the fee at
/// once, right after the target, and the bridge keeps that much less.
pub proof fn what_referral_does(
    s: BridgeState,
    source: Address,
    target: Address,
    asset: Address,
    amount: i128,
    referrer: Option<Address>,
)
    requires
        s.wf(),
        referral_error(s, source, target, asset, amount, referrer) is None,
    ensures
        ({
            let t = referral_effect(s, source, target, asset, amount, referrer);
            let plain = fund_effect(s, source, target, asset, amount, None);
            let fee = (amount * s.effective_bps(source, asset)) / 10_000;
            let net = amount - fee;
            let rate = match s.instance.referral_rate {
                Some(rate) => rate as int,
                None => 0,
            };
            let share = (fee * rate) / 10_000;
            let contract = s.ledger.contract;
            &&& referrer is None || share == 0 ==> t == plain
            &&& 0 <= share <= fee
            &&& referrer matches Some(to) ==> (share > 0 ==> {
                &&& t.actions == s.actions + seq![
                    Action::RequireAuth { address: source },
                    alive_request(s),
                    Action::Transfer { asset, from: source, to: contract, amount },
                    Action::Transfer { asset, from: contract, to: target, amount: net as i128 },
                    Action::Transfer { asset, from: contract, to, amount: share as i128 },
                    Action::Publish {
                        event: Event::ReferralPaid {
                            source,
                            referrer: to,
                            amount: share as i128,
                            asset,
                        },
                    },
                ] + reward_of(s, source) + seq![
                    Action::Publish {
                        event: Event::CAddressFunded {
                            asset,
                            source,
                            target,
                            amount,
                            fee: fee as i128,
                        },
                    },
                ]
                &&& totals_grow(
                    s,
                    t,
                    asset,
                    fee - share,
                    net,
                    fee,
                    totals_of(s, asset).locked_timelock as int,
                )
                &&& t == (BridgeState {
                    asset_stats: t.asset_stats,
                    accrued_fees: t.accrued_fees,
                    total_bridged: t.total_bridged,
                    total_fees_collected: t.total_fees_collected,
                    actions: t.actions,
                    ..plain
                })
            })
        }),
{
    rates_are_capped(s, source, asset);
    a_charge_splits_the_amount(amount, s.effective_bps(source, asset));
    fee_bounds(amount as int, s.effective_bps(source, asset) as int);
    let fee = s.charge(source, asset, amount)->Ok_0.fee;
    share_bounds(s, fee, referrer);
    share_bounds(s, fee, Some(source));
}

/// A meta-transaction does to the books what a funding by its source does, and moves
/// and rewards the same: the source is not asked, but its signature on the hash is
/// verified before anything else, and the number of the transaction is used up.
pub proof fn what_a_meta_transaction_does(
    s: BridgeState,
    p: MetaFundParams,
    pubkey: Bytes32,
    signature: Signature,
    payload: Result<Bytes32, BridgeError>,
)
    requires
        s.wf(),
        meta_fund_error(s, p, pubkey, payload) is None,
    ensures
        ({
            let message = payload->Ok_0;
            let t = meta_fund_effect(s, p, pubkey, signature, message);
            let plain = fund_effect(s, p.source, p.target, p.asset, p.amount, None);
            let fee = (p.amount * s.effective_bps(p.source, p.asset)) / 10_000;
            let net = p.amount - fee;
            let contract = s.ledger.contract;
            &&& fund_error(s, p.source, p.target, p.asset, p.amount, None, None) is None
            &&& t.actions == s.actions + seq![
                Action::VerifySignature { pubkey, message, signature },
                Action::Transfer {
                    asset: p.asset,
                    from: p.source,
                    to: contract,
                    amount: p.amount,
                },
                Action::Transfer {
                    asset: p.asset,
                    from: contract,
                    to: p.target,
                    amount: net as i128,
                },
                alive_request(s),
            ] + reward_of(s, p.source) + seq![
                Action::Publish {
                    event: Event::MetaFundExecuted {
                        asset: p.asset,
                        source: p.source,
                        target: p.target,
                        amount: p.amount,
                        fee: fee as i128,
                        nonce: p.nonce,
                    },
                },
            ]
            &&& totals_grow(
                s,
                t,
                p.asset,
                fee,
                net,
                fee,
                totals_of(s, p.asset).locked_timelock as int,
            )
            &&& t.meta_tx_nonce == s.meta_tx_nonce.insert(
                SourceNonce { source: p.source, nonce: p.nonce },
                true,
            )
            &&& t == (BridgeState {
                meta_tx_nonce: t.meta_tx_nonce,
                actions: t.actions,
                ..plain
            })
        }),
{
    rates_are_capped(s, p.source, p.asset);
    a_charge_splits_the_amount(p.amount, s.effective_bps(p.source, p.asset));
    fee_bounds(p.amount as int, s.effective_bps(p.source, p.asset) as int);
}

/// A reveal takes the amount from the source, whom it has asked, delivers it to the
/// target less the share that the rate of the source makes, rewards the source, and
/// books what a funding by the source books, but neither a deposit nor a use of the
/// daily limit. The commitment is revealed, and is otherwise what it was.
pub proof fn what_a_reveal_does(
    s: BridgeState,
    id: u64,
    source: Address,
    target: Address,
    asset: Address,
    amount: i128,
    computed: Bytes32,
)
    requires
        s.wf(),
        reveal_error(s, id, source, target, asset, amount, computed) is None,
    ensures
        ({
            let t = reveal_effect(s, id, source, target, asset, amount);
            let plain = fund_effect(s, source, target, asset, amount, None);
            let fee = (amount * s.effective_bps(source, asset)) / 10_000;
            let net = amount - fee;
            let contract = s.ledger.contract;
            &&& 0 <= fee
            &&& 0 < net
            &&& t.actions == s.actions + seq![
                Action::RequireAuth { address: source },
                Action::Transfer { asset, from: source, to: contract, amount },
                Action::Transfer { asset, from: contract, to: target, amount: net as i128 },
                alive_request(s),
            ] + reward_of(s, source) + seq![
                Action::Publish {
                    event: Event::CommitRevealFunded {
                        asset,
                        source,
                        target,
                        commitment_id: id,
                        amount,
                        fee: fee as i128,
                    },
                },
            ]
            &&& totals_grow(s, t, asset, fee, net, fee, totals_of(s, asset).locked_timelock as int)
            &&& volume_grows(s, t, source, amount as int)
            &&& t.commitment == s.commitment.insert(
                id,
                CommitmentEntry { revealed: true, ..s.commitment[id] },
            )
            &&& t == (BridgeState {
                commitment: t.commitment,
                user_deposit: s.user_deposit,
                daily_usage: s.daily_usage,
                actions: t.actions,
                ..plain
            })
        }),
{
    rates_are_capped(s, source, asset);
    a_charge_splits_the_amount(amount, s.effective_bps(source, asset));
    fee_bounds(amount as int, s.effective_bps(source, asset) as int);
}

/// A commitment is stored as it was made, under the next id, and nothing is moved or
/// booked. The source is asked.
pub proof fn what_a_commitment_does(
    s: BridgeState,
    source: Address,
    target: Address,
    asset: Address,
    amount_hash: Bytes32,
    deadline: u64,
)
    ensures
        ({
            let t = commit_effect(s, source, target, asset, amount_hash, deadline);
            let id = match s.instance.commitment_id {
                Some(id) => id,
                None => 0,
            };
            &&& t == (BridgeState {
                instance: Instance { commitment_id: Some((id + 1) as u64), ..s.instance },
                commitment: s.commitment.insert(
                    id,
                    CommitmentEntry {
                        source,
                        target,
                        asset,
                        amount_hash,
                        deadline,
                        committed_at_ledger: s.ledger.sequence,
                        revealed: false,
                    },
                ),
                actions: s.actions + seq![
                    Action::RequireAuth { address: source },
                    alive_request(s),
                    Action::Publish {
                        event: Event::CommitFund {
                            source,
                            target,
                            id,
                            amount_hash,
                            asset,
                            deadline,
                        },
                    },
                ],
                ..s
            })
        }),
{
}

/// A timelocked funding takes the whole amount from the source, whom it has asked,
/// into the bridge, where it counts as locked, and stores it under the next id. The
/// source is rewarded now. No fee is charged and nothing counts as bridged yet.
pub proof fn what_a_lock_does(
    s: BridgeState,
    source: Address,
    target: Address,
    asset: Address,
    amount: i128,
    release_time: u64,
    cliff_time: u64,
    nonce: Option<u64>,
)
    requires
        in_range(totals_of(s, asset).locked_timelock + amount),
    ensures
        ({
            let t = lock_effect(
                s,
                source,
                target,
                asset,
                amount,
                release_time,
                cliff_time,
                nonce,
            );
            let id = match s.instance.timelock_id {
                Some(id) => id,
                None => 0,
            };
            &&& t.actions == s.actions + seq![
                Action::RequireAuth { address: source },
                alive_request(s),
                Action::Transfer { asset, from: source, to: s.ledger.contract, amount },
            ] + reward_of(s, source) + seq![
                Action::Publish {
                    event: Event::TimelockCreated {
                        source,
                        target,
                        id,
                        amount,
                        asset,
                        release_time,
                        cliff_time,
                    },
                },
            ]
            &&& totals_grow(s, t, asset, 0, 0, 0, totals_of(s, asset).locked_timelock + amount)
            &&& t == (BridgeState {
                instance: Instance { timelock_id: Some((id + 1) as u64), ..s.instance },
                timelock: s.timelock.insert(
                    id,
                    TimelockEntry {
                        source,
                        target,
                        asset,
                        amount,
                        release_time,
                        cliff_time,
                        claimed: false,
                    },
                ),
                asset_stats: t.asset_stats,
                accrued_fees: t.accrued_fees,
                total_bridged: t.total_bridged,
                total_fees_collected: t.total_fees_collected,
                nonce: nonces_after(s, source, nonce),
                actions: t.actions,
                ..s
            })
        }),
{
}

/// A claim delivers a locked amount to its target, whom it has asked, less the share
/// that the global rate makes, up to the cap of the asset; what was locked is so no
/// more. Nobody is rewarded, and the entry is claimed and otherwise what it was.
pub proof fn what_a_claim_does(s: BridgeState, id: u64)
    requires
        s.wf(),
        claim_error(s, id) is None,
        s.timelock[id].amount > 0,
        in_range(
            totals_of(s, s.timelock[id].asset).locked_timelock - s.timelock[id].amount,
        ),
    ensures
        ({
            let t = claim_effect(s, id);
            let lock = s.timelock[id];
            let asset = lock.asset;
            let fee = (lock.amount * lower(global_rate(s), cap_on(s, asset))) / 10_000;
            let net = lock.amount - fee;
            &&& 0 <= fee
            &&& 0 < net
            &&& t.actions == s.actions + seq![
                Action::RequireAuth { address: lock.target },
                alive_request(s),
                Action::Transfer {
                    asset,
                    from: s.ledger.contract,
                    to: lock.target,
                    amount: net as i128,
                },
                Action::Publish {
                    event: Event::TimelockClaimed {
                        target: lock.target,
                        id,
                        net_amount: net as i128,
                        fee: fee as i128,
                        asset,
                    },
                },
            ]
            &&& totals_grow(
                s,
                t,
                asset,
                fee,
                net,
                fee,
                totals_of(s, asset).locked_timelock - lock.amount,
            )
            &&& t == (BridgeState {
                timelock: s.timelock.insert(id, TimelockEntry { claimed: true, ..lock }),
                asset_stats: t.asset_stats,
                accrued_fees: t.accrued_fees,
                total_bridged: t.total_bridged,
                total_fees_collected: t.total_fees_collected,
                actions: t.actions,
                ..s
            })
        }),
{
    let lock = s.timelock[id];
    let rate = s.capped_bps(lock.asset, s.config().fee_bps);
    a_charge_splits_the_amount(lock.amount, rate);
    fee_bounds(lock.amount as int, rate as int);
}

/// A cross-chain transfer has every signature verified first, delivers the amount to
/// the target less the share that the global rate makes, up to the cap of the asset,
/// rewards the target, and marks the event as processed. Nobody is asked, and
/// nothing is taken from anybody.
pub proof fn what_a_crosschain_transfer_does(
    s: BridgeState,
    chain_id: u32,
    tx_hash: Bytes32,
    target: Address,
    asset: Address,
    amount: i128,
    sigs: Seq<RelayerSig>,
    nonce: Bytes32,
    payload: Result<Bytes32, BridgeError>,
)
    requires
        s.wf(),
        crosschain_error(s, target, asset, amount, sigs, nonce, payload) is None,
    ensures
        ({
            let message = payload->Ok_0;
            let t = crosschain_effect(
                s,
                chain_id,
                tx_hash,
                target,
                asset,
                amount,
                sigs,
                nonce,
                message,
            );
            let fee = (amount * lower(global_rate(s), cap_on(s, asset))) / 10_000;
            let net = amount - fee;
            let checks = Seq::new(
                sigs.len(),
                |i: int|
                    Action::VerifySignature {
                        pubkey: sigs[i].pubkey,
                        message,
                        signature: sigs[i].signature,
                    },
            );
            &&& 0 <= fee
            &&& 0 < net
            &&& t.actions == s.actions + checks + seq![
                Action::Transfer {
                    asset,
                    from: s.ledger.contract,
                    to: target,
                    amount: net as i128,
                },
                alive_request(s),
            ] + reward_of(s, target) + seq![
                Action::Publish {
                    event: Event::CrossChainFunded {
                        target,
                        chain_id,
                        tx_hash,
                        amount,
                        fee: fee as i128,
                        asset,
                    },
                },
            ]
            &&& totals_grow(s, t, asset, fee, net, fee, totals_of(s, asset).locked_timelock as int)
            &&& t == (BridgeState {
                cross_chain_nonce: s.cross_chain_nonce.insert(nonce, true),
                asset_stats: t.asset_stats,
                accrued_fees: t.accrued_fees,
                total_bridged: t.total_bridged,
                total_fees_collected: t.total_fees_collected,
                actions: t.actions,
                ..s
            })
        }),
{
    let rate = s.capped_bps(asset, s.config().fee_bps);
    a_charge_splits_the_amount(amount, rate);
    fee_bounds(amount as int, rate as int);
    let checks = Seq::new(
        sigs.len(),
        |i: int|
            Action::VerifySignature {
                pubkey: sigs[i].pubkey,
                message: payload->Ok_0,
                signature: sigs[i].signature,
            },
    );
    assert(verifications(sigs, payload->Ok_0) =~= checks);
}

/// The first half of a swap takes the amount from the source, whom it has asked,
/// hands it to the pool and has the pool swap it for at least the minimum, to the
/// bridge. Until the second half no other call may run. Nothing is booked yet.
pub proof fn what_beginning_a_swap_does(s: BridgeState, p: PendingSwap)
    ensures
        ({
            let contract = s.ledger.contract;
            swap_effect(s, p) == (BridgeState {
                instance: Instance { entered: true, ..s.instance },
                actions: s.actions + seq![
                    Action::RequireAuth { address: p.source },
                    alive_request(s),
                    Action::Transfer {
                        asset: p.source_asset,
                        from: p.source,
                        to: contract,
                        amount: p.source_amount,
                    },
                    Action::Transfer {
                        asset: p.source_asset,
                        from: contract,
                        to: p.pool,
                        amount: p.source_amount,
                    },
                    Action::InvokeSwap {
                        pool: p.pool,
                        target_asset: p.target_asset,
                        min_amount_out: p.min_target_amount,
                        to: contract,
                    },
                ],
                ..s
            })
        }),
{
}

/// The second half of a swap delivers what the pool reports to the target, less the
/// share that the rate of the source makes for the target asset, rewards the source,
/// and counts the source amount as bridged by it. After it other calls may run.
pub proof fn what_completing_a_swap_does(
    s: BridgeState,
    p: PendingSwap,
    reported: i128,
    balance_before: i128,
    balance_after: i128,
)
    requires
        s.wf(),
        complete_swap_error(s, p, reported, balance_before, balance_after) is None,
    ensures
        ({
            let t = complete_swap_effect(s, p, reported);
            let asset = p.target_asset;
            let fee = (reported * s.effective_bps(p.source, asset)) / 10_000;
            let net = reported - fee;
            &&& 0 <= fee
            &&& 0 < net
            &&& t.actions == s.actions + seq![
                Action::Transfer {
                    asset,
                    from: s.ledger.contract,
                    to: p.target,
                    amount: net as i128,
                },
            ] + reward_of(s, p.source) + seq![
                Action::Publish {
                    event: Event::SwapAndFunded {
                        source_asset: p.source_asset,
                        target_asset: asset,
                        source: p.source,
                        target: p.target,
                        source_amount: p.source_amount,
                        received_amount: reported,
                        fee: fee as i128,
                    },
                },
            ]
            &&& totals_grow(s, t, asset, fee, net, fee, totals_of(s, asset).locked_timelock as int)
            &&& volume_grows(s, t, p.source, p.source_amount as int)
            &&& t == (BridgeState {
                instance: Instance { entered: false, ..s.instance },
                asset_stats: t.asset_stats,
                accrued_fees: t.accrued_fees,
                total_bridged: t.total_bridged,
                total_fees_collected: t.total_fees_collected,
                source_bridged_volume: t.source_bridged_volume,
                nonce: nonces_after(s, p.source, p.nonce),
                actions: t.actions,
                ..s
            })
        }),
{
    rates_are_capped(s, p.source, p.target_asset);
    a_charge_splits_the_amount(reported, s.effective_bps(p.source, p.target_asset));
    fee_bounds(reported as int, s.effective_bps(p.source, p.target_asset) as int);
}

} // verus!
