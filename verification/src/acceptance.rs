//! Which calls are accepted, and why any other is refused.
//!
//! Each law says of one operation exactly when it is carried out, and with each
//! error exactly when that error comes.
use vstd::prelude::*;

use crate::bytes::Bytes32;
use crate::commit_reveal::{commit_error, reveal_error};
use crate::crosschain::{crosschain_error, signed_before, signers_error};
use crate::errors::BridgeError;
use crate::fees::rates_are_capped;
use crate::funding::{fund_error, referral_error, share_bounds};
use crate::lifecycle::initialize_error;
use crate::meta_tx::{meta_fund_error, register_error};
use crate::nonces::auth_entry_error;
use crate::readings::{
    a_charge_splits_the_amount, bridged_by, cap_on, closed_reason, denial, deposited_by,
    global_rate, in_range, in_time, inactive_reason, is_active, is_enough, is_open, is_set,
    limit_reason, lists_asset, lists_pool, lower, may_receive, nonce_is_due, totals_of,
    within_limit,
};
use crate::relayers::{remove_relayer_error, threshold_error};
use crate::roles::{accept_admin_error, accept_fee_collector_error};
use crate::settings::{fee_tiers_error, loyalty_error, rate_error, some_tier_too_high};
use crate::state::{BridgeState, Instance};
use crate::swap::{complete_swap_error, swap_error, PendingSwap};
use crate::timelock::{claim_error, lock_error};
use crate::treasury::{reclaim_error, withdraw_error};
use crate::ttl::{extend_entry_error, set_max_ttl_error};
use crate::types::{
    Address, FeeTier, MetaFundParams, RelayerSig, SourceNonce, MAX_FEE_BPS, MAX_REFERRAL_BPS,
};
use crate::upgrade::{cancel_upgrade_error, execute_upgrade_error, schedule_upgrade_error};

verus! {

/// Whether the totals of an asset have room for what a delivery adds to them.
pub open spec fn totals_have_room(
    s: BridgeState,
    asset: Address,
    kept: int,
    net: int,
    fee: int,
) -> bool {
    &&& in_range(totals_of(s, asset).accrued_fees + kept)
    &&& in_range(totals_of(s, asset).total_bridged + net)
    &&& in_range(totals_of(s, asset).total_fees_collected + fee)
}

/// Whether the books have room for a transfer of a source at a rate, of whose fee
/// the bridge keeps a part.
pub open spec fn transfer_has_room(
    s: BridgeState,
    source: Address,
    asset: Address,
    amount: int,
    rate: int,
    kept: int,
) -> bool {
    let fee = (amount * rate) / 10_000;
    &&& in_range(amount * rate)
    &&& in_range(deposited_by(s, source, asset) + amount)
    &&& in_range(bridged_by(s, source) + amount)
    &&& totals_have_room(s, asset, kept, amount - fee, fee)
}

/// `fund_c_address` is carried out exactly where the bridge is open, the deadline
/// has not passed, the amount is enough, the target may receive, the asset is
/// listed, the daily limit allows it, the nonce is due and the books have room; the
/// first of these that fails is the error.
pub proof fn when_fund_is_accepted(
    s: BridgeState,
    source: Address,
    target: Address,
    asset: Address,
    amount: i128,
    nonce: Option<u64>,
    deadline: Option<u64>,
)
    requires
        s.wf(),
    ensures
        ({
            let e = fund_error(s, source, target, asset, amount, nonce, deadline);
            let rate = s.effective_bps(source, asset) as int;
            let fee = (amount * rate) / 10_000;
            let timely = is_open(s) && in_time(s, deadline);
            let enough = timely && is_enough(s, amount as int);
            let welcome = enough && may_receive(s, target);
            let listed = welcome && lists_asset(s, asset);
            let limited = listed && within_limit(s, source, asset, amount as int);
            let due = limited && nonce_is_due(s, source, nonce);
            let booked = due && transfer_has_room(s, source, asset, amount as int, rate, fee);
            &&& e is None <==> booked
            &&& !is_open(s) ==> e == Some(closed_reason(s))
            &&& is_open(s) && !timely ==> e == Some(BridgeError::TransactionExpired)
            &&& timely && !enough ==> e == Some(BridgeError::InvalidAmount)
            &&& enough && !welcome ==> e == Some(denial(s, target))
            &&& welcome && !listed ==> e == Some(BridgeError::AssetNotWhitelisted)
            &&& listed && !limited ==> e == Some(limit_reason(s, source, asset, amount as int))
            &&& limited && !due ==> e == Some(BridgeError::DuplicateNonce)
            &&& due && !booked ==> e == Some(BridgeError::Overflow)
        }),
{
    rates_are_capped(s, source, asset);
    if amount > 0 {
        a_charge_splits_the_amount(amount, s.effective_bps(source, asset));
    }
}

/// `fund_c_address_with_referral` is carried out exactly where `fund_c_address`
/// without a nonce and a deadline would be, but that the books have to have room
/// for the part of the fee that the referrer leaves.
pub proof fn when_referral_is_accepted(
    s: BridgeState,
    source: Address,
    target: Address,
    asset: Address,
    amount: i128,
    referrer: Option<Address>,
)
    requires
        s.wf(),
    ensures
        ({
            let e = referral_error(s, source, target, asset, amount, referrer);
            let rate = s.effective_bps(source, asset) as int;
            let fee = (amount * rate) / 10_000;
            let share = if referrer is Some {
                (fee * s.referral_rate()) / 10_000
            } else {
                0
            };
            let enough = is_open(s) && is_enough(s, amount as int);
            let welcome = enough && may_receive(s, target);
            let listed = welcome && lists_asset(s, asset);
            let limited = listed && within_limit(s, source, asset, amount as int);
            let booked = limited && transfer_has_room(
                s,
                source,
                asset,
                amount as int,
                rate,
                fee - share,
            );
            &&& e is None <==> booked
            &&& !is_open(s) ==> e == Some(closed_reason(s))
            &&& is_open(s) && !enough ==> e == Some(BridgeError::InvalidAmount)
            &&& enough && !welcome ==> e == Some(denial(s, target))
            &&& welcome && !listed ==> e == Some(BridgeError::AssetNotWhitelisted)
            &&& listed && !limited ==> e == Some(limit_reason(s, source, asset, amount as int))
            &&& limited && !booked ==> e == Some(BridgeError::Overflow)
        }),
{
    rates_are_capped(s, source, asset);
    if amount > 0 {
        a_charge_splits_the_amount(amount, s.effective_bps(source, asset));
        if let Ok(c) = s.charge(source, asset, amount) {
            share_bounds(s, c.fee, referrer);
        }
    }
}

/// A meta-transaction is carried out exactly where the bridge is open, it has not
/// expired, its nonce has not been used, the amount is enough, the target may
/// receive, the asset is listed, the daily limit of its source allows it, the key is
/// the registered one, there is a hash to be signed and the books have room.
pub proof fn when_a_meta_transaction_is_accepted(
    s: BridgeState,
    p: MetaFundParams,
    pubkey: Bytes32,
    payload: Result<Bytes32, BridgeError>,
)
    requires
        s.wf(),
    ensures
        ({
            let e = meta_fund_error(s, p, pubkey, payload);
            let rate = s.effective_bps(p.source, p.asset) as int;
            let fee = (p.amount * rate) / 10_000;
            let amount = p.amount as int;
            let used = SourceNonce { source: p.source, nonce: p.nonce };
            let timely = is_open(s) && s.ledger.timestamp <= p.deadline;
            let fresh = timely && !is_set(s.meta_tx_nonce, used);
            let enough = fresh && is_enough(s, amount);
            let welcome = enough && may_receive(s, p.target);
            let listed = welcome && lists_asset(s, p.asset);
            let limited = listed && within_limit(s, p.source, p.asset, amount);
            let known = limited && s.meta_signer.contains_key(p.source)
                && s.meta_signer[p.source] == pubkey;
            let signed = known && payload is Ok;
            let booked = signed && transfer_has_room(s, p.source, p.asset, amount, rate, fee);
            &&& e is None <==> booked
            &&& !is_open(s) ==> e == Some(closed_reason(s))
            &&& is_open(s) && !timely ==> e == Some(BridgeError::MetaTxExpired)
            &&& timely && !fresh ==> e == Some(BridgeError::MetaTxNonceAlreadyUsed)
            &&& fresh && !enough ==> e == Some(BridgeError::InvalidAmount)
            &&& enough && !welcome ==> e == Some(denial(s, p.target))
            &&& welcome && !listed ==> e == Some(BridgeError::AssetNotWhitelisted)
            &&& listed && !limited ==> e == Some(limit_reason(s, p.source, p.asset, amount))
            &&& limited && !known ==> e == Some(BridgeError::MetaTxPubkeySourceMismatch)
            &&& known && !signed ==> e == Some(payload->Err_0)
            &&& signed && !booked ==> e == Some(BridgeError::Overflow)
        }),
{
    rates_are_capped(s, p.source, p.asset);
    if p.amount > 0 {
        a_charge_splits_the_amount(p.amount, s.effective_bps(p.source, p.asset));
    }
}

/// `commit_fund` is carried out exactly where the bridge is open, the deadline lies
/// in the future, the target may receive and the asset is listed.
pub proof fn when_a_commitment_is_accepted(
    s: BridgeState,
    target: Address,
    asset: Address,
    deadline: u64,
)
    ensures
        ({
            let e = commit_error(s, target, asset, deadline);
            let timely = is_open(s) && s.ledger.timestamp < deadline;
            let welcome = timely && may_receive(s, target);
            let listed = welcome && lists_asset(s, asset);
            &&& e is None <==> listed
            &&& !is_open(s) ==> e == Some(closed_reason(s))
            &&& is_open(s) && !timely ==> e == Some(BridgeError::TransactionExpired)
            &&& timely && !welcome ==> e == Some(denial(s, target))
            &&& welcome && !listed ==> e == Some(BridgeError::AssetNotWhitelisted)
        }),
{
}

/// A reveal is carried out exactly where the bridge is open, the commitment is
/// there, has not been revealed, has not expired and is at least five ledgers old,
/// names the same parties and holds the hash of what is revealed, the target may
/// receive, the asset is listed, the amount is enough and the books have room.
pub proof fn when_a_reveal_is_accepted(
    s: BridgeState,
    id: u64,
    source: Address,
    target: Address,
    asset: Address,
    amount: i128,
    computed: Bytes32,
)
    requires
        s.wf(),
    ensures
        ({
            let e = reveal_error(s, id, source, target, asset, amount, computed);
            let c = s.commitment[id];
            let rate = s.effective_bps(source, asset) as int;
            let fee = (amount * rate) / 10_000;
            let found = is_open(s) && s.commitment.contains_key(id);
            let hidden = found && !c.revealed;
            let timely = hidden && s.ledger.timestamp < c.deadline;
            let ripe = timely && (s.ledger.sequence >= c.committed_at_ledger + 5
                || s.ledger.sequence == u32::MAX);
            let named = ripe && c.source == source && c.target == target && c.asset == asset;
            let matched = named && computed == c.amount_hash;
            let welcome = matched && may_receive(s, target);
            let listed = welcome && lists_asset(s, asset);
            let enough = listed && is_enough(s, amount as int);
            let booked = enough && in_range(amount * rate) && in_range(
                bridged_by(s, source) + amount,
            ) && totals_have_room(s, asset, fee, amount - fee, fee);
            &&& e is None <==> booked
            &&& !is_open(s) ==> e == Some(closed_reason(s))
            &&& is_open(s) && !found ==> e == Some(BridgeError::CommitmentNotFound)
            &&& found && !hidden ==> e == Some(BridgeError::CommitmentAlreadyRevealed)
            &&& hidden && !timely ==> e == Some(BridgeError::CommitmentExpired)
            &&& timely && !ripe ==> e == Some(BridgeError::CommitmentNotMatured)
            &&& ripe && !named ==> e == Some(BridgeError::Unauthorized)
            &&& named && !matched ==> e == Some(BridgeError::CommitmentHashMismatch)
            &&& matched && !welcome ==> e == Some(denial(s, target))
            &&& welcome && !listed ==> e == Some(BridgeError::AssetNotWhitelisted)
            &&& listed && !enough ==> e == Some(BridgeError::InvalidAmount)
            &&& enough && !booked ==> e == Some(BridgeError::Overflow)
        }),
{
    rates_are_capped(s, source, asset);
    if amount > 0 {
        a_charge_splits_the_amount(amount, s.effective_bps(source, asset));
    }
}

/// `fund_c_address_timelocked` is carried out exactly where the bridge is open, the
/// deadline has not passed, the amount is positive, the release lies in the future
/// and not before the cliff, the target may receive, the asset is listed and the
/// nonce is due.
pub proof fn when_a_lock_is_accepted(
    s: BridgeState,
    source: Address,
    target: Address,
    asset: Address,
    amount: i128,
    release_time: u64,
    cliff_time: u64,
    nonce: Option<u64>,
    deadline: Option<u64>,
)
    ensures
        ({
            let e = lock_error(
                s,
                source,
                target,
                asset,
                amount,
                release_time,
                cliff_time,
                nonce,
                deadline,
            );
            let timely = is_open(s) && in_time(s, deadline);
            let enough = timely && amount > 0;
            let later = enough && s.ledger.timestamp < release_time && cliff_time <= release_time;
            let welcome = later && may_receive(s, target);
            let listed = welcome && lists_asset(s, asset);
            let due = listed && nonce_is_due(s, source, nonce);
            &&& e is None <==> due
            &&& !is_open(s) ==> e == Some(closed_reason(s))
            &&& is_open(s) && !timely ==> e == Some(BridgeError::TransactionExpired)
            &&& timely && !enough ==> e == Some(BridgeError::InvalidAmount)
            &&& enough && !later ==> e == Some(BridgeError::InvalidReleaseTime)
            &&& later && !welcome ==> e == Some(denial(s, target))
            &&& welcome && !listed ==> e == Some(BridgeError::AssetNotWhitelisted)
            &&& listed && !due ==> e == Some(BridgeError::DuplicateNonce)
        }),
{
}

/// `claim_timelocked` is carried out exactly where the bridge is open, the entry is
/// there, its release time has come, it has not been claimed and the books have
/// room. Neither the lists nor the asset matter any more.
pub proof fn when_a_claim_is_accepted(s: BridgeState, id: u64)
    requires
        s.wf(),
        s.timelock.contains_key(id) ==> s.timelock[id].amount > 0,
    ensures
        ({
            let e = claim_error(s, id);
            let lock = s.timelock[id];
            let rate = lower(global_rate(s), cap_on(s, lock.asset));
            let fee = (lock.amount * rate) / 10_000;
            let found = is_open(s) && s.timelock.contains_key(id);
            let ripe = found && s.ledger.timestamp >= lock.release_time;
            let fresh = ripe && !lock.claimed;
            let booked = fresh && in_range(lock.amount * rate) && totals_have_room(
                s,
                lock.asset,
                fee,
                lock.amount - fee,
                fee,
            );
            &&& e is None <==> booked
            &&& !is_open(s) ==> e == Some(closed_reason(s))
            &&& is_open(s) && !found ==> e == Some(BridgeError::TimelockNotFound)
            &&& found && !ripe ==> e == Some(BridgeError::TimelockNotMatured)
            &&& ripe && !fresh ==> e == Some(BridgeError::Unauthorized)
            &&& fresh && !booked ==> e == Some(BridgeError::Overflow)
        }),
{
    if s.timelock.contains_key(id) {
        let lock = s.timelock[id];
        a_charge_splits_the_amount(lock.amount, s.capped_bps(lock.asset, s.config().fee_bps));
    }
}

/// Whether all signers are registered relayers, and none signs twice.
pub open spec fn signers_are_distinct_relayers(s: BridgeState, sigs: Seq<RelayerSig>) -> bool {
    &&& forall|i: int| 0 <= i < sigs.len() ==> is_set(s.relayer, (#[trigger] sigs[i]).pubkey)
    &&& forall|i: int, j: int|
        0 <= i < j < sigs.len() ==> (#[trigger] sigs[i]).pubkey != (#[trigger] sigs[j]).pubkey
}

/// Whether a signature is the first that is not of a relayer or repeats a signer.
pub open spec fn is_first_fault(s: BridgeState, sigs: Seq<RelayerSig>, i: int) -> bool {
    &&& 0 <= i < sigs.len()
    &&& signers_are_distinct_relayers(s, sigs.take(i))
    &&& !signers_are_distinct_relayers(s, sigs.take(i + 1))
}

/// What is wrong with a signature: it is not of a relayer, or else it repeats one.
pub open spec fn fault_of(s: BridgeState, sig: RelayerSig) -> BridgeError {
    if is_set(s.relayer, sig.pubkey) {
        BridgeError::DuplicateRelayerSignature
    } else {
        BridgeError::NotRelayer
    }
}

/// The signatures are refused exactly where a signer is no relayer or signs twice,
/// and for the first such reason.
proof fn when_signers_are_refused(s: BridgeState, sigs: Seq<RelayerSig>, n: nat)
    requires
        n <= sigs.len(),
    ensures
        ({
            let e = signers_error(s, sigs, n);
            &&& e is None <==> signers_are_distinct_relayers(s, sigs.take(n as int))
            &&& e is Some ==> e == Some(BridgeError::NotRelayer) || e == Some(
                BridgeError::DuplicateRelayerSignature,
            )
            &&& e == Some(BridgeError::NotRelayer) ==> exists|i: int|
                0 <= i < n && !is_set(s.relayer, (#[trigger] sigs[i]).pubkey)
            &&& e == Some(BridgeError::DuplicateRelayerSignature) ==> exists|i: int, j: int|
                0 <= i < j < n && (#[trigger] sigs[i]).pubkey == (#[trigger] sigs[j]).pubkey
            &&& forall|i: int| #[trigger]
                is_first_fault(s, sigs, i) && i < n ==> e == Some(fault_of(s, sigs[i]))
        }),
    decreases n,
{
    if n > 0 {
        let m = (n - 1) as nat;
        when_signers_are_refused(s, sigs, m);
        let before = sigs.take(m as int);
        let upto = sigs.take(n as int);
        assert(forall|i: int| 0 <= i < m ==> before[i] == upto[i]);
        assert(upto[m as int] == sigs[m as int]);
        if signers_error(s, sigs, m) is None {
            let key = sigs[m as int].pubkey;
            if signed_before(sigs, m as int) {
                let j = choose|j: int| 0 <= j < m && (#[trigger] sigs[j]).pubkey == key;
                assert(upto[j].pubkey == upto[m as int].pubkey);
                assert(sigs[j].pubkey == sigs[m as int].pubkey);
            } else {
                assert forall|i: int| 0 <= i < m implies (#[trigger] upto[i]).pubkey != key by {
                    assert(sigs[i].pubkey != key);
                }
            }
            if signers_error(s, sigs, n) is None {
                assert forall|i: int| 0 <= i < upto.len() implies is_set(
                    s.relayer,
                    (#[trigger] upto[i]).pubkey,
                ) by {
                    if i < m {
                        assert(is_set(s.relayer, before[i].pubkey));
                    }
                }
                assert forall|i: int, j: int| 0 <= i < j < upto.len() implies (
                #[trigger] upto[i]).pubkey != (#[trigger] upto[j]).pubkey by {
                    if j < m {
                        assert(before[i].pubkey != before[j].pubkey);
                    }
                }
            } else {
                assert(!signers_are_distinct_relayers(s, upto)) by {
                    if is_set(s.relayer, key) {
                        let j = choose|j: int| 0 <= j < m && (#[trigger] sigs[j]).pubkey == key;
                        assert(upto[j].pubkey == upto[m as int].pubkey);
                    } else {
                        assert(!is_set(s.relayer, upto[m as int].pubkey));
                    }
                }
            }
        } else {
            assert(!signers_are_distinct_relayers(s, upto)) by {
                if signers_are_distinct_relayers(s, upto) {
                    assert forall|i: int| 0 <= i < before.len() implies is_set(
                        s.relayer,
                        (#[trigger] before[i]).pubkey,
                    ) by {
                        assert(is_set(s.relayer, upto[i].pubkey));
                    }
                    assert forall|i: int, j: int| 0 <= i < j < before.len() implies (
                    #[trigger] before[i]).pubkey != (#[trigger] before[j]).pubkey by {
                        assert(upto[i].pubkey != upto[j].pubkey);
                    }
                    assert(signers_are_distinct_relayers(s, before));
                }
            }
        }
    }
}

/// A cross-chain transfer is carried out exactly where the bridge is open, the
/// amount is positive, the target may receive, the asset is listed, the event has
/// not been processed, the signers are distinct relayers and at least as many as
/// the threshold asks, there is a hash to be signed and the books have room.
pub proof fn when_a_crosschain_transfer_is_accepted(
    s: BridgeState,
    target: Address,
    asset: Address,
    amount: i128,
    sigs: Seq<RelayerSig>,
    nonce: Bytes32,
    payload: Result<Bytes32, BridgeError>,
)
    requires
        s.wf(),
    ensures
        ({
            let e = crosschain_error(s, target, asset, amount, sigs, nonce, payload);
            let rate = lower(global_rate(s), cap_on(s, asset));
            let fee = (amount * rate) / 10_000;
            let threshold = match s.instance.relayer_threshold {
                Some(n) => n as int,
                None => 1,
            };
            let enough = is_open(s) && amount > 0;
            let welcome = enough && may_receive(s, target);
            let listed = welcome && lists_asset(s, asset);
            let fresh = listed && !is_set(s.cross_chain_nonce, nonce);
            let trusted = fresh && signers_are_distinct_relayers(s, sigs);
            let attested = trusted && sigs.len() >= threshold;
            let signed = attested && payload is Ok;
            let booked = signed && in_range(amount * rate) && totals_have_room(
                s,
                asset,
                fee,
                amount - fee,
                fee,
            );
            &&& e is None <==> booked
            &&& !is_open(s) ==> e == Some(closed_reason(s))
            &&& is_open(s) && !enough ==> e == Some(BridgeError::InvalidAmount)
            &&& enough && !welcome ==> e == Some(denial(s, target))
            &&& welcome && !listed ==> e == Some(BridgeError::AssetNotWhitelisted)
            &&& listed && !fresh ==> e == Some(BridgeError::ReplayedNonce)
            &&& fresh && !trusted ==> (e == Some(BridgeError::NotRelayer) && exists|i: int|
                0 <= i < sigs.len() && !is_set(s.relayer, (#[trigger] sigs[i]).pubkey)) || (e
                == Some(BridgeError::DuplicateRelayerSignature) && exists|i: int, j: int|
                0 <= i < j < sigs.len() && (#[trigger] sigs[i]).pubkey == (
                #[trigger] sigs[j]).pubkey)
            &&& fresh ==> forall|i: int| #[trigger]
                is_first_fault(s, sigs, i) ==> e == Some(fault_of(s, sigs[i]))
            &&& trusted && !attested ==> e == Some(BridgeError::BelowThreshold)
            &&& attested && !signed ==> e == Some(payload->Err_0)
            &&& signed && !booked ==> e == Some(BridgeError::Overflow)
        }),
{
    when_signers_are_refused(s, sigs, sigs.len());
    assert(sigs.take(sigs.len() as int) =~= sigs);
    if amount > 0 {
        a_charge_splits_the_amount(amount, s.capped_bps(asset, s.config().fee_bps));
    }
}

/// The first half of a swap is carried out exactly where the bridge is open, the
/// deadline has not passed, both amounts are positive, the target may receive, the
/// target asset is listed, the route is one listed pool and the nonce is due. How
/// the two amounts compare does not matter: they are of different assets.
pub proof fn when_a_swap_is_accepted(
    s: BridgeState,
    source: Address,
    target: Address,
    target_asset: Address,
    source_amount: i128,
    min_target_amount: i128,
    swap_route: Seq<Address>,
    nonce: Option<u64>,
    deadline: Option<u64>,
)
    ensures
        ({
            let e = swap_error(
                s,
                source,
                target,
                target_asset,
                source_amount,
                min_target_amount,
                swap_route,
                nonce,
                deadline,
            );
            let timely = is_open(s) && in_time(s, deadline);
            let enough = timely && source_amount > 0 && min_target_amount > 0;
            let welcome = enough && may_receive(s, target);
            let listed = welcome && lists_asset(s, target_asset);
            let short = listed && swap_route.len() == 1;
            let pooled = short && lists_pool(s, swap_route[0]);
            let due = pooled && nonce_is_due(s, source, nonce);
            &&& e is None <==> due
            &&& !is_open(s) ==> e == Some(closed_reason(s))
            &&& is_open(s) && !timely ==> e == Some(BridgeError::TransactionExpired)
            &&& timely && !enough ==> e == Some(BridgeError::InvalidAmount)
            &&& enough && !welcome ==> e == Some(denial(s, target))
            &&& welcome && !listed ==> e == Some(BridgeError::AssetNotWhitelisted)
            &&& listed && !short ==> e == Some(BridgeError::MultiHopNotSupported)
            &&& short && !pooled ==> e == Some(BridgeError::PoolNotWhitelisted)
            &&& pooled && !due ==> e == Some(BridgeError::DuplicateNonce)
        }),
{
}

/// The second half of a swap is carried out exactly where the pool reports a
/// positive amount, that amount and what was received reach the minimum, and the
/// books have room.
pub proof fn when_a_swap_is_completed(
    s: BridgeState,
    p: PendingSwap,
    reported: i128,
    balance_before: i128,
    balance_after: i128,
)
    requires
        s.wf(),
    ensures
        ({
            let e = complete_swap_error(s, p, reported, balance_before, balance_after);
            let rate = s.effective_bps(p.source, p.target_asset) as int;
            let fee = (reported * rate) / 10_000;
            let swapped = reported > 0;
            let enough = swapped && reported >= p.min_target_amount && balance_after
                - balance_before >= p.min_target_amount;
            let booked = enough && in_range(reported * rate) && in_range(
                bridged_by(s, p.source) + p.source_amount,
            ) && totals_have_room(s, p.target_asset, fee, reported - fee, fee);
            &&& e is None <==> booked
            &&& !swapped ==> e == Some(BridgeError::SwapFailed)
            &&& swapped && !enough ==> e == Some(BridgeError::SlippageExceeded)
            &&& enough && !booked ==> e == Some(BridgeError::Overflow)
        }),
{
    rates_are_capped(s, p.source, p.target_asset);
    if reported > 0 {
        a_charge_splits_the_amount(reported, s.effective_bps(p.source, p.target_asset));
    }
}

/// A key is registered exactly where the bridge is set up, has not been left and is
/// not paused; a call in progress does not matter.
pub proof fn when_a_key_is_registered(s: BridgeState)
    ensures
        ({
            let calm = BridgeState {
                instance: Instance { entered: false, ..s.instance },
                ..s
            };
            register_error(s) == (if is_open(calm) {
                None
            } else {
                Some(closed_reason(calm))
            })
        }),
{
}

/// An authorization entry is used up exactly where the bridge is open, the ledger
/// lies in the window and the number has not been used.
pub proof fn when_an_auth_entry_is_accepted(
    s: BridgeState,
    source: Address,
    nonce: u64,
    valid_after: u32,
    valid_before: u32,
)
    ensures
        ({
            let e = auth_entry_error(s, source, nonce, valid_after, valid_before);
            let timely = is_open(s) && valid_after <= s.ledger.sequence && s.ledger.sequence
                < valid_before;
            let fresh = timely && !is_set(s.used_auth_nonce, SourceNonce { source, nonce });
            &&& e is None <==> fresh
            &&& !is_open(s) ==> e == Some(closed_reason(s))
            &&& is_open(s) && !timely ==> e == Some(BridgeError::AuthNonceExpired)
            &&& timely && !fresh ==> e == Some(BridgeError::AuthNonceAlreadyUsed)
        }),
{
}

/// Fees are withdrawn exactly where the bridge is open, the amount is positive,
/// within the limit per call, if one is set, and within the accrued fees, and the
/// nonce of the fee collector is due.
pub proof fn when_a_withdrawal_is_accepted(
    s: BridgeState,
    asset: Address,
    amount: i128,
    nonce: Option<u64>,
)
    requires
        s.instance.fee_collector is Some,
    ensures
        ({
            let e = withdraw_error(s, asset, amount, nonce);
            let enough = is_open(s) && amount > 0;
            let small = enough && (s.instance.max_withdraw_per_tx matches Some(most) ==> (most > 0
                ==> amount <= most));
            let covered = small && amount <= totals_of(s, asset).accrued_fees;
            let due = covered && nonce_is_due(s, s.instance.fee_collector->0, nonce);
            &&& e is None <==> due
            &&& !is_open(s) ==> e == Some(closed_reason(s))
            &&& is_open(s) && !enough ==> e == Some(BridgeError::InvalidAmount)
            &&& enough && !small ==> e == Some(BridgeError::WithdrawExceedsLimit)
            &&& small && !covered ==> e == Some(BridgeError::InsufficientReclaimable)
            &&& covered && !due ==> e == Some(BridgeError::DuplicateNonce)
        }),
{
}

/// Tokens are reclaimed exactly where the bridge is open, the amount is positive and
/// within what it holds beyond accrued fees and locked deposits, and the nonce of
/// the admin is due.
pub proof fn when_a_reclaim_is_accepted(
    s: BridgeState,
    asset: Address,
    amount: i128,
    nonce: Option<u64>,
    balance: i128,
)
    requires
        s.instance.admin is Some,
    ensures
        ({
            let e = reclaim_error(s, asset, amount, nonce, balance);
            let c = totals_of(s, asset);
            let free = balance - c.accrued_fees - c.locked_timelock;
            let enough = is_open(s) && amount > 0;
            let counted = enough && in_range(balance - c.accrued_fees) && in_range(free);
            let covered = counted && amount <= free;
            let due = covered && nonce_is_due(s, s.instance.admin->0, nonce);
            &&& e is None <==> due
            &&& !is_open(s) ==> e == Some(closed_reason(s))
            &&& is_open(s) && !enough ==> e == Some(BridgeError::InvalidAmount)
            &&& enough && !counted ==> e == Some(BridgeError::Overflow)
            &&& counted && !covered ==> e == Some(BridgeError::InsufficientReclaimable)
            &&& covered && !due ==> e == Some(BridgeError::DuplicateNonce)
        }),
{
}

/// The bridge is set up exactly where no call is in progress, it has not been set
/// up, the rate is at most a tenth and the nonce of the admin is due.
pub proof fn when_setup_is_accepted(
    s: BridgeState,
    admin: Address,
    fee_bps: u32,
    nonce: Option<u64>,
)
    ensures
        ({
            let e = initialize_error(s, admin, fee_bps, nonce);
            let calm = !s.instance.entered;
            let blank = calm && !s.instance.initialized;
            let low = blank && fee_bps <= 1_000;
            let due = low && nonce_is_due(s, admin, nonce);
            &&& e is None <==> due
            &&& !calm ==> e == Some(BridgeError::Reentrant)
            &&& calm && !blank ==> e == Some(BridgeError::AlreadyInitialized)
            &&& blank && !low ==> e == Some(BridgeError::FeeTooHigh)
            &&& low && !due ==> e == Some(BridgeError::DuplicateNonce)
        }),
{
}

/// A call of the admin that only sets something is carried out exactly where the
/// bridge is open and the nonce of the admin is due. One that a pause does not
/// disable needs an active bridge only, and one that keeps entries alive only that
/// the bridge is set up and no call is in progress.
pub proof fn when_the_admin_is_heard(s: BridgeState, nonce: Option<u64>)
    requires
        s.instance.admin is Some,
    ensures
        ({
            let e = s.admin_error(nonce);
            let due = is_open(s) && nonce_is_due(s, s.instance.admin->0, nonce);
            &&& e is None <==> due
            &&& !is_open(s) ==> e == Some(closed_reason(s))
            &&& is_open(s) && !due ==> e == Some(BridgeError::DuplicateNonce)
        }),
        ({
            let e = s.active_admin_error(nonce);
            let due = is_active(s) && nonce_is_due(s, s.instance.admin->0, nonce);
            &&& e is None <==> due
            &&& !is_active(s) ==> e == Some(inactive_reason(s))
            &&& is_active(s) && !due ==> e == Some(BridgeError::DuplicateNonce)
        }),
        s.running_error() == (if is_open(s) {
            None
        } else {
            Some(closed_reason(s))
        }),
        s.active_error() == (if is_active(s) {
            None
        } else {
            Some(inactive_reason(s))
        }),
        s.upkeep_error() == (if s.instance.entered {
            Some(BridgeError::Reentrant)
        } else if !s.instance.initialized {
            Some(BridgeError::NotInitialized)
        } else {
            None
        }),
{
}

/// A handoff is accepted exactly where the bridge is open and one was proposed.
pub proof fn when_a_handoff_is_accepted(s: BridgeState)
    ensures
        ({
            let e = accept_admin_error(s);
            let pending = is_open(s) && s.instance.pending_admin is Some;
            &&& e is None <==> pending
            &&& !is_open(s) ==> e == Some(closed_reason(s))
            &&& is_open(s) && !pending ==> e == Some(BridgeError::Unauthorized)
        }),
        ({
            let e = accept_fee_collector_error(s);
            let pending = is_open(s) && s.instance.pending_fee_collector is Some;
            &&& e is None <==> pending
            &&& !is_open(s) ==> e == Some(closed_reason(s))
            &&& is_open(s) && !pending ==> e == Some(BridgeError::Unauthorized)
        }),
{
}

/// A rate is set exactly where the bridge is open, the rate is at most its maximum
/// and the nonce of the admin is due. Tiers are set exactly where the bridge is
/// open, there are at most fifty and each rate is at most a tenth. A loyalty token
/// is set exactly where the bridge is open and the amount is not negative.
pub proof fn when_rates_are_accepted(
    s: BridgeState,
    rate: u32,
    most: u32,
    nonce: Option<u64>,
    tiers: Seq<FeeTier>,
    per_fund: i128,
)
    requires
        s.instance.admin is Some,
    ensures
        ({
            let e = rate_error(s, rate, most, nonce);
            let low = is_open(s) && rate <= most;
            let due = low && nonce_is_due(s, s.instance.admin->0, nonce);
            &&& e is None <==> due
            &&& !is_open(s) ==> e == Some(closed_reason(s))
            &&& is_open(s) && !low ==> e == Some(BridgeError::FeeTooHigh)
            &&& low && !due ==> e == Some(BridgeError::DuplicateNonce)
        }),
        ({
            let e = fee_tiers_error(s, tiers);
            let few = is_open(s) && tiers.len() <= 50;
            let low = few && forall|i: int|
                0 <= i < tiers.len() ==> (#[trigger] tiers[i]).fee_bps <= 1_000;
            &&& e is None <==> low
            &&& !is_open(s) ==> e == Some(closed_reason(s))
            &&& is_open(s) && !few ==> e == Some(BridgeError::TooManyFeeTiers)
            &&& few && !low ==> e == Some(BridgeError::FeeTooHigh)
        }),
        loyalty_error(s, per_fund) == (if !is_open(s) {
            Some(closed_reason(s))
        } else if per_fund < 0 {
            Some(BridgeError::InvalidAmount)
        } else {
            None
        }),
        MAX_FEE_BPS == 1_000,
        MAX_REFERRAL_BPS == 10_000,
{
    if forall|i: int| 0 <= i < tiers.len() ==> (#[trigger] tiers[i]).fee_bps <= 1_000 {
        assert(!some_tier_too_high(tiers));
    }
}

/// A relayer is removed exactly where the bridge is open and, if the key is one, as
/// many relayers are left as have to sign. The threshold is set exactly where the
/// bridge is open and there are as many relayers.
pub proof fn when_relayers_change(s: BridgeState, pubkey: Bytes32, threshold: u32)
    ensures
        ({
            let e = remove_relayer_error(s, pubkey);
            let count = match s.instance.relayer_count {
                Some(n) => n as int,
                None => 0,
            };
            let needed = match s.instance.relayer_threshold {
                Some(n) => n as int,
                None => 1,
            };
            let left = if count > 0 {
                count - 1
            } else {
                0
            };
            let spare = is_open(s) && (is_set(s.relayer, pubkey) ==> left >= needed);
            &&& e is None <==> spare
            &&& !is_open(s) ==> e == Some(closed_reason(s))
            &&& is_open(s) && !spare ==> e == Some(BridgeError::BelowThreshold)
            &&& threshold_error(s, threshold) == (if !is_open(s) {
                Some(closed_reason(s))
            } else if threshold > count {
                Some(BridgeError::ThresholdExceedsRelayers)
            } else {
                None
            })
        }),
{
}

/// An upgrade is scheduled exactly where the bridge is active, none is pending and
/// the nonce of the admin is due; it is executed exactly where the bridge is active,
/// it is pending with that hash, its ledger has come and the nonce is due; it is
/// cancelled exactly where the bridge is active, it is pending and the nonce is due.
pub proof fn when_upgrades_are_accepted(s: BridgeState, hash: Bytes32, nonce: Option<u64>)
    requires
        s.instance.admin is Some,
    ensures
        ({
            let e = schedule_upgrade_error(s, nonce);
            let alone = is_active(s) && s.instance.pending_upgrade is None;
            let due = alone && nonce_is_due(s, s.instance.admin->0, nonce);
            &&& e is None <==> due
            &&& !is_active(s) ==> e == Some(inactive_reason(s))
            &&& is_active(s) && !alone ==> e == Some(BridgeError::Unauthorized)
            &&& alone && !due ==> e == Some(BridgeError::DuplicateNonce)
        }),
        ({
            let e = execute_upgrade_error(s, hash, nonce);
            let there = is_active(s) && s.instance.pending_upgrade is Some;
            let pending = s.instance.pending_upgrade->0;
            let same = there && pending.new_wasm_hash == hash;
            let ripe = same && s.ledger.sequence >= pending.executable_after_ledger;
            let due = ripe && nonce_is_due(s, s.instance.admin->0, nonce);
            &&& e is None <==> due
            &&& !is_active(s) ==> e == Some(inactive_reason(s))
            &&& is_active(s) && !there ==> e == Some(BridgeError::UpgradeNotScheduled)
            &&& there && !same ==> e == Some(BridgeError::UpgradeHashMismatch)
            &&& same && !ripe ==> e == Some(BridgeError::UpgradeTimelockActive)
            &&& ripe && !due ==> e == Some(BridgeError::DuplicateNonce)
        }),
        ({
            let e = cancel_upgrade_error(s, nonce);
            let there = is_active(s) && s.instance.pending_upgrade is Some;
            let due = there && nonce_is_due(s, s.instance.admin->0, nonce);
            &&& e is None <==> due
            &&& !is_active(s) ==> e == Some(inactive_reason(s))
            &&& is_active(s) && !there ==> e == Some(BridgeError::UpgradeNotScheduled)
            &&& there && !due ==> e == Some(BridgeError::DuplicateNonce)
        }),
{
}

/// A maximum is set exactly where the bridge is open and it is at least about a
/// week. An entry is kept alive exactly where the bridge is set up, no call is in
/// progress and the entry is there.
pub proof fn when_upkeep_is_accepted(
    s: BridgeState,
    ttl: u32,
    there: bool,
    missing: BridgeError,
)
    ensures
        set_max_ttl_error(s, ttl) == (if !is_open(s) {
            Some(closed_reason(s))
        } else if ttl < 120_960 {
            Some(BridgeError::InvalidTtl)
        } else {
            None
        }),
        extend_entry_error(s, there, missing) == (if s.instance.entered {
            Some(BridgeError::Reentrant)
        } else if !s.instance.initialized {
            Some(BridgeError::NotInitialized)
        } else if !there {
            Some(missing)
        } else {
            None
        }),
{
}

} // verus!
