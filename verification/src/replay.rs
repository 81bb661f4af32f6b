//! Nothing that can be done once can be done twice.
use vstd::prelude::*;

use crate::bytes::Bytes32;
use crate::calls::{history, Call};
use crate::commit_reveal::{reveal_effect, reveal_error};
use crate::crosschain::{crosschain_effect, crosschain_error};
use crate::errors::BridgeError;
use crate::invariants::{
    auth_nonces_sound, commitments_stay, every_history_is_sound, histories_only_grow, marks_stay,
    nonces_stay, timelocks_stay,
};
use crate::meta_tx::{meta_fund_effect, meta_fund_error};
use crate::nonces::{auth_entry_effect, auth_entry_error};
use crate::state::{value_or, BridgeState};
use crate::timelock::{claim_effect, claim_error};
use crate::types::{Address, Ledger, MetaFundParams, RelayerSig, SourceNonce};

verus! {

/// A nonce that was accepted is the caller's next no more: the next is one
/// higher.
pub proof fn accepted_nonce_is_spent(s: BridgeState, caller: Address, n: u64)
    requires
        s.nonce_error(caller, Some(n)) is None,
        n < u64::MAX,
    ensures
        s.consume(caller, Some(n)).nonce_of(caller) == n + 1,
        s.consume(caller, Some(n)).nonce_error(caller, Some(n)) == Some(
            BridgeError::DuplicateNonce,
        ),
        forall|other: Address|
            other != caller ==> #[trigger] s.consume(caller, Some(n)).nonce_of(other)
                == s.nonce_of(other),
{
}

/// Without a nonce nothing is checked and nothing changes.
pub proof fn no_nonce_no_check(s: BridgeState, caller: Address)
    ensures
        s.nonce_error(caller, None) is None,
        s.consume(caller, None) == s,
{
}

/// A nonce below the caller's next is refused in every later history.
pub proof fn spent_nonce_stays_spent(
    start: Ledger,
    calls: Seq<(Ledger, Call)>,
    k: nat,
    caller: Address,
    n: u64,
)
    requires
        k <= calls.len(),
        n < history(start, calls.take(k as int)).nonce_of(caller),
    ensures
        history(start, calls).nonce_error(caller, Some(n)) == Some(BridgeError::DuplicateNonce),
{
    histories_only_grow(start, calls, k);
    reveal(nonces_stay);
    assert(value_or(history(start, calls.take(k as int)).nonce, caller, 0) <= value_or(
        history(start, calls).nonce,
        caller,
        0,
    ));
}

/// An authorization entry that was accepted is used up.
pub proof fn accepted_auth_entry_is_used(s: BridgeState, source: Address, nonce: u64)
    requires
        nonce < u64::MAX,
    ensures
        auth_entry_effect(s, source, nonce).auth_nonce_used(source, nonce),
        auth_entry_effect(s, source, nonce).auth_nonce_of(source) > nonce,
        forall|other: SourceNonce|
            other != (SourceNonce { source, nonce }) ==> #[trigger] auth_entry_effect(
                s,
                source,
                nonce,
            ).auth_nonce_used(other.source, other.nonce) == s.auth_nonce_used(
                other.source,
                other.nonce,
            ),
{
}

/// An authorization entry that was used up is refused in every later history,
/// whatever its window.
pub proof fn used_auth_entry_stays_used(
    start: Ledger,
    calls: Seq<(Ledger, Call)>,
    k: nat,
    source: Address,
    nonce: u64,
    valid_after: u32,
    valid_before: u32,
)
    requires
        k <= calls.len(),
        history(start, calls.take(k as int)).auth_nonce_used(source, nonce),
    ensures
        history(start, calls).auth_nonce_used(source, nonce),
        auth_entry_error(
            history(start, calls),
            source,
            nonce,
            valid_after,
            valid_before,
        ) is Some,
{
    histories_only_grow(start, calls, k);
    reveal(marks_stay);
    let key = SourceNonce { source, nonce };
    assert(value_or(history(start, calls.take(k as int)).used_auth_nonce, key, false));
    assert(value_or(history(start, calls).used_auth_nonce, key, false));
}

/// No source has used a number from its counter on.
pub proof fn counter_is_beyond_used_numbers(
    start: Ledger,
    calls: Seq<(Ledger, Call)>,
    source: Address,
    nonce: u64,
)
    requires
        nonce >= history(start, calls).auth_nonce_of(source),
    ensures
        !history(start, calls).auth_nonce_used(source, nonce),
{
    every_history_is_sound(start, calls);
    reveal(auth_nonces_sound);
    let s = history(start, calls);
    let key = SourceNonce { source, nonce };
    if value_or(s.used_auth_nonce, key, false) {
        assert(key.nonce < value_or(s.auth_nonce, key.source, 0));
    }
}

/// The number that a client is told to use next is accepted in every history, and
/// it is at most the counter of the source. Once it has been used, a higher one is
/// next.
pub proof fn next_auth_nonce_is_accepted(
    start: Ledger,
    calls: Seq<(Ledger, Call)>,
    source: Address,
    next: u64,
    after: u64,
    valid_after: u32,
    valid_before: u32,
)
    requires
        history(start, calls).is_next_auth_nonce(source, next),
        auth_entry_effect(history(start, calls), source, next).is_next_auth_nonce(source, after),
    ensures
        ({
            let s = history(start, calls);
            let error = auth_entry_error(s, source, next, valid_after, valid_before);
            &&& next <= s.auth_nonce_of(source)
            &&& next < after
            &&& s.running_error() is None && valid_after <= s.ledger.sequence < valid_before
                ==> error is None
        }),
{
    let s = history(start, calls);
    let t = auth_entry_effect(s, source, next);
    counter_is_beyond_used_numbers(start, calls, source, s.auth_nonce_of(source));
    if next > s.auth_nonce_of(source) {
        assert(s.auth_nonce_used(source, s.auth_nonce_of(source)));
    }
    assert(t.auth_nonce_used(source, next));
    if after < next {
        assert(s.auth_nonce_used(source, after));
        assert(t.auth_nonce_used(source, after));
    }
}

/// A meta-transaction that was carried out has its nonce used up.
pub proof fn executed_meta_fund_is_used(
    s: BridgeState,
    p: MetaFundParams,
    pubkey: Bytes32,
    signature: crate::bytes::Signature,
    payload: Bytes32,
)
    ensures
        meta_fund_effect(s, p, pubkey, signature, payload).meta_nonce_used(p.source, p.nonce),
{
}

/// A meta-transaction whose nonce was used up is refused in every later history,
/// whatever else it says and whoever signed it.
pub proof fn used_meta_nonce_stays_used(
    start: Ledger,
    calls: Seq<(Ledger, Call)>,
    k: nat,
    p: MetaFundParams,
    pubkey: Bytes32,
    payload: Result<Bytes32, BridgeError>,
)
    requires
        k <= calls.len(),
        history(start, calls.take(k as int)).meta_nonce_used(p.source, p.nonce),
    ensures
        history(start, calls).meta_nonce_used(p.source, p.nonce),
        meta_fund_error(history(start, calls), p, pubkey, payload) is Some,
{
    histories_only_grow(start, calls, k);
    reveal(marks_stay);
    let key = SourceNonce { source: p.source, nonce: p.nonce };
    assert(value_or(history(start, calls.take(k as int)).meta_tx_nonce, key, false));
    assert(value_or(history(start, calls).meta_tx_nonce, key, false));
}

/// A cross-chain event that was credited is done.
pub proof fn credited_event_is_done(
    s: BridgeState,
    chain_id: u32,
    tx_hash: Bytes32,
    target: Address,
    asset: Address,
    amount: i128,
    sigs: Seq<RelayerSig>,
    nonce: Bytes32,
    payload: Bytes32,
)
    ensures
        crosschain_effect(
            s,
            chain_id,
            tx_hash,
            target,
            asset,
            amount,
            sigs,
            nonce,
            payload,
        ).crosschain_done(nonce),
{
}

/// A cross-chain event that is done is refused in every later history, whoever
/// signs for it and whatever it is said to be worth.
pub proof fn done_event_stays_done(
    start: Ledger,
    calls: Seq<(Ledger, Call)>,
    k: nat,
    target: Address,
    asset: Address,
    amount: i128,
    sigs: Seq<RelayerSig>,
    nonce: Bytes32,
    payload: Result<Bytes32, BridgeError>,
)
    requires
        k <= calls.len(),
        history(start, calls.take(k as int)).crosschain_done(nonce),
    ensures
        history(start, calls).crosschain_done(nonce),
        crosschain_error(
            history(start, calls),
            target,
            asset,
            amount,
            sigs,
            nonce,
            payload,
        ) is Some,
{
    histories_only_grow(start, calls, k);
    reveal(marks_stay);
    assert(value_or(history(start, calls.take(k as int)).cross_chain_nonce, nonce, false));
    assert(value_or(history(start, calls).cross_chain_nonce, nonce, false));
}

/// A timelock entry that was claimed cannot be claimed in any later history.
pub proof fn claimed_stays_claimed(
    start: Ledger,
    calls: Seq<(Ledger, Call)>,
    k: nat,
    id: u64,
)
    requires
        k <= calls.len(),
        history(start, calls.take(k as int)).timelock.contains_key(id),
        history(start, calls.take(k as int)).timelock[id].claimed,
    ensures
        history(start, calls).timelock[id] == history(start, calls.take(k as int)).timelock[id],
        claim_error(history(start, calls), id) is Some,
{
    histories_only_grow(start, calls, k);
    reveal(timelocks_stay);
    let before = history(start, calls.take(k as int)).timelock;
    assert(before.contains_key(id));
}

/// A claim marks its entry, so that a second one is refused.
pub proof fn claim_marks_its_entry(s: BridgeState, id: u64)
    requires
        claim_error(s, id) is None,
    ensures
        claim_effect(s, id).timelock[id].claimed,
        claim_error(claim_effect(s, id), id) == Some(BridgeError::Unauthorized),
{
}

/// A commitment that was revealed cannot be revealed in any later history.
pub proof fn revealed_stays_revealed(
    start: Ledger,
    calls: Seq<(Ledger, Call)>,
    k: nat,
    id: u64,
    source: Address,
    target: Address,
    asset: Address,
    amount: i128,
    computed: Bytes32,
)
    requires
        k <= calls.len(),
        history(start, calls.take(k as int)).commitment.contains_key(id),
        history(start, calls.take(k as int)).commitment[id].revealed,
    ensures
        history(start, calls).commitment[id] == history(
            start,
            calls.take(k as int),
        ).commitment[id],
        reveal_error(
            history(start, calls),
            id,
            source,
            target,
            asset,
            amount,
            computed,
        ) is Some,
{
    histories_only_grow(start, calls, k);
    reveal(commitments_stay);
    let before = history(start, calls.take(k as int)).commitment;
    assert(before.contains_key(id));
}

/// A reveal marks its commitment, so that a second one is refused.
pub proof fn reveal_marks_its_commitment(
    s: BridgeState,
    id: u64,
    source: Address,
    target: Address,
    asset: Address,
    amount: i128,
    computed: Bytes32,
)
    requires
        reveal_error(s, id, source, target, asset, amount, computed) is None,
    ensures
        ({
            let t = reveal_effect(s, id, source, target, asset, amount);
            &&& t.commitment[id].revealed
            &&& reveal_error(t, id, source, target, asset, amount, computed) == Some(
                BridgeError::CommitmentAlreadyRevealed,
            )
        }),
{
}

} // verus!
