//! Transfers whose amount is committed to first and revealed later.
use vstd::prelude::*;

use crate::actions::Event;
use crate::books::credited;
use crate::bytes::Bytes32;
use crate::errors::BridgeError;
use crate::fees::Charge;
use crate::hashing::{commitment_hash, commitment_preimage, hash_of};
use crate::safe_math::{fits, safe_add};
use crate::state::{
    answer, first, lookup, option_or, refuse_if, verdict, BridgeState, Instance, OnboardingBridge,
};
use crate::types::{Address, AssetCounters, CommitmentEntry, COMMIT_REVEAL_MIN_DELAY_LEDGERS};

verus! {

impl BridgeState {
    /// The id of the next commitment.
    pub open spec fn next_commitment(self) -> u64 {
        option_or(self.instance.commitment_id, 0)
    }

    /// Why a delivery without a deposit cannot be booked: the fee cannot be
    /// computed, or a total would leave the range of `i128`.
    pub open spec fn delivery_error(self, source: Address, asset: Address, amount: i128) -> Option<
        BridgeError,
    > {
        match self.charge(source, asset, amount) {
            Err(e) => Some(e),
            Ok(c) => refuse_if(
                !fits(self.volume_of(source) + amount) || credited(
                    self.counters_of(asset),
                    c.fee as int,
                    c.net as int,
                    c.fee as int,
                ) is Err,
                BridgeError::Overflow,
            ),
        }
    }
}

/// The first ledger in which a commitment may be revealed.
pub open spec fn matures_at(entry: CommitmentEntry) -> int {
    if entry.committed_at_ledger + COMMIT_REVEAL_MIN_DELAY_LEDGERS <= u32::MAX {
        entry.committed_at_ledger + COMMIT_REVEAL_MIN_DELAY_LEDGERS
    } else {
        u32::MAX as int
    }
}

/// Why `commit_fund` refuses a call.
pub open spec fn commit_error(
    s: BridgeState,
    target: Address,
    asset: Address,
    deadline: u64,
) -> Option<BridgeError> {
    first(
        s.running_error(),
        first(
            refuse_if(s.ledger.timestamp >= deadline, BridgeError::TransactionExpired),
            first(s.access_error(target), s.asset_error(asset)),
        ),
    )
}

/// The books after `commit_fund`.
pub open spec fn commit_effect(
    s: BridgeState,
    source: Address,
    target: Address,
    asset: Address,
    amount_hash: Bytes32,
    deadline: u64,
) -> BridgeState {
    let id = s.next_commitment();
    let entry = CommitmentEntry {
        source,
        target,
        asset,
        amount_hash,
        deadline,
        committed_at_ledger: s.ledger.sequence,
        revealed: false,
    };
    BridgeState {
        instance: Instance { commitment_id: Some((id + 1) as u64), ..s.instance },
        commitment: s.commitment.insert(id, entry),
        ..s
    }.require_auth(source).keep_alive().publish(
        Event::CommitFund { source, target, id, amount_hash, asset, deadline },
    )
}

/// Why `reveal_fund` refuses a call. `computed` is the hash of what is revealed. It
/// is a funding call: the target and the asset have to be acceptable now, not only
/// when the commitment was made.
pub open spec fn reveal_error(
    s: BridgeState,
    id: u64,
    source: Address,
    target: Address,
    asset: Address,
    amount: i128,
    computed: Bytes32,
) -> Option<BridgeError> {
    first(
        s.running_error(),
        match lookup(s.commitment, id) {
            None => Some(BridgeError::CommitmentNotFound),
            Some(entry) => first(
                refuse_if(entry.revealed, BridgeError::CommitmentAlreadyRevealed),
                first(
                    refuse_if(s.ledger.timestamp >= entry.deadline, BridgeError::CommitmentExpired),
                    first(
                        refuse_if(
                            s.ledger.sequence < matures_at(entry),
                            BridgeError::CommitmentNotMatured,
                        ),
                        first(
                            refuse_if(
                                entry.source != source || entry.target != target || entry.asset
                                    != asset,
                                BridgeError::Unauthorized,
                            ),
                            first(
                                refuse_if(
                                    computed != entry.amount_hash,
                                    BridgeError::CommitmentHashMismatch,
                                ),
                                first(
                                    first(s.access_error(target), s.asset_error(asset)),
                                    first(
                                        s.amount_error(amount),
                                        s.delivery_error(source, asset, amount),
                                    ),
                                ),
                            ),
                        ),
                    ),
                ),
            ),
        },
    )
}

/// The books after `reveal_fund`.
pub open spec fn reveal_effect(
    s: BridgeState,
    id: u64,
    source: Address,
    target: Address,
    asset: Address,
    amount: i128,
) -> BridgeState {
    let c = s.charge(source, asset, amount)->Ok_0;
    BridgeState {
        commitment: s.commitment.insert(
            id,
            CommitmentEntry { revealed: true, ..s.commitment[id] },
        ),
        ..s
    }.with_volume(source, (s.volume_of(source) + amount) as i128).with_counters(
        asset,
        credited(s.counters_of(asset), c.fee as int, c.net as int, c.fee as int)->Ok_0,
    )
        .require_auth(source)
        .pull(asset, source, amount)
        .pay_out(asset, target, c.net)
        .keep_alive()
        .reward(source)
        .publish(
        Event::CommitRevealFunded { asset, source, target, commitment_id: id, amount, fee: c.fee },
    )
}

impl OnboardingBridge {
    /// Stores a commitment to a transfer whose amount stays hidden until it is
    /// revealed, and returns its id.
    pub fn commit_fund(
        &mut self,
        source: Address,
        target: Address,
        asset: Address,
        amount_hash: Bytes32,
        deadline: u64,
    ) -> (r: Result<u64, BridgeError>)
        requires
            old(self)@.wf(),
            commit_error(old(self)@, target, asset, deadline) is None
                ==> old(self)@.next_commitment() < u64::MAX,
        ensures
            r == answer(
                commit_error(old(self)@, target, asset, deadline),
                old(self)@.next_commitment(),
            ),
            final(self)@ == (if r is Ok {
                commit_effect(old(self)@, source, target, asset, amount_hash, deadline)
            } else {
                old(self)@
            }),
            final(self)@.wf(),
    {
        self.check_running()?;
        if self.ledger.timestamp >= deadline {
            return Err(BridgeError::TransactionExpired);
        }
        self.check_access(target)?;
        self.check_asset_whitelisted(asset)?;
        let id: u64 = self.next_commitment_id();
        let committed_at_ledger: u32 = self.ledger.sequence;
        self.commitment.set(
            id,
            CommitmentEntry {
                source,
                target,
                asset,
                amount_hash,
                deadline,
                committed_at_ledger,
                revealed: false,
            },
        );
        self.require_auth(source);
        self.keep_alive();
        self.publish(Event::CommitFund { source, target, id, amount_hash, asset, deadline });
        Ok(id)
    }

    /// Takes the id of the next commitment.
    fn next_commitment_id(&mut self) -> (id: u64)
        requires
            old(self)@.next_commitment() < u64::MAX,
        ensures
            id == old(self)@.next_commitment(),
            final(self)@ == old(self)@.with_instance(
                Instance { commitment_id: Some((id + 1) as u64), ..old(self)@.instance },
            ),
    {
        let id: u64 = match self.instance.commitment_id {
            Some(id) => id,
            None => 0,
        };
        self.instance.commitment_id = Some(id + 1);
        id
    }

    /// Performs a committed transfer. The amount and the nonce must hash to what
    /// was committed to.
    pub fn reveal_fund(
        &mut self,
        env: &soroban_sdk::Env,
        commitment_id: u64,
        source: Address,
        target: Address,
        asset: Address,
        amount: i128,
        nonce: u64,
    ) -> (r: Result<(), BridgeError>)
        requires
            old(self)@.wf(),
        ensures
            r == verdict(
                reveal_error(
                    old(self)@,
                    commitment_id,
                    source,
                    target,
                    asset,
                    amount,
                    hash_of(commitment_preimage(amount, nonce)),
                ),
            ),
            final(self)@ == (if r is Ok {
                reveal_effect(old(self)@, commitment_id, source, target, asset, amount)
            } else {
                old(self)@
            }),
            final(self)@.wf(),
    {
        let computed: Bytes32 = commitment_hash(env, amount, nonce);
        self.reveal_with_hash(commitment_id, source, target, asset, amount, computed)
    }

    /// Performs a committed transfer, given the hash of what is revealed.
    pub fn reveal_with_hash(
        &mut self,
        commitment_id: u64,
        source: Address,
        target: Address,
        asset: Address,
        amount: i128,
        computed: Bytes32,
    ) -> (r: Result<(), BridgeError>)
        requires
            old(self)@.wf(),
        ensures
            r == verdict(
                reveal_error(
                    old(self)@,
                    commitment_id,
                    source,
                    target,
                    asset,
                    amount,
                    computed,
                ),
            ),
            final(self)@ == (if r is Ok {
                reveal_effect(old(self)@, commitment_id, source, target, asset, amount)
            } else {
                old(self)@
            }),
            final(self)@.wf(),
    {
        self.check_running()?;
        let mut entry: CommitmentEntry = match self.commitment.get(commitment_id) {
            Some(entry) => entry,
            None => {
                return Err(BridgeError::CommitmentNotFound);
            },
        };
        if entry.revealed {
            return Err(BridgeError::CommitmentAlreadyRevealed);
        }
        if self.ledger.timestamp >= entry.deadline {
            return Err(BridgeError::CommitmentExpired);
        }
        if self.ledger.sequence < entry.committed_at_ledger.saturating_add(
            COMMIT_REVEAL_MIN_DELAY_LEDGERS,
        ) {
            return Err(BridgeError::CommitmentNotMatured);
        }
        if entry.source != source || entry.target != target || entry.asset != asset {
            return Err(BridgeError::Unauthorized);
        }
        if computed != entry.amount_hash {
            return Err(BridgeError::CommitmentHashMismatch);
        }
        self.check_access(target)?;
        self.check_asset_whitelisted(asset)?;
        self.check_amount(amount)?;
        let c: Charge = self.charge(source, asset, amount)?;
        let volume: i128 = safe_add(self.read_source_bridged_volume(source), amount)?;
        let counters: AssetCounters = self.credit(asset, c.fee, c.net, c.fee)?;
        entry.revealed = true;
        self.commitment.set(commitment_id, entry);
        self.save_source_bridged_volume(source, volume);
        self.save_asset_counters(asset, counters);
        self.require_auth(source);
        self.pull(asset, source, amount);
        self.pay_out(asset, target, c.net);
        self.keep_alive();
        self.mint_loyalty_tokens(source);
        self.publish(
            Event::CommitRevealFunded { asset, source, target, commitment_id, amount, fee: c.fee },
        );
        Ok(())
    }

    /// The commitment with the given id.
    pub fn query_commitment(&self, id: u64) -> (r: Result<CommitmentEntry, BridgeError>)
        ensures
            r == (match lookup(self@.commitment, id) {
                Some(entry) => Ok(entry),
                None => Err(BridgeError::CommitmentNotFound),
            }),
    {
        match self.commitment.get(id) {
            Some(entry) => Ok(entry),
            None => Err(BridgeError::CommitmentNotFound),
        }
    }
}

} // verus!
