//! Tokens that a recipient may claim from some time on.
use vstd::prelude::*;

use crate::actions::Event;
use crate::books::credited;
use crate::errors::BridgeError;
use crate::fees::Charge;
use crate::safe_math::fits;
use crate::state::{
    answer, first, lookup, option_or, refuse_if, verdict, BridgeState, Instance, OnboardingBridge,
};
use crate::types::{Address, AssetCounters, TimelockEntry};

verus! {

impl BridgeState {
    /// The id of the next timelock entry.
    pub open spec fn next_timelock(self) -> u64 {
        option_or(self.instance.timelock_id, 0)
    }

    /// What is locked of an asset.
    pub open spec fn locked(self, asset: Address) -> i128 {
        self.counters_of(asset).locked_timelock
    }

    /// The books with another amount locked of an asset.
    pub open spec fn with_locked(self, asset: Address, locked: i128) -> BridgeState {
        self.with_counters(
            asset,
            AssetCounters { locked_timelock: locked, ..self.counters_of(asset) },
        )
    }
}

/// Why `fund_c_address_timelocked` refuses a call.
pub open spec fn lock_error(
    s: BridgeState,
    source: Address,
    target: Address,
    asset: Address,
    amount: i128,
    release_time: u64,
    cliff_time: u64,
    nonce: Option<u64>,
    deadline: Option<u64>,
) -> Option<BridgeError> {
    first(
        s.running_error(),
        first(
            s.deadline_error(deadline),
            first(
                refuse_if(amount <= 0, BridgeError::InvalidAmount),
                first(
                    refuse_if(
                        release_time <= s.ledger.timestamp || cliff_time > release_time,
                        BridgeError::InvalidReleaseTime,
                    ),
                    first(
                        s.access_error(target),
                        first(s.asset_error(asset), s.nonce_error(source, nonce)),
                    ),
                ),
            ),
        ),
    )
}

/// The books after `fund_c_address_timelocked`.
pub open spec fn lock_effect(
    s: BridgeState,
    source: Address,
    target: Address,
    asset: Address,
    amount: i128,
    release_time: u64,
    cliff_time: u64,
    nonce: Option<u64>,
) -> BridgeState {
    let id = s.next_timelock();
    let entry = TimelockEntry {
        source,
        target,
        asset,
        amount,
        release_time,
        cliff_time,
        claimed: false,
    };
    let locked = s.with_locked(asset, (s.locked(asset) + amount) as i128).consume(source, nonce);
    BridgeState {
        instance: Instance { timelock_id: Some((id + 1) as u64), ..s.instance },
        timelock: s.timelock.insert(id, entry),
        ..locked
    }.require_auth(source).keep_alive().pull(asset, source, amount).reward(source).publish(
        Event::TimelockCreated { source, target, id, amount, asset, release_time, cliff_time },
    )
}

/// Why `claim_timelocked` refuses a call.
pub open spec fn claim_error(s: BridgeState, id: u64) -> Option<BridgeError> {
    first(
        s.running_error(),
        match lookup(s.timelock, id) {
            None => Some(BridgeError::TimelockNotFound),
            Some(entry) => first(
                refuse_if(s.ledger.timestamp < entry.release_time, BridgeError::TimelockNotMatured),
                first(
                    refuse_if(entry.claimed, BridgeError::Unauthorized),
                    match s.flat_charge(entry.asset, entry.amount) {
                        Err(e) => Some(e),
                        Ok(c) => refuse_if(
                            credited(
                                s.counters_of(entry.asset),
                                c.fee as int,
                                c.net as int,
                                c.fee as int,
                            ) is Err,
                            BridgeError::Overflow,
                        ),
                    },
                ),
            ),
        },
    )
}

/// The books after `claim_timelocked`. The fee is taken at the rate of the time of
/// the claim.
pub open spec fn claim_effect(s: BridgeState, id: u64) -> BridgeState {
    let entry = s.timelock[id];
    let c = s.flat_charge(entry.asset, entry.amount)->Ok_0;
    let counters = credited(
        s.counters_of(entry.asset),
        c.fee as int,
        c.net as int,
        c.fee as int,
    )->Ok_0;
    BridgeState {
        timelock: s.timelock.insert(id, TimelockEntry { claimed: true, ..entry }),
        ..s
    }.with_counters(
        entry.asset,
        AssetCounters {
            locked_timelock: (s.locked(entry.asset) - entry.amount) as i128,
            ..counters
        },
    ).require_auth(entry.target).keep_alive().pay_out(entry.asset, entry.target, c.net).publish(
        Event::TimelockClaimed {
            target: entry.target,
            id,
            net_amount: c.net,
            fee: c.fee,
            asset: entry.asset,
        },
    )
}

impl OnboardingBridge {
    /// Takes the id of the next timelock entry.
    fn next_timelock_id(&mut self) -> (id: u64)
        requires
            old(self)@.next_timelock() < u64::MAX,
        ensures
            id == old(self)@.next_timelock(),
            final(self)@ == old(self)@.with_instance(
                Instance { timelock_id: Some((id + 1) as u64), ..old(self)@.instance },
            ),
    {
        let id: u64 = match self.instance.timelock_id {
            Some(id) => id,
            None => 0,
        };
        self.instance.timelock_id = Some(id + 1);
        id
    }

    /// Counts a deposit as locked.
    fn increment_locked_timelock(&mut self, asset: Address, amount: i128)
        requires
            fits(old(self)@.locked(asset) + amount),
        ensures
            final(self)@ == old(self)@.with_locked(
                asset,
                (old(self)@.locked(asset) + amount) as i128,
            ),
    {
        let mut c: AssetCounters = self.read_asset_counters(asset);
        c.locked_timelock = c.locked_timelock + amount;
        self.save_asset_counters(asset, c);
    }

    /// Locks `amount` of `asset` from `source` until `release_time`, when `target`
    /// may claim it, and returns the id of the entry.
    pub fn fund_c_address_timelocked(
        &mut self,
        source: Address,
        target: Address,
        asset: Address,
        amount: i128,
        release_time: u64,
        cliff_time: u64,
        nonce: Option<u64>,
        deadline: Option<u64>,
    ) -> (r: Result<u64, BridgeError>)
        requires
            old(self)@.wf(),
            lock_error(
                old(self)@,
                source,
                target,
                asset,
                amount,
                release_time,
                cliff_time,
                nonce,
                deadline,
            ) is None ==> {
                &&& old(self)@.nonce_fits(source, nonce)
                &&& old(self)@.next_timelock() < u64::MAX
                &&& fits(old(self)@.locked(asset) + amount)
            },
        ensures
            r == answer(
                lock_error(
                    old(self)@,
                    source,
                    target,
                    asset,
                    amount,
                    release_time,
                    cliff_time,
                    nonce,
                    deadline,
                ),
                old(self)@.next_timelock(),
            ),
            final(self)@ == (if r is Ok {
                lock_effect(
                    old(self)@,
                    source,
                    target,
                    asset,
                    amount,
                    release_time,
                    cliff_time,
                    nonce,
                )
            } else {
                old(self)@
            }),
            final(self)@.wf(),
    {
        self.check_running()?;
        self.check_deadline(deadline)?;
        if amount <= 0 {
            return Err(BridgeError::InvalidAmount);
        }
        if release_time <= self.ledger.timestamp || cliff_time > release_time {
            return Err(BridgeError::InvalidReleaseTime);
        }
        self.check_access(target)?;
        self.check_asset_whitelisted(asset)?;
        self.check_nonce(source, nonce)?;
        self.increment_locked_timelock(asset, amount);
        self.consume_nonce(source, nonce);
        let id: u64 = self.next_timelock_id();
        self.timelock.set(
            id,
            TimelockEntry {
                source,
                target,
                asset,
                amount,
                release_time,
                cliff_time,
                claimed: false,
            },
        );
        self.require_auth(source);
        self.keep_alive();
        self.pull(asset, source, amount);
        self.mint_loyalty_tokens(source);
        self.publish(
            Event::TimelockCreated { source, target, id, amount, asset, release_time, cliff_time },
        );
        Ok(id)
    }

    /// Releases a matured timelock entry to its target, less the fee.
    pub fn claim_timelocked(&mut self, id: u64) -> (r: Result<(), BridgeError>)
        requires
            old(self)@.wf(),
            claim_error(old(self)@, id) is None ==> fits(
                old(self)@.locked(old(self)@.timelock[id].asset) - old(self)@.timelock[id].amount,
            ),
        ensures
            r == verdict(claim_error(old(self)@, id)),
            final(self)@ == (if r is Ok {
                claim_effect(old(self)@, id)
            } else {
                old(self)@
            }),
            final(self)@.wf(),
    {
        self.check_running()?;
        let mut entry: TimelockEntry = match self.timelock.get(id) {
            Some(entry) => entry,
            None => {
                return Err(BridgeError::TimelockNotFound);
            },
        };
        if self.ledger.timestamp < entry.release_time {
            return Err(BridgeError::TimelockNotMatured);
        }
        if entry.claimed {
            return Err(BridgeError::Unauthorized);
        }
        let c: Charge = self.flat_charge(entry.asset, entry.amount)?;
        let mut counters: AssetCounters = self.credit(entry.asset, c.fee, c.net, c.fee)?;
        counters.locked_timelock = counters.locked_timelock - entry.amount;
        entry.claimed = true;
        self.timelock.set(id, entry);
        self.save_asset_counters(entry.asset, counters);
        self.require_auth(entry.target);
        self.keep_alive();
        self.pay_out(entry.asset, entry.target, c.net);
        self.publish(
            Event::TimelockClaimed {
                target: entry.target,
                id,
                net_amount: c.net,
                fee: c.fee,
                asset: entry.asset,
            },
        );
        Ok(())
    }

    /// The timelock entry with the given id.
    pub fn query_timelocked(&self, id: u64) -> (r: Result<TimelockEntry, BridgeError>)
        ensures
            r == (match lookup(self@.timelock, id) {
                Some(entry) => Ok(entry),
                None => Err(BridgeError::TimelockNotFound),
            }),
    {
        match self.timelock.get(id) {
            Some(entry) => Ok(entry),
            None => Err(BridgeError::TimelockNotFound),
        }
    }
}

} // verus!
