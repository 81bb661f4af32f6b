//! Funding an address with another asset than the one that the source has.
//!
//! The call has two halves, because the pool answers in between. Until the
//! second half every other call that changes the books is refused.
use vstd::prelude::*;

use crate::actions::{Action, Event};
use crate::books::credited;
use crate::errors::BridgeError;
use crate::fees::Charge;
use crate::safe_math::{fits, safe_add};
use crate::state::{answer, first, refuse_if, verdict, BridgeState, Instance, OnboardingBridge};
use crate::types::{Address, AssetCounters};

verus! {

/// A swap that the pool has been asked for.
#[derive(Clone, Copy, Debug, PartialEq, Eq, Structural)]
pub struct PendingSwap {
    pub source: Address,
    pub target: Address,
    pub source_asset: Address,
    pub target_asset: Address,
    pub source_amount: i128,
    pub min_target_amount: i128,
    pub pool: Address,
    pub nonce: Option<u64>,
}

impl BridgeState {
    /// The books while a call is in progress, or after it.
    pub open spec fn with_entered(self, entered: bool) -> BridgeState {
        self.with_instance(Instance { entered, ..self.instance })
    }
}

/// Why `fund_c_address_with_swap` refuses a call.
pub open spec fn swap_error(
    s: BridgeState,
    source: Address,
    target: Address,
    target_asset: Address,
    source_amount: i128,
    min_target_amount: i128,
    swap_route: Seq<Address>,
    nonce: Option<u64>,
    deadline: Option<u64>,
) -> Option<BridgeError> {
    first(
        s.running_error(),
        first(
            s.deadline_error(deadline),
            first(
                refuse_if(source_amount <= 0 || min_target_amount <= 0, BridgeError::InvalidAmount),
                first(
                    s.access_error(target),
                    first(
                        s.asset_error(target_asset),
                        first(
                            refuse_if(swap_route.len() != 1, BridgeError::MultiHopNotSupported),
                            first(
                                refuse_if(
                                    !s.pool_is_listed(swap_route[0]),
                                    BridgeError::PoolNotWhitelisted,
                                ),
                                s.nonce_error(source, nonce),
                            ),
                        ),
                    ),
                ),
            ),
        ),
    )
}

/// The books after the first half: the tokens are on their way to the pool.
pub open spec fn swap_effect(s: BridgeState, p: PendingSwap) -> BridgeState {
    s.with_entered(true)
        .require_auth(p.source)
        .keep_alive()
        .pull(p.source_asset, p.source, p.source_amount)
        .transfer(p.source_asset, s.ledger.contract, p.pool, p.source_amount)
        .act(
        Action::InvokeSwap {
            pool: p.pool,
            target_asset: p.target_asset,
            min_amount_out: p.min_target_amount,
            to: s.ledger.contract,
        },
    )
}

/// Why a swap fails, given what the pool reports and what the bridge held of the
/// target asset before and after. Both the report and what was received have to
/// reach the minimum.
pub open spec fn complete_swap_error(
    s: BridgeState,
    p: PendingSwap,
    reported: i128,
    balance_before: i128,
    balance_after: i128,
) -> Option<BridgeError> {
    first(
        refuse_if(reported <= 0, BridgeError::SwapFailed),
        first(
            refuse_if(
                reported < p.min_target_amount || balance_after - balance_before
                    < p.min_target_amount,
                BridgeError::SlippageExceeded,
            ),
            match s.charge(p.source, p.target_asset, reported) {
                Err(e) => Some(e),
                Ok(c) => refuse_if(
                    !fits(s.volume_of(p.source) + p.source_amount) || credited(
                        s.counters_of(p.target_asset),
                        c.fee as int,
                        c.net as int,
                        c.fee as int,
                    ) is Err,
                    BridgeError::Overflow,
                ),
            },
        ),
    )
}

/// The books after a swap, given what the pool reports.
pub open spec fn complete_swap_effect(
    s: BridgeState,
    p: PendingSwap,
    reported: i128,
) -> BridgeState {
    let c = s.charge(p.source, p.target_asset, reported)->Ok_0;
    s.with_entered(false).consume(p.source, p.nonce).with_volume(
        p.source,
        (s.volume_of(p.source) + p.source_amount) as i128,
    ).with_counters(
        p.target_asset,
        credited(s.counters_of(p.target_asset), c.fee as int, c.net as int, c.fee as int)->Ok_0,
    ).pay_out(p.target_asset, p.target, c.net).reward(p.source).publish(
        Event::SwapAndFunded {
            source_asset: p.source_asset,
            target_asset: p.target_asset,
            source: p.source,
            target: p.target,
            source_amount: p.source_amount,
            received_amount: reported,
            fee: c.fee,
        },
    )
}

impl OnboardingBridge {
    /// Begins a call. Fails where one is in progress.
    pub fn enter(&mut self) -> (r: Result<(), BridgeError>)
        ensures
            r == verdict(refuse_if(old(self)@.instance.entered, BridgeError::Reentrant)),
            final(self)@ == old(self)@.with_entered(true),
    {
        if self.instance.entered {
            return Err(BridgeError::Reentrant);
        }
        self.instance.entered = true;
        Ok(())
    }

    /// Ends the call that is in progress.
    pub fn leave(&mut self)
        ensures
            final(self)@ == old(self)@.with_entered(false),
    {
        self.instance.entered = false;
    }

    /// Asks for `source_amount` of `source_asset` to be swapped by the one pool of
    /// the route into `target_asset`, which is to fund `target`. The call goes on
    /// with `complete_swap` once the pool has answered.
    pub fn fund_c_address_with_swap(
        &mut self,
        source: Address,
        target: Address,
        source_asset: Address,
        target_asset: Address,
        source_amount: i128,
        min_target_amount: i128,
        swap_route: &Vec<Address>,
        nonce: Option<u64>,
        deadline: Option<u64>,
    ) -> (r: Result<PendingSwap, BridgeError>)
        requires
            old(self)@.wf(),
        ensures
            r == answer(
                swap_error(
                    old(self)@,
                    source,
                    target,
                    target_asset,
                    source_amount,
                    min_target_amount,
                    swap_route@,
                    nonce,
                    deadline,
                ),
                (PendingSwap {
                    source,
                    target,
                    source_asset,
                    target_asset,
                    source_amount,
                    min_target_amount,
                    pool: swap_route@[0],
                    nonce,
                }),
            ),
            final(self)@ == (match r {
                Ok(pending) => swap_effect(old(self)@, pending),
                Err(_) => old(self)@,
            }),
            final(self)@.wf(),
    {
        self.check_running()?;
        self.check_deadline(deadline)?;
        if source_amount <= 0 || min_target_amount <= 0 {
            return Err(BridgeError::InvalidAmount);
        }
        self.check_access(target)?;
        self.check_asset_whitelisted(target_asset)?;
        if swap_route.len() != 1 {
            return Err(BridgeError::MultiHopNotSupported);
        }
        let pool: Address = swap_route[0];
        if !self.read_pool_listed(pool) {
            return Err(BridgeError::PoolNotWhitelisted);
        }
        self.check_nonce(source, nonce)?;
        self.enter()?;
        self.require_auth(source);
        self.keep_alive();
        self.pull(source_asset, source, source_amount);
        let contract: Address = self.ledger.contract;
        self.transfer(source_asset, contract, pool, source_amount);
        self.act(
            Action::InvokeSwap {
                pool,
                target_asset,
                min_amount_out: min_target_amount,
                to: contract,
            },
        );
        Ok(
            PendingSwap {
                source,
                target,
                source_asset,
                target_asset,
                source_amount,
                min_target_amount,
                pool,
                nonce,
            },
        )
    }

    /// Delivers what the pool reports, less the fee. `balance_before` and
    /// `balance_after` are what the bridge held of the target asset right before
    /// and right after the pool was invoked. Where the swap fails, no trace of it
    /// is left.
    pub fn complete_swap(
        &mut self,
        pending: PendingSwap,
        reported: i128,
        balance_before: i128,
        balance_after: i128,
    ) -> (r: Result<(), BridgeError>)
        requires
            old(self)@.wf(),
            old(self)@.instance.entered,
            complete_swap_error(old(self)@, pending, reported, balance_before, balance_after)
                is None ==> old(self)@.nonce_fits(pending.source, pending.nonce),
        ensures
            r == verdict(
                complete_swap_error(
                    old(self)@,
                    pending,
                    reported,
                    balance_before,
                    balance_after,
                ),
            ),
            final(self)@ == (if r is Ok {
                complete_swap_effect(old(self)@, pending, reported)
            } else {
                old(self)@.with_entered(false)
            }),
            final(self)@.wf(),
    {
        let planned: Result<(Charge, i128, AssetCounters), BridgeError> = self.plan_swap(
            pending,
            reported,
            balance_before,
            balance_after,
        );
        self.leave();
        let (c, volume, counters) = planned?;
        self.consume_nonce(pending.source, pending.nonce);
        self.save_source_bridged_volume(pending.source, volume);
        self.save_asset_counters(pending.target_asset, counters);
        self.pay_out(pending.target_asset, pending.target, c.net);
        self.mint_loyalty_tokens(pending.source);
        self.publish(
            Event::SwapAndFunded {
                source_asset: pending.source_asset,
                target_asset: pending.target_asset,
                source: pending.source,
                target: pending.target,
                source_amount: pending.source_amount,
                received_amount: reported,
                fee: c.fee,
            },
        );
        Ok(())
    }

    /// The charge on what the pool reports, and the totals after it.
    fn plan_swap(
        &self,
        pending: PendingSwap,
        reported: i128,
        balance_before: i128,
        balance_after: i128,
    ) -> (r: Result<(Charge, i128, AssetCounters), BridgeError>)
        ensures
            ({
                let error = complete_swap_error(
                    self@,
                    pending,
                    reported,
                    balance_before,
                    balance_after,
                );
                &&& r is Err <==> error is Some
                &&& r matches Err(e) ==> error == Some(e)
            }),
            r matches Ok((c, volume, counters)) ==> {
                &&& self@.charge(pending.source, pending.target_asset, reported) == Ok::<
                    Charge,
                    BridgeError,
                >(c)
                &&& volume == self@.volume_of(pending.source) + pending.source_amount
                &&& credited(
                    self@.counters_of(pending.target_asset),
                    c.fee as int,
                    c.net as int,
                    c.fee as int,
                ) == Ok::<AssetCounters, BridgeError>(counters)
            },
    {
        if reported <= 0 {
            return Err(BridgeError::SwapFailed);
        }
        let too_little: bool = match balance_after.checked_sub(balance_before) {
            Some(received) => received < pending.min_target_amount,
            None => balance_after < balance_before,
        };
        if reported < pending.min_target_amount || too_little {
            return Err(BridgeError::SlippageExceeded);
        }
        let c: Charge = self.charge(pending.source, pending.target_asset, reported)?;
        let volume: i128 = safe_add(
            self.read_source_bridged_volume(pending.source),
            pending.source_amount,
        )?;
        let counters: AssetCounters = self.credit(pending.target_asset, c.fee, c.net, c.fee)?;
        Ok((c, volume, counters))
    }
}

} // verus!
