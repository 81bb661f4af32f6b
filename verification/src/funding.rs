//! Funding one address, with or without a referrer.
use vstd::prelude::*;

use crate::actions::Event;
use crate::books::credited;
use crate::errors::BridgeError;
use crate::fees::{calculate_fee, fee_bounds, fee_on, rates_are_capped, Charge};
use crate::safe_math::{fits, safe_add};
use crate::state::{first, refuse_if, verdict, BridgeState, OnboardingBridge};
use crate::types::{Address, AssetCounters};

verus! {

impl BridgeState {
    /// Why the totals cannot take up a transfer: the fee cannot be computed, or
    /// a total would leave the range of `i128`.
    pub open spec fn books_error(self, source: Address, asset: Address, amount: i128) -> Option<
        BridgeError,
    > {
        match self.charge(source, asset, amount) {
            Err(e) => Some(e),
            Ok(c) => refuse_if(
                !fits(self.deposit_of(source, asset) + amount) || !fits(
                    self.volume_of(source) + amount,
                ) || credited(
                    self.counters_of(asset),
                    c.fee as int,
                    c.net as int,
                    c.fee as int,
                ) is Err,
                BridgeError::Overflow,
            ),
        }
    }

    /// The books after a transfer of a source: what it has deposited, what it
    /// has bridged, and the totals of the asset. `accrued` is the part of the fee
    /// that the bridge keeps.
    pub open spec fn book(
        self,
        source: Address,
        asset: Address,
        amount: i128,
        accrued: i128,
        c: Charge,
    ) -> BridgeState {
        self.with_deposit(source, asset, (self.deposit_of(source, asset) + amount) as i128)
            .with_volume(source, (self.volume_of(source) + amount) as i128)
            .with_counters(
                asset,
                credited(
                    self.counters_of(asset),
                    accrued as int,
                    c.net as int,
                    c.fee as int,
                )->Ok_0,
            )
    }
}

/// Why `fund_c_address` refuses a call.
pub open spec fn fund_error(
    s: BridgeState,
    source: Address,
    target: Address,
    asset: Address,
    amount: i128,
    nonce: Option<u64>,
    deadline: Option<u64>,
) -> Option<BridgeError> {
    first(
        s.running_error(),
        first(
            s.deadline_error(deadline),
            first(
                s.amount_error(amount),
                first(
                    s.access_error(target),
                    first(
                        s.asset_error(asset),
                        first(
                            s.usage_error(source, asset, amount),
                            first(
                                s.nonce_error(source, nonce),
                                s.books_error(source, asset, amount),
                            ),
                        ),
                    ),
                ),
            ),
        ),
    )
}

/// The books after `fund_c_address`.
pub open spec fn fund_effect(
    s: BridgeState,
    source: Address,
    target: Address,
    asset: Address,
    amount: i128,
    nonce: Option<u64>,
) -> BridgeState {
    let c = s.charge(source, asset, amount)->Ok_0;
    s.book(source, asset, amount, c.fee, c)
        .count_usage(source, asset, amount)
        .consume(source, nonce)
        .require_auth(source)
        .keep_alive()
        .pull(asset, source, amount)
        .pay_out(asset, target, c.net)
        .reward(source)
        .publish(Event::CAddressFunded { asset, source, target, amount, fee: c.fee })
}

/// The part of a fee that goes to a referrer.
pub open spec fn referral_share(s: BridgeState, fee: i128, referrer: Option<Address>) -> i128 {
    match referrer {
        Some(_) => fee_on(fee as int, s.referral_rate() as int) as i128,
        None => 0,
    }
}

/// Why `fund_c_address_with_referral` refuses a call.
pub open spec fn referral_error(
    s: BridgeState,
    source: Address,
    target: Address,
    asset: Address,
    amount: i128,
    referrer: Option<Address>,
) -> Option<BridgeError> {
    first(
        s.running_error(),
        first(
            s.amount_error(amount),
            first(
                s.access_error(target),
                first(
                    s.asset_error(asset),
                    first(
                        s.usage_error(source, asset, amount),
                        match s.charge(source, asset, amount) {
                            Err(e) => Some(e),
                            Ok(c) => refuse_if(
                                !fits(s.deposit_of(source, asset) + amount) || !fits(
                                    s.volume_of(source) + amount,
                                ) || credited(
                                    s.counters_of(asset),
                                    c.fee - referral_share(s, c.fee, referrer),
                                    c.net as int,
                                    c.fee as int,
                                ) is Err,
                                BridgeError::Overflow,
                            ),
                        },
                    ),
                ),
            ),
        ),
    )
}

/// The books after `fund_c_address_with_referral`.
pub open spec fn referral_effect(
    s: BridgeState,
    source: Address,
    target: Address,
    asset: Address,
    amount: i128,
    referrer: Option<Address>,
) -> BridgeState {
    let c = s.charge(source, asset, amount)->Ok_0;
    let share = referral_share(s, c.fee, referrer);
    let paid = s.book(source, asset, amount, (c.fee - share) as i128, c)
        .count_usage(source, asset, amount)
        .require_auth(source)
        .keep_alive()
        .pull(asset, source, amount)
        .pay_out(asset, target, c.net);
    let shared = match referrer {
        Some(to) => if share > 0 {
            paid.pay_out(asset, to, share).publish(
                Event::ReferralPaid { source, referrer: to, amount: share, asset },
            )
        } else {
            paid
        },
        None => paid,
    };
    shared.reward(source).publish(
        Event::CAddressFunded { asset, source, target, amount, fee: c.fee },
    )
}

/// A referrer gets no more than the fee.
pub proof fn share_bounds(s: BridgeState, fee: i128, referrer: Option<Address>)
    requires
        s.wf(),
        0 <= fee,
    ensures
        fee * s.referral_rate() <= 10_000 * fee,
        0 <= referral_share(s, fee, referrer) <= fee,
        referrer is Some ==> referral_share(s, fee, referrer) == (fee * s.referral_rate()) / 10_000,
{
    let rate = s.referral_rate() as int;
    assert(0 <= fee * rate <= fee * 10_000) by (nonlinear_arith)
        requires
            0 <= fee,
            0 <= rate <= 10_000,
    ;
}

impl OnboardingBridge {
    /// Stores the totals after a transfer of a source. Nothing is stored where
    /// one of them would overflow.
    pub(crate) fn book_transfer(
        &mut self,
        source: Address,
        asset: Address,
        amount: i128,
        accrued: i128,
        c: Charge,
    ) -> (r: Result<(), BridgeError>)
        ensures
            r == verdict(
                refuse_if(
                    !fits(old(self)@.deposit_of(source, asset) + amount) || !fits(
                        old(self)@.volume_of(source) + amount,
                    ) || credited(
                        old(self)@.counters_of(asset),
                        accrued as int,
                        c.net as int,
                        c.fee as int,
                    ) is Err,
                    BridgeError::Overflow,
                ),
            ),
            final(self)@ == (if r is Ok {
                old(self)@.book(source, asset, amount, accrued, c)
            } else {
                old(self)@
            }),
    {
        let deposit: i128 = safe_add(self.read_user_deposit(source, asset), amount)?;
        let volume: i128 = safe_add(self.read_source_bridged_volume(source), amount)?;
        let counters: AssetCounters = self.credit(asset, accrued, c.net, c.fee)?;
        self.save_user_deposit(source, asset, deposit);
        self.save_source_bridged_volume(source, volume);
        self.save_asset_counters(asset, counters);
        Ok(())
    }

    /// Funds `target` with `amount` of `asset` from `source`, less the fee.
    pub fn fund_c_address(
        &mut self,
        source: Address,
        target: Address,
        asset: Address,
        amount: i128,
        nonce: Option<u64>,
        deadline: Option<u64>,
    ) -> (r: Result<(), BridgeError>)
        requires
            old(self)@.wf(),
            fund_error(old(self)@, source, target, asset, amount, nonce, deadline) is None
                ==> old(self)@.nonce_fits(source, nonce),
        ensures
            r == verdict(
                fund_error(old(self)@, source, target, asset, amount, nonce, deadline),
            ),
            final(self)@ == (if r is Ok {
                fund_effect(old(self)@, source, target, asset, amount, nonce)
            } else {
                old(self)@
            }),
            final(self)@.wf(),
    {
        self.check_running()?;
        self.check_deadline(deadline)?;
        self.check_amount(amount)?;
        self.check_access(target)?;
        self.check_asset_whitelisted(asset)?;
        let usage: Option<i128> = self.check_daily_limit(source, asset, amount)?;
        self.check_nonce(source, nonce)?;
        let c: Charge = self.charge(source, asset, amount)?;
        self.book_transfer(source, asset, amount, c.fee, c)?;
        self.save_daily_usage(source, asset, usage);
        self.consume_nonce(source, nonce);
        self.require_auth(source);
        self.keep_alive();
        self.pull(asset, source, amount);
        self.pay_out(asset, target, c.net);
        self.mint_loyalty_tokens(source);
        self.publish(Event::CAddressFunded { asset, source, target, amount, fee: c.fee });
        Ok(())
    }

    /// Funds `target` as `fund_c_address` does. A referrer gets its share of the
    /// fee at once.
    pub fn fund_c_address_with_referral(
        &mut self,
        source: Address,
        target: Address,
        asset: Address,
        amount: i128,
        referrer: Option<Address>,
    ) -> (r: Result<(), BridgeError>)
        requires
            old(self)@.wf(),
        ensures
            r == verdict(referral_error(old(self)@, source, target, asset, amount, referrer)),
            final(self)@ == (if r is Ok {
                referral_effect(old(self)@, source, target, asset, amount, referrer)
            } else {
                old(self)@
            }),
            final(self)@.wf(),
    {
        self.check_running()?;
        self.check_amount(amount)?;
        self.check_access(target)?;
        self.check_asset_whitelisted(asset)?;
        let usage: Option<i128> = self.check_daily_limit(source, asset, amount)?;
        let c: Charge = self.charge(source, asset, amount)?;
        proof {
            rates_are_capped(self@, source, asset);
            fee_bounds(amount as int, c.fee_bps as int);
            share_bounds(self@, c.fee, referrer);
            let product = amount as int * c.fee_bps as int;
            assert(c.fee == fee_on(amount as int, c.fee_bps as int));
            assert(c.fee == product / 10_000);
            assert(10_000 * (product / 10_000) <= product) by (nonlinear_arith);
            assert(0 <= c.fee * self@.referral_rate()) by (nonlinear_arith)
                requires
                    0 <= c.fee,
                    0 <= self@.referral_rate(),
            ;
        }
        let share: i128 = match referrer {
            Some(_) => {
                let rate: u32 = self.read_referral_rate();
                calculate_fee(c.fee, rate)?
            },
            None => 0,
        };
        self.book_transfer(source, asset, amount, c.fee - share, c)?;
        self.save_daily_usage(source, asset, usage);
        self.require_auth(source);
        self.keep_alive();
        self.pull(asset, source, amount);
        self.pay_out(asset, target, c.net);
        if let Some(to) = referrer {
            if share > 0 {
                self.pay_out(asset, to, share);
                self.publish(Event::ReferralPaid { source, referrer: to, amount: share, asset });
            }
        }
        self.mint_loyalty_tokens(source);
        self.publish(Event::CAddressFunded { asset, source, target, amount, fee: c.fee });
        Ok(())
    }
}

} // verus!
