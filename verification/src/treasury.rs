//! What the bridge holds: fees, and tokens that came to it by mistake.
use vstd::prelude::*;

use crate::actions::Event;
use crate::errors::BridgeError;
use crate::host::{amounts_by_key, amounts_new, amounts_set, key_of, map_key};
use crate::safe_math::{fits, safe_sub};
use crate::state::{answer, first, refuse_if, verdict, BridgeState, OnboardingBridge};
use crate::types::{Address, AssetCounters, MAX_BATCH_SIZE};

verus! {

/// Why `withdraw_fees` refuses a call.
pub open spec fn withdraw_error(
    s: BridgeState,
    asset: Address,
    amount: i128,
    nonce: Option<u64>,
) -> Option<BridgeError> {
    first(
        s.running_error(),
        first(
            refuse_if(amount <= 0, BridgeError::InvalidAmount),
            first(
                refuse_if(
                    s.max_withdraw_per_tx() > 0 && amount > s.max_withdraw_per_tx(),
                    BridgeError::WithdrawExceedsLimit,
                ),
                first(
                    refuse_if(
                        amount > s.counters_of(asset).accrued_fees,
                        BridgeError::InsufficientReclaimable,
                    ),
                    s.nonce_error(s.fee_collector(), nonce),
                ),
            ),
        ),
    )
}

/// The books after `withdraw_fees`.
pub open spec fn withdraw_effect(
    s: BridgeState,
    asset: Address,
    amount: i128,
    nonce: Option<u64>,
) -> BridgeState {
    let c = s.counters_of(asset);
    s.with_counters(
        asset,
        AssetCounters { accrued_fees: (c.accrued_fees - amount) as i128, ..c },
    )
        .consume(s.fee_collector(), nonce)
        .require_auth(s.fee_collector())
        .keep_alive()
        .pay_out(asset, s.fee_collector(), amount)
        .publish(Event::FeesWithdrawn { fee_collector: s.fee_collector(), amount, asset })
}

/// What the admin may reclaim of a balance: what is neither owed to the fee
/// collector nor locked for a recipient.
pub open spec fn reclaimable(c: AssetCounters, balance: i128) -> int {
    balance - c.accrued_fees - c.locked_timelock
}

/// Why `reclaim_tokens` refuses a call. `balance` is what the bridge holds.
pub open spec fn reclaim_error(
    s: BridgeState,
    asset: Address,
    amount: i128,
    nonce: Option<u64>,
    balance: i128,
) -> Option<BridgeError> {
    let c = s.counters_of(asset);
    first(
        s.running_error(),
        first(
            refuse_if(amount <= 0, BridgeError::InvalidAmount),
            first(
                refuse_if(
                    !fits(balance - c.accrued_fees) || !fits(reclaimable(c, balance)),
                    BridgeError::Overflow,
                ),
                first(
                    refuse_if(
                        amount > reclaimable(c, balance),
                        BridgeError::InsufficientReclaimable,
                    ),
                    s.nonce_error(s.admin(), nonce),
                ),
            ),
        ),
    )
}

/// The books after `reclaim_tokens`.
pub open spec fn reclaim_effect(
    s: BridgeState,
    asset: Address,
    amount: i128,
    destination: Address,
    nonce: Option<u64>,
) -> BridgeState {
    s.admin_call(nonce).pay_out(asset, destination, amount).publish(
        Event::TokensReclaimed { admin: s.admin(), asset, amount, destination },
    )
}

/// The balances of the first `n` assets, by the keys of the assets.
pub open spec fn balances_by_asset(
    assets: Seq<Address>,
    balances: Seq<i128>,
    n: nat,
) -> Map<(u32, u128, u128), i128>
    decreases n,
{
    if n == 0 {
        Map::empty()
    } else {
        balances_by_asset(assets, balances, (n - 1) as nat).insert(
            key_of(assets[n - 1]),
            balances[n - 1],
        )
    }
}

impl OnboardingBridge {
    /// Pays `amount` of the accrued fees to the fee collector.
    pub fn withdraw_fees(&mut self, asset: Address, amount: i128, nonce: Option<u64>) -> (r: Result<
        (),
        BridgeError,
    >)
        requires
            old(self)@.wf(),
            withdraw_error(old(self)@, asset, amount, nonce) is None ==> old(self)@.nonce_fits(
                old(self)@.fee_collector(),
                nonce,
            ),
        ensures
            r == verdict(withdraw_error(old(self)@, asset, amount, nonce)),
            final(self)@ == (if r is Ok {
                withdraw_effect(old(self)@, asset, amount, nonce)
            } else {
                old(self)@
            }),
            final(self)@.wf(),
    {
        self.check_running()?;
        if amount <= 0 {
            return Err(BridgeError::InvalidAmount);
        }
        let max: i128 = self.read_max_withdraw_per_tx();
        if max > 0 && amount > max {
            return Err(BridgeError::WithdrawExceedsLimit);
        }
        let mut c: AssetCounters = self.read_asset_counters(asset);
        if amount > c.accrued_fees {
            return Err(BridgeError::InsufficientReclaimable);
        }
        let fee_collector: Address = self.read_fee_collector();
        self.check_nonce(fee_collector, nonce)?;
        c.accrued_fees = c.accrued_fees - amount;
        self.save_asset_counters(asset, c);
        self.consume_nonce(fee_collector, nonce);
        self.require_auth(fee_collector);
        self.keep_alive();
        self.pay_out(asset, fee_collector, amount);
        self.publish(Event::FeesWithdrawn { fee_collector, amount, asset });
        Ok(())
    }

    /// Sends `amount` of `asset` to `destination`, out of what the bridge holds
    /// beyond accrued fees and locked deposits. `balance` is all that it holds.
    pub fn reclaim_tokens(
        &mut self,
        asset: Address,
        amount: i128,
        destination: Address,
        nonce: Option<u64>,
        balance: i128,
    ) -> (r: Result<(), BridgeError>)
        requires
            old(self)@.wf(),
            reclaim_error(old(self)@, asset, amount, nonce, balance) is None ==> old(self)@.nonce_fits(
                old(self)@.admin(),
                nonce,
            ),
        ensures
            r == verdict(reclaim_error(old(self)@, asset, amount, nonce, balance)),
            final(self)@ == (if r is Ok {
                reclaim_effect(old(self)@, asset, amount, destination, nonce)
            } else {
                old(self)@
            }),
            final(self)@.wf(),
    {
        self.check_running()?;
        if amount <= 0 {
            return Err(BridgeError::InvalidAmount);
        }
        let c: AssetCounters = self.read_asset_counters(asset);
        let unaccrued: i128 = safe_sub(balance, c.accrued_fees)?;
        let available: i128 = safe_sub(unaccrued, c.locked_timelock)?;
        if amount > available {
            return Err(BridgeError::InsufficientReclaimable);
        }
        let admin: Address = self.read_admin();
        self.check_nonce(admin, nonce)?;
        self.admin_call(nonce);
        self.pay_out(asset, destination, amount);
        self.publish(Event::TokensReclaimed { admin, asset, amount, destination });
        Ok(())
    }

    /// The fees of an asset that have not been withdrawn.
    pub fn query_accrued_fees(&self, asset: Address) -> (r: Result<i128, BridgeError>)
        ensures
            r == answer(self@.query_error(), self@.counters_of(asset).accrued_fees),
    {
        self.check_initialized()?;
        Ok(self.read_asset_counters(asset).accrued_fees)
    }

    /// All that was delivered of an asset, fees deducted.
    pub fn query_total_bridged(&self, asset: Address) -> (r: Result<i128, BridgeError>)
        ensures
            r == answer(self@.query_error(), self@.counters_of(asset).total_bridged),
    {
        self.check_initialized()?;
        Ok(self.read_asset_counters(asset).total_bridged)
    }

    /// All fees that were ever charged in an asset.
    pub fn query_total_fees_collected(&self, asset: Address) -> (r: Result<i128, BridgeError>)
        ensures
            r == answer(self@.query_error(), self@.counters_of(asset).total_fees_collected),
    {
        self.check_initialized()?;
        Ok(self.read_asset_counters(asset).total_fees_collected)
    }

    /// What the bridge holds of an asset, given its balance.
    pub fn query_fee_balance(&self, balance: i128) -> (r: Result<i128, BridgeError>)
        ensures
            r == answer(self@.query_error(), balance),
    {
        self.check_initialized()?;
        Ok(balance)
    }

    /// What the bridge holds of each asset, given its balances in the same order.
    pub fn query_all_balances(
        env: &soroban_sdk::Env,
        assets: &Vec<Address>,
        balances: &Vec<i128>,
    ) -> (r: Result<soroban_sdk::Map<(u32, u128, u128), i128>, BridgeError>)
        requires
            assets@.len() == balances@.len(),
        ensures
            match r {
                Ok(m) => assets@.len() <= MAX_BATCH_SIZE && amounts_by_key(m) == balances_by_asset(
                    assets@,
                    balances@,
                    assets@.len(),
                ),
                Err(e) => assets@.len() > MAX_BATCH_SIZE && e == BridgeError::BatchTooLarge,
            },
    {
        if assets.len() > MAX_BATCH_SIZE as usize {
            return Err(BridgeError::BatchTooLarge);
        }
        let mut m: soroban_sdk::Map<(u32, u128, u128), i128> = amounts_new(env);
        let mut i: usize = 0;
        while i < assets.len()
            invariant
                i <= assets@.len(),
                assets@.len() == balances@.len(),
                amounts_by_key(m) == balances_by_asset(assets@, balances@, i as nat),
            decreases assets@.len() - i,
        {
            amounts_set(&mut m, map_key(assets[i]), balances[i]);
            i = i + 1;
        }
        Ok(m)
    }
}

} // verus!
