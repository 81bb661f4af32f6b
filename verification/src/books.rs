//! The steps that the operations of the bridge are made of.
use vstd::prelude::*;

use crate::actions::{Action, Event};
use crate::errors::BridgeError;
use crate::host::{flags_get, map_key};
use crate::safe_math::{fits, safe_add};
use crate::state::{first, option_or, refuse_if, value_or, verdict, BridgeState, OnboardingBridge};
use crate::types::{
    Address, AssetCounters, BridgeConfig, BridgeConfigData, SourceAsset, SourceAssetDay,
    MAX_ALLOWED_TTL, MAX_FEE_BPS, SECONDS_PER_DAY,
};

verus! {

/// What an option holds, or a default.
fn unwrap_or<T: Copy>(o: Option<T>, default: T) -> (r: T)
    ensures
        r == option_or(o, default),
{
    match o {
        Some(v) => v,
        None => default,
    }
}

impl OnboardingBridge {
    /// Whether the books are those of a bridge: what every operation requires.
    pub fn well_formed(&self) -> (r: bool)
        ensures
            r == self@.wf(),
    {
        if self.instance.initialized && (self.instance.admin.is_none()
            || self.instance.fee_collector.is_none()) {
            return false;
        }
        if self.instance.deactivated && !self.instance.initialized {
            return false;
        }
        if self.read_fee_bps() > MAX_FEE_BPS || self.read_referral_rate() > 10_000 {
            return false;
        }
        match &self.fee_tiers {
            Some(tiers) => {
                let mut i: usize = 0;
                while i < tiers.len()
                    invariant
                        i <= tiers@.len(),
                        self@.fee_tiers == Some(tiers@),
                        forall|j: int| 0 <= j < i ==> (#[trigger] tiers@[j]).fee_bps <= MAX_FEE_BPS,
                    decreases tiers@.len() - i,
                {
                    if tiers[i].fee_bps > MAX_FEE_BPS {
                        assert(self@.fee_tiers->0[i as int].fee_bps > MAX_FEE_BPS);
                        return false;
                    }
                    i = i + 1;
                }
                true
            },
            None => true,
        }
    }

    pub(crate) fn read_admin(&self) -> (r: Address)
        requires
            self@.instance.admin is Some,
        ensures
            r == self@.admin(),
    {
        self.instance.admin.unwrap()
    }

    pub(crate) fn read_fee_collector(&self) -> (r: Address)
        requires
            self@.instance.fee_collector is Some,
        ensures
            r == self@.fee_collector(),
    {
        self.instance.fee_collector.unwrap()
    }

    pub(crate) fn read_config(&self) -> (r: BridgeConfig)
        ensures
            r == self@.config(),
    {
        unwrap_or(
            self.instance.config,
            BridgeConfig { fee_bps: 0, paused: false, allowlist_mode: false },
        )
    }

    pub(crate) fn read_bridge_config(&self) -> (r: BridgeConfigData)
        requires
            self@.instance.admin is Some,
            self@.instance.fee_collector is Some,
        ensures
            r == self@.bridge_config(),
    {
        unwrap_or(
            self.instance.bridge_config,
            BridgeConfigData {
                admin: self.read_admin(),
                fee_collector: self.read_fee_collector(),
                fee_bps: self.read_fee_bps(),
            },
        )
    }

    pub(crate) fn read_fee_bps(&self) -> (r: u32)
        ensures
            r == self@.config().fee_bps,
    {
        self.read_config().fee_bps
    }

    pub(crate) fn read_referral_rate(&self) -> (r: u32)
        ensures
            r == self@.referral_rate(),
    {
        unwrap_or(self.instance.referral_rate, 0)
    }

    pub(crate) fn read_minimum_amount(&self) -> (r: i128)
        ensures
            r == self@.minimum_amount(),
    {
        unwrap_or(self.instance.minimum_amount, 0)
    }

    pub(crate) fn read_max_withdraw_per_tx(&self) -> (r: i128)
        ensures
            r == self@.max_withdraw_per_tx(),
    {
        unwrap_or(self.instance.max_withdraw_per_tx, 0)
    }

    pub(crate) fn read_max_instance_ttl(&self) -> (r: u32)
        ensures
            r == self@.max_instance_ttl(),
    {
        unwrap_or(self.instance.max_instance_ttl, MAX_ALLOWED_TTL)
    }

    pub(crate) fn read_max_persistent_ttl(&self) -> (r: u32)
        ensures
            r == self@.max_persistent_ttl(),
    {
        unwrap_or(self.instance.max_persistent_ttl, MAX_ALLOWED_TTL)
    }

    pub(crate) fn read_nonce(&self, caller: Address) -> (r: u64)
        ensures
            r == self@.nonce_of(caller),
    {
        unwrap_or(self.nonce.get(caller), 0)
    }

    pub(crate) fn read_asset_fee_cap(&self, asset: Address) -> (r: u32)
        ensures
            r == self@.fee_cap_of(asset),
    {
        unwrap_or(self.asset_fee_cap.get(asset), MAX_FEE_BPS)
    }

    pub(crate) fn read_source_bridged_volume(&self, source: Address) -> (r: i128)
        ensures
            r == self@.volume_of(source),
    {
        unwrap_or(self.source_bridged_volume.get(source), 0)
    }

    pub(crate) fn read_asset_counters(&self, asset: Address) -> (r: AssetCounters)
        ensures
            r == self@.counters_of(asset),
    {
        unwrap_or(
            self.asset_stats.get(asset),
            AssetCounters {
                accrued_fees: 0,
                total_bridged: 0,
                total_fees_collected: 0,
                locked_timelock: 0,
            },
        )
    }

    /// Fails unless the bridge is initialized.
    pub(crate) fn check_initialized(&self) -> (r: Result<(), BridgeError>)
        ensures
            r == verdict(self@.query_error()),
    {
        if !self.instance.initialized {
            return Err(BridgeError::NotInitialized);
        }
        Ok(())
    }

    /// Fails unless a call may change the books of an active bridge.
    pub(crate) fn check_active(&self) -> (r: Result<(), BridgeError>)
        ensures
            r == verdict(self@.active_error()),
    {
        if self.instance.entered {
            return Err(BridgeError::Reentrant);
        }
        self.check_initialized()?;
        if self.instance.deactivated {
            return Err(BridgeError::ContractDeactivated);
        }
        Ok(())
    }

    /// Fails unless a call may change the books of a running bridge.
    pub(crate) fn check_running(&self) -> (r: Result<(), BridgeError>)
        ensures
            r == verdict(self@.running_error()),
    {
        self.check_active()?;
        if self.read_config().paused {
            return Err(BridgeError::ContractPaused);
        }
        Ok(())
    }

    /// Fails where a deadline has passed.
    pub(crate) fn check_deadline(&self, deadline: Option<u64>) -> (r: Result<(), BridgeError>)
        ensures
            r == verdict(self@.deadline_error(deadline)),
    {
        if let Some(d) = deadline {
            if self.ledger.timestamp > d {
                return Err(BridgeError::TransactionExpired);
            }
        }
        Ok(())
    }

    /// Fails where an amount is not positive or below the minimum.
    pub(crate) fn check_amount(&self, amount: i128) -> (r: Result<(), BridgeError>)
        ensures
            r == verdict(self@.amount_error(amount)),
    {
        if amount <= 0 || amount < self.read_minimum_amount() {
            return Err(BridgeError::InvalidAmount);
        }
        Ok(())
    }

    pub(crate) fn read_blocked(&self, addr: Address) -> (r: bool)
        ensures
            r == self@.is_blocked(addr),
    {
        unwrap_or(self.blocked.get(addr), false)
    }

    pub(crate) fn read_allowlisted(&self, addr: Address) -> (r: bool)
        ensures
            r == self@.is_allowlisted(addr),
    {
        unwrap_or(self.allowlisted.get(addr), false)
    }

    /// Fails where a target may not receive funds.
    pub(crate) fn check_access(&self, target: Address) -> (r: Result<(), BridgeError>)
        ensures
            r == verdict(self@.access_error(target)),
    {
        if self.read_blocked(target) {
            return Err(BridgeError::AddressBlocked);
        }
        if self.read_config().allowlist_mode && !self.read_allowlisted(target) {
            return Err(BridgeError::AddressNotAllowlisted);
        }
        Ok(())
    }

    pub(crate) fn read_asset_listed(&self, asset: Address) -> (r: bool)
        ensures
            r == self@.asset_is_listed(asset),
    {
        unwrap_or(flags_get(&self.asset_whitelist, map_key(asset)), false)
    }

    pub(crate) fn read_pool_listed(&self, pool: Address) -> (r: bool)
        ensures
            r == self@.pool_is_listed(pool),
    {
        unwrap_or(flags_get(&self.pool_whitelist, map_key(pool)), false)
    }

    /// Fails where an asset is not whitelisted.
    pub(crate) fn check_asset_whitelisted(&self, asset: Address) -> (r: Result<(), BridgeError>)
        ensures
            r == verdict(self@.asset_error(asset)),
    {
        if !self.read_asset_listed(asset) {
            return Err(BridgeError::AssetNotWhitelisted);
        }
        Ok(())
    }

    /// Fails where a nonce is given that is not the caller's next.
    pub(crate) fn check_nonce(&self, caller: Address, nonce: Option<u64>) -> (r: Result<
        (),
        BridgeError,
    >)
        ensures
            r == verdict(self@.nonce_error(caller, nonce)),
    {
        if let Some(n) = nonce {
            if n != self.read_nonce(caller) {
                return Err(BridgeError::DuplicateNonce);
            }
        }
        Ok(())
    }

    /// Advances the caller's nonce past the one that it gave.
    pub(crate) fn consume_nonce(&mut self, caller: Address, nonce: Option<u64>)
        requires
            old(self)@.nonce_fits(caller, nonce),
        ensures
            final(self)@ == old(self)@.consume(caller, nonce),
    {
        if let Some(n) = nonce {
            self.nonce.set(caller, n + 1);
        }
    }

    pub(crate) fn act(&mut self, action: Action)
        ensures
            final(self)@ == old(self)@.act(action),
    {
        self.actions.push(action);
    }

    pub(crate) fn publish(&mut self, event: Event)
        ensures
            final(self)@ == old(self)@.publish(event),
    {
        self.act(Action::Publish { event });
    }

    pub(crate) fn require_auth(&mut self, address: Address)
        ensures
            final(self)@ == old(self)@.require_auth(address),
    {
        self.act(Action::RequireAuth { address });
    }

    pub(crate) fn transfer(&mut self, asset: Address, from: Address, to: Address, amount: i128)
        ensures
            final(self)@ == old(self)@.transfer(asset, from, to, amount),
    {
        self.act(Action::Transfer { asset, from, to, amount });
    }

    /// Asks for tokens of an address.
    pub(crate) fn pull(&mut self, asset: Address, from: Address, amount: i128)
        ensures
            final(self)@ == old(self)@.pull(asset, from, amount),
    {
        let contract: Address = self.ledger.contract;
        self.transfer(asset, from, contract, amount);
    }

    /// Asks for tokens of the bridge to be sent, where there is something to send.
    pub(crate) fn pay_out(&mut self, asset: Address, to: Address, amount: i128)
        ensures
            final(self)@ == old(self)@.pay_out(asset, to, amount),
    {
        if amount > 0 {
            let contract: Address = self.ledger.contract;
            self.transfer(asset, contract, to, amount);
        }
    }

    /// Asks for the instance entries to be kept alive.
    pub(crate) fn keep_alive(&mut self)
        ensures
            final(self)@ == old(self)@.keep_alive(),
    {
        let max_ttl: u32 = self.read_max_instance_ttl();
        self.act(Action::ExtendInstanceTtl { threshold: max_ttl / 4, extend_to: max_ttl });
    }

    /// Asks for the authorization of the admin, and consumes its nonce.
    pub(crate) fn admin_call(&mut self, nonce: Option<u64>)
        requires
            old(self)@.instance.admin is Some,
            old(self)@.nonce_fits(old(self)@.admin(), nonce),
        ensures
            final(self)@ == old(self)@.admin_call(nonce),
    {
        let admin: Address = self.read_admin();
        self.consume_nonce(admin, nonce);
        self.require_auth(admin);
        self.keep_alive();
    }

    /// Fails unless the admin may make a call.
    pub(crate) fn check_admin_call(&self, nonce: Option<u64>) -> (r: Result<(), BridgeError>)
        requires
            self@.wf(),
        ensures
            r == verdict(self@.admin_error(nonce)),
    {
        self.check_running()?;
        self.check_nonce(self.read_admin(), nonce)
    }

    /// Asks for the reward of a funding call, where one is configured.
    pub(crate) fn mint_loyalty_tokens(&mut self, recipient: Address)
        ensures
            final(self)@ == old(self)@.reward(recipient),
    {
        if let Some(token) = self.instance.loyalty_token {
            let amount: i128 = unwrap_or(self.instance.loyalty_amount_per_fund, 0);
            if amount > 0 {
                self.act(Action::RewardLoyalty { token, recipient, amount });
            }
        }
    }

    /// Stores the totals of an asset, and the copies of three of them.
    pub(crate) fn save_asset_counters(&mut self, asset: Address, counters: AssetCounters)
        ensures
            final(self)@ == old(self)@.with_counters(asset, counters),
    {
        self.asset_stats.set(asset, counters);
        self.accrued_fees.set(asset, counters.accrued_fees);
        self.total_bridged.set(asset, counters.total_bridged);
        self.total_fees_collected.set(asset, counters.total_fees_collected);
    }

    pub(crate) fn save_source_bridged_volume(&mut self, source: Address, volume: i128)
        ensures
            final(self)@ == old(self)@.with_volume(source, volume),
    {
        self.source_bridged_volume.set(source, volume);
    }

    /// Asks for further actions.
    pub(crate) fn act_all(&mut self, more: &Vec<Action>)
        ensures
            final(self)@ == old(self)@.act_all(more@),
    {
        let mut i: usize = 0;
        assert(self@.actions =~= old(self)@.actions + more@.take(0));
        while i < more.len()
            invariant
                i <= more@.len(),
                self@ == old(self)@.act_all(more@.take(i as int)),
            decreases more@.len() - i,
        {
            self.act(more[i]);
            i = i + 1;
            assert(self@.actions =~= old(self)@.actions + more@.take(i as int));
        }
        assert(more@.take(i as int) =~= more@);
    }

    pub(crate) fn read_user_deposit(&self, source: Address, asset: Address) -> (r: i128)
        ensures
            r == self@.deposit_of(source, asset),
    {
        unwrap_or(self.user_deposit.get(SourceAsset { source, asset }), 0)
    }

    pub(crate) fn save_user_deposit(&mut self, source: Address, asset: Address, deposit: i128)
        ensures
            final(self)@ == old(self)@.with_deposit(source, asset, deposit),
    {
        self.user_deposit.set(SourceAsset { source, asset }, deposit);
    }

    pub(crate) fn read_source_daily_limit(&self, source: Address, asset: Address) -> (r: i128)
        ensures
            r == self@.daily_limit_of(source, asset),
    {
        unwrap_or(self.source_daily_limit.get(SourceAsset { source, asset }), 0)
    }

    /// What the source will have moved today, or why the limit forbids it.
    pub(crate) fn check_daily_limit(&self, source: Address, asset: Address, amount: i128) -> (r:
        Result<Option<i128>, BridgeError>)
        ensures
            r == (match self@.usage_error(source, asset, amount) {
                Some(e) => Err(e),
                None => Ok(
                    if self@.daily_limit_of(source, asset) == 0 {
                        None
                    } else {
                        Some((self@.used_today(source, asset) + amount) as i128)
                    },
                ),
            }),
    {
        let limit: i128 = self.read_source_daily_limit(source, asset);
        if limit == 0 {
            return Ok(None);
        }
        let day: u64 = self.ledger.timestamp / SECONDS_PER_DAY;
        let used: i128 = unwrap_or(
            self.daily_usage.get(SourceAssetDay { source, asset, day }),
            0,
        );
        let updated: i128 = safe_add(used, amount)?;
        if updated > limit {
            return Err(BridgeError::DailyLimitExceeded);
        }
        Ok(Some(updated))
    }

    /// Stores what a source has moved today, where a limit is set.
    pub(crate) fn save_daily_usage(&mut self, source: Address, asset: Address, usage: Option<i128>)
        ensures
            final(self)@ == (match usage {
                Some(used) => BridgeState {
                    daily_usage: old(self)@.daily_usage.insert(
                        old(self)@.usage_key(source, asset),
                        used,
                    ),
                    ..old(self)@
                },
                None => old(self)@,
            }),
    {
        if let Some(used) = usage {
            let day: u64 = self.ledger.timestamp / SECONDS_PER_DAY;
            self.daily_usage.set(SourceAssetDay { source, asset, day }, used);
        }
    }

    /// The totals of an asset after a transfer.
    pub(crate) fn credit(&self, asset: Address, accrued: i128, net: i128, fee: i128) -> (r: Result<
        AssetCounters,
        BridgeError,
    >)
        ensures
            r == credited(self@.counters_of(asset), accrued as int, net as int, fee as int),
    {
        let c: AssetCounters = self.read_asset_counters(asset);
        let accrued_fees: i128 = safe_add(c.accrued_fees, accrued)?;
        let total_bridged: i128 = safe_add(c.total_bridged, net)?;
        let total_fees_collected: i128 = safe_add(c.total_fees_collected, fee)?;
        Ok(AssetCounters { accrued_fees, total_bridged, total_fees_collected, ..c })
    }
}

/// The totals of an asset after fees accrued, an amount was delivered and a fee
/// was charged. `Overflow` where one of them leaves the range of `i128`.
pub open spec fn credited(c: AssetCounters, accrued: int, net: int, fee: int) -> Result<
    AssetCounters,
    BridgeError,
> {
    if fits(c.accrued_fees + accrued) && fits(c.total_bridged + net) && fits(
        c.total_fees_collected + fee,
    ) {
        Ok(
            AssetCounters {
                accrued_fees: (c.accrued_fees + accrued) as i128,
                total_bridged: (c.total_bridged + net) as i128,
                total_fees_collected: (c.total_fees_collected + fee) as i128,
                locked_timelock: c.locked_timelock,
            },
        )
    } else {
        Err(BridgeError::Overflow)
    }
}

impl BridgeState {
    /// The most that a source may move of an asset in a day. Zero is no limit.
    pub open spec fn daily_limit_of(self, source: Address, asset: Address) -> i128 {
        value_or(self.source_daily_limit, SourceAsset { source, asset }, 0)
    }

    /// Where it is kept what a source has moved of an asset today.
    pub open spec fn usage_key(self, source: Address, asset: Address) -> SourceAssetDay {
        SourceAssetDay { source, asset, day: (self.ledger.timestamp / SECONDS_PER_DAY) as u64 }
    }

    /// What a source has moved of an asset today, while a limit was set.
    pub open spec fn used_today(self, source: Address, asset: Address) -> i128 {
        value_or(self.daily_usage, self.usage_key(source, asset), 0)
    }

    /// Why the daily limit forbids a transfer.
    pub open spec fn usage_error(self, source: Address, asset: Address, amount: i128) -> Option<
        BridgeError,
    > {
        let limit = self.daily_limit_of(source, asset);
        let used = self.used_today(source, asset) + amount;
        if limit == 0 {
            None
        } else {
            first(
                refuse_if(!fits(used), BridgeError::Overflow),
                refuse_if(used > limit, BridgeError::DailyLimitExceeded),
            )
        }
    }

    /// The books after a transfer has been counted toward the daily limit.
    pub open spec fn count_usage(
        self,
        source: Address,
        asset: Address,
        amount: i128,
    ) -> BridgeState {
        if self.daily_limit_of(source, asset) == 0 {
            self
        } else {
            BridgeState {
                daily_usage: self.daily_usage.insert(
                    self.usage_key(source, asset),
                    (self.used_today(source, asset) + amount) as i128,
                ),
                ..self
            }
        }
    }
}

/// What is done about a reward, given what the bridge holds of the token: it is
/// paid out, unless the reserve is too small for it.
pub open spec fn loyalty_settlement(
    contract: Address,
    token: Address,
    recipient: Address,
    amount: i128,
    reserve: i128,
) -> Action {
    if reserve < amount {
        Action::Publish { event: Event::LoyaltyMintSkipped { recipient, amount, reserve } }
    } else {
        Action::Transfer { asset: token, from: contract, to: recipient, amount }
    }
}

/// Says what is done about a reward, given what the bridge holds of the token.
/// A reserve that is too small never fails the call that earned the reward.
pub fn settle_loyalty(
    contract: Address,
    token: Address,
    recipient: Address,
    amount: i128,
    reserve: i128,
) -> (r: Action)
    ensures
        r == loyalty_settlement(contract, token, recipient, amount, reserve),
{
    if reserve < amount {
        return Action::Publish { event: Event::LoyaltyMintSkipped { recipient, amount, reserve } };
    }
    Action::Transfer { asset: token, from: contract, to: recipient, amount }
}

} // verus!
