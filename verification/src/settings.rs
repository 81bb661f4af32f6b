//! The rates, limits and rewards that the admin sets.
use vstd::prelude::*;

use crate::actions::Event;
use crate::errors::BridgeError;
use crate::state::{
    answer, first, option_or, refuse_if, verdict, BridgeState, Instance, OnboardingBridge,
};
use crate::types::{
    Address, BridgeConfig, BridgeConfigData, FeeTier, SourceAsset, MAX_FEE_BPS, MAX_FEE_TIERS,
    MAX_REFERRAL_BPS,
};

verus! {

impl BridgeState {
    /// The books with another global rate.
    pub open spec fn with_fee_bps(self, fee_bps: u32) -> BridgeState {
        self.with_instance(
            Instance {
                config: Some(BridgeConfig { fee_bps, ..self.config() }),
                fee_bps: Some(fee_bps),
                bridge_config: Some(BridgeConfigData { fee_bps, ..self.bridge_config() }),
                ..self.instance
            },
        )
    }

    /// The tier that stands for the global rate.
    pub open spec fn default_tier(self) -> FeeTier {
        FeeTier { min_volume: 0, max_volume: i128::MAX, fee_bps: self.config().fee_bps }
    }
}

/// Why a call of the admin is refused that sets a rate.
pub open spec fn rate_error(s: BridgeState, bps: u32, max: u32, nonce: Option<u64>) -> Option<
    BridgeError,
> {
    first(
        s.running_error(),
        first(refuse_if(bps > max, BridgeError::FeeTooHigh), s.nonce_error(s.admin(), nonce)),
    )
}

/// The books after `set_fee_bps`.
pub open spec fn set_fee_bps_effect(
    s: BridgeState,
    new_fee_bps: u32,
    nonce: Option<u64>,
) -> BridgeState {
    s.admin_call(nonce).with_fee_bps(new_fee_bps).publish(
        Event::FeeBpsChanged { old_fee_bps: s.config().fee_bps, new_fee_bps, admin: s.admin() },
    )
}

/// The books after `set_source_daily_limit`.
pub open spec fn daily_limit_effect(
    s: BridgeState,
    source: Address,
    asset: Address,
    limit_amount: i128,
    nonce: Option<u64>,
) -> BridgeState {
    let called = s.admin_call(nonce);
    BridgeState {
        source_daily_limit: s.source_daily_limit.insert(SourceAsset { source, asset }, limit_amount),
        ..called
    }
}

/// The books after `set_asset_fee_cap`.
pub open spec fn fee_cap_effect(
    s: BridgeState,
    asset: Address,
    max_fee_bps: u32,
    nonce: Option<u64>,
) -> BridgeState {
    let called = s.admin_call(nonce);
    BridgeState { asset_fee_cap: s.asset_fee_cap.insert(asset, max_fee_bps), ..called }
}

/// The books after `set_referral_rate`.
pub open spec fn referral_rate_effect(s: BridgeState, bps: u32, nonce: Option<u64>) -> BridgeState {
    let called = s.admin_call(nonce);
    called.with_instance(Instance { referral_rate: Some(bps), ..s.instance }).publish(
        Event::ReferralRateChanged { bps },
    )
}

/// The books after `set_minimum_amount`.
pub open spec fn minimum_amount_effect(
    s: BridgeState,
    amount: i128,
    nonce: Option<u64>,
) -> BridgeState {
    s.admin_call(nonce).with_instance(Instance { minimum_amount: Some(amount), ..s.instance })
}

/// The books after `set_max_withdraw_per_tx`.
pub open spec fn max_withdraw_effect(
    s: BridgeState,
    amount: i128,
    nonce: Option<u64>,
) -> BridgeState {
    s.admin_call(nonce).with_instance(Instance { max_withdraw_per_tx: Some(amount), ..s.instance })
}

/// Why `set_loyalty_token` refuses a call.
pub open spec fn loyalty_error(s: BridgeState, amount_per_fund: i128) -> Option<BridgeError> {
    first(s.running_error(), refuse_if(amount_per_fund < 0, BridgeError::InvalidAmount))
}

/// The books after `set_loyalty_token`.
pub open spec fn loyalty_effect(
    s: BridgeState,
    token: Address,
    amount_per_fund: i128,
) -> BridgeState {
    s.admin_call(None).with_instance(
        Instance {
            loyalty_token: Some(token),
            loyalty_amount_per_fund: Some(amount_per_fund),
            ..s.instance
        },
    ).publish(Event::LoyaltyTokenSet { admin: s.admin(), token, amount_per_fund })
}

/// Whether the rate of one of the tiers is too high.
pub open spec fn some_tier_too_high(tiers: Seq<FeeTier>) -> bool {
    exists|i: int| 0 <= i < tiers.len() && (#[trigger] tiers[i]).fee_bps > MAX_FEE_BPS
}

/// Why `set_fee_tiers` refuses a call.
pub open spec fn fee_tiers_error(s: BridgeState, tiers: Seq<FeeTier>) -> Option<BridgeError> {
    first(
        s.running_error(),
        first(
            refuse_if(tiers.len() > MAX_FEE_TIERS, BridgeError::TooManyFeeTiers),
            refuse_if(some_tier_too_high(tiers), BridgeError::FeeTooHigh),
        ),
    )
}

/// The books after `set_fee_tiers`.
pub open spec fn fee_tiers_effect(s: BridgeState, tiers: Seq<FeeTier>) -> BridgeState {
    let called = s.admin_call(None);
    BridgeState { fee_tiers: Some(tiers), ..called }.publish(
        Event::FeeTiersSet { admin: s.admin(), count: tiers.len() as u32 },
    )
}

impl OnboardingBridge {
    /// Sets the global fee rate.
    pub fn set_fee_bps(&mut self, new_fee_bps: u32, nonce: Option<u64>) -> (r: Result<
        (),
        BridgeError,
    >)
        requires
            old(self)@.wf(),
            rate_error(old(self)@, new_fee_bps, MAX_FEE_BPS, nonce) is None ==> old(self)@.nonce_fits(
                old(self)@.admin(),
                nonce,
            ),
        ensures
            r == verdict(rate_error(old(self)@, new_fee_bps, MAX_FEE_BPS, nonce)),
            final(self)@ == (if r is Ok {
                set_fee_bps_effect(old(self)@, new_fee_bps, nonce)
            } else {
                old(self)@
            }),
            final(self)@.wf(),
    {
        self.check_running()?;
        if new_fee_bps > MAX_FEE_BPS {
            return Err(BridgeError::FeeTooHigh);
        }
        let admin: Address = self.read_admin();
        self.check_nonce(admin, nonce)?;
        let config: BridgeConfig = self.read_config();
        let cached: BridgeConfigData = self.read_bridge_config();
        self.admin_call(nonce);
        self.instance.config = Some(BridgeConfig { fee_bps: new_fee_bps, ..config });
        self.instance.fee_bps = Some(new_fee_bps);
        self.instance.bridge_config = Some(BridgeConfigData { fee_bps: new_fee_bps, ..cached });
        self.publish(Event::FeeBpsChanged { old_fee_bps: config.fee_bps, new_fee_bps, admin });
        Ok(())
    }

    /// The global fee rate.
    pub fn query_fee_bps(&self) -> (r: Result<u32, BridgeError>)
        ensures
            r == answer(self@.query_error(), self@.config().fee_bps),
    {
        self.check_initialized()?;
        Ok(self.read_fee_bps())
    }

    /// Limits what `source` may move of `asset` in a day. Zero is no limit.
    pub fn set_source_daily_limit(
        &mut self,
        source: Address,
        asset: Address,
        limit_amount: i128,
        nonce: Option<u64>,
    ) -> (r: Result<(), BridgeError>)
        requires
            old(self)@.wf(),
            old(self)@.admin_error(nonce) is None ==> old(self)@.nonce_fits(
                old(self)@.admin(),
                nonce,
            ),
        ensures
            r == verdict(old(self)@.admin_error(nonce)),
            final(self)@ == (if r is Ok {
                daily_limit_effect(old(self)@, source, asset, limit_amount, nonce)
            } else {
                old(self)@
            }),
            final(self)@.wf(),
    {
        self.check_admin_call(nonce)?;
        self.admin_call(nonce);
        self.source_daily_limit.set(SourceAsset { source, asset }, limit_amount);
        Ok(())
    }

    /// What `source` may move of `asset` in a day. Zero is no limit.
    pub fn query_source_daily_limit(&self, source: Address, asset: Address) -> (r: Result<
        i128,
        BridgeError,
    >)
        ensures
            r == answer(self@.query_error(), self@.daily_limit_of(source, asset)),
    {
        self.check_initialized()?;
        Ok(self.read_source_daily_limit(source, asset))
    }

    /// Caps the fee rate of an asset.
    pub fn set_asset_fee_cap(&mut self, asset: Address, max_fee_bps: u32, nonce: Option<u64>) -> (r:
        Result<(), BridgeError>)
        requires
            old(self)@.wf(),
            rate_error(old(self)@, max_fee_bps, MAX_FEE_BPS, nonce) is None ==> old(self)@.nonce_fits(
                old(self)@.admin(),
                nonce,
            ),
        ensures
            r == verdict(rate_error(old(self)@, max_fee_bps, MAX_FEE_BPS, nonce)),
            final(self)@ == (if r is Ok {
                fee_cap_effect(old(self)@, asset, max_fee_bps, nonce)
            } else {
                old(self)@
            }),
            final(self)@.wf(),
    {
        self.check_running()?;
        if max_fee_bps > MAX_FEE_BPS {
            return Err(BridgeError::FeeTooHigh);
        }
        self.check_nonce(self.read_admin(), nonce)?;
        self.admin_call(nonce);
        self.asset_fee_cap.set(asset, max_fee_bps);
        Ok(())
    }

    /// The cap on the fee rate of an asset.
    pub fn query_asset_fee_cap(&self, asset: Address) -> (r: Result<u32, BridgeError>)
        ensures
            r == answer(self@.query_error(), self@.fee_cap_of(asset)),
    {
        self.check_initialized()?;
        Ok(self.read_asset_fee_cap(asset))
    }

    /// Sets the share of a fee that goes to a referrer.
    pub fn set_referral_rate(&mut self, bps: u32, nonce: Option<u64>) -> (r: Result<
        (),
        BridgeError,
    >)
        requires
            old(self)@.wf(),
            rate_error(old(self)@, bps, MAX_REFERRAL_BPS, nonce) is None ==> old(self)@.nonce_fits(
                old(self)@.admin(),
                nonce,
            ),
        ensures
            r == verdict(rate_error(old(self)@, bps, MAX_REFERRAL_BPS, nonce)),
            final(self)@ == (if r is Ok {
                referral_rate_effect(old(self)@, bps, nonce)
            } else {
                old(self)@
            }),
            final(self)@.wf(),
    {
        self.check_running()?;
        if bps > MAX_REFERRAL_BPS {
            return Err(BridgeError::FeeTooHigh);
        }
        self.check_nonce(self.read_admin(), nonce)?;
        self.admin_call(nonce);
        self.instance.referral_rate = Some(bps);
        self.publish(Event::ReferralRateChanged { bps });
        Ok(())
    }

    /// The share of a fee that goes to a referrer.
    pub fn query_referral_rate(&self) -> (r: Result<u32, BridgeError>)
        ensures
            r == answer(self@.query_error(), self@.referral_rate()),
    {
        self.check_initialized()?;
        Ok(self.read_referral_rate())
    }

    /// Sets the smallest amount that can be transferred.
    pub fn set_minimum_amount(&mut self, amount: i128, nonce: Option<u64>) -> (r: Result<
        (),
        BridgeError,
    >)
        requires
            old(self)@.wf(),
            old(self)@.admin_error(nonce) is None ==> old(self)@.nonce_fits(
                old(self)@.admin(),
                nonce,
            ),
        ensures
            r == verdict(old(self)@.admin_error(nonce)),
            final(self)@ == (if r is Ok {
                minimum_amount_effect(old(self)@, amount, nonce)
            } else {
                old(self)@
            }),
            final(self)@.wf(),
    {
        self.check_admin_call(nonce)?;
        self.admin_call(nonce);
        self.instance.minimum_amount = Some(amount);
        Ok(())
    }

    /// The smallest amount that can be transferred.
    pub fn query_minimum_amount(&self) -> (r: Result<i128, BridgeError>)
        ensures
            r == answer(self@.query_error(), self@.minimum_amount()),
    {
        self.check_initialized()?;
        Ok(self.read_minimum_amount())
    }

    /// Sets the most that the fee collector can withdraw in one call. Zero is no
    /// limit.
    pub fn set_max_withdraw_per_tx(&mut self, amount: i128, nonce: Option<u64>) -> (r: Result<
        (),
        BridgeError,
    >)
        requires
            old(self)@.wf(),
            old(self)@.admin_error(nonce) is None ==> old(self)@.nonce_fits(
                old(self)@.admin(),
                nonce,
            ),
        ensures
            r == verdict(old(self)@.admin_error(nonce)),
            final(self)@ == (if r is Ok {
                max_withdraw_effect(old(self)@, amount, nonce)
            } else {
                old(self)@
            }),
            final(self)@.wf(),
    {
        self.check_admin_call(nonce)?;
        self.admin_call(nonce);
        self.instance.max_withdraw_per_tx = Some(amount);
        Ok(())
    }

    /// The most that the fee collector can withdraw in one call.
    pub fn query_max_withdraw_per_tx(&self) -> (r: Result<i128, BridgeError>)
        ensures
            r == answer(self@.query_error(), self@.max_withdraw_per_tx()),
    {
        self.check_initialized()?;
        Ok(self.read_max_withdraw_per_tx())
    }

    /// Sets the token and the amount that reward a funding call.
    pub fn set_loyalty_token(&mut self, token: Address, amount_per_fund: i128) -> (r: Result<
        (),
        BridgeError,
    >)
        requires
            old(self)@.wf(),
        ensures
            r == verdict(loyalty_error(old(self)@, amount_per_fund)),
            final(self)@ == (if r is Ok {
                loyalty_effect(old(self)@, token, amount_per_fund)
            } else {
                old(self)@
            }),
            final(self)@.wf(),
    {
        self.check_running()?;
        if amount_per_fund < 0 {
            return Err(BridgeError::InvalidAmount);
        }
        let admin: Address = self.read_admin();
        self.admin_call(None);
        self.instance.loyalty_token = Some(token);
        self.instance.loyalty_amount_per_fund = Some(amount_per_fund);
        self.publish(Event::LoyaltyTokenSet { admin, token, amount_per_fund });
        Ok(())
    }

    /// The token and the amount that reward a funding call.
    pub fn query_loyalty_token(&self) -> (r: Result<(Address, i128), BridgeError>)
        ensures
            r == answer(
                first(
                    self@.query_error(),
                    refuse_if(
                        self@.instance.loyalty_token is None,
                        BridgeError::LoyaltyTokenNotSet,
                    ),
                ),
                (
                    self@.instance.loyalty_token->0,
                    option_or(self@.instance.loyalty_amount_per_fund, 0),
                ),
            ),
    {
        self.check_initialized()?;
        match self.instance.loyalty_token {
            Some(token) => {
                let amount: i128 = match self.instance.loyalty_amount_per_fund {
                    Some(amount) => amount,
                    None => 0,
                };
                Ok((token, amount))
            },
            None => Err(BridgeError::LoyaltyTokenNotSet),
        }
    }

    /// Sets the fee tiers. The first that covers the volume of a source counts.
    pub fn set_fee_tiers(&mut self, tiers: Vec<FeeTier>) -> (r: Result<(), BridgeError>)
        requires
            old(self)@.wf(),
        ensures
            r == verdict(fee_tiers_error(old(self)@, tiers@)),
            final(self)@ == (if r is Ok {
                fee_tiers_effect(old(self)@, tiers@)
            } else {
                old(self)@
            }),
            final(self)@.wf(),
    {
        self.check_running()?;
        if tiers.len() > MAX_FEE_TIERS as usize {
            return Err(BridgeError::TooManyFeeTiers);
        }
        let mut i: usize = 0;
        while i < tiers.len()
            invariant
                i <= tiers@.len(),
                self@ == old(self)@,
                self@.wf(),
                self@.running_error() is None,
                tiers@.len() <= MAX_FEE_TIERS,
                forall|j: int| 0 <= j < i ==> (#[trigger] tiers@[j]).fee_bps <= MAX_FEE_BPS,
            decreases tiers@.len() - i,
        {
            if tiers[i].fee_bps > MAX_FEE_BPS {
                assert(tiers@[i as int].fee_bps > MAX_FEE_BPS);
                return Err(BridgeError::FeeTooHigh);
            }
            i = i + 1;
        }
        let admin: Address = self.read_admin();
        let count: u32 = tiers.len() as u32;
        self.admin_call(None);
        self.fee_tiers = Some(tiers);
        self.publish(Event::FeeTiersSet { admin, count });
        Ok(())
    }

    /// The fee tiers, or one that stands for the global rate where none are set.
    pub fn query_fee_tiers(&self) -> (r: Result<Vec<FeeTier>, BridgeError>)
        ensures
            r is Err <==> self@.query_error() is Some,
            r matches Err(e) ==> self@.query_error() == Some(e),
            r matches Ok(found) ==> found@ == option_or(
                self@.fee_tiers,
                seq![self@.default_tier()],
            ),
    {
        self.check_initialized()?;
        let mut found: Vec<FeeTier> = Vec::new();
        match &self.fee_tiers {
            Some(tiers) => {
                let mut i: usize = 0;
                while i < tiers.len()
                    invariant
                        i <= tiers@.len(),
                        found@ == tiers@.take(i as int),
                    decreases tiers@.len() - i,
                {
                    found.push(tiers[i]);
                    i = i + 1;
                    assert(found@ =~= tiers@.take(i as int));
                }
                assert(tiers@.take(i as int) =~= tiers@);
            },
            None => {
                let fee_bps: u32 = self.read_fee_bps();
                found.push(FeeTier { min_volume: 0, max_volume: i128::MAX, fee_bps });
                assert(found@ =~= seq![self@.default_tier()]);
            },
        }
        Ok(found)
    }

    /// The tier of `source`, or the one that stands for the global rate.
    pub fn query_current_tier(&self, source: Address) -> (r: Result<FeeTier, BridgeError>)
        ensures
            r == answer(
                self@.query_error(),
                option_or(self@.tier_of(source), self@.default_tier()),
            ),
    {
        self.check_initialized()?;
        match self.find_current_tier(source) {
            Some(tier) => Ok(tier),
            None => {
                let fee_bps: u32 = self.read_fee_bps();
                Ok(FeeTier { min_volume: 0, max_volume: i128::MAX, fee_bps })
            },
        }
    }
}

} // verus!
