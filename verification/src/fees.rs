//! How the fee of a transfer is found.
//!
//! The rate is the one of the first tier that covers the volume of the source,
//! or else the global one, and never more than the cap of the asset.
use vstd::prelude::*;

use crate::errors::BridgeError;
use crate::safe_math::{fits, quotient, safe_div, safe_mul, safe_sub};
use crate::state::{value_or, BridgeState, OnboardingBridge};
use crate::types::{Address, FeeTier, FEE_DENOMINATOR, MAX_FEE_BPS};

verus! {

/// The fee on an amount at a rate in basis points, rounded down.
pub open spec fn fee_on(amount: int, bps: int) -> int {
    (amount * bps) / (FEE_DENOMINATOR as int)
}

/// Whether the fee on an amount can be computed within `i128`.
pub open spec fn fee_fits(amount: int, bps: int) -> bool {
    fits(amount * bps)
}

/// The fee on `amount`. `Overflow` where the product of amount and rate leaves
/// the range of `i128`.
pub fn calculate_fee(amount: i128, fee_bps: u32) -> (r: Result<i128, BridgeError>)
    ensures
        r == (if fee_fits(amount as int, fee_bps as int) {
            Ok(fee_on(amount as int, fee_bps as int) as i128)
        } else {
            Err(BridgeError::Overflow)
        }),
        r matches Ok(fee) ==> fee == fee_on(amount as int, fee_bps as int),
{
    if fee_bps == 0 {
        assert(amount * 0 == 0) by (nonlinear_arith);
        return Ok(0);
    }
    let bps: i128 = fee_bps as i128;
    let product: i128 = safe_mul(amount, bps)?;
    assert(quotient(product as int, 10_000) == (if product < 0 {
        -((-product) / 10_000)
    } else {
        product as int / 10_000
    }));
    let toward_zero: i128 = safe_div(product, FEE_DENOMINATOR)?;
    if toward_zero * FEE_DENOMINATOR > product {
        Ok(toward_zero - 1)
    } else {
        Ok(toward_zero)
    }
}

/// What a transfer costs and delivers.
#[derive(Clone, Copy, Debug, PartialEq, Eq, Structural)]
pub struct Charge {
    /// The rate, in basis points.
    pub fee_bps: u32,
    /// The fee.
    pub fee: i128,
    /// What is left of the amount.
    pub net: i128,
}

/// The charge on an amount at a rate.
pub open spec fn charge_at(amount: i128, fee_bps: u32) -> Result<Charge, BridgeError> {
    let fee = fee_on(amount as int, fee_bps as int);
    if fee_fits(amount as int, fee_bps as int) && fits(amount - fee) {
        Ok(Charge { fee_bps, fee: fee as i128, net: (amount - fee) as i128 })
    } else {
        Err(BridgeError::Overflow)
    }
}

/// Computes the charge on an amount at a rate.
pub fn compute_charge(amount: i128, fee_bps: u32) -> (r: Result<Charge, BridgeError>)
    ensures
        r == charge_at(amount, fee_bps),
{
    let fee: i128 = calculate_fee(amount, fee_bps)?;
    let net: i128 = safe_sub(amount, fee)?;
    Ok(Charge { fee_bps, fee, net })
}

/// The first of the tiers that covers the volume, if any does.
pub open spec fn find_tier(tiers: Seq<FeeTier>, volume: i128) -> Option<FeeTier>
    decreases tiers.len(),
{
    if tiers.len() == 0 {
        None
    } else if tiers[0].covers(volume) {
        Some(tiers[0])
    } else {
        find_tier(tiers.drop_first(), volume)
    }
}

/// A tier is found exactly where some tier covers the volume, and it is the
/// first that does.
pub proof fn find_tier_is_first(tiers: Seq<FeeTier>, volume: i128)
    ensures
        match find_tier(tiers, volume) {
            Some(tier) => exists|i: int|
                0 <= i < tiers.len() && #[trigger] tiers[i] == tier && tier.covers(volume)
                    && forall|j: int| 0 <= j < i ==> !(#[trigger] tiers[j]).covers(volume),
            None => forall|j: int| 0 <= j < tiers.len() ==> !(#[trigger] tiers[j]).covers(volume),
        },
    decreases tiers.len(),
{
    if tiers.len() > 0 {
        if tiers[0].covers(volume) {
            assert(tiers[0] == tiers[0]);
        } else {
            let rest = tiers.drop_first();
            find_tier_is_first(rest, volume);
            match find_tier(rest, volume) {
                Some(tier) => {
                    let i = choose|i: int|
                        0 <= i < rest.len() && #[trigger] rest[i] == tier && tier.covers(volume)
                            && forall|j: int| 0 <= j < i ==> !(#[trigger] rest[j]).covers(volume);
                    assert(tiers[i + 1] == tier);
                    assert forall|j: int| 0 <= j < i + 1 implies !(#[trigger] tiers[j]).covers(volume) by {
                        if j > 0 {
                            assert(rest[j - 1] == tiers[j]);
                        }
                    }
                },
                None => {
                    assert forall|j: int| 0 <= j < tiers.len() implies !(#[trigger] tiers[j]).covers(volume) by {
                        if j > 0 {
                            assert(rest[j - 1] == tiers[j]);
                        }
                    }
                },
            }
        }
    }
}

impl BridgeState {
    /// The tier of a source, where one covers its volume.
    pub open spec fn tier_of(self, source: Address) -> Option<FeeTier> {
        match self.fee_tiers {
            Some(tiers) => find_tier(tiers, self.volume_of(source)),
            None => None,
        }
    }

    /// The rate of a source, or a fallback where no tier covers its volume.
    pub open spec fn tiered_bps(self, source: Address, fallback: u32) -> u32 {
        match self.tier_of(source) {
            Some(tier) => tier.fee_bps,
            None => fallback,
        }
    }

    /// The highest rate for an asset.
    pub open spec fn fee_cap_of(self, asset: Address) -> u32 {
        value_or(self.asset_fee_cap, asset, MAX_FEE_BPS)
    }

    /// A rate, but no more than the cap of the asset.
    pub open spec fn capped_bps(self, asset: Address, bps: u32) -> u32 {
        if bps <= self.fee_cap_of(asset) {
            bps
        } else {
            self.fee_cap_of(asset)
        }
    }

    /// The rate that a source pays for an asset.
    pub open spec fn effective_bps(self, source: Address, asset: Address) -> u32 {
        self.capped_bps(asset, self.tiered_bps(source, self.config().fee_bps))
    }

    /// What a transfer of the source costs and delivers.
    pub open spec fn charge(self, source: Address, asset: Address, amount: i128) -> Result<
        Charge,
        BridgeError,
    > {
        charge_at(amount, self.effective_bps(source, asset))
    }

    /// What a delivery costs on which no tier applies: the global rate counts, up
    /// to the cap of the asset.
    pub open spec fn flat_charge(self, asset: Address, amount: i128) -> Result<
        Charge,
        BridgeError,
    > {
        charge_at(amount, self.capped_bps(asset, self.config().fee_bps))
    }
}

/// On well-formed books no rate exceeds the maximum.
pub proof fn rates_are_capped(s: BridgeState, source: Address, asset: Address)
    requires
        s.wf(),
    ensures
        s.tiered_bps(source, s.config().fee_bps) <= MAX_FEE_BPS,
        s.effective_bps(source, asset) <= MAX_FEE_BPS,
{
    if let Some(tiers) = s.fee_tiers {
        find_tier_is_first(tiers, s.volume_of(source));
    }
}

/// At a rate up to the maximum the fee on a positive amount is at most a tenth of
/// it, and something is always left.
pub proof fn fee_bounds(amount: int, bps: int)
    requires
        amount > 0,
        0 <= bps <= MAX_FEE_BPS,
    ensures
        0 <= fee_on(amount, bps),
        10 * fee_on(amount, bps) <= amount,
        0 < amount - fee_on(amount, bps) <= amount,
{
    assert(0 <= amount * bps <= amount * 1000) by (nonlinear_arith)
        requires
            amount > 0,
            0 <= bps <= 1000,
    ;
}

impl OnboardingBridge {
    /// The tier of a source, where one covers its volume.
    pub(crate) fn find_current_tier(&self, source: Address) -> (r: Option<FeeTier>)
        ensures
            r == self@.tier_of(source),
    {
        match &self.fee_tiers {
            Some(tiers) => {
                let volume: i128 = self.read_source_bridged_volume(source);
                let mut i: usize = 0;
                assert(tiers@.subrange(0, tiers@.len() as int) =~= tiers@);
                while i < tiers.len()
                    invariant
                        i <= tiers@.len(),
                        self@.fee_tiers == Some(tiers@),
                        volume == self@.volume_of(source),
                        find_tier(tiers@, volume) == find_tier(
                            tiers@.subrange(i as int, tiers@.len() as int),
                            volume,
                        ),
                    decreases tiers@.len() - i,
                {
                    let ghost rest = tiers@.subrange(i as int, tiers@.len() as int);
                    let tier: FeeTier = tiers[i];
                    if volume >= tier.min_volume && volume <= tier.max_volume {
                        return Some(tier);
                    }
                    i = i + 1;
                    assert(rest.drop_first() =~= tiers@.subrange(i as int, tiers@.len() as int));
                }
                None
            },
            None => None,
        }
    }

    /// The rate of a source, or a fallback where no tier covers its volume.
    pub(crate) fn get_tiered_fee_bps(&self, source: Address, fallback_bps: u32) -> (r: u32)
        ensures
            r == self@.tiered_bps(source, fallback_bps),
    {
        match self.find_current_tier(source) {
            Some(tier) => tier.fee_bps,
            None => fallback_bps,
        }
    }

    /// A rate, but no more than the cap of the asset.
    pub(crate) fn get_effective_fee_bps(&self, asset: Address, bps: u32) -> (r: u32)
        ensures
            r == self@.capped_bps(asset, bps),
    {
        let cap: u32 = self.read_asset_fee_cap(asset);
        if bps <= cap {
            bps
        } else {
            cap
        }
    }

    /// What a transfer of the source costs and delivers.
    pub(crate) fn charge(&self, source: Address, asset: Address, amount: i128) -> (r: Result<
        Charge,
        BridgeError,
    >)
        ensures
            r == self@.charge(source, asset, amount),
    {
        let tiered: u32 = self.get_tiered_fee_bps(source, self.read_fee_bps());
        compute_charge(amount, self.get_effective_fee_bps(asset, tiered))
    }

    /// What a delivery costs on which no tier applies.
    pub(crate) fn flat_charge(&self, asset: Address, amount: i128) -> (r: Result<
        Charge,
        BridgeError,
    >)
        ensures
            r == self@.flat_charge(asset, amount),
    {
        compute_charge(amount, self.get_effective_fee_bps(asset, self.read_fee_bps()))
    }

    /// The fee on an amount at the global rate, and what is left of the amount.
    pub fn query_calculate_fee(&self, gross_amount: i128) -> (r: Result<(i128, i128), BridgeError>)
        ensures
            r == (match charge_at(gross_amount, self@.config().fee_bps) {
                Ok(c) => Ok((c.fee, c.net)),
                Err(e) => Err(e),
            }),
    {
        let c: Charge = compute_charge(gross_amount, self.read_fee_bps())?;
        Ok((c.fee, c.net))
    }

    /// The rate that `source` would pay for `asset`, the fee on an amount at this
    /// rate, and what is left of the amount.
    pub fn query_effective_fee(&self, source: Address, asset: Address, amount: i128) -> (r: Result<
        (u32, i128, i128),
        BridgeError,
    >)
        ensures
            r == (match self@.query_error() {
                Some(e) => Err(e),
                None => match self@.charge(source, asset, amount) {
                    Ok(c) => Ok((self@.effective_bps(source, asset), c.fee, c.net)),
                    Err(e) => Err(e),
                },
            }),
    {
        self.check_initialized()?;
        let c: Charge = self.charge(source, asset, amount)?;
        Ok((c.fee_bps, c.fee, c.net))
    }
}

} // verus!
