//! Keeping what is stored alive.
use vstd::prelude::*;

use crate::actions::{Action, Event};
use crate::bytes::Bytes32;
use crate::errors::BridgeError;
use crate::state::{answer, first, refuse_if, verdict, BridgeState, Instance, OnboardingBridge};
use crate::types::{
    Address, DataKey, SourceAsset, SourceAssetDay, CRITICAL_ENTRY_TTL_THRESHOLD, MAX_ALLOWED_TTL,
    MIN_ALLOWED_TTL, SECONDS_PER_DAY,
};

verus! {

/// A time to live, but no more than a maximum.
pub open spec fn at_most(ttl: u32, max: u32) -> u32 {
    if ttl > max {
        max
    } else {
        ttl
    }
}

/// A time to live, but no more than a maximum.
fn cap_ttl(ttl: u32, max: u32) -> (r: u32)
    ensures
        r == at_most(ttl, max),
{
    if ttl > max {
        max
    } else {
        ttl
    }
}

impl BridgeState {
    /// Why a call is refused that keeps something alive. Neither a pause nor a
    /// migration disables it.
    pub open spec fn upkeep_error(self) -> Option<BridgeError> {
        first(
            refuse_if(self.instance.entered, BridgeError::Reentrant),
            refuse_if(!self.instance.initialized, BridgeError::NotInitialized),
        )
    }

    /// The request to keep an entry alive: once it has less than a quarter of the
    /// time left.
    pub open spec fn extend(self, key: DataKey, ttl: u32) -> BridgeState {
        self.act(Action::ExtendTtl { key, threshold: (ttl / 4) as u32, extend_to: ttl })
    }

    /// The request to keep an entry alive, where there is one.
    pub open spec fn extend_if(self, exists: bool, key: DataKey, ttl: u32) -> BridgeState {
        if exists {
            self.extend(key, ttl)
        } else {
            self
        }
    }
}

/// The books after `extend_instance_ttl`.
pub open spec fn extend_instance_effect(s: BridgeState, ttl: u32) -> BridgeState {
    let actual = at_most(ttl, MAX_ALLOWED_TTL);
    s.require_auth(s.admin()).act(
        Action::ExtendInstanceTtl { threshold: (actual / 4) as u32, extend_to: actual },
    ).publish(Event::InstanceTtlExtended { admin: s.admin(), ttl: actual })
}

/// The time for which `extend_persistent_ttl` keeps the entries alive.
pub open spec fn persistent_ttl(s: BridgeState, ttl: u32) -> u32 {
    at_most(at_most(ttl, MAX_ALLOWED_TTL), s.max_persistent_ttl())
}

/// The books after `extend_persistent_ttl`.
pub open spec fn extend_persistent_effect(s: BridgeState, asset: Address, ttl: u32) -> BridgeState {
    let actual = persistent_ttl(s, ttl);
    s.require_auth(s.admin())
        .extend_if(s.accrued_fees.contains_key(asset), DataKey::AccruedFees(asset), actual)
        .extend_if(s.total_bridged.contains_key(asset), DataKey::TotalBridged(asset), actual)
        .extend_if(
            s.total_fees_collected.contains_key(asset),
            DataKey::TotalFeesCollected(asset),
            actual,
        )
        .extend_if(s.asset_stats.contains_key(asset), DataKey::AssetStats(asset), actual)
        .extend_if(s.asset_fee_cap.contains_key(asset), DataKey::AssetFeeCap(asset), actual)
        .publish(Event::PersistentTtlExtended { admin: s.admin(), asset, ttl: actual })
}

/// The books after `extend_source_persistent_ttl`.
pub open spec fn extend_source_effect(
    s: BridgeState,
    source: Address,
    asset: Address,
    ttl: u32,
) -> BridgeState {
    let actual = at_most(ttl, MAX_ALLOWED_TTL);
    let pair = SourceAsset { source, asset };
    let usage = s.usage_key(source, asset);
    s.require_auth(s.admin())
        .extend_if(
            s.source_daily_limit.contains_key(pair),
            DataKey::SourceDailyLimit(source, asset),
            actual,
        )
        .extend_if(
            s.daily_usage.contains_key(usage),
            DataKey::DailyUsage(source, asset, usage.day),
            actual,
        )
        .extend_if(s.user_deposit.contains_key(pair), DataKey::UserDeposit(source, asset), actual)
        .extend_if(
            s.source_bridged_volume.contains_key(source),
            DataKey::SourceBridgedVolume(source),
            actual,
        )
        .extend_if(s.nonce.contains_key(source), DataKey::Nonce(source), actual)
        .extend_if(s.auth_nonce.contains_key(source), DataKey::AuthNonce(source), actual)
        .publish(
        Event::SourcePersistentTtlExtended { admin: s.admin(), source, asset, ttl: actual },
    )
}

/// Why a call is refused that keeps one entry alive.
pub open spec fn extend_entry_error(
    s: BridgeState,
    exists: bool,
    missing: BridgeError,
) -> Option<BridgeError> {
    first(s.upkeep_error(), refuse_if(!exists, missing))
}

/// The books after one entry has been kept alive.
pub open spec fn extend_entry_effect(
    s: BridgeState,
    key: DataKey,
    ttl: u32,
    event: Event,
) -> BridgeState {
    s.require_auth(s.admin()).extend(key, at_most(ttl, MAX_ALLOWED_TTL)).publish(event)
}

/// Why a call is refused that sets a maximum.
pub open spec fn set_max_ttl_error(s: BridgeState, ttl: u32) -> Option<BridgeError> {
    first(s.running_error(), refuse_if(ttl < MIN_ALLOWED_TTL, BridgeError::InvalidTtl))
}

/// The books after `set_max_instance_ttl`. The new maximum is used at once.
pub open spec fn set_max_instance_effect(s: BridgeState, ttl: u32) -> BridgeState {
    s.with_instance(
        Instance { max_instance_ttl: Some(at_most(ttl, MAX_ALLOWED_TTL)), ..s.instance },
    ).require_auth(s.admin()).keep_alive()
}

/// The books after `set_max_persistent_ttl`.
pub open spec fn set_max_persistent_effect(s: BridgeState, ttl: u32) -> BridgeState {
    s.with_instance(
        Instance { max_persistent_ttl: Some(at_most(ttl, MAX_ALLOWED_TTL)), ..s.instance },
    ).require_auth(s.admin()).keep_alive()
}

impl OnboardingBridge {
    /// Fails unless a call may keep something alive.
    fn check_upkeep(&self) -> (r: Result<(), BridgeError>)
        ensures
            r == verdict(self@.upkeep_error()),
    {
        if self.instance.entered {
            return Err(BridgeError::Reentrant);
        }
        self.check_initialized()
    }

    /// Asks for an entry to be kept alive.
    fn extend(&mut self, key: DataKey, ttl: u32)
        ensures
            final(self)@ == old(self)@.extend(key, ttl),
    {
        self.act(Action::ExtendTtl { key, threshold: ttl / 4, extend_to: ttl });
    }

    /// Asks for an entry to be kept alive, where there is one.
    fn extend_if(&mut self, exists: bool, key: DataKey, ttl: u32)
        ensures
            final(self)@ == old(self)@.extend_if(exists, key, ttl),
    {
        if exists {
            self.extend(key, ttl);
        }
    }

    /// Keeps the instance entries alive.
    pub fn extend_instance_ttl(&mut self, ttl: u32) -> (r: Result<(), BridgeError>)
        requires
            old(self)@.wf(),
        ensures
            r == verdict(old(self)@.upkeep_error()),
            final(self)@ == (if r is Ok {
                extend_instance_effect(old(self)@, ttl)
            } else {
                old(self)@
            }),
            final(self)@.wf(),
    {
        self.check_upkeep()?;
        let admin: Address = self.read_admin();
        let actual: u32 = cap_ttl(ttl, MAX_ALLOWED_TTL);
        self.require_auth(admin);
        self.act(Action::ExtendInstanceTtl { threshold: actual / 4, extend_to: actual });
        self.publish(Event::InstanceTtlExtended { admin, ttl: actual });
        Ok(())
    }

    /// Keeps the entries of an asset alive, as far as there are any.
    pub fn extend_persistent_ttl(&mut self, key_asset: Address, ttl: u32) -> (r: Result<
        (),
        BridgeError,
    >)
        requires
            old(self)@.wf(),
        ensures
            r == verdict(old(self)@.upkeep_error()),
            final(self)@ == (if r is Ok {
                extend_persistent_effect(old(self)@, key_asset, ttl)
            } else {
                old(self)@
            }),
            final(self)@.wf(),
    {
        self.check_upkeep()?;
        let admin: Address = self.read_admin();
        let actual: u32 = cap_ttl(cap_ttl(ttl, MAX_ALLOWED_TTL), self.read_max_persistent_ttl());
        self.require_auth(admin);
        let accrued: bool = self.accrued_fees.has(key_asset);
        self.extend_if(accrued, DataKey::AccruedFees(key_asset), actual);
        let bridged: bool = self.total_bridged.has(key_asset);
        self.extend_if(bridged, DataKey::TotalBridged(key_asset), actual);
        let collected: bool = self.total_fees_collected.has(key_asset);
        self.extend_if(collected, DataKey::TotalFeesCollected(key_asset), actual);
        let stats: bool = self.asset_stats.has(key_asset);
        self.extend_if(stats, DataKey::AssetStats(key_asset), actual);
        let cap: bool = self.asset_fee_cap.has(key_asset);
        self.extend_if(cap, DataKey::AssetFeeCap(key_asset), actual);
        self.publish(Event::PersistentTtlExtended { admin, asset: key_asset, ttl: actual });
        Ok(())
    }

    /// Keeps the entries of a source alive, as far as there are any.
    pub fn extend_source_persistent_ttl(&mut self, source: Address, asset: Address, ttl: u32) -> (r:
        Result<(), BridgeError>)
        requires
            old(self)@.wf(),
        ensures
            r == verdict(old(self)@.upkeep_error()),
            final(self)@ == (if r is Ok {
                extend_source_effect(old(self)@, source, asset, ttl)
            } else {
                old(self)@
            }),
            final(self)@.wf(),
    {
        self.check_upkeep()?;
        let admin: Address = self.read_admin();
        let actual: u32 = cap_ttl(ttl, MAX_ALLOWED_TTL);
        let day: u64 = self.ledger.timestamp / SECONDS_PER_DAY;
        self.require_auth(admin);
        let limit: bool = self.source_daily_limit.has(SourceAsset { source, asset });
        self.extend_if(limit, DataKey::SourceDailyLimit(source, asset), actual);
        let usage: bool = self.daily_usage.has(SourceAssetDay { source, asset, day });
        self.extend_if(usage, DataKey::DailyUsage(source, asset, day), actual);
        let deposit: bool = self.user_deposit.has(SourceAsset { source, asset });
        self.extend_if(deposit, DataKey::UserDeposit(source, asset), actual);
        let volume: bool = self.source_bridged_volume.has(source);
        self.extend_if(volume, DataKey::SourceBridgedVolume(source), actual);
        let nonce: bool = self.nonce.has(source);
        self.extend_if(nonce, DataKey::Nonce(source), actual);
        let auth_nonce: bool = self.auth_nonce.has(source);
        self.extend_if(auth_nonce, DataKey::AuthNonce(source), actual);
        self.publish(Event::SourcePersistentTtlExtended { admin, source, asset, ttl: actual });
        Ok(())
    }

    /// Keeps a timelock entry alive.
    pub fn extend_timelock_ttl(&mut self, id: u64, ttl: u32) -> (r: Result<(), BridgeError>)
        requires
            old(self)@.wf(),
        ensures
            r == verdict(
                extend_entry_error(
                    old(self)@,
                    old(self)@.timelock.contains_key(id),
                    BridgeError::TimelockNotFound,
                ),
            ),
            final(self)@ == (if r is Ok {
                extend_entry_effect(
                    old(self)@,
                    DataKey::Timelock(id),
                    ttl,
                    (Event::TimelockTtlExtended {
                        admin: old(self)@.admin(),
                        id,
                        ttl: at_most(ttl, MAX_ALLOWED_TTL),
                    }),
                )
            } else {
                old(self)@
            }),
            final(self)@.wf(),
    {
        self.check_upkeep()?;
        let admin: Address = self.read_admin();
        if !self.timelock.has(id) {
            return Err(BridgeError::TimelockNotFound);
        }
        let actual: u32 = cap_ttl(ttl, MAX_ALLOWED_TTL);
        self.require_auth(admin);
        self.extend(DataKey::Timelock(id), actual);
        self.publish(Event::TimelockTtlExtended { admin, id, ttl: actual });
        Ok(())
    }

    /// Keeps a commitment alive.
    pub fn extend_commitment_ttl(&mut self, id: u64, ttl: u32) -> (r: Result<(), BridgeError>)
        requires
            old(self)@.wf(),
        ensures
            r == verdict(
                extend_entry_error(
                    old(self)@,
                    old(self)@.commitment.contains_key(id),
                    BridgeError::CommitmentNotFound,
                ),
            ),
            final(self)@ == (if r is Ok {
                extend_entry_effect(
                    old(self)@,
                    DataKey::Commitment(id),
                    ttl,
                    (Event::CommitmentTtlExtended {
                        admin: old(self)@.admin(),
                        id,
                        ttl: at_most(ttl, MAX_ALLOWED_TTL),
                    }),
                )
            } else {
                old(self)@
            }),
            final(self)@.wf(),
    {
        self.check_upkeep()?;
        let admin: Address = self.read_admin();
        if !self.commitment.has(id) {
            return Err(BridgeError::CommitmentNotFound);
        }
        let actual: u32 = cap_ttl(ttl, MAX_ALLOWED_TTL);
        self.require_auth(admin);
        self.extend(DataKey::Commitment(id), actual);
        self.publish(Event::CommitmentTtlExtended { admin, id, ttl: actual });
        Ok(())
    }

    /// Keeps the entry of a relayer alive.
    pub fn extend_relayer_ttl(&mut self, pubkey: Bytes32, ttl: u32) -> (r: Result<(), BridgeError>)
        requires
            old(self)@.wf(),
        ensures
            r == verdict(
                extend_entry_error(
                    old(self)@,
                    old(self)@.is_relayer(pubkey),
                    BridgeError::NotRelayer,
                ),
            ),
            final(self)@ == (if r is Ok {
                extend_entry_effect(
                    old(self)@,
                    DataKey::Relayer(pubkey),
                    ttl,
                    (Event::RelayerTtlExtended {
                        admin: old(self)@.admin(),
                        pubkey,
                        ttl: at_most(ttl, MAX_ALLOWED_TTL),
                    }),
                )
            } else {
                old(self)@
            }),
            final(self)@.wf(),
    {
        self.check_upkeep()?;
        let admin: Address = self.read_admin();
        if !self.read_is_relayer(pubkey) {
            return Err(BridgeError::NotRelayer);
        }
        let actual: u32 = cap_ttl(ttl, MAX_ALLOWED_TTL);
        self.require_auth(admin);
        self.extend(DataKey::Relayer(pubkey), actual);
        self.publish(Event::RelayerTtlExtended { admin, pubkey, ttl: actual });
        Ok(())
    }

    /// Sets for how long calls keep the instance entries alive.
    pub fn set_max_instance_ttl(&mut self, ttl: u32) -> (r: Result<(), BridgeError>)
        requires
            old(self)@.wf(),
        ensures
            r == verdict(set_max_ttl_error(old(self)@, ttl)),
            final(self)@ == (if r is Ok {
                set_max_instance_effect(old(self)@, ttl)
            } else {
                old(self)@
            }),
            final(self)@.wf(),
    {
        self.check_running()?;
        if ttl < MIN_ALLOWED_TTL {
            return Err(BridgeError::InvalidTtl);
        }
        let admin: Address = self.read_admin();
        self.instance.max_instance_ttl = Some(cap_ttl(ttl, MAX_ALLOWED_TTL));
        self.require_auth(admin);
        self.keep_alive();
        Ok(())
    }

    /// Sets for how long at most the entries of an asset are kept alive.
    pub fn set_max_persistent_ttl(&mut self, ttl: u32) -> (r: Result<(), BridgeError>)
        requires
            old(self)@.wf(),
        ensures
            r == verdict(set_max_ttl_error(old(self)@, ttl)),
            final(self)@ == (if r is Ok {
                set_max_persistent_effect(old(self)@, ttl)
            } else {
                old(self)@
            }),
            final(self)@.wf(),
    {
        self.check_running()?;
        if ttl < MIN_ALLOWED_TTL {
            return Err(BridgeError::InvalidTtl);
        }
        let admin: Address = self.read_admin();
        self.instance.max_persistent_ttl = Some(cap_ttl(ttl, MAX_ALLOWED_TTL));
        self.require_auth(admin);
        self.keep_alive();
        Ok(())
    }

    /// The two maxima that are set, the highest that can be set, and the time
    /// below which an entry is in danger.
    pub fn query_ttl_config(&self) -> (r: Result<(u32, u32, u32, u32), BridgeError>)
        ensures
            r == answer(
                self@.query_error(),
                (
                    self@.max_instance_ttl(),
                    self@.max_persistent_ttl(),
                    MAX_ALLOWED_TTL,
                    CRITICAL_ENTRY_TTL_THRESHOLD,
                ),
            ),
    {
        self.check_initialized()?;
        Ok(
            (
                self.read_max_instance_ttl(),
                self.read_max_persistent_ttl(),
                MAX_ALLOWED_TTL,
                CRITICAL_ENTRY_TTL_THRESHOLD,
            ),
        )
    }
}

} // verus!
