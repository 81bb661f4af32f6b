//! Setting the bridge up, pausing it, and leaving it for good.
use vstd::prelude::*;

use crate::actions::{Action, Event};
use crate::errors::BridgeError;
use crate::export::export;
use crate::state::{first, refuse_if, verdict, BridgeState, Instance, OnboardingBridge};
use crate::types::{Address, BridgeConfig, BridgeConfigData, MAX_FEE_BPS};

verus! {

impl BridgeState {
    /// The books of a bridge that is paused or not.
    pub open spec fn with_paused(self, paused: bool) -> BridgeState {
        self.with_instance(
            Instance {
                config: Some(BridgeConfig { paused, ..self.config() }),
                paused: Some(paused),
                ..self.instance
            },
        )
    }

    /// Why the admin may not make a call that a pause does not disable.
    pub open spec fn active_admin_error(self, nonce: Option<u64>) -> Option<BridgeError> {
        first(self.active_error(), self.nonce_error(self.admin(), nonce))
    }
}

/// Why `initialize` refuses a call.
pub open spec fn initialize_error(
    s: BridgeState,
    admin: Address,
    fee_bps: u32,
    nonce: Option<u64>,
) -> Option<BridgeError> {
    first(
        refuse_if(s.instance.entered, BridgeError::Reentrant),
        first(
            refuse_if(s.instance.initialized, BridgeError::AlreadyInitialized),
            first(
                refuse_if(fee_bps > MAX_FEE_BPS, BridgeError::FeeTooHigh),
                s.nonce_error(admin, nonce),
            ),
        ),
    )
}

/// The books after `initialize`.
pub open spec fn initialize_effect(
    s: BridgeState,
    admin: Address,
    fee_collector: Address,
    fee_bps: u32,
    nonce: Option<u64>,
) -> BridgeState {
    s.with_instance(
        Instance {
            initialized: true,
            admin: Some(admin),
            fee_collector: Some(fee_collector),
            fee_bps: Some(fee_bps),
            config: Some(BridgeConfig { fee_bps, ..s.config() }),
            bridge_config: Some(BridgeConfigData { admin, fee_collector, fee_bps }),
            ..s.instance
        },
    ).consume(admin, nonce).require_auth(admin).keep_alive().publish(
        Event::Initialized { admin, fee_collector, fee_bps },
    )
}

/// The books after `pause`.
pub open spec fn pause_effect(s: BridgeState, nonce: Option<u64>) -> BridgeState {
    s.admin_call(nonce).with_paused(true).publish(Event::ContractPaused { admin: s.admin() })
}

/// The books after `unpause`.
pub open spec fn unpause_effect(s: BridgeState, nonce: Option<u64>) -> BridgeState {
    s.admin_call(nonce).with_paused(false).publish(Event::ContractUnpaused { admin: s.admin() })
}

/// The books after `emergency_migrate`.
pub open spec fn migrate_effect(
    s: BridgeState,
    new_contract: Address,
    migrate_data: bool,
) -> BridgeState {
    let left = s.admin_call(None).with_paused(true);
    let gone = left.with_instance(Instance { deactivated: true, ..left.instance }).publish(
        Event::EmergencyMigrated { admin: s.admin(), new_contract },
    );
    if migrate_data {
        gone.act_all(export(gone))
    } else {
        gone
    }
}

impl OnboardingBridge {
    /// Sets the bridge up. This can be done once.
    pub fn initialize(
        &mut self,
        admin: Address,
        fee_collector: Address,
        fee_bps: u32,
        nonce: Option<u64>,
    ) -> (r: Result<(), BridgeError>)
        requires
            old(self)@.wf(),
            initialize_error(old(self)@, admin, fee_bps, nonce) is None ==> old(self)@.nonce_fits(
                admin,
                nonce,
            ),
        ensures
            r == verdict(initialize_error(old(self)@, admin, fee_bps, nonce)),
            final(self)@ == (if r is Ok {
                initialize_effect(old(self)@, admin, fee_collector, fee_bps, nonce)
            } else {
                old(self)@
            }),
            final(self)@.wf(),
    {
        if self.instance.entered {
            return Err(BridgeError::Reentrant);
        }
        if self.instance.initialized {
            return Err(BridgeError::AlreadyInitialized);
        }
        if fee_bps > MAX_FEE_BPS {
            return Err(BridgeError::FeeTooHigh);
        }
        self.check_nonce(admin, nonce)?;
        let config: BridgeConfig = self.read_config();
        self.instance.initialized = true;
        self.instance.admin = Some(admin);
        self.instance.fee_collector = Some(fee_collector);
        self.instance.fee_bps = Some(fee_bps);
        self.instance.config = Some(BridgeConfig { fee_bps, ..config });
        self.instance.bridge_config = Some(BridgeConfigData { admin, fee_collector, fee_bps });
        self.consume_nonce(admin, nonce);
        self.require_auth(admin);
        self.keep_alive();
        self.publish(Event::Initialized { admin, fee_collector, fee_bps });
        Ok(())
    }

    /// Whether the bridge has been set up.
    pub fn query_is_initialized(&self) -> (r: bool)
        ensures
            r == self@.instance.initialized,
    {
        self.instance.initialized
    }

    /// Fails unless the admin may make a call that a pause does not disable.
    pub(crate) fn check_active_admin_call(&self, nonce: Option<u64>) -> (r: Result<(), BridgeError>)
        requires
            self@.wf(),
        ensures
            r == verdict(self@.active_admin_error(nonce)),
    {
        self.check_active()?;
        self.check_nonce(self.read_admin(), nonce)
    }

    fn set_paused(&mut self, paused: bool)
        ensures
            final(self)@ == old(self)@.with_paused(paused),
    {
        let config: BridgeConfig = self.read_config();
        self.instance.config = Some(BridgeConfig { paused, ..config });
        self.instance.paused = Some(paused);
    }

    /// Pauses the bridge: calls that move funds or change settings are refused.
    pub fn pause(&mut self, nonce: Option<u64>) -> (r: Result<(), BridgeError>)
        requires
            old(self)@.wf(),
            old(self)@.active_admin_error(nonce) is None ==> old(self)@.nonce_fits(
                old(self)@.admin(),
                nonce,
            ),
        ensures
            r == verdict(old(self)@.active_admin_error(nonce)),
            final(self)@ == (if r is Ok {
                pause_effect(old(self)@, nonce)
            } else {
                old(self)@
            }),
            final(self)@.wf(),
    {
        self.check_active_admin_call(nonce)?;
        let admin: Address = self.read_admin();
        self.admin_call(nonce);
        self.set_paused(true);
        self.publish(Event::ContractPaused { admin });
        Ok(())
    }

    /// Ends a pause.
    pub fn unpause(&mut self, nonce: Option<u64>) -> (r: Result<(), BridgeError>)
        requires
            old(self)@.wf(),
            old(self)@.active_admin_error(nonce) is None ==> old(self)@.nonce_fits(
                old(self)@.admin(),
                nonce,
            ),
        ensures
            r == verdict(old(self)@.active_admin_error(nonce)),
            final(self)@ == (if r is Ok {
                unpause_effect(old(self)@, nonce)
            } else {
                old(self)@
            }),
            final(self)@.wf(),
    {
        self.check_active_admin_call(nonce)?;
        let admin: Address = self.read_admin();
        self.admin_call(nonce);
        self.set_paused(false);
        self.publish(Event::ContractUnpaused { admin });
        Ok(())
    }

    /// Whether the bridge is paused.
    pub fn query_is_paused(&self) -> (r: bool)
        ensures
            r == self@.config().paused,
    {
        self.read_config().paused
    }

    /// Leaves the bridge for another one: it is paused and inactive for good.
    /// Where `migrate_data` is set, all that it stores is published.
    pub fn emergency_migrate(&mut self, new_contract: Address, migrate_data: bool) -> (r: Result<
        (),
        BridgeError,
    >)
        requires
            old(self)@.wf(),
        ensures
            r == verdict(old(self)@.active_error()),
            final(self)@ == (if r is Ok {
                migrate_effect(old(self)@, new_contract, migrate_data)
            } else {
                old(self)@
            }),
            final(self)@.wf(),
    {
        self.check_active()?;
        let admin: Address = self.read_admin();
        self.admin_call(None);
        self.set_paused(true);
        self.instance.deactivated = true;
        self.publish(Event::EmergencyMigrated { admin, new_contract });
        if migrate_data {
            let state: Vec<Action> = self.export();
            self.act_all(&state);
        }
        Ok(())
    }
}

} // verus!
