//! Replacing the code of the bridge, at once or after a timelock.
use vstd::prelude::*;

use crate::actions::{Action, Event};
use crate::bytes::Bytes32;
use crate::errors::BridgeError;
use crate::state::{
    answer, first, option_or, refuse_if, verdict, BridgeState, Instance, OnboardingBridge,
};
use crate::types::{Address, PendingUpgrade, UPGRADE_TIMELOCK_LEDGERS};

verus! {

impl BridgeState {
    /// The hash of the current code, as far as it is known.
    pub open spec fn wasm_hash(self) -> Bytes32 {
        option_or(self.instance.current_wasm_hash, Bytes32 { hi: 0, lo: 0 })
    }

    /// The first ledger in which an upgrade that is scheduled now may be executed.
    pub open spec fn upgrade_ledger(self) -> u32 {
        if self.ledger.sequence + UPGRADE_TIMELOCK_LEDGERS <= u32::MAX {
            (self.ledger.sequence + UPGRADE_TIMELOCK_LEDGERS) as u32
        } else {
            u32::MAX
        }
    }

    /// The books after the code has been replaced.
    pub open spec fn with_code(self, new_hash: Bytes32) -> BridgeState {
        self.with_instance(
            Instance { current_wasm_hash: Some(new_hash), ..self.instance },
        ).act(Action::UpdateWasm { hash: new_hash }).publish(
            Event::ContractUpgraded { old_hash: self.wasm_hash(), new_hash, admin: self.admin() },
        )
    }

    /// The books with another scheduled upgrade, or none.
    pub open spec fn with_pending_upgrade(self, pending: Option<PendingUpgrade>) -> BridgeState {
        self.with_instance(Instance { pending_upgrade: pending, ..self.instance })
    }
}

/// The books after `upgrade`.
pub open spec fn upgrade_effect(
    s: BridgeState,
    new_hash: Bytes32,
    nonce: Option<u64>,
) -> BridgeState {
    s.admin_call(nonce).with_code(new_hash)
}

/// Why `schedule_upgrade` refuses a call. One upgrade can be pending at a time: it
/// has to be cancelled before another takes its place.
pub open spec fn schedule_upgrade_error(s: BridgeState, nonce: Option<u64>) -> Option<
    BridgeError,
> {
    first(
        s.active_error(),
        first(
            refuse_if(s.instance.pending_upgrade is Some, BridgeError::Unauthorized),
            s.nonce_error(s.admin(), nonce),
        ),
    )
}

/// The books after `schedule_upgrade`.
pub open spec fn schedule_effect(
    s: BridgeState,
    new_hash: Bytes32,
    nonce: Option<u64>,
) -> BridgeState {
    s.admin_call(nonce).with_pending_upgrade(
        Some(
            PendingUpgrade {
                new_wasm_hash: new_hash,
                executable_after_ledger: s.upgrade_ledger(),
            },
        ),
    ).publish(
        Event::UpgradeScheduled {
            new_hash,
            executable_after_ledger: s.upgrade_ledger(),
            admin: s.admin(),
        },
    )
}

/// Why `execute_upgrade` refuses a call.
pub open spec fn execute_upgrade_error(
    s: BridgeState,
    expected_hash: Bytes32,
    nonce: Option<u64>,
) -> Option<BridgeError> {
    first(
        s.active_error(),
        match s.instance.pending_upgrade {
            None => Some(BridgeError::UpgradeNotScheduled),
            Some(pending) => first(
                refuse_if(
                    pending.new_wasm_hash != expected_hash,
                    BridgeError::UpgradeHashMismatch,
                ),
                first(
                    refuse_if(
                        s.ledger.sequence < pending.executable_after_ledger,
                        BridgeError::UpgradeTimelockActive,
                    ),
                    s.nonce_error(s.admin(), nonce),
                ),
            ),
        },
    )
}

/// The books after `execute_upgrade`.
pub open spec fn execute_upgrade_effect(
    s: BridgeState,
    expected_hash: Bytes32,
    nonce: Option<u64>,
) -> BridgeState {
    s.admin_call(nonce).with_pending_upgrade(None).with_code(expected_hash)
}

/// Why `cancel_upgrade` refuses a call.
pub open spec fn cancel_upgrade_error(s: BridgeState, nonce: Option<u64>) -> Option<BridgeError> {
    first(
        s.active_error(),
        first(
            refuse_if(s.instance.pending_upgrade is None, BridgeError::UpgradeNotScheduled),
            s.nonce_error(s.admin(), nonce),
        ),
    )
}

/// The books after `cancel_upgrade`.
pub open spec fn cancel_upgrade_effect(s: BridgeState, nonce: Option<u64>) -> BridgeState {
    s.admin_call(nonce).with_pending_upgrade(None).publish(
        Event::UpgradeCancelled {
            cancelled_hash: s.instance.pending_upgrade->0.new_wasm_hash,
            admin: s.admin(),
        },
    )
}

impl OnboardingBridge {
    /// Asks for the code to be replaced, and remembers the hash.
    fn replace_code(&mut self, new_hash: Bytes32)
        requires
            old(self)@.instance.admin is Some,
        ensures
            final(self)@ == old(self)@.with_code(new_hash),
    {
        let admin: Address = self.read_admin();
        let old_hash: Bytes32 = match self.instance.current_wasm_hash {
            Some(hash) => hash,
            None => Bytes32 { hi: 0, lo: 0 },
        };
        self.instance.current_wasm_hash = Some(new_hash);
        self.act(Action::UpdateWasm { hash: new_hash });
        self.publish(Event::ContractUpgraded { old_hash, new_hash, admin });
    }

    /// Replaces the code at once.
    pub fn upgrade(&mut self, new_wasm_hash: Bytes32, nonce: Option<u64>) -> (r: Result<
        (),
        BridgeError,
    >)
        requires
            old(self)@.wf(),
            old(self)@.active_admin_error(nonce) is None ==> old(self)@.nonce_fits(
                old(self)@.admin(),
                nonce,
            ),
        ensures
            r == verdict(old(self)@.active_admin_error(nonce)),
            final(self)@ == (if r is Ok {
                upgrade_effect(old(self)@, new_wasm_hash, nonce)
            } else {
                old(self)@
            }),
            final(self)@.wf(),
    {
        self.check_active_admin_call(nonce)?;
        self.admin_call(nonce);
        self.replace_code(new_wasm_hash);
        Ok(())
    }

    /// Schedules a replacement of the code, and returns the first ledger in which
    /// it may be executed. Where one is scheduled already, it has to be cancelled
    /// first.
    pub fn schedule_upgrade(&mut self, new_wasm_hash: Bytes32, nonce: Option<u64>) -> (r: Result<
        u32,
        BridgeError,
    >)
        requires
            old(self)@.wf(),
            schedule_upgrade_error(old(self)@, nonce) is None ==> old(self)@.nonce_fits(
                old(self)@.admin(),
                nonce,
            ),
        ensures
            r == answer(schedule_upgrade_error(old(self)@, nonce), old(self)@.upgrade_ledger()),
            final(self)@ == (if r is Ok {
                schedule_effect(old(self)@, new_wasm_hash, nonce)
            } else {
                old(self)@
            }),
            final(self)@.wf(),
    {
        self.check_active()?;
        if self.instance.pending_upgrade.is_some() {
            return Err(BridgeError::Unauthorized);
        }
        let admin: Address = self.read_admin();
        self.check_nonce(admin, nonce)?;
        let executable_after_ledger: u32 = self.ledger.sequence.saturating_add(
            UPGRADE_TIMELOCK_LEDGERS,
        );
        self.admin_call(nonce);
        self.instance.pending_upgrade = Some(
            PendingUpgrade { new_wasm_hash, executable_after_ledger },
        );
        self.publish(
            Event::UpgradeScheduled { new_hash: new_wasm_hash, executable_after_ledger, admin },
        );
        Ok(executable_after_ledger)
    }

    /// Replaces the code by what was scheduled, once the timelock has elapsed.
    pub fn execute_upgrade(&mut self, expected_hash: Bytes32, nonce: Option<u64>) -> (r: Result<
        (),
        BridgeError,
    >)
        requires
            old(self)@.wf(),
            execute_upgrade_error(old(self)@, expected_hash, nonce) is None ==> old(self)@.nonce_fits(
                old(self)@.admin(),
                nonce,
            ),
        ensures
            r == verdict(execute_upgrade_error(old(self)@, expected_hash, nonce)),
            final(self)@ == (if r is Ok {
                execute_upgrade_effect(old(self)@, expected_hash, nonce)
            } else {
                old(self)@
            }),
            final(self)@.wf(),
    {
        self.check_active()?;
        let pending: PendingUpgrade = match self.instance.pending_upgrade {
            Some(pending) => pending,
            None => {
                return Err(BridgeError::UpgradeNotScheduled);
            },
        };
        if pending.new_wasm_hash != expected_hash {
            return Err(BridgeError::UpgradeHashMismatch);
        }
        if self.ledger.sequence < pending.executable_after_ledger {
            return Err(BridgeError::UpgradeTimelockActive);
        }
        self.check_nonce(self.read_admin(), nonce)?;
        self.admin_call(nonce);
        self.instance.pending_upgrade = None;
        self.replace_code(expected_hash);
        Ok(())
    }

    /// Cancels a scheduled upgrade.
    pub fn cancel_upgrade(&mut self, nonce: Option<u64>) -> (r: Result<(), BridgeError>)
        requires
            old(self)@.wf(),
            cancel_upgrade_error(old(self)@, nonce) is None ==> old(self)@.nonce_fits(
                old(self)@.admin(),
                nonce,
            ),
        ensures
            r == verdict(cancel_upgrade_error(old(self)@, nonce)),
            final(self)@ == (if r is Ok {
                cancel_upgrade_effect(old(self)@, nonce)
            } else {
                old(self)@
            }),
            final(self)@.wf(),
    {
        self.check_active()?;
        let pending: PendingUpgrade = match self.instance.pending_upgrade {
            Some(pending) => pending,
            None => {
                return Err(BridgeError::UpgradeNotScheduled);
            },
        };
        let admin: Address = self.read_admin();
        self.check_nonce(admin, nonce)?;
        self.admin_call(nonce);
        self.instance.pending_upgrade = None;
        self.publish(Event::UpgradeCancelled { cancelled_hash: pending.new_wasm_hash, admin });
        Ok(())
    }

    /// The scheduled upgrade, if any.
    pub fn query_pending_upgrade(&self) -> (r: Option<PendingUpgrade>)
        ensures
            r == self@.instance.pending_upgrade,
    {
        self.instance.pending_upgrade
    }
}

} // verus!
