//! The admin and the fee collector, and how their roles are handed on.
use vstd::prelude::*;

use crate::actions::Event;
use crate::errors::BridgeError;
use crate::state::{answer, first, refuse_if, verdict, BridgeState, Instance, OnboardingBridge};
use crate::types::{Address, BridgeConfigData};

verus! {

impl BridgeState {
    /// The books with another admin.
    pub open spec fn with_admin(self, admin: Address) -> BridgeState {
        self.with_instance(
            Instance {
                admin: Some(admin),
                bridge_config: Some(BridgeConfigData { admin, ..self.bridge_config() }),
                ..self.instance
            },
        )
    }

    /// The books with another fee collector.
    pub open spec fn with_fee_collector(self, fee_collector: Address) -> BridgeState {
        self.with_instance(
            Instance {
                fee_collector: Some(fee_collector),
                bridge_config: Some(BridgeConfigData { fee_collector, ..self.bridge_config() }),
                ..self.instance
            },
        )
    }

    /// The books with another proposed admin, or none.
    pub open spec fn with_pending_admin(self, pending: Option<Address>) -> BridgeState {
        self.with_instance(Instance { pending_admin: pending, ..self.instance })
    }

    /// The books with another proposed fee collector, or none.
    pub open spec fn with_pending_fee_collector(self, pending: Option<Address>) -> BridgeState {
        self.with_instance(Instance { pending_fee_collector: pending, ..self.instance })
    }
}

/// The books after `set_admin`.
pub open spec fn set_admin_effect(
    s: BridgeState,
    new_admin: Address,
    nonce: Option<u64>,
) -> BridgeState {
    s.admin_call(nonce).with_admin(new_admin).publish(
        Event::AdminChanged { old_admin: s.admin(), new_admin },
    )
}

/// The books after `propose_new_admin`.
pub open spec fn propose_admin_effect(
    s: BridgeState,
    new_admin: Address,
    nonce: Option<u64>,
) -> BridgeState {
    s.admin_call(nonce).with_pending_admin(Some(new_admin))
}

/// Why `accept_admin` refuses a call.
pub open spec fn accept_admin_error(s: BridgeState) -> Option<BridgeError> {
    first(
        s.running_error(),
        refuse_if(s.instance.pending_admin is None, BridgeError::Unauthorized),
    )
}

/// The books after `accept_admin`.
pub open spec fn accept_admin_effect(s: BridgeState) -> BridgeState {
    let new_admin = s.instance.pending_admin->0;
    s.require_auth(new_admin).keep_alive().with_admin(new_admin).with_pending_admin(None).publish(
        Event::AdminTransferred { old_admin: s.admin(), new_admin },
    )
}

/// The books after `set_fee_collector`.
pub open spec fn set_fee_collector_effect(
    s: BridgeState,
    new_fee_collector: Address,
    nonce: Option<u64>,
) -> BridgeState {
    s.admin_call(nonce).with_fee_collector(new_fee_collector).publish(
        Event::FeeCollectorChanged {
            old_collector: s.fee_collector(),
            new_collector: new_fee_collector,
            admin: s.admin(),
        },
    )
}

/// The books after `propose_new_fee_collector`.
pub open spec fn propose_fee_collector_effect(
    s: BridgeState,
    new_collector: Address,
    nonce: Option<u64>,
) -> BridgeState {
    s.admin_call(nonce).with_pending_fee_collector(Some(new_collector))
}

/// Why `accept_fee_collector` refuses a call.
pub open spec fn accept_fee_collector_error(s: BridgeState) -> Option<BridgeError> {
    first(
        s.running_error(),
        refuse_if(s.instance.pending_fee_collector is None, BridgeError::Unauthorized),
    )
}

/// The books after `accept_fee_collector`.
pub open spec fn accept_fee_collector_effect(s: BridgeState) -> BridgeState {
    let new_collector = s.instance.pending_fee_collector->0;
    s.require_auth(new_collector).keep_alive().with_fee_collector(
        new_collector,
    ).with_pending_fee_collector(None).publish(
        Event::FeeCollectorTransferred { old_collector: s.fee_collector(), new_collector },
    )
}

impl OnboardingBridge {
    fn save_admin(&mut self, admin: Address)
        requires
            old(self)@.instance.admin is Some,
            old(self)@.instance.fee_collector is Some,
        ensures
            final(self)@ == old(self)@.with_admin(admin),
    {
        let cached: BridgeConfigData = self.read_bridge_config();
        self.instance.admin = Some(admin);
        self.instance.bridge_config = Some(BridgeConfigData { admin, ..cached });
    }

    fn save_fee_collector(&mut self, fee_collector: Address)
        requires
            old(self)@.instance.admin is Some,
            old(self)@.instance.fee_collector is Some,
        ensures
            final(self)@ == old(self)@.with_fee_collector(fee_collector),
    {
        let cached: BridgeConfigData = self.read_bridge_config();
        self.instance.fee_collector = Some(fee_collector);
        self.instance.bridge_config = Some(BridgeConfigData { fee_collector, ..cached });
    }

    /// Makes `new_admin` the admin at once.
    pub fn set_admin(&mut self, new_admin: Address, nonce: Option<u64>) -> (r: Result<
        (),
        BridgeError,
    >)
        requires
            old(self)@.wf(),
            old(self)@.admin_error(nonce) is None ==> old(self)@.nonce_fits(
                old(self)@.admin(),
                nonce,
            ),
        ensures
            r == verdict(old(self)@.admin_error(nonce)),
            final(self)@ == (if r is Ok {
                set_admin_effect(old(self)@, new_admin, nonce)
            } else {
                old(self)@
            }),
            final(self)@.wf(),
    {
        self.check_admin_call(nonce)?;
        let old_admin: Address = self.read_admin();
        self.admin_call(nonce);
        self.save_admin(new_admin);
        self.publish(Event::AdminChanged { old_admin, new_admin });
        Ok(())
    }

    /// Proposes another admin, who has to accept.
    pub fn propose_new_admin(&mut self, new_admin: Address, nonce: Option<u64>) -> (r: Result<
        (),
        BridgeError,
    >)
        requires
            old(self)@.wf(),
            old(self)@.admin_error(nonce) is None ==> old(self)@.nonce_fits(
                old(self)@.admin(),
                nonce,
            ),
        ensures
            r == verdict(old(self)@.admin_error(nonce)),
            final(self)@ == (if r is Ok {
                propose_admin_effect(old(self)@, new_admin, nonce)
            } else {
                old(self)@
            }),
            final(self)@.wf(),
    {
        self.check_admin_call(nonce)?;
        self.admin_call(nonce);
        self.instance.pending_admin = Some(new_admin);
        Ok(())
    }

    /// Accepts the role of admin that was proposed.
    pub fn accept_admin(&mut self) -> (r: Result<(), BridgeError>)
        requires
            old(self)@.wf(),
        ensures
            r == verdict(accept_admin_error(old(self)@)),
            final(self)@ == (if r is Ok {
                accept_admin_effect(old(self)@)
            } else {
                old(self)@
            }),
            final(self)@.wf(),
    {
        self.check_running()?;
        let pending: Address = match self.instance.pending_admin {
            Some(pending) => pending,
            None => {
                return Err(BridgeError::Unauthorized);
            },
        };
        self.require_auth(pending);
        self.keep_alive();
        let old_admin: Address = self.read_admin();
        self.save_admin(pending);
        self.instance.pending_admin = None;
        self.publish(Event::AdminTransferred { old_admin, new_admin: pending });
        Ok(())
    }

    /// The proposed admin, if any.
    pub fn query_pending_admin(&self) -> (r: Option<Address>)
        ensures
            r == self@.instance.pending_admin,
    {
        self.instance.pending_admin
    }

    /// The admin.
    pub fn query_admin(&self) -> (r: Result<Address, BridgeError>)
        requires
            self@.wf(),
        ensures
            r == answer(self@.query_error(), self@.admin()),
    {
        self.check_initialized()?;
        Ok(self.read_admin())
    }

    /// Makes `new_fee_collector` the fee collector at once.
    pub fn set_fee_collector(&mut self, new_fee_collector: Address, nonce: Option<u64>) -> (r:
        Result<(), BridgeError>)
        requires
            old(self)@.wf(),
            old(self)@.admin_error(nonce) is None ==> old(self)@.nonce_fits(
                old(self)@.admin(),
                nonce,
            ),
        ensures
            r == verdict(old(self)@.admin_error(nonce)),
            final(self)@ == (if r is Ok {
                set_fee_collector_effect(old(self)@, new_fee_collector, nonce)
            } else {
                old(self)@
            }),
            final(self)@.wf(),
    {
        self.check_admin_call(nonce)?;
        let admin: Address = self.read_admin();
        let old_collector: Address = self.read_fee_collector();
        self.admin_call(nonce);
        self.save_fee_collector(new_fee_collector);
        self.publish(
            Event::FeeCollectorChanged { old_collector, new_collector: new_fee_collector, admin },
        );
        Ok(())
    }

    /// Proposes another fee collector, who has to accept.
    pub fn propose_new_fee_collector(&mut self, new_collector: Address, nonce: Option<u64>) -> (r:
        Result<(), BridgeError>)
        requires
            old(self)@.wf(),
            old(self)@.admin_error(nonce) is None ==> old(self)@.nonce_fits(
                old(self)@.admin(),
                nonce,
            ),
        ensures
            r == verdict(old(self)@.admin_error(nonce)),
            final(self)@ == (if r is Ok {
                propose_fee_collector_effect(old(self)@, new_collector, nonce)
            } else {
                old(self)@
            }),
            final(self)@.wf(),
    {
        self.check_admin_call(nonce)?;
        self.admin_call(nonce);
        self.instance.pending_fee_collector = Some(new_collector);
        Ok(())
    }

    /// Accepts the role of fee collector that was proposed.
    pub fn accept_fee_collector(&mut self) -> (r: Result<(), BridgeError>)
        requires
            old(self)@.wf(),
        ensures
            r == verdict(accept_fee_collector_error(old(self)@)),
            final(self)@ == (if r is Ok {
                accept_fee_collector_effect(old(self)@)
            } else {
                old(self)@
            }),
            final(self)@.wf(),
    {
        self.check_running()?;
        let pending: Address = match self.instance.pending_fee_collector {
            Some(pending) => pending,
            None => {
                return Err(BridgeError::Unauthorized);
            },
        };
        self.require_auth(pending);
        self.keep_alive();
        let old_collector: Address = self.read_fee_collector();
        self.save_fee_collector(pending);
        self.instance.pending_fee_collector = None;
        self.publish(Event::FeeCollectorTransferred { old_collector, new_collector: pending });
        Ok(())
    }

    /// The proposed fee collector, if any.
    pub fn query_pending_fee_collector(&self) -> (r: Option<Address>)
        ensures
            r == self@.instance.pending_fee_collector,
    {
        self.instance.pending_fee_collector
    }

    /// The fee collector.
    pub fn query_fee_collector(&self) -> (r: Result<Address, BridgeError>)
        requires
            self@.wf(),
        ensures
            r == answer(self@.query_error(), self@.fee_collector()),
    {
        self.check_initialized()?;
        Ok(self.read_fee_collector())
    }
}

} // verus!
