//! The relayers that attest what happened on other chains.
use vstd::prelude::*;

use crate::bytes::Bytes32;
use crate::errors::BridgeError;
use crate::state::{
    answer, first, option_or, refuse_if, value_or, verdict, BridgeState, Instance, OnboardingBridge,
};
use crate::types::Address;

verus! {

impl BridgeState {
    /// Whether a key belongs to a registered relayer.
    pub open spec fn is_relayer(self, pubkey: Bytes32) -> bool {
        value_or(self.relayer, pubkey, false)
    }

    /// The number of registered relayers, as it is counted.
    pub open spec fn relayer_count(self) -> u32 {
        option_or(self.instance.relayer_count, 0)
    }

    /// How many relayers have to sign.
    pub open spec fn relayer_threshold(self) -> u32 {
        option_or(self.instance.relayer_threshold, 1)
    }

    /// The number of relayers after one has been removed.
    pub open spec fn relayers_left(self) -> u32 {
        if self.relayer_count() > 0 {
            (self.relayer_count() - 1) as u32
        } else {
            0
        }
    }

    /// The books with one more relayer, where it is a new one.
    pub open spec fn with_relayer(self, pubkey: Bytes32) -> BridgeState {
        if self.is_relayer(pubkey) {
            self
        } else {
            BridgeState {
                relayer: self.relayer.insert(pubkey, true),
                instance: Instance {
                    relayer_count: Some((self.relayer_count() + 1) as u32),
                    ..self.instance
                },
                ..self
            }
        }
    }

    /// The books with one relayer less, where it was one.
    pub open spec fn without_relayer(self, pubkey: Bytes32) -> BridgeState {
        if self.is_relayer(pubkey) {
            BridgeState {
                relayer: self.relayer.remove(pubkey),
                instance: Instance {
                    relayer_count: Some(self.relayers_left()),
                    ..self.instance
                },
                ..self
            }
        } else {
            self
        }
    }
}

/// The keys of the relayers.
pub open spec fn relayer_keys(s: BridgeState) -> Set<Bytes32> {
    Set::new(|k: Bytes32| s.is_relayer(k))
}

/// Whether the counter says how many relayers there are.
pub open spec fn relayers_counted(s: BridgeState) -> bool {
    relayer_keys(s).finite() && relayer_keys(s).len() == s.relayer_count()
}

/// Taking a key off the relayers keeps them counted: it is none afterwards, there
/// is one less where it was one and nothing changes where it was not, and every
/// other key is what it was.
pub proof fn a_removed_relayer_is_gone(s: BridgeState, pubkey: Bytes32, other: Bytes32)
    requires
        relayers_counted(s),
    ensures
        ({
            let t = s.without_relayer(pubkey);
            &&& relayers_counted(t)
            &&& !t.is_relayer(pubkey)
            &&& !s.is_relayer(pubkey) ==> t == s
            &&& s.is_relayer(pubkey) ==> t.relayer_count() == s.relayer_count() - 1
            &&& other != pubkey ==> t.is_relayer(other) == s.is_relayer(other)
            &&& remove_relayer_effect(s, pubkey).relayer == t.relayer
            &&& remove_relayer_effect(s, pubkey).instance == t.instance
        }),
{
    let t = s.without_relayer(pubkey);
    assert(relayer_keys(t) =~= relayer_keys(s).remove(pubkey));
    if s.is_relayer(pubkey) {
        assert(relayer_keys(s).contains(pubkey));
    }
}

/// Putting a key among the relayers keeps them counted: it is one afterwards, there
/// is one more where it was none and nothing changes where it was one, and every
/// other key is what it was.
pub proof fn an_added_relayer_is_there(s: BridgeState, pubkey: Bytes32, other: Bytes32)
    requires
        relayers_counted(s),
        s.relayer_count() < u32::MAX,
    ensures
        ({
            let t = s.with_relayer(pubkey);
            &&& relayers_counted(t)
            &&& t.is_relayer(pubkey)
            &&& s.is_relayer(pubkey) ==> t == s
            &&& !s.is_relayer(pubkey) ==> t.relayer_count() == s.relayer_count() + 1
            &&& other != pubkey ==> t.is_relayer(other) == s.is_relayer(other)
            &&& add_relayer_effect(s, pubkey).relayer == t.relayer
            &&& add_relayer_effect(s, pubkey).instance == t.instance
        }),
{
    let t = s.with_relayer(pubkey);
    assert(relayer_keys(t) =~= relayer_keys(s).insert(pubkey));
    if s.is_relayer(pubkey) {
        assert(relayer_keys(s).contains(pubkey));
        assert(relayer_keys(s).insert(pubkey) =~= relayer_keys(s));
    }
}

/// The books after `add_relayer`.
pub open spec fn add_relayer_effect(s: BridgeState, pubkey: Bytes32) -> BridgeState {
    s.with_relayer(pubkey).require_auth(s.admin()).keep_alive()
}

/// Why `remove_relayer` refuses a call.
pub open spec fn remove_relayer_error(s: BridgeState, pubkey: Bytes32) -> Option<BridgeError> {
    first(
        s.running_error(),
        refuse_if(
            s.is_relayer(pubkey) && s.relayers_left() < s.relayer_threshold(),
            BridgeError::BelowThreshold,
        ),
    )
}

/// The books after `remove_relayer`.
pub open spec fn remove_relayer_effect(s: BridgeState, pubkey: Bytes32) -> BridgeState {
    s.without_relayer(pubkey).require_auth(s.admin()).keep_alive()
}

/// Why `set_relayer_threshold` refuses a call.
pub open spec fn threshold_error(s: BridgeState, threshold: u32) -> Option<BridgeError> {
    first(
        s.running_error(),
        refuse_if(threshold > s.relayer_count(), BridgeError::ThresholdExceedsRelayers),
    )
}

/// The books after `set_relayer_threshold`.
pub open spec fn threshold_effect(s: BridgeState, threshold: u32) -> BridgeState {
    s.with_instance(
        Instance { relayer_threshold: Some(threshold), ..s.instance },
    ).require_auth(s.admin()).keep_alive()
}

impl OnboardingBridge {
    pub(crate) fn read_is_relayer(&self, pubkey: Bytes32) -> (r: bool)
        ensures
            r == self@.is_relayer(pubkey),
    {
        match self.relayer.get(pubkey) {
            Some(registered) => registered,
            None => false,
        }
    }

    pub(crate) fn read_relayer_count(&self) -> (r: u32)
        ensures
            r == self@.relayer_count(),
    {
        match self.instance.relayer_count {
            Some(count) => count,
            None => 0,
        }
    }

    pub(crate) fn read_relayer_threshold(&self) -> (r: u32)
        ensures
            r == self@.relayer_threshold(),
    {
        match self.instance.relayer_threshold {
            Some(threshold) => threshold,
            None => 1,
        }
    }

    /// Puts a key among the relayers, where it is a new one.
    fn enlist(&mut self, pubkey: Bytes32)
        requires
            !old(self)@.is_relayer(pubkey) ==> old(self)@.relayer_count() < u32::MAX,
        ensures
            final(self)@ == old(self)@.with_relayer(pubkey),
    {
        if !self.read_is_relayer(pubkey) {
            let count: u32 = self.read_relayer_count();
            self.relayer.set(pubkey, true);
            self.instance.relayer_count = Some(count + 1);
        }
    }

    /// Takes a key off the relayers, where it is one.
    fn delist(&mut self, pubkey: Bytes32)
        ensures
            final(self)@ == old(self)@.without_relayer(pubkey),
    {
        if self.read_is_relayer(pubkey) {
            let left: u32 = self.read_relayer_count().saturating_sub(1);
            self.relayer.remove(pubkey);
            self.instance.relayer_count = Some(left);
        }
    }

    /// Registers the key of a relayer. Registering it twice changes nothing.
    pub fn add_relayer(&mut self, pubkey: Bytes32) -> (r: Result<(), BridgeError>)
        requires
            old(self)@.wf(),
            old(self)@.running_error() is None && !old(self)@.is_relayer(pubkey)
                ==> old(self)@.relayer_count() < u32::MAX,
        ensures
            r == verdict(old(self)@.running_error()),
            final(self)@ == (if r is Ok {
                add_relayer_effect(old(self)@, pubkey)
            } else {
                old(self)@
            }),
            final(self)@.wf(),
    {
        self.check_running()?;
        let admin: Address = self.read_admin();
        self.enlist(pubkey);
        self.require_auth(admin);
        self.keep_alive();
        Ok(())
    }

    /// Removes the key of a relayer, unless fewer than the threshold would be
    /// left.
    pub fn remove_relayer(&mut self, pubkey: Bytes32) -> (r: Result<(), BridgeError>)
        requires
            old(self)@.wf(),
        ensures
            r == verdict(remove_relayer_error(old(self)@, pubkey)),
            final(self)@ == (if r is Ok {
                remove_relayer_effect(old(self)@, pubkey)
            } else {
                old(self)@
            }),
            final(self)@.wf(),
    {
        self.check_running()?;
        let admin: Address = self.read_admin();
        if self.read_is_relayer(pubkey) {
            let left: u32 = self.read_relayer_count().saturating_sub(1);
            if left < self.read_relayer_threshold() {
                return Err(BridgeError::BelowThreshold);
            }
        }
        self.delist(pubkey);
        self.require_auth(admin);
        self.keep_alive();
        Ok(())
    }

    /// Sets how many relayers have to sign.
    pub fn set_relayer_threshold(&mut self, threshold: u32) -> (r: Result<(), BridgeError>)
        requires
            old(self)@.wf(),
        ensures
            r == verdict(threshold_error(old(self)@, threshold)),
            final(self)@ == (if r is Ok {
                threshold_effect(old(self)@, threshold)
            } else {
                old(self)@
            }),
            final(self)@.wf(),
    {
        self.check_running()?;
        if threshold > self.read_relayer_count() {
            return Err(BridgeError::ThresholdExceedsRelayers);
        }
        let admin: Address = self.read_admin();
        self.instance.relayer_threshold = Some(threshold);
        self.require_auth(admin);
        self.keep_alive();
        Ok(())
    }

    /// How many relayers have to sign.
    pub fn query_relayer_threshold(&self) -> (r: Result<u32, BridgeError>)
        ensures
            r == answer(self@.query_error(), self@.relayer_threshold()),
    {
        self.check_initialized()?;
        Ok(self.read_relayer_threshold())
    }

    /// Whether a key belongs to a registered relayer.
    pub fn query_is_relayer(&self, pubkey: Bytes32) -> (r: Result<bool, BridgeError>)
        ensures
            r == answer(self@.query_error(), self@.is_relayer(pubkey)),
    {
        self.check_initialized()?;
        Ok(self.read_is_relayer(pubkey))
    }
}

} // verus!
