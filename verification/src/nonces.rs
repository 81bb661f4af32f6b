//! Nonces: numbers that make a call unrepeatable.
use vstd::prelude::*;
use vstd::set_lib::lemma_len_subset;

use crate::actions::Event;
use crate::errors::BridgeError;
use crate::state::{first, refuse_if, value_or, verdict, BridgeState, OnboardingBridge};
use crate::types::{Address, SourceNonce};

verus! {

impl BridgeState {
    /// The number after the highest that a source has used in an authorization
    /// entry.
    pub open spec fn auth_nonce_of(self, source: Address) -> u64 {
        value_or(self.auth_nonce, source, 0)
    }

    /// Whether a source has used a number in an authorization entry.
    pub open spec fn auth_nonce_used(self, source: Address, nonce: u64) -> bool {
        value_or(self.used_auth_nonce, SourceNonce { source, nonce }, false)
    }

    /// Whether a number is the one that a source is to use next: the lowest that it
    /// has not used in an authorization entry.
    pub open spec fn is_next_auth_nonce(self, source: Address, next: u64) -> bool {
        &&& !self.auth_nonce_used(source, next)
        &&& forall|n: u64| n < next ==> #[trigger] self.auth_nonce_used(source, n)
    }

    /// The books after a number has been used in an authorization entry.
    pub open spec fn burn(self, source: Address, nonce: u64) -> BridgeState {
        BridgeState {
            used_auth_nonce: self.used_auth_nonce.insert(SourceNonce { source, nonce }, true),
            auth_nonce: if nonce >= self.auth_nonce_of(source) {
                self.auth_nonce.insert(source, (nonce + 1) as u64)
            } else {
                self.auth_nonce
            },
            ..self
        }
    }
}

/// Why `verify_auth_entry` refuses a call.
pub open spec fn auth_entry_error(
    s: BridgeState,
    source: Address,
    nonce: u64,
    valid_after_ledger: u32,
    valid_before_ledger: u32,
) -> Option<BridgeError> {
    first(
        s.running_error(),
        first(
            refuse_if(
                !(valid_after_ledger <= s.ledger.sequence < valid_before_ledger),
                BridgeError::AuthNonceExpired,
            ),
            refuse_if(s.auth_nonce_used(source, nonce), BridgeError::AuthNonceAlreadyUsed),
        ),
    )
}

/// The books after `verify_auth_entry`.
pub open spec fn auth_entry_effect(s: BridgeState, source: Address, nonce: u64) -> BridgeState {
    s.burn(source, nonce).require_auth(source).keep_alive().publish(
        Event::AuthUsed { source, nonce },
    )
}

/// The numbers of a source below `n`, as keys.
spec fn keys_below(source: Address, n: nat) -> Set<SourceNonce> {
    Set::new(|k: SourceNonce| k.source == source && k.nonce < n)
}

/// There are as many keys below a number as the number says.
proof fn count_keys_below(source: Address, n: nat)
    requires
        n <= u64::MAX + 1,
    ensures
        keys_below(source, n).finite(),
        keys_below(source, n).len() == n,
    decreases n,
{
    if n == 0 {
        assert(keys_below(source, n) =~= Set::empty());
    } else {
        count_keys_below(source, (n - 1) as nat);
        let last = SourceNonce { source, nonce: (n - 1) as u64 };
        assert(keys_below(source, n) =~= keys_below(source, (n - 1) as nat).insert(last));
    }
}

impl OnboardingBridge {
    /// The number after the highest that `source` has used.
    fn read_auth_nonce(&self, source: Address) -> (r: u64)
        ensures
            r == self@.auth_nonce_of(source),
    {
        match self.auth_nonce.get(source) {
            Some(next) => next,
            None => 0,
        }
    }

    /// No source can have used up all numbers: the table has no room for them.
    proof fn some_number_is_unused(&self, source: Address)
        ensures
            exists|n: u64| !self@.auth_nonce_used(source, n),
    {
        if forall|n: u64| self@.auth_nonce_used(source, n) {
            let all = keys_below(source, (u64::MAX + 1) as nat);
            count_keys_below(source, (u64::MAX + 1) as nat);
            self.used_auth_nonce.is_bounded();
            assert forall|k: SourceNonce| #[trigger] all.contains(k) implies self.used_auth_nonce@
                .dom().contains(k) by {
                assert(self@.auth_nonce_used(source, k.nonce));
            }
            lemma_len_subset(all, self.used_auth_nonce@.dom());
        }
    }

    /// Marks a number as used, and advances the counter of the source past it.
    fn mark_auth_nonce_used(&mut self, source: Address, nonce: u64)
        requires
            nonce < u64::MAX,
        ensures
            final(self)@ == old(self)@.burn(source, nonce),
    {
        let current: u64 = self.read_auth_nonce(source);
        self.used_auth_nonce.set(SourceNonce { source, nonce }, true);
        if nonce >= current {
            self.auth_nonce.set(source, nonce + 1);
        }
    }

    /// Uses up the number of an authorization entry of `source`, within a window of
    /// ledgers.
    pub fn verify_auth_entry(
        &mut self,
        source: Address,
        nonce: u64,
        valid_after_ledger: u32,
        valid_before_ledger: u32,
    ) -> (r: Result<(), BridgeError>)
        requires
            old(self)@.wf(),
            auth_entry_error(
                old(self)@,
                source,
                nonce,
                valid_after_ledger,
                valid_before_ledger,
            ) is None ==> nonce < u64::MAX,
        ensures
            r == verdict(
                auth_entry_error(
                    old(self)@,
                    source,
                    nonce,
                    valid_after_ledger,
                    valid_before_ledger,
                ),
            ),
            final(self)@ == (if r is Ok {
                auth_entry_effect(old(self)@, source, nonce)
            } else {
                old(self)@
            }),
            final(self)@.wf(),
    {
        self.check_running()?;
        let sequence: u32 = self.ledger.sequence;
        if sequence < valid_after_ledger || sequence >= valid_before_ledger {
            return Err(BridgeError::AuthNonceExpired);
        }
        if self.query_auth_nonce_used(source, nonce) {
            return Err(BridgeError::AuthNonceAlreadyUsed);
        }
        self.mark_auth_nonce_used(source, nonce);
        self.require_auth(source);
        self.keep_alive();
        self.publish(Event::AuthUsed { source, nonce });
        Ok(())
    }

    /// The lowest number that `source` has not used in an authorization entry.
    pub fn query_auth_nonce(&self, source: Address) -> (r: u64)
        ensures
            !self@.auth_nonce_used(source, r),
            forall|n: u64| n < r ==> #[trigger] self@.auth_nonce_used(source, n),
            self@.is_next_auth_nonce(source, r),
    {
        let mut next: u64 = 0;
        while next < u64::MAX
            invariant
                forall|n: u64| n < next ==> #[trigger] self@.auth_nonce_used(source, n),
            decreases u64::MAX - next,
        {
            if !self.query_auth_nonce_used(source, next) {
                return next;
            }
            next = next + 1;
        }
        proof {
            self.some_number_is_unused(source);
        }
        next
    }

    /// Whether `source` has used a number in an authorization entry.
    pub fn query_auth_nonce_used(&self, source: Address, nonce: u64) -> (r: bool)
        ensures
            r == self@.auth_nonce_used(source, nonce),
    {
        match self.used_auth_nonce.get(SourceNonce { source, nonce }) {
            Some(used) => used,
            None => false,
        }
    }

    /// The sequential nonce that `caller` has to give next, if it gives one.
    pub fn query_nonce(&self, caller: Address) -> (r: u64)
        ensures
            r == self@.nonce_of(caller),
    {
        self.read_nonce(caller)
    }
}

} // verus!
