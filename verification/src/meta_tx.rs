//! Transfers that their source has signed and that anyone may submit.
use vstd::prelude::*;

use crate::actions::{Action, Event};
use crate::bytes::{Bytes32, Signature};
use crate::errors::BridgeError;
use crate::fees::Charge;
use crate::hashing::{compute_meta_fund_hash, meta_fund_hash};
use crate::state::{first, lookup, refuse_if, value_or, verdict, BridgeState, OnboardingBridge};
use crate::types::{Address, MetaFundParams, SourceNonce};

verus! {

impl BridgeState {
    /// Whether a source has used a nonce in a meta-transaction.
    pub open spec fn meta_nonce_used(self, source: Address, nonce: u64) -> bool {
        value_or(self.meta_tx_nonce, SourceNonce { source, nonce }, false)
    }
}

/// Why a meta-transaction is refused. `payload` is the hash that its source had
/// to sign, or why there is none.
pub open spec fn meta_fund_error(
    s: BridgeState,
    p: MetaFundParams,
    pubkey: Bytes32,
    payload: Result<Bytes32, BridgeError>,
) -> Option<BridgeError> {
    first(
        s.running_error(),
        first(
            refuse_if(s.ledger.timestamp > p.deadline, BridgeError::MetaTxExpired),
            first(
                refuse_if(s.meta_nonce_used(p.source, p.nonce), BridgeError::MetaTxNonceAlreadyUsed),
                first(
                    s.amount_error(p.amount),
                    first(
                        s.access_error(p.target),
                        first(
                            s.asset_error(p.asset),
                            first(
                                s.usage_error(p.source, p.asset, p.amount),
                                first(
                                    refuse_if(
                                        lookup(s.meta_signer, p.source) != Some(pubkey),
                                        BridgeError::MetaTxPubkeySourceMismatch,
                                    ),
                                    match payload {
                                        Err(e) => Some(e),
                                        Ok(_) => s.books_error(p.source, p.asset, p.amount),
                                    },
                                ),
                            ),
                        ),
                    ),
                ),
            ),
        ),
    )
}

/// The books after a meta-transaction.
pub open spec fn meta_fund_effect(
    s: BridgeState,
    p: MetaFundParams,
    pubkey: Bytes32,
    signature: Signature,
    payload: Bytes32,
) -> BridgeState {
    let c = s.charge(p.source, p.asset, p.amount)->Ok_0;
    let booked = s.book(p.source, p.asset, p.amount, c.fee, c).count_usage(
        p.source,
        p.asset,
        p.amount,
    );
    BridgeState {
        meta_tx_nonce: booked.meta_tx_nonce.insert(
            SourceNonce { source: p.source, nonce: p.nonce },
            true,
        ),
        ..booked
    }.act(Action::VerifySignature { pubkey, message: payload, signature })
        .pull(p.asset, p.source, p.amount)
        .pay_out(p.asset, p.target, c.net)
        .keep_alive()
        .reward(p.source)
        .publish(
        Event::MetaFundExecuted {
            asset: p.asset,
            source: p.source,
            target: p.target,
            amount: p.amount,
            fee: c.fee,
            nonce: p.nonce,
        },
    )
}

/// Why `register_meta_signer` refuses a call.
pub open spec fn register_error(s: BridgeState) -> Option<BridgeError> {
    first(
        s.query_error(),
        first(
            refuse_if(s.instance.deactivated, BridgeError::ContractDeactivated),
            refuse_if(s.config().paused, BridgeError::ContractPaused),
        ),
    )
}

/// The books after `register_meta_signer`.
pub open spec fn register_effect(s: BridgeState, source: Address, pubkey: Bytes32) -> BridgeState {
    BridgeState { meta_signer: s.meta_signer.insert(source, pubkey), ..s }
        .require_auth(source)
        .keep_alive()
        .publish(Event::MetaSignerRegistered { source, pubkey })
}

impl OnboardingBridge {
    /// Binds to `source` the key whose signatures it accepts on
    /// meta-transactions.
    pub fn register_meta_signer(&mut self, source: Address, pubkey: Bytes32) -> (r: Result<
        (),
        BridgeError,
    >)
        requires
            old(self)@.wf(),
        ensures
            r == verdict(register_error(old(self)@)),
            final(self)@ == (if r is Ok {
                register_effect(old(self)@, source, pubkey)
            } else {
                old(self)@
            }),
            final(self)@.wf(),
    {
        self.check_initialized()?;
        if self.instance.deactivated {
            return Err(BridgeError::ContractDeactivated);
        }
        if self.read_config().paused {
            return Err(BridgeError::ContractPaused);
        }
        self.meta_signer.set(source, pubkey);
        self.require_auth(source);
        self.keep_alive();
        self.publish(Event::MetaSignerRegistered { source, pubkey });
        Ok(())
    }

    /// The key that `source` has registered, if any.
    pub fn query_meta_signer(&self, source: Address) -> (r: Option<Bytes32>)
        ensures
            r == lookup(self@.meta_signer, source),
    {
        self.meta_signer.get(source)
    }

    /// Whether `source` has used `nonce` in a meta-transaction.
    pub fn query_meta_tx_nonce_used(&self, source: Address, nonce: u64) -> (r: bool)
        ensures
            r == self@.meta_nonce_used(source, nonce),
    {
        match self.meta_tx_nonce.get(SourceNonce { source, nonce }) {
            Some(used) => used,
            None => false,
        }
    }

    /// Performs a transfer that its source has signed. The signature is over the
    /// hash of the parameters; the host is asked to verify it first.
    pub fn execute_meta_fund(
        &mut self,
        env: &soroban_sdk::Env,
        params: MetaFundParams,
        pubkey: Bytes32,
        signature: Signature,
    ) -> (r: Result<(), BridgeError>)
        requires
            old(self)@.wf(),
        ensures
            r == verdict(meta_fund_error(old(self)@, params, pubkey, meta_fund_hash(params))),
            final(self)@ == (if r is Ok {
                meta_fund_effect(
                    old(self)@,
                    params,
                    pubkey,
                    signature,
                    meta_fund_hash(params)->Ok_0,
                )
            } else {
                old(self)@
            }),
            final(self)@.wf(),
    {
        let payload: Result<Bytes32, BridgeError> = compute_meta_fund_hash(env, params);
        self.execute_signed_fund(params, pubkey, signature, payload)
    }

    /// Performs a transfer that its source has signed, given the hash that it
    /// had to sign, or why there is none.
    pub fn execute_signed_fund(
        &mut self,
        params: MetaFundParams,
        pubkey: Bytes32,
        signature: Signature,
        payload: Result<Bytes32, BridgeError>,
    ) -> (r: Result<(), BridgeError>)
        requires
            old(self)@.wf(),
        ensures
            r == verdict(meta_fund_error(old(self)@, params, pubkey, payload)),
            final(self)@ == (if r is Ok {
                meta_fund_effect(old(self)@, params, pubkey, signature, payload->Ok_0)
            } else {
                old(self)@
            }),
            final(self)@.wf(),
    {
        let source: Address = params.source;
        let asset: Address = params.asset;
        let amount: i128 = params.amount;
        self.check_running()?;
        if self.ledger.timestamp > params.deadline {
            return Err(BridgeError::MetaTxExpired);
        }
        if self.query_meta_tx_nonce_used(source, params.nonce) {
            return Err(BridgeError::MetaTxNonceAlreadyUsed);
        }
        self.check_amount(amount)?;
        self.check_access(params.target)?;
        self.check_asset_whitelisted(asset)?;
        let usage: Option<i128> = self.check_daily_limit(source, asset, amount)?;
        match self.meta_signer.get(source) {
            Some(registered) => {
                if registered != pubkey {
                    return Err(BridgeError::MetaTxPubkeySourceMismatch);
                }
            },
            None => {
                return Err(BridgeError::MetaTxPubkeySourceMismatch);
            },
        }
        let message: Bytes32 = match payload {
            Ok(hash) => hash,
            Err(e) => {
                return Err(e);
            },
        };
        let c: Charge = self.charge(source, asset, amount)?;
        self.book_transfer(source, asset, amount, c.fee, c)?;
        self.save_daily_usage(source, asset, usage);
        self.meta_tx_nonce.set(SourceNonce { source, nonce: params.nonce }, true);
        self.act(Action::VerifySignature { pubkey, message, signature });
        self.pull(asset, source, amount);
        self.pay_out(asset, params.target, c.net);
        self.keep_alive();
        self.mint_loyalty_tokens(source);
        self.publish(
            Event::MetaFundExecuted {
                asset,
                source,
                target: params.target,
                amount,
                fee: c.fee,
                nonce: params.nonce,
            },
        );
        Ok(())
    }
}

} // verus!
