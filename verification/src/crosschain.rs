//! Funding an address from another chain, on the word of the relayers.
use vstd::prelude::*;

use crate::actions::{Action, Event};
use crate::books::credited;
use crate::bytes::Bytes32;
use crate::errors::BridgeError;
use crate::fees::Charge;
use crate::hashing::{
    compute_crosschain_hash, compute_crosschain_nonce, crosschain_hash, crosschain_nonce,
};
use crate::state::{first, refuse_if, value_or, verdict, BridgeState, OnboardingBridge};
use crate::types::{Address, AssetCounters, RelayerSig};

verus! {

impl BridgeState {
    /// Whether a cross-chain event has been processed.
    pub open spec fn crosschain_done(self, nonce: Bytes32) -> bool {
        value_or(self.cross_chain_nonce, nonce, false)
    }
}

/// Whether the key of the signature at `n` occurs before it.
pub open spec fn signed_before(sigs: Seq<RelayerSig>, n: int) -> bool {
    exists|j: int| 0 <= j < n && (#[trigger] sigs[j]).pubkey == sigs[n].pubkey
}

/// Why the first `n` signatures are refused: the first that is not a relayer's,
/// or that repeats one, decides.
pub open spec fn signers_error(s: BridgeState, sigs: Seq<RelayerSig>, n: nat) -> Option<BridgeError>
    decreases n,
{
    if n == 0 {
        None
    } else {
        first(
            signers_error(s, sigs, (n - 1) as nat),
            first(
                refuse_if(!s.is_relayer(sigs[n - 1].pubkey), BridgeError::NotRelayer),
                refuse_if(signed_before(sigs, n - 1), BridgeError::DuplicateRelayerSignature),
            ),
        )
    }
}

/// The requests to verify every signature.
pub open spec fn verifications(sigs: Seq<RelayerSig>, message: Bytes32) -> Seq<Action> {
    Seq::new(
        sigs.len(),
        |i: int|
            Action::VerifySignature {
                pubkey: sigs[i].pubkey,
                message,
                signature: sigs[i].signature,
            },
    )
}

/// Why a cross-chain transfer is refused. `nonce` identifies the event, and
/// `payload` is the hash that the relayers had to sign, or why there is none.
pub open spec fn crosschain_error(
    s: BridgeState,
    target: Address,
    asset: Address,
    amount: i128,
    sigs: Seq<RelayerSig>,
    nonce: Bytes32,
    payload: Result<Bytes32, BridgeError>,
) -> Option<BridgeError> {
    first(
        s.running_error(),
        first(
            refuse_if(amount <= 0, BridgeError::InvalidAmount),
            first(
                s.access_error(target),
                first(
                    s.asset_error(asset),
                    first(
                        refuse_if(s.crosschain_done(nonce), BridgeError::ReplayedNonce),
                        first(
                            signers_error(s, sigs, sigs.len()),
                            first(
                                refuse_if(
                                    sigs.len() < s.relayer_threshold(),
                                    BridgeError::BelowThreshold,
                                ),
                                match payload {
                                    Err(e) => Some(e),
                                    Ok(_) => match s.flat_charge(asset, amount) {
                                        Err(e) => Some(e),
                                        Ok(c) => refuse_if(
                                            credited(
                                                s.counters_of(asset),
                                                c.fee as int,
                                                c.net as int,
                                                c.fee as int,
                                            ) is Err,
                                            BridgeError::Overflow,
                                        ),
                                    },
                                },
                            ),
                        ),
                    ),
                ),
            ),
        ),
    )
}

/// The books after a cross-chain transfer.
pub open spec fn crosschain_effect(
    s: BridgeState,
    chain_id: u32,
    tx_hash: Bytes32,
    target: Address,
    asset: Address,
    amount: i128,
    sigs: Seq<RelayerSig>,
    nonce: Bytes32,
    payload: Bytes32,
) -> BridgeState {
    let c = s.flat_charge(asset, amount)->Ok_0;
    BridgeState {
        cross_chain_nonce: s.cross_chain_nonce.insert(nonce, true),
        ..s
    }.with_counters(
        asset,
        credited(s.counters_of(asset), c.fee as int, c.net as int, c.fee as int)->Ok_0,
    )
        .act_all(verifications(sigs, payload))
        .pay_out(asset, target, c.net)
        .keep_alive()
        .reward(target)
        .publish(Event::CrossChainFunded { target, chain_id, tx_hash, amount, fee: c.fee, asset })
}

impl OnboardingBridge {
    /// Fails where a signature is not a relayer's, or repeats one.
    fn check_signers(&self, sigs: &Vec<RelayerSig>) -> (r: Result<(), BridgeError>)
        ensures
            r == verdict(signers_error(self@, sigs@, sigs@.len())),
    {
        let mut i: usize = 0;
        while i < sigs.len()
            invariant
                i <= sigs@.len(),
                signers_error(self@, sigs@, i as nat) is None,
            decreases sigs@.len() - i,
        {
            let pubkey: Bytes32 = sigs[i].pubkey;
            let mut repeated: bool = false;
            let mut j: usize = 0;
            while j < i
                invariant
                    j <= i < sigs@.len(),
                    pubkey == sigs@[i as int].pubkey,
                    repeated == (exists|k: int|
                        0 <= k < j && (#[trigger] sigs@[k]).pubkey == pubkey),
                decreases i - j,
            {
                if sigs[j].pubkey == pubkey {
                    assert(sigs@[j as int].pubkey == pubkey);
                    repeated = true;
                }
                j = j + 1;
            }
            assert(repeated == signed_before(sigs@, i as int));
            let registered: bool = self.read_is_relayer(pubkey);
            if !registered || repeated {
                let e: BridgeError = if !registered {
                    BridgeError::NotRelayer
                } else {
                    BridgeError::DuplicateRelayerSignature
                };
                proof {
                    assert(signers_error(self@, sigs@, (i + 1) as nat) == Some(e));
                    signers_error_stays(self@, sigs@, (i + 1) as nat, sigs@.len());
                }
                return Err(e);
            }
            i = i + 1;
        }
        Ok(())
    }

    /// Credits `target` with what arrived on another chain, less the fee, if
    /// enough relayers have signed for it.
    pub fn fund_c_address_crosschain(
        &mut self,
        env: &soroban_sdk::Env,
        chain_id: u32,
        tx_hash: Bytes32,
        target: Address,
        asset: Address,
        amount: i128,
        sigs: &Vec<RelayerSig>,
    ) -> (r: Result<(), BridgeError>)
        requires
            old(self)@.wf(),
        ensures
            r == verdict(
                crosschain_error(
                    old(self)@,
                    target,
                    asset,
                    amount,
                    sigs@,
                    crosschain_nonce(chain_id, tx_hash),
                    crosschain_hash(chain_id, tx_hash, target, asset, amount),
                ),
            ),
            final(self)@ == (if r is Ok {
                crosschain_effect(
                    old(self)@,
                    chain_id,
                    tx_hash,
                    target,
                    asset,
                    amount,
                    sigs@,
                    crosschain_nonce(chain_id, tx_hash),
                    crosschain_hash(chain_id, tx_hash, target, asset, amount)->Ok_0,
                )
            } else {
                old(self)@
            }),
            final(self)@.wf(),
    {
        let nonce: Bytes32 = compute_crosschain_nonce(env, chain_id, tx_hash);
        let payload: Result<Bytes32, BridgeError> = compute_crosschain_hash(
            env,
            chain_id,
            tx_hash,
            target,
            asset,
            amount,
        );
        self.fund_attested(chain_id, tx_hash, target, asset, amount, sigs, nonce, payload)
    }

    /// Credits `target` with what arrived on another chain, given the nonce of the
    /// event and the hash that the relayers had to sign, or why there is none.
    pub fn fund_attested(
        &mut self,
        chain_id: u32,
        tx_hash: Bytes32,
        target: Address,
        asset: Address,
        amount: i128,
        sigs: &Vec<RelayerSig>,
        nonce: Bytes32,
        payload: Result<Bytes32, BridgeError>,
    ) -> (r: Result<(), BridgeError>)
        requires
            old(self)@.wf(),
        ensures
            r == verdict(
                crosschain_error(old(self)@, target, asset, amount, sigs@, nonce, payload),
            ),
            final(self)@ == (if r is Ok {
                crosschain_effect(
                    old(self)@,
                    chain_id,
                    tx_hash,
                    target,
                    asset,
                    amount,
                    sigs@,
                    nonce,
                    payload->Ok_0,
                )
            } else {
                old(self)@
            }),
            final(self)@.wf(),
    {
        self.check_running()?;
        if amount <= 0 {
            return Err(BridgeError::InvalidAmount);
        }
        self.check_access(target)?;
        self.check_asset_whitelisted(asset)?;
        let done: bool = match self.cross_chain_nonce.get(nonce) {
            Some(done) => done,
            None => false,
        };
        if done {
            return Err(BridgeError::ReplayedNonce);
        }
        self.check_signers(sigs)?;
        if (sigs.len() as u64) < self.read_relayer_threshold() as u64 {
            return Err(BridgeError::BelowThreshold);
        }
        let message: Bytes32 = match payload {
            Ok(hash) => hash,
            Err(e) => {
                return Err(e);
            },
        };
        let c: Charge = self.flat_charge(asset, amount)?;
        let counters: AssetCounters = self.credit(asset, c.fee, c.net, c.fee)?;
        self.cross_chain_nonce.set(nonce, true);
        self.save_asset_counters(asset, counters);
        self.ask_verifications(sigs, message);
        self.pay_out(asset, target, c.net);
        self.keep_alive();
        self.mint_loyalty_tokens(target);
        self.publish(
            Event::CrossChainFunded { target, chain_id, tx_hash, amount, fee: c.fee, asset },
        );
        Ok(())
    }

    /// Asks for every signature to be verified.
    fn ask_verifications(&mut self, sigs: &Vec<RelayerSig>, message: Bytes32)
        ensures
            final(self)@ == old(self)@.act_all(verifications(sigs@, message)),
    {
        let mut i: usize = 0;
        assert(self@.actions =~= old(self)@.actions + verifications(sigs@, message).take(0));
        while i < sigs.len()
            invariant
                i <= sigs@.len(),
                self@ == old(self)@.act_all(verifications(sigs@, message).take(i as int)),
            decreases sigs@.len() - i,
        {
            let sig: RelayerSig = sigs[i];
            self.act(
                Action::VerifySignature {
                    pubkey: sig.pubkey,
                    message,
                    signature: sig.signature,
                },
            );
            i = i + 1;
            assert(self@.actions =~= old(self)@.actions + verifications(sigs@, message).take(
                i as int,
            ));
        }
        assert(verifications(sigs@, message).take(i as int) =~= verifications(sigs@, message));
    }
}

/// A refusal of the first signatures is a refusal of all.
proof fn signers_error_stays(s: BridgeState, sigs: Seq<RelayerSig>, m: nat, n: nat)
    requires
        m <= n,
        signers_error(s, sigs, m) is Some,
    ensures
        signers_error(s, sigs, n) == signers_error(s, sigs, m),
    decreases n - m,
{
    if m < n {
        signers_error_stays(s, sigs, m, (n - 1) as nat);
    }
}

} // verus!
