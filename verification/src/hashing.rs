//! The byte strings that are hashed and signed.
use vstd::prelude::*;

use crate::bytes::{be_bytes, be_bytes_len, bytes32, push_be, push_i128, twos_complement, Bytes32};
use crate::errors::BridgeError;
use crate::host::{sha256, sha256_digest, strkey, strkey_text};
use crate::types::{Address, AddressKind, MetaFundParams, MAX_STRKEY_LEN};

verus! {

/// The textual form of an address.
pub open spec fn text_of(a: Address) -> Seq<u8> {
    strkey_text(a.kind is Contract, a.id@)
}

/// The SHA-256 hash of a byte string, packed.
pub open spec fn hash_of(data: Seq<u8>) -> Bytes32 {
    bytes32(sha256_digest(data))
}

/// The hash by which an address stands in a signed message. `InvalidAddress`
/// where its textual form is too long.
pub open spec fn address_hash(a: Address) -> Result<Bytes32, BridgeError> {
    if text_of(a).len() > MAX_STRKEY_LEN {
        Err(BridgeError::InvalidAddress)
    } else {
        Ok(hash_of(text_of(a)))
    }
}

/// What the hash of a commitment is taken of: the amount and a nonce.
pub open spec fn commitment_preimage(amount: i128, nonce: u64) -> Seq<u8> {
    be_bytes(twos_complement(amount), 16) + be_bytes(nonce as nat, 8)
}

/// What the nonce of a cross-chain event is the hash of: the chain and the
/// transaction.
pub open spec fn crosschain_preimage(chain_id: u32, tx_hash: Bytes32) -> Seq<u8> {
    be_bytes(chain_id as nat, 4) + tx_hash@
}

/// What relayers sign the hash of.
pub open spec fn crosschain_message(
    chain_id: u32,
    tx_hash: Bytes32,
    target_hash: Bytes32,
    asset_hash: Bytes32,
    amount: i128,
    nonce: Bytes32,
) -> Seq<u8> {
    be_bytes(chain_id as nat, 4) + tx_hash@ + target_hash@ + asset_hash@ + be_bytes(
        twos_complement(amount),
        16,
    ) + nonce@
}

/// The letters `meta_fund`, which set a signed transfer apart from any other
/// message.
pub open spec fn meta_fund_domain() -> Seq<u8> {
    seq![0x6du8, 0x65u8, 0x74u8, 0x61u8, 0x5fu8, 0x66u8, 0x75u8, 0x6eu8, 0x64u8]
}

/// What the source of a meta-transaction signs the hash of.
pub open spec fn meta_fund_message(
    source_hash: Bytes32,
    target_hash: Bytes32,
    asset_hash: Bytes32,
    amount: i128,
    nonce: u64,
    deadline: u64,
) -> Seq<u8> {
    meta_fund_domain() + source_hash@ + target_hash@ + asset_hash@ + be_bytes(
        twos_complement(amount),
        16,
    ) + be_bytes(nonce as nat, 8) + be_bytes(deadline as nat, 8)
}

/// The hash that the source of a meta-transaction signs.
pub open spec fn meta_fund_hash(p: MetaFundParams) -> Result<Bytes32, BridgeError> {
    match (address_hash(p.source), address_hash(p.target), address_hash(p.asset)) {
        (Ok(source), Ok(target), Ok(asset)) => Ok(
            hash_of(meta_fund_message(source, target, asset, p.amount, p.nonce, p.deadline)),
        ),
        _ => Err(BridgeError::InvalidAddress),
    }
}

/// The nonce of a cross-chain event.
pub open spec fn crosschain_nonce(chain_id: u32, tx_hash: Bytes32) -> Bytes32 {
    hash_of(crosschain_preimage(chain_id, tx_hash))
}

/// The hash that relayers sign.
pub open spec fn crosschain_hash(
    chain_id: u32,
    tx_hash: Bytes32,
    target: Address,
    asset: Address,
    amount: i128,
) -> Result<Bytes32, BridgeError> {
    match (address_hash(target), address_hash(asset)) {
        (Ok(target_hash), Ok(asset_hash)) => Ok(
            hash_of(
                crosschain_message(
                    chain_id,
                    tx_hash,
                    target_hash,
                    asset_hash,
                    amount,
                    crosschain_nonce(chain_id, tx_hash),
                ),
            ),
        ),
        _ => Err(BridgeError::InvalidAddress),
    }
}

/// A packed hash has 32 bytes.
proof fn packed_len(b: Bytes32)
    ensures
        b@.len() == 32,
{
    be_bytes_len(b.hi as nat, 16);
    be_bytes_len(b.lo as nat, 16);
}

/// Computes the SHA-256 hash of `data`.
pub fn hash_bytes(env: &soroban_sdk::Env, data: &Vec<u8>) -> (r: Bytes32)
    requires
        data@.len() <= 1024,
    ensures
        r == hash_of(data@),
        r@ == sha256_digest(data@),
{
    Bytes32::from_array(sha256(env, data.as_slice()))
}

/// Computes the hash by which an address stands in a signed message.
pub fn hash_address(env: &soroban_sdk::Env, a: Address) -> (r: Result<Bytes32, BridgeError>)
    ensures
        r == address_hash(a),
{
    let id: Vec<u8> = a.id.to_vec();
    let contract: bool = match a.kind {
        AddressKind::Account => false,
        AddressKind::Contract => true,
    };
    let text: Vec<u8> = strkey(env, contract, id.as_slice());
    if text.len() > MAX_STRKEY_LEN {
        return Err(BridgeError::InvalidAddress);
    }
    Ok(hash_bytes(env, &text))
}

/// Computes what the hash of a commitment is taken of.
pub fn build_commitment_preimage(amount: i128, nonce: u64) -> (r: Vec<u8>)
    ensures
        r@ == commitment_preimage(amount, nonce),
        r@.len() == 24,
{
    let mut out: Vec<u8> = Vec::new();
    push_i128(&mut out, amount);
    push_be(&mut out, nonce as u128, 8);
    proof {
        be_bytes_len(twos_complement(amount), 16);
        be_bytes_len(nonce as nat, 8);
        assert(out@ =~= commitment_preimage(amount, nonce));
    }
    out
}

/// Computes the hash of a commitment.
pub fn commitment_hash(env: &soroban_sdk::Env, amount: i128, nonce: u64) -> (r: Bytes32)
    ensures
        r == hash_of(commitment_preimage(amount, nonce)),
{
    hash_bytes(env, &build_commitment_preimage(amount, nonce))
}

/// Computes what the nonce of a cross-chain event is the hash of.
pub fn build_crosschain_preimage(chain_id: u32, tx_hash: Bytes32) -> (r: Vec<u8>)
    ensures
        r@ == crosschain_preimage(chain_id, tx_hash),
        r@.len() == 36,
{
    let mut out: Vec<u8> = Vec::new();
    push_be(&mut out, chain_id as u128, 4);
    tx_hash.push_to(&mut out);
    proof {
        be_bytes_len(chain_id as nat, 4);
        packed_len(tx_hash);
        assert(out@ =~= crosschain_preimage(chain_id, tx_hash));
    }
    out
}

/// Computes the nonce of a cross-chain event.
pub fn compute_crosschain_nonce(env: &soroban_sdk::Env, chain_id: u32, tx_hash: Bytes32) -> (r:
    Bytes32)
    ensures
        r == crosschain_nonce(chain_id, tx_hash),
{
    hash_bytes(env, &build_crosschain_preimage(chain_id, tx_hash))
}

/// Computes what relayers sign the hash of.
pub fn build_crosschain_message(
    chain_id: u32,
    tx_hash: Bytes32,
    target_hash: Bytes32,
    asset_hash: Bytes32,
    amount: i128,
    nonce: Bytes32,
) -> (r: Vec<u8>)
    ensures
        r@ == crosschain_message(chain_id, tx_hash, target_hash, asset_hash, amount, nonce),
        r@.len() == 148,
{
    let mut out: Vec<u8> = Vec::new();
    push_be(&mut out, chain_id as u128, 4);
    tx_hash.push_to(&mut out);
    target_hash.push_to(&mut out);
    asset_hash.push_to(&mut out);
    push_i128(&mut out, amount);
    nonce.push_to(&mut out);
    proof {
        be_bytes_len(chain_id as nat, 4);
        packed_len(tx_hash);
        packed_len(target_hash);
        packed_len(asset_hash);
        be_bytes_len(twos_complement(amount), 16);
        packed_len(nonce);
        assert(out@ =~= crosschain_message(
            chain_id,
            tx_hash,
            target_hash,
            asset_hash,
            amount,
            nonce,
        ));
    }
    out
}

/// Computes the hash that relayers sign.
pub fn compute_crosschain_hash(
    env: &soroban_sdk::Env,
    chain_id: u32,
    tx_hash: Bytes32,
    target: Address,
    asset: Address,
    amount: i128,
) -> (r: Result<Bytes32, BridgeError>)
    ensures
        r == crosschain_hash(chain_id, tx_hash, target, asset, amount),
{
    let target_hash: Bytes32 = hash_address(env, target)?;
    let asset_hash: Bytes32 = hash_address(env, asset)?;
    let nonce: Bytes32 = compute_crosschain_nonce(env, chain_id, tx_hash);
    Ok(
        hash_bytes(
            env,
            &build_crosschain_message(chain_id, tx_hash, target_hash, asset_hash, amount, nonce),
        ),
    )
}

/// Computes what the source of a meta-transaction signs the hash of.
pub fn build_meta_fund_message(
    source_hash: Bytes32,
    target_hash: Bytes32,
    asset_hash: Bytes32,
    amount: i128,
    nonce: u64,
    deadline: u64,
) -> (r: Vec<u8>)
    ensures
        r@ == meta_fund_message(source_hash, target_hash, asset_hash, amount, nonce, deadline),
        r@.len() == 137,
{
    let mut out: Vec<u8> = vec![
        0x6du8,
        0x65u8,
        0x74u8,
        0x61u8,
        0x5fu8,
        0x66u8,
        0x75u8,
        0x6eu8,
        0x64u8,
    ];
    assert(out@ =~= meta_fund_domain());
    source_hash.push_to(&mut out);
    target_hash.push_to(&mut out);
    asset_hash.push_to(&mut out);
    push_i128(&mut out, amount);
    push_be(&mut out, nonce as u128, 8);
    push_be(&mut out, deadline as u128, 8);
    proof {
        packed_len(source_hash);
        packed_len(target_hash);
        packed_len(asset_hash);
        be_bytes_len(twos_complement(amount), 16);
        be_bytes_len(nonce as nat, 8);
        be_bytes_len(deadline as nat, 8);
        assert(out@ =~= meta_fund_message(
            source_hash,
            target_hash,
            asset_hash,
            amount,
            nonce,
            deadline,
        ));
    }
    out
}

/// Computes the hash that the source of a meta-transaction signs.
pub fn compute_meta_fund_hash(env: &soroban_sdk::Env, params: MetaFundParams) -> (r: Result<
    Bytes32,
    BridgeError,
>)
    ensures
        r == meta_fund_hash(params),
{
    let source_hash: Bytes32 = hash_address(env, params.source)?;
    let target_hash: Bytes32 = hash_address(env, params.target)?;
    let asset_hash: Bytes32 = hash_address(env, params.asset)?;
    Ok(
        hash_bytes(
            env,
            &build_meta_fund_message(
                source_hash,
                target_hash,
                asset_hash,
                params.amount,
                params.nonce,
                params.deadline,
            ),
        ),
    )
}

} // verus!
