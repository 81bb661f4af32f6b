//! What the bridge has from the Soroban SDK.
//!
//! The contracts of the functions that call the SDK are not proved: they say what
//! the SDK and the host behind it do.
use vstd::prelude::*;

use crate::bytes::Bytes32;
use crate::types::{Address, AddressKind};

verus! {

/// The handle to the host, `soroban_sdk::Env`. It is only passed on.
#[verifier::external_type_specification]
#[verifier::external_body]
pub struct ExEnv(soroban_sdk::Env);

/// The ordered map of the host, `soroban_sdk::Map`. A value of it refers to an
/// object of the host that never changes, so what it holds is a function of it.
#[verifier::external_type_specification]
#[verifier::external_body]
#[verifier::reject_recursive_types(K)]
#[verifier::reject_recursive_types(V)]
pub struct ExMap<K, V>(soroban_sdk::Map<K, V>);

/// The SHA-256 hash of a byte string, as `soroban_sdk::crypto::Crypto::sha256`
/// computes it.
pub uninterp spec fn sha256_digest(data: Seq<u8>) -> Seq<u8>;

/// The textual form of an account or a contract, as
/// `soroban_sdk::Address::to_string` gives it.
pub uninterp spec fn strkey_text(contract: bool, id: Seq<u8>) -> Seq<u8>;

/// The pairs that a map of flags holds.
pub uninterp spec fn flags(m: soroban_sdk::Map<(u32, u128, u128), bool>) -> Map<
    (u32, u128, u128),
    bool,
>;

/// The pairs that a map of amounts holds.
pub uninterp spec fn amounts_by_key(m: soroban_sdk::Map<(u32, u128, u128), i128>) -> Map<
    (u32, u128, u128),
    i128,
>;

/// The key under which an address stands in a map of the host. Keys are
/// ordered as the addresses are: accounts first, then by the bytes of the id.
pub open spec fn key_of(a: Address) -> (u32, u128, u128) {
    (
        match a.kind {
            AddressKind::Account => 0u32,
            AddressKind::Contract => 1u32,
        },
        a.id.hi,
        a.id.lo,
    )
}

/// The address that stands under a key.
pub open spec fn address_of(k: (u32, u128, u128)) -> Address {
    Address {
        kind: if k.0 == 0 {
            AddressKind::Account
        } else {
            AddressKind::Contract
        },
        id: Bytes32 { hi: k.1, lo: k.2 },
    }
}

/// Whether the key `a` comes before the key `b`.
pub open spec fn key_before(a: (u32, u128, u128), b: (u32, u128, u128)) -> bool {
    ||| a.0 < b.0
    ||| a.0 == b.0 && a.1 < b.1
    ||| a.0 == b.0 && a.1 == b.1 && a.2 < b.2
}

/// Addresses with the same key are equal.
pub proof fn address_of_key(a: Address)
    ensures
        address_of(key_of(a)) == a,
{
}

/// The key under which `a` stands in a map of the host.
pub fn map_key(a: Address) -> (k: (u32, u128, u128))
    ensures
        k == key_of(a),
{
    let kind: u32 = match a.kind {
        AddressKind::Account => 0,
        AddressKind::Contract => 1,
    };
    (kind, a.id.hi, a.id.lo)
}

/// The address that stands under the key `k`.
pub fn key_address(k: (u32, u128, u128)) -> (a: Address)
    ensures
        a == address_of(k),
{
    let kind = if k.0 == 0 {
        AddressKind::Account
    } else {
        AddressKind::Contract
    };
    Address { kind, id: Bytes32 { hi: k.1, lo: k.2 } }
}

/// `soroban_sdk::crypto::Crypto::sha256`: the SHA-256 hash of `data`. The length
/// is kept far below what the host can hold in one object.
#[verifier::external_body]
pub(crate) fn sha256(env: &soroban_sdk::Env, data: &[u8]) -> (digest: [u8; 32])
    requires
        data@.len() <= 1024,
    ensures
        digest@ == sha256_digest(data@),
{
    env.crypto().sha256(&soroban_sdk::Bytes::from_slice(env, data)).to_array()
}

/// `soroban_sdk::Address::to_string`: the textual form of the contract or account
/// with the 32 bytes `id`.
#[verifier::external_body]
pub(crate) fn strkey(env: &soroban_sdk::Env, contract: bool, id: &[u8]) -> (text: Vec<u8>)
    requires
        id@.len() == 32,
    ensures
        text@ == strkey_text(contract, id@),
{
    let id = soroban_sdk::BytesN::try_from(&soroban_sdk::Bytes::from_slice(env, id)).unwrap();
    let payload = match contract {
        false => soroban_sdk::address_payload::AddressPayload::AccountIdPublicKeyEd25519(id),
        true => soroban_sdk::address_payload::AddressPayload::ContractIdHash(id),
    };
    let address = soroban_sdk::Address::from_payload(env, payload);
    address.to_string().to_bytes().iter().collect()
}

/// `soroban_sdk::Map::new`: a map that holds nothing.
#[verifier::external_body]
pub(crate) fn flags_new(env: &soroban_sdk::Env) -> (m: soroban_sdk::Map<(u32, u128, u128), bool>)
    ensures
        (flags(m) == Map::<(u32, u128, u128), bool>::empty()),
{
    soroban_sdk::Map::new(env)
}

/// `soroban_sdk::Map::get`: the flag at the key `k`, if there is one.
#[verifier::external_body]
pub(crate) fn flags_get(
    m: &soroban_sdk::Map<(u32, u128, u128), bool>,
    k: (u32, u128, u128),
) -> (r: Option<bool>)
    ensures
        r == (if flags(*m).contains_key(k) {
            Some(flags(*m)[k])
        } else {
            None
        }),
{
    m.get(k)
}

/// `soroban_sdk::Map::set`: puts a flag at the key `k`, in place of one that was
/// there.
#[verifier::external_body]
pub(crate) fn flags_set(
    m: &mut soroban_sdk::Map<(u32, u128, u128), bool>,
    k: (u32, u128, u128),
    v: bool,
)
    ensures
        flags(*final(m)) == flags(*old(m)).insert(k, v),
{
    m.set(k, v);
}

/// `soroban_sdk::Map::remove`: takes away the flag at the key `k`, if there is
/// one.
#[verifier::external_body]
pub(crate) fn flags_remove(
    m: &mut soroban_sdk::Map<(u32, u128, u128), bool>,
    k: (u32, u128, u128),
)
    ensures
        flags(*final(m)) == flags(*old(m)).remove(k),
{
    m.remove(k);
}

/// `soroban_sdk::Map::keys`: every key of the map once, in ascending order.
#[verifier::external_body]
pub(crate) fn flags_keys(m: &soroban_sdk::Map<(u32, u128, u128), bool>) -> (keys: Vec<
    (u32, u128, u128),
>)
    ensures
        forall|k: (u32, u128, u128)| keys@.contains(k) <==> flags(*m).contains_key(k),
        forall|i: int, j: int| 0 <= i < j < keys@.len() ==> key_before(keys@[i], keys@[j]),
{
    m.keys().iter().collect()
}

/// `soroban_sdk::Map::new`: a map that holds nothing.
#[verifier::external_body]
pub(crate) fn amounts_new(env: &soroban_sdk::Env) -> (m: soroban_sdk::Map<
    (u32, u128, u128),
    i128,
>)
    ensures
        (amounts_by_key(m) == Map::<(u32, u128, u128), i128>::empty()),
{
    soroban_sdk::Map::new(env)
}

/// `soroban_sdk::Map::set`: puts an amount at the key `k`, in place of one that
/// was there.
#[verifier::external_body]
pub(crate) fn amounts_set(
    m: &mut soroban_sdk::Map<(u32, u128, u128), i128>,
    k: (u32, u128, u128),
    v: i128,
)
    ensures
        amounts_by_key(*final(m)) == amounts_by_key(*old(m)).insert(k, v),
{
    m.set(k, v);
}

} // verus!
