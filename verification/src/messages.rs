//! What stands where in the byte strings that are hashed and signed, and that no two
//! of them are alike.
use vstd::arithmetic::div_mod::lemma_div_denominator;
use vstd::arithmetic::power::{lemma_pow_positive, pow};
use vstd::prelude::*;

use crate::bytes::{
    be_bytes, be_bytes_len, be_value_of_bytes, bytes32_injective, bytes32_view, pow256,
    twos_complement, Bytes32,
};
use crate::errors::BridgeError;
use crate::hashing::{
    address_hash, commitment_preimage, crosschain_hash, crosschain_message, crosschain_nonce,
    crosschain_preimage, hash_of, meta_fund_hash, meta_fund_message,
};
use crate::host::{sha256_digest, strkey_text};
use crate::types::{Address, MetaFundParams};

verus! {

/// Whether a piece of a byte string is a number, most significant byte first: each
/// byte is the digit of the number to the base of 256 at its place.
pub open spec fn is_number(bytes: Seq<u8>, from: int, to: int, value: int) -> bool {
    forall|i: int|
        from <= i < to ==> #[trigger] bytes[i] as int == (value / pow(256, (to - 1 - i) as nat))
            % 256
}

/// Whether a piece of a byte string is 32 bytes.
pub open spec fn is_hash(bytes: Seq<u8>, from: int, hash: Bytes32) -> bool {
    &&& is_number(bytes, from, from + 16, hash.hi as int)
    &&& is_number(bytes, from + 16, from + 32, hash.lo as int)
}

/// An amount as an unsigned number: what it is up to multiples of 256 to the 16.
pub open spec fn unsigned(amount: i128) -> int {
    amount as int % 0x1_0000_0000_0000_0000_0000_0000_0000_0000int
}

/// The bytes of a number are its digits to the base of 256.
pub proof fn bytes_are_digits(value: nat, width: nat)
    ensures
        be_bytes(value, width).len() == width,
        is_number(be_bytes(value, width), 0, width as int, value as int),
    decreases width,
{
    be_bytes_len(value, width);
    if width > 0 {
        let rest = (width - 1) as nat;
        bytes_are_digits(value / 256, rest);
        let bytes = be_bytes(value, width);
        let high = be_bytes(value / 256, rest);
        be_bytes_len(value / 256, rest);
        assert forall|i: int| 0 <= i < width implies #[trigger] bytes[i] as int == (value as int
            / pow(256, (width - 1 - i) as nat)) % 256 by {
            reveal(pow);
            if i < rest {
                assert(bytes[i] == high[i]);
                let p = pow(256, (rest - 1 - i) as nat);
                lemma_pow_positive(256, (rest - 1 - i) as nat);
                lemma_div_denominator(value as int, 256, p);
                assert(pow(256, (width - 1 - i) as nat) == 256 * p);
            } else {
                assert(pow(256, 0) == 1);
            }
        }
    }
}

/// An amount is written as its two's complement.
pub proof fn amounts_wrap(amount: i128)
    ensures
        twos_complement(amount) == unsigned(amount),
{
}

/// Amounts that are written alike are equal.
proof fn amounts_are_told_apart(a: i128, b: i128)
    requires
        be_bytes(twos_complement(a), 16) == be_bytes(twos_complement(b), 16),
    ensures
        a == b,
{
    assert(pow256(16) == 0x1_0000_0000_0000_0000_0000_0000_0000_0000nat) by {
        reveal_with_fuel(pow256, 17);
    }
    be_value_of_bytes(twos_complement(a), 16);
    be_value_of_bytes(twos_complement(b), 16);
}

/// Numbers of eight bytes that are written alike are equal.
proof fn numbers_are_told_apart(a: u64, b: u64)
    requires
        be_bytes(a as nat, 8) == be_bytes(b as nat, 8),
    ensures
        a == b,
{
    assert(pow256(8) == 0x1_0000_0000_0000_0000nat) by {
        reveal_with_fuel(pow256, 9);
    }
    be_value_of_bytes(a as nat, 8);
    be_value_of_bytes(b as nat, 8);
}

/// Numbers of four bytes that are written alike are equal.
proof fn chains_are_told_apart(a: u32, b: u32)
    requires
        be_bytes(a as nat, 4) == be_bytes(b as nat, 4),
    ensures
        a == b,
{
    assert(pow256(4) == 0x1_0000_0000nat) by {
        reveal_with_fuel(pow256, 5);
    }
    be_value_of_bytes(a as nat, 4);
    be_value_of_bytes(b as nat, 4);
}

/// The bytes of a piece are where the piece stands.
proof fn a_piece_keeps_its_bytes(all: Seq<u8>, from: int, width: nat, value: nat)
    requires
        0 <= from,
        from + width <= all.len(),
        all.subrange(from, from + width) == be_bytes(value, width),
    ensures
        is_number(all, from, from + width, value as int),
{
    bytes_are_digits(value, width);
    let piece = all.subrange(from, from + width);
    assert forall|i: int| from <= i < from + width implies #[trigger] all[i] as int == (value as int
        / pow(256, (from + width - 1 - i) as nat)) % 256 by {
        assert(piece[i - from] == all[i]);
    }
}

/// The bytes of a hash are where the hash stands.
proof fn a_hash_keeps_its_bytes(all: Seq<u8>, from: int, hash: Bytes32)
    requires
        0 <= from,
        from + 32 <= all.len(),
        all.subrange(from, from + 32) == hash@,
    ensures
        is_hash(all, from, hash),
{
    be_bytes_len(hash.hi as nat, 16);
    be_bytes_len(hash.lo as nat, 16);
    let piece = all.subrange(from, from + 32);
    assert(piece.subrange(0, 16) =~= be_bytes(hash.hi as nat, 16));
    assert(piece.subrange(16, 32) =~= be_bytes(hash.lo as nat, 16));
    assert(all.subrange(from, from + 16) =~= piece.subrange(0, 16));
    assert(all.subrange(from + 16, from + 16 + 16) =~= piece.subrange(16, 32));
    a_piece_keeps_its_bytes(all, from, 16, hash.hi as nat);
    a_piece_keeps_its_bytes(all, from + 16, 16, hash.lo as nat);
}

/// Hashes have 32 bytes.
proof fn hashes_have_32_bytes(hash: Bytes32)
    ensures
        hash@.len() == 32,
{
    be_bytes_len(hash.hi as nat, 16);
    be_bytes_len(hash.lo as nat, 16);
}

/// What is hashed for a commitment is the amount in 16 bytes and the nonce in 8; no
/// other amount and nonce give the same.
pub proof fn what_a_commitment_hashes(amount: i128, nonce: u64, amount2: i128, nonce2: u64)
    ensures
        ({
            let m = commitment_preimage(amount, nonce);
            &&& m.len() == 24
            &&& is_number(m, 0, 16, unsigned(amount))
            &&& is_number(m, 16, 24, nonce as int)
            &&& m == commitment_preimage(amount2, nonce2) ==> amount == amount2 && nonce == nonce2
        }),
{
    let m = commitment_preimage(amount, nonce);
    let m2 = commitment_preimage(amount2, nonce2);
    be_bytes_len(twos_complement(amount), 16);
    be_bytes_len(twos_complement(amount2), 16);
    be_bytes_len(nonce as nat, 8);
    be_bytes_len(nonce2 as nat, 8);
    assert(m.subrange(0, 16) =~= be_bytes(twos_complement(amount), 16));
    assert(m.subrange(16, 24) =~= be_bytes(nonce as nat, 8));
    a_piece_keeps_its_bytes(m, 0, 16, twos_complement(amount));
    a_piece_keeps_its_bytes(m, 16, 8, nonce as nat);
    if m == m2 {
        assert(m2.subrange(0, 16) =~= be_bytes(twos_complement(amount2), 16));
        assert(m2.subrange(16, 24) =~= be_bytes(nonce2 as nat, 8));
        amounts_are_told_apart(amount, amount2);
        numbers_are_told_apart(nonce, nonce2);
    }
}

/// What is hashed for the nonce of a cross-chain event is the chain in four bytes and
/// the transaction; no other event gives the same.
pub proof fn what_an_event_hashes(chain: u32, tx: Bytes32, chain2: u32, tx2: Bytes32)
    ensures
        ({
            let m = crosschain_preimage(chain, tx);
            &&& m.len() == 36
            &&& is_number(m, 0, 4, chain as int)
            &&& is_hash(m, 4, tx)
            &&& m == crosschain_preimage(chain2, tx2) ==> chain == chain2 && tx == tx2
        }),
{
    let m = crosschain_preimage(chain, tx);
    let m2 = crosschain_preimage(chain2, tx2);
    be_bytes_len(chain as nat, 4);
    be_bytes_len(chain2 as nat, 4);
    hashes_have_32_bytes(tx);
    hashes_have_32_bytes(tx2);
    assert(m.subrange(0, 4) =~= be_bytes(chain as nat, 4));
    assert(m.subrange(4, 36) =~= tx@);
    a_piece_keeps_its_bytes(m, 0, 4, chain as nat);
    a_hash_keeps_its_bytes(m, 4, tx);
    if m == m2 {
        assert(m2.subrange(0, 4) =~= be_bytes(chain2 as nat, 4));
        assert(m2.subrange(4, 36) =~= tx2@);
        chains_are_told_apart(chain, chain2);
        bytes32_injective(tx, tx2);
    }
}

/// What relayers sign the hash of is, one after the other, the chain, the
/// transaction, the hashes of target and asset, the amount and the nonce; no other
/// transfer gives the same.
pub proof fn what_relayers_sign(
    chain: u32,
    tx: Bytes32,
    target: Bytes32,
    asset: Bytes32,
    amount: i128,
    nonce: Bytes32,
    chain2: u32,
    tx2: Bytes32,
    target2: Bytes32,
    asset2: Bytes32,
    amount2: i128,
    nonce2: Bytes32,
)
    ensures
        ({
            let m = crosschain_message(chain, tx, target, asset, amount, nonce);
            &&& m.len() == 148
            &&& is_number(m, 0, 4, chain as int)
            &&& is_hash(m, 4, tx)
            &&& is_hash(m, 36, target)
            &&& is_hash(m, 68, asset)
            &&& is_number(m, 100, 116, unsigned(amount))
            &&& is_hash(m, 116, nonce)
            &&& m == crosschain_message(chain2, tx2, target2, asset2, amount2, nonce2) ==> {
                &&& chain == chain2
                &&& tx == tx2
                &&& target == target2
                &&& asset == asset2
                &&& amount == amount2
                &&& nonce == nonce2
            }
        }),
{
    let m = crosschain_message(chain, tx, target, asset, amount, nonce);
    let m2 = crosschain_message(chain2, tx2, target2, asset2, amount2, nonce2);
    crosschain_pieces(chain, tx, target, asset, amount, nonce);
    crosschain_pieces(chain2, tx2, target2, asset2, amount2, nonce2);
    a_piece_keeps_its_bytes(m, 0, 4, chain as nat);
    a_hash_keeps_its_bytes(m, 4, tx);
    a_hash_keeps_its_bytes(m, 36, target);
    a_hash_keeps_its_bytes(m, 68, asset);
    a_piece_keeps_its_bytes(m, 100, 16, twos_complement(amount));
    a_hash_keeps_its_bytes(m, 116, nonce);
    if m == m2 {
        chains_are_told_apart(chain, chain2);
        bytes32_injective(tx, tx2);
        bytes32_injective(target, target2);
        bytes32_injective(asset, asset2);
        amounts_are_told_apart(amount, amount2);
        bytes32_injective(nonce, nonce2);
    }
}

/// The pieces of what relayers sign.
proof fn crosschain_pieces(
    chain: u32,
    tx: Bytes32,
    target: Bytes32,
    asset: Bytes32,
    amount: i128,
    nonce: Bytes32,
)
    ensures
        ({
            let m = crosschain_message(chain, tx, target, asset, amount, nonce);
            &&& m.len() == 148
            &&& m.subrange(0, 4) == be_bytes(chain as nat, 4)
            &&& m.subrange(4, 36) == tx@
            &&& m.subrange(36, 68) == target@
            &&& m.subrange(68, 100) == asset@
            &&& m.subrange(100, 116) == be_bytes(twos_complement(amount), 16)
            &&& m.subrange(116, 148) == nonce@
        }),
{
    be_bytes_len(chain as nat, 4);
    be_bytes_len(twos_complement(amount), 16);
    hashes_have_32_bytes(tx);
    hashes_have_32_bytes(target);
    hashes_have_32_bytes(asset);
    hashes_have_32_bytes(nonce);
}

/// What the source of a meta-transaction signs the hash of is, one after the other,
/// the letters `meta_fund`, the hashes of source, target and asset, the amount, the
/// nonce and the deadline; no other transfer gives the same.
pub proof fn what_a_source_signs(
    source: Bytes32,
    target: Bytes32,
    asset: Bytes32,
    amount: i128,
    nonce: u64,
    deadline: u64,
    source2: Bytes32,
    target2: Bytes32,
    asset2: Bytes32,
    amount2: i128,
    nonce2: u64,
    deadline2: u64,
)
    ensures
        ({
            let m = meta_fund_message(source, target, asset, amount, nonce, deadline);
            &&& m.len() == 137
            &&& m.subrange(0, 9) == seq![
                0x6du8,
                0x65u8,
                0x74u8,
                0x61u8,
                0x5fu8,
                0x66u8,
                0x75u8,
                0x6eu8,
                0x64u8,
            ]
            &&& is_hash(m, 9, source)
            &&& is_hash(m, 41, target)
            &&& is_hash(m, 73, asset)
            &&& is_number(m, 105, 121, unsigned(amount))
            &&& is_number(m, 121, 129, nonce as int)
            &&& is_number(m, 129, 137, deadline as int)
            &&& m == meta_fund_message(source2, target2, asset2, amount2, nonce2, deadline2) ==> {
                &&& source == source2
                &&& target == target2
                &&& asset == asset2
                &&& amount == amount2
                &&& nonce == nonce2
                &&& deadline == deadline2
            }
        }),
{
    let m = meta_fund_message(source, target, asset, amount, nonce, deadline);
    let m2 = meta_fund_message(source2, target2, asset2, amount2, nonce2, deadline2);
    meta_fund_pieces(source, target, asset, amount, nonce, deadline);
    meta_fund_pieces(source2, target2, asset2, amount2, nonce2, deadline2);
    a_hash_keeps_its_bytes(m, 9, source);
    a_hash_keeps_its_bytes(m, 41, target);
    a_hash_keeps_its_bytes(m, 73, asset);
    a_piece_keeps_its_bytes(m, 105, 16, twos_complement(amount));
    a_piece_keeps_its_bytes(m, 121, 8, nonce as nat);
    a_piece_keeps_its_bytes(m, 129, 8, deadline as nat);
    if m == m2 {
        bytes32_injective(source, source2);
        bytes32_injective(target, target2);
        bytes32_injective(asset, asset2);
        amounts_are_told_apart(amount, amount2);
        numbers_are_told_apart(nonce, nonce2);
        numbers_are_told_apart(deadline, deadline2);
    }
}

/// The pieces of what the source of a meta-transaction signs.
proof fn meta_fund_pieces(
    source: Bytes32,
    target: Bytes32,
    asset: Bytes32,
    amount: i128,
    nonce: u64,
    deadline: u64,
)
    ensures
        ({
            let m = meta_fund_message(source, target, asset, amount, nonce, deadline);
            &&& m.len() == 137
            &&& m.subrange(0, 9) == seq![
                0x6du8,
                0x65u8,
                0x74u8,
                0x61u8,
                0x5fu8,
                0x66u8,
                0x75u8,
                0x6eu8,
                0x64u8,
            ]
            &&& m.subrange(9, 41) == source@
            &&& m.subrange(41, 73) == target@
            &&& m.subrange(73, 105) == asset@
            &&& m.subrange(105, 121) == be_bytes(twos_complement(amount), 16)
            &&& m.subrange(121, 129) == be_bytes(nonce as nat, 8)
            &&& m.subrange(129, 137) == be_bytes(deadline as nat, 8)
        }),
{
    be_bytes_len(twos_complement(amount), 16);
    be_bytes_len(nonce as nat, 8);
    be_bytes_len(deadline as nat, 8);
    hashes_have_32_bytes(source);
    hashes_have_32_bytes(target);
    hashes_have_32_bytes(asset);
}

/// A hash is the SHA-256 digest of what is hashed, and an address is hashed in its
/// textual form, unless that has more than 64 bytes.
pub proof fn hashes_are_digests(data: Seq<u8>, a: Address)
    ensures
        sha256_digest(data).len() == 32 ==> hash_of(data)@ == sha256_digest(data),
        ({
            let text = strkey_text(a.kind is Contract, a.id@);
            &&& text.len() > 64 ==> address_hash(a) == Err::<Bytes32, _>(
                BridgeError::InvalidAddress,
            )
            &&& text.len() <= 64 ==> address_hash(a) == Ok::<_, BridgeError>(hash_of(text))
        }),
{
    if sha256_digest(data).len() == 32 {
        bytes32_view(sha256_digest(data));
    }
}

/// What is signed is the hash of the message over the addresses' hashes, and, for a
/// cross-chain transfer, over the nonce of the event; where an address has no hash,
/// nothing is signed.
pub proof fn what_is_signed(
    chain: u32,
    tx: Bytes32,
    target: Address,
    asset: Address,
    amount: i128,
    p: MetaFundParams,
)
    ensures
        crosschain_nonce(chain, tx) == hash_of(crosschain_preimage(chain, tx)),
        (address_hash(target), address_hash(asset)) matches (Ok(t), Ok(a)) ==> crosschain_hash(
            chain,
            tx,
            target,
            asset,
            amount,
        ) == Ok::<_, BridgeError>(
            hash_of(
                crosschain_message(
                    chain,
                    tx,
                    t,
                    a,
                    amount,
                    hash_of(crosschain_preimage(chain, tx)),
                ),
            ),
        ),
        address_hash(target) is Err || address_hash(asset) is Err ==> crosschain_hash(
            chain,
            tx,
            target,
            asset,
            amount,
        ) == Err::<Bytes32, _>(BridgeError::InvalidAddress),
        (address_hash(p.source), address_hash(p.target), address_hash(p.asset)) matches (
            Ok(s),
            Ok(t),
            Ok(a),
        ) ==> meta_fund_hash(p) == Ok::<_, BridgeError>(
            hash_of(meta_fund_message(s, t, a, p.amount, p.nonce, p.deadline)),
        ),
        address_hash(p.source) is Err || address_hash(p.target) is Err || address_hash(
            p.asset,
        ) is Err ==> meta_fund_hash(p) == Err::<Bytes32, _>(BridgeError::InvalidAddress),
{
}

} // verus!
