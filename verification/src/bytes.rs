//! Big-endian byte strings of integers, and 32-byte strings as integers.
use vstd::prelude::*;

verus! {

/// The `width` lowest bytes of `value`, most significant first.
pub open spec fn be_bytes(value: nat, width: nat) -> Seq<u8>
    decreases width,
{
    if width == 0 {
        Seq::empty()
    } else {
        be_bytes(value / 256, (width - 1) as nat).push((value % 256) as u8)
    }
}

/// The number that a byte string stands for, most significant byte first.
pub open spec fn be_value(bytes: Seq<u8>) -> nat
    decreases bytes.len(),
{
    if bytes.len() == 0 {
        0
    } else {
        be_value(bytes.drop_last()) * 256 + bytes.last() as nat
    }
}

/// The two's complement of a value of `i128`, as an unsigned number.
pub open spec fn twos_complement(value: i128) -> nat {
    if value >= 0 {
        value as nat
    } else {
        (value + 0x1_0000_0000_0000_0000_0000_0000_0000_0000int) as nat
    }
}

/// `256` to the power of `n`.
pub open spec fn pow256(n: nat) -> nat
    decreases n,
{
    if n == 0 {
        1
    } else {
        256 * pow256((n - 1) as nat)
    }
}

/// A byte string has as many bytes as was asked for.
pub proof fn be_bytes_len(value: nat, width: nat)
    ensures
        be_bytes(value, width).len() == width,
    decreases width,
{
    if width > 0 {
        be_bytes_len(value / 256, (width - 1) as nat);
    }
}

/// A byte string of `n` bytes stands for a number below `256` to the `n`.
pub proof fn be_value_bound(bytes: Seq<u8>)
    ensures
        be_value(bytes) < pow256(bytes.len()),
    decreases bytes.len(),
{
    if bytes.len() > 0 {
        be_value_bound(bytes.drop_last());
    }
}

/// Writing out the number that a byte string stands for gives the string back.
pub proof fn be_bytes_of_value(bytes: Seq<u8>)
    ensures
        be_bytes(be_value(bytes), bytes.len()) == bytes,
    decreases bytes.len(),
{
    if bytes.len() > 0 {
        be_bytes_of_value(bytes.drop_last());
        let high = be_value(bytes.drop_last());
        assert((high * 256 + bytes.last() as nat) / 256 == high);
        assert((high * 256 + bytes.last() as nat) % 256 == bytes.last() as nat);
        assert(bytes.drop_last().push(bytes.last()) =~= bytes);
    }
}

/// Reading a byte string back gives the number, where the number fits in it.
pub proof fn be_value_of_bytes(value: nat, width: nat)
    requires
        value < pow256(width),
    ensures
        be_value(be_bytes(value, width)) == value,
    decreases width,
{
    if width > 0 {
        be_value_of_bytes(value / 256, (width - 1) as nat);
        let bytes = be_bytes(value, width);
        assert(bytes.drop_last() =~= be_bytes(value / 256, (width - 1) as nat));
    }
}

/// Appends the `width` lowest bytes of `value`, most significant first.
pub fn push_be(out: &mut Vec<u8>, value: u128, width: usize)
    ensures
        final(out)@ == old(out)@ + be_bytes(value as nat, width as nat),
    decreases width,
{
    if width > 0 {
        push_be(out, value / 256, width - 1);
        out.push((value % 256) as u8);
    }
}

/// Appends the 16 bytes of the two's complement of `value`.
pub fn push_i128(out: &mut Vec<u8>, value: i128)
    ensures
        final(out)@ == old(out)@ + be_bytes(twos_complement(value), 16),
{
    let unsigned: u128 = if value >= 0 {
        value as u128
    } else {
        (value - i128::MIN) as u128 + 0x8000_0000_0000_0000_0000_0000_0000_0000u128
    };
    push_be(out, unsigned, 16);
}

/// The number that 16 bytes of `bytes`, from `start` on, stand for.
fn read_u128(bytes: &[u8; 32], start: usize) -> (value: u128)
    requires
        start + 16 <= 32,
    ensures
        value == be_value(bytes@.subrange(start as int, start + 16)),
{
    let mut value: u128 = 0;
    let mut i: usize = 0;
    while i < 16
        invariant
            i <= 16,
            start + 16 <= 32,
            value == be_value(bytes@.subrange(start as int, start + i)),
        decreases 16 - i,
    {
        let ghost read = bytes@.subrange(start as int, start + i);
        let ghost next = bytes@.subrange(start as int, start + i + 1);
        proof {
            assert(next.drop_last() =~= read);
            be_value_bound(next);
            assert(pow256((i + 1) as nat) <= pow256(16)) by {
                pow256_monotonic((i + 1) as nat, 16);
            }
            assert(pow256(16) == 0x1_0000_0000_0000_0000_0000_0000_0000_0000nat) by {
                reveal_with_fuel(pow256, 17);
            }
        }
        value = value * 256 + bytes[start + i] as u128;
        i = i + 1;
    }
    value
}

/// A larger exponent gives a larger power.
proof fn pow256_monotonic(a: nat, b: nat)
    requires
        a <= b,
    ensures
        pow256(a) <= pow256(b),
    decreases b - a,
{
    if a < b {
        pow256_monotonic(a, (b - 1) as nat);
    }
}

/// A string of 32 bytes (a hash, a public key), kept as its two halves.
#[derive(Clone, Copy, Debug, PartialEq, Eq, Structural)]
pub struct Bytes32 {
    /// The number that the first 16 bytes stand for.
    pub hi: u128,
    /// The number that the last 16 bytes stand for.
    pub lo: u128,
}

impl View for Bytes32 {
    type V = Seq<u8>;

    /// The 32 bytes themselves.
    open spec fn view(&self) -> Seq<u8> {
        be_bytes(self.hi as nat, 16) + be_bytes(self.lo as nat, 16)
    }
}

/// The value whose bytes are `bytes`, which are 32.
pub open spec fn bytes32(bytes: Seq<u8>) -> Bytes32 {
    Bytes32 {
        hi: be_value(bytes.subrange(0, 16)) as u128,
        lo: be_value(bytes.subrange(16, 32)) as u128,
    }
}

/// Packing 32 bytes loses nothing.
pub proof fn bytes32_view(bytes: Seq<u8>)
    requires
        bytes.len() == 32,
    ensures
        bytes32(bytes)@ == bytes,
{
    let first = bytes.subrange(0, 16);
    let last = bytes.subrange(16, 32);
    be_value_bound(first);
    be_value_bound(last);
    assert(pow256(16) == 0x1_0000_0000_0000_0000_0000_0000_0000_0000nat) by {
        reveal_with_fuel(pow256, 17);
    }
    be_bytes_of_value(first);
    be_bytes_of_value(last);
    assert(first + last =~= bytes);
}

/// Two values with the same 32 bytes are equal.
pub proof fn bytes32_injective(a: Bytes32, b: Bytes32)
    requires
        a@ == b@,
    ensures
        a == b,
{
    assert(pow256(16) == 0x1_0000_0000_0000_0000_0000_0000_0000_0000nat) by {
        reveal_with_fuel(pow256, 17);
    }
    be_value_of_bytes(a.hi as nat, 16);
    be_value_of_bytes(a.lo as nat, 16);
    be_value_of_bytes(b.hi as nat, 16);
    be_value_of_bytes(b.lo as nat, 16);
    be_bytes_len(a.hi as nat, 16);
    be_bytes_len(a.lo as nat, 16);
    be_bytes_len(b.hi as nat, 16);
    be_bytes_len(b.lo as nat, 16);
    assert(a@.subrange(0, 16) =~= be_bytes(a.hi as nat, 16));
    assert(b@.subrange(0, 16) =~= be_bytes(b.hi as nat, 16));
    assert(a@.subrange(16, 32) =~= be_bytes(a.lo as nat, 16));
    assert(b@.subrange(16, 32) =~= be_bytes(b.lo as nat, 16));
}

impl Bytes32 {
    /// Packs 32 bytes.
    pub fn from_array(bytes: [u8; 32]) -> (r: Bytes32)
        ensures
            r == bytes32(bytes@),
            r@ == bytes@,
    {
        let hi: u128 = read_u128(&bytes, 0);
        let lo: u128 = read_u128(&bytes, 16);
        proof {
            bytes32_view(bytes@);
        }
        Bytes32 { hi, lo }
    }

    /// Appends the 32 bytes to `out`.
    pub fn push_to(&self, out: &mut Vec<u8>)
        ensures
            final(out)@ == old(out)@ + self@,
    {
        push_be(out, self.hi, 16);
        push_be(out, self.lo, 16);
        assert(out@ =~= old(out)@ + self@);
    }

    /// The 32 bytes.
    pub fn to_vec(&self) -> (r: Vec<u8>)
        ensures
            r@ == self@,
            r@.len() == 32,
    {
        let mut out: Vec<u8> = Vec::new();
        self.push_to(&mut out);
        proof {
            be_bytes_len(self.hi as nat, 16);
            be_bytes_len(self.lo as nat, 16);
            assert(out@ =~= self@);
        }
        out
    }
}

/// An Ed25519 signature: the 64 bytes of a point and a scalar.
#[derive(Clone, Copy, Debug, PartialEq, Eq, Structural)]
pub struct Signature {
    /// The first 32 bytes.
    pub r: Bytes32,
    /// The last 32 bytes.
    pub s: Bytes32,
}

} // verus!
