//! The two fixed-width values that every operation works on: a 20-byte
//! address and a 256-bit unsigned integer, with the big-endian encoding
//! that hashing and parameter encoding read them through.

use vstd::prelude::*;
use vstd::std_specs::cmp::PartialEqSpecImpl;
use vstd::std_specs::convert::FromSpecImpl;

verus! {

/// The `len`-byte big-endian encoding of `n`: the last byte is the least
/// significant one; higher digits that do not fit are dropped.
pub open spec fn be_bytes(n: nat, len: nat) -> Seq<u8>
    decreases len,
{
    if len == 0 {
        Seq::empty()
    } else {
        be_bytes(n / 256, (len - 1) as nat).push((n % 256) as u8)
    }
}

/// The 32-byte big-endian word that holds `n`.
pub open spec fn be_word(n: nat) -> Seq<u8> {
    be_bytes(n, 32)
}

/// `256` to the power `e`.
pub open spec fn pow256(e: nat) -> nat
    decreases e,
{
    if e == 0 {
        1
    } else {
        256 * pow256((e - 1) as nat)
    }
}

/// The number held by four 64-bit limbs, least significant limb first.
pub open spec fn limbs_value(limbs: Seq<u64>) -> nat
    recommends
        limbs.len() == 4,
{
    (limbs[0] as nat) + (limbs[1] as nat) * 0x1_0000_0000_0000_0000nat + (limbs[2] as nat)
        * 0x1_0000_0000_0000_0000_0000_0000_0000_0000nat + (limbs[3] as nat)
        * 0x1_0000_0000_0000_0000_0000_0000_0000_0000_0000_0000_0000_0000nat
}

/// The first number that no `U256` holds, `2^256`.
pub open spec fn u256_bound() -> nat {
    0x1_0000_0000_0000_0000_0000_0000_0000_0000_0000_0000_0000_0000_0000_0000_0000_0000nat
}

/// A big-endian encoding has the length asked for.
pub proof fn lemma_be_bytes_len(n: nat, len: nat)
    ensures
        be_bytes(n, len).len() == len,
    decreases len,
{
    if len > 0 {
        lemma_be_bytes_len(n / 256, (len - 1) as nat);
    }
}

/// The number that `bytes` hold, read big-endian.
pub open spec fn be_value(bytes: Seq<u8>) -> nat
    decreases bytes.len(),
{
    if bytes.len() == 0 {
        0
    } else {
        256 * be_value(bytes.drop_last()) + bytes.last() as nat
    }
}

/// A number below `256^len` is read back from its `len`-byte encoding.
pub proof fn lemma_be_bytes_round_trip(n: nat, len: nat)
    requires
        n < pow256(len),
    ensures
        be_value(be_bytes(n, len)) == n,
    decreases len,
{
    if len > 0 {
        let rest = be_bytes(n / 256, (len - 1) as nat);
        let low = (n % 256) as u8;
        assert(rest.push(low).drop_last() == rest);
        assert(rest.push(low).last() == low);
        lemma_be_bytes_round_trip(n / 256, (len - 1) as nat);
    }
}

/// Two numbers below `256^len` with the same `len`-byte encoding are the
/// same number.
pub proof fn lemma_be_bytes_injective(a: nat, b: nat, len: nat)
    requires
        a < pow256(len),
        b < pow256(len),
        be_bytes(a, len) == be_bytes(b, len),
    ensures
        a == b,
{
    lemma_be_bytes_round_trip(a, len);
    lemma_be_bytes_round_trip(b, len);
}

/// `256^32` is `2^256`.
pub proof fn lemma_pow256_word()
    ensures
        pow256(32) == u256_bound(),
{
    reveal_with_fuel(pow256, 33);
}

/// A number written as `high * base + low` with `low < base` has one
/// such `high` and one such `low`.
pub proof fn lemma_digits_injective(high1: nat, low1: nat, high2: nat, low2: nat, base: nat)
    requires
        low1 < base,
        low2 < base,
        high1 * base + low1 == high2 * base + low2,
    ensures
        high1 == high2,
        low1 == low2,
{
    if high1 < high2 {
        assert((high1 + 1) * base <= high2 * base) by (nonlinear_arith)
            requires
                high1 + 1 <= high2,
        ;
        assert((high1 + 1) * base == high1 * base + base) by (nonlinear_arith);
    } else if high2 < high1 {
        assert((high2 + 1) * base <= high1 * base) by (nonlinear_arith)
            requires
                high2 + 1 <= high1,
        ;
        assert((high2 + 1) * base == high2 * base + base) by (nonlinear_arith);
    }
}

/// A 20-byte account address.
#[derive(Clone, Copy, Debug)]
pub struct Address {
    pub bytes: [u8; 20],
}

impl View for Address {
    type V = Seq<u8>;

    open spec fn view(&self) -> Seq<u8> {
        self.bytes@
    }
}

impl Address {
    /// The address made of the given bytes.
    pub fn new(bytes: [u8; 20]) -> (address: Address)
        ensures
            address.bytes == bytes,
    {
        Address { bytes }
    }

    /// The address whose bytes are those of `bytes`, which must be 20 long.
    pub fn from_slice(bytes: &[u8]) -> (address: Address)
        requires
            bytes@.len() == 20,
        ensures
            address@ == bytes@,
    {
        let mut out = [0u8; 20];
        let mut i: usize = 0;
        while i < 20
            invariant
                i <= 20,
                bytes@.len() == 20,
                forall|k: int| 0 <= k < i ==> out@[k] == bytes@[k],
            decreases 20 - i,
        {
            out[i] = bytes[i];
            i += 1;
        }
        assert(out@ =~= bytes@);
        Address { bytes: out }
    }

    /// The address in the last 20 bytes of a 32-byte word.
    pub fn from_word(word: &[u8; 32]) -> (address: Address)
        ensures
            address@ == word@.subrange(12, 32),
    {
        let mut out = [0u8; 20];
        let mut i: usize = 0;
        while i < 20
            invariant
                i <= 20,
                forall|k: int| 0 <= k < i ==> out@[k] == word@[k + 12],
            decreases 20 - i,
        {
            out[i] = word[i + 12];
            i += 1;
        }
        assert(out@ =~= word@.subrange(12, 32));
        Address { bytes: out }
    }

    /// The 20 bytes of the address.
    pub fn as_bytes(&self) -> (bytes: &[u8])
        ensures
            bytes@ == self@,
    {
        self.bytes.as_slice()
    }

    /// An address is its bytes: equal views mean equal addresses.
    pub proof fn lemma_view_injective(a: Address, b: Address)
        requires
            a@ == b@,
        ensures
            a == b,
    {
        assert(forall|i: int| 0 <= i < 20 ==> a.bytes[i] == a@[i]);
        assert(forall|i: int| 0 <= i < 20 ==> b.bytes[i] == b@[i]);
        assert(a.bytes =~= b.bytes);
    }
}

impl PartialEq for Address {
    fn eq(&self, other: &Address) -> (r: bool) {
        let mut i: usize = 0;
        while i < 20
            invariant
                i <= 20,
                forall|k: int| 0 <= k < i ==> self.bytes@[k] == other.bytes@[k],
            decreases 20 - i,
        {
            if self.bytes[i] != other.bytes[i] {
                return false;
            }
            i += 1;
        }
        assert(self.bytes@ =~= other.bytes@);
        true
    }
}

impl Eq for Address {

}

impl PartialEqSpecImpl for Address {
    open spec fn obeys_eq_spec() -> bool {
        true
    }

    open spec fn eq_spec(&self, other: &Address) -> bool {
        self@ == other@
    }
}

impl From<[u8; 20]> for Address {
    fn from(bytes: [u8; 20]) -> (address: Address) {
        Address { bytes }
    }
}

impl FromSpecImpl<[u8; 20]> for Address {
    open spec fn obeys_from_spec() -> bool {
        true
    }

    open spec fn from_spec(bytes: [u8; 20]) -> Address {
        Address { bytes }
    }
}

/// An unsigned 256-bit integer, held as four 64-bit limbs, least
/// significant limb first.
#[derive(Clone, Copy, Debug)]
pub struct U256 {
    pub limbs: [u64; 4],
}

impl View for U256 {
    type V = nat;

    open spec fn view(&self) -> nat {
        limbs_value(self.limbs@)
    }
}

/// Encodes a 256-bit integer, given by its limbs, with
/// `alloy_primitives::U256::to_be_bytes`.
///
/// Trusted: the 32 bytes returned are taken to be the big-endian encoding
/// of the number that the limbs hold.
#[verifier::external_body]
fn limbs_to_be_bytes(limbs: &[u64; 4]) -> (word: [u8; 32])
    ensures
        word@ == be_word(limbs_value(limbs@)),
{
    alloy_primitives::U256::from_limbs(*limbs).to_be_bytes::<32>()
}

impl U256 {
    /// The integer held by the given limbs, least significant first.
    pub fn from_limbs(limbs: [u64; 4]) -> (value: U256)
        ensures
            value.limbs == limbs,
    {
        U256 { limbs }
    }

    /// The limbs of the integer, least significant first.
    pub fn into_limbs(self) -> (limbs: [u64; 4])
        ensures
            limbs == self.limbs,
    {
        self.limbs
    }

    /// The 32-byte big-endian encoding of the integer.
    pub fn to_be_bytes(&self) -> (word: [u8; 32])
        ensures
            word@ == be_word(self@),
    {
        limbs_to_be_bytes(&self.limbs)
    }

    /// Every `U256` is below `2^256`.
    pub proof fn lemma_view_bound(a: U256)
        ensures
            a@ < u256_bound(),
    {
    }

    /// A `U256` is its number: equal views mean equal values.
    pub proof fn lemma_view_injective(a: U256, b: U256)
        requires
            a@ == b@,
        ensures
            a == b,
    {
        let (a0, a1, a2, a3) = (
            a.limbs@[0] as nat,
            a.limbs@[1] as nat,
            a.limbs@[2] as nat,
            a.limbs@[3] as nat,
        );
        let (b0, b1, b2, b3) = (
            b.limbs@[0] as nat,
            b.limbs@[1] as nat,
            b.limbs@[2] as nat,
            b.limbs@[3] as nat,
        );
        let base: nat = 0x1_0000_0000_0000_0000nat;
        assert(a@ == ((a3 * base + a2) * base + a1) * base + a0) by (nonlinear_arith)
            requires
                a@ == a0 + a1 * 0x1_0000_0000_0000_0000nat + a2
                    * 0x1_0000_0000_0000_0000_0000_0000_0000_0000nat + a3
                    * 0x1_0000_0000_0000_0000_0000_0000_0000_0000_0000_0000_0000_0000nat,
                base == 0x1_0000_0000_0000_0000nat,
        ;
        assert(b@ == ((b3 * base + b2) * base + b1) * base + b0) by (nonlinear_arith)
            requires
                b@ == b0 + b1 * 0x1_0000_0000_0000_0000nat + b2
                    * 0x1_0000_0000_0000_0000_0000_0000_0000_0000nat + b3
                    * 0x1_0000_0000_0000_0000_0000_0000_0000_0000_0000_0000_0000_0000nat,
                base == 0x1_0000_0000_0000_0000nat,
        ;
        lemma_digits_injective((a3 * base + a2) * base + a1, a0, (b3 * base + b2) * base + b1, b0, base);
        lemma_digits_injective(a3 * base + a2, a1, b3 * base + b2, b1, base);
        lemma_digits_injective(a3, a2, b3, b2, base);
        assert(a.limbs =~= b.limbs);
    }

    /// Two `U256` with the same big-endian word are the same value.
    pub proof fn lemma_be_word_injective(a: U256, b: U256)
        requires
            be_word(a@) == be_word(b@),
        ensures
            a == b,
    {
        lemma_pow256_word();
        Self::lemma_view_bound(a);
        Self::lemma_view_bound(b);
        lemma_be_bytes_injective(a@, b@, 32);
        Self::lemma_view_injective(a, b);
    }
}

impl PartialEq for U256 {
    fn eq(&self, other: &U256) -> (r: bool) {
        let r = self.limbs[0] == other.limbs[0] && self.limbs[1] == other.limbs[1]
            && self.limbs[2] == other.limbs[2] && self.limbs[3] == other.limbs[3];
        proof {
            if r {
                assert(self.limbs@ =~= other.limbs@);
            } else {
                if self@ == other@ {
                    Self::lemma_view_injective(*self, *other);
                }
            }
        }
        r
    }
}

impl Eq for U256 {

}

impl PartialEqSpecImpl for U256 {
    open spec fn obeys_eq_spec() -> bool {
        true
    }

    open spec fn eq_spec(&self, other: &U256) -> bool {
        self@ == other@
    }
}

impl From<u64> for U256 {
    fn from(value: u64) -> (out: U256) {
        U256 { limbs: [value, 0, 0, 0] }
    }
}

impl FromSpecImpl<u64> for U256 {
    open spec fn obeys_from_spec() -> bool {
        true
    }

    open spec fn from_spec(value: u64) -> U256 {
        U256 { limbs: [value, 0, 0, 0] }
    }
}

} // verus!
