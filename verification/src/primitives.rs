//! Plain-value forms of the EVM words that the contracts read and write:
//! 256-bit unsigned integers, 20-byte addresses and 32-byte hashes, with the
//! keccak-256 digest and the 256-bit ring operations delegated to
//! `alloy_primitives`.
use vstd::prelude::*;

verus! {

broadcast use vstd::array::group_array_axioms;

/// 2^64, the weight of one limb.
pub open spec fn limb_base() -> nat {
    0x1_0000_0000_0000_0000
}

/// 2^256, the modulus of the EVM word ring.
pub open spec fn word_modulus() -> nat {
    0x1_0000_0000_0000_0000_0000_0000_0000_0000_0000_0000_0000_0000_0000_0000_0000_0000_0000_0000nat
}

/// Big-endian encoding of `n` on exactly `len` bytes (higher bytes of `n` dropped).
pub open spec fn be_bytes(n: nat, len: nat) -> Seq<u8>
    decreases len,
{
    if len == 0 {
        Seq::empty()
    } else {
        be_bytes(n / 256, (len - 1) as nat).push((n % 256) as u8)
    }
}

/// The number that a big-endian byte string denotes.
pub open spec fn be_value(bytes: Seq<u8>) -> nat
    decreases bytes.len(),
{
    if bytes.len() == 0 {
        0
    } else {
        (be_value(bytes.drop_last()) * 256 + bytes.last()) as nat
    }
}

/// A 256-bit unsigned integer: four 64-bit limbs, least significant first.
#[derive(Clone, Copy, Debug, PartialEq, Eq, Structural)]
pub struct U256 {
    pub limb0: u64,
    pub limb1: u64,
    pub limb2: u64,
    pub limb3: u64,
}

impl View for U256 {
    type V = nat;

    open spec fn view(&self) -> nat {
        self.limb0 as nat + limb_base() * (self.limb1 as nat + limb_base() * (self.limb2 as nat
            + limb_base() * self.limb3 as nat))
    }
}

impl U256 {
    /// The limbs, least significant first.
    pub fn from_limbs(limbs: [u64; 4]) -> (r: U256)
        ensures
            r.limb0 == limbs@[0],
            r.limb1 == limbs@[1],
            r.limb2 == limbs@[2],
            r.limb3 == limbs@[3],
    {
        U256 { limb0: limbs[0], limb1: limbs[1], limb2: limbs[2], limb3: limbs[3] }
    }

    /// The limbs, least significant first.
    pub fn as_limbs(&self) -> (r: [u64; 4])
        ensures
            r@ == seq![self.limb0, self.limb1, self.limb2, self.limb3],
    {
        let r = [self.limb0, self.limb1, self.limb2, self.limb3];
        assert(r@ =~= seq![self.limb0, self.limb1, self.limb2, self.limb3]);
        r
    }

    pub fn zero() -> (r: U256)
        ensures
            r@ == 0,
    {
        U256 { limb0: 0, limb1: 0, limb2: 0, limb3: 0 }
    }

    pub fn from_u64(n: u64) -> (r: U256)
        ensures
            r@ == n,
    {
        U256 { limb0: n, limb1: 0, limb2: 0, limb3: 0 }
    }

    pub fn from_usize(n: usize) -> (r: U256)
        ensures
            r@ == n,
    {
        U256 { limb0: n as u64, limb1: 0, limb2: 0, limb3: 0 }
    }

    pub fn is_zero(&self) -> (r: bool)
        ensures
            r == (self@ == 0),
    {
        self.limb0 == 0 && self.limb1 == 0 && self.limb2 == 0 && self.limb3 == 0
    }

    /// The value as an index below `bound`, if it is one.
    pub fn to_index(&self, bound: usize) -> (r: Option<usize>)
        ensures
            match r {
                Some(i) => i == self@ && self@ < bound,
                None => self@ >= bound,
            },
    {
        if self.limb1 == 0 && self.limb2 == 0 && self.limb3 == 0 && (self.limb0 as u128) < (
        bound as u128) {
            Some(self.limb0 as usize)
        } else {
            None
        }
    }

    /// Calls `alloy_primitives::U256::wrapping_add` (ruint's `Uint::wrapping_add`);
    /// the contract claims the sum modulo 2^256, as ruint documents its ring.
    #[verifier::external_body]
    pub(crate) fn wrapping_add(self, rhs: U256) -> (r: U256)
        ensures
            r@ == (self@ + rhs@) % word_modulus(),
    {
        let a = alloy_primitives::U256::from_limbs(self.as_limbs());
        let b = alloy_primitives::U256::from_limbs(rhs.as_limbs());
        U256::from_limbs(*a.wrapping_add(b).as_limbs())
    }

    /// Calls `alloy_primitives::U256::wrapping_mul` (ruint's `Uint::wrapping_mul`);
    /// the contract claims the product modulo 2^256.
    #[verifier::external_body]
    pub(crate) fn wrapping_mul(self, rhs: U256) -> (r: U256)
        ensures
            r@ == (self@ * rhs@) % word_modulus(),
    {
        let a = alloy_primitives::U256::from_limbs(self.as_limbs());
        let b = alloy_primitives::U256::from_limbs(rhs.as_limbs());
        U256::from_limbs(*a.wrapping_mul(b).as_limbs())
    }

    /// Calls `alloy_primitives::U256::to_be_bytes::<32>`; the contract claims the
    /// 32-byte big-endian encoding of the value.
    #[verifier::external_body]
    pub(crate) fn to_be_bytes(&self) -> (r: [u8; 32])
        ensures
            r@ == be_bytes(self@, 32),
    {
        alloy_primitives::U256::from_limbs(self.as_limbs()).to_be_bytes::<32>()
    }

    /// Calls `alloy_primitives::U256::from_be_bytes::<32>`; the contract claims the
    /// number that the 32 big-endian bytes denote (it always fits, so the call never panics).
    #[verifier::external_body]
    pub(crate) fn from_be_bytes(bytes: [u8; 32]) -> (r: U256)
        ensures
            r@ == be_value(bytes@),
    {
        U256::from_limbs(*alloy_primitives::U256::from_be_bytes::<32>(bytes).as_limbs())
    }
}

/// A 20-byte account address.
#[derive(Clone, Copy, Debug)]
pub struct Address {
    pub bytes: [u8; 20],
}

impl Address {
    pub open spec fn is_zero_spec(&self) -> bool {
        forall|i: int| 0 <= i < 20 ==> self.bytes@[i] == 0u8
    }

    pub fn from_bytes(bytes: [u8; 20]) -> (r: Address)
        ensures
            r.bytes == bytes,
    {
        Address { bytes }
    }

    /// The all-zero address.
    pub fn zero() -> (r: Address)
        ensures
            r.is_zero_spec(),
    {
        Address { bytes: [0u8; 20] }
    }

    pub fn is_zero(&self) -> (r: bool)
        ensures
            r == self.is_zero_spec(),
    {
        let mut i: usize = 0;
        while i < 20
            invariant
                i <= 20,
                forall|j: int| 0 <= j < i ==> self.bytes@[j] == 0u8,
            decreases 20 - i,
        {
            if self.bytes[i] != 0 {
                return false;
            }
            i = i + 1;
        }
        true
    }
}

impl PartialEq for Address {
    fn eq(&self, other: &Self) -> (r: bool) {
        let mut i: usize = 0;
        while i < 20
            invariant
                i <= 20,
                forall|j: int| 0 <= j < i ==> self.bytes@[j] == other.bytes@[j],
            decreases 20 - i,
        {
            if self.bytes[i] != other.bytes[i] {
                return false;
            }
            i = i + 1;
        }
        assert(self.bytes =~= other.bytes);
        true
    }
}

impl vstd::std_specs::cmp::PartialEqSpecImpl for Address {
    open spec fn obeys_eq_spec() -> bool {
        true
    }

    open spec fn eq_spec(&self, other: &Address) -> bool {
        *self == *other
    }
}

impl Eq for Address {

}

/// A 32-byte word, such as a keccak-256 digest.
#[derive(Clone, Copy, Debug)]
pub struct B256 {
    pub bytes: [u8; 32],
}

/// The 32 zero bytes.
pub open spec fn zero_word() -> Seq<u8> {
    Seq::new(32, |i: int| 0u8)
}

impl B256 {
    pub fn from_bytes(bytes: [u8; 32]) -> (r: B256)
        ensures
            r.bytes == bytes,
    {
        B256 { bytes }
    }

    pub open spec fn is_zero_spec(&self) -> bool {
        forall|i: int| 0 <= i < 32 ==> self.bytes@[i] == 0u8
    }

    /// The all-zero word.
    pub fn zero() -> (r: B256)
        ensures
            r.is_zero_spec(),
            r.bytes@ == zero_word(),
    {
        let r = B256 { bytes: [0u8; 32] };
        assert(r.bytes@ =~= zero_word());
        r
    }
}

/// Two words are equal exactly when their byte strings are.
pub proof fn lemma_b256_eq_bytes(a: B256, b: B256)
    ensures
        (a == b) <==> (a.bytes@ == b.bytes@),
{
    if a.bytes@ == b.bytes@ {
        assert(a.bytes =~= b.bytes);
    }
}

impl PartialEq for B256 {
    fn eq(&self, other: &Self) -> (r: bool) {
        let mut i: usize = 0;
        while i < 32
            invariant
                i <= 32,
                forall|j: int| 0 <= j < i ==> self.bytes@[j] == other.bytes@[j],
            decreases 32 - i,
        {
            if self.bytes[i] != other.bytes[i] {
                return false;
            }
            i = i + 1;
        }
        assert(self.bytes =~= other.bytes);
        true
    }
}

impl vstd::std_specs::cmp::PartialEqSpecImpl for B256 {
    open spec fn obeys_eq_spec() -> bool {
        true
    }

    open spec fn eq_spec(&self, other: &B256) -> bool {
        *self == *other
    }
}

impl Eq for B256 {

}

/// The keccak-256 digest of a byte string, as `alloy_primitives::keccak256` computes it.
pub uninterp spec fn keccak256_digest(data: Seq<u8>) -> Seq<u8>;

/// Calls `alloy_primitives::keccak256`; the digest it returns is the named
/// `keccak256_digest` of the input bytes.
#[verifier::external_body]
pub(crate) fn keccak256(data: &[u8]) -> (h: B256)
    ensures
        h.bytes@ == keccak256_digest(data@),
{
    B256 { bytes: alloy_primitives::keccak256(data).0 }
}

} // verus!
