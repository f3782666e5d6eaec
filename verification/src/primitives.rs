//! Fixed-width hashes, addresses and integers that the execution records carry.
//!
//! Each type is a plain wrapper around an array, so a value is its own
//! mathematical model: two values are equal exactly when their arrays are.

use vstd::prelude::*;
use vstd::std_specs::cmp::PartialEqSpecImpl;

verus! {

/// Tells whether two byte arrays of one length hold the same bytes.
pub fn bytes_eq<const N: usize>(a: &[u8; N], b: &[u8; N]) -> (r: bool)
    ensures
        r == (a == b),
{
    let mut i: usize = 0;
    while i < N
        invariant
            i <= N,
            forall|j: int| 0 <= j < i ==> a[j] == b[j],
        decreases N - i,
    {
        if a[i] != b[i] {
            return false;
        }
        i += 1;
    }
    assert(a =~= b);
    true
}

/// A 32-byte hash, most significant byte first.
#[derive(Clone, Copy, Debug, Hash)]
pub struct H256(pub [u8; 32]);

impl View for H256 {
    type V = Seq<u8>;

    open spec fn view(&self) -> Seq<u8> {
        self.0@
    }
}

impl H256 {
    /// The hash whose bytes are all zero.
    pub open spec fn spec_zero() -> H256 {
        H256(
            [
                0, 0, 0, 0, 0, 0, 0, 0, 0, 0, 0, 0, 0, 0, 0, 0,
                0, 0, 0, 0, 0, 0, 0, 0, 0, 0, 0, 0, 0, 0, 0, 0,
            ],
        )
    }

    /// The hash whose bytes are all zero.
    #[verifier::when_used_as_spec(spec_zero)]
    pub fn zero() -> (r: H256)
        ensures
            r == H256::spec_zero(),
    {
        let r = H256([0u8; 32]);
        assert(r.0 =~= H256::spec_zero().0);
        r
    }

    /// Whether this is the all-zero hash.
    pub fn is_zero(&self) -> (r: bool)
        ensures
            r == (*self == H256::zero()),
    {
        let z = H256::zero();
        bytes_eq(&self.0, &z.0)
    }
}

impl PartialEq for H256 {
    fn eq(&self, other: &Self) -> (r: bool) {
        bytes_eq(&self.0, &other.0)
    }
}

impl Eq for H256 {}

impl PartialEqSpecImpl for H256 {
    open spec fn obeys_eq_spec() -> bool {
        true
    }

    open spec fn eq_spec(&self, other: &Self) -> bool {
        *self == *other
    }
}

impl Default for H256 {
    fn default() -> (r: Self)
        ensures
            r == H256::zero(),
    {
        H256::zero()
    }
}

/// A 20-byte account address, most significant byte first.
#[derive(Clone, Copy, Debug, Hash)]
pub struct Address(pub [u8; 20]);

impl View for Address {
    type V = Seq<u8>;

    open spec fn view(&self) -> Seq<u8> {
        self.0@
    }
}

impl Address {
    /// The address whose bytes are all zero.
    pub open spec fn spec_zero() -> Address {
        Address([0, 0, 0, 0, 0, 0, 0, 0, 0, 0, 0, 0, 0, 0, 0, 0, 0, 0, 0, 0])
    }

    /// The address whose bytes are all zero.
    #[verifier::when_used_as_spec(spec_zero)]
    pub fn zero() -> (r: Address)
        ensures
            r == Address::spec_zero(),
    {
        let r = Address([0u8; 20]);
        assert(r.0 =~= Address::spec_zero().0);
        r
    }

    /// The address of the system contract numbered `low`: eighteen zero
    /// bytes followed by `low`, most significant byte first.
    pub open spec fn system_contract(low: u16) -> Address {
        Address(
            [
                0, 0, 0, 0, 0, 0, 0, 0, 0, 0, 0, 0, 0, 0, 0, 0, 0, 0,
                (low / 256) as u8,
                (low % 256) as u8,
            ],
        )
    }
}

impl PartialEq for Address {
    fn eq(&self, other: &Self) -> (r: bool) {
        bytes_eq(&self.0, &other.0)
    }
}

impl Eq for Address {}

impl PartialEqSpecImpl for Address {
    open spec fn obeys_eq_spec() -> bool {
        true
    }

    open spec fn eq_spec(&self, other: &Self) -> bool {
        *self == *other
    }
}

impl Default for Address {
    fn default() -> (r: Self)
        ensures
            r == Address::zero(),
    {
        Address::zero()
    }
}

/// A 256-bit unsigned integer held as four 64-bit limbs, least significant
/// limb first.
#[derive(Clone, Copy, Debug, Hash)]
pub struct U256(pub [u64; 4]);

impl View for U256 {
    type V = nat;

    /// The number that the four limbs spell.
    open spec fn view(&self) -> nat {
        (self.0[0] as nat) + (self.0[1] as nat) * 0x1_0000_0000_0000_0000
            + (self.0[2] as nat) * 0x1_0000_0000_0000_0000_0000_0000_0000_0000
            + (self.0[3] as nat)
            * 0x1_0000_0000_0000_0000_0000_0000_0000_0000_0000_0000_0000_0000
    }
}

impl U256 {
    /// The integer zero.
    pub fn zero() -> (r: U256)
        ensures
            r@ == 0,
            r == U256::spec_from_u64(0),
    {
        U256::from_u64(0)
    }

    /// The 256-bit integer with the value of `x`.
    pub open spec fn spec_from_u64(x: u64) -> U256 {
        U256([x, 0, 0, 0])
    }

    /// Widens a 64-bit integer.
    #[verifier::when_used_as_spec(spec_from_u64)]
    pub fn from_u64(x: u64) -> (r: U256)
        ensures
            r == U256::spec_from_u64(x),
            r@ == x,
    {
        U256([x, 0, 0, 0])
    }

    /// Whether the value fits in 64 bits.
    pub fn fits_u64(&self) -> (r: bool)
        ensures
            r == (self@ <= u64::MAX),
    {
        self.0[1] == 0 && self.0[2] == 0 && self.0[3] == 0
    }

    /// The value as a 64-bit integer. It has to fit.
    pub fn as_u64(&self) -> (r: u64)
        requires
            self@ <= u64::MAX,
        ensures
            r == self@,
    {
        self.0[0]
    }
}

impl PartialEq for U256 {
    fn eq(&self, other: &Self) -> (r: bool) {
        let r = self.0[0] == other.0[0] && self.0[1] == other.0[1] && self.0[2] == other.0[2]
            && self.0[3] == other.0[3];
        proof {
            if r {
                assert(self.0 =~= other.0);
            }
        }
        r
    }
}

impl Eq for U256 {}

impl PartialEqSpecImpl for U256 {
    open spec fn obeys_eq_spec() -> bool {
        true
    }

    open spec fn eq_spec(&self, other: &Self) -> bool {
        *self == *other
    }
}

impl Default for U256 {
    fn default() -> (r: Self)
        ensures
            r@ == 0,
            r == U256::spec_from_u64(0),
    {
        U256::zero()
    }
}

/// Two 256-bit integers are the same value exactly when they spell the same
/// number.
pub proof fn lemma_u256_view_injective(a: U256, b: U256)
    ensures
        (a@ == b@) <==> (a == b),
{
    if a@ == b@ {
        assert(a.0 =~= b.0);
    }
}

/// Number of a batch of transactions.
#[derive(Clone, Copy, Debug, PartialEq, Eq, Hash, Structural)]
pub struct L1BatchNumber(pub u32);

impl Default for L1BatchNumber {
    fn default() -> (r: Self)
        ensures
            r == L1BatchNumber(0),
    {
        L1BatchNumber(0)
    }
}

} // verus!
