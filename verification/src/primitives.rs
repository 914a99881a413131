//! Fixed-width values that travel through the decoding pipeline.

use vstd::prelude::*;

verus! {

/// 2^64, the weight of the second limb of a [`U256`].
pub open spec fn pow2_64() -> nat {
    0x1_0000_0000_0000_0000
}

/// An unsigned 256-bit integer, as four 64-bit limbs, least significant first.
#[derive(Clone, Copy, Debug, PartialEq, Eq)]
pub struct U256 {
    pub limbs: [u64; 4],
}

impl View for U256 {
    type V = nat;

    /// The number that the limbs stand for.
    open spec fn view(&self) -> nat {
        (self.limbs[0] as nat) + (self.limbs[1] as nat) * pow2_64() + (self.limbs[2] as nat)
            * pow2_64() * pow2_64() + (self.limbs[3] as nat) * pow2_64() * pow2_64() * pow2_64()
    }
}

impl U256 {
    /// The integer `n`, widened.
    pub fn from_u64(n: u64) -> (r: Self)
        ensures
            r@ == n,
    {
        U256 { limbs: [n, 0, 0, 0] }
    }

    /// Zero.
    pub fn zero() -> (r: Self)
        ensures
            r@ == 0,
    {
        U256 { limbs: [0, 0, 0, 0] }
    }

    /// The low 64 bits; whatever lies above them is dropped.
    pub fn low_u64(&self) -> (r: u64)
        ensures
            r == self@ % pow2_64(),
    {
        proof {
            lemma_low_limb(*self);
        }
        self.limbs[0]
    }

    /// The value as a `u64`, where it fits.
    pub fn as_u64(&self) -> (r: Option<u64>)
        ensures
            r == (if self@ < pow2_64() {
                Some(self@ as u64)
            } else {
                None
            }),
    {
        proof {
            lemma_low_limb(*self);
            lemma_fits_u64(*self);
        }
        if self.limbs[1] == 0 && self.limbs[2] == 0 && self.limbs[3] == 0 {
            Some(self.limbs[0])
        } else {
            None
        }
    }
}

/// The lowest limb is the value modulo 2^64.
proof fn lemma_low_limb(u: U256)
    ensures
        u@ % pow2_64() == u.limbs[0],
{
    let p = pow2_64() as int;
    let hi = (u.limbs[1] as int) + (u.limbs[2] as int) * p + (u.limbs[3] as int) * p * p;
    assert(u@ == (u.limbs[0] as int) + hi * p) by (nonlinear_arith)
        requires
            p == pow2_64(),
            hi == (u.limbs[1] as int) + (u.limbs[2] as int) * p + (u.limbs[3] as int) * p * p,
            u@ == (u.limbs[0] as nat) + (u.limbs[1] as nat) * pow2_64() + (u.limbs[2] as nat)
                * pow2_64() * pow2_64() + (u.limbs[3] as nat) * pow2_64() * pow2_64() * pow2_64(),
    ;
    vstd::arithmetic::div_mod::lemma_mod_multiples_vanish(hi, u.limbs[0] as int, p);
    vstd::arithmetic::div_mod::lemma_small_mod(u.limbs[0] as nat, p as nat);
}

/// The value fits in 64 bits exactly when the three upper limbs are zero.
proof fn lemma_fits_u64(u: U256)
    ensures
        u@ < pow2_64() <==> (u.limbs[1] == 0 && u.limbs[2] == 0 && u.limbs[3] == 0),
{
    let p = pow2_64() as int;
    let a = u.limbs[1] as int;
    let b = u.limbs[2] as int;
    let c = u.limbs[3] as int;
    assert(a * p >= 0 && b * p * p >= 0 && c * p * p * p >= 0) by (nonlinear_arith)
        requires
            a >= 0,
            b >= 0,
            c >= 0,
            p > 0,
    ;
    assert(a > 0 ==> a * p >= p) by (nonlinear_arith)
        requires
            p > 0,
    ;
    assert(b > 0 ==> b * p * p >= p) by (nonlinear_arith)
        requires
            p > 1,
    ;
    assert(c > 0 ==> c * p * p * p >= p) by (nonlinear_arith)
        requires
            p > 1,
    ;
}

/// A 20-byte account or contract address.
#[derive(Clone, Copy, Debug, PartialEq, Eq)]
pub struct Address {
    pub bytes: [u8; 20],
}

/// The address whose bytes are all zero.
pub open spec fn zero_address() -> Address {
    Address { bytes: vstd::array::spec_array_fill_for_copy_type::<u8, 20>(0) }
}

impl Address {
    /// The address whose bytes are all zero.
    pub fn zero() -> (r: Self)
        ensures
            r == zero_address(),
    {
        Address { bytes: [0u8; 20] }
    }
}

/// A 32-byte hash: an event signature, or a log topic.
#[derive(Clone, Copy, Debug, PartialEq, Eq)]
pub struct H256 {
    pub bytes: [u8; 32],
}

} // verus!
