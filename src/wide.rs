//! A 256-bit unsigned integer held as four little-endian 64-bit words.
//!
//! Arithmetic is carried out by `ethereum_types::U256`; every operation here is
//! checked and reports overflow instead of wrapping.

use vstd::prelude::*;

verus! {

/// One more than the largest value a `U256` can hold: 2^256.
pub open spec fn u256_limit() -> nat {
    word_base() * word_base() * word_base() * word_base()
}

/// 2^64, the weight of one word.
pub open spec fn word_base() -> nat {
    18446744073709551616
}

/// A 256-bit unsigned integer; word 0 is the least significant.
#[derive(Clone, Copy, Debug, PartialEq, Eq, Structural)]
pub struct U256(pub u64, pub u64, pub u64, pub u64);

impl View for U256 {
    type V = nat;

    open spec fn view(&self) -> nat {
        (self.0 as nat) + word_base() * ((self.1 as nat) + word_base() * ((self.2 as nat)
            + word_base() * (self.3 as nat)))
    }
}

impl U256 {
    /// The value zero.
    pub fn zero() -> (r: U256)
        ensures
            r@ == 0,
    {
        U256(0, 0, 0, 0)
    }

    /// The value `v`.
    pub fn from_u64(v: u64) -> (r: U256)
        ensures
            r@ == v as nat,
    {
        U256(v, 0, 0, 0)
    }

    /// Whether the value is zero.
    pub fn is_zero(&self) -> (r: bool)
        ensures
            r == (self@ == 0),
    {
        let r = self.0 == 0 && self.1 == 0 && self.2 == 0 && self.3 == 0;
        proof {
            let b = word_base() as int;
            let (w0, w1, w2, w3) = (self.0 as int, self.1 as int, self.2 as int, self.3 as int);
            assert(self@ == w0 + b * (w1 + b * (w2 + b * w3)));
            if !r {
                assert(w0 + b * (w1 + b * (w2 + b * w3)) > 0) by (nonlinear_arith)
                    requires
                        b > 0, w0 >= 0, w1 >= 0, w2 >= 0, w3 >= 0,
                        w0 > 0 || w1 > 0 || w2 > 0 || w3 > 0,
                ;
            }
        }
        r
    }

    /// Relies on `ethereum_types::U256::checked_add` (uint 0.9): the sum, or `None`
    /// exactly when it does not fit in 256 bits.
    #[verifier::external_body]
    pub(crate) fn checked_add(self, other: U256) -> (r: Option<U256>)
        ensures
            match r {
                Some(v) => v@ == self@ + other@,
                None => self@ + other@ >= u256_limit(),
            },
    {
        let a = ethereum_types::U256([self.0, self.1, self.2, self.3]);
        let b = ethereum_types::U256([other.0, other.1, other.2, other.3]);
        a.checked_add(b).map(|v| U256(v.0[0], v.0[1], v.0[2], v.0[3]))
    }

    /// Relies on `ethereum_types::U256::checked_sub` (uint 0.9): the difference, or
    /// `None` exactly when `other` exceeds `self`.
    #[verifier::external_body]
    pub(crate) fn checked_sub(self, other: U256) -> (r: Option<U256>)
        ensures
            match r {
                Some(v) => v@ == self@ - other@ && other@ <= self@,
                None => self@ < other@,
            },
    {
        let a = ethereum_types::U256([self.0, self.1, self.2, self.3]);
        let b = ethereum_types::U256([other.0, other.1, other.2, other.3]);
        a.checked_sub(b).map(|v| U256(v.0[0], v.0[1], v.0[2], v.0[3]))
    }

    /// Relies on `ethereum_types::U256::checked_mul` (uint 0.9): the product, or
    /// `None` exactly when it does not fit in 256 bits.
    #[verifier::external_body]
    pub(crate) fn checked_mul(self, other: U256) -> (r: Option<U256>)
        ensures
            match r {
                Some(v) => v@ == self@ * other@,
                None => self@ * other@ >= u256_limit(),
            },
    {
        let a = ethereum_types::U256([self.0, self.1, self.2, self.3]);
        let b = ethereum_types::U256([other.0, other.1, other.2, other.3]);
        a.checked_mul(b).map(|v| U256(v.0[0], v.0[1], v.0[2], v.0[3]))
    }

    /// Relies on `ethereum_types::U256::checked_div` (uint 0.9): the quotient rounded
    /// down, or `None` exactly when `other` is zero.
    #[verifier::external_body]
    pub(crate) fn checked_div(self, other: U256) -> (r: Option<U256>)
        ensures
            match r {
                Some(v) => other@ > 0 && v@ == self@ / other@,
                None => other@ == 0,
            },
    {
        let a = ethereum_types::U256([self.0, self.1, self.2, self.3]);
        let b = ethereum_types::U256([other.0, other.1, other.2, other.3]);
        a.checked_div(b).map(|v| U256(v.0[0], v.0[1], v.0[2], v.0[3]))
    }
}

} // verus!
