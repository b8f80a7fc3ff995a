//! The native prime fields that traces are written in.
//!
//! A field element is held as its canonical representative, a `u32` below the
//! field's modulus. The additions themselves are done by the field
//! implementations of `p3_baby_bear` and `p3_mersenne_31`.

use p3_baby_bear::BabyBear;
use p3_field::{AbstractField, PrimeField32};
use p3_mersenne_31::Mersenne31;
use vstd::prelude::*;

verus! {

/// The Baby Bear prime, `2^31 - 2^27 + 1`.
pub const BABY_BEAR_MODULUS: u32 = 2013265921;

/// The Mersenne prime `2^31 - 1`.
pub const MERSENNE_31_MODULUS: u32 = 2147483647;

/// A native field in which trace cells and public inputs live.
#[derive(Clone, Copy, Debug, PartialEq, Eq, Structural)]
pub enum NativeField {
    BabyBear,
    Mersenne31,
}

impl NativeField {
    /// The number of elements of the field.
    pub open spec fn spec_modulus(self) -> nat {
        match self {
            NativeField::BabyBear => BABY_BEAR_MODULUS as nat,
            NativeField::Mersenne31 => MERSENNE_31_MODULUS as nat,
        }
    }

    /// Whether `value` is the canonical representative of an element.
    pub open spec fn spec_contains(self, value: u32) -> bool {
        (value as nat) < self.spec_modulus()
    }

    /// The sum of two elements, as the field defines it.
    pub open spec fn spec_sum(self, a: u32, b: u32) -> nat {
        ((a as nat + b as nat) % self.spec_modulus()) as nat
    }

    /// The number of elements of the field.
    pub fn modulus(self) -> (p: u32)
        ensures
            p as nat == self.spec_modulus(),
            p >= 2,
    {
        match self {
            NativeField::BabyBear => BABY_BEAR_MODULUS,
            NativeField::Mersenne31 => MERSENNE_31_MODULUS,
        }
    }

    /// Whether `value` is the canonical representative of an element.
    #[verifier::when_used_as_spec(spec_contains)]
    pub fn contains(self, value: u32) -> (r: bool)
        ensures
            r == self.spec_contains(value),
    {
        value < self.modulus()
    }

    /// Adds two elements of the field.
    pub fn sum(self, a: u32, b: u32) -> (r: u32)
        requires
            self.spec_contains(a),
            self.spec_contains(b),
        ensures
            r as nat == self.spec_sum(a, b),
            self.spec_contains(r),
    {
        let r = match self {
            NativeField::BabyBear => baby_bear_sum(a, b),
            NativeField::Mersenne31 => mersenne_31_sum(a, b),
        };
        proof {
            vstd::arithmetic::div_mod::lemma_mod_bound(
                a as int + b as int,
                self.spec_modulus() as int,
            );
        }
        r
    }
}

/// Addition in `p3_baby_bear::BabyBear`: both arguments enter through
/// `AbstractField::from_canonical_u32`, are added with the field's `+`, and
/// the sum leaves through `PrimeField32::as_canonical_u32`. For canonical
/// arguments this is the sum reduced modulo the Baby Bear prime.
#[verifier::external_body]
fn baby_bear_sum(a: u32, b: u32) -> (r: u32)
    requires
        a < BABY_BEAR_MODULUS,
        b < BABY_BEAR_MODULUS,
    ensures
        r as int == (a as int + b as int) % (BABY_BEAR_MODULUS as int),
{
    (BabyBear::from_canonical_u32(a) + BabyBear::from_canonical_u32(b)).as_canonical_u32()
}

/// Addition in `p3_mersenne_31::Mersenne31`: both arguments enter through
/// `AbstractField::from_canonical_u32`, are added with the field's `+`, and
/// the sum leaves through `PrimeField32::as_canonical_u32`. For canonical
/// arguments this is the sum reduced modulo `2^31 - 1`.
#[verifier::external_body]
fn mersenne_31_sum(a: u32, b: u32) -> (r: u32)
    requires
        a < MERSENNE_31_MODULUS,
        b < MERSENNE_31_MODULUS,
    ensures
        r as int == (a as int + b as int) % (MERSENNE_31_MODULUS as int),
{
    (Mersenne31::from_canonical_u32(a) + Mersenne31::from_canonical_u32(b)).as_canonical_u32()
}

} // verus!
