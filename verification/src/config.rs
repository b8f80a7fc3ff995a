//! The configuration that proving and verification share: which field, which
//! extension for challenges, which hash and commitment, which evaluation
//! domain, and the parameters of the FRI low-degree test.

use crate::field::NativeField;
use vstd::prelude::*;

verus! {

/// The hash from which the sponge, the compression function and the Merkle
/// commitment are made.
#[derive(Clone, Copy, Debug, PartialEq, Eq, Structural)]
pub enum HashFamily {
    /// A permutation over the native field, used as a sponge.
    AlgebraicPermutation,
    /// A collision-resistant hash over bytes.
    ByteOriented,
}

/// The domain on which the trace polynomials are evaluated.
#[derive(Clone, Copy, Debug, PartialEq, Eq, Structural)]
pub enum EvaluationDomain {
    /// A multiplicative subgroup whose order is a power of two.
    PowerOfTwo,
    /// A subgroup of the circle group of the field.
    CircleGroup,
}

/// The parameters of the FRI low-degree test.
#[derive(Clone, Copy, Debug, PartialEq, Eq, Structural)]
pub struct FriParameters {
    /// The binary logarithm of the blowup factor.
    pub log_blowup: usize,
    /// The number of queries.
    pub num_queries: usize,
    /// The number of bits of proof of work.
    pub proof_of_work_bits: usize,
}

/// Everything that prover and verifier must agree on.
#[derive(Clone, Copy, Debug, PartialEq, Eq, Structural)]
pub struct Configuration {
    /// The native field of trace cells and public inputs.
    pub field: NativeField,
    /// The degree of the extension of the native field from which
    /// challenges are drawn.
    pub challenge_degree: usize,
    /// The hash behind the commitment scheme and the challenger.
    pub hash: HashFamily,
    /// The evaluation domain of the polynomial commitment scheme.
    pub domain: EvaluationDomain,
    /// The parameters of the low-degree test.
    pub fri: FriParameters,
}

/// The two profiles that the library comes with.
#[derive(Clone, Copy, Debug, PartialEq, Eq, Structural)]
pub enum Profile {
    /// Baby Bear with an algebraic sponge over a power-of-two domain.
    A,
    /// Mersenne-31 with a byte-oriented hash over a circle domain.
    B,
}

impl FriParameters {
    /// The parameters that both profiles use: blowup 2, 100 queries and 16
    /// bits of proof of work.
    pub open spec fn spec_standard() -> FriParameters {
        FriParameters { log_blowup: 1, num_queries: 100, proof_of_work_bits: 16 }
    }

    /// The parameters that both profiles use.
    #[verifier::when_used_as_spec(spec_standard)]
    pub fn standard() -> (fri: FriParameters)
        ensures
            fri == Self::spec_standard(),
    {
        FriParameters { log_blowup: 1, num_queries: 100, proof_of_work_bits: 16 }
    }
}

impl Configuration {
    /// The configuration of a profile.
    pub open spec fn spec_for_profile(profile: Profile) -> Configuration {
        match profile {
            Profile::A => Configuration {
                field: NativeField::BabyBear,
                challenge_degree: 4,
                hash: HashFamily::AlgebraicPermutation,
                domain: EvaluationDomain::PowerOfTwo,
                fri: FriParameters::spec_standard(),
            },
            Profile::B => Configuration {
                field: NativeField::Mersenne31,
                challenge_degree: 3,
                hash: HashFamily::ByteOriented,
                domain: EvaluationDomain::CircleGroup,
                fri: FriParameters::spec_standard(),
            },
        }
    }

    /// Whether this configuration is that of `profile`, but for the FRI
    /// parameters.
    pub open spec fn uses_primitives_of(&self, profile: Profile) -> bool {
        Self::spec_for_profile(profile).with_fri(self.fri) == *self
    }

    /// The profile whose primitives this configuration uses, if there is
    /// one.
    pub open spec fn spec_profile(&self) -> Option<Profile> {
        if self.uses_primitives_of(Profile::A) {
            Some(Profile::A)
        } else if self.uses_primitives_of(Profile::B) {
            Some(Profile::B)
        } else {
            None
        }
    }

    /// This configuration with other FRI parameters.
    pub open spec fn with_fri(&self, fri: FriParameters) -> Configuration {
        Configuration {
            field: self.field,
            challenge_degree: self.challenge_degree,
            hash: self.hash,
            domain: self.domain,
            fri,
        }
    }

    /// The configuration of a profile.
    #[verifier::when_used_as_spec(spec_for_profile)]
    pub fn for_profile(profile: Profile) -> (config: Configuration)
        ensures
            config == Self::spec_for_profile(profile),
    {
        match profile {
            Profile::A => Configuration {
                field: NativeField::BabyBear,
                challenge_degree: 4,
                hash: HashFamily::AlgebraicPermutation,
                domain: EvaluationDomain::PowerOfTwo,
                fri: FriParameters::standard(),
            },
            Profile::B => Configuration {
                field: NativeField::Mersenne31,
                challenge_degree: 3,
                hash: HashFamily::ByteOriented,
                domain: EvaluationDomain::CircleGroup,
                fri: FriParameters::standard(),
            },
        }
    }

    /// The profile whose primitives this configuration uses, if there is
    /// one.
    #[verifier::when_used_as_spec(spec_profile)]
    pub fn profile(&self) -> (profile: Option<Profile>)
        ensures
            profile == self.spec_profile(),
    {
        match (self.field, self.hash, self.domain) {
            (
                NativeField::BabyBear,
                HashFamily::AlgebraicPermutation,
                EvaluationDomain::PowerOfTwo,
            ) => {
                if self.challenge_degree == 4 {
                    Some(Profile::A)
                } else {
                    None
                }
            },
            (NativeField::Mersenne31, HashFamily::ByteOriented, EvaluationDomain::CircleGroup) => {
                if self.challenge_degree == 3 {
                    Some(Profile::B)
                } else {
                    None
                }
            },
            _ => None,
        }
    }

    /// Whether two configurations were built from identical parameters.
    pub fn same_as(&self, other: &Configuration) -> (same: bool)
        ensures
            same == (*self == *other),
    {
        *self == *other
    }
}

} // verus!
