//! The reference run under profile B: Mersenne-31, a byte-oriented hash and
//! a circle domain.

use crate::air::FibonacciAir;
use crate::config::{Configuration, Profile};
use crate::driver::{Action, Phase, ProofDriver};
use crate::field::NativeField;
use crate::trace::{fib, is_fibonacci_trace};
use vstd::prelude::*;

verus! {

/// Sets up the proof that the recurrence reaches 21 after 8 steps, under
/// profile B: builds the configuration and the AIR, generates the trace and
/// has it checked. What comes back is the run and its first request, which
/// is to prove the generated trace.
pub fn run_fibonacci_proof_m31() -> (started: (ProofDriver, Action))
    ensures
        started.0.spec_prover_config() == Configuration::spec_for_profile(Profile::B),
        started.0.spec_verifier_config() == Configuration::spec_for_profile(Profile::B),
        started.0.spec_air() == (FibonacciAir { num_steps: 8, final_value: 21 }),
        started.0.spec_phase() == Phase::AwaitingProof,
        started.1 matches Action::Prove { config, air, trace } && config
            == Configuration::spec_for_profile(Profile::B) && air == (FibonacciAir {
            num_steps: 8,
            final_value: 21,
        }) && is_fibonacci_trace(trace, NativeField::Mersenne31, 8),
{
    let config = Configuration::for_profile(Profile::B);

    // The number of steps, and the value that the last row must end in.
    let num_steps: usize = 8;
    let final_value: u32 = 21;
    let air = FibonacciAir { num_steps, final_value };

    assert(fib(8) == 21) by {
        reveal_with_fuel(fib, 9);
    }
    ProofDriver::start(config, air)
}

} // verus!
