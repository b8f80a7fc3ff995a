//! The reference run under profile A: Baby Bear, an algebraic sponge and a
//! power-of-two domain.

use crate::air::FibonacciAir;
use crate::config::{Configuration, Profile};
use crate::driver::{Action, Phase, ProofDriver};
use crate::field::NativeField;
use crate::trace::{fib, is_fibonacci_trace};
use vstd::prelude::*;

verus! {

/// Sets up the proof that the recurrence reaches 21 after 8 steps, under
/// profile A: builds the configuration and the AIR, generates the trace and
/// has it checked. What comes back is the run and its first request, which
/// is to prove the generated trace.
pub fn run_fibonacci_proof_bb() -> (started: (ProofDriver, Action))
    ensures
        started.0.spec_prover_config() == Configuration::spec_for_profile(Profile::A),
        started.0.spec_verifier_config() == Configuration::spec_for_profile(Profile::A),
        started.0.spec_air() == (FibonacciAir { num_steps: 8, final_value: 21 }),
        started.0.spec_phase() == Phase::AwaitingProof,
        started.1 matches Action::Prove { config, air, trace } && config
            == Configuration::spec_for_profile(Profile::A) && air == (FibonacciAir {
            num_steps: 8,
            final_value: 21,
        }) && is_fibonacci_trace(trace, NativeField::BabyBear, 8),
{
    let config = Configuration::for_profile(Profile::A);

    // The number of steps, and the value that the last row must end in.
    let num_steps: usize = 8;
    let final_value: u32 = 21;
    let air = FibonacciAir { num_steps, final_value };

    assert(fib(8) == 21) by {
        reveal_with_fuel(fib, 9);
    }
    ProofDriver::start(config, air)
}

} // verus!
