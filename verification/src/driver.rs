//! The proof driver: the decisions of one proof run.
//!
//! Proving and verifying are the work of an outside prover. The driver
//! decides what that prover is asked to do and what its answers come to: it
//! checks the trace before any proving begins, has the proof verified only
//! under the configuration it was made with, and turns the verifier's verdict
//! into the outcome of the run. Whoever runs the driver performs each action
//! it returns, with a challenger freshly made from the configuration, and
//! hands back the event that followed.

use crate::air::FibonacciAir;
use crate::characterization::{
    lemma_changed_cell_breaks_air, lemma_check_accepts_only_the_generated_trace,
    lemma_generated_cells_in_field, lemma_generated_trace_meets_air,
};
use crate::config::Configuration;
use crate::error::ProofInvalid;
use crate::matrix::{matrix_values, matrix_width};
use crate::satisfaction::{check_trace, spec_check_trace};
use crate::trace::{
    fibonacci_term, fibonacci_trace_values, generate_fibonacci_trace, is_fibonacci_trace,
};
use p3_matrix::dense::RowMajorMatrix;
use vstd::prelude::*;

verus! {

/// Why the outside verifier turned a proof down.
#[derive(Clone, Copy, Debug, PartialEq, Eq, Structural)]
pub enum VerifierError {
    /// The proof does not have the shape that the AIR and the configuration
    /// call for.
    InvalidProofShape,
    /// The opening argument of the commitment scheme failed.
    InvalidOpeningArgument,
    /// The constraints, evaluated out of domain, do not match the quotient.
    OodEvaluationMismatch,
}

/// Where a proof run stands.
#[derive(Clone, Copy, Debug, PartialEq, Eq, Structural)]
pub enum Phase {
    /// Nothing has happened yet; the run waits for the trace.
    AwaitingTrace,
    /// The prover has been asked for a proof.
    AwaitingProof,
    /// The verifier has been asked for its verdict.
    AwaitingVerdict,
    /// The run has ended with an accepted proof.
    Accepted,
    /// The run has ended in failure.
    Rejected(ProofInvalid),
}

/// What happened outside the driver.
#[derive(Debug, PartialEq, Eq)]
pub enum Event {
    /// The trace to prove is at hand.
    TraceReady(RowMajorMatrix<u32>),
    /// The prover has made its proof.
    Proved,
    /// The verifier has answered.
    Verdict(Result<(), VerifierError>),
}

/// What the driver asks for next, with everything that the outside prover
/// is to be handed.
#[derive(Debug, PartialEq, Eq)]
pub enum Action {
    /// Prove that `trace` meets `air`, under `config` and with a fresh
    /// challenger.
    Prove { config: Configuration, air: FibonacciAir, trace: RowMajorMatrix<u32> },
    /// Verify the proof against `air`, under `config` and with a fresh
    /// challenger.
    Verify { config: Configuration, air: FibonacciAir },
    /// The run is over, with this outcome.
    Finish(Result<(), ProofInvalid>),
}

/// The request to prove `trace`.
pub open spec fn prove_request(
    config: Configuration,
    air: FibonacciAir,
    trace: RowMajorMatrix<u32>,
) -> Action {
    Action::Prove { config, air, trace }
}

/// The request to verify the proof.
pub open spec fn verify_request(config: Configuration, air: FibonacciAir) -> Action {
    Action::Verify { config, air }
}

/// The answer to an event that the current phase does not expect.
#[derive(Clone, Copy, Debug, PartialEq, Eq, Structural)]
pub struct OutOfTurn;

/// What a verdict of the outside verifier means for the run.
pub open spec fn spec_classify(verdict: Result<(), VerifierError>) -> Result<(), ProofInvalid> {
    match verdict {
        Ok(_) => Ok(()),
        Err(VerifierError::InvalidProofShape) => Err(ProofInvalid::MalformedProof),
        Err(VerifierError::InvalidOpeningArgument) => Err(ProofInvalid::TranscriptMismatch),
        Err(VerifierError::OodEvaluationMismatch) => Err(ProofInvalid::ConstraintViolation),
    }
}

/// The phase in which a run with this outcome ends.
pub open spec fn final_phase(outcome: Result<(), ProofInvalid>) -> Phase {
    match outcome {
        Ok(_) => Phase::Accepted,
        Err(reason) => Phase::Rejected(reason),
    }
}

/// The transition of the driver: the phase after `event`, and the reply.
///
/// - A trace is checked against the AIR over the prover's field. A trace
///   that passes is to be proved under the prover's configuration; one that
///   does not ends the run.
/// - A proof is to be verified only if the verifier's configuration is the
///   prover's; otherwise the run ends in a configuration mismatch.
/// - The verifier's verdict ends the run.
/// - Any other event is out of turn and changes nothing.
pub open spec fn spec_step(
    prover_config: Configuration,
    verifier_config: Configuration,
    air: FibonacciAir,
    phase: Phase,
    event: Event,
) -> (Phase, Result<Action, OutOfTurn>) {
    match (phase, event) {
        (Phase::AwaitingTrace, Event::TraceReady(trace)) => match spec_check_trace(
            air,
            prover_config.field,
            trace,
        ) {
            Ok(_) => (Phase::AwaitingProof, Ok(prove_request(prover_config, air, trace))),
            Err(reason) => (Phase::Rejected(reason), Ok(Action::Finish(Err(reason)))),
        },
        (Phase::AwaitingProof, Event::Proved) => if prover_config == verifier_config {
            (Phase::AwaitingVerdict, Ok(verify_request(verifier_config, air)))
        } else {
            (
                Phase::Rejected(ProofInvalid::ConfigMismatch),
                Ok(Action::Finish(Err(ProofInvalid::ConfigMismatch))),
            )
        },
        (Phase::AwaitingVerdict, Event::Verdict(verdict)) => (
            final_phase(spec_classify(verdict)),
            Ok(Action::Finish(spec_classify(verdict))),
        ),
        _ => (phase, Err(OutOfTurn)),
    }
}

/// Turns a verdict of the outside verifier into the outcome of the run.
#[verifier::when_used_as_spec(spec_classify)]
pub fn classify(verdict: Result<(), VerifierError>) -> (outcome: Result<(), ProofInvalid>)
    ensures
        outcome == spec_classify(verdict),
{
    match verdict {
        Ok(_) => Ok(()),
        Err(VerifierError::InvalidProofShape) => Err(ProofInvalid::MalformedProof),
        Err(VerifierError::InvalidOpeningArgument) => Err(ProofInvalid::TranscriptMismatch),
        Err(VerifierError::OodEvaluationMismatch) => Err(ProofInvalid::ConstraintViolation),
    }
}

/// One proof run: the configurations of prover and verifier, the AIR, and
/// the phase the run is in.
pub struct ProofDriver {
    prover_config: Configuration,
    verifier_config: Configuration,
    air: FibonacciAir,
    phase: Phase,
}

impl ProofDriver {
    /// The configuration under which the proof is made.
    pub closed spec fn spec_prover_config(&self) -> Configuration {
        self.prover_config
    }

    /// The configuration under which the proof is verified.
    pub closed spec fn spec_verifier_config(&self) -> Configuration {
        self.verifier_config
    }

    /// The AIR that the run is about.
    pub closed spec fn spec_air(&self) -> FibonacciAir {
        self.air
    }

    /// The phase the run is in.
    pub closed spec fn spec_phase(&self) -> Phase {
        self.phase
    }

    /// A run that has not begun. The AIR must be valid over the prover's
    /// field: a recurrence of fewer than two steps, or a final value that is
    /// no element of the field, is not something to prove.
    pub fn new(
        prover_config: Configuration,
        verifier_config: Configuration,
        air: FibonacciAir,
    ) -> (driver: Self)
        requires
            air.spec_is_valid(prover_config.field),
        ensures
            driver.spec_prover_config() == prover_config,
            driver.spec_verifier_config() == verifier_config,
            driver.spec_air() == air,
            driver.spec_phase() == Phase::AwaitingTrace,
    {
        ProofDriver { prover_config, verifier_config, air, phase: Phase::AwaitingTrace }
    }

    /// Begins a run in which prover and verifier share `config`: generates
    /// the trace of `air` and takes the first step with it. The trace goes to
    /// the prover if `final_value` is the true term; otherwise the run is
    /// over before any proving.
    pub fn start(config: Configuration, air: FibonacciAir) -> (started: (Self, Action))
        requires
            air.spec_is_valid(config.field),
            2 * air.num_steps <= usize::MAX,
        ensures
            started.0.spec_prover_config() == config,
            started.0.spec_verifier_config() == config,
            started.0.spec_air() == air,
            air.final_value == fibonacci_term(config.field, air.num_steps as nat) ==> {
                &&& started.0.spec_phase() == Phase::AwaitingProof
                &&& started.1 matches Action::Prove { config: handed, air: about, trace }
                &&& handed == config
                &&& about == air
                &&& is_fibonacci_trace(trace, config.field, air.num_steps)
            },
            air.final_value != fibonacci_term(config.field, air.num_steps as nat) ==> {
                &&& started.0.spec_phase() == Phase::Rejected(ProofInvalid::ConstraintViolation)
                &&& started.1 == Action::Finish(Err(ProofInvalid::ConstraintViolation))
            },
    {
        let mut driver = ProofDriver::new(config, config, air);
        let trace = generate_fibonacci_trace(config.field, air.num_steps);
        proof {
            lemma_generated_trace_is_judged_by_final_value(config, config, air, trace);
        }
        match driver.step(Event::TraceReady(trace)) {
            Ok(action) => (driver, action),
            Err(_) => unreached(),
        }
    }

    /// The configuration under which the proof is made.
    #[verifier::when_used_as_spec(spec_prover_config)]
    pub fn prover_config(&self) -> (config: Configuration)
        ensures
            config == self.spec_prover_config(),
    {
        self.prover_config
    }

    /// The configuration under which the proof is verified.
    #[verifier::when_used_as_spec(spec_verifier_config)]
    pub fn verifier_config(&self) -> (config: Configuration)
        ensures
            config == self.spec_verifier_config(),
    {
        self.verifier_config
    }

    /// The AIR that the run is about.
    #[verifier::when_used_as_spec(spec_air)]
    pub fn air(&self) -> (air: FibonacciAir)
        ensures
            air == self.spec_air(),
    {
        self.air
    }

    /// The phase the run is in.
    #[verifier::when_used_as_spec(spec_phase)]
    pub fn phase(&self) -> (phase: Phase)
        ensures
            phase == self.spec_phase(),
    {
        self.phase
    }

    /// Takes the run one step on: moves to the phase that follows `event`
    /// and says what to do next. The configurations and the AIR never change.
    pub fn step(&mut self, event: Event) -> (reply: Result<Action, OutOfTurn>)
        ensures
            final(self).spec_prover_config() == old(self).spec_prover_config(),
            final(self).spec_verifier_config() == old(self).spec_verifier_config(),
            final(self).spec_air() == old(self).spec_air(),
            (final(self).spec_phase(), reply) == spec_step(
                old(self).spec_prover_config(),
                old(self).spec_verifier_config(),
                old(self).spec_air(),
                old(self).spec_phase(),
                event,
            ),
    {
        match (self.phase, event) {
            (Phase::AwaitingTrace, Event::TraceReady(trace)) => {
                match check_trace(&self.air, self.prover_config.field, &trace) {
                    Ok(_) => {
                        self.phase = Phase::AwaitingProof;
                        Ok(Action::Prove { config: self.prover_config, air: self.air, trace })
                    },
                    Err(reason) => {
                        self.phase = Phase::Rejected(reason);
                        Ok(Action::Finish(Err(reason)))
                    },
                }
            },
            (Phase::AwaitingProof, Event::Proved) => {
                if self.prover_config.same_as(&self.verifier_config) {
                    self.phase = Phase::AwaitingVerdict;
                    Ok(Action::Verify { config: self.verifier_config, air: self.air })
                } else {
                    self.phase = Phase::Rejected(ProofInvalid::ConfigMismatch);
                    Ok(Action::Finish(Err(ProofInvalid::ConfigMismatch)))
                }
            },
            (Phase::AwaitingVerdict, Event::Verdict(verdict)) => {
                let outcome = classify(verdict);
                self.phase = match outcome {
                    Ok(_) => Phase::Accepted,
                    Err(reason) => Phase::Rejected(reason),
                };
                Ok(Action::Finish(outcome))
            },
            _ => Err(OutOfTurn),
        }
    }
}

/// A run is accepted only on the verifier's word: the only step that ends a
/// run in acceptance is the one that takes the verifier's accepting verdict.
pub proof fn lemma_acceptance_needs_verdict(
    prover_config: Configuration,
    verifier_config: Configuration,
    air: FibonacciAir,
    phase: Phase,
    event: Event,
)
    requires
        phase != Phase::Accepted,
    ensures
        ({
            let (after, reply) = spec_step(prover_config, verifier_config, air, phase, event);
            (after == Phase::Accepted || (reply matches Ok(Action::Finish(outcome)) && outcome is Ok))
                ==> phase == Phase::AwaitingVerdict && (event matches Event::Verdict(verdict)
                && verdict is Ok)
        }),
{
}

/// Nothing but the generated trace is ever handed to the prover, and only
/// with the true final value: whenever a step asks for a proof, the trace is
/// the one that was handed in, it is the trace of the recurrence over the
/// prover's field, and `final_value` is its `num_steps`-th term.
pub proof fn lemma_only_the_generated_trace_is_proved(
    prover_config: Configuration,
    verifier_config: Configuration,
    air: FibonacciAir,
    phase: Phase,
    event: Event,
)
    requires
        air.num_steps >= 1,
        spec_step(prover_config, verifier_config, air, phase, event).1 matches Ok(
            Action::Prove { .. },
        ),
    ensures
        phase == Phase::AwaitingTrace,
        event matches Event::TraceReady(trace) && spec_step(
            prover_config,
            verifier_config,
            air,
            phase,
            event,
        ) == (
            Phase::AwaitingProof,
            Ok::<Action, OutOfTurn>(prove_request(prover_config, air, trace)),
        ) && is_fibonacci_trace(trace, prover_config.field, air.num_steps),
        air.final_value == fibonacci_term(prover_config.field, air.num_steps as nat),
{
    match event {
        Event::TraceReady(trace) => {
            lemma_check_accepts_only_the_generated_trace(air, prover_config.field, trace);
        },
        _ => {},
    }
}

/// A proof is never verified under a configuration other than the one it
/// was made with: between differing configurations no step asks for
/// verification, and the step that follows proving ends the run in a
/// configuration mismatch.
pub proof fn lemma_mismatch_is_rejected(
    prover_config: Configuration,
    verifier_config: Configuration,
    air: FibonacciAir,
    phase: Phase,
    event: Event,
)
    requires
        prover_config != verifier_config,
    ensures
        !(spec_step(prover_config, verifier_config, air, phase, event).1 matches Ok(
            Action::Verify { .. },
        )),
        spec_step(prover_config, verifier_config, air, Phase::AwaitingProof, Event::Proved) == (
            Phase::Rejected(ProofInvalid::ConfigMismatch),
            Ok::<Action, OutOfTurn>(Action::Finish(Err(ProofInvalid::ConfigMismatch))),
        ),
{
}

/// The generated trace goes to the prover exactly when `final_value` is the
/// `num_steps`-th term of the recurrence in the field's arithmetic;
/// otherwise the run ends in a constraint violation before any proving.
pub proof fn lemma_generated_trace_is_judged_by_final_value(
    prover_config: Configuration,
    verifier_config: Configuration,
    air: FibonacciAir,
    trace: RowMajorMatrix<u32>,
)
    requires
        air.num_steps >= 1,
        is_fibonacci_trace(trace, prover_config.field, air.num_steps),
    ensures
        spec_step(
            prover_config,
            verifier_config,
            air,
            Phase::AwaitingTrace,
            Event::TraceReady(trace),
        ) == if air.final_value == fibonacci_term(prover_config.field, air.num_steps as nat) {
            (Phase::AwaitingProof, Ok::<Action, OutOfTurn>(prove_request(prover_config, air, trace)))
        } else {
            (
                Phase::Rejected(ProofInvalid::ConstraintViolation),
                Ok::<Action, OutOfTurn>(Action::Finish(Err(ProofInvalid::ConstraintViolation))),
            )
        },
{
    lemma_generated_cells_in_field(prover_config.field, air.num_steps as nat);
    lemma_generated_trace_meets_air(air, prover_config.field);
}

/// A run on the generated trace with the true final value, under one
/// configuration for prover and verifier, is accepted once the verifier
/// accepts: the trace is proved, the proof is verified, and the verdict
/// stands.
pub proof fn lemma_honest_run_is_accepted(
    config: Configuration,
    air: FibonacciAir,
    trace: RowMajorMatrix<u32>,
)
    requires
        air.num_steps >= 1,
        air.final_value == fibonacci_term(config.field, air.num_steps as nat),
        is_fibonacci_trace(trace, config.field, air.num_steps),
    ensures
        ({
            let (first, asked) = spec_step(
                config,
                config,
                air,
                Phase::AwaitingTrace,
                Event::TraceReady(trace),
            );
            let (second, then_asked) = spec_step(config, config, air, first, Event::Proved);
            let (last, reply) = spec_step(config, config, air, second, Event::Verdict(Ok(())));
            &&& asked == Ok::<Action, OutOfTurn>(prove_request(config, air, trace))
            &&& then_asked == Ok::<Action, OutOfTurn>(verify_request(config, air))
            &&& reply == Ok::<Action, OutOfTurn>(Action::Finish(Ok(())))
            &&& last == Phase::Accepted
        }),
{
    lemma_generated_trace_is_judged_by_final_value(config, config, air, trace);
}

/// A generated trace in which one cell was changed never reaches the
/// prover: the run ends at once, in a constraint violation if the new value
/// is an element of the field and as a malformed trace if it is not.
pub proof fn lemma_changed_cell_is_rejected(
    prover_config: Configuration,
    verifier_config: Configuration,
    air: FibonacciAir,
    trace: RowMajorMatrix<u32>,
    index: int,
    value: u32,
)
    requires
        air.num_steps >= 1,
        0 <= index < 2 * air.num_steps,
        value != fibonacci_trace_values(prover_config.field, air.num_steps as nat)[index],
        matrix_width(trace) == 2,
        matrix_values(trace) == fibonacci_trace_values(
            prover_config.field,
            air.num_steps as nat,
        ).update(index, value),
    ensures
        ({
            let reason = if prover_config.field.spec_contains(value) {
                ProofInvalid::ConstraintViolation
            } else {
                ProofInvalid::MalformedTrace
            };
            spec_step(
                prover_config,
                verifier_config,
                air,
                Phase::AwaitingTrace,
                Event::TraceReady(trace),
            ) == (Phase::Rejected(reason), Ok::<Action, OutOfTurn>(Action::Finish(Err(reason))))
        }),
{
    let field = prover_config.field;
    let generated = fibonacci_trace_values(field, air.num_steps as nat);
    let changed = generated.update(index, value);
    lemma_generated_cells_in_field(field, air.num_steps as nat);
    lemma_changed_cell_breaks_air(air, field, index, value);
    if field.spec_contains(value) {
        assert forall|k: int| 0 <= k < changed.len() implies field.spec_contains(
            #[trigger] changed[k],
        ) by {
            assert(k != index ==> changed[k] == generated[k]);
        }
    } else {
        assert(changed[index] == value);
    }
}

} // verus!
