use fib_air::config::{Configuration, FriParameters, Profile};
use fib_air::driver::{classify, Action, Event, OutOfTurn, Phase, ProofDriver, VerifierError};
use fib_air::error::ProofInvalid;
use fib_air::{generate_fibonacci_trace, FibonacciAir};
use p3_matrix::dense::RowMajorMatrix;

const PROFILES: [Profile; 2] = [Profile::A, Profile::B];

fn reference_air() -> FibonacciAir {
    FibonacciAir { num_steps: 8, final_value: 21 }
}

fn new_run(prover: Profile, verifier: Profile, air: FibonacciAir) -> ProofDriver {
    let prover = Configuration::for_profile(prover);
    let verifier = Configuration::for_profile(verifier);
    assert!(air.is_valid(prover.field));
    ProofDriver::new(prover, verifier, air)
}

fn generated(driver: &ProofDriver) -> RowMajorMatrix<u32> {
    generate_fibonacci_trace(driver.prover_config().field, driver.air().num_steps)
}

fn prove_of(driver: &ProofDriver, trace: &RowMajorMatrix<u32>) -> Result<Action, OutOfTurn> {
    Ok(Action::Prove {
        config: driver.prover_config(),
        air: driver.air(),
        trace: trace.clone(),
    })
}

fn verify_of(driver: &ProofDriver) -> Result<Action, OutOfTurn> {
    Ok(Action::Verify { config: driver.verifier_config(), air: driver.air() })
}

fn finish(outcome: Result<(), ProofInvalid>) -> Result<Action, OutOfTurn> {
    Ok(Action::Finish(outcome))
}

#[test]
fn a_new_run_awaits_the_trace() {
    for profile in PROFILES {
        let driver = new_run(profile, profile, reference_air());
        assert_eq!(driver.phase(), Phase::AwaitingTrace);
        assert_eq!(driver.prover_config(), Configuration::for_profile(profile));
        assert_eq!(driver.verifier_config(), Configuration::for_profile(profile));
        assert_eq!(driver.air(), reference_air());
    }
}

#[test]
fn honest_run_goes_from_trace_to_proof_to_verdict() {
    for profile in PROFILES {
        let mut driver = new_run(profile, profile, reference_air());
        let trace = generated(&driver);

        let reply = driver.step(Event::TraceReady(trace.clone()));
        assert_eq!(reply, prove_of(&driver, &trace));
        assert_eq!(driver.phase(), Phase::AwaitingProof);

        let reply = driver.step(Event::Proved);
        assert_eq!(reply, verify_of(&driver));
        assert_eq!(driver.phase(), Phase::AwaitingVerdict);

        let reply = driver.step(Event::Verdict(Ok(())));
        assert_eq!(reply, finish(Ok(())));
        assert_eq!(driver.phase(), Phase::Accepted);

        assert_eq!(driver.prover_config(), Configuration::for_profile(profile));
        assert_eq!(driver.verifier_config(), Configuration::for_profile(profile));
        assert_eq!(driver.air(), reference_air());
    }
}

#[test]
fn minimal_instance_is_handed_to_the_prover() {
    for profile in PROFILES {
        let mut driver = new_run(profile, profile, FibonacciAir { num_steps: 2, final_value: 1 });
        let trace = generated(&driver);
        assert_eq!(trace.values, vec![0, 1, 1, 1]);
        let reply = driver.step(Event::TraceReady(trace.clone()));
        assert_eq!(reply, prove_of(&driver, &trace));
        assert_eq!(driver.step(Event::Proved), verify_of(&driver));
        assert_eq!(driver.step(Event::Verdict(Ok(()))), finish(Ok(())));
        assert_eq!(driver.phase(), Phase::Accepted);
    }
}

#[test]
fn wrong_final_value_ends_the_run_before_proving() {
    for profile in PROFILES {
        let mut driver = new_run(profile, profile, FibonacciAir { num_steps: 8, final_value: 99 });
        let trace = generated(&driver);
        let reply = driver.step(Event::TraceReady(trace));
        assert_eq!(reply, finish(Err(ProofInvalid::ConstraintViolation)));
        assert_eq!(driver.phase(), Phase::Rejected(ProofInvalid::ConstraintViolation));
    }
}

#[test]
fn changed_cell_ends_the_run_before_proving() {
    for profile in PROFILES {
        for index in 0..16 {
            let mut driver = new_run(profile, profile, reference_air());
            let mut trace = generated(&driver);
            trace.values[index] += 1;
            let reply = driver.step(Event::TraceReady(trace));
            assert_eq!(reply, finish(Err(ProofInvalid::ConstraintViolation)));
            assert_eq!(driver.phase(), Phase::Rejected(ProofInvalid::ConstraintViolation));
        }
    }
}

#[test]
fn malformed_trace_ends_the_run_before_proving() {
    for profile in PROFILES {
        let field = Configuration::for_profile(profile).field;
        let wrong_height = generate_fibonacci_trace(field, 4);
        let wrong_width = RowMajorMatrix::new(generate_fibonacci_trace(field, 8).values, 4);
        let mut outside_field = generate_fibonacci_trace(field, 8);
        outside_field.values[3] = field.modulus();
        for trace in [wrong_height, wrong_width, outside_field] {
            let mut driver = new_run(profile, profile, reference_air());
            let reply = driver.step(Event::TraceReady(trace));
            assert_eq!(reply, finish(Err(ProofInvalid::MalformedTrace)));
            assert_eq!(driver.phase(), Phase::Rejected(ProofInvalid::MalformedTrace));
        }
    }
}

#[test]
fn trace_is_checked_over_the_field_of_the_prover() {
    // The 47th term differs between the fields.
    let air = FibonacciAir { num_steps: 47, final_value: 957949152 };
    let mut driver = new_run(Profile::A, Profile::A, air);
    let trace = generated(&driver);
    assert_eq!(driver.step(Event::TraceReady(trace.clone())), prove_of(&driver, &trace));

    let mut driver = new_run(Profile::B, Profile::B, air);
    let reply = driver.step(Event::TraceReady(trace));
    assert_eq!(reply, finish(Err(ProofInvalid::ConstraintViolation)));
}

#[test]
fn proof_of_profile_a_is_not_verified_under_profile_b() {
    let mut driver = new_run(Profile::A, Profile::B, reference_air());
    let trace = generated(&driver);
    assert_eq!(driver.step(Event::TraceReady(trace.clone())), prove_of(&driver, &trace));
    let reply = driver.step(Event::Proved);
    assert_eq!(reply, finish(Err(ProofInvalid::ConfigMismatch)));
    assert_eq!(driver.phase(), Phase::Rejected(ProofInvalid::ConfigMismatch));
    assert_eq!(driver.step(Event::Verdict(Ok(()))), Err(OutOfTurn));
    assert_eq!(driver.phase(), Phase::Rejected(ProofInvalid::ConfigMismatch));
}

#[test]
fn proof_of_profile_b_is_not_verified_under_profile_a() {
    let mut driver = new_run(Profile::B, Profile::A, reference_air());
    let trace = generated(&driver);
    assert_eq!(driver.step(Event::TraceReady(trace.clone())), prove_of(&driver, &trace));
    let reply = driver.step(Event::Proved);
    assert_eq!(reply, finish(Err(ProofInvalid::ConfigMismatch)));
    assert_eq!(driver.phase(), Phase::Rejected(ProofInvalid::ConfigMismatch));
    assert_eq!(driver.step(Event::Verdict(Ok(()))), Err(OutOfTurn));
    assert_eq!(driver.phase(), Phase::Rejected(ProofInvalid::ConfigMismatch));
}

#[test]
fn differing_fri_parameters_are_a_configuration_mismatch() {
    let prover = Configuration::for_profile(Profile::A);
    for fri in [
        FriParameters { log_blowup: 2, ..prover.fri },
        FriParameters { num_queries: 50, ..prover.fri },
        FriParameters { proof_of_work_bits: 8, ..prover.fri },
    ] {
        let verifier = Configuration { fri, ..prover };
        let mut driver = ProofDriver::new(prover, verifier, reference_air());
        let trace = generated(&driver);
        assert_eq!(driver.step(Event::TraceReady(trace.clone())), prove_of(&driver, &trace));
        let reply = driver.step(Event::Proved);
        assert_eq!(reply, finish(Err(ProofInvalid::ConfigMismatch)));
    }
}

#[test]
fn verdicts_of_the_verifier_are_classified() {
    assert_eq!(classify(Ok(())), Ok(()));
    assert_eq!(
        classify(Err(VerifierError::InvalidProofShape)),
        Err(ProofInvalid::MalformedProof)
    );
    assert_eq!(
        classify(Err(VerifierError::InvalidOpeningArgument)),
        Err(ProofInvalid::TranscriptMismatch)
    );
    assert_eq!(
        classify(Err(VerifierError::OodEvaluationMismatch)),
        Err(ProofInvalid::ConstraintViolation)
    );
}

#[test]
fn rejecting_verdict_ends_the_run_in_failure() {
    for (error, reason) in [
        (VerifierError::InvalidProofShape, ProofInvalid::MalformedProof),
        (VerifierError::InvalidOpeningArgument, ProofInvalid::TranscriptMismatch),
        (VerifierError::OodEvaluationMismatch, ProofInvalid::ConstraintViolation),
    ] {
        for profile in PROFILES {
            let mut driver = new_run(profile, profile, reference_air());
            let trace = generated(&driver);
            assert_eq!(driver.step(Event::TraceReady(trace.clone())), prove_of(&driver, &trace));
            assert_eq!(driver.step(Event::Proved), verify_of(&driver));
            let reply = driver.step(Event::Verdict(Err(error)));
            assert_eq!(reply, finish(Err(reason)));
            assert_eq!(driver.phase(), Phase::Rejected(reason));
        }
    }
}

#[test]
fn events_out_of_turn_change_nothing() {
    let profile = Profile::A;
    let mut driver = new_run(profile, profile, reference_air());
    let trace = generated(&driver);

    assert_eq!(driver.step(Event::Proved), Err(OutOfTurn));
    assert_eq!(driver.step(Event::Verdict(Ok(()))), Err(OutOfTurn));
    assert_eq!(driver.step(Event::Verdict(Err(VerifierError::InvalidProofShape))), Err(OutOfTurn));
    assert_eq!(driver.phase(), Phase::AwaitingTrace);

    assert_eq!(driver.step(Event::TraceReady(trace.clone())), prove_of(&driver, &trace));
    assert_eq!(driver.step(Event::TraceReady(trace.clone())), Err(OutOfTurn));
    assert_eq!(driver.step(Event::Verdict(Ok(()))), Err(OutOfTurn));
    assert_eq!(driver.phase(), Phase::AwaitingProof);

    assert_eq!(driver.step(Event::Proved), verify_of(&driver));
    assert_eq!(driver.step(Event::TraceReady(trace.clone())), Err(OutOfTurn));
    assert_eq!(driver.step(Event::Proved), Err(OutOfTurn));
    assert_eq!(driver.phase(), Phase::AwaitingVerdict);

    assert_eq!(driver.step(Event::Verdict(Ok(()))), finish(Ok(())));
    assert_eq!(driver.step(Event::TraceReady(trace)), Err(OutOfTurn));
    assert_eq!(driver.step(Event::Proved), Err(OutOfTurn));
    assert_eq!(driver.step(Event::Verdict(Ok(()))), Err(OutOfTurn));
    assert_eq!(driver.phase(), Phase::Accepted);
}

#[test]
fn a_rejected_run_stays_rejected() {
    let mut driver = new_run(Profile::B, Profile::B, FibonacciAir { num_steps: 8, final_value: 99 });
    let trace = generated(&driver);
    let reply = driver.step(Event::TraceReady(trace.clone()));
    assert_eq!(reply, finish(Err(ProofInvalid::ConstraintViolation)));
    assert_eq!(driver.step(Event::TraceReady(trace)), Err(OutOfTurn));
    assert_eq!(driver.step(Event::Proved), Err(OutOfTurn));
    assert_eq!(driver.step(Event::Verdict(Ok(()))), Err(OutOfTurn));
    assert_eq!(driver.phase(), Phase::Rejected(ProofInvalid::ConstraintViolation));
}
