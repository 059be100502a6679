use zkmb::driver::GenAction;
use zkmb::driver::GenDriver;
use zkmb::driver::GenError;
use zkmb::driver::GenEvent;
use zkmb::driver::GenStage;
use zkmb::driver::ProveAction;
use zkmb::driver::ProveDriver;
use zkmb::driver::ProveError;
use zkmb::driver::ProveEvent;
use zkmb::driver::R1csStats;
use zkmb::driver::VerifyAction;
use zkmb::driver::VerifyDriver;
use zkmb::driver::VerifyError;
use zkmb::driver::VerifyEvent;
use zkmb::plan::ProofMode;
use zkmb::plan::select_plan;

#[test]
fn generate_happy_path_orders_the_stages() {
    let mut d = GenDriver::new(ProofMode::Proof, false);
    assert_eq!(d.pending(), GenAction::RunFrontEnd);
    assert_eq!(d.step(GenEvent::FrontEndDone), GenAction::RunPlan);
    assert_eq!(d.plan(), select_plan(ProofMode::Proof, false));
    assert_eq!(d.step(GenEvent::OptimizeDone), GenAction::LowerToR1cs);
    let lowered = R1csStats { constraints: 1000, variables: 400 };
    assert_eq!(d.step(GenEvent::LowerDone(lowered)), GenAction::ReduceLinearities);
    let reduced = R1csStats { constraints: 700, variables: 400 };
    assert_eq!(d.step(GenEvent::ReduceDone(reduced)), GenAction::FinalizeKeys);
    assert_eq!(d.step(GenEvent::FinalizeDone), GenAction::PersistProverKey);
    assert_eq!(d.step(GenEvent::WriteDone), GenAction::PersistVerifierKey);
    assert_eq!(d.step(GenEvent::WriteDone), GenAction::Finished);
    assert_eq!(d.stage, GenStage::Done);
    assert_eq!(d.lowered, Some(lowered));
    assert_eq!(d.reduced, Some(reduced));
}

#[test]
fn generate_front_end_failure_demands_no_write() {
    let mut d = GenDriver::new(ProofMode::Proof, false);
    assert_eq!(d.step(GenEvent::FrontEndFailed), GenAction::Abort(GenError::FrontEnd));
    assert_eq!(d.stage, GenStage::Failed(GenError::FrontEnd));
    // whatever still arrives, the failed run demands only the abort
    assert_eq!(d.step(GenEvent::OptimizeDone), GenAction::Abort(GenError::FrontEnd));
    assert_eq!(d.step(GenEvent::FinalizeDone), GenAction::Abort(GenError::FrontEnd));
    assert_eq!(d.step(GenEvent::WriteDone), GenAction::Abort(GenError::FrontEnd));
}

#[test]
fn generate_write_failure_aborts() {
    let mut d = GenDriver::new(ProofMode::Opt, false);
    d.step(GenEvent::FrontEndDone);
    d.step(GenEvent::OptimizeDone);
    d.step(GenEvent::LowerDone(R1csStats { constraints: 10, variables: 5 }));
    d.step(GenEvent::ReduceDone(R1csStats { constraints: 8, variables: 5 }));
    d.step(GenEvent::FinalizeDone);
    assert_eq!(d.step(GenEvent::WriteFailed), GenAction::Abort(GenError::Persist));
    assert_eq!(d.stage, GenStage::Failed(GenError::Persist));
}

#[test]
fn generate_rejects_out_of_order_events() {
    let mut d = GenDriver::new(ProofMode::Proof, true);
    assert_eq!(d.step(GenEvent::FinalizeDone), GenAction::Abort(GenError::Protocol));
}

#[test]
fn prove_happy_path_persists_after_the_prover() {
    let mut d = ProveDriver::new();
    assert_eq!(d.pending(), ProveAction::ParseInputFile);
    assert_eq!(d.step(ProveEvent::InputParsed), ProveAction::LoadProverKey);
    assert_eq!(d.step(ProveEvent::KeyLoaded), ProveAction::RunProver);
    assert_eq!(d.step(ProveEvent::ProverDone), ProveAction::PersistGenerators);
    assert_eq!(d.step(ProveEvent::WriteDone), ProveAction::PersistInstance);
    assert_eq!(d.step(ProveEvent::WriteDone), ProveAction::PersistProof);
    assert_eq!(d.step(ProveEvent::WriteDone), ProveAction::Finished);
}

#[test]
fn prove_failures_are_distinct_and_output_free() {
    let mut a = ProveDriver::new();
    assert_eq!(a.step(ProveEvent::InputMalformed), ProveAction::Abort(ProveError::MalformedInput));

    let mut b = ProveDriver::new();
    b.step(ProveEvent::InputParsed);
    assert_eq!(b.step(ProveEvent::KeyUnavailable), ProveAction::Abort(ProveError::KeyUnavailable));

    let mut c = ProveDriver::new();
    c.step(ProveEvent::InputParsed);
    c.step(ProveEvent::KeyLoaded);
    assert_eq!(c.step(ProveEvent::ProverFailed), ProveAction::Abort(ProveError::ProverFailure));
    // the failed run never demands a write
    assert_eq!(c.step(ProveEvent::WriteDone), ProveAction::Abort(ProveError::ProverFailure));
}

#[test]
fn verify_accepts_and_rejects_as_verdicts() {
    let mut d = VerifyDriver::new();
    assert_eq!(d.pending(), VerifyAction::ParseInputFile);
    assert_eq!(d.step(VerifyEvent::InputParsed), VerifyAction::LoadVerifierKey);
    assert_eq!(d.step(VerifyEvent::Loaded), VerifyAction::LoadGenerators);
    assert_eq!(d.step(VerifyEvent::Loaded), VerifyAction::LoadInstance);
    assert_eq!(d.step(VerifyEvent::Loaded), VerifyAction::LoadProof);
    assert_eq!(d.step(VerifyEvent::Loaded), VerifyAction::RunVerifier);
    assert_eq!(d.outcome(), None);
    let mut accepted = d;
    accepted.step(VerifyEvent::VerifierAccepted);
    assert_eq!(accepted.outcome(), Some(Ok(true)));
    let mut rejected = d;
    rejected.step(VerifyEvent::VerifierRejected);
    // rejection is a verdict, not an operational error
    assert_eq!(rejected.outcome(), Some(Ok(false)));
}

#[test]
fn verify_operational_errors_are_distinct_from_verdicts() {
    let mut a = VerifyDriver::new();
    a.step(VerifyEvent::InputMalformed);
    assert_eq!(a.outcome(), Some(Err(VerifyError::MalformedInput)));

    let mut b = VerifyDriver::new();
    b.step(VerifyEvent::InputParsed);
    b.step(VerifyEvent::LoadFailed);
    assert_eq!(b.outcome(), Some(Err(VerifyError::KeyUnavailable)));

    let mut c = VerifyDriver::new();
    c.step(VerifyEvent::InputParsed);
    c.step(VerifyEvent::Loaded);
    c.step(VerifyEvent::LoadFailed);
    assert_eq!(c.outcome(), Some(Err(VerifyError::GeneratorsUnavailable)));

    let mut e = VerifyDriver::new();
    e.step(VerifyEvent::InputParsed);
    e.step(VerifyEvent::Loaded);
    e.step(VerifyEvent::Loaded);
    e.step(VerifyEvent::LoadFailed);
    assert_eq!(e.outcome(), Some(Err(VerifyError::InstanceUnavailable)));

    let mut f = VerifyDriver::new();
    f.step(VerifyEvent::InputParsed);
    f.step(VerifyEvent::Loaded);
    f.step(VerifyEvent::Loaded);
    f.step(VerifyEvent::Loaded);
    f.step(VerifyEvent::LoadFailed);
    assert_eq!(f.outcome(), Some(Err(VerifyError::ProofUnavailable)));
}
