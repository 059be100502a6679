//! Staged drivers for the three phases of the protocol.
//!
//! Generate, Prove and Verify each run as an independent,
//! non-interactive batch job whose outside work — the front end, the
//! pass engine, the R1CS backend, the prover and verifier, file reads
//! and writes — is performed by the surrounding program.  The driver
//! here is the verified decision core: a state machine that, from its
//! current stage, demands one action, consumes the event that reports
//! the action's outcome, and moves to the next stage.  No stage
//! attempts local recovery: every failure is absorbing, and a failed
//! run demands no further work.

use crate::plan::Pass;
use crate::plan::ProofMode;
use crate::plan::plan_for;
use crate::plan::select_plan;
use vstd::prelude::*;

verus! {

/// Summary statistics of a lowered R1CS instance, recorded as
/// observable diagnostics, not control flow.
#[derive(Clone, Copy, Debug, PartialEq, Eq, Structural)]
pub struct R1csStats {
    pub constraints: u64,
    pub variables: u64,
}

/// Why a Generate run failed.
#[derive(Clone, Copy, Debug, PartialEq, Eq, Structural)]
pub enum GenError {
    /// The front end rejected the source file.
    FrontEnd,
    /// A key file could not be written.
    Persist,
    /// An event arrived that the current stage cannot accept: an
    /// internal defect, failed loudly rather than recovered from.
    Protocol,
}

/// The stages of a Generate run, in the order they are passed.
#[derive(Clone, Copy, Debug, PartialEq, Eq, Structural)]
pub enum GenStage {
    /// Awaiting the front end's constraint system.
    FrontEnd,
    /// Awaiting the pass engine's optimized system.
    Optimize,
    /// Awaiting the R1CS lowering of the entry computation.
    Lower,
    /// Awaiting the linearity reduction.
    Reduce,
    /// Awaiting finalization into the key pair.
    Finalize,
    /// Awaiting persistence of the prover key.
    WriteProverKey,
    /// Awaiting persistence of the verifier key.
    WriteVerifierKey,
    /// Both keys persisted.
    Done,
    /// Aborted; absorbing.
    Failed(GenError),
}

/// The outcome of the action a Generate stage demanded.
#[derive(Clone, Copy, Debug, PartialEq, Eq, Structural)]
pub enum GenEvent {
    FrontEndDone,
    FrontEndFailed,
    OptimizeDone,
    LowerDone(R1csStats),
    ReduceDone(R1csStats),
    FinalizeDone,
    WriteDone,
    WriteFailed,
}

/// What a Generate driver demands of the surrounding program.
#[derive(Clone, Copy, Debug, PartialEq, Eq, Structural)]
pub enum GenAction {
    /// Run the front end on the source file, in proof mode.
    RunFrontEnd,
    /// Apply the selected plan, strictly in order, via the pass engine.
    RunPlan,
    /// Lower the entry computation to an R1CS instance.
    LowerToR1cs,
    /// Reduce linearities to shrink the constraint count.
    ReduceLinearities,
    /// Finalize the R1CS into the prover/verifier key pair.
    FinalizeKeys,
    /// Persist the prover key.
    PersistProverKey,
    /// Persist the verifier key.
    PersistVerifierKey,
    /// Nothing left to do.
    Finished,
    /// Abort with the recorded error; nothing further is demanded.
    Abort(GenError),
}

/// The Generate driver: the chosen mode and configuration, the current
/// stage, and the recorded diagnostics.
#[derive(Clone, Copy, Debug, PartialEq, Eq)]
pub struct GenDriver {
    pub mode: ProofMode,
    pub fits_in_bits_ip: bool,
    pub stage: GenStage,
    /// Constraint statistics before linearity reduction.
    pub lowered: Option<R1csStats>,
    /// Constraint statistics after linearity reduction.
    pub reduced: Option<R1csStats>,
}

/// The action each Generate stage demands.
pub open spec fn gen_action_for(s: GenStage) -> GenAction {
    match s {
        GenStage::FrontEnd => GenAction::RunFrontEnd,
        GenStage::Optimize => GenAction::RunPlan,
        GenStage::Lower => GenAction::LowerToR1cs,
        GenStage::Reduce => GenAction::ReduceLinearities,
        GenStage::Finalize => GenAction::FinalizeKeys,
        GenStage::WriteProverKey => GenAction::PersistProverKey,
        GenStage::WriteVerifierKey => GenAction::PersistVerifierKey,
        GenStage::Done => GenAction::Finished,
        GenStage::Failed(e) => GenAction::Abort(e),
    }
}

/// The driver a Generate run starts from.
pub open spec fn gen_init(mode: ProofMode, fits_in_bits_ip: bool) -> GenDriver {
    GenDriver { mode, fits_in_bits_ip, stage: GenStage::FrontEnd, lowered: None, reduced: None }
}

/// The driver after one event.  Terminal stages absorb; an event that
/// the current stage cannot accept fails the run.
pub open spec fn gen_next(d: GenDriver, ev: GenEvent) -> GenDriver {
    match d.stage {
        GenStage::FrontEnd => match ev {
            GenEvent::FrontEndDone => GenDriver { stage: GenStage::Optimize, ..d },
            GenEvent::FrontEndFailed => GenDriver {
                stage: GenStage::Failed(GenError::FrontEnd),
                ..d
            },
            _ => GenDriver { stage: GenStage::Failed(GenError::Protocol), ..d },
        },
        GenStage::Optimize => match ev {
            GenEvent::OptimizeDone => GenDriver { stage: GenStage::Lower, ..d },
            _ => GenDriver { stage: GenStage::Failed(GenError::Protocol), ..d },
        },
        GenStage::Lower => match ev {
            GenEvent::LowerDone(s) => GenDriver { stage: GenStage::Reduce, lowered: Some(s), ..d },
            _ => GenDriver { stage: GenStage::Failed(GenError::Protocol), ..d },
        },
        GenStage::Reduce => match ev {
            GenEvent::ReduceDone(s) => GenDriver {
                stage: GenStage::Finalize,
                reduced: Some(s),
                ..d
            },
            _ => GenDriver { stage: GenStage::Failed(GenError::Protocol), ..d },
        },
        GenStage::Finalize => match ev {
            GenEvent::FinalizeDone => GenDriver { stage: GenStage::WriteProverKey, ..d },
            _ => GenDriver { stage: GenStage::Failed(GenError::Protocol), ..d },
        },
        GenStage::WriteProverKey => match ev {
            GenEvent::WriteDone => GenDriver { stage: GenStage::WriteVerifierKey, ..d },
            GenEvent::WriteFailed => GenDriver { stage: GenStage::Failed(GenError::Persist), ..d },
            _ => GenDriver { stage: GenStage::Failed(GenError::Protocol), ..d },
        },
        GenStage::WriteVerifierKey => match ev {
            GenEvent::WriteDone => GenDriver { stage: GenStage::Done, ..d },
            GenEvent::WriteFailed => GenDriver { stage: GenStage::Failed(GenError::Persist), ..d },
            _ => GenDriver { stage: GenStage::Failed(GenError::Protocol), ..d },
        },
        GenStage::Done => d,
        GenStage::Failed(_) => d,
    }
}

impl GenDriver {
    /// Starts a Generate run for the given mode and configuration.
    pub fn new(mode: ProofMode, fits_in_bits_ip: bool) -> (d: GenDriver)
        ensures
            d == gen_init(mode, fits_in_bits_ip),
    {
        GenDriver {
            mode,
            fits_in_bits_ip,
            stage: GenStage::FrontEnd,
            lowered: None,
            reduced: None,
        }
    }

    /// The action the current stage demands of the surrounding program.
    pub fn pending(&self) -> (a: GenAction)
        ensures
            a == gen_action_for(self.stage),
    {
        match self.stage {
            GenStage::FrontEnd => GenAction::RunFrontEnd,
            GenStage::Optimize => GenAction::RunPlan,
            GenStage::Lower => GenAction::LowerToR1cs,
            GenStage::Reduce => GenAction::ReduceLinearities,
            GenStage::Finalize => GenAction::FinalizeKeys,
            GenStage::WriteProverKey => GenAction::PersistProverKey,
            GenStage::WriteVerifierKey => GenAction::PersistVerifierKey,
            GenStage::Done => GenAction::Finished,
            GenStage::Failed(e) => GenAction::Abort(e),
        }
    }

    /// The plan that `GenAction::RunPlan` asks the pass engine to
    /// apply: exactly the plan selected for this run's mode and flag.
    pub fn plan(&self) -> (p: Vec<Pass>)
        ensures
            p@ == plan_for(self.mode, self.fits_in_bits_ip),
    {
        select_plan(self.mode, self.fits_in_bits_ip)
    }

    /// Consumes the outcome of the demanded action and moves to the
    /// next stage; returns the action the new stage demands.
    pub fn step(&mut self, ev: GenEvent) -> (a: GenAction)
        ensures
            *final(self) == gen_next(*old(self), ev),
            a == gen_action_for(final(self).stage),
    {
        let next = match (self.stage, ev) {
            (GenStage::FrontEnd, GenEvent::FrontEndDone) => GenStage::Optimize,
            (GenStage::FrontEnd, GenEvent::FrontEndFailed) => GenStage::Failed(GenError::FrontEnd),
            (GenStage::FrontEnd, _) => GenStage::Failed(GenError::Protocol),
            (GenStage::Optimize, GenEvent::OptimizeDone) => GenStage::Lower,
            (GenStage::Optimize, _) => GenStage::Failed(GenError::Protocol),
            (GenStage::Lower, GenEvent::LowerDone(s)) => {
                self.lowered = Some(s);
                GenStage::Reduce
            },
            (GenStage::Lower, _) => GenStage::Failed(GenError::Protocol),
            (GenStage::Reduce, GenEvent::ReduceDone(s)) => {
                self.reduced = Some(s);
                GenStage::Finalize
            },
            (GenStage::Reduce, _) => GenStage::Failed(GenError::Protocol),
            (GenStage::Finalize, GenEvent::FinalizeDone) => GenStage::WriteProverKey,
            (GenStage::Finalize, _) => GenStage::Failed(GenError::Protocol),
            (GenStage::WriteProverKey, GenEvent::WriteDone) => GenStage::WriteVerifierKey,
            (GenStage::WriteProverKey, GenEvent::WriteFailed) => GenStage::Failed(GenError::Persist),
            (GenStage::WriteProverKey, _) => GenStage::Failed(GenError::Protocol),
            (GenStage::WriteVerifierKey, GenEvent::WriteDone) => GenStage::Done,
            (GenStage::WriteVerifierKey, GenEvent::WriteFailed) => GenStage::Failed(
                GenError::Persist,
            ),
            (GenStage::WriteVerifierKey, _) => GenStage::Failed(GenError::Protocol),
            (GenStage::Done, _) => GenStage::Done,
            (GenStage::Failed(e), _) => GenStage::Failed(e),
        };
        self.stage = next;
        self.pending()
    }
}

/// The driver after a whole sequence of events.
pub open spec fn gen_run(d: GenDriver, events: Seq<GenEvent>) -> GenDriver
    decreases events.len(),
{
    if events.len() == 0 {
        d
    } else {
        gen_run(gen_next(d, events[0]), events.skip(1))
    }
}

/// The actions a run demands, one after each event.
pub open spec fn gen_run_actions(d: GenDriver, events: Seq<GenEvent>) -> Seq<GenAction>
    decreases events.len(),
{
    if events.len() == 0 {
        Seq::empty()
    } else {
        seq![gen_action_for(gen_next(d, events[0]).stage)] + gen_run_actions(
            gen_next(d, events[0]),
            events.skip(1),
        )
    }
}

/// A failed Generate run is absorbing: whatever events still arrive,
/// the driver stays failed and demands nothing but the abort.
pub proof fn lemma_gen_failed_absorbs(d: GenDriver, events: Seq<GenEvent>)
    requires
        d.stage is Failed,
    ensures
        gen_run(d, events) == d,
        gen_run_actions(d, events).len() == events.len(),
        forall|i: int|
            0 <= i < events.len() ==> #[trigger] gen_run_actions(d, events)[i] == gen_action_for(
                d.stage,
            ),
    decreases events.len(),
{
    if events.len() > 0 {
        assert(gen_next(d, events[0]) == d);
        lemma_gen_failed_absorbs(d, events.skip(1));
        assert forall|i: int| 0 <= i < events.len() implies #[trigger] gen_run_actions(d, events)[i]
            == gen_action_for(d.stage) by {
            if i > 0 {
                assert(gen_run_actions(d, events)[i] == gen_run_actions(d, events.skip(1))[i - 1]);
            }
        }
    }
}

/// Law: fatal without partial output.  If the front-end stage fails,
/// the whole run ends failed and no action it ever demands persists a
/// key, so neither key file is created or modified.
pub proof fn lemma_front_end_failure_persists_nothing(
    mode: ProofMode,
    fits_in_bits_ip: bool,
    events: Seq<GenEvent>,
)
    requires
        events.len() > 0,
        events[0] == GenEvent::FrontEndFailed,
    ensures
        gen_run(gen_init(mode, fits_in_bits_ip), events).stage == GenStage::Failed(
            GenError::FrontEnd,
        ),
        forall|i: int|
            0 <= i < events.len() ==> #[trigger] gen_run_actions(
                gen_init(mode, fits_in_bits_ip),
                events,
            )[i] == GenAction::Abort(GenError::FrontEnd),
{
    let d0 = gen_init(mode, fits_in_bits_ip);
    let d1 = gen_next(d0, events[0]);
    assert(d1.stage == GenStage::Failed(GenError::FrontEnd));
    lemma_gen_failed_absorbs(d1, events.skip(1));
    assert forall|i: int| 0 <= i < events.len() implies #[trigger] gen_run_actions(d0, events)[i]
        == GenAction::Abort(GenError::FrontEnd) by {
        if i > 0 {
            assert(gen_run_actions(d0, events)[i] == gen_run_actions(d1, events.skip(1))[i - 1]);
        }
    }
}

/// Law: a Generate run is deterministic.  Equal modes, flags and stage
/// outcomes traverse equal states, demand equal actions, and hand the
/// pass engine equal plans — so a fixed circuit compiled twice under
/// one mode yields R1CS instances with identical recorded statistics.
pub proof fn lemma_generate_deterministic(
    m1: ProofMode,
    f1: bool,
    e1: Seq<GenEvent>,
    m2: ProofMode,
    f2: bool,
    e2: Seq<GenEvent>,
)
    requires
        m1 == m2,
        f1 == f2,
        e1 == e2,
    ensures
        gen_run(gen_init(m1, f1), e1) == gen_run(gen_init(m2, f2), e2),
        gen_run_actions(gen_init(m1, f1), e1) == gen_run_actions(gen_init(m2, f2), e2),
        plan_for(m1, f1) == plan_for(m2, f2),
{
}

/// The events of a Generate run in which every stage succeeds.
pub open spec fn gen_success_events(s1: R1csStats, s2: R1csStats) -> Seq<GenEvent> {
    seq![
        GenEvent::FrontEndDone,
        GenEvent::OptimizeDone,
        GenEvent::LowerDone(s1),
        GenEvent::ReduceDone(s2),
        GenEvent::FinalizeDone,
        GenEvent::WriteDone,
        GenEvent::WriteDone,
    ]
}

/// Law: a successful Generate run passes its stage boundaries in
/// order — optimize, lower, reduce, finalize, then persist the prover
/// key and only then the verifier key — and finishes with both
/// statistics recorded.
pub proof fn lemma_generate_success_order(
    mode: ProofMode,
    fits_in_bits_ip: bool,
    s1: R1csStats,
    s2: R1csStats,
)
    ensures
        gen_run(gen_init(mode, fits_in_bits_ip), gen_success_events(s1, s2)) == (GenDriver {
            mode,
            fits_in_bits_ip,
            stage: GenStage::Done,
            lowered: Some(s1),
            reduced: Some(s2),
        }),
        gen_run_actions(gen_init(mode, fits_in_bits_ip), gen_success_events(s1, s2)) == seq![
            GenAction::RunPlan,
            GenAction::LowerToR1cs,
            GenAction::ReduceLinearities,
            GenAction::FinalizeKeys,
            GenAction::PersistProverKey,
            GenAction::PersistVerifierKey,
            GenAction::Finished,
        ],
{
    let e0 = gen_success_events(s1, s2);
    let e1 = e0.skip(1);
    let e2 = e1.skip(1);
    let e3 = e2.skip(1);
    let e4 = e3.skip(1);
    let e5 = e4.skip(1);
    let e6 = e5.skip(1);
    let e7 = e6.skip(1);
    assert(e1 =~= seq![
        GenEvent::OptimizeDone,
        GenEvent::LowerDone(s1),
        GenEvent::ReduceDone(s2),
        GenEvent::FinalizeDone,
        GenEvent::WriteDone,
        GenEvent::WriteDone,
    ]);
    assert(e2 =~= seq![
        GenEvent::LowerDone(s1),
        GenEvent::ReduceDone(s2),
        GenEvent::FinalizeDone,
        GenEvent::WriteDone,
        GenEvent::WriteDone,
    ]);
    assert(e3 =~= seq![
        GenEvent::ReduceDone(s2),
        GenEvent::FinalizeDone,
        GenEvent::WriteDone,
        GenEvent::WriteDone,
    ]);
    assert(e4 =~= seq![GenEvent::FinalizeDone, GenEvent::WriteDone, GenEvent::WriteDone]);
    assert(e5 =~= seq![GenEvent::WriteDone, GenEvent::WriteDone]);
    assert(e6 =~= seq![GenEvent::WriteDone]);
    assert(e7 =~= Seq::<GenEvent>::empty());
    let d0 = gen_init(mode, fits_in_bits_ip);
    let d1 = gen_next(d0, e0[0]);
    let d2 = gen_next(d1, e1[0]);
    let d3 = gen_next(d2, e2[0]);
    let d4 = gen_next(d3, e3[0]);
    let d5 = gen_next(d4, e4[0]);
    let d6 = gen_next(d5, e5[0]);
    let d7 = gen_next(d6, e6[0]);
    assert(d1.stage == GenStage::Optimize);
    assert(d2.stage == GenStage::Lower);
    assert(d3.stage == GenStage::Reduce && d3.lowered == Some(s1));
    assert(d4.stage == GenStage::Finalize && d4.reduced == Some(s2));
    assert(d5.stage == GenStage::WriteProverKey);
    assert(d6.stage == GenStage::WriteVerifierKey);
    assert(d7.stage == GenStage::Done);
    assert(gen_run(d0, e0) == gen_run(d1, e1));
    assert(gen_run(d1, e1) == gen_run(d2, e2));
    assert(gen_run(d2, e2) == gen_run(d3, e3));
    assert(gen_run(d3, e3) == gen_run(d4, e4));
    assert(gen_run(d4, e4) == gen_run(d5, e5));
    assert(gen_run(d5, e5) == gen_run(d6, e6));
    assert(gen_run(d6, e6) == gen_run(d7, e7));
    assert(gen_run(d7, e7) == d7);
    assert(gen_run_actions(d7, e7) =~= Seq::<GenAction>::empty());
    assert(gen_run_actions(d6, e6) == seq![gen_action_for(d7.stage)] + gen_run_actions(d7, e7));
    assert(gen_run_actions(d5, e5) == seq![gen_action_for(d6.stage)] + gen_run_actions(d6, e6));
    assert(gen_run_actions(d4, e4) == seq![gen_action_for(d5.stage)] + gen_run_actions(d5, e5));
    assert(gen_run_actions(d3, e3) == seq![gen_action_for(d4.stage)] + gen_run_actions(d4, e4));
    assert(gen_run_actions(d2, e2) == seq![gen_action_for(d3.stage)] + gen_run_actions(d3, e3));
    assert(gen_run_actions(d1, e1) == seq![gen_action_for(d2.stage)] + gen_run_actions(d2, e2));
    assert(gen_run_actions(d0, e0) == seq![gen_action_for(d1.stage)] + gen_run_actions(d1, e1));
    assert(gen_run_actions(d0, e0) =~= seq![
        GenAction::RunPlan,
        GenAction::LowerToR1cs,
        GenAction::ReduceLinearities,
        GenAction::FinalizeKeys,
        GenAction::PersistProverKey,
        GenAction::PersistVerifierKey,
        GenAction::Finished,
    ]);
}

/// Why a Prove run failed.  Each condition is reported distinctly.
#[derive(Clone, Copy, Debug, PartialEq, Eq, Structural)]
pub enum ProveError {
    /// The private input-assignment file did not parse.
    MalformedInput,
    /// The prover-key file was absent or corrupt.
    KeyUnavailable,
    /// The prover itself failed, e.g. the assignment does not satisfy
    /// the constraint system.
    ProverFailure,
    /// An output file could not be written.
    Persist,
    /// An event arrived that the current stage cannot accept.
    Protocol,
}

/// The stages of a Prove run, in the order they are passed.
#[derive(Clone, Copy, Debug, PartialEq, Eq, Structural)]
pub enum ProveStage {
    /// Awaiting the parsed private input assignment.
    ParseInput,
    /// Awaiting the loaded prover key.
    LoadKey,
    /// Awaiting the prover's generators, instance and proof.
    RunProver,
    /// Awaiting persistence of the generators.
    WriteGenerators,
    /// Awaiting persistence of the instance.
    WriteInstance,
    /// Awaiting persistence of the proof.
    WriteProof,
    /// All three artifacts persisted.
    Done,
    /// Aborted; absorbing.
    Failed(ProveError),
}

/// The outcome of the action a Prove stage demanded.
#[derive(Clone, Copy, Debug, PartialEq, Eq, Structural)]
pub enum ProveEvent {
    InputParsed,
    InputMalformed,
    KeyLoaded,
    KeyUnavailable,
    ProverDone,
    ProverFailed,
    WriteDone,
    WriteFailed,
}

/// What a Prove driver demands of the surrounding program.  Only the
/// three derived artifacts are ever persisted: no action writes or
/// logs the witness values themselves.
#[derive(Clone, Copy, Debug, PartialEq, Eq, Structural)]
pub enum ProveAction {
    /// Parse the private input-assignment file into bindings.
    ParseInputFile,
    /// Load the prover key from its file.
    LoadProverKey,
    /// Invoke the prover with the key and the assignment.
    RunProver,
    /// Persist the generators.
    PersistGenerators,
    /// Persist the instance.
    PersistInstance,
    /// Persist the proof.
    PersistProof,
    /// Nothing left to do.
    Finished,
    /// Abort with the recorded error.
    Abort(ProveError),
}

/// The Prove driver.
#[derive(Clone, Copy, Debug, PartialEq, Eq, Structural)]
pub struct ProveDriver {
    pub stage: ProveStage,
}

/// The action each Prove stage demands.
pub open spec fn prove_action_for(s: ProveStage) -> ProveAction {
    match s {
        ProveStage::ParseInput => ProveAction::ParseInputFile,
        ProveStage::LoadKey => ProveAction::LoadProverKey,
        ProveStage::RunProver => ProveAction::RunProver,
        ProveStage::WriteGenerators => ProveAction::PersistGenerators,
        ProveStage::WriteInstance => ProveAction::PersistInstance,
        ProveStage::WriteProof => ProveAction::PersistProof,
        ProveStage::Done => ProveAction::Finished,
        ProveStage::Failed(e) => ProveAction::Abort(e),
    }
}

/// An action that writes an output file.
pub open spec fn prove_action_persists(a: ProveAction) -> bool {
    a == ProveAction::PersistGenerators || a == ProveAction::PersistInstance || a
        == ProveAction::PersistProof
}

pub open spec fn prove_init() -> ProveDriver {
    ProveDriver { stage: ProveStage::ParseInput }
}

/// The driver after one event.
pub open spec fn prove_next(d: ProveDriver, ev: ProveEvent) -> ProveDriver {
    match d.stage {
        ProveStage::ParseInput => match ev {
            ProveEvent::InputParsed => ProveDriver { stage: ProveStage::LoadKey },
            ProveEvent::InputMalformed => ProveDriver {
                stage: ProveStage::Failed(ProveError::MalformedInput),
            },
            _ => ProveDriver { stage: ProveStage::Failed(ProveError::Protocol) },
        },
        ProveStage::LoadKey => match ev {
            ProveEvent::KeyLoaded => ProveDriver { stage: ProveStage::RunProver },
            ProveEvent::KeyUnavailable => ProveDriver {
                stage: ProveStage::Failed(ProveError::KeyUnavailable),
            },
            _ => ProveDriver { stage: ProveStage::Failed(ProveError::Protocol) },
        },
        ProveStage::RunProver => match ev {
            ProveEvent::ProverDone => ProveDriver { stage: ProveStage::WriteGenerators },
            ProveEvent::ProverFailed => ProveDriver {
                stage: ProveStage::Failed(ProveError::ProverFailure),
            },
            _ => ProveDriver { stage: ProveStage::Failed(ProveError::Protocol) },
        },
        ProveStage::WriteGenerators => match ev {
            ProveEvent::WriteDone => ProveDriver { stage: ProveStage::WriteInstance },
            ProveEvent::WriteFailed => ProveDriver {
                stage: ProveStage::Failed(ProveError::Persist),
            },
            _ => ProveDriver { stage: ProveStage::Failed(ProveError::Protocol) },
        },
        ProveStage::WriteInstance => match ev {
            ProveEvent::WriteDone => ProveDriver { stage: ProveStage::WriteProof },
            ProveEvent::WriteFailed => ProveDriver {
                stage: ProveStage::Failed(ProveError::Persist),
            },
            _ => ProveDriver { stage: ProveStage::Failed(ProveError::Protocol) },
        },
        ProveStage::WriteProof => match ev {
            ProveEvent::WriteDone => ProveDriver { stage: ProveStage::Done },
            ProveEvent::WriteFailed => ProveDriver {
                stage: ProveStage::Failed(ProveError::Persist),
            },
            _ => ProveDriver { stage: ProveStage::Failed(ProveError::Protocol) },
        },
        ProveStage::Done => d,
        ProveStage::Failed(_) => d,
    }
}

impl ProveDriver {
    /// Starts a Prove run.
    pub fn new() -> (d: ProveDriver)
        ensures
            d == prove_init(),
    {
        ProveDriver { stage: ProveStage::ParseInput }
    }

    /// The action the current stage demands.
    pub fn pending(&self) -> (a: ProveAction)
        ensures
            a == prove_action_for(self.stage),
    {
        match self.stage {
            ProveStage::ParseInput => ProveAction::ParseInputFile,
            ProveStage::LoadKey => ProveAction::LoadProverKey,
            ProveStage::RunProver => ProveAction::RunProver,
            ProveStage::WriteGenerators => ProveAction::PersistGenerators,
            ProveStage::WriteInstance => ProveAction::PersistInstance,
            ProveStage::WriteProof => ProveAction::PersistProof,
            ProveStage::Done => ProveAction::Finished,
            ProveStage::Failed(e) => ProveAction::Abort(e),
        }
    }

    /// Consumes the outcome of the demanded action; returns the action
    /// the new stage demands.
    pub fn step(&mut self, ev: ProveEvent) -> (a: ProveAction)
        ensures
            *final(self) == prove_next(*old(self), ev),
            a == prove_action_for(final(self).stage),
    {
        let next = match (self.stage, ev) {
            (ProveStage::ParseInput, ProveEvent::InputParsed) => ProveStage::LoadKey,
            (ProveStage::ParseInput, ProveEvent::InputMalformed) => ProveStage::Failed(
                ProveError::MalformedInput,
            ),
            (ProveStage::ParseInput, _) => ProveStage::Failed(ProveError::Protocol),
            (ProveStage::LoadKey, ProveEvent::KeyLoaded) => ProveStage::RunProver,
            (ProveStage::LoadKey, ProveEvent::KeyUnavailable) => ProveStage::Failed(
                ProveError::KeyUnavailable,
            ),
            (ProveStage::LoadKey, _) => ProveStage::Failed(ProveError::Protocol),
            (ProveStage::RunProver, ProveEvent::ProverDone) => ProveStage::WriteGenerators,
            (ProveStage::RunProver, ProveEvent::ProverFailed) => ProveStage::Failed(
                ProveError::ProverFailure,
            ),
            (ProveStage::RunProver, _) => ProveStage::Failed(ProveError::Protocol),
            (ProveStage::WriteGenerators, ProveEvent::WriteDone) => ProveStage::WriteInstance,
            (ProveStage::WriteGenerators, ProveEvent::WriteFailed) => ProveStage::Failed(
                ProveError::Persist,
            ),
            (ProveStage::WriteGenerators, _) => ProveStage::Failed(ProveError::Protocol),
            (ProveStage::WriteInstance, ProveEvent::WriteDone) => ProveStage::WriteProof,
            (ProveStage::WriteInstance, ProveEvent::WriteFailed) => ProveStage::Failed(
                ProveError::Persist,
            ),
            (ProveStage::WriteInstance, _) => ProveStage::Failed(ProveError::Protocol),
            (ProveStage::WriteProof, ProveEvent::WriteDone) => ProveStage::Done,
            (ProveStage::WriteProof, ProveEvent::WriteFailed) => ProveStage::Failed(
                ProveError::Persist,
            ),
            (ProveStage::WriteProof, _) => ProveStage::Failed(ProveError::Protocol),
            (ProveStage::Done, _) => ProveStage::Done,
            (ProveStage::Failed(e), _) => ProveStage::Failed(e),
        };
        self.stage = next;
        self.pending()
    }
}

/// The Prove driver after a whole sequence of events.
pub open spec fn prove_run(d: ProveDriver, events: Seq<ProveEvent>) -> ProveDriver
    decreases events.len(),
{
    if events.len() == 0 {
        d
    } else {
        prove_run(prove_next(d, events[0]), events.skip(1))
    }
}

/// The actions a Prove run demands, one after each event.
pub open spec fn prove_run_actions(d: ProveDriver, events: Seq<ProveEvent>) -> Seq<ProveAction>
    decreases events.len(),
{
    if events.len() == 0 {
        Seq::empty()
    } else {
        seq![prove_action_for(prove_next(d, events[0]).stage)] + prove_run_actions(
            prove_next(d, events[0]),
            events.skip(1),
        )
    }
}

/// A stage from which no output file has been demanded yet.
pub open spec fn prove_pre_output(s: ProveStage) -> bool {
    s == ProveStage::ParseInput || s == ProveStage::LoadKey || s == ProveStage::RunProver
        || s is Failed
}

/// From a stage before any output, a run that never sees the prover
/// succeed demands no write at all.
pub proof fn lemma_prove_pre_output_run(d: ProveDriver, events: Seq<ProveEvent>)
    requires
        prove_pre_output(d.stage),
        forall|i: int| 0 <= i < events.len() ==> #[trigger] events[i] != ProveEvent::ProverDone,
    ensures
        prove_pre_output(prove_run(d, events).stage),
        prove_run_actions(d, events).len() == events.len(),
        forall|i: int|
            0 <= i < events.len() ==> !prove_action_persists(
                #[trigger] prove_run_actions(d, events)[i],
            ),
    decreases events.len(),
{
    if events.len() > 0 {
        let d1 = prove_next(d, events[0]);
        assert(events[0] != ProveEvent::ProverDone);
        assert(prove_pre_output(d1.stage));
        assert forall|i: int| 0 <= i < events.skip(1).len() implies #[trigger] events.skip(1)[i]
            != ProveEvent::ProverDone by {
            assert(events.skip(1)[i] == events[i + 1]);
        }
        lemma_prove_pre_output_run(d1, events.skip(1));
        assert forall|i: int| 0 <= i < events.len() implies !prove_action_persists(
            #[trigger] prove_run_actions(d, events)[i],
        ) by {
            if i > 0 {
                assert(prove_run_actions(d, events)[i] == prove_run_actions(d1, events.skip(1))[i
                    - 1]);
            }
        }
    }
}

/// Law: no partial output.  A Prove run whose input, key or prover
/// stage fails — more generally, any run in which the prover never
/// succeeds — demands no write of any output file; and the witness
/// itself is never written in any run, since no action persists it.
pub proof fn lemma_prove_no_output_without_prover(events: Seq<ProveEvent>)
    requires
        forall|i: int| 0 <= i < events.len() ==> #[trigger] events[i] != ProveEvent::ProverDone,
    ensures
        forall|i: int|
            0 <= i < events.len() ==> !prove_action_persists(
                #[trigger] prove_run_actions(prove_init(), events)[i],
            ),
{
    lemma_prove_pre_output_run(prove_init(), events);
}

/// Why a Verify run failed operationally.  Operational failure is
/// disjoint by construction from the verifier's accept/reject verdict.
#[derive(Clone, Copy, Debug, PartialEq, Eq, Structural)]
pub enum VerifyError {
    /// The public input-assignment file did not parse.
    MalformedInput,
    /// The verifier-key file was absent or corrupt.
    KeyUnavailable,
    /// The generators file was absent or corrupt.
    GeneratorsUnavailable,
    /// The instance file was absent or corrupt.
    InstanceUnavailable,
    /// The proof file was absent or corrupt.
    ProofUnavailable,
    /// An event arrived that the current stage cannot accept.
    Protocol,
}

/// The stages of a Verify run, in the order they are passed.
#[derive(Clone, Copy, Debug, PartialEq, Eq, Structural)]
pub enum VerifyStage {
    /// Awaiting the parsed public input assignment.
    ParseInput,
    /// Awaiting the loaded verifier key.
    LoadKey,
    /// Awaiting the loaded generators.
    LoadGenerators,
    /// Awaiting the loaded instance.
    LoadInstance,
    /// Awaiting the loaded proof.
    LoadProof,
    /// Awaiting the verifier's verdict.
    RunVerifier,
    /// The verifier accepted the proof.
    Accepted,
    /// The verifier rejected the proof: an expected, first-class
    /// outcome, not an error.
    Rejected,
    /// Aborted on an operational error; absorbing.
    Failed(VerifyError),
}

/// The outcome of the action a Verify stage demanded.
#[derive(Clone, Copy, Debug, PartialEq, Eq, Structural)]
pub enum VerifyEvent {
    InputParsed,
    InputMalformed,
    Loaded,
    LoadFailed,
    VerifierAccepted,
    VerifierRejected,
}

/// What a Verify driver demands of the surrounding program.
#[derive(Clone, Copy, Debug, PartialEq, Eq, Structural)]
pub enum VerifyAction {
    /// Parse the public input-assignment file into bindings.
    ParseInputFile,
    /// Load the verifier key from its file.
    LoadVerifierKey,
    /// Load the generators from their file.
    LoadGenerators,
    /// Load the instance from its file.
    LoadInstance,
    /// Load the proof from its file.
    LoadProof,
    /// Invoke the verifier with everything loaded.
    RunVerifier,
    /// Report the verdict; nothing left to do.
    Report,
    /// Abort with the recorded error.
    Abort(VerifyError),
}

/// The Verify driver.
#[derive(Clone, Copy, Debug, PartialEq, Eq, Structural)]
pub struct VerifyDriver {
    pub stage: VerifyStage,
}

/// The action each Verify stage demands.
pub open spec fn verify_action_for(s: VerifyStage) -> VerifyAction {
    match s {
        VerifyStage::ParseInput => VerifyAction::ParseInputFile,
        VerifyStage::LoadKey => VerifyAction::LoadVerifierKey,
        VerifyStage::LoadGenerators => VerifyAction::LoadGenerators,
        VerifyStage::LoadInstance => VerifyAction::LoadInstance,
        VerifyStage::LoadProof => VerifyAction::LoadProof,
        VerifyStage::RunVerifier => VerifyAction::RunVerifier,
        VerifyStage::Accepted => VerifyAction::Report,
        VerifyStage::Rejected => VerifyAction::Report,
        VerifyStage::Failed(e) => VerifyAction::Abort(e),
    }
}

pub open spec fn verify_init() -> VerifyDriver {
    VerifyDriver { stage: VerifyStage::ParseInput }
}

/// The driver after one event.
pub open spec fn verify_next(d: VerifyDriver, ev: VerifyEvent) -> VerifyDriver {
    match d.stage {
        VerifyStage::ParseInput => match ev {
            VerifyEvent::InputParsed => VerifyDriver { stage: VerifyStage::LoadKey },
            VerifyEvent::InputMalformed => VerifyDriver {
                stage: VerifyStage::Failed(VerifyError::MalformedInput),
            },
            _ => VerifyDriver { stage: VerifyStage::Failed(VerifyError::Protocol) },
        },
        VerifyStage::LoadKey => match ev {
            VerifyEvent::Loaded => VerifyDriver { stage: VerifyStage::LoadGenerators },
            VerifyEvent::LoadFailed => VerifyDriver {
                stage: VerifyStage::Failed(VerifyError::KeyUnavailable),
            },
            _ => VerifyDriver { stage: VerifyStage::Failed(VerifyError::Protocol) },
        },
        VerifyStage::LoadGenerators => match ev {
            VerifyEvent::Loaded => VerifyDriver { stage: VerifyStage::LoadInstance },
            VerifyEvent::LoadFailed => VerifyDriver {
                stage: VerifyStage::Failed(VerifyError::GeneratorsUnavailable),
            },
            _ => VerifyDriver { stage: VerifyStage::Failed(VerifyError::Protocol) },
        },
        VerifyStage::LoadInstance => match ev {
            VerifyEvent::Loaded => VerifyDriver { stage: VerifyStage::LoadProof },
            VerifyEvent::LoadFailed => VerifyDriver {
                stage: VerifyStage::Failed(VerifyError::InstanceUnavailable),
            },
            _ => VerifyDriver { stage: VerifyStage::Failed(VerifyError::Protocol) },
        },
        VerifyStage::LoadProof => match ev {
            VerifyEvent::Loaded => VerifyDriver { stage: VerifyStage::RunVerifier },
            VerifyEvent::LoadFailed => VerifyDriver {
                stage: VerifyStage::Failed(VerifyError::ProofUnavailable),
            },
            _ => VerifyDriver { stage: VerifyStage::Failed(VerifyError::Protocol) },
        },
        VerifyStage::RunVerifier => match ev {
            VerifyEvent::VerifierAccepted => VerifyDriver { stage: VerifyStage::Accepted },
            VerifyEvent::VerifierRejected => VerifyDriver { stage: VerifyStage::Rejected },
            _ => VerifyDriver { stage: VerifyStage::Failed(VerifyError::Protocol) },
        },
        VerifyStage::Accepted => d,
        VerifyStage::Rejected => d,
        VerifyStage::Failed(_) => d,
    }
}

/// The reported outcome of a Verify run, once it has one: accept and
/// reject are verdicts, never conflated with an operational error.
pub open spec fn verify_outcome(s: VerifyStage) -> Option<Result<bool, VerifyError>> {
    match s {
        VerifyStage::Accepted => Some(Ok(true)),
        VerifyStage::Rejected => Some(Ok(false)),
        VerifyStage::Failed(e) => Some(Err(e)),
        _ => None,
    }
}

impl VerifyDriver {
    /// Starts a Verify run.
    pub fn new() -> (d: VerifyDriver)
        ensures
            d == verify_init(),
    {
        VerifyDriver { stage: VerifyStage::ParseInput }
    }

    /// The action the current stage demands.
    pub fn pending(&self) -> (a: VerifyAction)
        ensures
            a == verify_action_for(self.stage),
    {
        match self.stage {
            VerifyStage::ParseInput => VerifyAction::ParseInputFile,
            VerifyStage::LoadKey => VerifyAction::LoadVerifierKey,
            VerifyStage::LoadGenerators => VerifyAction::LoadGenerators,
            VerifyStage::LoadInstance => VerifyAction::LoadInstance,
            VerifyStage::LoadProof => VerifyAction::LoadProof,
            VerifyStage::RunVerifier => VerifyAction::RunVerifier,
            VerifyStage::Accepted => VerifyAction::Report,
            VerifyStage::Rejected => VerifyAction::Report,
            VerifyStage::Failed(e) => VerifyAction::Abort(e),
        }
    }

    /// The run's verdict or error, once it has one.
    pub fn outcome(&self) -> (r: Option<Result<bool, VerifyError>>)
        ensures
            r == verify_outcome(self.stage),
    {
        match self.stage {
            VerifyStage::Accepted => Some(Ok(true)),
            VerifyStage::Rejected => Some(Ok(false)),
            VerifyStage::Failed(e) => Some(Err(e)),
            _ => None,
        }
    }

    /// Consumes the outcome of the demanded action; returns the action
    /// the new stage demands.
    pub fn step(&mut self, ev: VerifyEvent) -> (a: VerifyAction)
        ensures
            *final(self) == verify_next(*old(self), ev),
            a == verify_action_for(final(self).stage),
    {
        let next = match (self.stage, ev) {
            (VerifyStage::ParseInput, VerifyEvent::InputParsed) => VerifyStage::LoadKey,
            (VerifyStage::ParseInput, VerifyEvent::InputMalformed) => VerifyStage::Failed(
                VerifyError::MalformedInput,
            ),
            (VerifyStage::ParseInput, _) => VerifyStage::Failed(VerifyError::Protocol),
            (VerifyStage::LoadKey, VerifyEvent::Loaded) => VerifyStage::LoadGenerators,
            (VerifyStage::LoadKey, VerifyEvent::LoadFailed) => VerifyStage::Failed(
                VerifyError::KeyUnavailable,
            ),
            (VerifyStage::LoadKey, _) => VerifyStage::Failed(VerifyError::Protocol),
            (VerifyStage::LoadGenerators, VerifyEvent::Loaded) => VerifyStage::LoadInstance,
            (VerifyStage::LoadGenerators, VerifyEvent::LoadFailed) => VerifyStage::Failed(
                VerifyError::GeneratorsUnavailable,
            ),
            (VerifyStage::LoadGenerators, _) => VerifyStage::Failed(VerifyError::Protocol),
            (VerifyStage::LoadInstance, VerifyEvent::Loaded) => VerifyStage::LoadProof,
            (VerifyStage::LoadInstance, VerifyEvent::LoadFailed) => VerifyStage::Failed(
                VerifyError::InstanceUnavailable,
            ),
            (VerifyStage::LoadInstance, _) => VerifyStage::Failed(VerifyError::Protocol),
            (VerifyStage::LoadProof, VerifyEvent::Loaded) => VerifyStage::RunVerifier,
            (VerifyStage::LoadProof, VerifyEvent::LoadFailed) => VerifyStage::Failed(
                VerifyError::ProofUnavailable,
            ),
            (VerifyStage::LoadProof, _) => VerifyStage::Failed(VerifyError::Protocol),
            (VerifyStage::RunVerifier, VerifyEvent::VerifierAccepted) => VerifyStage::Accepted,
            (VerifyStage::RunVerifier, VerifyEvent::VerifierRejected) => VerifyStage::Rejected,
            (VerifyStage::RunVerifier, _) => VerifyStage::Failed(VerifyError::Protocol),
            (VerifyStage::Accepted, _) => VerifyStage::Accepted,
            (VerifyStage::Rejected, _) => VerifyStage::Rejected,
            (VerifyStage::Failed(e), _) => VerifyStage::Failed(e),
        };
        self.stage = next;
        self.pending()
    }
}

/// The Verify driver after a whole sequence of events.
pub open spec fn verify_run(d: VerifyDriver, events: Seq<VerifyEvent>) -> VerifyDriver
    decreases events.len(),
{
    if events.len() == 0 {
        d
    } else {
        verify_run(verify_next(d, events[0]), events.skip(1))
    }
}

/// Law: rejection is a verdict of the verifier alone.  A run reaches
/// the rejected stage only because a verdict event from the verifier
/// said so — never from a missing file, a corrupt encoding or any other
/// operational error, which all end in a distinct failed stage.
pub proof fn lemma_rejection_only_from_verifier(d: VerifyDriver, events: Seq<VerifyEvent>)
    requires
        d.stage != VerifyStage::Rejected,
        verify_run(d, events).stage == VerifyStage::Rejected,
    ensures
        exists|i: int| 0 <= i < events.len() && events[i] == VerifyEvent::VerifierRejected,
    decreases events.len(),
{
    let d1 = verify_next(d, events[0]);
    if d1.stage == VerifyStage::Rejected {
        assert(events[0] == VerifyEvent::VerifierRejected);
    } else {
        lemma_rejection_only_from_verifier(d1, events.skip(1));
        let i = choose|i: int|
            0 <= i < events.skip(1).len() && events.skip(1)[i] == VerifyEvent::VerifierRejected;
        assert(events[i + 1] == VerifyEvent::VerifierRejected);
    }
}

} // verus!
