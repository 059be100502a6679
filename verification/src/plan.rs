//! Pass catalog and optimization plan selection.
//!
//! A plan is an ordered sequence of constraint-system rewrite passes.
//! Order is semantically significant: some passes leave tuple-valued
//! intermediates behind, and R1CS lowering requires a tuple-free, fully
//! scalarized representation, so a tuple-elimination pass must follow
//! them before the plan ends.

use vstd::prelude::*;

verus! {

/// Operator kinds that a constant-folding pass can be told to leave
/// symbolic, so that downstream bit-width analyses still see them in
/// their original form.
#[derive(Clone, Copy, Debug, PartialEq, Eq, Structural)]
pub enum OpKind {
    ShiftLeft,
    ShiftRight,
}

/// The exclusion set carried by a constant-folding pass: the operator
/// kinds that the pass must not fold away.
#[derive(Clone, Copy, Debug, PartialEq, Eq, Structural)]
pub struct FoldExclusions {
    pub shift_left: bool,
    pub shift_right: bool,
}

impl FoldExclusions {
    /// Membership of an operator kind in the exclusion set.
    pub open spec fn contains(self, k: OpKind) -> bool {
        match k {
            OpKind::ShiftLeft => self.shift_left,
            OpKind::ShiftRight => self.shift_right,
        }
    }

    pub fn excludes(&self, k: OpKind) -> (r: bool)
        ensures
            r == self.contains(k),
    {
        match k {
            OpKind::ShiftLeft => self.shift_left,
            OpKind::ShiftRight => self.shift_right,
        }
    }
}

/// The exclusion set used by plans that fold every operator.
pub open spec fn no_exclusions() -> FoldExclusions {
    FoldExclusions { shift_left: false, shift_right: false }
}

/// The exclusion set used by plans that must keep shift operators
/// symbolic for bit-width analysis.
pub open spec fn shift_exclusions() -> FoldExclusions {
    FoldExclusions { shift_left: true, shift_right: true }
}

/// The catalog of constraint-system rewrite passes.  A pass is a pure
/// transformation applied by the external pass engine; its identity is
/// the tag together with its parameters.
#[derive(Clone, Copy, Debug, PartialEq, Eq, Structural)]
pub enum Pass {
    /// Replace compound variables by scalar ones.
    ScalarizeVars,
    /// Flatten nested terms.
    Flatten,
    /// Rewrite hash-specific substructures.
    Sha,
    /// Fold constants, leaving the excluded operator kinds symbolic.
    ConstantFold(FoldExclusions),
    /// Eliminate tuple-valued intermediates.
    Tuple,
    /// Eliminate oblivious array accesses; leaves tuples behind.
    Obliv,
    /// Replace random access by linear scans; leaves tuples behind.
    LinearScan,
    /// Binarize n-ary terms.
    Binarize,
    /// Turn skolemized witness terms back into explicit witnesses.
    DeskolemizeWitnesses,
    /// Recognize conditional-store patterns.
    ParseCondStores,
    /// Encode set-membership checks.
    SetMembership,
    /// Eliminate persistent random-access memory.
    PersistentRam,
    /// Eliminate volatile random-access memory.
    VolatileRam,
    /// Inner-product encoding of fits-in-bits checks; optional.
    FitsInBitsIp,
    /// Introduce skolem constants for verifier challenges.
    SkolemizeChallenges,
}

/// The proof mode chosen at Generate time.  The mode is immutable once
/// chosen and is recorded only through the plan that was run.
#[derive(Clone, Copy, Debug, PartialEq, Eq, Structural)]
pub enum ProofMode {
    /// Optimize only; minimal plan.
    Opt,
    /// Multi-party computation with the given number of parties.
    Mpc(u8),
    /// Zero-knowledge proof.
    Proof,
    /// Zero-knowledge proof of a value above the given threshold.
    ProofOfHighValue(u64),
}

/// The plan for `ProofMode::Opt`: scalarization must precede folding
/// because folding only recognizes scalar operations.
pub open spec fn opt_plan() -> Seq<Pass> {
    seq![Pass::ScalarizeVars, Pass::ConstantFold(no_exclusions())]
}

/// The plan for `ProofMode::Mpc`: shift operators are excluded from
/// folding to preserve their symbolic form for bit-width analysis, and
/// tuple elimination is re-run after every pass that can reintroduce
/// tuple-valued intermediates.
pub open spec fn mpc_plan() -> Seq<Pass> {
    seq![
        Pass::ScalarizeVars,
        Pass::Flatten,
        Pass::Sha,
        Pass::ConstantFold(shift_exclusions()),
        Pass::Flatten,
        Pass::Tuple,
        Pass::Obliv,
        Pass::Tuple,
        Pass::LinearScan,
        Pass::Tuple,
        Pass::ConstantFold(shift_exclusions()),
        Pass::Binarize,
    ]
}

/// The plan for `ProofMode::Proof` and `ProofMode::ProofOfHighValue`:
/// witness deskolemization precedes scalarization, all RAM-elimination
/// passes precede challenge skolemization, the fits-in-bits pass is
/// inserted exactly when the configuration flag is set and immediately
/// before challenge skolemization, and the plan ends with a flatten and
/// a final unrestricted fold to normalize the representation before
/// R1CS lowering.
pub open spec fn proof_plan(fits_in_bits_ip: bool) -> Seq<Pass> {
    if fits_in_bits_ip {
        seq![
            Pass::ConstantFold(no_exclusions()),
            Pass::DeskolemizeWitnesses,
            Pass::ScalarizeVars,
            Pass::Flatten,
            Pass::Sha,
            Pass::ConstantFold(no_exclusions()),
            Pass::ParseCondStores,
            Pass::ConstantFold(no_exclusions()),
            Pass::Obliv,
            Pass::SetMembership,
            Pass::PersistentRam,
            Pass::VolatileRam,
            Pass::FitsInBitsIp,
            Pass::SkolemizeChallenges,
            Pass::ScalarizeVars,
            Pass::ConstantFold(no_exclusions()),
            Pass::Obliv,
            Pass::LinearScan,
            Pass::Tuple,
            Pass::Flatten,
            Pass::ConstantFold(no_exclusions()),
        ]
    } else {
        seq![
            Pass::ConstantFold(no_exclusions()),
            Pass::DeskolemizeWitnesses,
            Pass::ScalarizeVars,
            Pass::Flatten,
            Pass::Sha,
            Pass::ConstantFold(no_exclusions()),
            Pass::ParseCondStores,
            Pass::ConstantFold(no_exclusions()),
            Pass::Obliv,
            Pass::SetMembership,
            Pass::PersistentRam,
            Pass::VolatileRam,
            Pass::SkolemizeChallenges,
            Pass::ScalarizeVars,
            Pass::ConstantFold(no_exclusions()),
            Pass::Obliv,
            Pass::LinearScan,
            Pass::Tuple,
            Pass::Flatten,
            Pass::ConstantFold(no_exclusions()),
        ]
    }
}

/// The plan selected for a proof mode and the bit-width configuration
/// flag.  A pure, total function over the closed mode set: selection
/// itself cannot fail.
pub open spec fn plan_for(mode: ProofMode, fits_in_bits_ip: bool) -> Seq<Pass> {
    match mode {
        ProofMode::Opt => opt_plan(),
        ProofMode::Mpc(_) => mpc_plan(),
        ProofMode::Proof => proof_plan(fits_in_bits_ip),
        ProofMode::ProofOfHighValue(_) => proof_plan(fits_in_bits_ip),
    }
}

/// Selects the optimization plan for a proof mode.  The result is the
/// exact, totally ordered plan that `plan_for` states, so selection is
/// deterministic and reproducible.
pub fn select_plan(mode: ProofMode, fits_in_bits_ip: bool) -> (plan: Vec<Pass>)
    ensures
        plan@ == plan_for(mode, fits_in_bits_ip),
{
    let mut plan: Vec<Pass> = Vec::new();
    match mode {
        ProofMode::Opt => {
            plan.push(Pass::ScalarizeVars);
            plan.push(Pass::ConstantFold(FoldExclusions { shift_left: false, shift_right: false }));
            assert(plan@ =~= opt_plan());
        }
        ProofMode::Mpc(_) => {
            plan.push(Pass::ScalarizeVars);
            plan.push(Pass::Flatten);
            plan.push(Pass::Sha);
            plan.push(Pass::ConstantFold(FoldExclusions { shift_left: true, shift_right: true }));
            plan.push(Pass::Flatten);
            plan.push(Pass::Tuple);
            plan.push(Pass::Obliv);
            plan.push(Pass::Tuple);
            plan.push(Pass::LinearScan);
            plan.push(Pass::Tuple);
            plan.push(Pass::ConstantFold(FoldExclusions { shift_left: true, shift_right: true }));
            plan.push(Pass::Binarize);
            assert(plan@ =~= mpc_plan());
        }
        ProofMode::Proof | ProofMode::ProofOfHighValue(_) => {
            plan.push(Pass::ConstantFold(FoldExclusions { shift_left: false, shift_right: false }));
            plan.push(Pass::DeskolemizeWitnesses);
            plan.push(Pass::ScalarizeVars);
            plan.push(Pass::Flatten);
            plan.push(Pass::Sha);
            plan.push(Pass::ConstantFold(FoldExclusions { shift_left: false, shift_right: false }));
            plan.push(Pass::ParseCondStores);
            plan.push(Pass::ConstantFold(FoldExclusions { shift_left: false, shift_right: false }));
            plan.push(Pass::Obliv);
            plan.push(Pass::SetMembership);
            plan.push(Pass::PersistentRam);
            plan.push(Pass::VolatileRam);
            if fits_in_bits_ip {
                plan.push(Pass::FitsInBitsIp);
            }
            plan.push(Pass::SkolemizeChallenges);
            plan.push(Pass::ScalarizeVars);
            plan.push(Pass::ConstantFold(FoldExclusions { shift_left: false, shift_right: false }));
            plan.push(Pass::Obliv);
            plan.push(Pass::LinearScan);
            plan.push(Pass::Tuple);
            plan.push(Pass::Flatten);
            plan.push(Pass::ConstantFold(FoldExclusions { shift_left: false, shift_right: false }));
            assert(plan@ =~= proof_plan(fits_in_bits_ip));
        }
    }
    plan
}

/// A pass that can leave tuple-valued intermediates behind: the
/// oblivious-access elimination, the linear scan, and the flattening
/// that handles function calls, whose returns are tuples.
pub open spec fn introduces_tuples(p: Pass) -> bool {
    p == Pass::Obliv || p == Pass::LinearScan || p == Pass::Flatten
}

/// A pass that removes tuple-valued intermediates.
pub open spec fn eliminates_tuples(p: Pass) -> bool {
    p == Pass::Tuple
}

/// A plan respects tuple discipline when no tuple-introducing pass
/// stands last: one that is not immediately followed by the
/// tuple-elimination pass must at least be followed by further passes,
/// so R1CS lowering never consumes a tuple-introducing pass's output
/// directly.
pub open spec fn tuple_discipline(plan: Seq<Pass>) -> bool {
    forall|i: int|
        0 <= i < plan.len() && introduces_tuples(#[trigger] plan[i]) ==> i + 1 < plan.len()
}

/// Law: plan selection is reproducible.  Two selections from the same
/// mode and configuration flag yield the same plan, so a circuit
/// compiled twice under one mode runs the same passes in the same
/// order.
pub proof fn lemma_plan_deterministic(m1: ProofMode, f1: bool, m2: ProofMode, f2: bool)
    requires
        m1 == m2,
        f1 == f2,
    ensures
        plan_for(m1, f1) == plan_for(m2, f2),
{
}

/// Law: for every proof mode and configuration flag, the selected plan
/// is nonempty, respects tuple discipline — it never places a
/// tuple-introducing pass last, so none reaches R1CS lowering without
/// further normalization — and the two passes that exist to rewrite
/// array accesses, the oblivious-access elimination and the linear
/// scan, are each followed later in the plan by a tuple elimination.
pub proof fn lemma_plan_tuple_discipline(mode: ProofMode, fits_in_bits_ip: bool)
    ensures
        plan_for(mode, fits_in_bits_ip).len() > 0,
        tuple_discipline(plan_for(mode, fits_in_bits_ip)),
        !introduces_tuples(plan_for(mode, fits_in_bits_ip).last()),
        forall|i: int|
            0 <= i < plan_for(mode, fits_in_bits_ip).len() && (#[trigger] plan_for(
                mode,
                fits_in_bits_ip,
            )[i] == Pass::Obliv || plan_for(mode, fits_in_bits_ip)[i] == Pass::LinearScan)
                ==> exists|j: int|
                i < j < plan_for(mode, fits_in_bits_ip).len() && eliminates_tuples(
                    #[trigger] plan_for(mode, fits_in_bits_ip)[j],
                ),
{
    let plan = plan_for(mode, fits_in_bits_ip);
    match mode {
        ProofMode::Opt => {
            assert(!introduces_tuples(plan[0]));
            assert(!introduces_tuples(plan[1]));
        }
        ProofMode::Mpc(_) => {
            assert(!introduces_tuples(plan.last()));
            assert forall|i: int|
                0 <= i < plan.len() && (#[trigger] plan[i] == Pass::Obliv || plan[i]
                    == Pass::LinearScan) implies exists|j: int|
                i < j < plan.len() && eliminates_tuples(#[trigger] plan[j]) by {
                assert(i < 9) by {
                    if i >= 9 {
                        assert(plan[9] == Pass::Tuple);
                        assert(plan[10] == Pass::ConstantFold(shift_exclusions()));
                        assert(plan[11] == Pass::Binarize);
                    }
                }
                assert(eliminates_tuples(plan[9]));
            }
        }
        ProofMode::Proof | ProofMode::ProofOfHighValue(_) => {
            if fits_in_bits_ip {
                assert(!introduces_tuples(plan.last()));
                assert forall|i: int|
                    0 <= i < plan.len() && (#[trigger] plan[i] == Pass::Obliv || plan[i]
                        == Pass::LinearScan) implies exists|j: int|
                    i < j < plan.len() && eliminates_tuples(#[trigger] plan[j]) by {
                    assert(i < 18) by {
                        if i >= 18 {
                            assert(plan[18] == Pass::Tuple);
                            assert(plan[19] == Pass::Flatten);
                            assert(plan[20] == Pass::ConstantFold(no_exclusions()));
                        }
                    }
                    assert(eliminates_tuples(plan[18]));
                }
            } else {
                assert(!introduces_tuples(plan.last()));
                assert forall|i: int|
                    0 <= i < plan.len() && (#[trigger] plan[i] == Pass::Obliv || plan[i]
                        == Pass::LinearScan) implies exists|j: int|
                    i < j < plan.len() && eliminates_tuples(#[trigger] plan[j]) by {
                    assert(i < 17) by {
                        if i >= 17 {
                            assert(plan[17] == Pass::Tuple);
                            assert(plan[18] == Pass::Flatten);
                            assert(plan[19] == Pass::ConstantFold(no_exclusions()));
                        }
                    }
                    assert(eliminates_tuples(plan[17]));
                }
            }
        }
    }
    assert forall|i: int| 0 <= i < plan.len() && introduces_tuples(#[trigger] plan[i]) implies i
        + 1 < plan.len() by {
        if i + 1 == plan.len() {
            assert(plan[i] == plan.last());
        }
    }
}

/// Law: the shape of the multi-party plan.  Both of its folds exclude
/// the shift operators, so bit-width analysis still sees them; and each
/// pass that leaves tuples behind — the function-call flattening, the
/// oblivious-access elimination and the linear scan — is immediately
/// followed by a tuple elimination.
pub proof fn lemma_mpc_plan_shape()
    ensures
        mpc_plan().len() == 12,
        mpc_plan()[3] == Pass::ConstantFold(shift_exclusions()),
        mpc_plan()[10] == Pass::ConstantFold(shift_exclusions()),
        forall|i: int|
            0 <= i < mpc_plan().len() ==> #[trigger] mpc_plan()[i] != Pass::ConstantFold(
                no_exclusions(),
            ),
        mpc_plan()[4] == Pass::Flatten && mpc_plan()[5] == Pass::Tuple,
        mpc_plan()[6] == Pass::Obliv && mpc_plan()[7] == Pass::Tuple,
        mpc_plan()[8] == Pass::LinearScan && mpc_plan()[9] == Pass::Tuple,
        mpc_plan().last() == Pass::Binarize,
{
}

/// Law: the shape of the proof-mode plan.  Witness deskolemization
/// stands immediately before the first scalarization; every
/// RAM-elimination pass precedes challenge skolemization; the
/// fits-in-bits pass appears exactly when the configuration flag is
/// set, and then immediately before challenge skolemization; and the
/// plan ends with a flatten followed by an unrestricted constant fold.
pub proof fn lemma_proof_plan_shape(fits_in_bits_ip: bool)
    ensures
        proof_plan(fits_in_bits_ip).len() == if fits_in_bits_ip { 21int } else { 20int },
        proof_plan(fits_in_bits_ip)[1] == Pass::DeskolemizeWitnesses,
        proof_plan(fits_in_bits_ip)[2] == Pass::ScalarizeVars,
        fits_in_bits_ip ==> proof_plan(fits_in_bits_ip)[12] == Pass::FitsInBitsIp
            && proof_plan(fits_in_bits_ip)[13] == Pass::SkolemizeChallenges,
        !fits_in_bits_ip ==> forall|i: int|
            0 <= i < proof_plan(fits_in_bits_ip).len()
                ==> #[trigger] proof_plan(fits_in_bits_ip)[i] != Pass::FitsInBitsIp,
        forall|i: int, j: int|
            0 <= i < proof_plan(fits_in_bits_ip).len() && 0 <= j < proof_plan(
                fits_in_bits_ip,
            ).len() && (#[trigger] proof_plan(fits_in_bits_ip)[i] == Pass::SetMembership
                || proof_plan(fits_in_bits_ip)[i] == Pass::PersistentRam || proof_plan(
                fits_in_bits_ip,
            )[i] == Pass::VolatileRam) && #[trigger] proof_plan(fits_in_bits_ip)[j]
                == Pass::SkolemizeChallenges ==> i < j,
        proof_plan(fits_in_bits_ip)[proof_plan(fits_in_bits_ip).len() - 2] == Pass::Flatten,
        proof_plan(fits_in_bits_ip).last() == Pass::ConstantFold(no_exclusions()),
{
    let plan = proof_plan(fits_in_bits_ip);
    assert forall|i: int, j: int|
        0 <= i < plan.len() && 0 <= j < plan.len() && (#[trigger] plan[i] == Pass::SetMembership
            || plan[i] == Pass::PersistentRam || plan[i] == Pass::VolatileRam)
            && #[trigger] plan[j] == Pass::SkolemizeChallenges implies i < j by {
        assert(i <= 11);
        assert(j >= 12);
    }
}

} // verus!
