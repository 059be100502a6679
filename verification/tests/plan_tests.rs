use zkmb::plan::FoldExclusions;
use zkmb::plan::OpKind;
use zkmb::plan::Pass;
use zkmb::plan::ProofMode;
use zkmb::plan::select_plan;

fn no_fold_exclusions() -> FoldExclusions {
    FoldExclusions { shift_left: false, shift_right: false }
}

fn shift_fold_exclusions() -> FoldExclusions {
    FoldExclusions { shift_left: true, shift_right: true }
}

#[test]
fn opt_plan_is_minimal() {
    let plan = select_plan(ProofMode::Opt, false);
    assert_eq!(
        plan,
        vec![Pass::ScalarizeVars, Pass::ConstantFold(no_fold_exclusions())]
    );
}

#[test]
fn mpc_plan_is_exact() {
    let plan = select_plan(ProofMode::Mpc(2), false);
    assert_eq!(
        plan,
        vec![
            Pass::ScalarizeVars,
            Pass::Flatten,
            Pass::Sha,
            Pass::ConstantFold(shift_fold_exclusions()),
            Pass::Flatten,
            Pass::Tuple,
            Pass::Obliv,
            Pass::Tuple,
            Pass::LinearScan,
            Pass::Tuple,
            Pass::ConstantFold(shift_fold_exclusions()),
            Pass::Binarize,
        ]
    );
}

#[test]
fn proof_plan_without_flag_is_exact() {
    let plan = select_plan(ProofMode::Proof, false);
    assert_eq!(plan.len(), 20);
    assert_eq!(plan[0], Pass::ConstantFold(no_fold_exclusions()));
    assert_eq!(plan[1], Pass::DeskolemizeWitnesses);
    assert_eq!(plan[2], Pass::ScalarizeVars);
    assert_eq!(plan[9], Pass::SetMembership);
    assert_eq!(plan[10], Pass::PersistentRam);
    assert_eq!(plan[11], Pass::VolatileRam);
    assert_eq!(plan[12], Pass::SkolemizeChallenges);
    assert_eq!(plan[18], Pass::Flatten);
    assert_eq!(plan[19], Pass::ConstantFold(no_fold_exclusions()));
    assert!(!plan.contains(&Pass::FitsInBitsIp));
}

#[test]
fn proof_plan_with_flag_inserts_fits_in_bits() {
    let plan = select_plan(ProofMode::Proof, true);
    assert_eq!(plan.len(), 21);
    assert_eq!(plan[12], Pass::FitsInBitsIp);
    assert_eq!(plan[13], Pass::SkolemizeChallenges);
}

#[test]
fn high_value_mode_shares_the_proof_plan() {
    assert_eq!(
        select_plan(ProofMode::ProofOfHighValue(7), true),
        select_plan(ProofMode::Proof, true)
    );
}

#[test]
fn plan_selection_is_deterministic() {
    assert_eq!(
        select_plan(ProofMode::Proof, false),
        select_plan(ProofMode::Proof, false)
    );
    assert_eq!(select_plan(ProofMode::Mpc(3), true), select_plan(ProofMode::Mpc(5), true));
}

#[test]
fn tuple_introducers_are_followed_by_tuple_elimination() {
    let plans = vec![
        select_plan(ProofMode::Opt, false),
        select_plan(ProofMode::Mpc(2), false),
        select_plan(ProofMode::Proof, false),
        select_plan(ProofMode::Proof, true),
        select_plan(ProofMode::ProofOfHighValue(1), false),
    ];
    for plan in plans {
        // no tuple-introducing pass stands last
        let last = plan.last().unwrap();
        assert_ne!(*last, Pass::Obliv);
        assert_ne!(*last, Pass::LinearScan);
        assert_ne!(*last, Pass::Flatten);
        // the array-access rewrites are each followed by a tuple elimination
        for (i, pass) in plan.iter().enumerate() {
            if *pass == Pass::Obliv || *pass == Pass::LinearScan {
                assert!(plan[i + 1..].contains(&Pass::Tuple));
            }
        }
    }
}

#[test]
fn fold_exclusions_membership() {
    let none = no_fold_exclusions();
    let shifts = shift_fold_exclusions();
    assert!(!none.excludes(OpKind::ShiftLeft));
    assert!(!none.excludes(OpKind::ShiftRight));
    assert!(shifts.excludes(OpKind::ShiftLeft));
    assert!(shifts.excludes(OpKind::ShiftRight));
}
