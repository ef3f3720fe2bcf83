use supernova::cache::{cache_keys_match, circuit_cache_keys};
use supernova::config::{FoldingConfig, FoldingMode, Lang, SuperNovaProver};
use supernova::error::ProofError;
use supernova::fold::{fold_schedule, FoldAction, FoldEngine, FoldPhase, PublicParams};
use supernova::verify::{decide_verification, states_equal, z0_secondary, Proof, Scalar};

fn lang_with(n: usize) -> Lang {
    let mut names = Vec::new();
    for i in 0..n {
        names.push(format!("ext{}", i));
    }
    Lang::new(names)
}

fn s(v: u64) -> Scalar {
    Scalar::from_u64(v)
}

#[test]
fn num_circuits_uniform_is_one() {
    for rc in [0usize, 1, 10, usize::MAX] {
        assert_eq!(FoldingConfig::new_ivc(lang_with(3), rc).num_circuits(), 1);
    }
}

#[test]
fn num_circuits_nonuniform_counts_extensions() {
    for rc in [0usize, 1, 10, usize::MAX] {
        assert_eq!(FoldingConfig::new_nivc(lang_with(0), rc).num_circuits(), 1);
        assert_eq!(FoldingConfig::new_nivc(lang_with(1), rc).num_circuits(), 2);
        assert_eq!(FoldingConfig::new_nivc(lang_with(4), rc).num_circuits(), 5);
    }
}

#[test]
fn config_accessors() {
    let cfg = FoldingConfig::new_nivc(lang_with(2), 7);
    assert_eq!(cfg.reduction_count(), 7);
    assert_eq!(cfg.lang().extension_count(), 2);
    let cfg = FoldingConfig::new_ivc(lang_with(1), 3);
    assert_eq!(cfg.reduction_count(), 3);
    assert_eq!(cfg.lang().extension_count(), 1);
}

#[test]
fn prover_defaults_to_nonuniform() {
    let p = SuperNovaProver::new(10, lang_with(2));
    assert_eq!(p.reduction_count(), 10);
    assert_eq!(p.lang().extension_count(), 2);
    assert_eq!(p.folding_mode(), FoldingMode::NIVC);
}

#[test]
fn schedule_orders_steps_and_creates_once() {
    let (actions, last) = fold_schedule(3, &vec![0, 2, 1, 2]).unwrap();
    assert_eq!(
        actions,
        vec![
            FoldAction::CreateAndFold { shape_index: 0 },
            FoldAction::Fold { shape_index: 2 },
            FoldAction::Fold { shape_index: 1 },
            FoldAction::Fold { shape_index: 2 },
        ]
    );
    assert_eq!(last, 2);
}

#[test]
fn empty_trace_is_refused() {
    assert_eq!(fold_schedule(2, &vec![]), Err(ProofError::EmptyTrace));
    assert_eq!(FoldEngine::new(2).finish(), Err(ProofError::EmptyTrace));
}

#[test]
fn uncovered_shape_is_fold_error() {
    assert_eq!(fold_schedule(2, &vec![0, 2, 1]), Err(ProofError::Fold));
    assert_eq!(fold_schedule(1, &vec![5]), Err(ProofError::Fold));
    assert_eq!(fold_schedule(0, &vec![0]), Err(ProofError::Fold));
}

#[test]
fn engine_refusal_leaves_run_unchanged() {
    let mut e = FoldEngine::new(2);
    assert_eq!(e.accept_step(3), Err(ProofError::Fold));
    assert_eq!(e.phase(), FoldPhase::Empty);
    assert_eq!(e.accept_step(1), Ok(FoldAction::CreateAndFold { shape_index: 1 }));
    assert_eq!(e.accept_step(2), Err(ProofError::Fold));
    assert_eq!(e.phase(), FoldPhase::Folding);
    assert_eq!(e.accept_step(0), Ok(FoldAction::Fold { shape_index: 0 }));
    assert_eq!(e.finish(), Ok(0));
}

#[test]
fn uniform_one_plus_one_verifies() {
    // A uniform configuration at reduction count one: a single step computing
    // 1 + 1 from the empty initial state ends in [2].
    let cfg = FoldingConfig::new_ivc(lang_with(0), 1);
    assert_eq!(cfg.reduction_count(), 1);
    let pp = PublicParams::new((), cfg.num_circuits(), s(0));
    let (actions, last) = fold_schedule(pp.num_shapes(), &vec![0]).unwrap();
    assert_eq!(actions, vec![FoldAction::CreateAndFold { shape_index: 0 }]);
    assert_eq!(last, 0);
    let outcome = Ok((vec![s(2)], z0_secondary()));
    assert_eq!(decide_verification(&outcome, &vec![s(2)]), Ok(true));
    assert_eq!(decide_verification(&outcome, &vec![s(3)]), Ok(false));
}

#[test]
fn nonuniform_base_shape_only_trace_verifies() {
    let cfg = FoldingConfig::new_nivc(lang_with(1), 1);
    assert_eq!(cfg.lang().extension_count(), 1);
    assert_eq!(cfg.num_circuits(), 2);
    let pp = PublicParams::new((), cfg.num_circuits(), s(9));
    let mut e = pp.fold_engine();
    for _ in 0..3 {
        assert!(e.accept_step(0).is_ok());
    }
    assert_eq!(e.finish(), Ok(0));
    let outcome = Ok((vec![s(4), s(5)], z0_secondary()));
    assert_eq!(decide_verification(&outcome, &vec![s(4), s(5)]), Ok(true));
}

#[test]
fn flipped_terminal_element_is_false() {
    let zi = vec![s(1), s(2), s(3)];
    let outcome = Ok((zi.clone(), z0_secondary()));
    for i in 0..zi.len() {
        let mut claim = zi.clone();
        claim[i] = s(claim[i].l0 + 100);
        assert_eq!(decide_verification(&outcome, &claim), Ok(false));
    }
    let mut claim = zi.clone();
    claim[1].l3 = 1;
    assert_eq!(decide_verification(&outcome, &claim), Ok(false));
}

#[test]
fn wrong_secondary_state_is_false() {
    let outcome = Ok((vec![s(2)], vec![s(1)]));
    assert_eq!(decide_verification(&outcome, &vec![s(2)]), Ok(false));
}

#[test]
fn primitive_failure_is_verification_error() {
    let outcome = Err(ProofError::Setup);
    assert_eq!(decide_verification(&outcome, &vec![s(2)]), Err(ProofError::Verification));
}

#[test]
fn compress_is_not_implemented() {
    let p = Proof::Recursive(42u32);
    assert_eq!(*p.accumulator(), 42);
    assert!(matches!(p.compress(), Err(ProofError::NotImplemented)));
}

#[test]
fn secondary_state_is_single_zero() {
    assert_eq!(z0_secondary(), vec![Scalar::zero()]);
    assert_eq!(Scalar::zero(), s(0));
}

#[test]
fn states_compare_by_length_and_elements() {
    assert!(states_equal(&vec![], &vec![]));
    assert!(!states_equal(&vec![s(1)], &vec![s(1), s(1)]));
    assert!(!states_equal(&vec![s(1)], &vec![s(2)]));
}

#[test]
fn cache_keys_follow_shape_order() {
    let lang = lang_with(2);
    let keys = circuit_cache_keys(3, &lang, |rc: usize, i: usize| s((rc * 10 + i) as u64));
    assert_eq!(keys, vec![s(30), s(31), s(32)]);
    let keys0 = circuit_cache_keys(1, &lang_with(0), |rc: usize, i: usize| s((rc + i) as u64));
    assert_eq!(keys0, vec![s(1)]);
}

#[test]
fn cache_keys_match_detects_drift() {
    let a = vec![s(1), s(2)];
    assert!(cache_keys_match(&a, &vec![s(1), s(2)]));
    assert!(!cache_keys_match(&a, &vec![s(1), s(3)]));
    assert!(!cache_keys_match(&a, &vec![s(1)]));
}

#[test]
fn public_params_accessors() {
    let pp = PublicParams::new(vec![1u8, 2], 4, s(77));
    assert_eq!(pp.num_shapes(), 4);
    assert_eq!(pp.digest(), s(77));
    assert_eq!(pp.params(), &vec![1u8, 2]);
}
