use std::sync::Arc;

use bridgestan::error::{evaluation_outcome, print_callback_outcome, ErrorSlot, LoadingError};
use bridgestan::model::ParamCounts;
use bridgestan::version::Version;
use bridgestan::BridgeStanError;
use bridgestan::Model;
use bridgestan::Rng;
use bridgestan::StanLibrary;

fn expect_err<T>(r: Result<T, BridgeStanError>) -> BridgeStanError {
    match r {
        Err(e) => e,
        Ok(_) => panic!("expected an error"),
    }
}

fn some_library(id: u64) -> StanLibrary {
    StanLibrary::new(id, Version { major: 2, minor: 7, patch: 0 }).unwrap()
}

fn some_counts() -> ParamCounts {
    // base 1, two transformed parameters, three generated quantities
    ParamCounts::from_reports(1, 3, 4, 6, 1).unwrap()
}

fn threaded_config() -> String {
    "stan_version_major=2 STAN_THREADS=true make_args".to_string()
}

fn some_model(lib: &StanLibrary) -> Model<&StanLibrary> {
    Model::new(lib, 0x1000, Some((threaded_config(), some_counts())), ErrorSlot::empty()).unwrap()
}

#[test]
fn reported_counts_accepted_when_consistent() {
    let c = ParamCounts::from_reports(2, 5, 9, 12, 4);
    assert!(c.is_some());
}

#[test]
fn reported_counts_rejected_when_inconsistent() {
    // fewer parameters with a flag on than off
    assert!(ParamCounts::from_reports(5, 4, 5, 5, 1).is_none());
    assert!(ParamCounts::from_reports(5, 5, 4, 5, 1).is_none());
    // the combined count does not add up
    assert!(ParamCounts::from_reports(2, 5, 9, 13, 4).is_none());
    assert!(ParamCounts::from_reports(2, 5, 9, 11, 4).is_none());
}

#[test]
fn construct_accepts_threaded_model() {
    let lib = some_library(1);
    let model = some_model(&lib);
    assert_eq!(model.handle(), 0x1000);
    assert_eq!(model.ref_library().id(), 1);
}

#[test]
fn construct_rejects_unthreaded_model() {
    let lib = some_library(1);
    let config = "stan_version_major=2 STAN_THREADS=false".to_string();
    let err = expect_err(Model::new(
        &lib,
        0x1000,
        Some((config.clone(), some_counts())),
        ErrorSlot::empty(),
    ));
    match &err {
        BridgeStanError::StanThreads(got) => assert_eq!(got, &config),
        other => panic!("unexpected error: {:?}", other),
    }
}

#[test]
fn construct_failure_carries_foreign_diagnostic() {
    let lib = some_library(1);
    let slot = ErrorSlot::with_message("find this text: datafails".to_string());
    let err = expect_err(Model::<&StanLibrary>::new(&lib, 0, None, slot));
    match &err {
        BridgeStanError::ConstructFailed(msg) => assert!(msg.contains("datafails")),
        other => panic!("unexpected error: {:?}", other),
    }
    assert!(err.message().contains("datafails"));
}

#[test]
fn param_counts_by_flags() {
    let lib = some_library(1);
    let model = some_model(&lib);
    assert_eq!(model.param_num(false, false), 1);
    assert_eq!(model.param_num(true, false), 3);
    assert_eq!(model.param_num(false, true), 4);
    assert_eq!(model.param_num(true, true), 6);
    assert_eq!(model.param_unc_num(), 1);
}

#[test]
fn param_counts_monotonic_in_flags() {
    let lib = some_library(1);
    let model = some_model(&lib);
    let base = model.param_num(false, false);
    let with_tp = model.param_num(true, false);
    let with_gq = model.param_num(false, true);
    let with_both = model.param_num(true, true);
    assert!(base <= with_tp && with_tp <= with_both);
    assert!(base <= with_gq && with_gq <= with_both);
}

#[test]
fn shape_checks_reject_empty_buffers() {
    let lib = some_library(1);
    let model = some_model(&lib);
    // the model expects exactly one unconstrained parameter
    assert!(!model.matches_unc_len(0));
    assert!(!model.gradient_shape_ok(0, 0));
    assert!(!model.gradient_shape_ok(1, 0));
    assert!(model.gradient_shape_ok(1, 1));
}

#[test]
fn hessian_shapes_and_overflow() {
    let lib = some_library(1);
    let model = some_model(&lib);
    assert_eq!(model.hessian_size(), Some(1));
    assert!(model.hessian_shape_ok(1, 1, 1));
    assert!(!model.hessian_shape_ok(1, 1, 2));

    let huge = usize::MAX / 2;
    let counts = ParamCounts::from_reports(0, 0, 0, 0, huge).unwrap();
    let big = Model::new(&lib, 0x2000, Some((threaded_config(), counts)), ErrorSlot::empty())
        .unwrap();
    assert_eq!(big.hessian_size(), None);
    assert!(!big.hessian_shape_ok(huge, huge, usize::MAX));
}

#[test]
fn hvp_and_unconstrain_shapes() {
    let lib = some_library(1);
    let model = some_model(&lib);
    assert!(model.hvp_shape_ok(1, 1, 1));
    assert!(!model.hvp_shape_ok(1, 0, 1));
    assert!(model.unconstrain_shape_ok(1, 1));
    assert!(!model.unconstrain_shape_ok(3, 1));
}

#[test]
fn rng_construction_outcomes() {
    let lib = some_library(1);
    let rng = Rng::new(&lib, 0x3000, ErrorSlot::empty()).unwrap();
    assert_eq!(rng.handle(), 0x3000);
    assert_eq!(rng.library_id(), 1);

    let err = expect_err(Rng::new(
        &lib,
        0,
        ErrorSlot::with_message("rng is broken".to_string()),
    ));
    match &err {
        BridgeStanError::ConstructFailed(msg) => assert_eq!(msg, "rng is broken"),
        other => panic!("unexpected error: {:?}", other),
    }
}

#[test]
fn model_side_rng_construction() {
    let lib = some_library(5);
    let model = some_model(&lib);
    let rng = model.new_rng(0x3000, ErrorSlot::empty()).unwrap();
    assert_eq!(rng.library_id(), 5);
    assert!(model.can_use_rng(&rng));
}

#[test]
fn rng_from_other_library_instance_is_rejected() {
    // two loads of the same file get distinct identity tokens
    let lib_a = some_library(11);
    let lib_b = some_library(22);
    let model = some_model(&lib_a);
    let foreign_rng = Rng::new(&lib_b, 0x3000, ErrorSlot::empty()).unwrap();
    assert!(!model.can_use_rng(&foreign_rng));
    assert!(!model.constrain_args_ok(1, false, false, 1, Some(&foreign_rng)));

    let own_rng = Rng::new(&lib_a, 0x4000, ErrorSlot::empty()).unwrap();
    assert!(model.can_use_rng(&own_rng));
}

#[test]
fn constrain_argument_checks() {
    let lib = some_library(1);
    let model = some_model(&lib);
    let rng = Rng::new(&lib, 0x3000, ErrorSlot::empty()).unwrap();
    // without generated quantities a generator is optional
    assert!(model.constrain_args_ok::<&StanLibrary>(1, false, false, 1, None));
    assert!(model.constrain_args_ok(1, true, false, 3, Some(&rng)));
    // generated quantities demand a generator
    assert!(!model.constrain_args_ok::<&StanLibrary>(1, false, true, 4, None));
    assert!(model.constrain_args_ok(1, true, true, 6, Some(&rng)));
    // and the output buffer must match the requested flags exactly
    assert!(!model.constrain_args_ok(1, true, true, 5, Some(&rng)));
    assert!(!model.constrain_args_ok(0, true, true, 6, Some(&rng)));
}

#[test]
fn shared_ownership_of_the_library() {
    let lib = Arc::new(some_library(9));
    let model = Model::new(
        lib.clone(),
        0x1000,
        Some((threaded_config(), some_counts())),
        ErrorSlot::empty(),
    )
    .unwrap();
    let again: Arc<StanLibrary> = model.clone_library_ref();
    assert_eq!(again.id(), 9);
    let rng = Rng::new(again, 0x3000, ErrorSlot::empty()).unwrap();
    assert!(model.can_use_rng(&rng));
}

#[test]
fn evaluation_outcomes() {
    assert!(evaluation_outcome(0, ErrorSlot::empty()).is_ok());
    let err = evaluation_outcome(1, ErrorSlot::with_message("bad point".to_string()))
        .unwrap_err();
    match &err {
        BridgeStanError::EvaluationFailed(msg) => assert_eq!(msg, "bad point"),
        other => panic!("unexpected error: {:?}", other),
    }
    assert_eq!(err.message(), "Failed during evaluation: bad point");
    assert!(err.is_recoverable());
}

#[test]
fn callback_outcomes() {
    assert!(print_callback_outcome(0, ErrorSlot::empty()).is_ok());
    let err = print_callback_outcome(-3, ErrorSlot::with_message("no callback".to_string()))
        .unwrap_err();
    match &err {
        BridgeStanError::SetCallbackFailed(msg) => assert_eq!(msg, "no callback"),
        other => panic!("unexpected error: {:?}", other),
    }
    assert!(!err.is_recoverable());
}

#[test]
fn error_slot_behaviour() {
    let empty = ErrorSlot::empty();
    assert!(!empty.is_set());
    let full = ErrorSlot::with_message("oops".to_string());
    assert!(full.is_set());
    assert_eq!(full.message(), "oops");
}

#[test]
fn error_texts() {
    let e = BridgeStanError::from(LoadingError("no such file".to_string()));
    assert_eq!(e.message(), "Could not load target library: no such file");
    let e = BridgeStanError::StanThreads("cfg".to_string());
    assert_eq!(
        e.message(),
        "The Stan library was compiled without threading support. Config was cfg"
    );
    let e = BridgeStanError::InvalidString("bad byte".to_string());
    assert_eq!(e.message(), "Failed to decode string to UTF8");
    let e = BridgeStanError::ConstructFailed("d".to_string());
    assert_eq!(e.message(), "Failed to construct model: d");
    assert!(!e.is_recoverable());
    let e = BridgeStanError::ModelCompilingFailed("make exited".to_string());
    assert_eq!(e.message(), "Failed to compile Stan model: make exited");
    let e = BridgeStanError::DownloadFailed("timeout".to_string());
    assert_eq!(e.message(), "Failed to download BridgeStan: timeout");
}
