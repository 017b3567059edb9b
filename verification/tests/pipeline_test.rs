use buildpack_core::classify::{classify, ErrorKind, FailureOrigin, FailureSource};
use buildpack_core::pipeline::{
    action_for, origin_for_step, run_to_end, standard_steps, Pipeline, PipelineState, StepAction,
    StepKind, StepStatus,
};
use buildpack_core::runner::{conclude, TAIL_LINE_LIMIT};
use buildpack_core::strategy::CacheDecision;

#[test]
fn conclude_success_keeps_lines_in_order_and_duration() {
    let lines = vec![
        "out: compiling".to_string(),
        "err: warning".to_string(),
        "out: done".to_string(),
    ];
    let r = conclude("bundle install".to_string(), Some(0), lines.clone(), 1500);
    let res = r.expect("exit code zero is success");
    assert_eq!(res.lines, lines);
    assert_eq!(res.exit_code, 0);
    assert_eq!(res.duration_ms, 1500);
}

#[test]
fn conclude_failure_keeps_tail_code_and_duration() {
    let lines: Vec<String> = (0..25).map(|i| format!("line {i}")).collect();
    let r = conclude("rake assets:precompile".to_string(), Some(1), lines.clone(), 900);
    let e = r.expect_err("nonzero exit is a process error");
    assert_eq!(e.command, "rake assets:precompile");
    assert_eq!(e.exit_code, Some(1));
    assert_eq!(e.duration_ms, 900);
    assert_eq!(e.tail.len(), TAIL_LINE_LIMIT);
    assert_eq!(e.tail, lines[5..].to_vec());
}

#[test]
fn conclude_termination_without_code_is_an_error() {
    let r = conclude("bundle install".to_string(), None, Vec::new(), 10);
    let e = r.expect_err("no exit code is a process error");
    assert_eq!(e.exit_code, None);
    assert!(e.tail.is_empty());
    assert_eq!(e.duration_ms, 10);
}

#[test]
fn pipeline_short_circuits_on_first_failure() {
    // Steps [A: success, B: failure, C: success]: only A and B run.
    let p = run_to_end(&vec![true, false, true]);
    assert_eq!(p.status(0), StepStatus::Succeeded);
    assert_eq!(p.status(1), StepStatus::Failed);
    assert_eq!(p.status(2), StepStatus::Pending);
    assert_eq!(p.state(), PipelineState::Failed);
}

#[test]
fn pipeline_succeeds_only_when_every_step_does() {
    let p = run_to_end(&vec![true, true, true, true]);
    assert_eq!(p.state(), PipelineState::Succeeded);
    for i in 0..4 {
        assert_eq!(p.status(i), StepStatus::Succeeded);
    }
    let empty = run_to_end(&Vec::new());
    assert_eq!(empty.state(), PipelineState::Succeeded);
}

#[test]
fn pipeline_hands_out_steps_in_order_and_stops_after_failure() {
    let mut p = Pipeline::new(3);
    let mut attempted = Vec::new();

    while let Some(i) = p.next_step() {
        attempted.push(i);
        // Step 0 succeeds, step 1 fails.
        p.record_outcome(i == 0);
    }
    assert_eq!(attempted, vec![0, 1]);
    assert_eq!(p.state(), PipelineState::Failed);
    assert_eq!(p.status(2), StepStatus::Pending);
}

#[test]
fn standard_steps_in_dependency_order() {
    let steps = standard_steps();
    assert_eq!(
        steps,
        vec![
            StepKind::RuntimeInstall,
            StepKind::DependencyCacheValidate,
            StepKind::PackageManagerInstall,
            StepKind::ProjectTasks,
        ]
    );
    assert_eq!(
        origin_for_step(StepKind::RuntimeInstall),
        FailureOrigin::RuntimeInstall
    );
    assert_eq!(
        origin_for_step(StepKind::DependencyCacheValidate),
        FailureOrigin::CacheAccess
    );
    assert_eq!(
        origin_for_step(StepKind::PackageManagerInstall),
        FailureOrigin::PackageManagerInstall
    );
    assert_eq!(
        origin_for_step(StepKind::ProjectTasks),
        FailureOrigin::ProjectTask
    );
}

#[test]
fn actions_per_decision() {
    assert_eq!(action_for(CacheDecision::Keep), StepAction::SkipReuse);
    assert_eq!(action_for(CacheDecision::Update), StepAction::RunInPlace);
    assert_eq!(
        action_for(CacheDecision::Recreate),
        StepAction::RunAfterClearing
    );
}

#[test]
fn classifier_maps_each_origin_to_its_kind() {
    let cases = vec![
        (FailureOrigin::RuntimeDetection, ErrorKind::RuntimeDetectionFailed),
        (FailureOrigin::DependencyListing, ErrorKind::DependencyListingFailed),
        (FailureOrigin::RuntimeInstall, ErrorKind::RuntimeInstallFailed),
        (FailureOrigin::ManifestRead, ErrorKind::ManifestLockMissing),
        (FailureOrigin::CacheAccess, ErrorKind::CacheIoFailed),
        (FailureOrigin::PackageManagerSetup, ErrorKind::PackageManagerSetupFailed),
        (
            FailureOrigin::PackageManagerInstall,
            ErrorKind::PackageManagerInstallFailed,
        ),
        (FailureOrigin::ProjectTask, ErrorKind::ProjectTaskFailed),
    ];
    for (origin, kind) in cases {
        let e = classify(origin, FailureSource::Io("disk full".to_string()));
        assert_eq!(e.kind, kind);
        assert!(!e.remediation.is_empty());
        // The underlying detail is preserved verbatim.
        assert!(matches!(e.source, FailureSource::Io(d) if d == "disk full"));
    }
}

#[test]
fn classifier_remediation_is_kind_specific() {
    let e = classify(
        FailureOrigin::RuntimeInstall,
        FailureSource::Io("download interrupted".to_string()),
    );
    assert_eq!(
        e.remediation,
        "Could not install the detected runtime version."
    );
}

#[test]
fn classifier_keeps_process_detail_and_marks_framework_internal() {
    let lines = vec!["could not fetch gem".to_string()];
    let perr = conclude("bundle install".to_string(), Some(5), lines, 80)
        .expect_err("exit 5 fails");
    let e = classify(FailureOrigin::PackageManagerInstall, FailureSource::Process(perr));
    assert_eq!(e.kind, ErrorKind::PackageManagerInstallFailed);
    match e.source {
        FailureSource::Process(p) => {
            assert_eq!(p.command, "bundle install");
            assert_eq!(p.exit_code, Some(5));
            assert_eq!(p.tail, vec!["could not fetch gem".to_string()]);
        }
        _ => panic!("the process detail must be preserved"),
    }

    let internal = classify(
        FailureOrigin::ProjectTask,
        FailureSource::Framework("toml write failed".to_string()),
    );
    assert_eq!(internal.kind, ErrorKind::Internal);
    assert!(matches!(
        internal.source,
        FailureSource::Framework(d) if d == "toml write failed"
    ));
}
