use cross_toolchain::errors::StageFailure;
use cross_toolchain::sequencer::Action;
use cross_toolchain::sequencer::Event;
use cross_toolchain::sequencer::RunResult;
use cross_toolchain::sequencer::Sequencer;
use cross_toolchain::sequencer::StageOutcome;
use cross_toolchain::stage::StageId;
use cross_toolchain::stage::marker_file_name;
use cross_toolchain::state::BuildState;

/// A spy executor: answers every action of the machine, records which
/// builds were requested and which markers were written, and can be told to
/// report a missing requirement, a failed build, or a missing product at
/// one chosen stage.
struct Spy {
    builds: Vec<StageId>,
    markers: Vec<String>,
    missing_requirement: Option<(StageId, String)>,
    fail_build: Option<StageId>,
    missing_product: Option<(StageId, String)>,
    fail_marker: Option<StageId>,
}

impl Spy {
    fn new() -> Spy {
        Spy {
            builds: Vec::new(),
            markers: Vec::new(),
            missing_requirement: None,
            fail_build: None,
            missing_product: None,
            fail_marker: None,
        }
    }

    fn drive(&mut self, mut seq: Sequencer) -> RunResult {
        let mut ev = Event::Start;
        loop {
            assert!(seq.accepts(&ev));
            let action = seq.step(ev);
            ev = match action {
                Action::CheckRequirements { stage } => match &self.missing_requirement {
                    Some((s, p)) if *s == stage => {
                        Event::RequirementsChecked { missing: Some(p.clone()) }
                    }
                    _ => Event::RequirementsChecked { missing: None },
                },
                Action::RunBuild { stage } => {
                    self.builds.push(stage);
                    if self.fail_build == Some(stage) {
                        Event::BuildFinished { ok: false, detail: "exit code 2".to_string() }
                    } else {
                        Event::BuildFinished { ok: true, detail: String::new() }
                    }
                }
                Action::CheckProducts { stage } => match &self.missing_product {
                    Some((s, p)) if *s == stage => {
                        Event::ProductsChecked { missing: Some(p.clone()) }
                    }
                    _ => Event::ProductsChecked { missing: None },
                },
                Action::WriteMarker { stage } => {
                    if self.fail_marker == Some(stage) {
                        Event::MarkerWritten { ok: false }
                    } else {
                        self.markers.push(marker_file_name(stage));
                        Event::MarkerWritten { ok: true }
                    }
                }
                Action::Finished => break,
            };
        }
        assert!(seq.is_done());
        assert!(!seq.outcomes().is_empty());
        seq.into_result()
    }
}

const ALL_STAGES: [StageId; 6] = [
    StageId::Setup,
    StageId::Binutils,
    StageId::Gcc1,
    StageId::LinuxHeaders,
    StageId::Glibc,
    StageId::Gcc2,
];

#[test]
fn a_fresh_run_builds_every_stage_in_order() {
    let seq = Sequencer::new(BuildState::new());
    let mut spy = Spy::new();
    let outcomes_seq = {
        let result = spy.drive(seq);
        assert!(matches!(result, RunResult::AllCompleted));
        spy.builds.clone()
    };
    assert_eq!(outcomes_seq, ALL_STAGES.to_vec());
    assert_eq!(spy.markers.len(), 6);
}

#[test]
fn outcomes_of_a_fresh_run_are_all_completed() {
    let mut seq = Sequencer::new(BuildState::new());
    let mut spy = Spy::new();
    let mut ev = Event::Start;
    loop {
        let action = seq.step(ev);
        ev = match action {
            Action::CheckRequirements { .. } => Event::RequirementsChecked { missing: None },
            Action::RunBuild { stage } => {
                spy.builds.push(stage);
                Event::BuildFinished { ok: true, detail: String::new() }
            }
            Action::CheckProducts { .. } => Event::ProductsChecked { missing: None },
            Action::WriteMarker { .. } => Event::MarkerWritten { ok: true },
            Action::Finished => break,
        };
    }
    let outcomes = seq.outcomes().clone();
    assert_eq!(outcomes.len(), 6);
    for (i, s) in ALL_STAGES.iter().enumerate() {
        assert_eq!(outcomes[i], StageOutcome::Completed { stage: *s });
    }
}

#[test]
fn a_second_identical_run_skips_everything() {
    // First run: everything succeeds; the markers the machine asked for
    // are "persisted" in a directory listing.
    let seq = Sequencer::new(BuildState::new());
    let mut spy = Spy::new();
    let result = spy.drive(seq);
    assert!(matches!(result, RunResult::AllCompleted));

    // Second run over the markers of the first: the same final success,
    // every stage skipped, no build requested.
    let mut seq2 = Sequencer::new(BuildState::load(&spy.markers));
    let mut spy2 = Spy::new();
    let outcomes = {
        let mut ev = Event::Start;
        loop {
            let action = seq2.step(ev);
            ev = match action {
                Action::RunBuild { stage } => {
                    spy2.builds.push(stage);
                    Event::BuildFinished { ok: true, detail: String::new() }
                }
                Action::CheckRequirements { .. } => Event::RequirementsChecked { missing: None },
                Action::CheckProducts { .. } => Event::ProductsChecked { missing: None },
                Action::WriteMarker { .. } => Event::MarkerWritten { ok: true },
                Action::Finished => break,
            };
        }
        seq2.outcomes().clone()
    };
    assert!(matches!(seq2.into_result(), RunResult::AllCompleted));
    assert!(spy2.builds.is_empty());
    assert_eq!(outcomes.len(), 6);
    for (i, s) in ALL_STAGES.iter().enumerate() {
        assert_eq!(outcomes[i], StageOutcome::Skipped { stage: *s });
    }
}

#[test]
fn a_failed_glibc_build_never_invokes_gcc2() {
    let seq = Sequencer::new(BuildState::new());
    let mut spy = Spy::new();
    spy.fail_build = Some(StageId::Glibc);
    let result = spy.drive(seq);
    match result {
        RunResult::Aborted { at_stage, cause } => {
            assert_eq!(at_stage, StageId::Glibc);
            assert_eq!(cause.stage(), StageId::Glibc);
            match cause {
                StageFailure::ExternalBuildFailed { stage, detail } => {
                    assert_eq!(stage, StageId::Glibc);
                    assert_eq!(detail, "exit code 2");
                }
                other => panic!("wrong cause: {other:?}"),
            }
        }
        RunResult::AllCompleted => panic!("the run must abort"),
    }
    // Gcc2's build was never requested; the earlier stages ran in order.
    assert_eq!(
        spy.builds,
        vec![
            StageId::Setup,
            StageId::Binutils,
            StageId::Gcc1,
            StageId::LinuxHeaders,
            StageId::Glibc,
        ]
    );
    assert_eq!(spy.builds.iter().filter(|s| **s == StageId::Gcc2).count(), 0);
}

#[test]
fn a_run_resumes_at_the_first_pending_stage() {
    // Setup, Binutils and Gcc1 are pre-marked completed; LinuxHeaders is
    // not. The run executes exactly LinuxHeaders, Glibc and Gcc2.
    let files: Vec<String> = vec![
        marker_file_name(StageId::Setup),
        marker_file_name(StageId::Binutils),
        marker_file_name(StageId::Gcc1),
    ];
    let seq = Sequencer::new(BuildState::load(&files));
    let mut spy = Spy::new();
    let result = spy.drive(seq);
    assert!(matches!(result, RunResult::AllCompleted));
    assert_eq!(spy.builds, vec![StageId::LinuxHeaders, StageId::Glibc, StageId::Gcc2]);
}

#[test]
fn resumed_outcomes_mix_skips_and_completions() {
    let files: Vec<String> = vec![
        marker_file_name(StageId::Setup),
        marker_file_name(StageId::Binutils),
        marker_file_name(StageId::Gcc1),
    ];
    let mut seq = Sequencer::new(BuildState::load(&files));
    let mut ev = Event::Start;
    loop {
        let action = seq.step(ev);
        ev = match action {
            Action::CheckRequirements { .. } => Event::RequirementsChecked { missing: None },
            Action::RunBuild { .. } => Event::BuildFinished { ok: true, detail: String::new() },
            Action::CheckProducts { .. } => Event::ProductsChecked { missing: None },
            Action::WriteMarker { .. } => Event::MarkerWritten { ok: true },
            Action::Finished => break,
        };
    }
    let outcomes = seq.outcomes().clone();
    assert_eq!(
        outcomes,
        vec![
            StageOutcome::Skipped { stage: StageId::Setup },
            StageOutcome::Skipped { stage: StageId::Binutils },
            StageOutcome::Skipped { stage: StageId::Gcc1 },
            StageOutcome::Completed { stage: StageId::LinuxHeaders },
            StageOutcome::Completed { stage: StageId::Glibc },
            StageOutcome::Completed { stage: StageId::Gcc2 },
        ]
    );
}

#[test]
fn a_missing_dependency_aborts_without_a_build_attempt() {
    // Binutils is marked completed but its installed artifacts are gone:
    // Gcc1's requirement check reports the missing path, and Gcc1's build
    // is never attempted.
    let files: Vec<String> = vec![
        marker_file_name(StageId::Setup),
        marker_file_name(StageId::Binutils),
    ];
    let seq = Sequencer::new(BuildState::load(&files));
    let mut spy = Spy::new();
    spy.missing_requirement =
        Some((StageId::Gcc1, "/out/arm64/binutils-build".to_string()));
    let result = spy.drive(seq);
    match result {
        RunResult::Aborted { at_stage, cause } => {
            assert_eq!(at_stage, StageId::Gcc1);
            match cause {
                StageFailure::MissingDependency { stage, missing_path } => {
                    assert_eq!(stage, StageId::Gcc1);
                    assert_eq!(missing_path, "/out/arm64/binutils-build");
                }
                other => panic!("wrong cause: {other:?}"),
            }
        }
        RunResult::AllCompleted => panic!("the run must abort"),
    }
    assert!(spy.builds.is_empty());
}

#[test]
fn a_missing_product_aborts_after_the_build() {
    let seq = Sequencer::new(BuildState::new());
    let mut spy = Spy::new();
    spy.missing_product = Some((StageId::Binutils, "/out/binutils-build".to_string()));
    let result = spy.drive(seq);
    match result {
        RunResult::Aborted { at_stage, cause } => {
            assert_eq!(at_stage, StageId::Binutils);
            match cause {
                StageFailure::PostconditionUnmet { stage, expected_path } => {
                    assert_eq!(stage, StageId::Binutils);
                    assert_eq!(expected_path, "/out/binutils-build");
                }
                other => panic!("wrong cause: {other:?}"),
            }
        }
        RunResult::AllCompleted => panic!("the run must abort"),
    }
    // The failing stage's own build ran; nothing later did.
    assert_eq!(spy.builds, vec![StageId::Setup, StageId::Binutils]);
}

#[test]
fn a_failed_marker_write_aborts_the_run() {
    let seq = Sequencer::new(BuildState::new());
    let mut spy = Spy::new();
    spy.fail_marker = Some(StageId::Setup);
    let result = spy.drive(seq);
    match result {
        RunResult::Aborted { at_stage, cause } => {
            assert_eq!(at_stage, StageId::Setup);
            assert!(matches!(cause, StageFailure::MarkerWriteFailed { stage: StageId::Setup }));
        }
        RunResult::AllCompleted => panic!("the run must abort"),
    }
    assert_eq!(spy.builds, vec![StageId::Setup]);
}

#[test]
fn the_failed_stage_is_logged_as_failed() {
    let mut seq = Sequencer::new(BuildState::new());
    let mut spy = Spy::new();
    spy.fail_build = Some(StageId::Binutils);
    let mut ev = Event::Start;
    loop {
        let action = seq.step(ev);
        ev = match action {
            Action::CheckRequirements { .. } => Event::RequirementsChecked { missing: None },
            Action::RunBuild { stage } => {
                if spy.fail_build == Some(stage) {
                    Event::BuildFinished { ok: false, detail: "signal 9".to_string() }
                } else {
                    Event::BuildFinished { ok: true, detail: String::new() }
                }
            }
            Action::CheckProducts { .. } => Event::ProductsChecked { missing: None },
            Action::WriteMarker { .. } => Event::MarkerWritten { ok: true },
            Action::Finished => break,
        };
    }
    let outcomes = seq.outcomes().clone();
    assert_eq!(
        outcomes,
        vec![
            StageOutcome::Completed { stage: StageId::Setup },
            StageOutcome::Failed { stage: StageId::Binutils },
        ]
    );
}
