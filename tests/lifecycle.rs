use ruvy::preload::is_manifest_path;
use ruvy::program_text::ProgramText;
use ruvy::resume::{Resumption, RunAction, RunEvent, RunFailure, RunPhase};
use ruvy::snapshot::{BuildAction, BuildEvent, BuildFailure, BuildPhase, SnapshotBuild};

/// Feeds `ev` to `b` after checking that the build waits for it.
fn build_step(b: &mut SnapshotBuild, ev: BuildEvent) -> BuildAction {
    assert!(b.expects(&ev));
    b.step(ev)
}

fn run_step(r: &mut Resumption, ev: RunEvent) -> RunAction {
    assert!(r.expects(&ev));
    r.step(ev)
}

/// Drives a build up to the point where it asks for the preload
/// configuration.
fn started_build() -> SnapshotBuild {
    let mut b = SnapshotBuild::new();
    assert_eq!(build_step(&mut b, BuildEvent::Begin), BuildAction::AcquireGuard);
    assert_eq!(build_step(&mut b, BuildEvent::GuardAcquired), BuildAction::InitInterpreter);
    assert_eq!(build_step(&mut b, BuildEvent::InterpreterReady), BuildAction::ReadPreloadConfig);
    b
}

/// Builds an image without preloading and returns its program text.
fn build_without_preload(input: &str) -> ProgramText {
    let mut b = started_build();
    assert_eq!(build_step(&mut b, BuildEvent::PreloadConfig(None)), BuildAction::ReadInput);
    assert_eq!(build_step(&mut b, BuildEvent::Input(input.to_string())), BuildAction::ReleaseGuard);
    assert_eq!(build_step(&mut b, BuildEvent::GuardReleased), BuildAction::Finish);
    assert_eq!(b.phase(), BuildPhase::Built);
    b.into_snapshot().expect("a completed build yields an image")
}

#[test]
fn program_text_starts_empty() {
    let t = ProgramText::new();
    assert!(!t.is_set());
    assert_eq!(t.get(), None);
}

#[test]
fn program_text_set_then_get() {
    let mut t = ProgramText::new();
    assert_eq!(t.set("puts 1".to_string()), Ok(()));
    assert!(t.is_set());
    assert_eq!(t.get().map(|s| s.as_str()), Some("puts 1"));
}

#[test]
fn program_text_second_set_is_refused() {
    let mut t = ProgramText::new();
    assert_eq!(t.set("first".to_string()), Ok(()));
    assert_eq!(t.set("second".to_string()), Err("second".to_string()));
    assert_eq!(t.set("first".to_string()), Err("first".to_string()));
    assert_eq!(t.get().map(|s| s.as_str()), Some("first"));
}

#[test]
fn manifest_paths() {
    assert!(is_manifest_path("Gemfile"));
    assert!(is_manifest_path("/app/Gemfile"));
    assert!(is_manifest_path("a/b/Gemfile"));
    assert!(!is_manifest_path("xGemfile"));
    assert!(!is_manifest_path("Gemfile.lock"));
    assert!(!is_manifest_path("/app/lib.rb"));
    assert!(!is_manifest_path("emfile"));
    assert!(!is_manifest_path(""));
    assert!(!is_manifest_path("/app/gemfile"));
}

#[test]
fn puts_scenario_builds_and_runs_cleanly() {
    let text = build_without_preload("puts 1+1");
    let mut r = Resumption::new(text);
    assert_eq!(run_step(&mut r, RunEvent::Resume), RunAction::Evaluate("puts 1+1".to_string()));
    assert_eq!(run_step(&mut r, RunEvent::Evaluated(Ok(()))), RunAction::Cleanup);
    assert_eq!(run_step(&mut r, RunEvent::CleanedUp(Ok(()))), RunAction::Exit);
    assert_eq!(r.phase(), RunPhase::Exited);
    assert!(!r.expects(&RunEvent::Resume));
}

#[test]
fn round_trip_keeps_text_exactly() {
    for input in ["", "x = 1\nputs x\n", "puts \"h\u{e9}llo \u{1f600}\"\r\n\t# trailing  "] {
        let text = build_without_preload(input);
        let mut r = Resumption::new(text);
        assert_eq!(run_step(&mut r, RunEvent::Resume), RunAction::Evaluate(input.to_string()));
        assert!(!r.expects(&RunEvent::Resume));
    }
}

#[test]
fn reading_unset_text_is_fatal() {
    let mut r = Resumption::new(ProgramText::new());
    assert_eq!(run_step(&mut r, RunEvent::Resume), RunAction::Abort(RunFailure::MissingProgram));
    assert_eq!(r.phase(), RunPhase::Aborted);
    assert_eq!(RunFailure::MissingProgram.describe(), "the image holds no program text");
}

#[test]
fn absent_preload_goes_straight_to_input() {
    let mut b = started_build();
    assert_eq!(build_step(&mut b, BuildEvent::PreloadConfig(None)), BuildAction::ReadInput);
    assert_eq!(b.phase(), BuildPhase::AwaitInput);
}

#[test]
fn single_file_preload_is_loaded_then_input_read() {
    let mut b = started_build();
    assert_eq!(
        build_step(&mut b, BuildEvent::PreloadConfig(Some("/app/boot.rb".to_string()))),
        BuildAction::PreloadFile("/app/boot.rb".to_string())
    );
    assert_eq!(build_step(&mut b, BuildEvent::Preloaded), BuildAction::ReadInput);
    assert_eq!(build_step(&mut b, BuildEvent::Input("p 1".to_string())), BuildAction::ReleaseGuard);
    assert_eq!(build_step(&mut b, BuildEvent::GuardReleased), BuildAction::Finish);
    let text = b.into_snapshot().expect("image");
    assert_eq!(text.get().map(|s| s.as_str()), Some("p 1"));
}

#[test]
fn manifest_files_are_preloaded_in_resolution_order() {
    let mut b = started_build();
    assert_eq!(
        build_step(&mut b, BuildEvent::PreloadConfig(Some("/app/Gemfile".to_string()))),
        BuildAction::ResolveManifest("/app/Gemfile".to_string())
    );
    let files = vec!["/gems/a.rb".to_string(), "/gems/b.rb".to_string()];
    assert_eq!(build_step(&mut b, BuildEvent::Resolved(files)), BuildAction::PreloadFile("/gems/a.rb".to_string()));
    assert_eq!(build_step(&mut b, BuildEvent::Preloaded), BuildAction::PreloadFile("/gems/b.rb".to_string()));
    assert_eq!(build_step(&mut b, BuildEvent::Preloaded), BuildAction::ReadInput);
}

#[test]
fn dependency_out_of_order_aborts_build() {
    // b.rb needs a definition from a.rb; loaded first, it fails to evaluate.
    let mut b = started_build();
    build_step(&mut b, BuildEvent::PreloadConfig(Some("Gemfile".to_string())));
    let files = vec!["/gems/b.rb".to_string(), "/gems/a.rb".to_string()];
    assert_eq!(build_step(&mut b, BuildEvent::Resolved(files)), BuildAction::PreloadFile("/gems/b.rb".to_string()));
    assert_eq!(build_step(&mut b, BuildEvent::PreloadFailed), BuildAction::ReleaseGuard);
    assert_eq!(build_step(&mut b, BuildEvent::GuardReleased), BuildAction::Abort(BuildFailure::PreloadFailed));
    assert!(b.into_snapshot().is_none());
}

#[test]
fn empty_resolution_reads_input() {
    let mut b = started_build();
    build_step(&mut b, BuildEvent::PreloadConfig(Some("Gemfile".to_string())));
    assert_eq!(build_step(&mut b, BuildEvent::Resolved(Vec::new())), BuildAction::ReadInput);
}

#[test]
fn invalid_preload_file_leaves_no_image() {
    let mut b = started_build();
    assert_eq!(
        build_step(&mut b, BuildEvent::PreloadConfig(Some("broken.rb".to_string()))),
        BuildAction::PreloadFile("broken.rb".to_string())
    );
    assert_eq!(build_step(&mut b, BuildEvent::PreloadFailed), BuildAction::ReleaseGuard);
    assert!(!b.expects(&BuildEvent::Input("puts 1".to_string())));
    assert_eq!(build_step(&mut b, BuildEvent::GuardReleased), BuildAction::Abort(BuildFailure::PreloadFailed));
    assert_eq!(b.phase(), BuildPhase::Aborted);
    assert!(b.into_snapshot().is_none());
}

/// Runs a build through `events`, keeping a counter that goes up when the
/// environment is acquired and down when it is released; returns the counter
/// and the last action.
fn guard_balance(events: Vec<BuildEvent>) -> (i32, BuildAction) {
    let mut b = SnapshotBuild::new();
    let mut depth: i32 = 0;
    let mut last = BuildAction::Finish;
    for ev in events {
        let a = build_step(&mut b, ev);
        match a {
            BuildAction::AcquireGuard => depth += 1,
            BuildAction::ReleaseGuard => depth -= 1,
            _ => {}
        }
        assert!(depth >= 0 && depth <= 1);
        last = a;
    }
    (depth, last)
}

#[test]
fn guard_balances_on_every_exit_path() {
    let head = || vec![BuildEvent::Begin, BuildEvent::GuardAcquired];
    let mut paths: Vec<(Vec<BuildEvent>, BuildAction)> = Vec::new();
    let mut p = head();
    p.extend([BuildEvent::InterpreterReady, BuildEvent::PreloadConfig(None), BuildEvent::Input("x".to_string()), BuildEvent::GuardReleased]);
    paths.push((p, BuildAction::Finish));
    let mut p = head();
    p.extend([BuildEvent::InterpreterFailed, BuildEvent::GuardReleased]);
    paths.push((p, BuildAction::Abort(BuildFailure::InterpreterUnavailable)));
    let mut p = head();
    p.extend([BuildEvent::InterpreterReady, BuildEvent::PreloadConfig(Some("Gemfile".to_string())), BuildEvent::ResolutionFailed, BuildEvent::GuardReleased]);
    paths.push((p, BuildAction::Abort(BuildFailure::ResolutionFailed)));
    let mut p = head();
    p.extend([BuildEvent::InterpreterReady, BuildEvent::PreloadConfig(Some("a.rb".to_string())), BuildEvent::PreloadFailed, BuildEvent::GuardReleased]);
    paths.push((p, BuildAction::Abort(BuildFailure::PreloadFailed)));
    let mut p = head();
    p.extend([BuildEvent::InterpreterReady, BuildEvent::PreloadConfig(None), BuildEvent::InputFailed, BuildEvent::GuardReleased]);
    paths.push((p, BuildAction::Abort(BuildFailure::InputUnreadable)));
    for (events, expected) in paths {
        let (depth, last) = guard_balance(events);
        assert_eq!(depth, 0);
        assert_eq!(last, expected);
    }
}

#[test]
fn evaluation_failure_still_cleans_up() {
    let mut r = Resumption::new(build_without_preload("raise 'x'"));
    run_step(&mut r, RunEvent::Resume);
    assert_eq!(run_step(&mut r, RunEvent::Evaluated(Err("RuntimeError: x".to_string()))), RunAction::Cleanup);
    assert_eq!(
        run_step(&mut r, RunEvent::CleanedUp(Ok(()))),
        RunAction::Abort(RunFailure::Evaluation("RuntimeError: x".to_string()))
    );
    assert_eq!(r.phase(), RunPhase::Aborted);
}

#[test]
fn cleanup_failure_is_fatal() {
    let mut r = Resumption::new(build_without_preload("1"));
    run_step(&mut r, RunEvent::Resume);
    run_step(&mut r, RunEvent::Evaluated(Ok(())));
    let a = run_step(&mut r, RunEvent::CleanedUp(Err("finalizer".to_string())));
    assert_eq!(a, RunAction::Abort(RunFailure::Cleanup("finalizer".to_string())));
    if let RunAction::Abort(f) = a {
        assert_eq!(f.describe(), "finalizer");
    }
}

#[test]
fn evaluation_failure_outranks_cleanup_failure() {
    let mut r = Resumption::new(build_without_preload("1"));
    run_step(&mut r, RunEvent::Resume);
    run_step(&mut r, RunEvent::Evaluated(Err("SyntaxError".to_string())));
    assert_eq!(
        run_step(&mut r, RunEvent::CleanedUp(Err("finalizer".to_string()))),
        RunAction::Abort(RunFailure::Evaluation("SyntaxError".to_string()))
    );
}

#[test]
fn build_refuses_events_out_of_order() {
    let b = SnapshotBuild::new();
    assert!(!b.expects(&BuildEvent::GuardAcquired));
    assert!(!b.expects(&BuildEvent::Input("x".to_string())));
    assert!(b.expects(&BuildEvent::Begin));
    let r = Resumption::new(ProgramText::new());
    assert!(!r.expects(&RunEvent::Evaluated(Ok(()))));
}

#[test]
fn incomplete_build_yields_no_image() {
    let b = started_build();
    assert!(b.into_snapshot().is_none());
}

#[test]
fn duplicate_failure_is_equal() {
    let f = RunFailure::Evaluation("e".to_string());
    assert_eq!(f.duplicate(), f);
}
