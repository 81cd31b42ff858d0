//! The rules of the build and run protocol, stated over the models of
//! [`crate::snapshot`], [`crate::resume`] and [`crate::program_text`].
use vstd::prelude::*;
use crate::program_text::slot_after_set;
use crate::resume::{initial_run, lemma_run_step_inv, run_expects, run_inv, run_step, RunActionModel, RunEvent, RunFailureModel, RunModel};
use crate::snapshot::{
    build_expects, build_inv, build_step, initial_build, lemma_build_step_inv, paths_view, BuildActionModel,
    BuildEvent, BuildModel, BuildPhase,
};

verus! {

/// The state that a build reaches from `s` through the events `evs`, each of
/// which must answer what the build waits for; `None` where one does not.
pub open spec fn build_run(s: BuildModel, evs: Seq<BuildEvent>) -> Option<BuildModel>
    decreases evs.len(),
{
    if evs.len() == 0 {
        Some(s)
    } else if build_expects(s, evs[0]) {
        build_run(build_step(s, evs[0]).0, evs.drop_first())
    } else {
        None
    }
}

/// The state that a run reaches from `s` through the events `evs`; `None`
/// where one of them is not what the run waits for.
pub open spec fn run_run(s: RunModel, evs: Seq<RunEvent>) -> Option<RunModel>
    decreases evs.len(),
{
    if evs.len() == 0 {
        Some(s)
    } else if run_expects(s, evs[0]) {
        run_run(run_step(s, evs[0]).0, evs.drop_first())
    } else {
        None
    }
}

/// The text of the first `Input` event among `evs`.
pub open spec fn input_in(evs: Seq<BuildEvent>) -> Option<Seq<char>>
    decreases evs.len(),
{
    if evs.len() == 0 {
        None
    } else if let BuildEvent::Input(t) = evs[0] {
        Some(t@)
    } else {
        input_in(evs.drop_first())
    }
}

/// Every build reached from a well-formed one is well-formed.
pub proof fn lemma_build_run_inv(s: BuildModel, evs: Seq<BuildEvent>)
    requires
        build_inv(s),
    ensures
        build_run(s, evs) matches Some(r) ==> build_inv(r),
    decreases evs.len(),
{
    if evs.len() > 0 && build_expects(s, evs[0]) {
        lemma_build_step_inv(s, evs[0]);
        lemma_build_run_inv(build_step(s, evs[0]).0, evs.drop_first());
    }
}

/// The program text that a build holds is the first standard input it read.
pub proof fn lemma_build_run_text(s: BuildModel, evs: Seq<BuildEvent>)
    requires
        build_inv(s),
    ensures
        build_run(s, evs) matches Some(r) ==> r.text == (if s.text is Some {
            s.text
        } else {
            input_in(evs)
        }),
    decreases evs.len(),
{
    if evs.len() > 0 && build_expects(s, evs[0]) {
        lemma_build_step_inv(s, evs[0]);
        lemma_build_run_text(build_step(s, evs[0]).0, evs.drop_first());
    }
}

/// Every run reached from a well-formed one is well-formed.
pub proof fn lemma_run_run_inv(s: RunModel, evs: Seq<RunEvent>)
    requires
        run_inv(s),
    ensures
        run_run(s, evs) matches Some(r) ==> run_inv(r),
    decreases evs.len(),
{
    if evs.len() > 0 && run_expects(s, evs[0]) {
        lemma_run_step_inv(s, evs[0]);
        lemma_run_run_inv(run_step(s, evs[0]).0, evs.drop_first());
    }
}

/// A completed image evaluates exactly the standard input that its build
/// read, and evaluates it once: resuming it hands that text to the
/// interpreter, no run hands any program to the interpreter a second time,
/// and a run that exits cleanly has evaluated once and cleaned up once.
pub proof fn law_image_evaluates_its_input_once(evs: Seq<BuildEvent>, revs: Seq<RunEvent>)
    ensures
        build_run(initial_build(), evs) matches Some(b) ==> b.phase is Built ==> {
            &&& input_in(evs) is Some
            &&& b.text == input_in(evs)
            &&& run_step(initial_run(b.text), RunEvent::Resume).1 == RunActionModel::Evaluate(
                input_in(evs)->0,
            )
            &&& run_run(initial_run(b.text), revs) matches Some(r) ==> r.evaluations <= 1
                && (r.phase is Exited ==> r.evaluations == 1 && r.cleanups == 1)
        },
{
    lemma_build_run_inv(initial_build(), evs);
    lemma_build_run_text(initial_build(), evs);
    if let Some(b) = build_run(initial_build(), evs) {
        lemma_run_run_inv(initial_run(b.text), revs);
    }
}

/// Each step that hands a program to the interpreter is the step that counts
/// an evaluation, and what it hands over is the image's program text.
pub proof fn law_evaluation_is_counted(s: RunModel, e: RunEvent)
    requires
        run_inv(s),
        run_expects(s, e),
    ensures
        run_step(s, e).1 matches RunActionModel::Evaluate(t) ==> s.text == Some(t)
            && run_step(s, e).0.evaluations == s.evaluations + 1,
        !(run_step(s, e).1 is Evaluate) ==> run_step(s, e).0.evaluations == s.evaluations,
{
}

/// The interpreter is torn down once after the program is evaluated, whatever
/// the evaluation's outcome, and never before it: every run that has ended
/// after evaluating has cleaned up exactly once.
pub proof fn law_cleanup_follows_evaluation(text: Option<Seq<char>>, evs: Seq<RunEvent>)
    ensures
        run_run(initial_run(text), evs) matches Some(r) ==> {
            &&& r.cleanups <= r.evaluations <= 1
            &&& (r.phase is Exited || r.phase is Aborted) ==> r.cleanups == r.evaluations
            &&& r.phase is Exited ==> r.cleanups == 1
        },
{
    lemma_run_run_inv(initial_run(text), evs);
}

/// A filled program-text slot refuses every later value and keeps the first.
pub proof fn law_program_text_is_write_once(first: Seq<char>, second: Seq<char>)
    ensures
        slot_after_set(None, first) == Some(first),
        slot_after_set(slot_after_set(None, first), second) == Some(first),
{
}

/// A run whose image holds no program text fails before it evaluates
/// anything.
pub proof fn law_missing_program_is_fatal()
    ensures
        run_step(initial_run(None), RunEvent::Resume).0.phase is Aborted,
        run_step(initial_run(None), RunEvent::Resume).0.evaluations == 0,
        run_step(initial_run(None), RunEvent::Resume).1 == RunActionModel::Abort(
            RunFailureModel::MissingProgram,
        ),
{
}

/// Without a preload configuration the build goes straight from the started
/// interpreter to reading standard input: nothing is loaded, and the state is
/// the one it would have with no preload step at all.
pub proof fn law_absent_preload_loads_nothing(s: BuildModel)
    requires
        build_inv(s),
        s.phase is AwaitConfig,
    ensures
        build_step(s, BuildEvent::PreloadConfig(None)) == (
            BuildModel { phase: BuildPhase::AwaitInput, ..s },
            BuildActionModel::ReadInput,
        ),
{
}

/// The build after `s` has seen `k` successful preloads in a row.
pub open spec fn after_preloads(s: BuildModel, k: nat) -> BuildModel
    decreases k,
{
    if k == 0 {
        s
    } else {
        build_step(after_preloads(s, (k - 1) as nat), BuildEvent::Preloaded).0
    }
}

/// The files that a manifest resolves to are loaded one by one in the order of
/// resolution: after `k` of them have loaded, the next one asked for is the
/// one at index `k`, and after the last the build reads standard input.
pub proof fn law_preload_follows_resolution_order(s: BuildModel, fs: Vec<String>, k: nat)
    requires
        build_inv(s),
        s.phase is AwaitResolution,
        k <= fs@.len(),
    ensures
        ({
            let s0 = build_step(s, BuildEvent::Resolved(fs)).0;
            let sk = after_preloads(s0, k);
            &&& sk.loaded == k
            &&& sk.files == paths_view(fs@)
            &&& k > 0 ==> build_step(after_preloads(s0, (k - 1) as nat), BuildEvent::Preloaded).1
                == (if k < fs@.len() {
                BuildActionModel::PreloadFile(fs@[k as int]@)
            } else {
                BuildActionModel::ReadInput
            })
            &&& k == 0 ==> build_step(s, BuildEvent::Resolved(fs)).1 == (if 0 < fs@.len() {
                BuildActionModel::PreloadFile(fs@[0]@)
            } else {
                BuildActionModel::ReadInput
            })
        }),
    decreases k,
{
    if k > 0 {
        law_preload_follows_resolution_order(s, fs, (k - 1) as nat);
    }
}

/// The environment destructors run once for each run of the constructors, on
/// every path: a build never holds the environment twice, and a build that
/// has ended, completed or abandoned, holds it no more. A release is asked
/// for only while the environment is held, and nothing but its completion is
/// accepted afterwards.
pub proof fn law_guard_released_once_per_acquisition(evs: Seq<BuildEvent>, s: BuildModel, e: BuildEvent)
    ensures
        build_run(initial_build(), evs) matches Some(b) ==> b.guard_depth <= 1 && (
        b.phase is Built || b.phase is Aborted ==> b.guard_depth == 0),
        build_inv(s) && build_expects(s, e) && build_step(s, e).1 is ReleaseGuard ==> {
            &&& s.guard_depth == 1
            &&& build_step(s, e).0.guard_depth == 1
            &&& build_step(s, e).0.phase is Releasing
            &&& forall|e2: BuildEvent| build_expects(build_step(s, e).0, e2) ==> e2 is GuardReleased
        },
{
    lemma_build_run_inv(initial_build(), evs);
}

} // verus!
