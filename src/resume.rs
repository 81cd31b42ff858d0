//! The run time: the conventional entry point that resumes the frozen image,
//! evaluates the captured program text once and tears the interpreter down.
//!
//! As with the build, [`Resumption::step`] decides and the embedding program
//! acts: it calls the interpreter and reports the outcome.
use vstd::prelude::*;
use crate::program_text::ProgramText;

verus! {

/// Why a run ended abnormally. Every failure terminates the process.
#[derive(PartialEq, Eq, Debug)]
pub enum RunFailure {
    /// The image holds no program text.
    MissingProgram,
    /// The program failed; the interpreter's own description.
    Evaluation(String),
    /// The interpreter could not be torn down; its description.
    Cleanup(String),
}

/// The mathematical form of a [`RunFailure`].
pub enum RunFailureModel {
    MissingProgram,
    Evaluation(Seq<char>),
    Cleanup(Seq<char>),
}

impl View for RunFailure {
    type V = RunFailureModel;

    open spec fn view(&self) -> RunFailureModel {
        match self {
            RunFailure::MissingProgram => RunFailureModel::MissingProgram,
            RunFailure::Evaluation(d) => RunFailureModel::Evaluation(d@),
            RunFailure::Cleanup(d) => RunFailureModel::Cleanup(d@),
        }
    }
}

impl RunFailure {
    /// A readable account of the failure.
    pub fn describe(&self) -> (r: String)
        ensures
            self matches RunFailure::Evaluation(d) ==> r@ == d@,
            self matches RunFailure::Cleanup(d) ==> r@ == d@,
            self is MissingProgram ==> r@ == "the image holds no program text"@,
    {
        match self {
            RunFailure::MissingProgram => {
                let r = String::from_str("the image holds no program text");
                proof {
                    reveal_strlit("the image holds no program text");
                }
                r
            },
            RunFailure::Evaluation(d) => d.clone(),
            RunFailure::Cleanup(d) => d.clone(),
        }
    }
}

/// Where a run stands.
#[derive(Clone, Copy, PartialEq, Eq, Structural, Debug)]
pub enum RunPhase {
    /// The image has just been resumed.
    Start,
    /// The program text has been handed to the interpreter.
    AwaitEval,
    /// The interpreter has been asked to tear down.
    AwaitCleanup,
    /// The run completed; the process exits cleanly.
    Exited,
    /// The run failed; the process terminates abruptly.
    Aborted,
}

/// The outcome of the action that the run asked for last.
#[derive(PartialEq, Eq, Debug)]
pub enum RunEvent {
    /// The image was resumed.
    Resume,
    /// The interpreter finished evaluating the program.
    Evaluated(Result<(), String>),
    /// The interpreter finished tearing down.
    CleanedUp(Result<(), String>),
}

/// What the embedding program is to do next.
#[derive(PartialEq, Eq, Debug)]
pub enum RunAction {
    /// Evaluate this program text.
    Evaluate(String),
    /// Tear the interpreter down.
    Cleanup,
    /// Exit cleanly.
    Exit,
    /// Terminate abruptly.
    Abort(RunFailure),
}

/// The mathematical form of a [`RunAction`].
pub enum RunActionModel {
    Evaluate(Seq<char>),
    Cleanup,
    Exit,
    Abort(RunFailureModel),
}

impl View for RunAction {
    type V = RunActionModel;

    open spec fn view(&self) -> RunActionModel {
        match self {
            RunAction::Evaluate(t) => RunActionModel::Evaluate(t@),
            RunAction::Cleanup => RunActionModel::Cleanup,
            RunAction::Exit => RunActionModel::Exit,
            RunAction::Abort(f) => RunActionModel::Abort(f@),
        }
    }
}

/// The mathematical form of a run in progress.
pub struct RunModel {
    pub phase: RunPhase,
    /// The program text that the image holds.
    pub text: Option<Seq<char>>,
    /// How many times the program text has been handed to the interpreter.
    pub evaluations: nat,
    /// How many times the interpreter has been asked to tear down.
    pub cleanups: nat,
    /// The failure that ends the run, once there is one.
    pub failure: Option<RunFailureModel>,
}

/// A run of an image that holds `text`, just resumed.
pub open spec fn initial_run(text: Option<Seq<char>>) -> RunModel {
    RunModel { phase: RunPhase::Start, text, evaluations: 0, cleanups: 0, failure: None }
}

/// Whether `e` answers what a run in `s` waits for.
pub open spec fn run_expects(s: RunModel, e: RunEvent) -> bool {
    match s.phase {
        RunPhase::Start => e is Resume,
        RunPhase::AwaitEval => e is Evaluated,
        RunPhase::AwaitCleanup => e is CleanedUp,
        RunPhase::Exited => false,
        RunPhase::Aborted => false,
    }
}

/// One step of the run: the state after `e` and the next action.
pub open spec fn run_step(s: RunModel, e: RunEvent) -> (RunModel, RunActionModel) {
    match e {
        RunEvent::Resume => match s.text {
            None => (
                RunModel { phase: RunPhase::Aborted, failure: Some(RunFailureModel::MissingProgram), ..s },
                RunActionModel::Abort(RunFailureModel::MissingProgram),
            ),
            Some(t) => (
                RunModel { phase: RunPhase::AwaitEval, evaluations: s.evaluations + 1, ..s },
                RunActionModel::Evaluate(t),
            ),
        },
        RunEvent::Evaluated(res) => (
            RunModel {
                phase: RunPhase::AwaitCleanup,
                cleanups: s.cleanups + 1,
                failure: match res {
                    Ok(()) => None,
                    Err(d) => Some(RunFailureModel::Evaluation(d@)),
                },
                ..s
            },
            RunActionModel::Cleanup,
        ),
        RunEvent::CleanedUp(res) => match (s.failure, res) {
            (None, Ok(())) => (RunModel { phase: RunPhase::Exited, ..s }, RunActionModel::Exit),
            (None, Err(d)) => (
                RunModel { phase: RunPhase::Aborted, failure: Some(RunFailureModel::Cleanup(d@)), ..s },
                RunActionModel::Abort(RunFailureModel::Cleanup(d@)),
            ),
            (Some(f), _) => (RunModel { phase: RunPhase::Aborted, ..s }, RunActionModel::Abort(f)),
        },
    }
}

/// What holds of every run that [`Resumption::new`] and [`Resumption::step`]
/// can produce.
pub open spec fn run_inv(s: RunModel) -> bool {
    &&& s.cleanups <= s.evaluations <= 1
    &&& s.phase is Start ==> s.evaluations == 0 && s.failure is None
    &&& s.phase is AwaitEval ==> s.evaluations == 1 && s.cleanups == 0 && s.failure is None
    &&& s.phase is AwaitCleanup ==> s.evaluations == 1 && s.cleanups == 1
    &&& s.phase is Exited ==> s.evaluations == 1 && s.cleanups == 1 && s.failure is None
    &&& s.phase is Aborted ==> s.cleanups == s.evaluations && s.failure is Some
    &&& s.evaluations == 1 ==> s.text is Some
}

/// Every step that a run accepts keeps [`run_inv`].
pub proof fn lemma_run_step_inv(s: RunModel, e: RunEvent)
    requires
        run_inv(s),
        run_expects(s, e),
    ensures
        run_inv(run_step(s, e).0),
{
}

/// A run of a resumed image.
pub struct Resumption {
    phase: RunPhase,
    text: ProgramText,
    evaluations: Ghost<nat>,
    cleanups: Ghost<nat>,
    failure: Option<RunFailure>,
}

impl View for Resumption {
    type V = RunModel;

    closed spec fn view(&self) -> RunModel {
        RunModel {
            phase: self.phase,
            text: self.text@,
            evaluations: self.evaluations@,
            cleanups: self.cleanups@,
            failure: match self.failure {
                Some(f) => Some(f@),
                None => None,
            },
        }
    }
}

impl Resumption {
    /// A run of the image whose program-text slot is `text`.
    pub fn new(text: ProgramText) -> (r: Resumption)
        ensures
            r@ == initial_run(text@),
            run_inv(r@),
    {
        Resumption {
            phase: RunPhase::Start,
            text,
            evaluations: Ghost(0),
            cleanups: Ghost(0),
            failure: None,
        }
    }

    /// The phase that the run is in.
    pub fn phase(&self) -> (r: RunPhase)
        ensures
            r == self@.phase,
    {
        self.phase
    }

    /// Whether `ev` answers what the run waits for.
    pub fn expects(&self, ev: &RunEvent) -> (r: bool)
        ensures
            r == run_expects(self@, *ev),
    {
        match self.phase {
            RunPhase::Start => matches!(ev, RunEvent::Resume),
            RunPhase::AwaitEval => matches!(ev, RunEvent::Evaluated(_)),
            RunPhase::AwaitCleanup => matches!(ev, RunEvent::CleanedUp(_)),
            RunPhase::Exited => false,
            RunPhase::Aborted => false,
        }
    }

    /// Takes the outcome of the last action and returns the next action.
    pub fn step(&mut self, ev: RunEvent) -> (r: RunAction)
        requires
            run_inv(old(self)@),
            run_expects(old(self)@, ev),
        ensures
            (final(self)@, r@) == run_step(old(self)@, ev),
            run_inv(final(self)@),
    {
        match ev {
            RunEvent::Resume => match self.text.get() {
                None => {
                    self.phase = RunPhase::Aborted;
                    self.failure = Some(RunFailure::MissingProgram);
                    RunAction::Abort(RunFailure::MissingProgram)
                },
                Some(t) => {
                    let t = t.clone();
                    self.phase = RunPhase::AwaitEval;
                    self.evaluations = Ghost(self.evaluations@ + 1);
                    RunAction::Evaluate(t)
                },
            },
            RunEvent::Evaluated(res) => {
                self.phase = RunPhase::AwaitCleanup;
                self.cleanups = Ghost(self.cleanups@ + 1);
                self.failure = match res {
                    Ok(()) => None,
                    Err(d) => Some(RunFailure::Evaluation(d)),
                };
                RunAction::Cleanup
            },
            RunEvent::CleanedUp(res) => {
                self.phase = RunPhase::Aborted;
                match self.failure.take() {
                    Some(f) => {
                        let a = RunAction::Abort(f.duplicate());
                        self.failure = Some(f);
                        a
                    },
                    None => match res {
                        Ok(()) => {
                            self.phase = RunPhase::Exited;
                            RunAction::Exit
                        },
                        Err(d) => {
                            let f = RunFailure::Cleanup(d);
                            let a = RunAction::Abort(f.duplicate());
                            self.failure = Some(f);
                            a
                        },
                    },
                }
            },
        }
    }
}

impl RunFailure {
    /// A copy of the failure.
    pub fn duplicate(&self) -> (r: RunFailure)
        ensures
            r@ == self@,
    {
        match self {
            RunFailure::MissingProgram => RunFailure::MissingProgram,
            RunFailure::Evaluation(d) => RunFailure::Evaluation(d.clone()),
            RunFailure::Cleanup(d) => RunFailure::Cleanup(d.clone()),
        }
    }
}

} // verus!
