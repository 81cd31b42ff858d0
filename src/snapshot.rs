//! The image build: the one-shot initialization hook that brings up the
//! environment and the interpreter, preloads sources, and captures the program
//! text before the image is frozen.
//!
//! The hook is a linear protocol. [`SnapshotBuild::step`] takes the outcome of
//! the last action and returns the next one; the embedding program performs
//! each action (running the environment constructors, calling the interpreter,
//! reading the filesystem or standard input) and reports back.
use vstd::prelude::*;
use vstd::utf8::encode_utf8;
use crate::preload::{is_manifest_path, names_manifest};
use crate::program_text::ProgramText;

verus! {

/// Why an image build was abandoned. Every failure is fatal to the build.
#[derive(Clone, Copy, PartialEq, Eq, Structural, Debug)]
pub enum BuildFailure {
    /// The interpreter could not be brought up.
    InterpreterUnavailable,
    /// The dependency manifest could not be resolved to source files.
    ResolutionFailed,
    /// A preload file could not be read or did not evaluate.
    PreloadFailed,
    /// Standard input could not be read to its end.
    InputUnreadable,
    /// The program-text slot had already been filled.
    ProgramTextAlreadySet,
}

/// Where the build stands: which outcome it waits for.
#[derive(Clone, Copy, PartialEq, Eq, Structural, Debug)]
pub enum BuildPhase {
    /// Nothing has been done yet.
    Start,
    /// The environment constructors have been asked for.
    AwaitGuard,
    /// The interpreter has been asked to start.
    AwaitInit,
    /// The preload configuration has been asked for.
    AwaitConfig,
    /// The dependency manifest has been handed to the resolver.
    AwaitResolution,
    /// A preload file has been handed to the interpreter.
    AwaitPreload,
    /// Standard input is being read.
    AwaitInput,
    /// The environment destructors have been asked for.
    Releasing,
    /// The image is complete.
    Built,
    /// The build was abandoned.
    Aborted,
}

/// The outcome of the action that the build asked for last.
#[derive(PartialEq, Eq, Debug)]
pub enum BuildEvent {
    /// The build hook was entered.
    Begin,
    /// The environment constructors have run.
    GuardAcquired,
    /// The interpreter is ready.
    InterpreterReady,
    /// The interpreter could not be brought up.
    InterpreterFailed,
    /// The preload configuration value, `None` where it is absent.
    PreloadConfig(Option<String>),
    /// The source files that the manifest resolved to, in dependency order.
    Resolved(Vec<String>),
    /// The manifest could not be resolved.
    ResolutionFailed,
    /// The last preload file was loaded into the interpreter.
    Preloaded,
    /// The last preload file could not be read or evaluated.
    PreloadFailed,
    /// The whole of standard input.
    Input(String),
    /// Standard input could not be read.
    InputFailed,
    /// The environment destructors have run.
    GuardReleased,
}

/// What the embedding program is to do next.
#[derive(PartialEq, Eq, Debug)]
pub enum BuildAction {
    /// Run the environment constructors.
    AcquireGuard,
    /// Bring the interpreter up.
    InitInterpreter,
    /// Look up the preload configuration value.
    ReadPreloadConfig,
    /// Resolve this dependency manifest to an ordered list of source files.
    ResolveManifest(String),
    /// Read this source file and load it into the interpreter.
    PreloadFile(String),
    /// Read the whole of standard input.
    ReadInput,
    /// Run the environment destructors.
    ReleaseGuard,
    /// The image is complete: return from the hook.
    Finish,
    /// The build failed: terminate without producing an image.
    Abort(BuildFailure),
}

/// The mathematical form of a [`BuildAction`].
pub enum BuildActionModel {
    AcquireGuard,
    InitInterpreter,
    ReadPreloadConfig,
    ResolveManifest(Seq<char>),
    PreloadFile(Seq<char>),
    ReadInput,
    ReleaseGuard,
    Finish,
    Abort(BuildFailure),
}

impl View for BuildAction {
    type V = BuildActionModel;

    open spec fn view(&self) -> BuildActionModel {
        match self {
            BuildAction::AcquireGuard => BuildActionModel::AcquireGuard,
            BuildAction::InitInterpreter => BuildActionModel::InitInterpreter,
            BuildAction::ReadPreloadConfig => BuildActionModel::ReadPreloadConfig,
            BuildAction::ResolveManifest(p) => BuildActionModel::ResolveManifest(p@),
            BuildAction::PreloadFile(p) => BuildActionModel::PreloadFile(p@),
            BuildAction::ReadInput => BuildActionModel::ReadInput,
            BuildAction::ReleaseGuard => BuildActionModel::ReleaseGuard,
            BuildAction::Finish => BuildActionModel::Finish,
            BuildAction::Abort(f) => BuildActionModel::Abort(*f),
        }
    }
}

/// The mathematical form of a build in progress.
pub struct BuildModel {
    pub phase: BuildPhase,
    /// Environment constructor runs not yet matched by a destructor run.
    pub guard_depth: nat,
    /// The preload files, in the order in which they are loaded.
    pub files: Seq<Seq<char>>,
    /// How many of `files` have been loaded.
    pub loaded: nat,
    /// The program-text slot.
    pub text: Option<Seq<char>>,
    /// The failure that ends the build, once there is one.
    pub failure: Option<BuildFailure>,
}

/// A build that has not begun.
pub open spec fn initial_build() -> BuildModel {
    BuildModel {
        phase: BuildPhase::Start,
        guard_depth: 0,
        files: Seq::empty(),
        loaded: 0,
        text: None,
        failure: None,
    }
}

/// Whether `e` answers what a build in `s` waits for.
pub open spec fn build_expects(s: BuildModel, e: BuildEvent) -> bool {
    match s.phase {
        BuildPhase::Start => e is Begin,
        BuildPhase::AwaitGuard => e is GuardAcquired,
        BuildPhase::AwaitInit => e is InterpreterReady || e is InterpreterFailed,
        BuildPhase::AwaitConfig => e is PreloadConfig,
        BuildPhase::AwaitResolution => e is Resolved || e is ResolutionFailed,
        BuildPhase::AwaitPreload => e is Preloaded || e is PreloadFailed,
        BuildPhase::AwaitInput => e is Input || e is InputFailed,
        BuildPhase::Releasing => e is GuardReleased,
        BuildPhase::Built => false,
        BuildPhase::Aborted => false,
    }
}

/// Gives up the build: the environment destructors still run first.
pub open spec fn build_fail(s: BuildModel, f: BuildFailure) -> (BuildModel, BuildActionModel) {
    (BuildModel { phase: BuildPhase::Releasing, failure: Some(f), ..s }, BuildActionModel::ReleaseGuard)
}

/// Goes on with the preload files from index `s.loaded`, or to standard input
/// once all are loaded.
pub open spec fn build_continue_preload(s: BuildModel) -> (BuildModel, BuildActionModel) {
    if s.loaded < s.files.len() {
        (BuildModel { phase: BuildPhase::AwaitPreload, ..s }, BuildActionModel::PreloadFile(s.files[s.loaded as int]))
    } else {
        (BuildModel { phase: BuildPhase::AwaitInput, ..s }, BuildActionModel::ReadInput)
    }
}

/// The views of a list of paths.
pub open spec fn paths_view(v: Seq<String>) -> Seq<Seq<char>> {
    v.map_values(|p: String| p@)
}

/// One step of the build: the state after `e` and the next action.
pub open spec fn build_step(s: BuildModel, e: BuildEvent) -> (BuildModel, BuildActionModel) {
    match e {
        BuildEvent::Begin => (BuildModel { phase: BuildPhase::AwaitGuard, ..s }, BuildActionModel::AcquireGuard),
        BuildEvent::GuardAcquired => (
            BuildModel { phase: BuildPhase::AwaitInit, guard_depth: s.guard_depth + 1, ..s },
            BuildActionModel::InitInterpreter,
        ),
        BuildEvent::InterpreterReady => (BuildModel { phase: BuildPhase::AwaitConfig, ..s }, BuildActionModel::ReadPreloadConfig),
        BuildEvent::InterpreterFailed => build_fail(s, BuildFailure::InterpreterUnavailable),
        BuildEvent::PreloadConfig(None) => (BuildModel { phase: BuildPhase::AwaitInput, ..s }, BuildActionModel::ReadInput),
        BuildEvent::PreloadConfig(Some(p)) => if names_manifest(encode_utf8(p@)) {
            (BuildModel { phase: BuildPhase::AwaitResolution, ..s }, BuildActionModel::ResolveManifest(p@))
        } else {
            build_continue_preload(BuildModel { files: seq![p@], loaded: 0, ..s })
        },
        BuildEvent::Resolved(fs) => build_continue_preload(BuildModel { files: paths_view(fs@), loaded: 0, ..s }),
        BuildEvent::ResolutionFailed => build_fail(s, BuildFailure::ResolutionFailed),
        BuildEvent::Preloaded => build_continue_preload(BuildModel { loaded: s.loaded + 1, ..s }),
        BuildEvent::PreloadFailed => build_fail(s, BuildFailure::PreloadFailed),
        BuildEvent::Input(t) => if s.text is None {
            (BuildModel { phase: BuildPhase::Releasing, text: Some(t@), ..s }, BuildActionModel::ReleaseGuard)
        } else {
            build_fail(s, BuildFailure::ProgramTextAlreadySet)
        },
        BuildEvent::InputFailed => build_fail(s, BuildFailure::InputUnreadable),
        BuildEvent::GuardReleased => {
            let r = BuildModel { guard_depth: (s.guard_depth - 1) as nat, ..s };
            match s.failure {
                None => (BuildModel { phase: BuildPhase::Built, ..r }, BuildActionModel::Finish),
                Some(f) => (BuildModel { phase: BuildPhase::Aborted, ..r }, BuildActionModel::Abort(f)),
            }
        },
    }
}

/// What holds of every build that [`SnapshotBuild::new`] and
/// [`SnapshotBuild::step`] can produce.
pub open spec fn build_inv(s: BuildModel) -> bool {
    &&& s.guard_depth == (match s.phase {
        BuildPhase::Start | BuildPhase::AwaitGuard | BuildPhase::Built | BuildPhase::Aborted => 0nat,
        _ => 1nat,
    })
    &&& s.loaded <= s.files.len()
    &&& s.phase is AwaitPreload ==> s.loaded < s.files.len()
    &&& s.text is Some ==> (s.phase is Releasing || s.phase is Built)
    &&& s.phase is Built ==> s.text is Some
    &&& s.failure is Some <==> (s.phase is Aborted || (s.phase is Releasing && s.text is None))
}

/// A build in progress.
pub struct SnapshotBuild {
    phase: BuildPhase,
    guard_depth: u64,
    files: Vec<String>,
    loaded: usize,
    text: ProgramText,
    failure: Option<BuildFailure>,
}

impl View for SnapshotBuild {
    type V = BuildModel;

    closed spec fn view(&self) -> BuildModel {
        BuildModel {
            phase: self.phase,
            guard_depth: self.guard_depth as nat,
            files: paths_view(self.files@),
            loaded: self.loaded as nat,
            text: self.text@,
            failure: self.failure,
        }
    }
}

impl SnapshotBuild {
    /// A build that has not begun.
    pub fn new() -> (r: SnapshotBuild)
        ensures
            r@ == initial_build(),
            build_inv(r@),
    {
        let r = SnapshotBuild {
            phase: BuildPhase::Start,
            guard_depth: 0,
            files: Vec::new(),
            loaded: 0,
            text: ProgramText::new(),
            failure: None,
        };
        assert(r@.files =~= Seq::<Seq<char>>::empty());
        r
    }

    /// The phase that the build is in.
    pub fn phase(&self) -> (r: BuildPhase)
        ensures
            r == self@.phase,
    {
        self.phase
    }

    /// Whether `ev` answers what the build waits for.
    pub fn expects(&self, ev: &BuildEvent) -> (r: bool)
        ensures
            r == build_expects(self@, *ev),
    {
        match self.phase {
            BuildPhase::Start => matches!(ev, BuildEvent::Begin),
            BuildPhase::AwaitGuard => matches!(ev, BuildEvent::GuardAcquired),
            BuildPhase::AwaitInit => matches!(ev, BuildEvent::InterpreterReady | BuildEvent::InterpreterFailed),
            BuildPhase::AwaitConfig => matches!(ev, BuildEvent::PreloadConfig(_)),
            BuildPhase::AwaitResolution => matches!(ev, BuildEvent::Resolved(_) | BuildEvent::ResolutionFailed),
            BuildPhase::AwaitPreload => matches!(ev, BuildEvent::Preloaded | BuildEvent::PreloadFailed),
            BuildPhase::AwaitInput => matches!(ev, BuildEvent::Input(_) | BuildEvent::InputFailed),
            BuildPhase::Releasing => matches!(ev, BuildEvent::GuardReleased),
            BuildPhase::Built => false,
            BuildPhase::Aborted => false,
        }
    }

    fn fail(&mut self, f: BuildFailure) -> (r: BuildAction)
        ensures
            (final(self)@, r@) == build_fail(old(self)@, f),
    {
        self.phase = BuildPhase::Releasing;
        self.failure = Some(f);
        BuildAction::ReleaseGuard
    }

    fn continue_preload(&mut self) -> (r: BuildAction)
        requires
            old(self)@.loaded <= old(self)@.files.len(),
        ensures
            (final(self)@, r@) == build_continue_preload(old(self)@),
    {
        if self.loaded < self.files.len() {
            self.phase = BuildPhase::AwaitPreload;
            BuildAction::PreloadFile(self.files[self.loaded].clone())
        } else {
            self.phase = BuildPhase::AwaitInput;
            BuildAction::ReadInput
        }
    }

    /// Takes the outcome of the last action and returns the next action.
    pub fn step(&mut self, ev: BuildEvent) -> (r: BuildAction)
        requires
            build_inv(old(self)@),
            build_expects(old(self)@, ev),
        ensures
            (final(self)@, r@) == build_step(old(self)@, ev),
            build_inv(final(self)@),
    {
        let ghost e = ev;
        let r = match ev {
            BuildEvent::Begin => {
                self.phase = BuildPhase::AwaitGuard;
                BuildAction::AcquireGuard
            },
            BuildEvent::GuardAcquired => {
                self.phase = BuildPhase::AwaitInit;
                self.guard_depth = self.guard_depth + 1;
                BuildAction::InitInterpreter
            },
            BuildEvent::InterpreterReady => {
                self.phase = BuildPhase::AwaitConfig;
                BuildAction::ReadPreloadConfig
            },
            BuildEvent::InterpreterFailed => self.fail(BuildFailure::InterpreterUnavailable),
            BuildEvent::PreloadConfig(None) => {
                self.phase = BuildPhase::AwaitInput;
                BuildAction::ReadInput
            },
            BuildEvent::PreloadConfig(Some(p)) => {
                if is_manifest_path(p.as_str()) {
                    self.phase = BuildPhase::AwaitResolution;
                    BuildAction::ResolveManifest(p)
                } else {
                    let ghost pv = p@;
                    self.files = vec![p];
                    self.loaded = 0;
                    assert(paths_view(self.files@) =~= seq![pv]);
                    self.continue_preload()
                }
            },
            BuildEvent::Resolved(fs) => {
                self.files = fs;
                self.loaded = 0;
                self.continue_preload()
            },
            BuildEvent::ResolutionFailed => self.fail(BuildFailure::ResolutionFailed),
            BuildEvent::Preloaded => {
                let n: usize = self.files.len();
                assert(self@.files.len() == n);
                self.loaded = self.loaded + 1;
                self.continue_preload()
            },
            BuildEvent::PreloadFailed => self.fail(BuildFailure::PreloadFailed),
            BuildEvent::Input(t) => {
                match self.text.set(t) {
                    Ok(()) => {
                        self.phase = BuildPhase::Releasing;
                        BuildAction::ReleaseGuard
                    },
                    Err(_) => self.fail(BuildFailure::ProgramTextAlreadySet),
                }
            },
            BuildEvent::InputFailed => self.fail(BuildFailure::InputUnreadable),
            BuildEvent::GuardReleased => {
                self.guard_depth = self.guard_depth - 1;
                match self.failure {
                    None => {
                        self.phase = BuildPhase::Built;
                        BuildAction::Finish
                    },
                    Some(f) => {
                        self.phase = BuildPhase::Aborted;
                        BuildAction::Abort(f)
                    },
                }
            },
        };
        proof {
            lemma_build_step_inv(old(self)@, e);
        }
        r
    }

    /// Ends a build: the captured program text where the image is complete,
    /// `None` where it is not and no image may be used.
    pub fn into_snapshot(self) -> (r: Option<ProgramText>)
        ensures
            r is Some <==> self@.phase is Built,
            r matches Some(t) ==> t@ == self@.text,
    {
        if self.phase == BuildPhase::Built {
            Some(self.text)
        } else {
            None
        }
    }
}

/// Every step that the build accepts keeps [`build_inv`].
pub proof fn lemma_build_step_inv(s: BuildModel, e: BuildEvent)
    requires
        build_inv(s),
        build_expects(s, e),
    ensures
        build_inv(build_step(s, e).0),
{
    if let BuildEvent::Resolved(fs) = e {
        assert(paths_view(fs@).len() == fs@.len());
    }
}

} // verus!
