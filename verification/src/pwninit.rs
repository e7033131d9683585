//! Preparing a challenge directory from start to end: which step comes next,
//! and what a step's failure makes of the whole.

use crate::dockerfile;
use vstd::prelude::*;
use vstd::string::StringExecFns;

verus! {

/// What is known of the challenge's files, and what the operator asked for.
#[derive(Debug, Clone, PartialEq, Eq)]
pub struct Opts {
    /// The C library, once given or found.
    pub libc: Option<String>,
    /// The dynamic loader, once given or found.
    pub ld: Option<String>,
    /// The image to take a missing C library or loader from.
    pub docker_tag: Option<String>,
    /// The Dockerfile that names such an image.
    pub dockerfile: Option<String>,
    /// Whether the binary is to be left unpatched.
    pub no_patch_bin: bool,
    /// Whether no solve script is to be written.
    pub no_template: bool,
}

/// `Opts`, with each text as its characters.
pub struct OptsView {
    pub libc: Option<Seq<char>>,
    pub ld: Option<Seq<char>>,
    pub docker_tag: Option<Seq<char>>,
    pub dockerfile: Option<Seq<char>>,
    pub no_patch_bin: bool,
    pub no_template: bool,
}

impl View for Opts {
    type V = OptsView;

    open spec fn view(&self) -> OptsView {
        OptsView {
            libc: self.libc.deep_view(),
            ld: self.ld.deep_view(),
            docker_tag: self.docker_tag.deep_view(),
            dockerfile: self.dockerfile.deep_view(),
            no_patch_bin: self.no_patch_bin,
            no_template: self.no_template,
        }
    }
}

/// Why the preparation failed: the step that failed, and why it did.
#[derive(Debug, Clone, PartialEq, Eq)]
#[allow(inconsistent_fields)]
pub enum Error {
    SetBinExec { source: String },
    Find { source: String },
    SetLdExec { source: String },
    PatchBin { source: String },
    Solvepy { source: String },
    Dockerfile { source: dockerfile::Error },
}

/// An `Error`, with each text as its characters.
#[allow(inconsistent_fields)]
pub enum ErrorView {
    SetBinExec { source: Seq<char> },
    Find { source: Seq<char> },
    SetLdExec { source: Seq<char> },
    PatchBin { source: Seq<char> },
    Solvepy { source: Seq<char> },
    Dockerfile { source: dockerfile::ErrorView },
}

impl View for Error {
    type V = ErrorView;

    open spec fn view(&self) -> ErrorView {
        match self {
            Error::SetBinExec { source } => ErrorView::SetBinExec { source: source@ },
            Error::Find { source } => ErrorView::Find { source: source@ },
            Error::SetLdExec { source } => ErrorView::SetLdExec { source: source@ },
            Error::PatchBin { source } => ErrorView::PatchBin { source: source@ },
            Error::Solvepy { source } => ErrorView::Solvepy { source: source@ },
            Error::Dockerfile { source } => ErrorView::Dockerfile { source: source@ },
        }
    }
}

impl ErrorView {
    /// The line that tells an operator of this error.
    pub open spec fn describe(self) -> Seq<char> {
        match self {
            ErrorView::SetBinExec { source } => "failed setting binary executable: "@ + source,
            ErrorView::Find { source } =>
                "failed locating provided files (binary, libc, linker, Dockerfile): "@ + source,
            ErrorView::SetLdExec { source } => "failed setting linker executable: "@ + source,
            ErrorView::PatchBin { source } => "failed patching binary: "@ + source,
            ErrorView::Solvepy { source } => "failed making template solve script: "@ + source,
            ErrorView::Dockerfile { source } => "Failed to extract files from docker image: "@
                + source.describe(),
        }
    }
}

impl Error {
    /// The line that tells an operator of this error.
    pub fn describe(&self) -> (line: String)
        ensures
            line@ == self@.describe(),
    {
        match self {
            Error::SetBinExec { source } => {
                let mut line = "failed setting binary executable: ".to_owned();
                line.append(source.as_str());
                line
            },
            Error::Find { source } => {
                let mut line =
                    "failed locating provided files (binary, libc, linker, Dockerfile): ".to_owned();
                line.append(source.as_str());
                line
            },
            Error::SetLdExec { source } => {
                let mut line = "failed setting linker executable: ".to_owned();
                line.append(source.as_str());
                line
            },
            Error::PatchBin { source } => {
                let mut line = "failed patching binary: ".to_owned();
                line.append(source.as_str());
                line
            },
            Error::Solvepy { source } => {
                let mut line = "failed making template solve script: ".to_owned();
                line.append(source.as_str());
                line
            },
            Error::Dockerfile { source } => {
                let mut line = "Failed to extract files from docker image: ".to_owned();
                let inner = source.describe();
                line.append(inner.as_str());
                line
            },
        }
    }
}

/// A step of the preparation.
#[derive(Debug, Clone, PartialEq, Eq)]
pub enum Task {
    /// Look for the files that were not given.
    FindFiles,
    /// Tell the operator which files there are.
    PrintFiles,
    /// Make the binary executable.
    SetBinExec,
    /// Fetch the C library and the loader from the image `tag`.
    DownloadRuntime { tag: String },
    /// Fetch them from the image that `dockerfile` names.
    VisitDockerfile { dockerfile: String },
    /// Fetch what goes with the C library.
    VisitLibc,
    /// Make the loader executable.
    SetLdExec,
    /// Patch the binary so that it runs with the C library and the loader.
    PatchBin,
    /// Write the solve script.
    WriteStub,
}

/// A `Task`, with each text as its characters.
pub enum TaskView {
    FindFiles,
    PrintFiles,
    SetBinExec,
    DownloadRuntime { tag: Seq<char> },
    VisitDockerfile { dockerfile: Seq<char> },
    VisitLibc,
    SetLdExec,
    PatchBin,
    WriteStub,
}

impl View for Task {
    type V = TaskView;

    open spec fn view(&self) -> TaskView {
        match self {
            Task::FindFiles => TaskView::FindFiles,
            Task::PrintFiles => TaskView::PrintFiles,
            Task::SetBinExec => TaskView::SetBinExec,
            Task::DownloadRuntime { tag } => TaskView::DownloadRuntime { tag: tag@ },
            Task::VisitDockerfile { dockerfile } => TaskView::VisitDockerfile {
                dockerfile: dockerfile@,
            },
            Task::VisitLibc => TaskView::VisitLibc,
            Task::SetLdExec => TaskView::SetLdExec,
            Task::PatchBin => TaskView::PatchBin,
            Task::WriteStub => TaskView::WriteStub,
        }
    }
}

impl DeepView for Task {
    type V = TaskView;

    open spec fn deep_view(&self) -> TaskView {
        self@
    }
}

/// What a step left behind.
#[derive(Debug, PartialEq, Eq)]
#[allow(inconsistent_fields)]
pub enum TaskOutcome {
    /// The search for files ended: with what is known now, or with the
    /// reason why it failed.
    Found { files: Result<Opts, String> },
    /// The fetch from an image ended.
    Fetched { status: Result<(), dockerfile::Error> },
    /// Another step ended.
    Done { status: Result<(), String> },
}

/// A `TaskOutcome`, with each text as its characters.
#[allow(inconsistent_fields)]
pub enum TaskOutcomeView {
    Found { files: Result<OptsView, Seq<char>> },
    Fetched { status: Result<(), dockerfile::ErrorView> },
    Done { status: Result<(), Seq<char>> },
}

impl View for TaskOutcome {
    type V = TaskOutcomeView;

    open spec fn view(&self) -> TaskOutcomeView {
        match self {
            TaskOutcome::Found { files } => TaskOutcomeView::Found {
                files: match files {
                    Ok(opts) => Ok(opts@),
                    Err(source) => Err(source@),
                },
            },
            TaskOutcome::Fetched { status } => TaskOutcomeView::Fetched {
                status: match status {
                    Ok(()) => Ok(()),
                    Err(source) => Err(source@),
                },
            },
            TaskOutcome::Done { status } => TaskOutcomeView::Done {
                status: match status {
                    Ok(()) => Ok(()),
                    Err(source) => Err(source@),
                },
            },
        }
    }
}

/// Where the preparation stands: the step whose outcome it waits for.
#[derive(Debug, Clone, Copy, PartialEq, Eq, Structural)]
pub enum Stage {
    /// The first search for files.
    Locating,
    Printing,
    SettingBinExec,
    /// The fetch of a missing C library or loader from an image.
    Fetching,
    /// The search for what the fetch brought.
    LocatingFetched,
    VisitingLibc,
    /// The search for what came with the C library.
    LocatingLoader,
    SettingLdExec,
    Patching,
    WritingStub,
    Finished,
}

impl OptsView {
    /// Whether the C library or the loader is missing and an image is named
    /// to take it from.
    pub open spec fn fetches(self) -> bool {
        (self.libc is None || self.ld is None) && (self.docker_tag is Some || self.dockerfile
            is Some)
    }

    /// The stage that follows once the binary is executable.
    pub open spec fn after_bin_exec(self) -> Stage {
        if self.fetches() {
            Stage::Fetching
        } else {
            Stage::LocatingFetched
        }
    }

    /// The stage that follows once the loader is executable.
    pub open spec fn after_ld_exec(self) -> Stage {
        if !self.no_patch_bin {
            Stage::Patching
        } else {
            self.after_patch()
        }
    }

    /// The stage that follows the patching of the binary.
    pub open spec fn after_patch(self) -> Stage {
        if !self.no_template {
            Stage::WritingStub
        } else {
            Stage::Finished
        }
    }
}

/// A preparation under way.
#[derive(Debug, Clone, PartialEq, Eq)]
pub struct Pipeline {
    stage: Stage,
    opts: Opts,
    error: Option<Error>,
}

/// A `Pipeline` as plain values.
pub struct PipelineView {
    pub stage: Stage,
    /// What the last search for files found.
    pub opts: OptsView,
    /// Why the preparation failed, where it did.
    pub error: Option<ErrorView>,
}

impl PipelineView {
    /// A preparation of which nothing was done yet.
    pub open spec fn start(opts: OptsView) -> Self {
        PipelineView { stage: Stage::Locating, opts, error: None }
    }

    /// The step to take next. `None` once the preparation is finished. An
    /// image that was named by its tag goes before one that a Dockerfile
    /// names.
    pub open spec fn task(self) -> Option<TaskView> {
        match self.stage {
            Stage::Locating | Stage::LocatingFetched | Stage::LocatingLoader => Some(
                TaskView::FindFiles,
            ),
            Stage::Printing => Some(TaskView::PrintFiles),
            Stage::SettingBinExec => Some(TaskView::SetBinExec),
            Stage::Fetching => match self.opts.docker_tag {
                Some(tag) => Some(TaskView::DownloadRuntime { tag }),
                None => match self.opts.dockerfile {
                    Some(dockerfile) => Some(TaskView::VisitDockerfile { dockerfile }),
                    None => None,
                },
            },
            Stage::VisitingLibc => Some(TaskView::VisitLibc),
            Stage::SettingLdExec => Some(TaskView::SetLdExec),
            Stage::Patching => Some(TaskView::PatchBin),
            Stage::WritingStub => Some(TaskView::WriteStub),
            Stage::Finished => None,
        }
    }

    /// The preparation, finished with `error`.
    pub open spec fn fail(self, error: ErrorView) -> Self {
        PipelineView { stage: Stage::Finished, error: Some(error), ..self }
    }

    /// The preparation at `stage`.
    pub open spec fn at(self, stage: Stage) -> Self {
        PipelineView { stage, ..self }
    }

    /// The preparation after the outcome of the step that it asked for was
    /// taken in. A step that fails ends the preparation; telling the operator
    /// of the files and fetching what goes with the C library cannot fail. An
    /// outcome of another kind than the step's changes nothing.
    pub open spec fn record(self, outcome: TaskOutcomeView) -> Self {
        match (self.stage, outcome) {
            (Stage::Locating, TaskOutcomeView::Found { files: Ok(opts) }) => PipelineView {
                stage: Stage::Printing,
                opts,
                ..self
            },
            (Stage::LocatingFetched, TaskOutcomeView::Found { files: Ok(opts) }) => PipelineView {
                stage: Stage::VisitingLibc,
                opts,
                ..self
            },
            (Stage::LocatingLoader, TaskOutcomeView::Found { files: Ok(opts) }) => PipelineView {
                stage: Stage::SettingLdExec,
                opts,
                ..self
            },
            (
                Stage::Locating | Stage::LocatingFetched | Stage::LocatingLoader,
                TaskOutcomeView::Found { files: Err(source) },
            ) => self.fail(ErrorView::Find { source }),
            (Stage::Printing, TaskOutcomeView::Done { status }) => self.at(Stage::SettingBinExec),
            (Stage::SettingBinExec, TaskOutcomeView::Done { status: Ok(()) }) => self.at(
                self.opts.after_bin_exec(),
            ),
            (Stage::SettingBinExec, TaskOutcomeView::Done { status: Err(source) }) => self.fail(
                ErrorView::SetBinExec { source },
            ),
            (Stage::Fetching, TaskOutcomeView::Fetched { status: Ok(()) }) => self.at(
                Stage::LocatingFetched,
            ),
            (Stage::Fetching, TaskOutcomeView::Fetched { status: Err(source) }) => self.fail(
                ErrorView::Dockerfile { source },
            ),
            (Stage::VisitingLibc, TaskOutcomeView::Done { status }) => self.at(
                Stage::LocatingLoader,
            ),
            (Stage::SettingLdExec, TaskOutcomeView::Done { status: Ok(()) }) => self.at(
                self.opts.after_ld_exec(),
            ),
            (Stage::SettingLdExec, TaskOutcomeView::Done { status: Err(source) }) => self.fail(
                ErrorView::SetLdExec { source },
            ),
            (Stage::Patching, TaskOutcomeView::Done { status: Ok(()) }) => self.at(
                self.opts.after_patch(),
            ),
            (Stage::Patching, TaskOutcomeView::Done { status: Err(source) }) => self.fail(
                ErrorView::PatchBin { source },
            ),
            (Stage::WritingStub, TaskOutcomeView::Done { status: Ok(()) }) => self.at(
                Stage::Finished,
            ),
            (Stage::WritingStub, TaskOutcomeView::Done { status: Err(source) }) => self.fail(
                ErrorView::Solvepy { source },
            ),
            _ => self,
        }
    }

    /// How the preparation ended. `None` while it is under way.
    pub open spec fn result(self) -> Option<Result<(), ErrorView>> {
        if self.stage == Stage::Finished {
            match self.error {
                Some(error) => Some(Err(error)),
                None => Some(Ok(())),
            }
        } else {
            None
        }
    }
}

impl View for Pipeline {
    type V = PipelineView;

    closed spec fn view(&self) -> PipelineView {
        PipelineView {
            stage: self.stage,
            opts: self.opts@,
            error: match self.error {
                Some(error) => Some(error@),
                None => None,
            },
        }
    }
}

impl Opts {
    /// Tells whether the C library or the loader is missing and an image is
    /// named to take it from.
    pub fn fetches(&self) -> (b: bool)
        ensures
            b == self@.fetches(),
    {
        (self.libc.is_none() || self.ld.is_none()) && (self.docker_tag.is_some()
            || self.dockerfile.is_some())
    }
}

impl Pipeline {
    /// The step to take next. `None` once the preparation is finished.
    pub fn task(&self) -> (next: Option<Task>)
        ensures
            next.deep_view() == self@.task(),
    {
        match self.stage {
            Stage::Locating => Some(Task::FindFiles),
            Stage::LocatingFetched => Some(Task::FindFiles),
            Stage::LocatingLoader => Some(Task::FindFiles),
            Stage::Printing => Some(Task::PrintFiles),
            Stage::SettingBinExec => Some(Task::SetBinExec),
            Stage::Fetching => match &self.opts.docker_tag {
                Some(tag) => Some(Task::DownloadRuntime { tag: tag.clone() }),
                None => match &self.opts.dockerfile {
                    Some(dockerfile) => Some(
                        Task::VisitDockerfile { dockerfile: dockerfile.clone() },
                    ),
                    None => None,
                },
            },
            Stage::VisitingLibc => Some(Task::VisitLibc),
            Stage::SettingLdExec => Some(Task::SetLdExec),
            Stage::Patching => Some(Task::PatchBin),
            Stage::WritingStub => Some(Task::WriteStub),
            Stage::Finished => None,
        }
    }

    /// Ends the preparation with `error`.
    fn fail(&mut self, error: Error)
        ensures
            final(self)@ == old(self)@.fail(error@),
    {
        self.error = Some(error);
        self.stage = Stage::Finished;
    }

    /// The stage that follows once the loader is executable.
    fn after_ld_exec(&self) -> (stage: Stage)
        ensures
            stage == self@.opts.after_ld_exec(),
    {
        if !self.opts.no_patch_bin {
            Stage::Patching
        } else {
            self.after_patch()
        }
    }

    /// The stage that follows the patching of the binary.
    fn after_patch(&self) -> (stage: Stage)
        ensures
            stage == self@.opts.after_patch(),
    {
        if !self.opts.no_template {
            Stage::WritingStub
        } else {
            Stage::Finished
        }
    }

    /// Takes in the outcome of the step that `task` asked for.
    pub fn record(&mut self, outcome: TaskOutcome)
        ensures
            final(self)@ == old(self)@.record(outcome@),
    {
        match outcome {
            TaskOutcome::Found { files } => match self.stage {
                Stage::Locating | Stage::LocatingFetched | Stage::LocatingLoader => match files {
                    Ok(opts) => {
                        self.stage =
                        match self.stage {
                            Stage::Locating => Stage::Printing,
                            Stage::LocatingFetched => Stage::VisitingLibc,
                            _ => Stage::SettingLdExec,
                        };
                        self.opts = opts;
                    },
                    Err(source) => {
                        self.fail(Error::Find { source });
                    },
                },
                _ => {},
            },
            TaskOutcome::Fetched { status } => match self.stage {
                Stage::Fetching => match status {
                    Ok(()) => {
                        self.stage = Stage::LocatingFetched;
                    },
                    Err(source) => {
                        self.fail(Error::Dockerfile { source });
                    },
                },
                _ => {},
            },
            TaskOutcome::Done { status } => match self.stage {
                Stage::Printing => {
                    self.stage = Stage::SettingBinExec;
                },
                Stage::VisitingLibc => {
                    self.stage = Stage::LocatingLoader;
                },
                Stage::SettingBinExec => match status {
                    Ok(()) => {
                        self.stage =
                        if self.opts.fetches() {
                            Stage::Fetching
                        } else {
                            Stage::LocatingFetched
                        };
                    },
                    Err(source) => {
                        self.fail(Error::SetBinExec { source });
                    },
                },
                Stage::SettingLdExec => match status {
                    Ok(()) => {
                        self.stage = self.after_ld_exec();
                    },
                    Err(source) => {
                        self.fail(Error::SetLdExec { source });
                    },
                },
                Stage::Patching => match status {
                    Ok(()) => {
                        self.stage = self.after_patch();
                    },
                    Err(source) => {
                        self.fail(Error::PatchBin { source });
                    },
                },
                Stage::WritingStub => match status {
                    Ok(()) => {
                        self.stage = Stage::Finished;
                    },
                    Err(source) => {
                        self.fail(Error::Solvepy { source });
                    },
                },
                _ => {},
            },
        }
    }

    /// What the last search for files found.
    pub fn opts(&self) -> (opts: &Opts)
        ensures
            opts@ == self@.opts,
    {
        &self.opts
    }

    /// How the preparation ended. `None` while it is under way.
    pub fn finish(self) -> (result: Option<Result<(), Error>>)
        ensures
            match self@.result() {
                None => result is None,
                Some(Ok(())) => result == Some(Ok::<(), Error>(())),
                Some(Err(error)) => result matches Some(Err(found)) && found@ == error,
            },
    {
        match self.stage {
            Stage::Finished => match self.error {
                Some(error) => Some(Err(error)),
                None => Some(Ok(())),
            },
            _ => None,
        }
    }
}

/// Begins the preparation of a challenge directory of which `opts` is known.
pub fn run(opts: Opts) -> (pipeline: Pipeline)
    ensures
        pipeline@ == PipelineView::start(opts@),
{
    Pipeline { stage: Stage::Locating, opts, error: None }
}

impl PipelineView {
    /// The preparation after `outcomes` were handed back in order.
    pub open spec fn after(self, outcomes: Seq<TaskOutcomeView>) -> Self
        decreases outcomes.len(),
    {
        if outcomes.len() == 0 {
            self
        } else {
            self.record(outcomes[0]).after(outcomes.drop_first())
        }
    }

    /// What holds of a preparation at every point: it fetches only where
    /// something is missing and an image is named, and it has failed only
    /// where it is finished.
    pub open spec fn sound(self) -> bool {
        &&& self.stage == Stage::Fetching ==> self.opts.fetches()
        &&& self.error is Some ==> self.stage == Stage::Finished
    }
}

/// A preparation is sound at its start and whatever outcomes it takes in.
pub proof fn lemma_preparation_is_sound(opts: OptsView, outcomes: Seq<TaskOutcomeView>)
    ensures
        PipelineView::start(opts).after(outcomes).sound(),
{
    lemma_outcomes_keep_sound(PipelineView::start(opts), outcomes);
}

/// Taking in outcomes keeps a preparation sound.
proof fn lemma_outcomes_keep_sound(p: PipelineView, outcomes: Seq<TaskOutcomeView>)
    requires
        p.sound(),
    ensures
        p.after(outcomes).sound(),
    decreases outcomes.len(),
{
    if outcomes.len() > 0 {
        lemma_outcomes_keep_sound(p.record(outcomes[0]), outcomes.drop_first());
    }
}

/// A sound preparation has a step to take until it is finished, and has a
/// result from then on.
pub proof fn lemma_sound_preparation_asks_until_finished(p: PipelineView)
    requires
        p.sound(),
    ensures
        p.task() is None <==> p.stage == Stage::Finished,
        p.result() is Some <==> p.task() is None,
{
}

} // verus!
