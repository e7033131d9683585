//! Copying the C library and the dynamic loader out of a container: which
//! files to ask for, and what became of each.

use crate::container::{check_docker_stderr, run_failure, texts, CommandOutput, OutputView, Request, RequestView};
use crate::ldconfig::{ldconfig_paths, parse_ldconfig, LibraryPaths};
use vstd::prelude::*;
use vstd::string::StringExecFns;

verus! {

/// A file to copy out of the container.
#[derive(Debug, Clone, PartialEq, Eq)]
pub struct CopyJob {
    /// Where the file lies in the container.
    pub path: String,
    /// Whether the path is a guess, tried whatever the cache listing says. A
    /// guess that fails is not worth a word to the operator.
    pub fallback: bool,
}

/// A `CopyJob`, with its path as characters.
pub struct JobView {
    pub path: Seq<char>,
    pub fallback: bool,
}

impl View for CopyJob {
    type V = JobView;

    open spec fn view(&self) -> JobView {
        JobView { path: self.path@, fallback: self.fallback }
    }
}

/// What became of a file that was wanted.
#[derive(Debug, Clone, PartialEq, Eq)]
pub enum Outcome {
    /// It was copied into the working directory.
    Copied,
    /// The copy was tried and the container tool complained.
    Failed { diagnostic: String },
    /// The cache listing does not name it, so no copy was tried.
    NotFound,
}

/// An `Outcome`, with its text as characters.
pub enum OutcomeView {
    Copied,
    Failed { diagnostic: Seq<char> },
    NotFound,
}

impl View for Outcome {
    type V = OutcomeView;

    open spec fn view(&self) -> OutcomeView {
        match self {
            Outcome::Copied => OutcomeView::Copied,
            Outcome::Failed { diagnostic } => OutcomeView::Failed { diagnostic: diagnostic@ },
            Outcome::NotFound => OutcomeView::NotFound,
        }
    }
}

/// One line of the report: a file, and what became of it.
#[derive(Debug, Clone, PartialEq, Eq)]
pub struct Attempt {
    /// The path that was copied or tried; for a library that the cache
    /// listing does not name, its name.
    pub subject: String,
    /// Whether the path was a guess.
    pub fallback: bool,
    pub outcome: Outcome,
}

/// An `Attempt`, with its texts as characters.
pub struct AttemptView {
    pub subject: Seq<char>,
    pub fallback: bool,
    pub outcome: OutcomeView,
}

impl View for Attempt {
    type V = AttemptView;

    open spec fn view(&self) -> AttemptView {
        AttemptView { subject: self.subject@, fallback: self.fallback, outcome: self.outcome@ }
    }
}

/// The jobs that a list holds, as views.
pub open spec fn job_views(list: Seq<CopyJob>) -> Seq<JobView> {
    list.map_values(|job: CopyJob| job@)
}

/// The attempts that a list holds, as views.
pub open spec fn attempt_views(list: Seq<Attempt>) -> Seq<AttemptView> {
    list.map_values(|attempt: Attempt| attempt@)
}

/// The paths that a run of the listing command gives, by library name. A
/// run that failed gives none.
pub open spec fn listed_paths(listing: OutputView) -> Map<Seq<char>, Seq<char>> {
    if run_failure(listing) is None {
        ldconfig_paths(listing.stdout)
    } else {
        Map::empty()
    }
}

/// For each wanted name, in order, the path that `paths` has for it.
pub open spec fn resolve(paths: Map<Seq<char>, Seq<char>>, wanted: Seq<Seq<char>>) -> Seq<
    Option<Seq<char>>,
> {
    Seq::new(
        wanted.len(),
        |i: int|
            if paths.contains_key(wanted[i]) {
                Some(paths[wanted[i]])
            } else {
                None
            },
    )
}

/// A copy job for each path that was resolved, in order.
pub open spec fn known_jobs(resolved: Seq<Option<Seq<char>>>) -> Seq<JobView>
    decreases resolved.len(),
{
    if resolved.len() == 0 {
        seq![]
    } else {
        let before = known_jobs(resolved.drop_last());
        match resolved.last() {
            Some(path) => before.push(JobView { path, fallback: false }),
            None => before,
        }
    }
}

/// A line of the report for each of the first `n` wanted names that was not
/// resolved, in order.
pub open spec fn missing(wanted: Seq<Seq<char>>, resolved: Seq<Option<Seq<char>>>, n: int) -> Seq<
    AttemptView,
>
    decreases n,
{
    if n <= 0 {
        seq![]
    } else {
        let before = missing(wanted, resolved, n - 1);
        if resolved[n - 1] is None {
            before.push(
                AttemptView {
                    subject: wanted[n - 1],
                    fallback: false,
                    outcome: OutcomeView::NotFound,
                },
            )
        } else {
            before
        }
    }
}

/// The paths that are tried whatever the cache listing says: those of the
/// musl loader and C library, which no cache listing names.
pub open spec fn fallback_jobs() -> Seq<JobView> {
    seq![
        JobView { path: "/lib/ld-musl-x86_64.so.1"@, fallback: true },
        JobView { path: "/lib/libc.musl-x86_64.so.1"@, fallback: true },
    ]
}

/// The tool's complaint, where a copy failed: whatever it wrote to its
/// standard error stream. Its exit status does not count.
pub open spec fn copy_failure(output: OutputView) -> Option<Seq<char>> {
    if output.stderr.len() > 0 {
        Some(output.stderr)
    } else {
        None
    }
}

/// What became of `job`, given what the copy left behind.
pub open spec fn attempt_of(job: JobView, output: OutputView) -> AttemptView {
    AttemptView {
        subject: job.path,
        fallback: job.fallback,
        outcome: match copy_failure(output) {
            Some(diagnostic) => OutcomeView::Failed { diagnostic },
            None => OutcomeView::Copied,
        },
    }
}

impl AttemptView {
    /// The line that tells an operator of this attempt. There is none for a
    /// guess that failed.
    pub open spec fn message(self) -> Option<Seq<char>> {
        match self.outcome {
            OutcomeView::Copied => Some(
                "Extracted "@ + self.subject + " from the docker container."@,
            ),
            OutcomeView::Failed { diagnostic } => if self.fallback {
                None
            } else {
                Some("Docker run error: "@ + diagnostic)
            },
            OutcomeView::NotFound => Some(
                "Could not find "@ + self.subject + " in the docker container."@,
            ),
        }
    }
}

impl Attempt {
    /// The line that tells an operator of this attempt. There is none for a
    /// guess that failed.
    pub fn message(&self) -> (line: Option<String>)
        ensures
            line.deep_view() == self@.message(),
    {
        match &self.outcome {
            Outcome::Copied => {
                let mut line = "Extracted ".to_owned();
                line.append(self.subject.as_str());
                line.append(" from the docker container.");
                Some(line)
            },
            Outcome::Failed { diagnostic } => {
                if self.fallback {
                    None
                } else {
                    let mut line = "Docker run error: ".to_owned();
                    line.append(diagnostic.as_str());
                    Some(line)
                }
            },
            Outcome::NotFound => {
                let mut line = "Could not find ".to_owned();
                line.append(self.subject.as_str());
                line.append(" in the docker container.");
                Some(line)
            },
        }
    }
}

/// Resolves each wanted library to its path in the container, from what the
/// listing command left behind. A library that the listing does not name
/// resolves to nothing, and so does every library where the command failed.
pub fn docker_get_paths(listing: &CommandOutput, wanted: &Vec<String>) -> (resolved: Vec<
    Option<String>,
>)
    ensures
        resolved.deep_view() == resolve(listed_paths(listing@), texts(wanted@)),
{
    let paths = match check_docker_stderr(listing) {
        Ok(()) => parse_ldconfig(listing.stdout.as_str()),
        Err(_) => LibraryPaths::new(),
    };
    let mut resolved: Vec<Option<String>> = Vec::new();
    let mut i: usize = 0;
    while i < wanted.len()
        invariant
            i <= wanted.len(),
            paths.wf(),
            paths@ == listed_paths(listing@),
            resolved.len() == i,
            forall|k: int|
                0 <= k < i ==> #[trigger] resolved@[k].deep_view() == resolve(
                    paths@,
                    texts(wanted@),
                )[k],
        decreases wanted.len() - i,
    {
        let path = match paths.get(&wanted[i]) {
            Some(found) => Some(found.clone()),
            None => None,
        };
        resolved.push(path);
        i = i + 1;
    }
    assert(resolved.deep_view() =~= resolve(listed_paths(listing@), texts(wanted@)));
    resolved
}

/// Tells what became of `job`, from what the copy left behind.
pub fn docker_copy_file(job: &CopyJob, output: &CommandOutput) -> (attempt: Attempt)
    ensures
        attempt@ == attempt_of(job@, output@),
{
    let outcome = if output.stderr.as_str().is_empty() {
        Outcome::Copied
    } else {
        Outcome::Failed { diagnostic: output.stderr.clone() }
    };
    Attempt { subject: job.path.clone(), fallback: job.fallback, outcome }
}

/// An extraction under way: first the cache listing, then one copy after
/// the other.
#[derive(Debug, Clone, PartialEq, Eq)]
pub struct Extraction {
    image: String,
    container: String,
    wanted: Vec<String>,
    listed: bool,
    jobs: Vec<CopyJob>,
    cursor: usize,
    report: Vec<Attempt>,
}

/// An `Extraction` as plain values.
pub struct ExtractionView {
    /// The image whose cache is listed.
    pub image: Seq<char>,
    /// The container that the files are copied out of.
    pub container: Seq<char>,
    /// The names of the libraries to resolve.
    pub wanted: Seq<Seq<char>>,
    /// Whether the outcome of the listing command was taken in.
    pub listed: bool,
    /// The copies to make, in order; empty until the listing was taken in.
    pub jobs: Seq<JobView>,
    /// How many of the jobs had their outcome taken in.
    pub cursor: int,
    /// What became of each file so far.
    pub report: Seq<AttemptView>,
}

impl ExtractionView {
    /// An extraction of which nothing was done yet.
    pub open spec fn start(image: Seq<char>, container: Seq<char>, wanted: Seq<Seq<char>>) -> Self {
        ExtractionView {
            image,
            container,
            wanted,
            listed: false,
            jobs: seq![],
            cursor: 0,
            report: seq![],
        }
    }

    /// The call to make next. `None` once every job was done.
    pub open spec fn request(self) -> Option<RequestView> {
        if !self.listed {
            Some(RequestView::ListCache { image: self.image })
        } else if 0 <= self.cursor < self.jobs.len() {
            Some(
                RequestView::CopyOut { container: self.container, path: self.jobs[self.cursor].path },
            )
        } else {
            None
        }
    }

    /// The extraction after `output`, the outcome of the call that it asked
    /// for, was taken in. The listing decides the jobs: a copy of each path
    /// that was resolved, then the guesses. A copy adds a line to the report.
    pub open spec fn record(self, output: OutputView) -> Self {
        if !self.listed {
            let resolved = resolve(listed_paths(output), self.wanted);
            ExtractionView {
                listed: true,
                jobs: known_jobs(resolved) + fallback_jobs(),
                cursor: 0,
                report: missing(self.wanted, resolved, self.wanted.len() as int),
                ..self
            }
        } else if 0 <= self.cursor < self.jobs.len() {
            ExtractionView {
                cursor: self.cursor + 1,
                report: self.report.push(attempt_of(self.jobs[self.cursor], output)),
                ..self
            }
        } else {
            self
        }
    }
}

impl View for Extraction {
    type V = ExtractionView;

    closed spec fn view(&self) -> ExtractionView {
        ExtractionView {
            image: self.image@,
            container: self.container@,
            wanted: texts(self.wanted@),
            listed: self.listed,
            jobs: job_views(self.jobs@),
            cursor: self.cursor as int,
            report: attempt_views(self.report@),
        }
    }
}

impl Extraction {
    /// An extraction of the libraries `wanted` from `container`, a container
    /// of `image`, of which nothing was done yet.
    pub fn new(image: &str, container: &str, wanted: Vec<String>) -> (extraction: Self)
        ensures
            extraction@ == ExtractionView::start(image@, container@, texts(wanted@)),
    {
        let extraction = Extraction {
            image: image.to_owned(),
            container: container.to_owned(),
            wanted,
            listed: false,
            jobs: Vec::new(),
            cursor: 0,
            report: Vec::new(),
        };
        assert(job_views(extraction.jobs@) =~= seq![]);
        assert(attempt_views(extraction.report@) =~= seq![]);
        extraction
    }

    /// The call to make next. `None` once every job was done.
    pub fn request(&self) -> (next: Option<Request>)
        ensures
            next.deep_view() == self@.request(),
    {
        if !self.listed {
            Some(Request::ListCache { image: self.image.clone() })
        } else if self.cursor < self.jobs.len() {
            Some(
                Request::CopyOut {
                    container: self.container.clone(),
                    path: self.jobs[self.cursor].path.clone(),
                },
            )
        } else {
            None
        }
    }

    /// Tells whether every job was done, so that no call is left to make.
    pub fn finished(&self) -> (done: bool)
        ensures
            done == (self@.request() is None),
    {
        self.listed && self.cursor >= self.jobs.len()
    }

    /// The container that the files are copied out of.
    pub fn container(&self) -> (id: &String)
        ensures
            id@ == self@.container,
    {
        &self.container
    }

    /// Takes in `output`, the outcome of the call that `request` asked for.
    pub fn record(&mut self, output: &CommandOutput)
        ensures
            final(self)@ == old(self)@.record(output@),
    {
        if !self.listed {
            let resolved = docker_get_paths(output, &self.wanted);
            let ghost names = texts(self.wanted@);
            let ghost paths = resolved.deep_view();
            let mut jobs: Vec<CopyJob> = Vec::new();
            let mut report: Vec<Attempt> = Vec::new();
            let mut i: usize = 0;
            assert(paths.take(0) =~= seq![]);
            while i < resolved.len()
                invariant
                    i <= resolved.len(),
                    resolved.len() == self.wanted.len(),
                    names == texts(self.wanted@),
                    paths == resolved.deep_view(),
                    job_views(jobs@) == known_jobs(paths.take(i as int)),
                    attempt_views(report@) == missing(names, paths, i as int),
                decreases resolved.len() - i,
            {
                proof {
                    assert(paths.take(i as int + 1).drop_last() == paths.take(i as int));
                    assert(paths.take(i as int + 1).last() == paths[i as int]);
                }
                match &resolved[i] {
                    Some(path) => {
                        let job = CopyJob { path: path.clone(), fallback: false };
                        proof {
                            assert(job_views(jobs@.push(job)) == job_views(jobs@).push(job@));
                        }
                        jobs.push(job);
                    },
                    None => {
                        let attempt = Attempt {
                            subject: self.wanted[i].clone(),
                            fallback: false,
                            outcome: Outcome::NotFound,
                        };
                        proof {
                            assert(attempt_views(report@.push(attempt)) == attempt_views(
                                report@,
                            ).push(attempt@));
                        }
                        report.push(attempt);
                    },
                }
                i = i + 1;
            }
            assert(paths.take(resolved.len() as int) == paths);
            let first = CopyJob { path: "/lib/ld-musl-x86_64.so.1".to_owned(), fallback: true };
            let second = CopyJob { path: "/lib/libc.musl-x86_64.so.1".to_owned(), fallback: true };
            proof {
                assert(job_views(jobs@.push(first).push(second)) == job_views(jobs@)
                    + fallback_jobs());
            }
            jobs.push(first);
            jobs.push(second);
            self.jobs = jobs;
            self.report = report;
            self.cursor = 0;
            self.listed = true;
        } else if self.cursor < self.jobs.len() {
            let attempt = docker_copy_file(&self.jobs[self.cursor], output);
            proof {
                assert(attempt_views(self.report@.push(attempt)) == attempt_views(
                    self.report@,
                ).push(attempt@));
            }
            self.report.push(attempt);
            self.cursor = self.cursor + 1;
        }
    }

    /// What became of each file so far.
    pub fn report(&self) -> (lines: &Vec<Attempt>)
        ensures
            attempt_views(lines@) == self@.report,
    {
        &self.report
    }
}

/// The C library of glibc, as the cache listing names it.
pub const LIBC_NAME: &'static str = "libc.so.6";

/// The dynamic loader of glibc for x86-64, as the cache listing names it.
pub const LD_NAME: &'static str = "ld-linux-x86-64.so.2";

/// Begins the extraction of the C library and the dynamic loader from
/// `container_id`, a container of the image `tag`.
pub fn extract_docker_libc_ld(tag: &str, container_id: &str) -> (extraction: Extraction)
    ensures
        extraction@ == ExtractionView::start(tag@, container_id@, seq![LIBC_NAME@, LD_NAME@]),
{
    let mut wanted: Vec<String> = Vec::new();
    wanted.push(LIBC_NAME.to_owned());
    wanted.push(LD_NAME.to_owned());
    assert(texts(wanted@) =~= seq![LIBC_NAME@, LD_NAME@]);
    Extraction::new(tag, container_id, wanted)
}

} // verus!
