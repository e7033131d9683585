//! Whole runs of an extraction and of a download: the calls that are made
//! when each call's outcome is handed back, one after the other, and what
//! holds of them whatever the outcomes are.

use crate::container::{creation_failure, OutputView, RequestView};
use crate::download::{DownloadView, Phase};
use crate::extract::{
    attempt_of, fallback_jobs, known_jobs, listed_paths, missing, resolve, AttemptView,
    ExtractionView, JobView, OutcomeView, LD_NAME, LIBC_NAME,
};
use crate::text::trim;
use vstd::prelude::*;

verus! {

impl ExtractionView {
    /// The calls that are made when `outputs` are handed back in order, one
    /// for each call, until either runs out.
    pub open spec fn requests(self, outputs: Seq<OutputView>) -> Seq<RequestView>
        decreases outputs.len(),
    {
        if outputs.len() == 0 {
            seq![]
        } else {
            match self.request() {
                Some(request) => seq![request] + self.record(outputs[0]).requests(
                    outputs.drop_first(),
                ),
                None => seq![],
            }
        }
    }

    /// The extraction after `outputs` were handed back in order.
    pub open spec fn run(self, outputs: Seq<OutputView>) -> Self
        decreases outputs.len(),
    {
        if outputs.len() == 0 {
            self
        } else {
            self.record(outputs[0]).run(outputs.drop_first())
        }
    }

    /// Whether `outputs` are the outcomes of a whole run: each answers a
    /// call, and after the last no call is left to make.
    pub open spec fn completes(self, outputs: Seq<OutputView>) -> bool {
        self.requests(outputs).len() == outputs.len() && self.run(outputs).request() is None
    }
}

impl DownloadView {
    /// The calls that are made when `outputs` are handed back in order, one
    /// for each call, until either runs out.
    pub open spec fn requests(self, outputs: Seq<OutputView>) -> Seq<RequestView>
        decreases outputs.len(),
    {
        if outputs.len() == 0 {
            seq![]
        } else {
            match self.request() {
                Some(request) => seq![request] + self.record(outputs[0]).requests(
                    outputs.drop_first(),
                ),
                None => seq![],
            }
        }
    }

    /// The download after `outputs` were handed back in order.
    pub open spec fn run(self, outputs: Seq<OutputView>) -> Self
        decreases outputs.len(),
    {
        if outputs.len() == 0 {
            self
        } else {
            self.record(outputs[0]).run(outputs.drop_first())
        }
    }

    /// Whether `outputs` are the outcomes of a whole run: each answers a
    /// call, and after the last no call is left to make.
    pub open spec fn completes(self, outputs: Seq<OutputView>) -> bool {
        self.requests(outputs).len() == outputs.len() && self.run(outputs).request() is None
    }
}

/// The jobs that a listing decides: a copy of each wanted library that it
/// names, then the guesses.
pub open spec fn planned_jobs(listing: OutputView, wanted: Seq<Seq<char>>) -> Seq<JobView> {
    known_jobs(resolve(listed_paths(listing), wanted)) + fallback_jobs()
}

/// The report lines for the wanted libraries that a listing does not name.
pub open spec fn unresolved(listing: OutputView, wanted: Seq<Seq<char>>) -> Seq<AttemptView> {
    missing(wanted, resolve(listed_paths(listing), wanted), wanted.len() as int)
}

/// One copy out of `container` for each of `jobs`, in order.
pub open spec fn copy_requests(container: Seq<char>, jobs: Seq<JobView>) -> Seq<RequestView> {
    Seq::new(jobs.len(), |i: int| RequestView::CopyOut { container, path: jobs[i].path })
}

/// What became of each of `jobs`, where `outputs[i]` is what the copy for
/// `jobs[i]` left behind.
pub open spec fn copy_attempts(jobs: Seq<JobView>, outputs: Seq<OutputView>) -> Seq<AttemptView> {
    Seq::new(jobs.len(), |i: int| attempt_of(jobs[i], outputs[i]))
}

/// From the listing on, an extraction copies each job that is left, once and
/// in order, and adds what became of it to the report.
proof fn lemma_copies(e: ExtractionView, outputs: Seq<OutputView>)
    requires
        e.listed,
        0 <= e.cursor <= e.jobs.len(),
        e.completes(outputs),
    ensures
        outputs.len() == e.jobs.len() - e.cursor,
        e.requests(outputs) == copy_requests(e.container, e.jobs.skip(e.cursor)),
        e.run(outputs) == (ExtractionView {
            cursor: e.jobs.len() as int,
            report: e.report + copy_attempts(e.jobs.skip(e.cursor), outputs),
            ..e
        }),
    decreases e.jobs.len() - e.cursor,
{
    let left = e.jobs.skip(e.cursor);
    if e.cursor == e.jobs.len() {
        assert(e.request() is None);
        assert(e.requests(outputs) =~= copy_requests(e.container, left));
        assert(e.report + copy_attempts(left, outputs) =~= e.report);
    } else {
        assert(e.request() is Some);
        let next = e.record(outputs[0]);
        let rest = outputs.drop_first();
        lemma_copies(next, rest);
        let later = e.jobs.skip(e.cursor + 1);
        assert(e.requests(outputs) =~= copy_requests(e.container, left)) by {
            assert forall|i: int| 0 <= i < later.len() implies copy_requests(e.container, later)[i]
                == copy_requests(e.container, left)[i + 1] by {
                assert(later[i] == left[i + 1]);
            }
        }
        assert(next.report + copy_attempts(later, rest) =~= e.report + copy_attempts(
            left,
            outputs,
        )) by {
            assert forall|i: int| 0 <= i < later.len() implies copy_attempts(later, rest)[i]
                == copy_attempts(left, outputs)[i + 1] by {
                assert(later[i] == left[i + 1]);
                assert(rest[i] == outputs[i + 1]);
            }
        }
    }
}

/// An extraction lists the cache, then copies each file that the listing
/// resolved and each guess, once and in this order, whatever becomes of any
/// copy. Its report names what was not resolved, then what became of each
/// copy.
pub proof fn lemma_extraction_run(
    image: Seq<char>,
    container: Seq<char>,
    wanted: Seq<Seq<char>>,
    outputs: Seq<OutputView>,
)
    requires
        ExtractionView::start(image, container, wanted).completes(outputs),
    ensures
        outputs.len() == 1 + planned_jobs(outputs[0], wanted).len(),
        ExtractionView::start(image, container, wanted).requests(outputs) == seq![
            RequestView::ListCache { image },
        ] + copy_requests(container, planned_jobs(outputs[0], wanted)),
        ExtractionView::start(image, container, wanted).run(outputs).report == unresolved(
            outputs[0],
            wanted,
        ) + copy_attempts(planned_jobs(outputs[0], wanted), outputs.drop_first()),
{
    let start = ExtractionView::start(image, container, wanted);
    assert(start.request() is Some);
    let listed = start.record(outputs[0]);
    lemma_copies(listed, outputs.drop_first());
    assert(listed.jobs.skip(0) == listed.jobs);
}

/// A download whose container is there copies each job that is left, once
/// and in order, then removes the container, and is finished.
proof fn lemma_download_copies(d: DownloadView, outputs: Seq<OutputView>)
    requires
        d.phase == Phase::Extracting,
        d.extraction is Some,
        d.extraction->0.listed,
        0 <= d.extraction->0.cursor < d.extraction->0.jobs.len(),
        d.completes(outputs),
    ensures
        outputs.len() == d.extraction->0.jobs.len() - d.extraction->0.cursor + 1,
        d.requests(outputs) == copy_requests(
            d.extraction->0.container,
            d.extraction->0.jobs.skip(d.extraction->0.cursor),
        ) + seq![RequestView::Remove { container: d.extraction->0.container }],
        d.run(outputs) == (DownloadView {
            phase: Phase::Finished,
            extraction: Some(
                ExtractionView {
                    cursor: d.extraction->0.jobs.len() as int,
                    report: d.extraction->0.report + copy_attempts(
                        d.extraction->0.jobs.skip(d.extraction->0.cursor),
                        outputs,
                    ),
                    ..d.extraction->0
                },
            ),
            ..d
        }),
    decreases d.extraction->0.jobs.len() - d.extraction->0.cursor,
{
    let e = d.extraction->0;
    let left = e.jobs.skip(e.cursor);
    let removal = seq![RequestView::Remove { container: e.container }];
    assert(d.request() is Some);
    let next = d.record(outputs[0]);
    let rest = outputs.drop_first();
    let later = e.jobs.skip(e.cursor + 1);
    assert(next.completes(rest));
    if e.cursor + 1 == e.jobs.len() {
        assert(next.phase == Phase::Removing);
        assert(next.request() is Some);
        let last = next.record(rest[0]);
        assert(last.request() is None);
        assert(last.requests(rest.drop_first()) =~= seq![]);
        assert(next.requests(rest) =~= removal);
        assert(rest.drop_first().len() == 0);
        assert(d.requests(outputs) =~= copy_requests(e.container, left) + removal);
        assert(next.extraction->0.report =~= e.report + copy_attempts(left, outputs));
        assert(last.run(rest.drop_first()) == last);
        assert(next.run(rest) == last);
        assert(d.run(outputs) == last);
    } else {
        lemma_download_copies(next, rest);
        assert(d.requests(outputs) =~= copy_requests(e.container, left) + removal) by {
            assert forall|i: int| 0 <= i < later.len() implies copy_requests(e.container, later)[i]
                == copy_requests(e.container, left)[i + 1] by {
                assert(later[i] == left[i + 1]);
            }
        }
        assert(next.extraction->0.report + copy_attempts(later, rest) =~= e.report
            + copy_attempts(left, outputs)) by {
            assert forall|i: int| 0 <= i < later.len() implies copy_attempts(later, rest)[i]
                == copy_attempts(left, outputs)[i + 1] by {
                assert(later[i] == left[i + 1]);
                assert(rest[i] == outputs[i + 1]);
            }
        }
        assert(d.run(outputs) == next.run(rest));
    }
}

/// The two libraries that a download resolves.
pub open spec fn canonical_names() -> Seq<Seq<char>> {
    seq![LIBC_NAME@, LD_NAME@]
}

/// The calls of a download whose container was created as `container`, and
/// whose listing decided `jobs`.
pub open spec fn download_requests(image: Seq<char>, container: Seq<char>, jobs: Seq<JobView>) -> Seq<
    RequestView,
> {
    seq![RequestView::Create { image }, RequestView::ListCache { image }] + copy_requests(
        container,
        jobs,
    ) + seq![RequestView::Remove { container }]
}

/// A whole download, call by call.
///
/// Where the container cannot be created, the creation is the only call and
/// the download fails with the tool's complaint. Else the cache is listed,
/// each file that the listing resolved and each guess is copied, once and in
/// this order, the container is removed, and the download ends well, whatever
/// became of the listing, of any copy and of the removal.
pub proof fn lemma_download_run(image: Seq<char>, outputs: Seq<OutputView>)
    requires
        DownloadView::start(image).completes(outputs),
    ensures
        outputs.len() >= 1,
        match creation_failure(outputs[0]) {
            Some(complaint) => {
                &&& outputs.len() == 1
                &&& DownloadView::start(image).requests(outputs) == seq![
                    RequestView::Create { image },
                ]
                &&& DownloadView::start(image).run(outputs).result() == Some(
                    Err::<(), Seq<char>>(complaint),
                )
                &&& DownloadView::start(image).run(outputs).extraction is None
            },
            None => {
                &&& outputs.len() == planned_jobs(outputs[1], canonical_names()).len() + 3
                &&& DownloadView::start(image).requests(outputs) == download_requests(
                    image,
                    trim(outputs[0].stdout),
                    planned_jobs(outputs[1], canonical_names()),
                )
                &&& DownloadView::start(image).run(outputs).result() == Some(
                    Ok::<(), Seq<char>>(()),
                )
                &&& DownloadView::start(image).run(outputs).extraction is Some
                &&& DownloadView::start(image).run(outputs).extraction->0.report == unresolved(
                    outputs[1],
                    canonical_names(),
                ) + copy_attempts(planned_jobs(outputs[1], canonical_names()), outputs.skip(2))
            },
        },
{
    let start = DownloadView::start(image);
    assert(start.request() is Some);
    let created = start.record(outputs[0]);
    let after_create = outputs.drop_first();
    assert(created.completes(after_create));
    match creation_failure(outputs[0]) {
        Some(complaint) => {
            assert(created.request() is None);
            assert(created.requests(after_create) =~= seq![]);
            assert(start.requests(outputs) =~= seq![RequestView::Create { image }]);
        },
        None => {
            let container = trim(outputs[0].stdout);
            let jobs = planned_jobs(outputs[1], canonical_names());
            assert(created.request() is Some);
            let listed = created.record(after_create[0]);
            let after_list = after_create.drop_first();
            assert(after_list =~= outputs.skip(2));
            assert(listed.extraction->0.jobs == jobs);
            assert(jobs.len() >= 2);
            assert(listed.completes(after_list));
            lemma_download_copies(listed, after_list);
            assert(jobs.skip(0) == jobs);
            assert(start.requests(outputs) =~= download_requests(image, container, jobs));
        },
    }
}

/// Where the container was created, it is removed exactly once: the removal
/// is the last call of the download and no call before it is one, whatever
/// became of the listing and of the copies.
pub proof fn lemma_created_container_is_removed_once(image: Seq<char>, outputs: Seq<OutputView>)
    requires
        DownloadView::start(image).completes(outputs),
        creation_failure(outputs[0]) is None,
    ensures
        DownloadView::start(image).requests(outputs).len() >= 1,
        DownloadView::start(image).requests(outputs).last() == (RequestView::Remove {
            container: trim(outputs[0].stdout),
        }),
        forall|i: int|
            0 <= i < DownloadView::start(image).requests(outputs).len() - 1 ==> !(
            #[trigger] DownloadView::start(image).requests(outputs)[i] is Remove),
{
    lemma_download_run(image, outputs);
}

/// Where the container cannot be created, nothing is removed and nothing is
/// copied: the failed creation is the only call, and the download fails with
/// the tool's complaint.
pub proof fn lemma_failed_creation_makes_no_further_call(image: Seq<char>, outputs: Seq<OutputView>)
    requires
        DownloadView::start(image).completes(outputs),
        creation_failure(outputs[0]) is Some,
    ensures
        DownloadView::start(image).requests(outputs) == seq![RequestView::Create { image }],
        forall|i: int|
            0 <= i < DownloadView::start(image).requests(outputs).len() ==> !(
            #[trigger] DownloadView::start(image).requests(outputs)[i] is Remove) && !(
            DownloadView::start(image).requests(outputs)[i] is CopyOut),
        DownloadView::start(image).run(outputs).result() == Some(
            Err::<(), Seq<char>>(creation_failure(outputs[0])->0),
        ),
{
    lemma_download_run(image, outputs);
}

/// The report line for a wanted library that the listing does not name.
pub open spec fn not_found(name: Seq<char>) -> AttemptView {
    AttemptView { subject: name, fallback: false, outcome: OutcomeView::NotFound }
}

/// Whether `path` is what the listing gives for one of the wanted libraries.
pub open spec fn stems_from_listing(path: Seq<char>, listing: OutputView, wanted: Seq<Seq<char>>) -> bool {
    exists|w: int|
        0 <= w < wanted.len() && listed_paths(listing).contains_key(#[trigger] wanted[w]) && path
            == listed_paths(listing)[wanted[w]]
}

/// Whether `path` is one of the guesses.
pub open spec fn is_guess(path: Seq<char>) -> bool {
    exists|g: int| 0 <= g < fallback_jobs().len() && path == #[trigger] fallback_jobs()[g].path
}

/// Each of the first `n` names that was not resolved has its line among the
/// missing.
proof fn lemma_missing_has(
    wanted: Seq<Seq<char>>,
    resolved: Seq<Option<Seq<char>>>,
    n: int,
    k: int,
)
    requires
        0 <= k < n,
        resolved[k] is None,
    ensures
        missing(wanted, resolved, n).contains(not_found(wanted[k])),
    decreases n,
{
    let before = missing(wanted, resolved, n - 1);
    if k < n - 1 {
        lemma_missing_has(wanted, resolved, n - 1, k);
        let at = choose|i: int| 0 <= i < before.len() && before[i] == not_found(wanted[k]);
        assert(missing(wanted, resolved, n)[at] == not_found(wanted[k]));
    } else {
        assert(missing(wanted, resolved, n) == before.push(not_found(wanted[k])));
        assert(missing(wanted, resolved, n)[before.len() as int] == not_found(wanted[k]));
    }
}

/// Each known job copies a path that was resolved, and is no guess.
proof fn lemma_known_job_was_resolved(resolved: Seq<Option<Seq<char>>>, j: int) -> (k: int)
    requires
        0 <= j < known_jobs(resolved).len(),
    ensures
        0 <= k < resolved.len(),
        resolved[k] == Some(known_jobs(resolved)[j].path),
        !known_jobs(resolved)[j].fallback,
    decreases resolved.len(),
{
    let before = known_jobs(resolved.drop_last());
    if j < before.len() {
        lemma_known_job_was_resolved(resolved.drop_last(), j)
    } else {
        resolved.len() - 1
    }
}

/// A wanted library that the cache listing does not name is reported as not
/// found and no copy is made for it: every copy of the extraction is for
/// what the listing gives for a wanted library, or for a guess. Each guess
/// is copied all the same.
pub proof fn lemma_absent_library_is_reported_not_copied(
    image: Seq<char>,
    container: Seq<char>,
    wanted: Seq<Seq<char>>,
    outputs: Seq<OutputView>,
    k: int,
)
    requires
        ExtractionView::start(image, container, wanted).completes(outputs),
        0 <= k < wanted.len(),
        !listed_paths(outputs[0]).contains_key(wanted[k]),
    ensures
        ExtractionView::start(image, container, wanted).run(outputs).report.contains(
            not_found(wanted[k]),
        ),
        forall|i: int|
            1 <= i < ExtractionView::start(image, container, wanted).requests(outputs).len() ==> {
                &&& #[trigger] ExtractionView::start(image, container, wanted).requests(
                    outputs,
                )[i] matches RequestView::CopyOut { container: from, path }
                &&& from == container
                &&& (stems_from_listing(path, outputs[0], wanted) || is_guess(path))
            },
        forall|g: int|
            0 <= g < fallback_jobs().len() ==> ExtractionView::start(
                image,
                container,
                wanted,
            ).requests(outputs).contains(
                RequestView::CopyOut { container, path: #[trigger] fallback_jobs()[g].path },
            ),
{
    let start = ExtractionView::start(image, container, wanted);
    let requests = start.requests(outputs);
    let resolved = resolve(listed_paths(outputs[0]), wanted);
    let known = known_jobs(resolved);
    let jobs = planned_jobs(outputs[0], wanted);
    lemma_extraction_run(image, container, wanted, outputs);
    lemma_missing_has(wanted, resolved, wanted.len() as int, k);
    let lines = unresolved(outputs[0], wanted);
    let at = choose|i: int| 0 <= i < lines.len() && lines[i] == not_found(wanted[k]);
    assert(start.run(outputs).report[at] == not_found(wanted[k]));
    assert forall|i: int| 1 <= i < requests.len() implies {
        &&& #[trigger] requests[i] matches RequestView::CopyOut { container: from, path }
        &&& from == container
        &&& (stems_from_listing(path, outputs[0], wanted) || is_guess(path))
    } by {
        let job = jobs[i - 1];
        assert(requests[i] == RequestView::CopyOut { container, path: job.path });
        if i - 1 < known.len() {
            let w = lemma_known_job_was_resolved(resolved, i - 1);
            assert(listed_paths(outputs[0]).contains_key(wanted[w]));
            assert(stems_from_listing(job.path, outputs[0], wanted));
        } else {
            let g = i - 1 - known.len();
            assert(job == fallback_jobs()[g]);
            assert(is_guess(job.path));
        }
    }
    assert forall|g: int| 0 <= g < fallback_jobs().len() implies requests.contains(
        RequestView::CopyOut { container, path: #[trigger] fallback_jobs()[g].path },
    ) by {
        let i = 1 + known.len() + g;
        assert(jobs[i - 1] == fallback_jobs()[g]);
        assert(requests[i] == RequestView::CopyOut { container, path: fallback_jobs()[g].path });
    }
}

impl DownloadView {
    /// What holds of a download at every point of a run: while files are
    /// copied there is a call to make, the container is removed only once
    /// none is left, and a download has failed exactly if it ended without
    /// any extraction.
    pub open spec fn sound(self) -> bool {
        match self.phase {
            Phase::Creating => self.extraction is None && self.failure is None,
            Phase::Extracting => self.extraction is Some && self.extraction->0.request() is Some
                && self.failure is None,
            Phase::Removing => self.extraction is Some && self.extraction->0.request() is None
                && self.failure is None,
            Phase::Finished => (self.failure is Some) != (self.extraction is Some),
        }
    }
}

/// Taking in an outcome keeps a download sound.
pub proof fn lemma_record_keeps_sound(d: DownloadView, output: OutputView)
    requires
        d.sound(),
    ensures
        d.record(output).sound(),
{
}

/// A download is sound at its start and at every point of a run.
pub proof fn lemma_download_is_sound(image: Seq<char>, outputs: Seq<OutputView>)
    ensures
        DownloadView::start(image).run(outputs).sound(),
{
    lemma_run_keeps_sound(DownloadView::start(image), outputs);
}

/// A run keeps a download sound.
proof fn lemma_run_keeps_sound(d: DownloadView, outputs: Seq<OutputView>)
    requires
        d.sound(),
    ensures
        d.run(outputs).sound(),
    decreases outputs.len(),
{
    if outputs.len() > 0 {
        lemma_run_keeps_sound(d.record(outputs[0]), outputs.drop_first());
    }
}

/// A sound download has a call to make until it is finished, and has a
/// result from then on.
pub proof fn lemma_sound_download_asks_until_finished(d: DownloadView)
    requires
        d.sound(),
    ensures
        d.request() is None <==> d.phase == Phase::Finished,
        d.result() is Some <==> d.request() is None,
{
}

/// There are no more known jobs than names were resolved.
proof fn lemma_known_jobs_are_few(resolved: Seq<Option<Seq<char>>>)
    ensures
        known_jobs(resolved).len() <= resolved.len(),
    decreases resolved.len(),
{
    if resolved.len() > 0 {
        lemma_known_jobs_are_few(resolved.drop_last());
    }
}

/// A download whose container is there is over after one outcome for each
/// job that is left and one for the removal.
proof fn lemma_copies_end(d: DownloadView, outputs: Seq<OutputView>)
    requires
        d.phase == Phase::Extracting,
        d.extraction is Some,
        d.extraction->0.listed,
        0 <= d.extraction->0.cursor < d.extraction->0.jobs.len(),
        outputs.len() == d.extraction->0.jobs.len() - d.extraction->0.cursor + 1,
    ensures
        d.completes(outputs),
    decreases outputs.len(),
{
    let e = d.extraction->0;
    let next = d.record(outputs[0]);
    let rest = outputs.drop_first();
    assert(d.request() is Some);
    if e.cursor + 1 == e.jobs.len() {
        let last = next.record(rest[0]);
        assert(next.request() is Some);
        assert(last.request() is None);
        assert(rest.drop_first().len() == 0);
        assert(last.requests(rest.drop_first()).len() == 0);
        assert(next.requests(rest).len() == 1);
        assert(last.run(rest.drop_first()) == last);
        assert(next.run(rest) == last);
    } else {
        lemma_copies_end(next, rest);
    }
    assert(d.requests(outputs).len() == 1 + next.requests(rest).len());
    assert(d.run(outputs) == next.run(rest));
}

/// Every download ends: of the outcomes that are handed back, the first few
/// make a whole run, seven at most.
pub proof fn lemma_download_ends(image: Seq<char>, outputs: Seq<OutputView>) -> (n: int)
    requires
        outputs.len() >= 7,
    ensures
        1 <= n <= 7,
        DownloadView::start(image).completes(outputs.take(n)),
{
    let start = DownloadView::start(image);
    assert(start.request() is Some);
    let created = start.record(outputs[0]);
    if creation_failure(outputs[0]) is Some {
        let taken = outputs.take(1);
        assert(taken[0] == outputs[0]);
        assert(created.request() is None);
        assert(taken.drop_first().len() == 0);
        assert(created.requests(taken.drop_first()).len() == 0);
        assert(created.run(taken.drop_first()) == created);
        1
    } else {
        let resolved = resolve(listed_paths(outputs[1]), canonical_names());
        lemma_known_jobs_are_few(resolved);
        let jobs = planned_jobs(outputs[1], canonical_names());
        let n: int = jobs.len() as int + 3;
        let taken = outputs.take(n);
        let after_create = taken.drop_first();
        let after_list = after_create.drop_first();
        assert(taken[0] == outputs[0]);
        assert(after_create[0] == outputs[1]);
        assert(created.request() is Some);
        let listed = created.record(after_create[0]);
        assert(listed.extraction->0.jobs == jobs);
        lemma_copies_end(listed, after_list);
        assert(created.requests(after_create).len() == 1 + listed.requests(after_list).len());
        assert(created.run(after_create) == listed.run(after_list));
        assert(start.requests(taken).len() == 1 + created.requests(after_create).len());
        assert(start.run(taken) == created.run(after_create));
        n
    }
}

} // verus!
