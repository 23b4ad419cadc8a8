//! The job registry: every job that was submitted, with the status it shows.
//! Jobs are added and updated, never removed. The registry is plain data;
//! whoever shares it among tasks guards it with one lock.

use vstd::prelude::*;
use crate::ids::{is_hyphenated_uuid, random_id};
use crate::paths::{converted_audio_name, joined};
use crate::pipeline::{
    failed_status, is_terminal, lemma_step, owned, queued_pipeline, run, step_spec,
    successful_events, texts, Action, ActionView, EventView, PipelineView, Stage, Step, StepView,
};

verus! {

/// One submitted unit of work, as clients see it.
#[derive(Debug, PartialEq, Eq)]
pub struct Job {
    pub id: String,
    pub url: String,
    pub status: String,
    pub result_path: Option<String>,
}

/// A job as plain values.
pub struct JobView {
    pub id: Seq<char>,
    pub url: Seq<char>,
    pub status: Seq<char>,
    pub result_path: Option<Seq<char>>,
}

/// The plain value of an optional string.
pub open spec fn option_text(s: Option<String>) -> Option<Seq<char>> {
    match s {
        Some(t) => Some(t@),
        None => None,
    }
}

impl View for Job {
    type V = JobView;

    open spec fn view(&self) -> JobView {
        JobView {
            id: self.id@,
            url: self.url@,
            status: self.status@,
            result_path: option_text(self.result_path),
        }
    }
}

impl Clone for Job {
    fn clone(&self) -> (copy: Job)
        ensures
            copy@ == self@,
    {
        let result_path = match &self.result_path {
            Some(p) => Some(p.clone()),
            None => None,
        };
        Job {
            id: self.id.clone(),
            url: self.url.clone(),
            status: self.status.clone(),
            result_path: result_path,
        }
    }
}

/// The plain values of a sequence of jobs.
pub open spec fn job_views(jobs: Seq<Job>) -> Seq<JobView> {
    jobs.map_values(|j: Job| j@)
}

/// Whether no two of the jobs share an id.
pub open spec fn ids_distinct(jobs: Seq<JobView>) -> bool {
    forall|i: int, j: int| 0 <= i < j < jobs.len() ==> jobs[i].id != jobs[j].id
}

/// Whether one of the jobs has this id.
pub open spec fn has_id(jobs: Seq<JobView>, id: Seq<char>) -> bool {
    exists|i: int| 0 <= i < jobs.len() && #[trigger] jobs[i].id == id
}

/// Whether one of the jobs has an id of the form that fresh ids have.
pub open spec fn has_fresh_form_id(jobs: Seq<JobView>) -> bool {
    exists|i: int| 0 <= i < jobs.len() && is_hyphenated_uuid(#[trigger] jobs[i].id)
}

/// A job as it is when it has just been submitted.
pub open spec fn queued_job(id: Seq<char>, url: Seq<char>) -> JobView {
    JobView { id: id, url: url, status: "queued"@, result_path: None }
}

/// The jobs with the status of the job `id` replaced.
pub open spec fn with_status(jobs: Seq<JobView>, id: Seq<char>, status: Seq<char>) -> Seq<
    JobView,
> {
    Seq::new(
        jobs.len(),
        |i: int|
            if jobs[i].id == id {
                JobView { status: status, ..jobs[i] }
            } else {
                jobs[i]
            },
    )
}

/// The jobs with the job `id` completed: its result at `path`.
pub open spec fn with_result(jobs: Seq<JobView>, id: Seq<char>, path: Seq<char>) -> Seq<JobView> {
    Seq::new(
        jobs.len(),
        |i: int|
            if jobs[i].id == id {
                JobView { status: "completed"@, result_path: Some(path), ..jobs[i] }
            } else {
                jobs[i]
            },
    )
}

/// The jobs after the job `id` has shown each of the statuses in turn.
pub open spec fn with_statuses(
    jobs: Seq<JobView>,
    id: Seq<char>,
    statuses: Seq<Seq<char>>,
) -> Seq<JobView>
    decreases statuses.len(),
{
    if statuses.len() == 0 {
        jobs
    } else {
        with_status(with_statuses(jobs, id, statuses.drop_last()), id, statuses.last())
    }
}

/// The jobs after one step of the pipeline of the job `id`: the statuses of
/// the step shown in turn, and the result recorded where the step ends the
/// job in success.
pub open spec fn after_step(jobs: Seq<JobView>, id: Seq<char>, step: StepView) -> Seq<JobView> {
    let shown = with_statuses(jobs, id, step.statuses);
    match step.action {
        ActionView::Finish { result_path, transcript } => with_result(shown, id, result_path),
        _ => shown,
    }
}

/// The collection of all jobs.
pub struct JobRegistry {
    jobs: Vec<Job>,
}

impl View for JobRegistry {
    type V = Seq<JobView>;

    closed spec fn view(&self) -> Seq<JobView> {
        job_views(self.jobs@)
    }
}

/// What a client gets back when it submits a source.
#[derive(Debug, PartialEq, Eq)]
pub struct Submission {
    pub job_id: String,
    pub status: String,
}

/// What the health check reports.
#[derive(Debug, PartialEq, Eq)]
pub struct Health {
    pub status: String,
    pub version: String,
    pub models_loaded: bool,
}

/// The report of the health check: always `ok`, the version of the
/// interface, and no model loaded.
pub fn health_check() -> (h: Health)
    ensures
        h.status@ == "ok"@,
        h.version@ == "1.0.0"@,
        !h.models_loaded,
{
    Health { status: owned("ok"), version: owned("1.0.0"), models_loaded: false }
}

impl JobRegistry {
    /// Whether the registry is in order: no two jobs share an id.
    pub open spec fn wf(&self) -> bool {
        ids_distinct(self@)
    }

    /// A registry without jobs.
    pub fn new() -> (r: JobRegistry)
        ensures
            r@ == Seq::<JobView>::empty(),
            r.wf(),
    {
        let r = JobRegistry { jobs: Vec::new() };
        assert(r@ =~= Seq::<JobView>::empty());
        r
    }

    /// The number of jobs.
    pub fn len(&self) -> (n: usize)
        ensures
            n == self@.len(),
    {
        self.jobs.len()
    }

    /// Whether a job has this id.
    pub fn contains(&self, id: &str) -> (b: bool)
        ensures
            b == has_id(self@, id@),
    {
        let key = owned(id);
        let mut i: usize = 0;
        while i < self.jobs.len()
            invariant
                i <= self.jobs.len(),
                key@ == id@,
                forall|k: int| 0 <= k < i ==> (#[trigger] self@[k]).id != id@,
            decreases self.jobs.len() - i,
        {
            if self.jobs[i].id == key {
                assert(self@[i as int].id == id@);
                return true;
            }
            i += 1;
        }
        false
    }

    /// Adds a queued job under the given id, unless a job has that id already.
    pub fn insert_queued(&mut self, id: String, url: String) -> (inserted: bool)
        ensures
            inserted == !has_id(old(self)@, id@),
            inserted ==> final(self)@ == old(self)@.push(queued_job(id@, url@)),
            !inserted ==> final(self)@ == old(self)@,
            old(self).wf() ==> final(self).wf(),
    {
        if self.contains(id.as_str()) {
            return false;
        }
        let job = Job { id: id, url: url, status: owned("queued"), result_path: None };
        self.jobs.push(job);
        assert(self@ =~= old(self)@.push(queued_job(id@, url@)));
        true
    }

    /// Creates a job for `url`: draws a fresh id, adds the job with status
    /// `queued`, and gives the id. `None`, with nothing added, in the case that
    /// the id drawn is already taken; that can only be where a job already has
    /// an id of the form that fresh ids have, so on a registry without such a
    /// job, an empty one among them, the job is always created.
    pub fn create(&mut self, url: String) -> (r: Option<String>)
        ensures
            match r {
                Some(id) => {
                    &&& !has_id(old(self)@, id@)
                    &&& is_hyphenated_uuid(id@)
                    &&& final(self)@ == old(self)@.push(queued_job(id@, url@))
                },
                None => {
                    &&& final(self)@ == old(self)@
                    &&& has_fresh_form_id(old(self)@)
                },
            },
            old(self).wf() ==> final(self).wf(),
    {
        let id = random_id();
        let given = id.clone();
        if self.insert_queued(id, url) {
            Some(given)
        } else {
            assert(has_fresh_form_id(old(self)@)) by {
                let i = choose|i: int| 0 <= i < old(self)@.len() && #[trigger] old(self)@[i].id == id@;
                assert(is_hyphenated_uuid(old(self)@[i].id));
            }
            None
        }
    }

    /// Takes a submission: creates the job and gives what the client is told,
    /// the id of the job and the status `queued`. `None`, with nothing added,
    /// exactly where `create` gives `None`: only where a job already has an id
    /// of the form that fresh ids have.
    pub fn submit(&mut self, url: String) -> (r: Option<Submission>)
        ensures
            match r {
                Some(s) => {
                    &&& s.status@ == "queued"@
                    &&& !has_id(old(self)@, s.job_id@)
                    &&& is_hyphenated_uuid(s.job_id@)
                    &&& final(self)@ == old(self)@.push(queued_job(s.job_id@, url@))
                },
                None => {
                    &&& final(self)@ == old(self)@
                    &&& has_fresh_form_id(old(self)@)
                },
            },
            old(self).wf() ==> final(self).wf(),
    {
        match self.create(url) {
            Some(id) => Some(Submission { job_id: id, status: owned("queued") }),
            None => None,
        }
    }

    /// A copy of all jobs as they are now, in the order of their submission.
    pub fn list(&self) -> (out: Vec<Job>)
        ensures
            job_views(out@) == self@,
    {
        let mut out: Vec<Job> = Vec::new();
        let mut i: usize = 0;
        while i < self.jobs.len()
            invariant
                i <= self.jobs.len(),
                job_views(out@) == self@.take(i as int),
            decreases self.jobs.len() - i,
        {
            let job = self.jobs[i].clone();
            let ghost before = out@;
            out.push(job);
            assert(job_views(out@) =~= job_views(before).push(job@));
            i += 1;
        }
        assert(self@.take(i as int) =~= self@);
        out
    }

    /// Replaces the status of the job `id`; does nothing where no job has that id.
    pub fn update_status(&mut self, id: &str, status: String)
        ensures
            final(self)@ == with_status(old(self)@, id@, status@),
            old(self).wf() ==> final(self).wf(),
    {
        let key = owned(id);
        let mut i: usize = 0;
        while i < self.jobs.len()
            invariant
                i <= self.jobs.len(),
                key@ == id@,
                self@.len() == old(self)@.len(),
                forall|k: int| 0 <= k < i ==> self@[k] == with_status(old(self)@, id@, status@)[k],
                forall|k: int| i <= k < self@.len() ==> self@[k] == old(self)@[k],
            decreases self.jobs.len() - i,
        {
            if self.jobs[i].id == key {
                let ghost before = self@;
                self.jobs[i].status = status.clone();
                assert(self@ =~= before.update(i as int, JobView { status: status@, ..before[i as int] }));
            }
            i += 1;
        }
        assert(self@ =~= with_status(old(self)@, id@, status@));
    }

    /// Records the result of the job `id` and shows it as completed; does
    /// nothing where no job has that id.
    pub fn set_result(&mut self, id: &str, path: String)
        ensures
            final(self)@ == with_result(old(self)@, id@, path@),
            old(self).wf() ==> final(self).wf(),
    {
        let key = owned(id);
        let mut i: usize = 0;
        while i < self.jobs.len()
            invariant
                i <= self.jobs.len(),
                key@ == id@,
                self@.len() == old(self)@.len(),
                forall|k: int| 0 <= k < i ==> self@[k] == with_result(old(self)@, id@, path@)[k],
                forall|k: int| i <= k < self@.len() ==> self@[k] == old(self)@[k],
            decreases self.jobs.len() - i,
        {
            if self.jobs[i].id == key {
                let ghost before = self@;
                self.jobs[i].status = owned("completed");
                self.jobs[i].result_path = Some(path.clone());
                assert(self@ =~= before.update(
                    i as int,
                    JobView {
                        status: "completed"@,
                        result_path: Some(path@),
                        ..before[i as int]
                    },
                ));
            }
            i += 1;
        }
        assert(self@ =~= with_result(old(self)@, id@, path@));
    }
    /// Applies one step of the pipeline of the job `id`: shows the statuses of
    /// the step in turn, and records the result where the step ends the job in
    /// success.
    pub fn apply_step(&mut self, id: &str, step: &Step)
        ensures
            final(self)@ == after_step(old(self)@, id@, step@),
            old(self).wf() ==> final(self).wf(),
    {
        let mut i: usize = 0;
        while i < step.statuses.len()
            invariant
                i <= step.statuses.len(),
                self@ == with_statuses(old(self)@, id@, texts(step.statuses@).take(i as int)),
                old(self).wf() ==> self.wf(),
            decreases step.statuses.len() - i,
        {
            self.update_status(id, step.statuses[i].clone());
            proof {
                let all = texts(step.statuses@);
                assert(all.take(i + 1).drop_last() =~= all.take(i as int));
                assert(all.take(i + 1).last() == step.statuses@[i as int]@);
            }
            i += 1;
        }
        assert(texts(step.statuses@).take(i as int) =~= texts(step.statuses@));
        match &step.action {
            Action::Finish { result_path, transcript } => {
                self.set_result(id, result_path.clone());
            },
            _ => {},
        }
    }
}

/// An update keeps every job in its place, with its id and its source: jobs
/// are never removed, and no two come to share an id.
pub proof fn law_updates_keep_jobs(
    jobs: Seq<JobView>,
    id: Seq<char>,
    status: Seq<char>,
    path: Seq<char>,
)
    ensures
        with_status(jobs, id, status).len() == jobs.len(),
        with_result(jobs, id, path).len() == jobs.len(),
        forall|i: int|
            0 <= i < jobs.len() ==> (#[trigger] with_status(jobs, id, status)[i]).id == jobs[i].id
                && with_status(jobs, id, status)[i].url == jobs[i].url && with_status(
                jobs,
                id,
                status,
            )[i].result_path == jobs[i].result_path,
        forall|i: int|
            0 <= i < jobs.len() ==> (#[trigger] with_result(jobs, id, path)[i]).id == jobs[i].id
                && with_result(jobs, id, path)[i].url == jobs[i].url,
        ids_distinct(jobs) ==> ids_distinct(with_status(jobs, id, status)) && ids_distinct(
            with_result(jobs, id, path),
        ),
{
}

/// A job that is added under an id which no job has yet is listed at once,
/// as queued and without a result; its id differs from that of every other
/// job, and the jobs before it stay as they were.
pub proof fn law_created_job_is_listed(jobs: Seq<JobView>, id: Seq<char>, url: Seq<char>)
    requires
        ids_distinct(jobs),
        !has_id(jobs, id),
    ensures
        ids_distinct(jobs.push(queued_job(id, url))),
        has_id(jobs.push(queued_job(id, url)), id),
        jobs.push(queued_job(id, url)).last().status == "queued"@,
        jobs.push(queued_job(id, url)).last().result_path is None,
        jobs.push(queued_job(id, url)).take(jobs.len() as int) == jobs,
{
    let after = jobs.push(queued_job(id, url));
    assert(after[jobs.len() as int].id == id);
    assert(after.take(jobs.len() as int) =~= jobs);
    assert forall|i: int, j: int| 0 <= i < j < after.len() implies after[i].id != after[j].id by {
        if j == jobs.len() {
            assert(jobs[i].id != id);
        }
    }
}

/// Showing statuses keeps every job in its place, with its id, its source
/// and its result.
pub proof fn lemma_statuses_keep_jobs(jobs: Seq<JobView>, id: Seq<char>, statuses: Seq<Seq<char>>)
    ensures
        with_statuses(jobs, id, statuses).len() == jobs.len(),
        forall|i: int|
            0 <= i < jobs.len() ==> {
                let after = #[trigger] with_statuses(jobs, id, statuses)[i];
                &&& after.id == jobs[i].id
                &&& after.url == jobs[i].url
                &&& after.result_path == jobs[i].result_path
                &&& jobs[i].id != id ==> after == jobs[i]
                &&& jobs[i].id == id && statuses.len() > 0 ==> after.status == statuses.last()
                &&& statuses.len() == 0 ==> after == jobs[i]
            },
    decreases statuses.len(),
{
    if statuses.len() > 0 {
        lemma_statuses_keep_jobs(jobs, id, statuses.drop_last());
    }
}

/// A step that ends a job in success leaves that job completed, with the
/// result of the step, and every other job as it was.
pub proof fn law_finished_job_is_completed(jobs: Seq<JobView>, id: Seq<char>, step: StepView)
    requires
        step.action is Finish,
    ensures
        after_step(jobs, id, step).len() == jobs.len(),
        forall|i: int|
            0 <= i < jobs.len() ==> {
                let after = #[trigger] after_step(jobs, id, step)[i];
                if jobs[i].id == id {
                    &&& after.id == id
                    &&& after.url == jobs[i].url
                    &&& after.status == "completed"@
                    &&& after.result_path == Some(step.action->Finish_result_path)
                } else {
                    after == jobs[i]
                }
            },
{
    lemma_statuses_keep_jobs(jobs, id, step.statuses);
}

/// A step that ends a job in failure leaves that job with the status
/// `failed: ` and the reason, its result as it was, and every other job as
/// it was.
pub proof fn law_failed_job_shows_reason(jobs: Seq<JobView>, id: Seq<char>, step: StepView)
    requires
        step.action is Fail,
        step.statuses == seq![failed_status(step.action->Fail_reason)],
    ensures
        after_step(jobs, id, step).len() == jobs.len(),
        forall|i: int|
            0 <= i < jobs.len() ==> {
                let after = #[trigger] after_step(jobs, id, step)[i];
                if jobs[i].id == id {
                    &&& after.id == id
                    &&& after.url == jobs[i].url
                    &&& after.status == failed_status(step.action->Fail_reason)
                    &&& after.result_path == jobs[i].result_path
                } else {
                    after == jobs[i]
                }
            },
{
    lemma_statuses_keep_jobs(jobs, id, step.statuses);
}

/// The jobs after every step that the pipeline of the job `id` takes over a
/// sequence of events has been applied in turn.
pub open spec fn jobs_after_run(
    jobs: Seq<JobView>,
    id: Seq<char>,
    p: PipelineView,
    events: Seq<EventView>,
) -> Seq<JobView>
    decreases events.len(),
{
    if events.len() == 0 {
        jobs
    } else {
        after_step(
            jobs_after_run(jobs, id, p, events.drop_last()),
            id,
            step_spec(run(p, events.drop_last()), events.last()).1,
        )
    }
}

/// The registry follows the pipeline: where the job `id` shows the status of
/// its pipeline and has no result, then after any sequence of events, each
/// step applied as it is taken, the job still shows the status of its
/// pipeline, and it has a result exactly when the pipeline has completed:
/// the converted audio file. Every other job stays as it was.
pub proof fn law_registry_follows_pipeline(
    jobs: Seq<JobView>,
    id: Seq<char>,
    p: PipelineView,
    events: Seq<EventView>,
)
    requires
        !is_terminal(p.stage),
        forall|i: int|
            0 <= i < jobs.len() && (#[trigger] jobs[i]).id == id ==> jobs[i].status == p.status
                && jobs[i].result_path is None,
    ensures
        jobs_after_run(jobs, id, p, events).len() == jobs.len(),
        forall|i: int|
            0 <= i < jobs.len() ==> {
                let after = #[trigger] jobs_after_run(jobs, id, p, events)[i];
                if jobs[i].id == id {
                    &&& after.id == id
                    &&& after.url == jobs[i].url
                    &&& after.status == run(p, events).status
                    &&& after.result_path == (if run(p, events).stage == Stage::Completed {
                        Some(p.audio_path)
                    } else {
                        None
                    })
                } else {
                    after == jobs[i]
                }
            },
    decreases events.len(),
{
    if events.len() > 0 {
        let before = jobs_after_run(jobs, id, p, events.drop_last());
        let q = run(p, events.drop_last());
        let step = step_spec(q, events.last()).1;
        law_registry_follows_pipeline(jobs, id, p, events.drop_last());
        crate::pipeline::law_run_keeps_job(p, events.drop_last());
        lemma_step(q, events.last());
        lemma_statuses_keep_jobs(before, id, step.statuses);
        assert forall|i: int| 0 <= i < jobs.len() implies {
            let after = #[trigger] jobs_after_run(jobs, id, p, events)[i];
            if jobs[i].id == id {
                &&& after.id == id
                &&& after.url == jobs[i].url
                &&& after.status == run(p, events).status
                &&& after.result_path == (if run(p, events).stage == Stage::Completed {
                    Some(p.audio_path)
                } else {
                    None
                })
            } else {
                after == jobs[i]
            }
        } by {
            assert(before[i].id == jobs[i].id);
        }
    }
}

/// From submission to result: a job that was just submitted, and whose
/// pipeline meets success at every stage, is listed in the end as completed,
/// with the converted audio file of its pipeline as its result; every other
/// job is listed as before.
pub proof fn law_successful_job_is_listed_completed(
    jobs: Seq<JobView>,
    job_id: Seq<char>,
    file_id: Seq<char>,
    url: Seq<char>,
    work_dir: Seq<char>,
    fetch_lines: Seq<Seq<char>>,
    transcode_lines: Seq<Seq<char>>,
    model: Seq<char>,
    percents: Seq<int>,
    transcript: Seq<char>,
)
    requires
        forall|i: int|
            0 <= i < jobs.len() && (#[trigger] jobs[i]).id == job_id ==> jobs[i].status
                == "queued"@ && jobs[i].result_path is None,
    ensures
        ({
            let after = jobs_after_run(
                jobs,
                job_id,
                queued_pipeline(file_id, url, work_dir),
                successful_events(fetch_lines, transcode_lines, model, percents, transcript),
            );
            &&& after.len() == jobs.len()
            &&& forall|i: int|
                0 <= i < jobs.len() ==> if jobs[i].id == job_id {
                    &&& (#[trigger] after[i]).id == job_id
                    &&& after[i].url == jobs[i].url
                    &&& after[i].status == "completed"@
                    &&& after[i].result_path == Some(
                        joined(work_dir, converted_audio_name(file_id)),
                    )
                } else {
                    after[i] == jobs[i]
                }
        }),
{
    let p = queued_pipeline(file_id, url, work_dir);
    let events = successful_events(fetch_lines, transcode_lines, model, percents, transcript);
    law_registry_follows_pipeline(jobs, job_id, p, events);
    crate::pipeline::law_success_completes(
        file_id,
        url,
        work_dir,
        fetch_lines,
        transcode_lines,
        model,
        percents,
        transcript,
    );
}

} // verus!
