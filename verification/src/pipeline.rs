//! The per-job stage machine: what a job does next, and which status it
//! shows, on each thing that happens outside. The caller performs the
//! action that a step asks for and hands back what came of it.

use vstd::prelude::*;
use crate::ids::{is_hyphenated_uuid, random_id};
use crate::paths::{converted_audio_name, converted_audio_path, joined, raw_audio_name, raw_audio_path};
use crate::progress::{
    fetch_percent, parse_fetch_progress, total_after, transcode_percent, TranscodeProgress,
};
use crate::text::{append_decimal, append_str, string_of};
use crate::transcript::signed_decimal;

verus! {

/// The two outside tools that a job runs.
#[derive(Clone, Copy, Debug, PartialEq, Eq, Structural)]
pub enum Tool {
    Fetch,
    Transcode,
}

/// Where a job stands.
#[derive(Clone, Copy, Debug, PartialEq, Eq, Structural)]
pub enum Stage {
    Queued,
    Downloading,
    Converting,
    CheckingModel,
    Transcribing,
    Completed,
    Failed,
}

/// Why a job failed.
#[derive(Debug, PartialEq, Eq)]
pub enum JobError {
    /// A tool could not be started.
    ProcessLaunch { tool: Tool, detail: String },
    /// A tool was started and could not be waited for.
    ProcessWait { tool: Tool, detail: String },
    /// A tool ended with a failure code.
    ProcessExit { tool: Tool },
    /// The model could not be fetched.
    Network { detail: String },
    /// A directory or a file could not be made or read.
    Filesystem { detail: String },
    /// The model could not be loaded or run.
    Inference { detail: String },
    /// The audio holds no samples.
    EmptyInput,
}

/// A failure as plain values.
pub enum JobErrorView {
    ProcessLaunch { tool: Tool, detail: Seq<char> },
    ProcessWait { tool: Tool, detail: Seq<char> },
    ProcessExit { tool: Tool },
    Network { detail: Seq<char> },
    Filesystem { detail: Seq<char> },
    Inference { detail: Seq<char> },
    EmptyInput,
}

impl View for JobError {
    type V = JobErrorView;

    open spec fn view(&self) -> JobErrorView {
        match self {
            JobError::ProcessLaunch { tool, detail } => JobErrorView::ProcessLaunch {
                tool: *tool,
                detail: detail@,
            },
            JobError::ProcessWait { tool, detail } => JobErrorView::ProcessWait {
                tool: *tool,
                detail: detail@,
            },
            JobError::ProcessExit { tool } => JobErrorView::ProcessExit { tool: *tool },
            JobError::Network { detail } => JobErrorView::Network { detail: detail@ },
            JobError::Filesystem { detail } => JobErrorView::Filesystem { detail: detail@ },
            JobError::Inference { detail } => JobErrorView::Inference { detail: detail@ },
            JobError::EmptyInput => JobErrorView::EmptyInput,
        }
    }
}

/// The name by which messages call a tool.
pub open spec fn tool_name(tool: Tool) -> Seq<char> {
    match tool {
        Tool::Fetch => "yt-dlp"@,
        Tool::Transcode => "ffmpeg"@,
    }
}

/// The message of a failure.
pub open spec fn error_message(e: JobErrorView) -> Seq<char> {
    match e {
        JobErrorView::ProcessLaunch { tool, detail } => "Failed to spawn "@ + tool_name(tool)
            + ": "@ + detail,
        JobErrorView::ProcessWait { tool, detail } => "Failed to wait on "@ + tool_name(tool)
            + ": "@ + detail,
        JobErrorView::ProcessExit { tool } => tool_name(tool) + " failed"@,
        JobErrorView::Network { detail } => detail,
        JobErrorView::Filesystem { detail } => detail,
        JobErrorView::Inference { detail } => detail,
        JobErrorView::EmptyInput => "Audio file is empty"@,
    }
}

/// The status that a failed job shows.
pub open spec fn failed_status(message: Seq<char>) -> Seq<char> {
    "failed: "@ + message
}

/// A status that reports a percentage: a label, the number, a percent sign.
pub open spec fn percent_status(label: Seq<char>, percent: int) -> Seq<char> {
    label + signed_decimal(percent) + "%"@
}

/// What happened outside.
#[derive(Debug, PartialEq, Eq)]
pub enum Event {
    /// The job was taken up.
    Start,
    /// The running tool wrote one line.
    Line(String),
    /// The running tool ended; `true` where it reported success.
    Exited(bool),
    /// The model is present at this place.
    ModelReady(String),
    /// The transcription reports a percentage.
    Progress(i32),
    /// The transcription is done; this is the transcript.
    Transcribed(String),
    /// The outside work failed.
    Failed(JobError),
}

/// An event as plain values.
pub enum EventView {
    Start,
    Line(Seq<char>),
    Exited(bool),
    ModelReady(Seq<char>),
    Progress(int),
    Transcribed(Seq<char>),
    Failed(JobErrorView),
}

impl View for Event {
    type V = EventView;

    open spec fn view(&self) -> EventView {
        match self {
            Event::Start => EventView::Start,
            Event::Line(l) => EventView::Line(l@),
            Event::Exited(ok) => EventView::Exited(*ok),
            Event::ModelReady(p) => EventView::ModelReady(p@),
            Event::Progress(n) => EventView::Progress(*n as int),
            Event::Transcribed(t) => EventView::Transcribed(t@),
            Event::Failed(e) => EventView::Failed(e@),
        }
    }
}

/// What the caller is to do next.
#[derive(Debug, PartialEq, Eq)]
pub enum Action {
    /// Nothing new: go on with the work in hand and report what happens.
    Wait,
    /// Start a tool with these arguments, and report its lines and its end.
    Launch { tool: Tool, args: Vec<String> },
    /// Make sure that the model is present, and report its place.
    ResolveModel,
    /// Transcribe the audio with the model, and report the transcript.
    Transcribe { audio: String, model: String },
    /// The job is done: its result is at this place.
    Finish { result_path: String, transcript: String },
    /// The job has failed for this reason.
    Fail { reason: String },
}

/// An action as plain values.
pub enum ActionView {
    Wait,
    Launch { tool: Tool, args: Seq<Seq<char>> },
    ResolveModel,
    Transcribe { audio: Seq<char>, model: Seq<char> },
    Finish { result_path: Seq<char>, transcript: Seq<char> },
    Fail { reason: Seq<char> },
}

/// The character sequences of a sequence of strings.
pub open spec fn texts(v: Seq<String>) -> Seq<Seq<char>> {
    v.map_values(|s: String| s@)
}

impl View for Action {
    type V = ActionView;

    open spec fn view(&self) -> ActionView {
        match self {
            Action::Wait => ActionView::Wait,
            Action::Launch { tool, args } => ActionView::Launch { tool: *tool, args: texts(args@) },
            Action::ResolveModel => ActionView::ResolveModel,
            Action::Transcribe { audio, model } => ActionView::Transcribe {
                audio: audio@,
                model: model@,
            },
            Action::Finish { result_path, transcript } => ActionView::Finish {
                result_path: result_path@,
                transcript: transcript@,
            },
            Action::Fail { reason } => ActionView::Fail { reason: reason@ },
        }
    }
}

/// What one step gives: the statuses to show, in order, and the next action.
#[derive(Debug, PartialEq, Eq)]
pub struct Step {
    pub statuses: Vec<String>,
    pub action: Action,
}

/// A step's outcome as plain values.
pub struct StepView {
    pub statuses: Seq<Seq<char>>,
    pub action: ActionView,
}

impl View for Step {
    type V = StepView;

    open spec fn view(&self) -> StepView {
        StepView { statuses: texts(self.statuses@), action: self.action@ }
    }
}

/// The job that a pipeline works on, as the pipeline sees it.
#[derive(Debug, PartialEq, Eq)]
pub struct Job {
    pub id: String,
    pub url: String,
    pub status: String,
}

impl Clone for Job {
    fn clone(&self) -> (copy: Job)
        ensures
            copy.id@ == self.id@,
            copy.url@ == self.url@,
            copy.status@ == self.status@,
    {
        Job { id: self.id.clone(), url: self.url.clone(), status: self.status.clone() }
    }
}

/// A pipeline as plain values.
pub struct PipelineView {
    pub id: Seq<char>,
    pub url: Seq<char>,
    pub status: Seq<char>,
    pub stage: Stage,
    pub raw_path: Seq<char>,
    pub audio_path: Seq<char>,
    pub total: nat,
}

/// Whether a job at this stage is over.
pub open spec fn is_terminal(stage: Stage) -> bool {
    stage == Stage::Completed || stage == Stage::Failed
}

/// The arguments of the fetch tool: one line per progress report, best
/// audio in the `webm` container, the output file, the source.
pub open spec fn fetch_args(p: PipelineView) -> Seq<Seq<char>> {
    seq!["--newline"@, "-f"@, "ba[ext=webm]"@, "-o"@, p.raw_path, p.url]
}

/// The arguments of the transcode tool: the input file, 16 kHz, one
/// channel, the output file.
pub open spec fn transcode_args(p: PipelineView) -> Seq<Seq<char>> {
    seq!["-i"@, p.raw_path, "-ar"@, "16000"@, "-ac"@, "1"@, p.audio_path]
}

/// The outcome of a step that changes nothing.
pub open spec fn idle(p: PipelineView) -> (PipelineView, StepView) {
    (p, StepView { statuses: Seq::empty(), action: ActionView::Wait })
}

/// The outcome of a step that only shows a new status.
pub open spec fn report(p: PipelineView, status: Seq<char>) -> (PipelineView, StepView) {
    (
        PipelineView { status: status, ..p },
        StepView { statuses: seq![status], action: ActionView::Wait },
    )
}

/// The outcome of a step that enters the next stage.
pub open spec fn advance(
    p: PipelineView,
    stage: Stage,
    statuses: Seq<Seq<char>>,
    action: ActionView,
) -> (PipelineView, StepView)
    recommends
        statuses.len() > 0,
{
    (
        PipelineView { stage: stage, status: statuses.last(), ..p },
        StepView { statuses: statuses, action: action },
    )
}

/// The outcome of a step that ends the job in failure.
pub open spec fn fail(p: PipelineView, e: JobErrorView) -> (PipelineView, StepView) {
    (
        PipelineView { stage: Stage::Failed, status: failed_status(error_message(e)), ..p },
        StepView {
            statuses: seq![failed_status(error_message(e))],
            action: ActionView::Fail { reason: error_message(e) },
        },
    )
}

/// The outcome of a step that ends the job in success.
pub open spec fn finish(p: PipelineView, transcript: Seq<char>) -> (PipelineView, StepView) {
    (
        PipelineView { stage: Stage::Completed, status: "completed"@, ..p },
        StepView {
            statuses: Seq::empty(),
            action: ActionView::Finish { result_path: p.audio_path, transcript: transcript },
        },
    )
}

/// The step of a job that waits to be taken up.
pub open spec fn step_queued(p: PipelineView, e: EventView) -> (PipelineView, StepView) {
    match e {
        EventView::Start => advance(
            p,
            Stage::Downloading,
            seq![
                "processing"@,
                "Starting job..."@,
                percent_status("Downloading video... "@, 0),
            ],
            ActionView::Launch { tool: Tool::Fetch, args: fetch_args(p) },
        ),
        EventView::Failed(err) => fail(p, err),
        _ => idle(p),
    }
}

/// The step of a job whose fetch tool runs.
pub open spec fn step_downloading(p: PipelineView, e: EventView) -> (PipelineView, StepView) {
    match e {
        EventView::Line(l) => match fetch_percent(l) {
            Some(n) => report(p, percent_status("Downloading video... "@, n as int)),
            None => idle(p),
        },
        EventView::Exited(true) => advance(
            p,
            Stage::Converting,
            seq![percent_status("Converting to audio... "@, 0)],
            ActionView::Launch { tool: Tool::Transcode, args: transcode_args(p) },
        ),
        EventView::Exited(false) => fail(p, JobErrorView::ProcessExit { tool: Tool::Fetch }),
        EventView::Failed(err) => fail(p, err),
        _ => idle(p),
    }
}

/// The step of a job whose transcode tool runs.
pub open spec fn step_converting(p: PipelineView, e: EventView) -> (PipelineView, StepView) {
    match e {
        EventView::Line(l) => {
            let q = PipelineView { total: total_after(p.total, l), ..p };
            match transcode_percent(q.total, l) {
                Some(n) => report(q, percent_status("Converting to audio... "@, n as int)),
                None => idle(q),
            }
        },
        EventView::Exited(true) => advance(
            p,
            Stage::CheckingModel,
            seq!["Checking AI model..."@],
            ActionView::ResolveModel,
        ),
        EventView::Exited(false) => fail(p, JobErrorView::ProcessExit { tool: Tool::Transcode }),
        EventView::Failed(err) => fail(p, err),
        _ => idle(p),
    }
}

/// The step of a job that waits for the model.
pub open spec fn step_checking_model(p: PipelineView, e: EventView) -> (PipelineView, StepView) {
    match e {
        EventView::ModelReady(model) => advance(
            p,
            Stage::Transcribing,
            seq![percent_status("Transcribing... "@, 0)],
            ActionView::Transcribe { audio: p.audio_path, model: model },
        ),
        EventView::Failed(err) => fail(p, err),
        _ => idle(p),
    }
}

/// The step of a job whose transcription runs.
pub open spec fn step_transcribing(p: PipelineView, e: EventView) -> (PipelineView, StepView) {
    match e {
        EventView::Progress(n) => report(p, percent_status("Transcribing... "@, n)),
        EventView::Transcribed(text) => finish(p, text),
        EventView::Failed(err) => fail(p, err),
        _ => idle(p),
    }
}

/// The stage machine: the pipeline after an event, with the statuses to show
/// and the action to take. Stages follow one another in one order; the first
/// failure ends the job; a job that is over takes no further step; an event
/// that the stage does not expect changes nothing.
pub open spec fn step_spec(p: PipelineView, e: EventView) -> (PipelineView, StepView) {
    match p.stage {
        Stage::Queued => step_queued(p, e),
        Stage::Downloading => step_downloading(p, e),
        Stage::Converting => step_converting(p, e),
        Stage::CheckingModel => step_checking_model(p, e),
        Stage::Transcribing => step_transcribing(p, e),
        Stage::Completed => idle(p),
        Stage::Failed => idle(p),
    }
}

/// An owned copy of a string slice.
pub fn owned(s: &str) -> (out: String)
    ensures
        out@ == s@,
{
    s.to_owned()
}

/// The name by which messages call a tool.
pub fn tool_label(tool: Tool) -> (name: &'static str)
    ensures
        name@ == tool_name(tool),
{
    match tool {
        Tool::Fetch => "yt-dlp",
        Tool::Transcode => "ffmpeg",
    }
}

/// The streams on which a tool may write.
#[derive(Clone, Copy, Debug, PartialEq, Eq, Structural)]
pub enum OutputStream {
    Standard,
    Diagnostic,
}

/// The stream on which a tool reports its progress: the fetch tool on its
/// standard output, the transcode tool on its diagnostic stream.
pub fn progress_stream(tool: Tool) -> (stream: OutputStream)
    ensures
        stream == (match tool {
            Tool::Fetch => OutputStream::Standard,
            Tool::Transcode => OutputStream::Diagnostic,
        }),
{
    match tool {
        Tool::Fetch => OutputStream::Standard,
        Tool::Transcode => OutputStream::Diagnostic,
    }
}

/// The file name of a tool's program.
pub open spec fn tool_binary(tool: Tool) -> Seq<char> {
    match tool {
        Tool::Fetch => "yt-dlp-aarch64-apple-darwin"@,
        Tool::Transcode => "ffmpeg-aarch64-apple-darwin"@,
    }
}

/// The file name of a tool's program, to be looked for in the directory of
/// bundled programs.
pub fn tool_binary_name(tool: Tool) -> (name: &'static str)
    ensures
        name@ == tool_binary(tool),
{
    match tool {
        Tool::Fetch => "yt-dlp-aarch64-apple-darwin",
        Tool::Transcode => "ffmpeg-aarch64-apple-darwin",
    }
}

impl JobError {
    /// The message of the failure, as the job's status shows it.
    pub fn message(&self) -> (m: String)
        ensures
            m@ == error_message(self@),
    {
        let mut out = String::new();
        match self {
            JobError::ProcessLaunch { tool, detail } => {
                out.push_str("Failed to spawn ");
                out.push_str(tool_label(*tool));
                out.push_str(": ");
                out.push_str(detail.as_str());
            },
            JobError::ProcessWait { tool, detail } => {
                out.push_str("Failed to wait on ");
                out.push_str(tool_label(*tool));
                out.push_str(": ");
                out.push_str(detail.as_str());
            },
            JobError::ProcessExit { tool } => {
                out.push_str(tool_label(*tool));
                out.push_str(" failed");
            },
            JobError::Network { detail } => {
                out.push_str(detail.as_str());
            },
            JobError::Filesystem { detail } => {
                out.push_str(detail.as_str());
            },
            JobError::Inference { detail } => {
                out.push_str(detail.as_str());
            },
            JobError::EmptyInput => {
                out.push_str("Audio file is empty");
            },
        }
        assert(out@ =~= error_message(self@));
        out
    }
}

/// The status that a failed job shows.
pub fn failed_status_of(message: &str) -> (s: String)
    ensures
        s@ == failed_status(message@),
{
    let mut out = String::new();
    out.push_str("failed: ");
    out.push_str(message);
    assert(out@ =~= failed_status(message@));
    out
}

/// A status that reports a percentage.
pub fn percent_status_of(label: &str, percent: i32) -> (s: String)
    ensures
        s@ == percent_status(label@, percent as int),
{
    let mut out: Vec<char> = Vec::new();
    append_str(&mut out, label);
    if percent < 0 {
        out.push('-');
        append_decimal(&mut out, (-(percent as i64)) as u64);
    } else {
        append_decimal(&mut out, percent as u64);
    }
    append_str(&mut out, "%");
    assert(out@ =~= percent_status(label@, percent as int));
    string_of(out.as_slice())
}

/// The stage machine of one job.
pub struct Pipeline {
    job: Job,
    stage: Stage,
    raw_path: String,
    audio_path: String,
    transcode: TranscodeProgress,
}

impl View for Pipeline {
    type V = PipelineView;

    closed spec fn view(&self) -> PipelineView {
        PipelineView {
            id: self.job.id@,
            url: self.job.url@,
            status: self.job.status@,
            stage: self.stage,
            raw_path: self.raw_path@,
            audio_path: self.audio_path@,
            total: self.transcode.total(),
        }
    }
}

/// The pipeline of a job that has just been queued: its two work files are
/// named after the job and lie in the work directory.
pub open spec fn queued_pipeline(id: Seq<char>, url: Seq<char>, work_dir: Seq<char>) -> PipelineView {
    PipelineView {
        id: id,
        url: url,
        status: "queued"@,
        stage: Stage::Queued,
        raw_path: joined(work_dir, raw_audio_name(id)),
        audio_path: joined(work_dir, converted_audio_name(id)),
        total: 0,
    }
}

impl Pipeline {
    /// The pipeline of the job `id` for the source `url`, with its work files
    /// in `work_dir`.
    pub fn new(id: String, url: String, work_dir: &str) -> (p: Pipeline)
        ensures
            p@ == queued_pipeline(id@, url@, work_dir@),
    {
        let raw_path = raw_audio_path(work_dir, id.as_str());
        let audio_path = converted_audio_path(work_dir, id.as_str());
        Pipeline {
            job: Job { id: id, url: url, status: owned("queued") },
            stage: Stage::Queued,
            raw_path: raw_path,
            audio_path: audio_path,
            transcode: TranscodeProgress::new(),
        }
    }

    /// The pipeline for the source `url` under a fresh id, with its work
    /// files in `work_dir`.
    pub fn fresh(url: String, work_dir: &str) -> (p: Pipeline)
        ensures
            is_hyphenated_uuid(p@.id),
            p@ == queued_pipeline(p@.id, url@, work_dir@),
    {
        Pipeline::new(random_id(), url, work_dir)
    }

    /// Where the job stands.
    pub fn stage(&self) -> (stage: Stage)
        ensures
            stage == self@.stage,
    {
        self.stage
    }

    /// Whether the job is over.
    pub fn is_over(&self) -> (b: bool)
        ensures
            b == is_terminal(self@.stage),
    {
        match self.stage {
            Stage::Completed => true,
            Stage::Failed => true,
            _ => false,
        }
    }

    /// The job with the status that it shows now.
    pub fn job(&self) -> (job: &Job)
        ensures
            job.id@ == self@.id,
            job.url@ == self@.url,
            job.status@ == self@.status,
    {
        &self.job
    }

    /// The place of the file that the fetch tool writes.
    pub fn raw_path(&self) -> (path: &String)
        ensures
            path@ == self@.raw_path,
    {
        &self.raw_path
    }

    /// The place of the file that the transcode tool writes: the job's result.
    pub fn audio_path(&self) -> (path: &String)
        ensures
            path@ == self@.audio_path,
    {
        &self.audio_path
    }

    fn idle_step(&self) -> (out: Step)
        ensures
            (self@, out@) == idle(self@),
    {
        let out = Step { statuses: Vec::new(), action: Action::Wait };
        assert(out@.statuses =~= Seq::<Seq<char>>::empty());
        out
    }

    fn report_step(&mut self, status: String) -> (out: Step)
        ensures
            (final(self)@, out@) == report(old(self)@, status@),
    {
        self.job.status = status.clone();
        let mut statuses: Vec<String> = Vec::new();
        statuses.push(status);
        let out = Step { statuses: statuses, action: Action::Wait };
        assert(out@.statuses =~= seq![status@]);
        out
    }

    fn advance_step(&mut self, stage: Stage, statuses: Vec<String>, action: Action) -> (out: Step)
        requires
            statuses@.len() > 0,
        ensures
            (final(self)@, out@) == advance(old(self)@, stage, texts(statuses@), action@),
    {
        self.stage = stage;
        self.job.status = statuses[statuses.len() - 1].clone();
        Step { statuses: statuses, action: action }
    }

    fn fail_step(&mut self, err: &JobError) -> (out: Step)
        ensures
            (final(self)@, out@) == fail(old(self)@, err@),
    {
        let reason = err.message();
        let status = failed_status_of(reason.as_str());
        self.stage = Stage::Failed;
        self.job.status = status.clone();
        let mut statuses: Vec<String> = Vec::new();
        statuses.push(status);
        let out = Step { statuses: statuses, action: Action::Fail { reason: reason } };
        assert(out@.statuses =~= seq![failed_status(error_message(err@))]);
        out
    }

    fn finish_step(&mut self, transcript: String) -> (out: Step)
        ensures
            (final(self)@, out@) == finish(old(self)@, transcript@),
    {
        self.stage = Stage::Completed;
        self.job.status = owned("completed");
        let out = Step {
            statuses: Vec::new(),
            action: Action::Finish { result_path: self.audio_path.clone(), transcript: transcript },
        };
        assert(out@.statuses =~= Seq::<Seq<char>>::empty());
        out
    }

    fn fetch_launch(&self) -> (action: Action)
        ensures
            action@ == (ActionView::Launch { tool: Tool::Fetch, args: fetch_args(self@) }),
    {
        let mut args: Vec<String> = Vec::new();
        args.push(owned("--newline"));
        args.push(owned("-f"));
        args.push(owned("ba[ext=webm]"));
        args.push(owned("-o"));
        args.push(self.raw_path.clone());
        args.push(self.job.url.clone());
        assert(texts(args@) =~= fetch_args(self@));
        Action::Launch { tool: Tool::Fetch, args: args }
    }

    fn transcode_launch(&self) -> (action: Action)
        ensures
            action@ == (ActionView::Launch { tool: Tool::Transcode, args: transcode_args(self@) }),
    {
        let mut args: Vec<String> = Vec::new();
        args.push(owned("-i"));
        args.push(self.raw_path.clone());
        args.push(owned("-ar"));
        args.push(owned("16000"));
        args.push(owned("-ac"));
        args.push(owned("1"));
        args.push(self.audio_path.clone());
        assert(texts(args@) =~= transcode_args(self@));
        Action::Launch { tool: Tool::Transcode, args: args }
    }

    fn on_queued(&mut self, event: Event) -> (out: Step)
        ensures
            (final(self)@, out@) == step_queued(old(self)@, event@),
    {
        match event {
            Event::Start => {
                let action = self.fetch_launch();
                let mut statuses: Vec<String> = Vec::new();
                statuses.push(owned("processing"));
                statuses.push(owned("Starting job..."));
                statuses.push(percent_status_of("Downloading video... ", 0));
                assert(texts(statuses@) =~= seq![
                    "processing"@,
                    "Starting job..."@,
                    percent_status("Downloading video... "@, 0),
                ]);
                self.advance_step(Stage::Downloading, statuses, action)
            },
            Event::Failed(err) => self.fail_step(&err),
            _ => self.idle_step(),
        }
    }

    fn on_downloading(&mut self, event: Event) -> (out: Step)
        ensures
            (final(self)@, out@) == step_downloading(old(self)@, event@),
    {
        match event {
            Event::Line(l) => match parse_fetch_progress(l.as_str()) {
                Some(n) => {
                    let status = percent_status_of("Downloading video... ", n as i32);
                    self.report_step(status)
                },
                None => self.idle_step(),
            },
            Event::Exited(ok) => {
                if ok {
                    let action = self.transcode_launch();
                    let mut statuses: Vec<String> = Vec::new();
                    statuses.push(percent_status_of("Converting to audio... ", 0));
                    assert(texts(statuses@) =~= seq![percent_status("Converting to audio... "@, 0)]);
                    self.advance_step(Stage::Converting, statuses, action)
                } else {
                    self.fail_step(&JobError::ProcessExit { tool: Tool::Fetch })
                }
            },
            Event::Failed(err) => self.fail_step(&err),
            _ => self.idle_step(),
        }
    }

    fn on_converting(&mut self, event: Event) -> (out: Step)
        ensures
            (final(self)@, out@) == step_converting(old(self)@, event@),
    {
        match event {
            Event::Line(l) => match self.transcode.feed(l.as_str()) {
                Some(n) => {
                    let status = percent_status_of("Converting to audio... ", n as i32);
                    self.report_step(status)
                },
                None => self.idle_step(),
            },
            Event::Exited(ok) => {
                if ok {
                    let mut statuses: Vec<String> = Vec::new();
                    statuses.push(owned("Checking AI model..."));
                    assert(texts(statuses@) =~= seq!["Checking AI model..."@]);
                    self.advance_step(Stage::CheckingModel, statuses, Action::ResolveModel)
                } else {
                    self.fail_step(&JobError::ProcessExit { tool: Tool::Transcode })
                }
            },
            Event::Failed(err) => self.fail_step(&err),
            _ => self.idle_step(),
        }
    }

    fn on_checking_model(&mut self, event: Event) -> (out: Step)
        ensures
            (final(self)@, out@) == step_checking_model(old(self)@, event@),
    {
        match event {
            Event::ModelReady(model) => {
                let action = Action::Transcribe { audio: self.audio_path.clone(), model: model };
                let mut statuses: Vec<String> = Vec::new();
                statuses.push(percent_status_of("Transcribing... ", 0));
                assert(texts(statuses@) =~= seq![percent_status("Transcribing... "@, 0)]);
                self.advance_step(Stage::Transcribing, statuses, action)
            },
            Event::Failed(err) => self.fail_step(&err),
            _ => self.idle_step(),
        }
    }

    fn on_transcribing(&mut self, event: Event) -> (out: Step)
        ensures
            (final(self)@, out@) == step_transcribing(old(self)@, event@),
    {
        match event {
            Event::Progress(n) => {
                let status = percent_status_of("Transcribing... ", n);
                self.report_step(status)
            },
            Event::Transcribed(text) => self.finish_step(text),
            Event::Failed(err) => self.fail_step(&err),
            _ => self.idle_step(),
        }
    }

    /// Takes one step: moves the job on by what happened outside, and says
    /// which statuses to show and what to do next.
    pub fn step(&mut self, event: Event) -> (out: Step)
        ensures
            (final(self)@, out@) == step_spec(old(self)@, event@),
    {
        match self.stage {
            Stage::Queued => self.on_queued(event),
            Stage::Downloading => self.on_downloading(event),
            Stage::Converting => self.on_converting(event),
            Stage::CheckingModel => self.on_checking_model(event),
            Stage::Transcribing => self.on_transcribing(event),
            Stage::Completed => self.idle_step(),
            Stage::Failed => self.idle_step(),
        }
    }
}

/// How far a job has come: the stages in their order, both ends last.
pub open spec fn rank(stage: Stage) -> nat {
    match stage {
        Stage::Queued => 0,
        Stage::Downloading => 1,
        Stage::Converting => 2,
        Stage::CheckingModel => 3,
        Stage::Transcribing => 4,
        Stage::Completed => 5,
        Stage::Failed => 5,
    }
}

/// Whether an action ends the job.
pub open spec fn is_terminal_action(a: ActionView) -> bool {
    a is Finish || a is Fail
}

/// Whether an event ends the stage at which it arrives.
pub open spec fn is_decisive(stage: Stage, e: EventView) -> bool {
    match stage {
        Stage::Queued => e is Start || e is Failed,
        Stage::Downloading => e is Exited || e is Failed,
        Stage::Converting => e is Exited || e is Failed,
        Stage::CheckingModel => e is ModelReady || e is Failed,
        Stage::Transcribing => e is Transcribed || e is Failed,
        Stage::Completed => false,
        Stage::Failed => false,
    }
}

/// The pipeline after a sequence of events.
pub open spec fn run(p: PipelineView, events: Seq<EventView>) -> PipelineView
    decreases events.len(),
{
    if events.len() == 0 {
        p
    } else {
        step_spec(run(p, events.drop_last()), events.last()).0
    }
}

/// The number of steps, over a sequence of events, that end the job.
pub open spec fn terminal_actions(p: PipelineView, events: Seq<EventView>) -> nat
    decreases events.len(),
{
    if events.len() == 0 {
        0
    } else {
        let before = run(p, events.drop_last());
        terminal_actions(p, events.drop_last()) + if is_terminal_action(
            step_spec(before, events.last()).1.action,
        ) {
            1nat
        } else {
            0nat
        }
    }
}

/// The number of events, over a sequence, that end the stage at which they arrive.
pub open spec fn decisive_steps(p: PipelineView, events: Seq<EventView>) -> nat
    decreases events.len(),
{
    if events.len() == 0 {
        0
    } else {
        let before = run(p, events.drop_last());
        decisive_steps(p, events.drop_last()) + if is_decisive(before.stage, events.last()) {
            1nat
        } else {
            0nat
        }
    }
}

/// A job that is over stays as it is: no event changes its stage or status,
/// and no step asks for anything more.
pub proof fn law_over_is_over(p: PipelineView, e: EventView)
    requires
        is_terminal(p.stage),
    ensures
        step_spec(p, e) == idle(p),
{
}

/// One step: the job, its source and its files stay the same; the stage
/// never goes back; the step ends the job exactly when its action says so;
/// success gives the converted audio file as the result and shows
/// `completed`; failure shows `failed: ` and the reason.
pub proof fn lemma_step(p: PipelineView, e: EventView)
    ensures
        ({
            let (q, s) = step_spec(p, e);
            &&& q.id == p.id && q.url == p.url && q.raw_path == p.raw_path && q.audio_path
                == p.audio_path
            &&& rank(q.stage) >= rank(p.stage)
            &&& is_terminal_action(s.action) <==> !is_terminal(p.stage) && is_terminal(q.stage)
            &&& s.action is Finish <==> p.stage == Stage::Transcribing && q.stage
                == Stage::Completed
            &&& s.action is Fail <==> p.stage != Stage::Failed && q.stage == Stage::Failed
            &&& s.action matches ActionView::Finish { result_path, .. } ==> result_path
                == p.audio_path && q.status == "completed"@
            &&& s.action matches ActionView::Fail { reason } ==> q.status == failed_status(reason)
                && s.statuses == seq![failed_status(reason)]
            &&& s.statuses.len() > 0 ==> q.status == s.statuses.last()
            &&& s.statuses.len() == 0 && !(s.action is Finish) ==> q.status == p.status
        }),
{
}

/// An event that ends a stage moves the job strictly forward, and any other
/// event leaves the stage as it is.
pub proof fn lemma_decisive_moves_on(p: PipelineView, e: EventView)
    ensures
        is_decisive(p.stage, e) ==> rank(step_spec(p, e).0.stage) > rank(p.stage),
        !is_decisive(p.stage, e) ==> step_spec(p, e).0.stage == p.stage,
{
}

/// Over any sequence of events a job ends at most once: the number of steps
/// that end it is one where the job is over afterwards, and none where it is
/// not. A job is never both completed and failed, since these are two stages
/// and a job that is over keeps its stage.
pub proof fn law_ends_exactly_once(p: PipelineView, events: Seq<EventView>)
    requires
        !is_terminal(p.stage),
    ensures
        terminal_actions(p, events) == (if is_terminal(run(p, events).stage) {
            1nat
        } else {
            0nat
        }),
    decreases events.len(),
{
    if events.len() > 0 {
        law_ends_exactly_once(p, events.drop_last());
        lemma_step(run(p, events.drop_last()), events.last());
    }
}

/// Over any sequence of events the job, its source and its two files stay
/// the same, and the stage never goes back.
pub proof fn law_run_keeps_job(p: PipelineView, events: Seq<EventView>)
    ensures
        run(p, events).id == p.id,
        run(p, events).url == p.url,
        run(p, events).raw_path == p.raw_path,
        run(p, events).audio_path == p.audio_path,
        rank(run(p, events).stage) >= rank(p.stage),
    decreases events.len(),
{
    if events.len() > 0 {
        law_run_keeps_job(p, events.drop_last());
        lemma_step(run(p, events.drop_last()), events.last());
    }
}

/// A job comes to its end: each event that ends a stage moves the job on by
/// at least one stage, so that a job which has seen five of them since it
/// was queued is over.
pub proof fn law_job_ends(p: PipelineView, events: Seq<EventView>)
    ensures
        rank(run(p, events).stage) >= rank(p.stage) + decisive_steps(p, events),
        decisive_steps(p, events) >= 5 ==> is_terminal(run(p, events).stage),
    decreases events.len(),
{
    if events.len() > 0 {
        law_job_ends(p, events.drop_last());
        lemma_decisive_moves_on(run(p, events.drop_last()), events.last());
    }
}

/// A job that was queued and has completed shows `completed`, and its result
/// is the converted audio file in the work directory, whose place is not empty.
pub proof fn law_completed_has_result(
    id: Seq<char>,
    url: Seq<char>,
    work_dir: Seq<char>,
    events: Seq<EventView>,
)
    requires
        events.len() > 0,
        step_spec(run(queued_pipeline(id, url, work_dir), events.drop_last()), events.last()).1.action
            is Finish,
    ensures
        ({
            let p = queued_pipeline(id, url, work_dir);
            let (q, s) = step_spec(run(p, events.drop_last()), events.last());
            &&& q == run(p, events)
            &&& q.stage == Stage::Completed
            &&& q.status == "completed"@
            &&& s.action->Finish_result_path == joined(work_dir, converted_audio_name(id))
            &&& s.action->Finish_result_path.len() > 0
        }),
{
    let p = queued_pipeline(id, url, work_dir);
    law_run_keeps_job(p, events.drop_last());
    lemma_step(run(p, events.drop_last()), events.last());
    reveal_strlit(".wav");
}

/// Running over two sequences of events one after the other is running over
/// their concatenation.
pub proof fn lemma_run_concat(p: PipelineView, first: Seq<EventView>, second: Seq<EventView>)
    ensures
        run(p, first + second) == run(run(p, first), second),
    decreases second.len(),
{
    if second.len() == 0 {
        assert(first + second =~= first);
    } else {
        lemma_run_concat(p, first, second.drop_last());
        assert((first + second).drop_last() =~= first + second.drop_last());
        assert((first + second).last() == second.last());
    }
}

/// The events of a tool that writes these lines, one event for each line.
pub open spec fn line_events(lines: Seq<Seq<char>>) -> Seq<EventView> {
    lines.map_values(|l: Seq<char>| EventView::Line(l))
}

/// The events of a transcription that reports these percentages.
pub open spec fn progress_events(percents: Seq<int>) -> Seq<EventView> {
    percents.map_values(|n: int| EventView::Progress(n))
}

/// Lines and progress reports never change the stage of a job.
pub proof fn lemma_reports_keep_stage(p: PipelineView, lines: Seq<Seq<char>>, percents: Seq<int>)
    ensures
        run(p, line_events(lines)).stage == p.stage,
        run(p, progress_events(percents)).stage == p.stage,
    decreases lines.len() + percents.len(),
{
    if lines.len() > 0 {
        lemma_reports_keep_stage(p, lines.drop_last(), Seq::empty());
        assert(line_events(lines).drop_last() =~= line_events(lines.drop_last()));
    }
    if percents.len() > 0 {
        lemma_reports_keep_stage(p, Seq::empty(), percents.drop_last());
        assert(progress_events(percents).drop_last() =~= progress_events(percents.drop_last()));
    }
}

/// What happens outside when every stage succeeds: the job is taken up, the
/// fetch tool writes its lines and ends well, the transcode tool writes its
/// lines and ends well, the model is found, and the transcription reports
/// its percentages and gives a transcript.
pub open spec fn successful_events(
    fetch_lines: Seq<Seq<char>>,
    transcode_lines: Seq<Seq<char>>,
    model: Seq<char>,
    percents: Seq<int>,
    transcript: Seq<char>,
) -> Seq<EventView> {
    seq![EventView::Start] + line_events(fetch_lines) + seq![EventView::Exited(true)]
        + line_events(transcode_lines) + seq![
        EventView::Exited(true),
        EventView::ModelReady(model),
    ] + progress_events(percents) + seq![EventView::Transcribed(transcript)]
}

/// Where both tools succeed, the model is found and the transcription
/// succeeds, a queued job ends completed, whatever the tools wrote: it shows
/// `completed`, and its result is the converted audio file in the work
/// directory.
pub proof fn law_success_completes(
    id: Seq<char>,
    url: Seq<char>,
    work_dir: Seq<char>,
    fetch_lines: Seq<Seq<char>>,
    transcode_lines: Seq<Seq<char>>,
    model: Seq<char>,
    percents: Seq<int>,
    transcript: Seq<char>,
)
    ensures
        ({
            let done = run(
                queued_pipeline(id, url, work_dir),
                successful_events(fetch_lines, transcode_lines, model, percents, transcript),
            );
            &&& done.stage == Stage::Completed
            &&& done.status == "completed"@
            &&& done.audio_path == joined(work_dir, converted_audio_name(id))
        }),
{
    let p0 = queued_pipeline(id, url, work_dir);
    let e1 = seq![EventView::Start];
    let e2 = line_events(fetch_lines);
    let e3 = seq![EventView::Exited(true)];
    let e4 = line_events(transcode_lines);
    let e5 = seq![EventView::Exited(true), EventView::ModelReady(model)];
    let e6 = progress_events(percents);
    let e7 = seq![EventView::Transcribed(transcript)];
    let p1 = run(p0, e1);
    assert(e1.drop_last() =~= Seq::<EventView>::empty());
    assert(run(p0, e1.drop_last()) == p0);
    assert(p1.stage == Stage::Downloading);
    let p2 = run(p1, e2);
    lemma_reports_keep_stage(p1, fetch_lines, Seq::empty());
    let p3 = run(p2, e3);
    assert(e3.drop_last() =~= Seq::<EventView>::empty());
    assert(run(p2, e3.drop_last()) == p2);
    assert(p3.stage == Stage::Converting);
    let p4 = run(p3, e4);
    lemma_reports_keep_stage(p3, transcode_lines, Seq::empty());
    let p5 = run(p4, e5);
    assert(e5.drop_last() =~= seq![EventView::Exited(true)]);
    assert(e5.drop_last().drop_last() =~= Seq::<EventView>::empty());
    assert(run(p4, e5.drop_last().drop_last()) == p4);
    assert(run(p4, e5.drop_last()).stage == Stage::CheckingModel);
    assert(p5.stage == Stage::Transcribing);
    let p6 = run(p5, e6);
    lemma_reports_keep_stage(p5, Seq::empty(), percents);
    let p7 = run(p6, e7);
    assert(e7.drop_last() =~= Seq::<EventView>::empty());
    assert(run(p6, e7.drop_last()) == p6);
    assert(p7.stage == Stage::Completed);
    lemma_run_concat(p0, e1, e2);
    lemma_run_concat(p0, e1 + e2, e3);
    lemma_run_concat(p0, e1 + e2 + e3, e4);
    lemma_run_concat(p0, e1 + e2 + e3 + e4, e5);
    lemma_run_concat(p0, e1 + e2 + e3 + e4 + e5, e6);
    lemma_run_concat(p0, e1 + e2 + e3 + e4 + e5 + e6, e7);
    law_run_keeps_job(p0, successful_events(fetch_lines, transcode_lines, model, percents, transcript));
}

} // verus!
