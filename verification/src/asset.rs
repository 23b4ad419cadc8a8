//! The asset resolver: makes sure that the model file is present in its
//! cache directory, fetching it where it is absent. The resolver decides;
//! the caller looks at the disk and the network and reports what it found.

use vstd::prelude::*;
use crate::paths::{join_path, joined};
use crate::pipeline::{owned, JobError, JobErrorView};

verus! {

/// The file name of the model in the cache directory.
pub open spec fn model_file_name() -> Seq<char> {
    "ggml-tiny.bin"@
}

/// The name of the cache directory within the application's data directory.
pub open spec fn models_dir_name() -> Seq<char> {
    "models"@
}

/// The address from which the model is fetched.
pub open spec fn model_url() -> Seq<char> {
    "https://huggingface.co/ggerganov/whisper.cpp/resolve/main/ggml-tiny.bin"@
}

/// The message for a response that is no success.
pub open spec fn bad_status_message(status_text: Seq<char>) -> Seq<char> {
    "Failed to download model: "@ + status_text
}

/// Whether a response code reports success.
pub open spec fn is_success(code: u16) -> bool {
    200 <= code < 300
}

/// The cache directory of the application whose data directory is `data_dir`.
pub fn models_dir(data_dir: &str) -> (dir: String)
    ensures
        dir@ == joined(data_dir@, models_dir_name()),
{
    join_path(data_dir, "models")
}

/// Where the resolver stands.
#[derive(Clone, Copy, Debug, PartialEq, Eq, Structural)]
pub enum ResolveStage {
    Idle,
    ProbingFile,
    ProbingDir,
    CreatingDir,
    Requesting,
    Saving,
    Ready,
    Unavailable,
}

/// What the caller found.
#[derive(Debug, PartialEq, Eq)]
pub enum AssetEvent {
    /// The resolver is asked for the model.
    Begin,
    /// The answer to a probe: whether the file or directory is there.
    Exists(bool),
    /// The directory was made, or the body was saved in full.
    Done,
    /// The server answered with this code; `text` is how the code reads.
    Response { code: u16, text: String },
    /// The work in hand failed.
    Failed(JobError),
}

/// An event as plain values.
pub enum AssetEventView {
    Begin,
    Exists(bool),
    Done,
    Response { code: u16, text: Seq<char> },
    Failed(JobErrorView),
}

impl View for AssetEvent {
    type V = AssetEventView;

    open spec fn view(&self) -> AssetEventView {
        match self {
            AssetEvent::Begin => AssetEventView::Begin,
            AssetEvent::Exists(b) => AssetEventView::Exists(*b),
            AssetEvent::Done => AssetEventView::Done,
            AssetEvent::Response { code, text } => AssetEventView::Response {
                code: *code,
                text: text@,
            },
            AssetEvent::Failed(e) => AssetEventView::Failed(e@),
        }
    }
}

/// What the caller is to do next.
#[derive(Debug, PartialEq, Eq)]
pub enum AssetAction {
    /// Nothing new.
    Wait,
    /// Report whether this file is there.
    ProbeFile { path: String },
    /// Report whether this directory is there.
    ProbeDir { dir: String },
    /// Make this directory, with the directories above it.
    CreateDir { dir: String },
    /// Ask the server for this address, and report the code of its answer.
    Request { url: String },
    /// Write the body of the answer to this file, and report when all is written.
    Save { path: String },
    /// The model is present at this place.
    Return { path: String },
    /// The model cannot be had.
    Fail { error: JobError },
}

/// An action as plain values.
pub enum AssetActionView {
    Wait,
    ProbeFile { path: Seq<char> },
    ProbeDir { dir: Seq<char> },
    CreateDir { dir: Seq<char> },
    Request { url: Seq<char> },
    Save { path: Seq<char> },
    Return { path: Seq<char> },
    Fail { error: JobErrorView },
}

impl View for AssetAction {
    type V = AssetActionView;

    open spec fn view(&self) -> AssetActionView {
        match self {
            AssetAction::Wait => AssetActionView::Wait,
            AssetAction::ProbeFile { path } => AssetActionView::ProbeFile { path: path@ },
            AssetAction::ProbeDir { dir } => AssetActionView::ProbeDir { dir: dir@ },
            AssetAction::CreateDir { dir } => AssetActionView::CreateDir { dir: dir@ },
            AssetAction::Request { url } => AssetActionView::Request { url: url@ },
            AssetAction::Save { path } => AssetActionView::Save { path: path@ },
            AssetAction::Return { path } => AssetActionView::Return { path: path@ },
            AssetAction::Fail { error } => AssetActionView::Fail { error: error@ },
        }
    }
}

/// A resolver as plain values.
pub struct ResolverView {
    pub dir: Seq<char>,
    pub path: Seq<char>,
    pub stage: ResolveStage,
}

/// Whether a resolver at this stage has given its answer.
pub open spec fn is_settled(stage: ResolveStage) -> bool {
    stage == ResolveStage::Ready || stage == ResolveStage::Unavailable
}

/// The resolver for a cache directory, before it is asked.
pub open spec fn idle_resolver(cache_dir: Seq<char>) -> ResolverView {
    ResolverView {
        dir: cache_dir,
        path: joined(cache_dir, model_file_name()),
        stage: ResolveStage::Idle,
    }
}

/// The outcome of entering a stage with an action.
pub open spec fn enter(r: ResolverView, stage: ResolveStage, action: AssetActionView) -> (
    ResolverView,
    AssetActionView,
) {
    (ResolverView { stage: stage, ..r }, action)
}

/// What the resolver does on an event that is no failure.
pub open spec fn resolve_on(r: ResolverView, e: AssetEventView) -> (ResolverView, AssetActionView) {
    match (r.stage, e) {
        (ResolveStage::Idle, AssetEventView::Begin) => enter(
            r,
            ResolveStage::ProbingFile,
            AssetActionView::ProbeFile { path: r.path },
        ),
        (ResolveStage::ProbingFile, AssetEventView::Exists(true)) => enter(
            r,
            ResolveStage::Ready,
            AssetActionView::Return { path: r.path },
        ),
        (ResolveStage::ProbingFile, AssetEventView::Exists(false)) => enter(
            r,
            ResolveStage::ProbingDir,
            AssetActionView::ProbeDir { dir: r.dir },
        ),
        (ResolveStage::ProbingDir, AssetEventView::Exists(true)) => enter(
            r,
            ResolveStage::Requesting,
            AssetActionView::Request { url: model_url() },
        ),
        (ResolveStage::ProbingDir, AssetEventView::Exists(false)) => enter(
            r,
            ResolveStage::CreatingDir,
            AssetActionView::CreateDir { dir: r.dir },
        ),
        (ResolveStage::CreatingDir, AssetEventView::Done) => enter(
            r,
            ResolveStage::Requesting,
            AssetActionView::Request { url: model_url() },
        ),
        (ResolveStage::Requesting, AssetEventView::Response { code, text }) => if is_success(
            code,
        ) {
            enter(r, ResolveStage::Saving, AssetActionView::Save { path: r.path })
        } else {
            enter(
                r,
                ResolveStage::Unavailable,
                AssetActionView::Fail {
                    error: JobErrorView::Network { detail: bad_status_message(text) },
                },
            )
        },
        (ResolveStage::Saving, AssetEventView::Done) => enter(
            r,
            ResolveStage::Ready,
            AssetActionView::Return { path: r.path },
        ),
        _ => (r, AssetActionView::Wait),
    }
}

/// The resolver's decisions: the file is looked for first and returned at
/// once where it is there; else the directory is made where it is missing,
/// the model is asked for, and the body is saved where the answer reports
/// success. Every failure settles the resolver as unavailable. A resolver
/// that has settled, and an event that the stage does not expect, change
/// nothing.
pub open spec fn resolve_spec(r: ResolverView, e: AssetEventView) -> (
    ResolverView,
    AssetActionView,
) {
    match e {
        AssetEventView::Failed(err) => if is_settled(r.stage) {
            (r, AssetActionView::Wait)
        } else {
            enter(r, ResolveStage::Unavailable, AssetActionView::Fail { error: err })
        },
        _ => resolve_on(r, e),
    }
}

/// The asset resolver for one request.
pub struct AssetResolver {
    dir: String,
    path: String,
    stage: ResolveStage,
}

impl View for AssetResolver {
    type V = ResolverView;

    closed spec fn view(&self) -> ResolverView {
        ResolverView { dir: self.dir@, path: self.path@, stage: self.stage }
    }
}

impl AssetResolver {
    /// A resolver for the model in the cache directory `cache_dir`.
    pub fn new(cache_dir: &str) -> (r: AssetResolver)
        ensures
            r@ == idle_resolver(cache_dir@),
    {
        AssetResolver {
            dir: owned(cache_dir),
            path: join_path(cache_dir, "ggml-tiny.bin"),
            stage: ResolveStage::Idle,
        }
    }

    /// Where the resolver stands.
    pub fn stage(&self) -> (stage: ResolveStage)
        ensures
            stage == self@.stage,
    {
        self.stage
    }

    /// The place of the model file.
    pub fn path(&self) -> (path: &String)
        ensures
            path@ == self@.path,
    {
        &self.path
    }

    fn enter(&mut self, stage: ResolveStage, action: AssetAction) -> (out: AssetAction)
        ensures
            (final(self)@, out@) == enter(old(self)@, stage, action@),
    {
        self.stage = stage;
        action
    }

    /// Takes one step: decides by what the caller found what to do next.
    pub fn step(&mut self, event: AssetEvent) -> (out: AssetAction)
        ensures
            (final(self)@, out@) == resolve_spec(old(self)@, event@),
    {
        match event {
            AssetEvent::Failed(err) => match self.stage {
                ResolveStage::Ready => AssetAction::Wait,
                ResolveStage::Unavailable => AssetAction::Wait,
                _ => self.enter(ResolveStage::Unavailable, AssetAction::Fail { error: err }),
            },
            AssetEvent::Begin => match self.stage {
                ResolveStage::Idle => {
                    let action = AssetAction::ProbeFile { path: self.path.clone() };
                    self.enter(ResolveStage::ProbingFile, action)
                },
                _ => AssetAction::Wait,
            },
            AssetEvent::Exists(there) => match self.stage {
                ResolveStage::ProbingFile => {
                    if there {
                        let action = AssetAction::Return { path: self.path.clone() };
                        self.enter(ResolveStage::Ready, action)
                    } else {
                        let action = AssetAction::ProbeDir { dir: self.dir.clone() };
                        self.enter(ResolveStage::ProbingDir, action)
                    }
                },
                ResolveStage::ProbingDir => {
                    if there {
                        let action = AssetAction::Request { url: model_address() };
                        self.enter(ResolveStage::Requesting, action)
                    } else {
                        let action = AssetAction::CreateDir { dir: self.dir.clone() };
                        self.enter(ResolveStage::CreatingDir, action)
                    }
                },
                _ => AssetAction::Wait,
            },
            AssetEvent::Done => match self.stage {
                ResolveStage::CreatingDir => {
                    let action = AssetAction::Request { url: model_address() };
                    self.enter(ResolveStage::Requesting, action)
                },
                ResolveStage::Saving => {
                    let action = AssetAction::Return { path: self.path.clone() };
                    self.enter(ResolveStage::Ready, action)
                },
                _ => AssetAction::Wait,
            },
            AssetEvent::Response { code, text } => match self.stage {
                ResolveStage::Requesting => {
                    if 200 <= code && code < 300 {
                        let action = AssetAction::Save { path: self.path.clone() };
                        self.enter(ResolveStage::Saving, action)
                    } else {
                        let mut detail = owned("Failed to download model: ");
                        detail.push_str(text.as_str());
                        let action = AssetAction::Fail {
                            error: JobError::Network { detail: detail },
                        };
                        self.enter(ResolveStage::Unavailable, action)
                    }
                },
                _ => AssetAction::Wait,
            },
        }
    }
}

/// The address from which the model is fetched.
pub fn model_address() -> (url: String)
    ensures
        url@ == model_url(),
{
    owned("https://huggingface.co/ggerganov/whisper.cpp/resolve/main/ggml-tiny.bin")
}

/// The resolver after a sequence of events.
pub open spec fn resolved(r: ResolverView, events: Seq<AssetEventView>) -> ResolverView
    decreases events.len(),
{
    if events.len() == 0 {
        r
    } else {
        resolve_spec(resolved(r, events.drop_last()), events.last()).0
    }
}

/// The number of times, over a sequence of events, that the resolver asks
/// for the network.
pub open spec fn requests(r: ResolverView, events: Seq<AssetEventView>) -> nat
    decreases events.len(),
{
    if events.len() == 0 {
        0
    } else {
        requests(r, events.drop_last()) + if resolve_spec(
            resolved(r, events.drop_last()),
            events.last(),
        ).1 is Request {
            1nat
        } else {
            0nat
        }
    }
}

/// Whether a resolver at this stage has asked for the network.
pub open spec fn has_requested(stage: ResolveStage) -> bool {
    stage == ResolveStage::Requesting || stage == ResolveStage::Saving
}

/// A cache hit: a resolver that is told that the file is there returns its
/// place at once, and a resolver that has settled does nothing more.
pub proof fn law_cache_hit(cache_dir: Seq<char>)
    ensures
        ({
            let r = idle_resolver(cache_dir);
            let (probing, first) = resolve_spec(r, AssetEventView::Begin);
            let (ready, second) = resolve_spec(probing, AssetEventView::Exists(true));
            &&& first == (AssetActionView::ProbeFile { path: joined(cache_dir, model_file_name()) })
            &&& second == (AssetActionView::Return { path: joined(cache_dir, model_file_name()) })
            &&& ready.stage == ResolveStage::Ready
            &&& forall|e: AssetEventView| resolve_spec(ready, e) == (ready, AssetActionView::Wait)
        }),
{
}

/// The network is asked for only when the file was found absent: a step asks
/// for it exactly when it enters the requesting stage, which it does from
/// the probe of the directory or from its making, after the probe of the
/// file has said no; and it returns a place only after a probe that found
/// the file or after the body was saved in full.
pub proof fn lemma_request_step(r: ResolverView, e: AssetEventView)
    ensures
        ({
            let (q, a) = resolve_spec(r, e);
            &&& q.dir == r.dir && q.path == r.path
            &&& a is Request <==> q.stage == ResolveStage::Requesting && r.stage
                != ResolveStage::Requesting
            &&& a is Request ==> r.stage == ResolveStage::ProbingDir || r.stage
                == ResolveStage::CreatingDir
            &&& q.stage == ResolveStage::ProbingDir && r.stage != ResolveStage::ProbingDir ==> r.stage
                == ResolveStage::ProbingFile && e == AssetEventView::Exists(false)
            &&& a is Return ==> a->Return_path == r.path && q.stage == ResolveStage::Ready && (r.stage
                == ResolveStage::ProbingFile && e == AssetEventView::Exists(true) || r.stage
                == ResolveStage::Saving && e == AssetEventView::Done)
            &&& a is Return || a is Fail <==> !is_settled(r.stage) && is_settled(q.stage)
            &&& is_settled(r.stage) ==> q == r && a is Wait
        }),
{
}

/// Over any sequence of events a resolver asks for the network at most once.
pub proof fn law_at_most_one_request(cache_dir: Seq<char>, events: Seq<AssetEventView>)
    ensures
        requests(idle_resolver(cache_dir), events) <= 1,
        requests(idle_resolver(cache_dir), events) == 1 ==> resolved(
            idle_resolver(cache_dir),
            events,
        ).stage != ResolveStage::Idle,
{
    lemma_requests_by_stage(idle_resolver(cache_dir), events);
}

/// How far a resolver has come.
pub open spec fn resolve_rank(stage: ResolveStage) -> nat {
    match stage {
        ResolveStage::Idle => 0,
        ResolveStage::ProbingFile => 1,
        ResolveStage::ProbingDir => 2,
        ResolveStage::CreatingDir => 3,
        ResolveStage::Requesting => 4,
        ResolveStage::Saving => 5,
        ResolveStage::Ready => 6,
        ResolveStage::Unavailable => 6,
    }
}

/// A resolver that has not yet come to the requesting stage asks for the
/// network, over a sequence of events, once where it is at or past that stage
/// afterwards having passed through it, and never where it is before it.
pub proof fn lemma_requests_by_stage(r: ResolverView, events: Seq<AssetEventView>)
    requires
        resolve_rank(r.stage) < 4,
    ensures
        requests(r, events) <= 1,
        resolve_rank(resolved(r, events).stage) < 4 ==> requests(r, events) == 0,
        has_requested(resolved(r, events).stage) ==> requests(r, events) == 1,
        resolve_rank(resolved(r, events).stage) >= resolve_rank(r.stage),
    decreases events.len(),
{
    if events.len() > 0 {
        lemma_requests_by_stage(r, events.drop_last());
        lemma_request_step(resolved(r, events.drop_last()), events.last());
    }
}

/// The disk and the network as one call of the resolver meets them.
pub struct Surroundings {
    /// Whether the model file is there.
    pub file_there: bool,
    /// Whether the cache directory is there.
    pub dir_there: bool,
    /// Whether the cache directory can be made.
    pub dir_can_be_made: bool,
    /// The code and its reading with which the server answers, if it answers.
    pub response: Option<(u16, Seq<char>)>,
    /// Whether the body of the answer can be written out in full.
    pub body_can_be_saved: bool,
    /// Whether a body that could not be written out in full leaves a file behind.
    pub partial_file_stays: bool,
}

/// What the surroundings answer to an action, and what they are afterwards:
/// a probe finds what is there; a directory that is made is there
/// afterwards; a body that is saved in full leaves the file there.
pub open spec fn answer_of(w: Surroundings, a: AssetActionView) -> (Surroundings, AssetEventView) {
    match a {
        AssetActionView::ProbeFile { path } => (w, AssetEventView::Exists(w.file_there)),
        AssetActionView::ProbeDir { dir } => (w, AssetEventView::Exists(w.dir_there)),
        AssetActionView::CreateDir { dir } => if w.dir_can_be_made {
            (Surroundings { dir_there: true, ..w }, AssetEventView::Done)
        } else {
            (w, AssetEventView::Failed(JobErrorView::Filesystem { detail: Seq::empty() }))
        },
        AssetActionView::Request { url } => match w.response {
            Some((code, text)) => (w, AssetEventView::Response { code: code, text: text }),
            None => (w, AssetEventView::Failed(JobErrorView::Network { detail: Seq::empty() })),
        },
        AssetActionView::Save { path } => if w.body_can_be_saved {
            (Surroundings { file_there: true, ..w }, AssetEventView::Done)
        } else {
            (
                Surroundings { file_there: w.file_there || w.partial_file_stays, ..w },
                AssetEventView::Failed(JobErrorView::Network { detail: Seq::empty() }),
            )
        },
        _ => (w, AssetEventView::Begin),
    }
}

/// Whether an action ends a call of the resolver.
pub open spec fn ends_call(a: AssetActionView) -> bool {
    a is Return || a is Fail || a is Wait
}

/// A call of the resolver from the action `a` on, in at most `fuel` steps:
/// the surroundings afterwards, the number of times the network was asked,
/// and the action at which the call stopped.
pub open spec fn ensure_present_from(
    w: Surroundings,
    r: ResolverView,
    a: AssetActionView,
    fuel: nat,
) -> (Surroundings, nat, AssetActionView)
    decreases fuel,
{
    if fuel == 0 || ends_call(a) {
        (w, 0, a)
    } else {
        let (w2, e) = answer_of(w, a);
        let (r2, a2) = resolve_spec(r, e);
        let (w3, n, last) = ensure_present_from(w2, r2, a2, (fuel - 1) as nat);
        (
            w3,
            n + if a is Request {
                1nat
            } else {
                0nat
            },
            last,
        )
    }
}

/// One call of the resolver for a cache directory in given surroundings: the
/// surroundings afterwards, the number of times the network was asked, and
/// the action with which the call ended.
pub open spec fn ensure_present(w: Surroundings, cache_dir: Seq<char>) -> (
    Surroundings,
    nat,
    AssetActionView,
) {
    let (r, a) = resolve_spec(idle_resolver(cache_dir), AssetEventView::Begin);
    ensure_present_from(w, r, a, 6)
}

/// One call ends with the place of the model or with a failure, and asks
/// the network at most once, and not at all where the file is there. Where
/// it ends with the place, the file is there afterwards, the place is that
/// of the model file in the cache directory, and every later call, whatever
/// else has changed, is a cache hit: it gives the same place without asking
/// the network.
pub proof fn law_second_call_is_cache_hit(
    first: Surroundings,
    second: Surroundings,
    cache_dir: Seq<char>,
)
    ensures
        ({
            let (after, asked, ended) = ensure_present(first, cache_dir);
            &&& ended is Return || ended is Fail
            &&& asked <= 1
            &&& first.file_there ==> asked == 0 && ended is Return && after == first
            &&& ended is Return ==> after.file_there && ended->Return_path == joined(
                cache_dir,
                model_file_name(),
            )
            &&& ended is Return && second.file_there == after.file_there ==> ensure_present(
                second,
                cache_dir,
            ) == (second, 0nat, ended)
        }),
{
    reveal_with_fuel(ensure_present_from, 7);
}

} // verus!
