use vstd::prelude::*;
use crate::text::{same_text, parse_u64, u64_of, join_text};
use crate::selection::{
    RemoteFile, SelectionPlan, valid_subset, ids_of, picked_ids, plan_selection, chosen_ids,
    copy_files,
};

verus! {

/// How long the remote job may take to list its files, in milliseconds.
pub const FILES_TIMEOUT_MS: u64 = 60_000;
/// Pause between two polls for the file list, in milliseconds.
pub const FILES_POLL_MS: u64 = 1_000;
/// How long the remote job may take to finish, in milliseconds.
pub const COMPLETION_TIMEOUT_MS: u64 = 600_000;
/// Pause between two polls for completion, in milliseconds.
pub const COMPLETION_POLL_MS: u64 = 2_000;

/// What a remote status string means to the pipeline.
#[derive(Debug, Clone, Copy, PartialEq, Eq, Structural)]
pub enum RemoteState {
    WaitingFiles,
    Downloaded,
    Broken,
    Busy,
    Other,
}

pub open spec fn remote_state(s: Seq<char>) -> RemoteState {
    if s == "waiting_files_selection"@ {
        RemoteState::WaitingFiles
    } else if s == "downloaded"@ {
        RemoteState::Downloaded
    } else if s == "magnet_error"@ || s == "dead"@ || s == "error"@ {
        RemoteState::Broken
    } else if s == "downloading"@ || s == "queued"@ || s == "compressing"@ || s == "uploading"@ {
        RemoteState::Busy
    } else {
        RemoteState::Other
    }
}

pub fn classify_status(s: &str) -> (r: RemoteState)
    ensures
        r == remote_state(s@),
{
    if same_text(s, "waiting_files_selection") {
        RemoteState::WaitingFiles
    } else if same_text(s, "downloaded") {
        RemoteState::Downloaded
    } else if same_text(s, "magnet_error") || same_text(s, "dead") || same_text(s, "error") {
        RemoteState::Broken
    } else if same_text(s, "downloading") || same_text(s, "queued") || same_text(s, "compressing")
        || same_text(s, "uploading") {
        RemoteState::Busy
    } else {
        RemoteState::Other
    }
}

/// The part of a remote job's status report that the pipeline reads.
#[derive(Debug, Clone, PartialEq, Eq)]
pub struct RemoteInfo {
    pub status: String,
    pub files: Option<Vec<RemoteFile>>,
    pub links: Option<Vec<String>>,
}

/// A direct link, ready for a worker.
#[derive(Debug, Clone, PartialEq, Eq)]
pub struct ResolvedLink {
    pub filename: String,
    pub url: String,
    /// 0 where the size could not be learnt.
    pub size: u64,
}

#[derive(Debug, Clone, PartialEq, Eq)]
pub enum PipelineError {
    /// A remote call failed; its message.
    Remote(String),
    /// The remote job reported a broken status; that status.
    TorrentError(String),
    FilesTimeout,
    CompletionTimeout,
    NoFiles,
    /// The interactive choice was abandoned; why.
    SelectionCancelled(String),
    NoFilesSelected,
    NoLinks,
    NoLinksResolved,
    /// An event that the current phase does not wait for.
    UnexpectedEvent,
}

/// The line shown to the user for a failed run.
pub open spec fn message_of(e: PipelineError) -> Seq<char> {
    match e {
        PipelineError::Remote(m) => m@,
        PipelineError::TorrentError(s) => "Torrent error: "@ + s@,
        PipelineError::FilesTimeout => "Timeout waiting for file list"@,
        PipelineError::CompletionTimeout => "Timeout waiting for Real-Debrid to process"@,
        PipelineError::NoFiles => "No files in torrent"@,
        PipelineError::SelectionCancelled(m) => "Selection cancelled: "@ + m@,
        PipelineError::NoFilesSelected => "No files selected"@,
        PipelineError::NoLinks => "No links available"@,
        PipelineError::NoLinksResolved => "No download links obtained"@,
        PipelineError::UnexpectedEvent => "Unexpected reply from Real-Debrid"@,
    }
}

impl PipelineError {
    pub fn message(&self) -> (r: String)
        ensures
            r@ == message_of(*self),
    {
        match self {
            PipelineError::Remote(m) => m.clone(),
            PipelineError::TorrentError(s) => join_text("Torrent error: ", s.as_str()),
            PipelineError::FilesTimeout => String::from_str("Timeout waiting for file list"),
            PipelineError::CompletionTimeout => String::from_str("Timeout waiting for Real-Debrid to process"),
            PipelineError::NoFiles => String::from_str("No files in torrent"),
            PipelineError::SelectionCancelled(m) => join_text("Selection cancelled: ", m.as_str()),
            PipelineError::NoFilesSelected => String::from_str("No files selected"),
            PipelineError::NoLinks => String::from_str("No links available"),
            PipelineError::NoLinksResolved => String::from_str("No download links obtained"),
            PipelineError::UnexpectedEvent => String::from_str("Unexpected reply from Real-Debrid"),
        }
    }
}

#[derive(Debug, PartialEq, Eq)]
pub enum Phase {
    AddingMagnet,
    AwaitingFiles { torrent: String, since: u64 },
    ChoosingFiles { torrent: String, candidates: Vec<RemoteFile> },
    SelectingFiles { torrent: String },
    AwaitingCompletion { torrent: String, since: u64 },
    Resolving { torrent: String, links: Vec<String>, next: usize, resolved: Vec<ResolvedLink> },
    Probing {
        torrent: String,
        links: Vec<String>,
        next: usize,
        resolved: Vec<ResolvedLink>,
        filename: String,
        url: String,
    },
    CleaningUp { torrent: String, outcome: Result<Vec<ResolvedLink>, PipelineError> },
    Done(Result<Vec<ResolvedLink>, PipelineError>),
}

/// What the driver is asked to do next.
#[derive(Debug, Clone, PartialEq, Eq)]
pub enum Action {
    AddMagnet,
    FetchInfo(String),
    /// Wait `ms` milliseconds; `progress` asks for the remote telemetry to be shown.
    Sleep { ms: u64, progress: bool },
    AskUser(Vec<RemoteFile>),
    SelectFiles { torrent: String, ids: Vec<u32> },
    Unrestrict(String),
    ProbeSize(String),
    DeleteRemote(String),
    /// The pipeline is done; its outcome is in the phase.
    Stop,
}

/// What the driver reports back.
#[derive(Debug, PartialEq, Eq)]
pub enum Event {
    Added(Result<String, String>),
    Info(Result<RemoteInfo, String>),
    Woke,
    Chose(Result<Vec<usize>, String>),
    Selected(Result<(), String>),
    /// The file name and the direct URL, or why the link was refused.
    Unrestricted(Result<(String, String), String>),
    Sized(u64),
    Deleted,
}

/// Drives one magnet through the remote service.
pub struct Pipeline {
    phase: Phase,
}

pub open spec fn elapsed_over(since: u64, now: u64, limit: u64) -> bool {
    now >= since && now - since > limit
}

pub open spec fn finished(q: Phase, a: Action, out: Result<Vec<ResolvedLink>, PipelineError>) -> bool {
    q == Phase::Done(out) && a == Action::Stop
}

pub open spec fn selecting(t: String, ids: Seq<u32>, q: Phase, a: Action) -> bool {
    &&& q == (Phase::SelectingFiles { torrent: t })
    &&& a matches Action::SelectFiles { torrent, ids: v } && torrent == t && v@ == ids
}

/// The file list is in: pick as the filter says.
pub open spec fn files_ready(t: String, files: Seq<RemoteFile>, q: Phase, a: Action) -> bool {
    let valid = valid_subset(files);
    if valid.len() == 1 {
        selecting(t, seq![valid[0].id], q, a)
    } else if valid.len() == 0 {
        if files.len() == 0 {
            finished(q, a, Err(PipelineError::NoFiles))
        } else {
            selecting(t, ids_of(files), q, a)
        }
    } else {
        &&& q matches Phase::ChoosingFiles { torrent, candidates } && torrent == t && candidates@ == valid
        &&& a matches Action::AskUser(c) && c@ == valid
    }
}

/// Go on with link `k`, or clean up once every link has been tried.
pub open spec fn advanced(t: String, links: Vec<String>, k: int, res: Seq<ResolvedLink>, q: Phase, a: Action) -> bool {
    if k < links@.len() {
        &&& q matches Phase::Resolving { torrent, links: l, next, resolved }
            && torrent == t && l == links && next == k && resolved@ == res
        &&& a == Action::Unrestrict(links@[k])
    } else if res.len() == 0 {
        &&& q == (Phase::CleaningUp { torrent: t, outcome: Err(PipelineError::NoLinksResolved) })
        &&& a == Action::DeleteRemote(t)
    } else {
        &&& q matches Phase::CleaningUp { torrent, outcome: Ok(v) } && torrent == t && v@ == res
        &&& a == Action::DeleteRemote(t)
    }
}

/// One step of the pipeline: in phase `p`, at time `now`, `ev` leads to
/// phase `q` and action `a`.
pub open spec fn transition(p: Phase, now: u64, ev: Event, q: Phase, a: Action) -> bool {
    let unexpected = finished(q, a, Err(PipelineError::UnexpectedEvent));
    match p {
        Phase::AddingMagnet => match ev {
            Event::Added(Ok(t)) => q == (Phase::AwaitingFiles { torrent: t, since: now })
                && a == Action::FetchInfo(t),
            Event::Added(Err(e)) => finished(q, a, Err(PipelineError::Remote(e))),
            _ => unexpected,
        },
        Phase::AwaitingFiles { torrent: t, since } => match ev {
            Event::Info(Err(e)) => finished(q, a, Err(PipelineError::Remote(e))),
            Event::Info(Ok(info)) => {
                let st = remote_state(info.status@);
                if st == RemoteState::WaitingFiles && info.files is Some && info.files->0@.len() > 0 {
                    files_ready(t, info.files->0@, q, a)
                } else if st == RemoteState::Broken {
                    finished(q, a, Err(PipelineError::TorrentError(info.status)))
                } else {
                    q == p && a == (Action::Sleep { ms: FILES_POLL_MS, progress: false })
                }
            },
            Event::Woke => if elapsed_over(since, now, FILES_TIMEOUT_MS) {
                finished(q, a, Err(PipelineError::FilesTimeout))
            } else {
                q == p && a == Action::FetchInfo(t)
            },
            _ => unexpected,
        },
        Phase::ChoosingFiles { torrent: t, candidates } => match ev {
            Event::Chose(Ok(picks)) => {
                let ids = picked_ids(candidates@, picks@);
                if ids.len() == 0 {
                    q == (Phase::CleaningUp { torrent: t, outcome: Err(PipelineError::NoFilesSelected) })
                        && a == Action::DeleteRemote(t)
                } else {
                    selecting(t, ids, q, a)
                }
            },
            Event::Chose(Err(e)) => finished(q, a, Err(PipelineError::SelectionCancelled(e))),
            _ => unexpected,
        },
        Phase::SelectingFiles { torrent: t } => match ev {
            Event::Selected(Ok(_)) => q == (Phase::AwaitingCompletion { torrent: t, since: now })
                && a == Action::FetchInfo(t),
            Event::Selected(Err(e)) => finished(q, a, Err(PipelineError::Remote(e))),
            _ => unexpected,
        },
        Phase::AwaitingCompletion { torrent: t, since } => match ev {
            Event::Info(Err(e)) => finished(q, a, Err(PipelineError::Remote(e))),
            Event::Info(Ok(info)) => {
                let st = remote_state(info.status@);
                if st == RemoteState::Downloaded {
                    if info.links is Some && info.links->0@.len() > 0 {
                        advanced(t, info.links->0, 0, Seq::empty(), q, a)
                    } else {
                        finished(q, a, Err(PipelineError::NoLinks))
                    }
                } else if st == RemoteState::Broken {
                    finished(q, a, Err(PipelineError::TorrentError(info.status)))
                } else {
                    q == p && a == (Action::Sleep {
                        ms: COMPLETION_POLL_MS,
                        progress: st == RemoteState::Busy,
                    })
                }
            },
            Event::Woke => if elapsed_over(since, now, COMPLETION_TIMEOUT_MS) {
                finished(q, a, Err(PipelineError::CompletionTimeout))
            } else {
                q == p && a == Action::FetchInfo(t)
            },
            _ => unexpected,
        },
        Phase::Resolving { torrent: t, links, next, resolved } => match ev {
            Event::Unrestricted(Ok((f, u))) => q == (Phase::Probing {
                torrent: t,
                links,
                next,
                resolved,
                filename: f,
                url: u,
            }) && a == Action::ProbeSize(u),
            Event::Unrestricted(Err(_)) => advanced(t, links, next + 1, resolved@, q, a),
            _ => unexpected,
        },
        Phase::Probing { torrent: t, links, next, resolved, filename, url } => match ev {
            Event::Sized(n) => advanced(
                t,
                links,
                next + 1,
                resolved@.push(ResolvedLink { filename, url, size: n }),
                q,
                a,
            ),
            _ => unexpected,
        },
        Phase::CleaningUp { torrent: _, outcome } => match ev {
            Event::Deleted => finished(q, a, outcome),
            _ => unexpected,
        },
        Phase::Done(_) => q == p && a == Action::Stop,
    }
}

/// The size that a `content-length` header value gives; 0 where there is
/// none or it is no number.
pub fn size_from_header(value: Option<&str>) -> (r: u64)
    ensures
        r == match value {
            Some(v) => match u64_of(v@) {
                Some(n) => n,
                None => 0,
            },
            None => 0,
        },
{
    match value {
        Some(v) => match parse_u64(v) {
            Some(n) => n,
            None => 0,
        },
        None => 0,
    }
}

/// Positions stay inside the link list.
pub open spec fn phase_ok(p: Phase) -> bool {
    match p {
        Phase::Resolving { links, next, .. } => next < links@.len(),
        Phase::Probing { links, next, .. } => next < links@.len(),
        _ => true,
    }
}

/// A poll while waiting for completion that neither ends nor breaks the remote job.
pub open spec fn quiet_poll(ev: Event) -> bool {
    ||| ev is Woke
    ||| ev matches Event::Info(Ok(info)) && remote_state(info.status@) != RemoteState::Downloaded
        && remote_state(info.status@) != RemoteState::Broken
}

/// A run of steps from `phases[0]`: event `events[i]`, reported at `nows[i]`,
/// takes `phases[i]` to `phases[i + 1]` with action `actions[i]`.
pub open spec fn is_run(phases: Seq<Phase>, nows: Seq<u64>, events: Seq<Event>, actions: Seq<Action>) -> bool {
    &&& phases.len() == events.len() + 1
    &&& nows.len() == events.len()
    &&& actions.len() == events.len()
    &&& forall|i: int| 0 <= i < events.len() ==> #[trigger] transition(phases[i], nows[i], events[i], phases[i + 1], actions[i])
}

proof fn lemma_waiting_or_timed_out(
    torrent: String,
    since: u64,
    phases: Seq<Phase>,
    nows: Seq<u64>,
    events: Seq<Event>,
    actions: Seq<Action>,
    k: int,
)
    requires
        is_run(phases, nows, events, actions),
        phases[0] == (Phase::AwaitingCompletion { torrent, since }),
        forall|i: int| 0 <= i < events.len() ==> quiet_poll(#[trigger] events[i]),
        0 <= k < phases.len(),
    ensures
        phases[k] == (Phase::AwaitingCompletion { torrent, since })
            || phases[k] == Phase::Done(Err(PipelineError::CompletionTimeout)),
    decreases k,
{
    if k > 0 {
        lemma_waiting_or_timed_out(torrent, since, phases, nows, events, actions, k - 1);
        let j = k - 1;
        assert(transition(phases[j], nows[j], events[j], phases[j + 1], actions[j]));
        assert(quiet_poll(events[j]));
    }
}

/// While the remote job never reaches a final status, waiting for completion
/// resolves no link, and it ends in a timeout at the first wake-up that comes
/// more than ten minutes after the wait began.
pub proof fn lemma_completion_timeout(
    torrent: String,
    since: u64,
    phases: Seq<Phase>,
    nows: Seq<u64>,
    events: Seq<Event>,
    actions: Seq<Action>,
)
    requires
        is_run(phases, nows, events, actions),
        phases[0] == (Phase::AwaitingCompletion { torrent, since }),
        forall|i: int| 0 <= i < events.len() ==> quiet_poll(#[trigger] events[i]),
    ensures
        forall|i: int| 0 <= i < actions.len() ==>
            !(#[trigger] actions[i] is Unrestrict) && !(actions[i] is ProbeSize),
        forall|i: int| 0 <= i < events.len() && #[trigger] events[i] is Woke
            && elapsed_over(since, nows[i], COMPLETION_TIMEOUT_MS)
            ==> phases[i + 1] == Phase::Done(Err(PipelineError::CompletionTimeout)),
        forall|i: int| 0 <= i < phases.len() ==>
            #[trigger] phases[i] == (Phase::AwaitingCompletion { torrent, since })
            || phases[i] == Phase::Done(Err(PipelineError::CompletionTimeout)),
{
    assert forall|i: int| 0 <= i < phases.len() implies
        #[trigger] phases[i] == (Phase::AwaitingCompletion { torrent, since })
        || phases[i] == Phase::Done(Err(PipelineError::CompletionTimeout)) by {
        lemma_waiting_or_timed_out(torrent, since, phases, nows, events, actions, i);
    }
    assert forall|i: int| 0 <= i < actions.len() implies
        !(#[trigger] actions[i] is Unrestrict) && !(actions[i] is ProbeSize) by {
        lemma_waiting_or_timed_out(torrent, since, phases, nows, events, actions, i);
        assert(transition(phases[i], nows[i], events[i], phases[i + 1], actions[i]));
        assert(quiet_poll(events[i]));
    }
    assert forall|i: int| 0 <= i < events.len() && #[trigger] events[i] is Woke
        && elapsed_over(since, nows[i], COMPLETION_TIMEOUT_MS) implies
        phases[i + 1] == Phase::Done(Err(PipelineError::CompletionTimeout)) by {
        lemma_waiting_or_timed_out(torrent, since, phases, nows, events, actions, i);
        assert(transition(phases[i], nows[i], events[i], phases[i + 1], actions[i]));
    }
}

fn done(out: Result<Vec<ResolvedLink>, PipelineError>) -> (r: (Pipeline, Action))
    ensures
        finished(r.0.phase, r.1, out),
{
    (Pipeline { phase: Phase::Done(out) }, Action::Stop)
}

fn advance(t: String, links: Vec<String>, k: usize, resolved: Vec<ResolvedLink>) -> (r: (Pipeline, Action))
    requires
        k <= links@.len(),
    ensures
        advanced(t, links, k as int, resolved@, r.0.phase, r.1),
        phase_ok(r.0.phase),
{
    if k < links.len() {
        let link = links[k].clone();
        (Pipeline { phase: Phase::Resolving { torrent: t, links, next: k, resolved } }, Action::Unrestrict(link))
    } else if resolved.len() == 0 {
        let tc = t.clone();
        (
            Pipeline { phase: Phase::CleaningUp { torrent: t, outcome: Err(PipelineError::NoLinksResolved) } },
            Action::DeleteRemote(tc),
        )
    } else {
        let tc = t.clone();
        (Pipeline { phase: Phase::CleaningUp { torrent: t, outcome: Ok(resolved) } }, Action::DeleteRemote(tc))
    }
}

fn files_listed(t: String, files: &Vec<RemoteFile>) -> (r: (Pipeline, Action))
    ensures
        files_ready(t, files@, r.0.phase, r.1),
        phase_ok(r.0.phase),
{
    match plan_selection(files) {
        SelectionPlan::Single(id) => {
            let tc = t.clone();
            let mut ids: Vec<u32> = Vec::new();
            ids.push(id);
            assert(ids@ == seq![id]);
            (Pipeline { phase: Phase::SelectingFiles { torrent: t } }, Action::SelectFiles { torrent: tc, ids })
        },
        SelectionPlan::All(ids) => {
            let tc = t.clone();
            (Pipeline { phase: Phase::SelectingFiles { torrent: t } }, Action::SelectFiles { torrent: tc, ids })
        },
        SelectionPlan::Ask(valid) => {
            let shown = copy_files(&valid);
            (Pipeline { phase: Phase::ChoosingFiles { torrent: t, candidates: valid } }, Action::AskUser(shown))
        },
        SelectionPlan::NoFiles => done(Err(PipelineError::NoFiles)),
    }
}

impl Pipeline {
    pub closed spec fn view_phase(&self) -> Phase {
        self.phase
    }

    pub open spec fn wf(&self) -> bool {
        phase_ok(self.view_phase())
    }

    /// A fresh pipeline and its first action: submit the magnet.
    pub fn start() -> (r: (Pipeline, Action))
        ensures
            r.0.view_phase() == Phase::AddingMagnet,
            r.0.wf(),
            r.1 == Action::AddMagnet,
    {
        (Pipeline { phase: Phase::AddingMagnet }, Action::AddMagnet)
    }

    pub fn phase(&self) -> (r: &Phase)
        ensures
            *r == self.view_phase(),
    {
        &self.phase
    }

    /// The outcome, once the pipeline is done.
    pub fn outcome(self) -> (r: Option<Result<Vec<ResolvedLink>, PipelineError>>)
        ensures
            self.view_phase() matches Phase::Done(o) ==> r == Some(o),
            !(self.view_phase() is Done) ==> r is None,
    {
        match self.phase {
            Phase::Done(o) => Some(o),
            _ => None,
        }
    }

    /// Takes the event `ev`, reported at time `now` (milliseconds, never going
    /// back), to the next phase and action.
    pub fn step(self, now: u64, ev: Event) -> (r: (Pipeline, Action))
        requires
            self.wf(),
        ensures
            transition(self.view_phase(), now, ev, r.0.view_phase(), r.1),
            r.0.wf(),
    {
        match self.phase {
            Phase::AddingMagnet => match ev {
                Event::Added(Ok(t)) => {
                    let tc = t.clone();
                    (Pipeline { phase: Phase::AwaitingFiles { torrent: t, since: now } }, Action::FetchInfo(tc))
                },
                Event::Added(Err(e)) => done(Err(PipelineError::Remote(e))),
                _ => done(Err(PipelineError::UnexpectedEvent)),
            },
            Phase::AwaitingFiles { torrent: t, since } => match ev {
                Event::Info(Err(e)) => done(Err(PipelineError::Remote(e))),
                Event::Info(Ok(info)) => {
                    let st = classify_status(info.status.as_str());
                    if st == RemoteState::WaitingFiles && info.files.is_some() {
                        let files = info.files.unwrap();
                        if files.len() > 0 {
                            return files_listed(t, &files);
                        }
                        (Pipeline { phase: Phase::AwaitingFiles { torrent: t, since } },
                            Action::Sleep { ms: FILES_POLL_MS, progress: false })
                    } else if st == RemoteState::Broken {
                        done(Err(PipelineError::TorrentError(info.status)))
                    } else {
                        (Pipeline { phase: Phase::AwaitingFiles { torrent: t, since } },
                            Action::Sleep { ms: FILES_POLL_MS, progress: false })
                    }
                },
                Event::Woke => {
                    if now >= since && now - since > FILES_TIMEOUT_MS {
                        done(Err(PipelineError::FilesTimeout))
                    } else {
                        let tc = t.clone();
                        (Pipeline { phase: Phase::AwaitingFiles { torrent: t, since } }, Action::FetchInfo(tc))
                    }
                },
                _ => done(Err(PipelineError::UnexpectedEvent)),
            },
            Phase::ChoosingFiles { torrent: t, candidates } => match ev {
                Event::Chose(Ok(picks)) => {
                    let ids = chosen_ids(&candidates, &picks);
                    let tc = t.clone();
                    if ids.len() == 0 {
                        (Pipeline { phase: Phase::CleaningUp { torrent: t, outcome: Err(PipelineError::NoFilesSelected) } },
                            Action::DeleteRemote(tc))
                    } else {
                        (Pipeline { phase: Phase::SelectingFiles { torrent: t } }, Action::SelectFiles { torrent: tc, ids })
                    }
                },
                Event::Chose(Err(e)) => done(Err(PipelineError::SelectionCancelled(e))),
                _ => done(Err(PipelineError::UnexpectedEvent)),
            },
            Phase::SelectingFiles { torrent: t } => match ev {
                Event::Selected(Ok(_)) => {
                    let tc = t.clone();
                    (Pipeline { phase: Phase::AwaitingCompletion { torrent: t, since: now } }, Action::FetchInfo(tc))
                },
                Event::Selected(Err(e)) => done(Err(PipelineError::Remote(e))),
                _ => done(Err(PipelineError::UnexpectedEvent)),
            },
            Phase::AwaitingCompletion { torrent: t, since } => match ev {
                Event::Info(Err(e)) => done(Err(PipelineError::Remote(e))),
                Event::Info(Ok(info)) => {
                    let st = classify_status(info.status.as_str());
                    if st == RemoteState::Downloaded {
                        match info.links {
                            Some(links) => {
                                if links.len() > 0 {
                                    advance(t, links, 0, Vec::new())
                                } else {
                                    done(Err(PipelineError::NoLinks))
                                }
                            },
                            None => done(Err(PipelineError::NoLinks)),
                        }
                    } else if st == RemoteState::Broken {
                        done(Err(PipelineError::TorrentError(info.status)))
                    } else {
                        (Pipeline { phase: Phase::AwaitingCompletion { torrent: t, since } },
                            Action::Sleep { ms: COMPLETION_POLL_MS, progress: st == RemoteState::Busy })
                    }
                },
                Event::Woke => {
                    if now >= since && now - since > COMPLETION_TIMEOUT_MS {
                        done(Err(PipelineError::CompletionTimeout))
                    } else {
                        let tc = t.clone();
                        (Pipeline { phase: Phase::AwaitingCompletion { torrent: t, since } }, Action::FetchInfo(tc))
                    }
                },
                _ => done(Err(PipelineError::UnexpectedEvent)),
            },
            Phase::Resolving { torrent: t, links, next, resolved } => match ev {
                Event::Unrestricted(Ok((f, u))) => {
                    let uc = u.clone();
                    (Pipeline { phase: Phase::Probing { torrent: t, links, next, resolved, filename: f, url: u } },
                        Action::ProbeSize(uc))
                },
                Event::Unrestricted(Err(_)) => {
                    let len = links.len();
                    assert(next < len);
                    advance(t, links, next + 1, resolved)
                },
                _ => done(Err(PipelineError::UnexpectedEvent)),
            },
            Phase::Probing { torrent: t, links, next, resolved, filename, url } => match ev {
                Event::Sized(n) => {
                    let len = links.len();
                    assert(next < len);
                    let mut resolved = resolved;
                    resolved.push(ResolvedLink { filename, url, size: n });
                    advance(t, links, next + 1, resolved)
                },
                _ => done(Err(PipelineError::UnexpectedEvent)),
            },
            Phase::CleaningUp { torrent: _, outcome } => match ev {
                Event::Deleted => done(outcome),
                _ => done(Err(PipelineError::UnexpectedEvent)),
            },
            Phase::Done(o) => (Pipeline { phase: Phase::Done(o) }, Action::Stop),
        }
    }
}

} // verus!
