use vstd::prelude::*;
use crate::text::{decimal, decimal_text, join_text};

verus! {

/// Where a job stands in its life.
#[derive(Debug, Clone, PartialEq, Eq)]
pub enum DownloadStatus {
    Pending,
    Downloading,
    Completed,
    Failed(String),
    Cancelled,
}

/// One transfer, as it is persisted: the record shared by the spawning
/// process, the worker and the dashboard.
#[derive(Debug, Clone, PartialEq, Eq)]
pub struct Download {
    pub id: String,
    pub filename: String,
    pub url: String,
    pub target_dir: String,
    /// Size of the file in bytes; 0 while unknown.
    pub total_bytes: u64,
    pub downloaded_bytes: u64,
    /// Throughput in bytes per second; meaningful only while downloading.
    pub speed: u64,
    pub status: DownloadStatus,
    /// Creation time, seconds since the epoch.
    pub started_at: u64,
    pub pid: Option<u32>,
}

/// Pending comes first, Downloading second, the terminal states last.
pub open spec fn status_rank(s: DownloadStatus) -> nat {
    match s {
        DownloadStatus::Pending => 0,
        DownloadStatus::Downloading => 1,
        _ => 2,
    }
}

pub open spec fn is_terminal(s: DownloadStatus) -> bool {
    status_rank(s) == 2
}

/// A status change that the life cycle allows: none, or a move forward out of
/// a state that is not terminal.
pub open spec fn allowed_step(a: DownloadStatus, b: DownloadStatus) -> bool {
    a == b || (!is_terminal(a) && status_rank(a) < status_rank(b))
}

/// A process id is recorded exactly while the job is downloading.
pub open spec fn pid_consistent(d: Download) -> bool {
    d.pid.is_some() <==> d.status is Downloading
}

/// Once the size is known, no more bytes are counted than it holds.
pub open spec fn counters_consistent(d: Download) -> bool {
    d.total_bytes > 0 ==> d.downloaded_bytes <= d.total_bytes
}

proof fn lemma_history_from(h: Seq<DownloadStatus>, i: int, j: int)
    requires
        forall|k: int| 0 <= k < h.len() - 1 ==> #[trigger] allowed_step(h[k], h[k + 1]),
        0 <= i <= j < h.len(),
    ensures
        status_rank(h[i]) <= status_rank(h[j]),
        is_terminal(h[i]) ==> h[j] == h[i],
    decreases j - i,
{
    if i < j {
        lemma_history_from(h, i, j - 1);
        let k = j - 1;
        assert(allowed_step(h[k], h[k + 1]));
    }
}

/// A status history in which every change is one that the life cycle allows
/// never goes back: the rank only grows, and a terminal status, once reached,
/// is the last one.
pub proof fn lemma_history_monotone(h: Seq<DownloadStatus>)
    requires
        forall|k: int| 0 <= k < h.len() - 1 ==> #[trigger] allowed_step(h[k], h[k + 1]),
    ensures
        forall|i: int, j: int| 0 <= i <= j < h.len() ==> status_rank(#[trigger] h[i]) <= status_rank(#[trigger] h[j]),
        forall|i: int, j: int| 0 <= i <= j < h.len() && is_terminal(#[trigger] h[i]) ==> #[trigger] h[j] == h[i],
{
    assert forall|i: int, j: int| 0 <= i <= j < h.len() implies
        status_rank(#[trigger] h[i]) <= status_rank(#[trigger] h[j]) && (is_terminal(h[i]) ==> h[j] == h[i]) by {
        lemma_history_from(h, i, j);
    }
}

/// The first `k` characters of `s`, or all of it where it is shorter.
pub open spec fn prefix_upto(s: Seq<char>, k: nat) -> Seq<char> {
    if s.len() <= k { s } else { s.subrange(0, k as int) }
}

/// A job id: the creation time in milliseconds, a dash, and the first ten
/// characters of the file name.
pub open spec fn job_id_spec(millis: u64, filename: Seq<char>) -> Seq<char> {
    decimal(millis as nat) + seq!['-'] + prefix_upto(filename, 10)
}

pub fn make_job_id(millis: u64, filename: &str) -> (r: String)
    ensures
        r@ == job_id_spec(millis, filename@),
{
    let n = filename.unicode_len();
    let k: usize = if n < 10 { n } else { 10 };
    let head = filename.substring_char(0, k);
    proof {
        if n < 10 {
            assert(filename@.subrange(0, k as int) == filename@);
        }
    }
    let stamp = decimal_text(millis);
    let dashed = join_text(stamp.as_str(), "-");
    proof {
        reveal_strlit("-");
    }
    let r = join_text(dashed.as_str(), head);
    proof {
        assert(r@ == job_id_spec(millis, filename@));
    }
    r
}

impl DownloadStatus {
    pub fn duplicate(&self) -> (r: DownloadStatus)
        ensures
            r == *self,
    {
        match self {
            DownloadStatus::Pending => DownloadStatus::Pending,
            DownloadStatus::Downloading => DownloadStatus::Downloading,
            DownloadStatus::Completed => DownloadStatus::Completed,
            DownloadStatus::Failed(reason) => DownloadStatus::Failed(reason.clone()),
            DownloadStatus::Cancelled => DownloadStatus::Cancelled,
        }
    }

    pub fn is_downloading(&self) -> (r: bool)
        ensures
            r == (*self is Downloading),
    {
        match self {
            DownloadStatus::Downloading => true,
            _ => false,
        }
    }

    pub fn is_cancelled(&self) -> (r: bool)
        ensures
            r == (*self is Cancelled),
    {
        match self {
            DownloadStatus::Cancelled => true,
            _ => false,
        }
    }

    /// Completed, Failed or Cancelled.
    pub fn is_finished(&self) -> (r: bool)
        ensures
            r == is_terminal(*self),
    {
        match self {
            DownloadStatus::Pending => false,
            DownloadStatus::Downloading => false,
            _ => true,
        }
    }
}

impl Download {
    /// A fresh job, waiting for its worker.
    pub fn new(
        id: String,
        filename: String,
        url: String,
        target_dir: String,
        total_bytes: u64,
        started_at: u64,
    ) -> (r: Download)
        ensures
            r.id == id,
            r.filename == filename,
            r.url == url,
            r.target_dir == target_dir,
            r.total_bytes == total_bytes,
            r.downloaded_bytes == 0,
            r.speed == 0,
            r.status == DownloadStatus::Pending,
            r.started_at == started_at,
            r.pid.is_none(),
            pid_consistent(r),
            counters_consistent(r),
    {
        Download {
            id,
            filename,
            url,
            target_dir,
            total_bytes,
            downloaded_bytes: 0,
            speed: 0,
            status: DownloadStatus::Pending,
            started_at,
            pid: None,
        }
    }

    pub fn duplicate(&self) -> (r: Download)
        ensures
            r == *self,
    {
        Download {
            id: self.id.clone(),
            filename: self.filename.clone(),
            url: self.url.clone(),
            target_dir: self.target_dir.clone(),
            total_bytes: self.total_bytes,
            downloaded_bytes: self.downloaded_bytes,
            speed: self.speed,
            status: self.status.duplicate(),
            started_at: self.started_at,
            pid: self.pid,
        }
    }

    /// The record as the spawning process saves it once the worker `child` runs.
    pub fn spawned(&self, child: u32) -> (r: Download)
        ensures
            r == (Download { status: DownloadStatus::Downloading, pid: Some(child), ..*self }),
            pid_consistent(r),
            allowed_step(self.status, r.status) <== !is_terminal(self.status),
    {
        let mut r = self.duplicate();
        r.status = DownloadStatus::Downloading;
        r.pid = Some(child);
        r
    }

    /// The worker takes the job over: it is downloading, under the worker's
    /// id. A job that has already ended is left alone, and `false` tells the
    /// worker to stop.
    pub fn begin(&mut self, own_pid: u32) -> (r: bool)
        ensures
            r == !is_terminal(old(self).status),
            r ==> *final(self) == (Download { status: DownloadStatus::Downloading, pid: Some(own_pid), ..*old(self) }),
            !r ==> *final(self) == *old(self),
            r ==> pid_consistent(*final(self)),
            allowed_step(old(self).status, final(self).status),
    {
        if self.status.is_finished() {
            return false;
        }
        self.status = DownloadStatus::Downloading;
        self.pid = Some(own_pid);
        true
    }

    /// A progress snapshot: counters and throughput, nothing else.
    pub fn record_progress(&mut self, downloaded: u64, total: u64, speed: u64)
        ensures
            *final(self) == (Download { downloaded_bytes: downloaded, total_bytes: total, speed, ..*old(self) }),
            pid_consistent(*old(self)) ==> pid_consistent(*final(self)),
            (total == 0 || downloaded <= total) ==> counters_consistent(*final(self)),
    {
        self.downloaded_bytes = downloaded;
        self.total_bytes = total;
        self.speed = speed;
    }

    /// The transfer ran to its end.
    pub fn mark_completed(&mut self)
        ensures
            *final(self) == (Download {
                status: DownloadStatus::Completed,
                downloaded_bytes: old(self).total_bytes,
                speed: 0,
                pid: None,
                ..*old(self)
            }),
            pid_consistent(*final(self)),
            counters_consistent(*final(self)),
            !is_terminal(old(self).status) ==> allowed_step(old(self).status, final(self).status),
    {
        self.status = DownloadStatus::Completed;
        self.downloaded_bytes = self.total_bytes;
        self.speed = 0;
        self.pid = None;
    }

    /// The transfer broke off for `reason`.
    pub fn mark_failed(&mut self, reason: String)
        ensures
            *final(self) == (Download { status: DownloadStatus::Failed(reason), speed: 0, pid: None, ..*old(self) }),
            pid_consistent(*final(self)),
            counters_consistent(*old(self)) ==> counters_consistent(*final(self)),
            !is_terminal(old(self).status) ==> allowed_step(old(self).status, final(self).status),
    {
        self.status = DownloadStatus::Failed(reason);
        self.speed = 0;
        self.pid = None;
    }

    /// The transfer was called off.
    pub fn mark_cancelled(&mut self)
        ensures
            *final(self) == (Download { status: DownloadStatus::Cancelled, speed: 0, pid: None, ..*old(self) }),
            pid_consistent(*final(self)),
            counters_consistent(*old(self)) ==> counters_consistent(*final(self)),
            !is_terminal(old(self).status) ==> allowed_step(old(self).status, final(self).status),
    {
        self.status = DownloadStatus::Cancelled;
        self.speed = 0;
        self.pid = None;
    }
}

} // verus!
