use vstd::prelude::*;
use crate::job::{Download, DownloadStatus, is_terminal, pid_consistent, allowed_step};
use crate::text::{trimmed_of, usize_of, trim_text, parse_usize};
use crate::worker::{cancel_seen, TransferEnd, conclude_spec};
use crate::store::{join_path, joined_path};

verus! {

/// The reason recorded for a worker that vanished mid-transfer.
pub open spec fn died_reason() -> Seq<char> {
    "process died"@
}

/// A job that is downloading and names its worker.
pub open spec fn needs_probe(d: Download) -> bool {
    d.status is Downloading && d.pid is Some
}

/// `s` is the status a downloading job `d` is repaired to once its worker is
/// gone: completed where every byte of a known size arrived, else failed.
pub open spec fn is_repaired_status(d: Download, s: DownloadStatus) -> bool {
    if d.downloaded_bytes >= d.total_bytes && d.total_bytes > 0 {
        s == DownloadStatus::Completed
    } else {
        s matches DownloadStatus::Failed(reason) && reason@ == died_reason()
    }
}

/// A command typed at the dashboard's prompt.
#[derive(Debug, Clone, Copy, PartialEq, Eq, Structural)]
pub enum Command {
    /// Nothing but white space.
    Empty,
    Quit,
    /// Remove every finished job.
    Clear,
    /// Cancel the job at this position, counted from 0.
    Cancel(usize),
    /// Remove the job at this position, counted from 0.
    Remove(usize),
    /// A cancel or remove command without a valid job number: nothing happens.
    Ignored,
    Unknown,
}

/// What the dashboard does to the job at a cancel command.
#[derive(Debug, Clone, PartialEq, Eq)]
pub enum CancelOutcome {
    /// The job was not downloading: nothing changed.
    Unchanged,
    /// The job is now cancelled: the worker to be signalled, if one was
    /// recorded, and the partial file to be removed.
    Cancelled { signal: Option<u32>, partial_file: String },
}

/// The command that the trimmed input `t` stands for, with `count` jobs shown.
pub open spec fn command_of(t: Seq<char>, count: usize) -> Command {
    if t.len() == 0 {
        Command::Empty
    } else if t[0] == 'q' || t[0] == 'Q' {
        Command::Quit
    } else if t[0] == 'C' {
        Command::Clear
    } else if t[0] == 'c' || t[0] == 'r' {
        match usize_of(trimmed_of(t.subrange(1, t.len() as int))) {
            Some(n) => if 0 < n && n <= count {
                if t[0] == 'c' { Command::Cancel((n - 1) as usize) } else { Command::Remove((n - 1) as usize) }
            } else {
                Command::Ignored
            },
            None => Command::Ignored,
        }
    } else {
        Command::Unknown
    }
}

impl Download {
    /// The worker to probe for liveness, where the job claims one.
    pub fn probe_target(&self) -> (r: Option<u32>)
        ensures
            r == if needs_probe(*self) { self.pid } else { None },
    {
        if self.status.is_downloading() { self.pid } else { None }
    }

    /// Reconciles the job with what a liveness probe found: a downloading job
    /// whose worker is gone is settled as completed where every byte arrived,
    /// else as failed. Returns whether the record changed and is to be saved.
    pub fn reconcile(&mut self, alive: bool) -> (changed: bool)
        ensures
            changed == (needs_probe(*old(self)) && !alive),
            changed ==> *final(self) == (Download { status: final(self).status, pid: None, ..*old(self) }),
            changed ==> is_repaired_status(*old(self), final(self).status),
            !changed ==> *final(self) == *old(self),
            changed ==> pid_consistent(*final(self)),
            allowed_step(old(self).status, final(self).status),
    {
        if self.status.is_downloading() && self.pid.is_some() && !alive {
            if self.downloaded_bytes >= self.total_bytes && self.total_bytes > 0 {
                self.status = DownloadStatus::Completed;
            } else {
                let reason = String::from_str("process died");
                proof {
                    reveal_strlit("process died");
                }
                self.status = DownloadStatus::Failed(reason);
            }
            self.pid = None;
            true
        } else {
            false
        }
    }

    /// Where the job's file is written: its file name in its target directory.
    pub fn target_path(&self) -> (r: String)
        ensures
            r@ == joined_path(self.target_dir@, self.filename@),
    {
        join_path(self.target_dir.as_str(), self.filename.as_str())
    }

    /// The dashboard's cancel: a downloading job becomes cancelled and loses
    /// its worker id, which is handed back to be signalled together with the
    /// partial file to remove; any other job is left as it is.
    pub fn request_cancel(&mut self) -> (r: CancelOutcome)
        ensures
            old(self).status is Downloading ==> (r matches CancelOutcome::Cancelled { signal, partial_file }
                && signal == old(self).pid
                && partial_file@ == joined_path(old(self).target_dir@, old(self).filename@))
                && *final(self) == (Download { status: DownloadStatus::Cancelled, pid: None, ..*old(self) }),
            !(old(self).status is Downloading) ==> r == CancelOutcome::Unchanged && *final(self) == *old(self),
            pid_consistent(*old(self)) ==> pid_consistent(*final(self)),
            allowed_step(old(self).status, final(self).status),
    {
        if self.status.is_downloading() {
            let pid = self.pid;
            let partial_file = self.target_path();
            self.status = DownloadStatus::Cancelled;
            self.pid = None;
            CancelOutcome::Cancelled { signal: pid, partial_file }
        } else {
            CancelOutcome::Unchanged
        }
    }
}

/// A dashboard cancel reaches the worker through the record alone: once the
/// cancelled record `cancelled` is stored, the worker's next snapshot sees it
/// and stops, and the job it then concludes as cancelled holds no worker id
/// and no speed (`conclude` asks for the partial file's removal exactly then).
pub proof fn lemma_cancel_stops_worker(before: Download, cancelled: Download, job: Download, after: Download)
    requires
        before.status is Downloading,
        cancelled == (Download { status: DownloadStatus::Cancelled, pid: None, ..before }),
        conclude_spec(job, TransferEnd::Cancelled, after),
    ensures
        cancel_seen(Some(cancelled)),
        after.status is Cancelled,
        after.pid is None,
        after.speed == 0,
{
}

/// Reads a line typed at the prompt, with `count` jobs on display.
pub fn parse_command(line: &str, count: usize) -> (r: Command)
    ensures
        r == command_of(trimmed_of(line@), count),
{
    let t = trim_text(line);
    let n = t.unicode_len();
    if n == 0 {
        return Command::Empty;
    }
    let first = t.get_char(0);
    if first == 'q' || first == 'Q' {
        Command::Quit
    } else if first == 'C' {
        Command::Clear
    } else if first == 'c' || first == 'r' {
        let rest = trim_text(t.substring_char(1, n));
        match parse_usize(rest) {
            Some(k) => {
                if 0 < k && k <= count {
                    if first == 'c' { Command::Cancel(k - 1) } else { Command::Remove(k - 1) }
                } else {
                    Command::Ignored
                }
            },
            None => Command::Ignored,
        }
    } else {
        Command::Unknown
    }
}

/// Width of the dashboard's progress bar, in characters.
pub const BAR_WIDTH: u64 = 40;

/// Whole percent of `total` that `done` makes, capped at 255; 0 while the
/// size is unknown.
pub open spec fn percent_of(done: u64, total: u64) -> nat {
    if total == 0 {
        0
    } else {
        let p = (done as nat * 100) / (total as nat);
        if p > 255 { 255 } else { p }
    }
}

/// How many of the bar's `BAR_WIDTH` cells `done` out of `total` fills.
pub open spec fn filled_cells(done: u64, total: u64) -> nat {
    if total == 0 {
        0
    } else {
        let f = (done as nat * BAR_WIDTH as nat) / (total as nat);
        if f > BAR_WIDTH { BAR_WIDTH as nat } else { f }
    }
}

pub fn progress_percent(done: u64, total: u64) -> (r: u8)
    ensures
        r as nat == percent_of(done, total),
{
    if total == 0 {
        return 0;
    }
    let p: u128 = (done as u128 * 100) / total as u128;
    if p > 255 { 255 } else { p as u8 }
}

pub fn bar_fill(done: u64, total: u64) -> (r: u64)
    ensures
        r as nat == filled_cells(done, total),
        r <= BAR_WIDTH,
{
    if total == 0 {
        return 0;
    }
    let f: u128 = (done as u128 * 40) / total as u128;
    if f > BAR_WIDTH as u128 { BAR_WIDTH } else { f as u64 }
}

/// The ids of the finished jobs, which a clear removes, in their order.
pub open spec fn finished_ids(jobs: Seq<Download>) -> Seq<String>
    decreases jobs.len(),
{
    if jobs.len() == 0 {
        Seq::empty()
    } else {
        let rest = finished_ids(jobs.drop_last());
        if is_terminal(jobs.last().status) { rest.push(jobs.last().id) } else { rest }
    }
}

pub fn clear_targets(jobs: &Vec<Download>) -> (r: Vec<String>)
    ensures
        r@ == finished_ids(jobs@),
{
    let mut r: Vec<String> = Vec::new();
    let mut i: usize = 0;
    while i < jobs.len()
        invariant
            i <= jobs@.len(),
            r@ == finished_ids(jobs@.subrange(0, i as int)),
        decreases jobs@.len() - i,
    {
        proof {
            assert(jobs@.subrange(0, i + 1).drop_last() == jobs@.subrange(0, i as int));
        }
        if jobs[i].status.is_finished() {
            r.push(jobs[i].id.clone());
        }
        i = i + 1;
    }
    assert(jobs@.subrange(0, jobs@.len() as int) == jobs@);
    r
}

} // verus!
