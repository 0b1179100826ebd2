use vstd::prelude::*;
use crate::job::{Download, DownloadStatus, pid_consistent, counters_consistent, is_terminal, allowed_step};

verus! {

/// Longest time, in milliseconds, between two progress snapshots.
pub const CHECKPOINT_MS: u64 = 500;

/// Bytes per second for `bytes` moved in `elapsed_ms` milliseconds, capped at
/// the largest `u64`.
pub open spec fn throughput(bytes: u64, elapsed_ms: u64) -> nat {
    let s = (bytes as nat * 1000) / (elapsed_ms as nat);
    if s > u64::MAX { u64::MAX as nat } else { s }
}

pub fn speed_estimate(bytes: u64, elapsed_ms: u64) -> (r: u64)
    requires
        elapsed_ms > 0,
    ensures
        r as nat == throughput(bytes, elapsed_ms),
{
    let s: u128 = (bytes as u128 * 1000) / (elapsed_ms as u128);
    if s > u64::MAX as u128 { u64::MAX } else { s as u64 }
}

/// The size to record for a transfer: what the response announces, else what
/// the job already held.
pub fn transfer_total(content_length: Option<u64>, stored: u64) -> (r: u64)
    ensures
        r == match content_length { Some(n) => n, None => stored },
{
    match content_length {
        Some(n) => n,
        None => stored,
    }
}

/// How a transfer ended.
#[derive(Debug, Clone, PartialEq, Eq)]
pub enum TransferEnd {
    Finished,
    Cancelled,
    Failed(String),
}

/// The counters of a running transfer.
pub struct Transfer {
    pub downloaded: u64,
    pub total: u64,
    pub last_bytes: u64,
    pub last_update_ms: u64,
}

/// The size to record: the announced `total`, raised to the count where more
/// bytes than announced arrived; 0 (unknown) stays 0.
pub open spec fn recorded_total(downloaded: u64, total: u64) -> u64 {
    if total > 0 && downloaded > total { downloaded } else { total }
}

/// Bytes moved since the last snapshot; 0 where the count is behind it.
pub open spec fn bytes_since(downloaded: u64, last_bytes: u64) -> u64 {
    if downloaded >= last_bytes { (downloaded - last_bytes) as u64 } else { 0 }
}

/// `after` is `job` with the counters of transfer `t` recorded at `now_ms`.
pub open spec fn progress_snapshot(t: Transfer, job: Download, now_ms: u64, after: Download) -> bool {
    after == (Download {
        downloaded_bytes: t.downloaded,
        total_bytes: recorded_total(t.downloaded, t.total),
        speed: throughput(bytes_since(t.downloaded, t.last_bytes), (now_ms - t.last_update_ms) as u64) as u64,
        ..job
    })
}

/// The stored record asks the worker to stop.
pub open spec fn cancel_seen(stored: Option<Download>) -> bool {
    stored matches Some(d) && d.status is Cancelled
}

impl Transfer {
    pub fn new(total: u64, now_ms: u64) -> (r: Transfer)
        ensures
            r == (Transfer { downloaded: 0, total, last_bytes: 0, last_update_ms: now_ms }),
    {
        Transfer { downloaded: 0, total, last_bytes: 0, last_update_ms: now_ms }
    }

    /// A chunk of `len` bytes was written; the count stops at the largest `u64`.
    pub fn add_chunk(&mut self, len: u64)
        ensures
            final(self).downloaded as nat == if old(self).downloaded as nat + len as nat > u64::MAX {
                u64::MAX as nat
            } else {
                old(self).downloaded as nat + len as nat
            },
            final(self).total == old(self).total,
            final(self).last_bytes == old(self).last_bytes,
            final(self).last_update_ms == old(self).last_update_ms,
    {
        self.downloaded = self.downloaded.saturating_add(len);
    }

    /// The size to record for this transfer now.
    pub fn current_total(&self) -> (r: u64)
        ensures
            r == recorded_total(self.downloaded, self.total),
    {
        if self.total > 0 && self.downloaded > self.total { self.downloaded } else { self.total }
    }

    /// Whether a snapshot is due at `now_ms`.
    pub fn checkpoint_due(&self, now_ms: u64) -> (r: bool)
        ensures
            r == (now_ms >= self.last_update_ms && now_ms - self.last_update_ms >= CHECKPOINT_MS),
    {
        now_ms >= self.last_update_ms && now_ms - self.last_update_ms >= CHECKPOINT_MS
    }

    /// A snapshot at `now_ms`, with `stored` the record as it now stands on
    /// disk. Returns `false` where the record asks the worker to stop, and
    /// changes nothing then; otherwise records the counters and the
    /// throughput since the last snapshot in `job`, to be saved.
    pub fn checkpoint(&mut self, job: &mut Download, stored: &Option<Download>, now_ms: u64) -> (r: bool)
        requires
            now_ms >= old(self).last_update_ms + CHECKPOINT_MS,
        ensures
            r == !cancel_seen(*stored),
            !r ==> *final(job) == *old(job) && *final(self) == *old(self),
            r ==> progress_snapshot(*old(self), *old(job), now_ms, *final(job)),
            r ==> *final(self) == (Transfer {
                last_bytes: old(self).downloaded,
                last_update_ms: now_ms,
                ..*old(self)
            }),
            pid_consistent(*old(job)) ==> pid_consistent(*final(job)),
            r ==> counters_consistent(*final(job)),
    {
        let moved = self.downloaded.saturating_sub(self.last_bytes);
        let speed = speed_estimate(moved, now_ms - self.last_update_ms);
        let cancelled = match stored {
            Some(d) => d.status.is_cancelled(),
            None => false,
        };
        if cancelled {
            return false;
        }
        let total = self.current_total();
        job.record_progress(self.downloaded, total, speed);
        self.last_update_ms = now_ms;
        self.last_bytes = self.downloaded;
        true
    }
}

proof fn lemma_snapshots_downloading(
    loaded: Download,
    own_pid: u32,
    transfers: Seq<Transfer>,
    nows: Seq<u64>,
    records: Seq<Download>,
    k: int,
)
    requires
        records.len() == transfers.len() + 1,
        nows.len() == transfers.len(),
        records[0] == (Download { status: DownloadStatus::Downloading, pid: Some(own_pid), ..loaded }),
        forall|i: int| 0 <= i < transfers.len() ==>
            #[trigger] progress_snapshot(transfers[i], records[i], nows[i], records[i + 1]),
        0 <= k < records.len(),
    ensures
        records[k].status == DownloadStatus::Downloading,
        records[k].pid == Some(own_pid),
        k > 0 ==> counters_consistent(records[k]),
    decreases k,
{
    if k > 0 {
        let j = k - 1;
        lemma_snapshots_downloading(loaded, own_pid, transfers, nows, records, j);
        assert(progress_snapshot(transfers[j], records[j], nows[j], records[j + 1]));
    }
}

/// Every record a worker writes keeps a worker id exactly while downloading,
/// never counts more bytes than a known size, and changes status only
/// forward: `records[0]` is what `begin` makes of the loaded record,
/// `records[i + 1]` what the snapshot of `transfers[i]` at `nows[i]` makes of
/// `records[i]`, and `last` what the transfer's end makes of the last of them.
pub proof fn lemma_worker_records(
    loaded: Download,
    own_pid: u32,
    transfers: Seq<Transfer>,
    nows: Seq<u64>,
    records: Seq<Download>,
    end: TransferEnd,
    last: Download,
)
    requires
        !is_terminal(loaded.status),
        counters_consistent(loaded),
        records.len() == transfers.len() + 1,
        nows.len() == transfers.len(),
        records[0] == (Download { status: DownloadStatus::Downloading, pid: Some(own_pid), ..loaded }),
        forall|i: int| 0 <= i < transfers.len() ==>
            #[trigger] progress_snapshot(transfers[i], records[i], nows[i], records[i + 1]),
        conclude_spec(records.last(), end, last),
    ensures
        forall|i: int| 0 <= i < records.len() ==>
            pid_consistent(#[trigger] records[i]) && counters_consistent(records[i]),
        pid_consistent(last),
        counters_consistent(last),
        allowed_step(loaded.status, records[0].status),
        forall|i: int| 0 <= i < transfers.len() ==>
            #[trigger] allowed_step(records[i].status, records[i + 1].status),
        allowed_step(records.last().status, last.status),
{
    assert forall|i: int| 0 <= i < records.len() implies
        pid_consistent(#[trigger] records[i]) && counters_consistent(records[i]) by {
        lemma_snapshots_downloading(loaded, own_pid, transfers, nows, records, i);
    }
    assert forall|i: int| 0 <= i < transfers.len() implies
        #[trigger] allowed_step(records[i].status, records[i + 1].status) by {
        lemma_snapshots_downloading(loaded, own_pid, transfers, nows, records, i);
        lemma_snapshots_downloading(loaded, own_pid, transfers, nows, records, i + 1);
    }
    lemma_snapshots_downloading(loaded, own_pid, transfers, nows, records, records.len() - 1);
}

/// `after` is `job` brought to the state that its transfer ended in.
pub open spec fn conclude_spec(job: Download, end: TransferEnd, after: Download) -> bool {
    match end {
        TransferEnd::Finished => after == (Download {
            status: DownloadStatus::Completed,
            total_bytes: after.total_bytes,
            downloaded_bytes: after.total_bytes,
            speed: 0,
            pid: None,
            ..job
        }),
        TransferEnd::Cancelled => after == (Download {
            status: DownloadStatus::Cancelled,
            speed: 0,
            pid: None,
            ..job
        }),
        TransferEnd::Failed(reason) => after == (Download {
            status: DownloadStatus::Failed(reason),
            speed: 0,
            pid: None,
            ..job
        }),
    }
}

/// Brings `job` to the state its transfer ended in; `total` is the size the
/// transfer learnt (the response's length, else the stored estimate, as
/// `transfer_total` gives it), which a finished job records as both its size
/// and its count. Returns whether the partial file is to be removed: only
/// after a cancellation.
pub fn conclude(job: &mut Download, end: TransferEnd, total: u64) -> (remove_partial: bool)
    ensures
        remove_partial == (end is Cancelled),
        conclude_spec(*old(job), end, *final(job)),
        end is Finished ==> final(job).total_bytes == total,
        pid_consistent(*final(job)),
        counters_consistent(*old(job)) || end is Finished ==> counters_consistent(*final(job)),
{
    match end {
        TransferEnd::Finished => {
            job.total_bytes = total;
            job.mark_completed();
            false
        },
        TransferEnd::Cancelled => {
            job.mark_cancelled();
            true
        },
        TransferEnd::Failed(reason) => {
            job.mark_failed(reason);
            false
        },
    }
}

} // verus!
