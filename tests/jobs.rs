use lj::dashboard::{bar_fill, clear_targets, parse_command, progress_percent, CancelOutcome, Command};
use lj::job::{make_job_id, Download, DownloadStatus};
use lj::worker::{conclude, speed_estimate, transfer_total, Transfer, TransferEnd};

fn job(status: DownloadStatus, pid: Option<u32>, downloaded: u64, total: u64) -> Download {
    let mut d = Download::new(
        "1700000000000-movie.mkv".to_string(),
        "movie.mkv".to_string(),
        "http://host/movie.mkv".to_string(),
        "/tmp".to_string(),
        total,
        1_700_000_000,
    );
    d.status = status;
    d.pid = pid;
    d.downloaded_bytes = downloaded;
    d
}

#[test]
fn new_job_is_pending_without_pid() {
    let d = Download::new("i".to_string(), "f".to_string(), "u".to_string(), "d".to_string(), 10, 5);
    assert_eq!(d.status, DownloadStatus::Pending);
    assert_eq!(d.pid, None);
    assert_eq!(d.downloaded_bytes, 0);
    assert_eq!(d.speed, 0);
    assert_eq!(d.started_at, 5);
}

#[test]
fn job_ids_take_ten_characters_of_the_name() {
    assert_eq!(make_job_id(1700000000123, "averylongfilename.mkv"), "1700000000123-averylongf");
    assert_eq!(make_job_id(7, "a.mkv"), "7-a.mkv");
    assert_eq!(make_job_id(0, ""), "0-");
}

#[test]
fn spawn_and_begin_set_downloading_with_pid() {
    let d = job(DownloadStatus::Pending, None, 0, 100);
    let s = d.spawned(4242);
    assert_eq!(s.status, DownloadStatus::Downloading);
    assert_eq!(s.pid, Some(4242));
    let mut w = s.clone();
    assert!(w.begin(77));
    assert_eq!(w.status, DownloadStatus::Downloading);
    assert_eq!(w.pid, Some(77));
    assert_eq!(w.id, d.id);
}

#[test]
fn cancelling_a_downloading_job() {
    let mut d = job(DownloadStatus::Downloading, Some(99), 10, 100);
    assert_eq!(
        d.request_cancel(),
        CancelOutcome::Cancelled { signal: Some(99), partial_file: "/tmp/movie.mkv".to_string() }
    );
    assert_eq!(d.status, DownloadStatus::Cancelled);
    assert_eq!(d.pid, None);
    // The worker that sees the cancellation removes its partial file.
    let mut w = job(DownloadStatus::Downloading, Some(99), 10, 100);
    assert!(conclude(&mut w, TransferEnd::Cancelled, 100));
    assert_eq!(w.status, DownloadStatus::Cancelled);
    assert_eq!(w.pid, None);
    assert_eq!(w.speed, 0);
}

#[test]
fn cancelling_a_completed_job_changes_nothing() {
    let mut d = job(DownloadStatus::Completed, None, 100, 100);
    let before = d.clone();
    assert_eq!(d.request_cancel(), CancelOutcome::Unchanged);
    assert_eq!(d, before);
}

#[test]
fn dead_worker_with_all_bytes_is_completed() {
    let mut d = job(DownloadStatus::Downloading, Some(999_999), 5000, 5000);
    assert_eq!(d.probe_target(), Some(999_999));
    assert!(d.reconcile(false));
    assert_eq!(d.status, DownloadStatus::Completed);
    assert_eq!(d.pid, None);
}

#[test]
fn dead_worker_with_missing_bytes_failed() {
    let mut d = job(DownloadStatus::Downloading, Some(999_999), 2000, 5000);
    assert!(d.reconcile(false));
    assert_eq!(d.status, DownloadStatus::Failed("process died".to_string()));
    assert_eq!(d.pid, None);
}

#[test]
fn live_or_idle_jobs_are_not_repaired() {
    let mut d = job(DownloadStatus::Downloading, Some(5), 2000, 5000);
    assert!(!d.reconcile(true));
    assert_eq!(d.status, DownloadStatus::Downloading);
    let mut p = job(DownloadStatus::Pending, None, 0, 5000);
    assert_eq!(p.probe_target(), None);
    assert!(!p.reconcile(false));
    assert_eq!(p.status, DownloadStatus::Pending);
    let mut z = job(DownloadStatus::Downloading, Some(5), 0, 0);
    assert!(z.reconcile(false));
    assert_eq!(z.status, DownloadStatus::Failed("process died".to_string()));
}

#[test]
fn transfer_outcomes() {
    let mut d = job(DownloadStatus::Downloading, Some(3), 40, 100);
    assert!(!conclude(&mut d, TransferEnd::Finished, 100));
    assert_eq!(d.status, DownloadStatus::Completed);
    assert_eq!(d.downloaded_bytes, 100);
    assert_eq!(d.pid, None);
    let mut f = job(DownloadStatus::Downloading, Some(3), 40, 100);
    assert!(!conclude(&mut f, TransferEnd::Failed("HTTP error: 404".to_string()), 100));
    assert_eq!(f.status, DownloadStatus::Failed("HTTP error: 404".to_string()));
    assert_eq!(f.downloaded_bytes, 40);
    assert_eq!(f.pid, None);
}

#[test]
fn checkpoints_record_progress_unless_cancelled() {
    let mut d = job(DownloadStatus::Downloading, Some(3), 0, 0);
    let mut t = Transfer::new(10_000, 1_000);
    t.add_chunk(3_000);
    assert!(!t.checkpoint_due(1_499));
    assert!(t.checkpoint_due(1_500));
    let stored = Some(job(DownloadStatus::Downloading, Some(3), 0, 0));
    assert!(t.checkpoint(&mut d, &stored, 1_500));
    assert_eq!(d.downloaded_bytes, 3_000);
    assert_eq!(d.total_bytes, 10_000);
    assert_eq!(d.speed, 6_000);
    assert_eq!(t.last_bytes, 3_000);
    assert_eq!(t.last_update_ms, 1_500);
    t.add_chunk(1_000);
    let before = d.clone();
    let cancelled = Some(job(DownloadStatus::Cancelled, None, 0, 0));
    assert!(!t.checkpoint(&mut d, &cancelled, 2_500));
    assert_eq!(d, before);
    assert!(t.checkpoint(&mut d, &None, 2_500));
    assert_eq!(d.downloaded_bytes, 4_000);
    assert_eq!(d.speed, 1_000);
}

#[test]
fn speed_and_total_helpers() {
    assert_eq!(speed_estimate(1_000, 500), 2_000);
    assert_eq!(speed_estimate(u64::MAX, 1), u64::MAX);
    assert_eq!(transfer_total(Some(77), 5), 77);
    assert_eq!(transfer_total(None, 5), 5);
}

#[test]
fn chunk_count_saturates() {
    let mut t = Transfer::new(0, 0);
    t.add_chunk(u64::MAX - 1);
    t.add_chunk(5);
    assert_eq!(t.downloaded, u64::MAX);
}

#[test]
fn dashboard_commands() {
    assert_eq!(parse_command("  \n", 3), Command::Empty);
    assert_eq!(parse_command("q\n", 3), Command::Quit);
    assert_eq!(parse_command("Quit", 3), Command::Quit);
    assert_eq!(parse_command("C", 3), Command::Clear);
    assert_eq!(parse_command("c2\n", 3), Command::Cancel(1));
    assert_eq!(parse_command("r 3", 3), Command::Remove(2));
    assert_eq!(parse_command("c4", 3), Command::Ignored);
    assert_eq!(parse_command("r0", 3), Command::Ignored);
    assert_eq!(parse_command("cx", 3), Command::Ignored);
    assert_eq!(parse_command("x", 3), Command::Unknown);
}

#[test]
fn clear_removes_only_finished_jobs() {
    let mut a = job(DownloadStatus::Completed, None, 1, 1);
    a.id = "a".to_string();
    let mut b = job(DownloadStatus::Downloading, Some(1), 0, 1);
    b.id = "b".to_string();
    let mut c = job(DownloadStatus::Failed("x".to_string()), None, 0, 1);
    c.id = "c".to_string();
    let mut d = job(DownloadStatus::Pending, None, 0, 1);
    d.id = "d".to_string();
    let mut e = job(DownloadStatus::Cancelled, None, 0, 1);
    e.id = "e".to_string();
    assert_eq!(clear_targets(&vec![a, b, c, d, e]), vec!["a".to_string(), "c".to_string(), "e".to_string()]);
}

#[test]
fn progress_display() {
    assert_eq!(progress_percent(2_000, 5_000), 40);
    assert_eq!(progress_percent(10, 0), 0);
    assert_eq!(progress_percent(5_000, 5_000), 100);
    assert_eq!(bar_fill(2_000, 5_000), 16);
    assert_eq!(bar_fill(9_000, 5_000), 40);
    assert_eq!(bar_fill(1, 0), 0);
}

fn consistent(d: &Download) -> bool {
    let pid_ok = d.pid.is_some() == (d.status == DownloadStatus::Downloading);
    let bytes_ok = d.total_bytes == 0 || d.downloaded_bytes <= d.total_bytes;
    pid_ok && bytes_ok
}

fn rank(s: &DownloadStatus) -> u8 {
    match s {
        DownloadStatus::Pending => 0,
        DownloadStatus::Downloading => 1,
        _ => 2,
    }
}

#[test]
fn lifecycle_snapshots_stay_consistent() {
    let mut snapshots = Vec::new();
    let d = Download::new("j".to_string(), "f.bin".to_string(), "u".to_string(), "/t".to_string(), 0, 1);
    snapshots.push(d.clone());
    let mut d = d.spawned(10);
    snapshots.push(d.clone());
    assert!(d.begin(11));
    snapshots.push(d.clone());
    let mut t = Transfer::new(transfer_total(Some(1_000), d.total_bytes), 0);
    t.add_chunk(600);
    assert!(t.checkpoint(&mut d, &None, 500));
    snapshots.push(d.clone());
    t.add_chunk(400);
    assert!(t.checkpoint(&mut d, &None, 1_000));
    snapshots.push(d.clone());
    assert!(!conclude(&mut d, TransferEnd::Finished, t.total));
    snapshots.push(d.clone());
    assert_eq!(d.request_cancel(), CancelOutcome::Unchanged);
    snapshots.push(d.clone());
    for s in &snapshots {
        assert!(consistent(s), "{:?}", s);
    }
    for w in snapshots.windows(2) {
        assert!(rank(&w[0].status) <= rank(&w[1].status));
    }
    assert_eq!(d.status, DownloadStatus::Completed);
    assert_eq!(d.downloaded_bytes, 1_000);
}

#[test]
fn worker_leaves_a_finished_job_alone() {
    let mut d = job(DownloadStatus::Cancelled, None, 10, 100);
    let before = d.clone();
    assert!(!d.begin(55));
    assert_eq!(d, before);
    let mut p = job(DownloadStatus::Pending, None, 0, 100);
    assert!(p.begin(55));
    assert_eq!(p.status, DownloadStatus::Downloading);
}

#[test]
fn more_bytes_than_announced_raise_snapshot_size_only() {
    let mut d = job(DownloadStatus::Downloading, Some(3), 0, 10);
    let mut t = Transfer::new(transfer_total(None, d.total_bytes), 0);
    t.add_chunk(20);
    assert!(t.checkpoint(&mut d, &None, 500));
    assert_eq!(d.downloaded_bytes, 20);
    assert_eq!(d.total_bytes, 20);
    assert_eq!(t.current_total(), 20);
    // At completion the learnt size is recorded as size and count.
    assert!(!conclude(&mut d, TransferEnd::Finished, t.total));
    assert_eq!(d.total_bytes, 10);
    assert_eq!(d.downloaded_bytes, 10);
}

#[test]
fn quick_transfer_records_the_response_size() {
    let mut d = job(DownloadStatus::Downloading, Some(3), 0, 0);
    let mut t = Transfer::new(transfer_total(Some(1_000), d.total_bytes), 0);
    t.add_chunk(1_000);
    assert!(!conclude(&mut d, TransferEnd::Finished, t.total));
    assert_eq!(d.status, DownloadStatus::Completed);
    assert_eq!(d.total_bytes, 1_000);
    assert_eq!(d.downloaded_bytes, 1_000);
}

#[test]
fn checkpoint_with_stale_count_reports_no_speed() {
    let mut d = job(DownloadStatus::Downloading, Some(3), 0, 0);
    let mut t = Transfer::new(100, 0);
    t.last_bytes = 50;
    assert!(t.checkpoint(&mut d, &None, 500));
    assert_eq!(d.speed, 0);
    assert_eq!(d.downloaded_bytes, 0);
}
