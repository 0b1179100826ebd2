use lj::pipeline::{
    classify_status, size_from_header, Action, Event, Phase, Pipeline, PipelineError, RemoteInfo, RemoteState,
    ResolvedLink,
};
use lj::selection::RemoteFile;

fn info(status: &str, files: Option<Vec<RemoteFile>>, links: Option<Vec<String>>) -> RemoteInfo {
    RemoteInfo { status: status.to_string(), files, links }
}

fn big(id: u32, path: &str) -> RemoteFile {
    RemoteFile { id, path: path.to_string(), bytes: 5_000_000 }
}

fn step(p: Pipeline, now: u64, ev: Event) -> (Pipeline, Action) {
    p.step(now, ev)
}

/// Runs the pipeline up to the wait for completion, started at `since`.
fn awaiting_completion(since: u64) -> Pipeline {
    let (p, a) = Pipeline::start();
    assert_eq!(a, Action::AddMagnet);
    let (p, a) = step(p, 0, Event::Added(Ok("T1".to_string())));
    assert_eq!(a, Action::FetchInfo("T1".to_string()));
    let files = vec![big(4, "film.mkv")];
    let (p, a) = step(p, 10, Event::Info(Ok(info("waiting_files_selection", Some(files), None))));
    assert_eq!(a, Action::SelectFiles { torrent: "T1".to_string(), ids: vec![4] });
    let (p, a) = step(p, since, Event::Selected(Ok(())));
    assert_eq!(a, Action::FetchInfo("T1".to_string()));
    assert_eq!(*p.phase(), Phase::AwaitingCompletion { torrent: "T1".to_string(), since });
    p
}

#[test]
fn status_strings_are_classified() {
    assert_eq!(classify_status("waiting_files_selection"), RemoteState::WaitingFiles);
    assert_eq!(classify_status("downloaded"), RemoteState::Downloaded);
    assert_eq!(classify_status("magnet_error"), RemoteState::Broken);
    assert_eq!(classify_status("dead"), RemoteState::Broken);
    assert_eq!(classify_status("error"), RemoteState::Broken);
    assert_eq!(classify_status("queued"), RemoteState::Busy);
    assert_eq!(classify_status("uploading"), RemoteState::Busy);
    assert_eq!(classify_status("magnet_conversion"), RemoteState::Other);
}

#[test]
fn full_run_resolves_links_and_cleans_up() {
    let p = awaiting_completion(100);
    let (p, a) = step(p, 200, Event::Info(Ok(info("downloading", None, None))));
    assert_eq!(a, Action::Sleep { ms: 2_000, progress: true });
    let (p, a) = step(p, 2_200, Event::Woke);
    assert_eq!(a, Action::FetchInfo("T1".to_string()));
    let links = vec!["L1".to_string(), "L2".to_string(), "L3".to_string()];
    let (p, a) = step(p, 2_300, Event::Info(Ok(info("downloaded", None, Some(links)))));
    assert_eq!(a, Action::Unrestrict("L1".to_string()));
    let (p, a) = step(p, 2_400, Event::Unrestricted(Ok(("a.mkv".to_string(), "http://x/a".to_string()))));
    assert_eq!(a, Action::ProbeSize("http://x/a".to_string()));
    let (p, a) = step(p, 2_500, Event::Sized(1234));
    assert_eq!(a, Action::Unrestrict("L2".to_string()));
    let (p, a) = step(p, 2_600, Event::Unrestricted(Err("refused".to_string())));
    assert_eq!(a, Action::Unrestrict("L3".to_string()));
    let (p, a) = step(p, 2_700, Event::Unrestricted(Ok(("c.mkv".to_string(), "http://x/c".to_string()))));
    assert_eq!(a, Action::ProbeSize("http://x/c".to_string()));
    let (p, a) = step(p, 2_800, Event::Sized(0));
    assert_eq!(a, Action::DeleteRemote("T1".to_string()));
    let (p, a) = step(p, 2_900, Event::Deleted);
    assert_eq!(a, Action::Stop);
    assert_eq!(
        p.outcome(),
        Some(Ok(vec![
            ResolvedLink { filename: "a.mkv".to_string(), url: "http://x/a".to_string(), size: 1234 },
            ResolvedLink { filename: "c.mkv".to_string(), url: "http://x/c".to_string(), size: 0 },
        ]))
    );
}

#[test]
fn completion_times_out_after_ten_minutes_without_resolving() {
    let p = awaiting_completion(1_000);
    let (p, a) = step(p, 1_100, Event::Info(Ok(info("queued", None, None))));
    assert_eq!(a, Action::Sleep { ms: 2_000, progress: true });
    let (p, a) = step(p, 601_000, Event::Woke);
    assert_eq!(a, Action::FetchInfo("T1".to_string()));
    let (p, a) = step(p, 601_050, Event::Info(Ok(info("compressing", None, None))));
    assert_eq!(a, Action::Sleep { ms: 2_000, progress: true });
    let (p, a) = step(p, 601_001 + 50, Event::Woke);
    assert_eq!(a, Action::Stop);
    assert_eq!(*p.phase(), Phase::Done(Err(PipelineError::CompletionTimeout)));
    let (p, a) = step(p, 700_000, Event::Info(Ok(info("downloaded", None, Some(vec!["L".to_string()])))));
    assert_eq!(a, Action::Stop);
    assert_eq!(p.outcome(), Some(Err(PipelineError::CompletionTimeout)));
}

#[test]
fn file_list_times_out_after_a_minute() {
    let (p, _) = Pipeline::start();
    let (p, _) = step(p, 0, Event::Added(Ok("T".to_string())));
    let (p, a) = step(p, 5, Event::Info(Ok(info("magnet_conversion", None, None))));
    assert_eq!(a, Action::Sleep { ms: 1_000, progress: false });
    let (p, a) = step(p, 60_000, Event::Woke);
    assert_eq!(a, Action::FetchInfo("T".to_string()));
    let (p, a) = step(p, 60_010, Event::Info(Ok(info("waiting_files_selection", Some(vec![]), None))));
    assert_eq!(a, Action::Sleep { ms: 1_000, progress: false });
    let (p, a) = step(p, 60_001, Event::Woke);
    assert_eq!(a, Action::Stop);
    assert_eq!(p.outcome(), Some(Err(PipelineError::FilesTimeout)));
}

#[test]
fn broken_torrent_aborts() {
    let (p, _) = Pipeline::start();
    let (p, _) = step(p, 0, Event::Added(Ok("T".to_string())));
    let (p, a) = step(p, 5, Event::Info(Ok(info("dead", None, None))));
    assert_eq!(a, Action::Stop);
    assert_eq!(p.outcome(), Some(Err(PipelineError::TorrentError("dead".to_string()))));
}

#[test]
fn add_failure_aborts() {
    let (p, _) = Pipeline::start();
    let (p, a) = step(p, 0, Event::Added(Err("Failed to add magnet: 401".to_string())));
    assert_eq!(a, Action::Stop);
    assert_eq!(p.outcome(), Some(Err(PipelineError::Remote("Failed to add magnet: 401".to_string()))));
}

#[test]
fn empty_choice_deletes_remote_job() {
    let (p, _) = Pipeline::start();
    let (p, _) = step(p, 0, Event::Added(Ok("T".to_string())));
    let files = vec![big(1, "a.mkv"), big(2, "b.mkv")];
    let (p, a) = step(p, 5, Event::Info(Ok(info("waiting_files_selection", Some(files.clone()), None))));
    assert_eq!(a, Action::AskUser(files));
    let (p, a) = step(p, 6, Event::Chose(Ok(vec![])));
    assert_eq!(a, Action::DeleteRemote("T".to_string()));
    let (p, a) = step(p, 7, Event::Deleted);
    assert_eq!(a, Action::Stop);
    assert_eq!(p.outcome(), Some(Err(PipelineError::NoFilesSelected)));
}

#[test]
fn chosen_files_are_selected() {
    let (p, _) = Pipeline::start();
    let (p, _) = step(p, 0, Event::Added(Ok("T".to_string())));
    let files = vec![big(1, "a.mkv"), big(2, "b.mkv")];
    let (p, _) = step(p, 5, Event::Info(Ok(info("waiting_files_selection", Some(files), None))));
    let (_, a) = step(p, 6, Event::Chose(Ok(vec![1])));
    assert_eq!(a, Action::SelectFiles { torrent: "T".to_string(), ids: vec![2] });
}

#[test]
fn downloaded_without_links_is_an_error() {
    let p = awaiting_completion(0);
    let (p, a) = step(p, 1, Event::Info(Ok(info("downloaded", None, Some(vec![])))));
    assert_eq!(a, Action::Stop);
    assert_eq!(p.outcome(), Some(Err(PipelineError::NoLinks)));
}

#[test]
fn no_resolved_link_is_an_error_after_cleanup() {
    let p = awaiting_completion(0);
    let (p, _) = step(p, 1, Event::Info(Ok(info("downloaded", None, Some(vec!["L".to_string()])))));
    let (p, a) = step(p, 2, Event::Unrestricted(Err("nope".to_string())));
    assert_eq!(a, Action::DeleteRemote("T1".to_string()));
    let (p, _) = step(p, 3, Event::Deleted);
    assert_eq!(p.outcome(), Some(Err(PipelineError::NoLinksResolved)));
}

#[test]
fn unexpected_event_stops() {
    let (p, _) = Pipeline::start();
    let (p, a) = step(p, 0, Event::Woke);
    assert_eq!(a, Action::Stop);
    assert_eq!(p.outcome(), Some(Err(PipelineError::UnexpectedEvent)));
}

#[test]
fn header_sizes() {
    assert_eq!(size_from_header(Some("5000")), 5000);
    assert_eq!(size_from_header(Some("abc")), 0);
    assert_eq!(size_from_header(None), 0);
}

#[test]
fn error_messages() {
    assert_eq!(PipelineError::CompletionTimeout.message(), "Timeout waiting for Real-Debrid to process");
    assert_eq!(PipelineError::FilesTimeout.message(), "Timeout waiting for file list");
    assert_eq!(PipelineError::TorrentError("dead".to_string()).message(), "Torrent error: dead");
    assert_eq!(PipelineError::SelectionCancelled("esc".to_string()).message(), "Selection cancelled: esc");
    assert_eq!(PipelineError::NoFilesSelected.message(), "No files selected");
    assert_eq!(PipelineError::NoLinks.message(), "No links available");
    assert_eq!(PipelineError::NoLinksResolved.message(), "No download links obtained");
    assert_eq!(PipelineError::NoFiles.message(), "No files in torrent");
    assert_eq!(PipelineError::Remote("Failed to add magnet: x".to_string()).message(), "Failed to add magnet: x");
}
