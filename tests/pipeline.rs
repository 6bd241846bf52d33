use darklight::download::{Download, RowError};
use darklight::download_queue::{add_request, get_file_name, DownloadIndex};
use darklight::download_state::DownloadState;
use darklight::events::{
    parse_to_str, DoneDownloading, DownloadFileNameAvailable, DownloadStatus, NotUtf8, DOWNLOAD_DONE,
    DOWNLOAD_FILE_NAME_AVAILABLE, DOWNLOAD_UPDATE,
};
use darklight::get_health_check;
use darklight::store::{done_write, file_name_write, status_update_write, RequestStore, StoreError, StoreWrite};
use darklight::worker::{DownloadJob, JobError, JobStage, Publication};

fn stored(store: &mut RequestStore, id: &str, requester: Option<&str>) -> Download {
    let d = Download::initiated("https://example/video", requester.map(|r| r.to_string()), 0);
    store.add_download(&d, id).unwrap()
}

#[test]
fn state_names_round_trip() {
    for s in [DownloadState::Initiated, DownloadState::Downloading, DownloadState::Done, DownloadState::Error] {
        assert_eq!(DownloadState::from_string(s.as_str()), Some(s));
    }
    assert_eq!(DownloadState::Done.as_str(), "done");
    assert_eq!(DownloadState::from_string("Done"), None);
    assert_eq!(DownloadState::from_string("paused"), None);
    assert!(DownloadState::Error.is_terminal());
    assert!(!DownloadState::Downloading.is_terminal());
}

#[test]
fn status_worker_stores_exact_percentage() {
    let mut store = RequestStore::new();
    stored(&mut store, "a", None);
    let w = status_update_write(&DownloadStatus::new("a", 37)).unwrap();
    assert!(store.apply(&w));
    let got = store.get_by_download_id("a").unwrap();
    assert_eq!(got.percentage, 37);
    assert_eq!(got.state, DownloadState::Initiated);
    assert_eq!(got.file, None);
    assert_eq!(status_update_write(&DownloadStatus::new("a", 101)), None);
    assert_eq!(store.get_by_download_id("a").unwrap().percentage, 37);
}

#[test]
fn done_twice_equals_done_once() {
    let mut store = RequestStore::new();
    stored(&mut store, "a", None);
    let w = done_write(&DoneDownloading::new("a", "clip.mp4"));
    assert!(store.apply(&w));
    let once = store.get_by_download_id("a").unwrap();
    assert!(store.apply(&w));
    let twice = store.get_by_download_id("a").unwrap();
    assert_eq!(once.state, DownloadState::Done);
    assert_eq!(twice.state, DownloadState::Done);
    assert_eq!(once.file, Some("clip.mp4".to_string()));
    assert_eq!(twice.file, once.file);
}

#[test]
fn terminal_request_ignores_progress_and_names() {
    let mut store = RequestStore::new();
    stored(&mut store, "a", None);
    store.update_percentage("a", 50);
    store.finish_download("a", "final.mp4");
    store.update_percentage("a", 60);
    store.update_file_name("a", "draft.mp4".to_string());
    let got = store.get_by_download_id("a").unwrap();
    assert_eq!(got.percentage, 50);
    assert_eq!(got.file, Some("final.mp4".to_string()));
}

#[test]
fn writes_for_unknown_ids_change_nothing() {
    let mut store = RequestStore::new();
    assert!(!store.update_percentage("missing", 1));
    assert!(store.get_by_download_id("missing").is_none());
}

#[test]
fn file_name_worker_sets_name() {
    let mut store = RequestStore::new();
    stored(&mut store, "a", None);
    let w = file_name_write(&DownloadFileNameAvailable::new("a", "x.mp4".to_string()));
    assert_eq!(w, StoreWrite::FileName { download_id: "a".to_string(), file_name: "x.mp4".to_string() });
    store.apply(&w);
    assert_eq!(store.get_by_download_id("a").unwrap().file, Some("x.mp4".to_string()));
}

#[test]
fn duplicate_id_is_refused() {
    let mut store = RequestStore::new();
    stored(&mut store, "a", None);
    let d = Download::initiated("other", None, 1);
    assert_eq!(store.add_download(&d, "a").unwrap_err(), StoreError::DuplicateId);
}

#[test]
fn listing_by_requester() {
    let mut store = RequestStore::new();
    stored(&mut store, "a", Some("alice"));
    stored(&mut store, "b", Some("bob"));
    stored(&mut store, "c", Some("alice"));
    stored(&mut store, "d", None);
    let mut ids: Vec<String> = store
        .get_downloads_by_requester("alice")
        .into_iter()
        .map(|d| d.id.unwrap())
        .collect();
    ids.sort();
    assert_eq!(ids, vec!["a".to_string(), "c".to_string()]);
    assert!(store.get_downloads_by_requester("carol").is_empty());
}

#[test]
fn rows_become_requests() {
    let d = Download::from_row("id".to_string(), "done", "l".to_string(), Some("f".to_string()), 3, Some(100), None).unwrap();
    assert_eq!(d.state, DownloadState::Done);
    assert_eq!(d.percentage, 100);
    assert_eq!(d.id, Some("id".to_string()));
    let e = Download::from_row("id".to_string(), "paused", "l".to_string(), None, 3, Some(1), None);
    assert_eq!(e.unwrap_err(), RowError::UnknownState);
    let f = Download::from_row("id".to_string(), "done", "l".to_string(), None, 3, None, None);
    assert_eq!(f.unwrap_err(), RowError::BadPercentage);
    let g = Download::from_row("id".to_string(), "done", "l".to_string(), None, 3, Some(101), None);
    assert_eq!(g.unwrap_err(), RowError::BadPercentage);
}

#[test]
fn payload_text() {
    assert_eq!(parse_to_str(&b"{\"a\":1}".to_vec()), Ok("{\"a\":1}"));
    assert_eq!(parse_to_str(&vec![0x80]), Err(NotUtf8));
}

#[test]
fn health_check_body() {
    assert_eq!(get_health_check(), "Ok!");
}

#[test]
fn job_needs_an_id() {
    let d = Download::initiated("l", None, 0);
    assert_eq!(DownloadJob::start(&d).err(), Some(JobError::MissingId));
}

#[test]
fn job_turns_lines_into_events() {
    let mut store = RequestStore::new();
    let d = stored(&mut store, "r1", None);
    let mut job = DownloadJob::start(&d).unwrap();
    assert_eq!(job.work_dir("/data"), "/data/r1");
    let first = job.on_line("[download] Destination: clip.mp4".into());
    assert_eq!(first, vec![Publication::FileName(DownloadFileNameAvailable::new("r1", "clip.mp4".to_string()))]);
    assert_eq!(first[0].subject(), DOWNLOAD_FILE_NAME_AVAILABLE);
    let second = job.on_line("[download] Destination: other.mp4".into());
    assert!(second.is_empty());
    let third = job.on_line("[download]  12.5% of 3MiB".into());
    assert_eq!(third, vec![Publication::Progress(DownloadStatus::new("r1", 12))]);
    assert_eq!(third[0].subject(), DOWNLOAD_UPDATE);
}

#[test]
fn job_failures() {
    let mut store = RequestStore::new();
    let d = stored(&mut store, "r1", None);
    let mut job = DownloadJob::start(&d).unwrap();
    assert_eq!(job.on_upload(true).err(), Some(JobError::OutOfOrder));
    assert_eq!(job.on_fetch_exit(false, None), Err(JobError::FetchFailed));
    assert!(job.on_line("[download] 5%".into()).is_empty());
    let mut job2 = DownloadJob::start(&d).unwrap();
    assert_eq!(job2.on_fetch_exit(true, None), Err(JobError::NoArtifact));
    let mut job3 = DownloadJob::start(&d).unwrap();
    assert_eq!(job3.on_fetch_exit(true, Some("a.mp4".to_string())), Ok("a.mp4".to_string()));
    assert_eq!(job3.on_upload(false).err(), Some(JobError::UploadFailed));
}

#[test]
fn end_to_end_artifact() {
    let mut store = RequestStore::new();
    let mut index = DownloadIndex::new();
    let mut objects: Vec<(String, Vec<u8>)> = Vec::new();
    let id = add_request(&mut store, &mut index, "https://example/video", None, 0, "id-7").unwrap();
    let request = store.get_by_download_id(&id).unwrap();

    let mut job = DownloadJob::start(&request).unwrap();
    store.apply(&job.start_write());
    assert_eq!(store.get_by_download_id(&id).unwrap().state, DownloadState::Downloading);
    for line in ["[download] Destination: clip.mp4", "[download]  50.0% of 1MiB", "[download] 100% of 1MiB"] {
        for p in job.on_line(line.to_string()) {
            match p {
                Publication::Progress(s) => {
                    if let Some(w) = status_update_write(&s) {
                        store.apply(&w);
                    }
                }
                Publication::FileName(f) => {
                    store.apply(&file_name_write(&f));
                }
                Publication::Done(_) => unreachable!(),
            }
        }
    }
    assert_eq!(store.get_by_download_id(&id).unwrap().percentage, 100);
    let name = job.on_fetch_exit(true, Some("clip.mp4".to_string())).unwrap();
    objects.push((name.clone(), vec![1, 2, 3]));
    let done = job.on_upload(true).unwrap();
    assert_eq!(done.subject(), DOWNLOAD_DONE);
    match done {
        Publication::Done(d) => {
            store.apply(&done_write(&d));
        }
        _ => unreachable!(),
    }
    let file_name = get_file_name(store.get_by_download_id(&id)).unwrap();
    let bytes = objects.iter().find(|(n, _)| *n == file_name).map(|(_, b)| b.clone());
    assert_eq!((file_name, bytes), ("clip.mp4".to_string(), Some(vec![1, 2, 3])));
    assert_eq!(store.get_by_download_id(&id).unwrap().state, DownloadState::Done);
    let _ = JobStage::Finished;
}


#[test]
fn wire_state_names_in_any_case() {
    assert_eq!(DownloadState::parse("DONE"), Some(DownloadState::Done));
    assert_eq!(DownloadState::parse("Downloading"), Some(DownloadState::Downloading));
    assert_eq!(DownloadState::parse("initiated"), Some(DownloadState::Initiated));
    assert_eq!(DownloadState::parse("unknown"), None);
}

#[test]
fn default_settings() {
    let c = darklight::config::Config::default();
    assert_eq!(c.storage_path, "./target/output");
    assert_eq!(c.frontend_url, "http://localhost:3000");
    assert_eq!(darklight::config::SubscriberCfg::default().nats_url, "localhost:4222");
    assert_eq!(darklight::config::DownloadQueueCfg::default().storage_path, "./target/output");
}

#[test]
fn start_write_marks_only_initiated_requests() {
    let mut store = RequestStore::new();
    let d = stored(&mut store, "a", None);
    let job = DownloadJob::start(&d).unwrap();
    assert_eq!(job.start_write(), StoreWrite::Start { download_id: "a".to_string() });
    store.apply(&job.start_write());
    assert_eq!(store.get_by_download_id("a").unwrap().state, DownloadState::Downloading);
    store.finish_download("a", "x.mp4");
    store.apply(&job.start_write());
    assert_eq!(store.get_by_download_id("a").unwrap().state, DownloadState::Done);
}

#[test]
fn lookup_returns_record_with_its_id() {
    let mut store = RequestStore::new();
    stored(&mut store, "a", None);
    stored(&mut store, "b", None);
    assert_eq!(store.get_by_download_id("b").unwrap().id, Some("b".to_string()));
    for s in [DownloadState::Initiated, DownloadState::Downloading, DownloadState::Done, DownloadState::Error] {
        assert_eq!(DownloadState::parse(s.as_str()), Some(s));
    }
}
