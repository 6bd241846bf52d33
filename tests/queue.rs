use chrono::Utc;

use darklight::download::Download;
use darklight::download_queue::{add_request, get_file_name, is_older, stored_id, DownloadIndex, QueueError};
use darklight::download_state::DownloadState;
use darklight::store::RequestStore;

#[test]
fn download_queue_datetime() {
    let older = is_older(
        (Utc::now() - chrono::Duration::minutes(5) - chrono::Duration::seconds(1)).timestamp_millis(),
        Utc::now().timestamp_millis(),
    );

    assert_eq!(older, true)
}

#[test]
fn staleness_boundary() {
    let now: i64 = 1_700_000_000_000;
    assert!(!is_older(now - 299_000, now));
    assert!(!is_older(now - 300_000, now));
    assert!(is_older(now - 300_001, now));
    assert!(!is_older(i64::MAX, i64::MIN));
    assert!(is_older(i64::MIN, i64::MAX));
}

#[test]
fn sweep_removes_stale_entries() {
    let now: i64 = 1_700_000_000_000;
    let mut index = DownloadIndex::new();
    index.track("old", now - 301_000);
    index.track("young", now - 299_000);
    index.track("stuck", now - 600_000);
    let mut stale = index.stale_ids(now);
    stale.sort();
    assert_eq!(stale, vec!["old".to_string(), "stuck".to_string()]);
    index.sweep(now, &vec!["stuck".to_string()]);
    let mut left = index.stale_ids(now + 1_000_000);
    left.sort();
    assert_eq!(left, vec!["stuck".to_string(), "young".to_string()]);
    index.sweep(now, &vec![]);
    assert_eq!(index.stale_ids(now + 1_000_000), vec!["young".to_string()]);
}

#[test]
fn track_replaces_time() {
    let mut index = DownloadIndex::new();
    index.track("a", 0);
    index.track("a", 1_000_000);
    assert!(index.stale_ids(1_000_000).is_empty());
    assert_eq!(index.stale_ids(1_400_000), vec!["a".to_string()]);
}

#[test]
fn file_name_of_lookup() {
    assert_eq!(get_file_name(None), Err(QueueError::NotFound));
    let mut d = Download::initiated("l", None, 0);
    assert_eq!(get_file_name(Some(d.clone())), Err(QueueError::NotReady));
    d.file = Some("clip.mp4".to_string());
    assert_eq!(get_file_name(Some(d)), Ok("clip.mp4".to_string()));
}

#[test]
fn stored_record_must_have_id() {
    let d = Download::initiated("l", None, 0);
    assert_eq!(stored_id(&d), Err(QueueError::Invariant));
    let mut e = d.clone();
    e.id = Some("x".to_string());
    assert_eq!(stored_id(&e), Ok("x".to_string()));
    e.id = Some(String::new());
    assert_eq!(stored_id(&e), Err(QueueError::Invariant));
}

#[test]
fn add_then_get_is_initiated() {
    let mut store = RequestStore::new();
    let mut index = DownloadIndex::new();
    let id = add_request(&mut store, &mut index, "https://example/video", Some("me".to_string()), 5, "id-1").unwrap();
    assert_eq!(id, "id-1");
    let got = store.get_by_download_id("id-1").unwrap();
    assert_eq!(got.state, DownloadState::Initiated);
    assert_eq!(got.link, "https://example/video");
    assert_eq!(got.percentage, 0);
    assert_eq!(got.insert_time, Some(5));
    assert_eq!(index.stale_ids(5 + 300_001), vec!["id-1".to_string()]);
    let again = add_request(&mut store, &mut index, "other", None, 6, "id-1");
    assert_eq!(again.unwrap_err(), QueueError::Persistence);
    assert_eq!(store.get_by_download_id("id-1").unwrap().link, "https://example/video");
}

#[test]
fn empty_id_is_refused() {
    let mut store = RequestStore::new();
    let mut index = DownloadIndex::new();
    assert_eq!(add_request(&mut store, &mut index, "l", None, 0, ""), Err(QueueError::Invariant));
    assert!(store.get_by_download_id("").is_none());
    assert!(index.stale_ids(i64::MAX).is_empty());
}
