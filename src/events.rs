use vstd::prelude::*;
use vstd::utf8::{encode_utf8, valid_utf8};

use crate::text::utf8_str;

verus! {

/// Subject of `Requested`: a new request, as the whole record.
pub const DOWNLOADS: &'static str = "darklight.downloads";

/// Subject of `FetchDone`: the artifact is uploaded.
pub const DOWNLOAD_DONE: &'static str = "darklight.downloading-done";

/// Subject of `ProgressUpdate`.
pub const DOWNLOAD_UPDATE: &'static str = "darklight.download-update";

/// Subject of `FilenameAvailable`.
pub const DOWNLOAD_FILE_NAME_AVAILABLE: &'static str = "darklight.download-file-name-update";

/// Consumer group of the download workers.
pub const WORKER_GROUP: &'static str = "darklight.worker";

/// Consumer group of the workers that mark requests done.
pub const DONE_DOWNLOADING_GROUP: &'static str = "darklight.done-downloading";

/// Consumer group of the workers that record progress.
pub const DOWNLOAD_UPDATE_GROUP: &'static str = "darklight.update-download";

/// Consumer group of the workers that record file names.
pub const DOWNLOAD_FILE_NAME_AVAILABLE_GROUP: &'static str = "darklight.file-name-available";

/// `FetchDone`: the request's artifact is in the object store under `file_name`.
#[derive(Clone, Debug, PartialEq, Eq)]
pub struct DoneDownloading {
    pub download_id: String,
    pub file_name: String,
}

impl DoneDownloading {
    pub fn new(download_id: &str, file_name: &str) -> (r: DoneDownloading)
        ensures
            r.download_id@ == download_id@,
            r.file_name@ == file_name@,
    {
        DoneDownloading { download_id: download_id.to_owned(), file_name: file_name.to_owned() }
    }
}

/// `ProgressUpdate`: how far the fetch of a request has come, in percent.
#[derive(Clone, Debug, PartialEq, Eq)]
pub struct DownloadStatus {
    pub download_id: String,
    pub percentage: u32,
}

impl DownloadStatus {
    pub fn new(download_id: &str, percentage: u32) -> (r: DownloadStatus)
        ensures
            r.download_id@ == download_id@,
            r.percentage == percentage,
    {
        DownloadStatus { download_id: download_id.to_owned(), percentage }
    }
}

/// `FilenameAvailable`: the fetch tool named the file it writes.
#[derive(Clone, Debug, PartialEq, Eq)]
pub struct DownloadFileNameAvailable {
    pub download_id: String,
    pub file_name: String,
}

impl DownloadFileNameAvailable {
    pub fn new(download_id: &str, file_name: String) -> (r: DownloadFileNameAvailable)
        ensures
            r.download_id@ == download_id@,
            r.file_name@ == file_name@,
    {
        DownloadFileNameAvailable { download_id: download_id.to_owned(), file_name }
    }
}

/// A message payload that is not UTF-8 text.
#[derive(Clone, Copy, Debug, PartialEq, Eq, Structural)]
pub struct NotUtf8;

/// The text of a message payload.
pub fn parse_to_str(payload: &Vec<u8>) -> (r: Result<&str, NotUtf8>)
    ensures
        r is Ok <==> valid_utf8(payload@),
        r matches Ok(s) ==> encode_utf8(s@) == payload@,
{
    match utf8_str(payload.as_slice()) {
        Some(s) => Ok(s),
        None => Err(NotUtf8),
    }
}

} // verus!
