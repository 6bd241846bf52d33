use vstd::prelude::*;

use crate::download::Download;
use crate::events::{DoneDownloading, DownloadFileNameAvailable, DownloadStatus};
use crate::events::{DOWNLOAD_DONE, DOWNLOAD_FILE_NAME_AVAILABLE, DOWNLOAD_UPDATE};
use crate::lines::{file_name_of, progress_of};
use crate::store::{StoreWrite, WriteModel};
use crate::youtube_dl::{download_args, work_dir, Arg, LineScanner};

verus! {

/// An event the download worker hands to the bus.
#[derive(Clone, Debug, PartialEq, Eq)]
pub enum Publication {
    Progress(DownloadStatus),
    FileName(DownloadFileNameAvailable),
    Done(DoneDownloading),
}

pub enum PublicationModel {
    Progress(Seq<char>, u32),
    FileName(Seq<char>, Seq<char>),
    Done(Seq<char>, Seq<char>),
}

impl View for Publication {
    type V = PublicationModel;

    open spec fn view(&self) -> PublicationModel {
        match self {
            Publication::Progress(s) => PublicationModel::Progress(s.download_id@, s.percentage),
            Publication::FileName(f) => PublicationModel::FileName(f.download_id@, f.file_name@),
            Publication::Done(d) => PublicationModel::Done(d.download_id@, d.file_name@),
        }
    }
}

impl Publication {
    /// The subject the event is published on.
    pub fn subject(&self) -> (r: &'static str)
        ensures
            r@ == match self@ {
                PublicationModel::Progress(..) => DOWNLOAD_UPDATE@,
                PublicationModel::FileName(..) => DOWNLOAD_FILE_NAME_AVAILABLE@,
                PublicationModel::Done(..) => DOWNLOAD_DONE@,
            },
    {
        match self {
            Publication::Progress(_) => DOWNLOAD_UPDATE,
            Publication::FileName(_) => DOWNLOAD_FILE_NAME_AVAILABLE,
            Publication::Done(_) => DOWNLOAD_DONE,
        }
    }
}

/// Where a download job stands.
#[derive(Clone, Debug, PartialEq, Eq)]
pub enum JobStage {
    /// The fetch tool runs; its output lines are being read.
    Fetching,
    /// The artifact with this name is being uploaded.
    Uploading(String),
    /// The artifact is uploaded and `FetchDone` handed out.
    Finished,
    /// The job stopped; the request keeps the state it last reached.
    Failed,
}

/// The name of the artifact being uploaded, in the stage that uploads one.
pub open spec fn uploading_name(s: JobStage) -> Option<Seq<char>> {
    match s {
        JobStage::Uploading(n) => Some(n@),
        _ => None,
    }
}

/// Why a download job stopped.
#[derive(Clone, Copy, Debug, PartialEq, Eq, Structural)]
pub enum JobError {
    /// The request carries no id.
    MissingId,
    /// The fetch tool failed.
    FetchFailed,
    /// The fetch tool succeeded but left no file.
    NoArtifact,
    /// The object store did not take the artifact.
    UploadFailed,
    /// An event came that the job's stage does not expect.
    OutOfOrder,
}

/// The events that one output line leads to: the file name first, where
/// the line names one and none was seen before, then the progress.
pub open spec fn line_publications(id: Seq<char>, seen: bool, line: Seq<char>) -> Seq<
    PublicationModel,
> {
    let names = if seen {
        Seq::empty()
    } else {
        match file_name_of(line) {
            Some(n) => seq![PublicationModel::FileName(id, n)],
            None => Seq::empty(),
        }
    };
    let progress = match progress_of(line) {
        Some(p) => seq![PublicationModel::Progress(id, p)],
        None => Seq::empty(),
    };
    names + progress
}

pub open spec fn publication_views(v: Seq<Publication>) -> Seq<PublicationModel> {
    v.map_values(|p: Publication| p@)
}

/// The decisions of the download worker for one request, from the
/// `Requested` event to `FetchDone`. The caller runs the fetch tool, reads
/// the working directory and talks to the object store, and reports back.
pub struct DownloadJob {
    download_id: String,
    link: String,
    scanner: LineScanner,
    stage: JobStage,
}

impl DownloadJob {
    pub closed spec fn id(&self) -> Seq<char> {
        self.download_id@
    }

    pub closed spec fn source(&self) -> Seq<char> {
        self.link@
    }

    pub closed spec fn name_seen(&self) -> bool {
        self.scanner.seen()
    }

    pub closed spec fn stage(&self) -> JobStage {
        self.stage
    }

    /// A job for a stored request; one without an id cannot be worked on.
    pub fn start(request: &Download) -> (r: Result<DownloadJob, JobError>)
        ensures
            request.id is None ==> r == Err::<DownloadJob, JobError>(JobError::MissingId),
            request.id matches Some(i) ==> r matches Ok(j) && j.id() == i@ && j.source()
                == request.link@ && j.stage() == JobStage::Fetching && !j.name_seen(),
    {
        match &request.id {
            None => Err(JobError::MissingId),
            Some(i) => Ok(
                DownloadJob {
                    download_id: i.clone(),
                    link: request.link.clone(),
                    scanner: LineScanner::new(),
                    stage: JobStage::Fetching,
                },
            ),
        }
    }

    pub fn download_id(&self) -> (r: &String)
        ensures
            r@ == self.id(),
    {
        &self.download_id
    }

    pub fn link(&self) -> (r: &String)
        ensures
            r@ == self.source(),
    {
        &self.link
    }

    /// The state-only write that marks the request as fetching, made as the
    /// fetch starts.
    pub fn start_write(&self) -> (r: StoreWrite)
        ensures
            r@ == WriteModel::Start(self.id()),
    {
        StoreWrite::Start { download_id: self.download_id.clone() }
    }

    /// The directory the fetch tool writes this request's file to.
    pub fn work_dir(&self, storage_path: &str) -> (r: String)
        ensures
            r@ == storage_path@ + seq!['/'] + self.id(),
    {
        work_dir(storage_path, self.download_id.as_str())
    }

    /// The options the fetch tool runs with.
    pub fn tool_args(&self) -> (r: Vec<Arg>)
        ensures
            crate::youtube_dl::all_words(r@) == seq![
                "--progress"@,
                "--newline"@,
                "--output"@,
                "%(title).90s.%(ext)s"@,
            ],
    {
        download_args()
    }

    /// One line of the fetch tool's output, while it runs.
    pub fn on_line(&mut self, line: String) -> (r: Vec<Publication>)
        ensures
            final(self).id() == old(self).id(),
            final(self).source() == old(self).source(),
            final(self).stage() == old(self).stage(),
            old(self).stage() == JobStage::Fetching ==> publication_views(r@) == line_publications(
                old(self).id(),
                old(self).name_seen(),
                line@,
            ) && (final(self).name_seen() <==> old(self).name_seen() || file_name_of(
                line@,
            ) is Some),
            old(self).stage() != JobStage::Fetching ==> r@.len() == 0 && final(self).name_seen()
                == old(self).name_seen(),
    {
        let mut out: Vec<Publication> = Vec::new();
        if !matches!(self.stage, JobStage::Fetching) {
            return out;
        }
        let ev = self.scanner.scan(line);
        match ev.file_name {
            Some(f) => {
                out.push(
                    Publication::FileName(
                        DownloadFileNameAvailable::new(self.download_id.as_str(), f),
                    ),
                );
            },
            None => {},
        }
        match ev.percentage {
            Some(p) => {
                out.push(
                    Publication::Progress(DownloadStatus::new(self.download_id.as_str(), p)),
                );
            },
            None => {},
        }
        proof {
            assert(publication_views(out@) =~= line_publications(
                old(self).id(),
                old(self).name_seen(),
                line@,
            ));
        }
        out
    }

    /// The fetch tool has exited; `first_entry` is the first file in the
    /// working directory. Gives the name of the artifact to upload.
    pub fn on_fetch_exit(&mut self, succeeded: bool, first_entry: Option<String>) -> (r: Result<
        String,
        JobError,
    >)
        ensures
            final(self).id() == old(self).id(),
            old(self).stage() != JobStage::Fetching ==> r == Err::<String, JobError>(
                JobError::OutOfOrder,
            ) && final(self).stage() == old(self).stage(),
            old(self).stage() == JobStage::Fetching && !succeeded ==> r == Err::<String, JobError>(
                JobError::FetchFailed,
            ) && final(self).stage() == JobStage::Failed,
            old(self).stage() == JobStage::Fetching && succeeded && first_entry is None ==> r
                == Err::<String, JobError>(JobError::NoArtifact) && final(self).stage()
                == JobStage::Failed,
            old(self).stage() == JobStage::Fetching && succeeded && first_entry is Some ==> (r matches Ok(
                n,
            ) && n@ == first_entry->0@) && uploading_name(final(self).stage()) == Some(
                first_entry->0@,
            ),
    {
        if !matches!(self.stage, JobStage::Fetching) {
            return Err(JobError::OutOfOrder);
        }
        if !succeeded {
            self.stage = JobStage::Failed;
            return Err(JobError::FetchFailed);
        }
        match first_entry {
            None => {
                self.stage = JobStage::Failed;
                Err(JobError::NoArtifact)
            },
            Some(n) => {
                self.stage = JobStage::Uploading(n.clone());
                Ok(n)
            },
        }
    }

    /// The object store has answered the upload; on success this gives the
    /// `FetchDone` event.
    pub fn on_upload(&mut self, uploaded: bool) -> (r: Result<Publication, JobError>)
        ensures
            final(self).id() == old(self).id(),
            uploading_name(old(self).stage()) is None ==> r == Err::<Publication, JobError>(
                JobError::OutOfOrder,
            ) && final(self).stage() == old(self).stage(),
            uploading_name(old(self).stage()) is Some && !uploaded ==> r == Err::<Publication, JobError>(
                JobError::UploadFailed,
            ) && final(self).stage() == JobStage::Failed,
            uploading_name(old(self).stage()) is Some && uploaded ==> (r matches Ok(p) && p@
                == PublicationModel::Done(old(self).id(), uploading_name(old(self).stage())->0))
                && final(self).stage() == JobStage::Finished,
    {
        let name = match &self.stage {
            JobStage::Uploading(n) => n.clone(),
            _ => {
                return Err(JobError::OutOfOrder);
            },
        };
        if !uploaded {
            self.stage = JobStage::Failed;
            return Err(JobError::UploadFailed);
        }
        self.stage = JobStage::Finished;
        Ok(Publication::Done(DoneDownloading::new(self.download_id.as_str(), name.as_str())))
    }
}

} // verus!
