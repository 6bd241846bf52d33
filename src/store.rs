use vstd::prelude::*;

use crate::download::{Download, DownloadModel};
use crate::download_state::{is_terminal_state, DownloadState};
use crate::events::{DoneDownloading, DownloadFileNameAvailable, DownloadStatus};
use crate::lines::progress_of;
use crate::text::str_eq;
use crate::worker::{line_publications, PublicationModel};

verus! {

/// The store's contents: each record under its id.
pub type Records = Map<Seq<char>, DownloadModel>;

/// A write that touches the fields one kind of worker owns, and no others.
#[derive(Clone, Debug, PartialEq, Eq)]
pub enum StoreWrite {
    /// The fetch has started: an `Initiated` request becomes `Downloading`.
    Start { download_id: String },
    /// Progress: sets the percentage only.
    Percentage { download_id: String, percentage: u32 },
    /// The file name the fetch tool reported.
    FileName { download_id: String, file_name: String },
    /// The terminal state `Done` with the final file name.
    Finish { download_id: String, file_name: String },
}

pub enum WriteModel {
    Start(Seq<char>),
    Percentage(Seq<char>, u32),
    FileName(Seq<char>, Seq<char>),
    Finish(Seq<char>, Seq<char>),
}

impl View for StoreWrite {
    type V = WriteModel;

    open spec fn view(&self) -> WriteModel {
        match self {
            StoreWrite::Start { download_id } => WriteModel::Start(download_id@),
            StoreWrite::Percentage { download_id, percentage } => WriteModel::Percentage(
                download_id@,
                *percentage,
            ),
            StoreWrite::FileName { download_id, file_name } => WriteModel::FileName(
                download_id@,
                file_name@,
            ),
            StoreWrite::Finish { download_id, file_name } => WriteModel::Finish(
                download_id@,
                file_name@,
            ),
        }
    }
}

/// The id of the record a write is for.
pub open spec fn write_target(w: WriteModel) -> Seq<char> {
    match w {
        WriteModel::Start(id) => id,
        WriteModel::Percentage(id, _) => id,
        WriteModel::FileName(id, _) => id,
        WriteModel::Finish(id, _) => id,
    }
}

/// A record after a write. Once a request is `Done` or `Error`, progress and
/// file-name writes leave it as it is.
pub open spec fn written(m: DownloadModel, w: WriteModel) -> DownloadModel {
    match w {
        WriteModel::Start(_) => if m.state == DownloadState::Initiated {
            DownloadModel { state: DownloadState::Downloading, ..m }
        } else {
            m
        },
        WriteModel::Percentage(_, p) => if is_terminal_state(m.state) {
            m
        } else {
            DownloadModel { percentage: p, ..m }
        },
        WriteModel::FileName(_, f) => if is_terminal_state(m.state) {
            m
        } else {
            DownloadModel { file: Some(f), ..m }
        },
        WriteModel::Finish(_, f) => DownloadModel { state: DownloadState::Done, file: Some(f), ..m },
    }
}

/// The store after a write: only the targeted record changes, and a write
/// for an unknown id changes nothing.
pub open spec fn after_write(s: Records, w: WriteModel) -> Records {
    if s.contains_key(write_target(w)) {
        s.insert(write_target(w), written(s[write_target(w)], w))
    } else {
        s
    }
}

/// A new request as stored under `id`.
pub open spec fn stored_as(d: DownloadModel, id: Seq<char>) -> DownloadModel {
    DownloadModel { id: Some(id), ..d }
}

/// The store after adding a request under a fresh id.
pub open spec fn after_add(s: Records, d: DownloadModel, id: Seq<char>) -> Records {
    s.insert(id, stored_as(d, id))
}

/// The record stored under `id`, if any.
pub open spec fn lookup(s: Records, id: Seq<char>) -> Option<DownloadModel> {
    if s.contains_key(id) {
        Some(s[id])
    } else {
        None
    }
}

pub open spec fn model_of(d: Option<Download>) -> Option<DownloadModel> {
    match d {
        Some(x) => Some(x@),
        None => None,
    }
}

/// The write the status worker makes for a progress event; a percentage
/// outside 0..=100 is ignored.
pub open spec fn status_write(id: Seq<char>, p: u32) -> Option<WriteModel> {
    if p <= 100 {
        Some(WriteModel::Percentage(id, p))
    } else {
        None
    }
}

pub fn status_update_write(ev: &DownloadStatus) -> (r: Option<StoreWrite>)
    ensures
        match status_write(ev.download_id@, ev.percentage) {
            Some(w) => r matches Some(x) && x@ == w,
            None => r is None,
        },
{
    if ev.percentage <= 100 {
        Some(
            StoreWrite::Percentage {
                download_id: ev.download_id.clone(),
                percentage: ev.percentage,
            },
        )
    } else {
        None
    }
}

pub fn file_name_write(ev: &DownloadFileNameAvailable) -> (r: StoreWrite)
    ensures
        r@ == WriteModel::FileName(ev.download_id@, ev.file_name@),
{
    StoreWrite::FileName { download_id: ev.download_id.clone(), file_name: ev.file_name.clone() }
}

pub fn done_write(ev: &DoneDownloading) -> (r: StoreWrite)
    ensures
        r@ == WriteModel::Finish(ev.download_id@, ev.file_name@),
{
    StoreWrite::Finish { download_id: ev.download_id.clone(), file_name: ev.file_name.clone() }
}

/// A record after a write, as `written` says.
pub fn written_record(d: &Download, w: &StoreWrite) -> (r: Download)
    ensures
        r@ == written(d@, w@),
{
    let mut r = d.duplicate();
    match w {
        StoreWrite::Start { .. } => {
            if matches!(d.state, DownloadState::Initiated) {
                r.state = DownloadState::Downloading;
            }
        },
        StoreWrite::Percentage { percentage, .. } => {
            if !d.state.is_terminal() {
                r.percentage = *percentage;
            }
        },
        StoreWrite::FileName { file_name, .. } => {
            if !d.state.is_terminal() {
                r.file = Some(file_name.clone());
            }
        },
        StoreWrite::Finish { file_name, .. } => {
            r.state = DownloadState::Done;
            r.file = Some(file_name.clone());
        },
    }
    r
}

/// Why the store refused a request.
#[derive(Clone, Copy, Debug, PartialEq, Eq, Structural)]
pub enum StoreError {
    /// A record with that id is already stored.
    DuplicateId,
}

/// Request records in memory, each under its own id: a model of the request
/// store, and a store for tests and single-process use. A database-backed
/// store that runs the same writes as SQL is not covered by these proofs.
pub struct RequestStore {
    records: Vec<Download>,
    contents: Ghost<Records>,
}

impl RequestStore {
    /// Every record has an id, no two share one, and `view` holds exactly
    /// the records.
    pub closed spec fn wf(&self) -> bool {
        &&& forall|i: int|
            0 <= i < self.records@.len() ==> (#[trigger] self.records@[i])@.id is Some
                && self.contents@.contains_key(self.records@[i]@.id->0)
                && self.contents@[self.records@[i]@.id->0] == self.records@[i]@
        &&& forall|i: int, j: int|
            0 <= i < self.records@.len() && 0 <= j < self.records@.len() && i != j
                ==> (#[trigger] self.records@[i])@.id != (#[trigger] self.records@[j])@.id
        &&& forall|k: Seq<char>|
            #[trigger] self.contents@.contains_key(k) ==> exists|i: int|
                0 <= i < self.records@.len() && (#[trigger] self.records@[i])@.id == Some(k)
    }

    pub closed spec fn view(&self) -> Records {
        self.contents@
    }

    pub fn new() -> (r: RequestStore)
        ensures
            r.wf(),
            r.view() == Map::<Seq<char>, DownloadModel>::empty(),
    {
        RequestStore { records: Vec::new(), contents: Ghost(Map::empty()) }
    }

    /// Stores a new request under `id`, which the caller picks; an id that
    /// is already taken is refused and the store left as it was.
    pub fn add_download(&mut self, download: &Download, id: &str) -> (r: Result<
        Download,
        StoreError,
    >)
        requires
            old(self).wf(),
        ensures
            final(self).wf(),
            old(self).view().contains_key(id@) ==> r == Err::<Download, StoreError>(
                StoreError::DuplicateId,
            ) && final(self).view() == old(self).view(),
            !old(self).view().contains_key(id@) ==> (r matches Ok(d) && d@ == stored_as(
                download@,
                id@,
            )) && final(self).view() == after_add(old(self).view(), download@, id@),
    {
        if self.position(id).is_some() {
            return Err(StoreError::DuplicateId);
        }
        let mut d = download.duplicate();
        d.id = Some(id.to_owned());
        let stored = d.duplicate();
        let ghost old_records = self.records@;
        let ghost old_contents = self.contents@;
        self.records.push(d);
        self.contents = Ghost(self.contents@.insert(id@, stored@));
        proof {
            let n = old_records.len() as int;
            assert forall|k: Seq<char>| #[trigger] self.contents@.contains_key(k) implies exists|
                i: int,
            | 0 <= i < self.records@.len() && (#[trigger] self.records@[i])@.id == Some(k) by {
                if k == id@ {
                    assert(self.records@[n]@.id == Some(k));
                } else {
                    assert(old_contents.contains_key(k));
                    let i = choose|i: int|
                        0 <= i < old_records.len() && (#[trigger] old_records[i])@.id == Some(k);
                    assert(self.records@[i] == old_records[i]);
                }
            }
            assert forall|i: int|
                0 <= i < self.records@.len() implies (#[trigger] self.records@[i])@.id is Some
                && self.contents@.contains_key(self.records@[i]@.id->0)
                && self.contents@[self.records@[i]@.id->0] == self.records@[i]@ by {
                if i < n {
                    assert(self.records@[i] == old_records[i]);
                    assert(old_contents.contains_key(old_records[i]@.id->0));
                }
            }
        }
        Ok(stored)
    }

    /// The request stored under `id`; an unknown id gives `None`.
    pub fn get_by_download_id(&self, id: &str) -> (r: Option<Download>)
        requires
            self.wf(),
        ensures
            model_of(r) == lookup(self.view(), id@),
            r matches Some(d) ==> d@.id == Some(id@),
    {
        match self.position(id) {
            Some(i) => Some(self.records[i].duplicate()),
            None => None,
        }
    }

    /// Every stored request of one requester.
    pub fn get_downloads_by_requester(&self, requester_id: &str) -> (r: Vec<Download>)
        requires
            self.wf(),
        ensures
            forall|j: int|
                0 <= j < r@.len() ==> (#[trigger] r@[j])@.requester_id == Some(requester_id@)
                    && r@[j]@.id is Some && lookup(self.view(), r@[j]@.id->0) == Some(r@[j]@),
            forall|k: Seq<char>|
                #[trigger] self.view().contains_key(k) && self.view()[k].requester_id == Some(
                    requester_id@,
                ) ==> exists|j: int| 0 <= j < r@.len() && (#[trigger] r@[j])@ == self.view()[k],
            forall|a: int, b: int|
                0 <= a < r@.len() && 0 <= b < r@.len() && a != b ==> (#[trigger] r@[a])@.id != (
                #[trigger] r@[b])@.id,
    {
        let mut out: Vec<Download> = Vec::new();
        let mut i: usize = 0;
        while i < self.records.len()
            invariant
                self.wf(),
                i <= self.records@.len(),
                forall|j: int|
                    0 <= j < out@.len() ==> (#[trigger] out@[j])@.requester_id == Some(
                        requester_id@,
                    ) && out@[j]@.id is Some && lookup(self.view(), out@[j]@.id->0) == Some(
                        out@[j]@,
                    ),
                forall|m: int|
                    0 <= m < i && (#[trigger] self.records@[m])@.requester_id == Some(
                        requester_id@,
                    ) ==> exists|j: int| 0 <= j < out@.len() && (#[trigger] out@[j])@ == self.records@[m]@,
                forall|j: int|
                    0 <= j < out@.len() ==> exists|m: int|
                        0 <= m < i && (#[trigger] out@[j])@ == (#[trigger] self.records@[m])@,
                forall|a: int, b: int|
                    0 <= a < out@.len() && 0 <= b < out@.len() && a != b ==> (#[trigger] out@[a])@.id
                        != (#[trigger] out@[b])@.id,
            decreases self.records.len() - i,
        {
            let take = match &self.records[i].requester_id {
                Some(x) => str_eq(x.as_str(), requester_id),
                None => false,
            };
            if take {
                let ghost before = out@;
                out.push(self.records[i].duplicate());
                proof {
                    assert(out@[before.len() as int]@ == self.records@[i as int]@);
                    assert(self.records@[i as int]@.id is Some);
                    assert forall|j: int| 0 <= j < out@.len() implies exists|m: int|
                        0 <= m < i + 1 && (#[trigger] out@[j])@ == (
                        #[trigger] self.records@[m])@ by {
                        if j < before.len() {
                            assert(out@[j] == before[j]);
                            let m = choose|m: int|
                                0 <= m < i && (#[trigger] before[j])@ == (
                                #[trigger] self.records@[m])@;
                        } else {
                            assert(out@[j]@ == self.records@[i as int]@);
                        }
                    }
                    assert forall|a: int, b: int|
                        0 <= a < out@.len() && 0 <= b < out@.len() && a != b implies (
                        #[trigger] out@[a])@.id != (#[trigger] out@[b])@.id by {
                        if a < before.len() && b < before.len() {
                            assert(out@[a] == before[a] && out@[b] == before[b]);
                        } else if a < before.len() {
                            assert(out@[a] == before[a]);
                            let m = choose|m: int|
                                0 <= m < i && (#[trigger] before[a])@ == (
                                #[trigger] self.records@[m])@;
                            assert(self.records@[m]@.id != self.records@[i as int]@.id);
                        } else if b < before.len() {
                            assert(out@[b] == before[b]);
                            let m = choose|m: int|
                                0 <= m < i && (#[trigger] before[b])@ == (
                                #[trigger] self.records@[m])@;
                            assert(self.records@[m]@.id != self.records@[i as int]@.id);
                        }
                    }
                    assert forall|j: int| 0 <= j < out@.len() implies (#[trigger] out@[j])@.requester_id
                        == Some(requester_id@) && out@[j]@.id is Some && lookup(
                        self.view(),
                        out@[j]@.id->0,
                    ) == Some(out@[j]@) by {
                        if j < before.len() {
                            assert(out@[j] == before[j]);
                        }
                    }
                    assert forall|m: int|
                        0 <= m < i + 1 && (#[trigger] self.records@[m])@.requester_id == Some(
                            requester_id@,
                        ) implies exists|j: int|
                        0 <= j < out@.len() && (#[trigger] out@[j])@ == self.records@[m]@ by {
                        if m < i {
                            let j = choose|j: int|
                                0 <= j < before.len() && (#[trigger] before[j])@
                                    == self.records@[m]@;
                            assert(out@[j] == before[j]);
                        } else {
                            assert(out@[before.len() as int]@ == self.records@[m]@);
                        }
                    }
                }
            }
            i = i + 1;
        }
        proof {
            assert forall|k: Seq<char>|
                #[trigger] self.view().contains_key(k) && self.view()[k].requester_id == Some(
                    requester_id@,
                ) implies exists|j: int| 0 <= j < out@.len() && (#[trigger] out@[j])@ == self.view()[k] by {
                let m = choose|m: int|
                    0 <= m < self.records@.len() && (#[trigger] self.records@[m])@.id == Some(k);
                assert(self.contents@[k] == self.records@[m]@);
            }
        }
        out
    }

    /// Makes one field-level write, and says whether a record had its id.
    pub fn apply(&mut self, w: &StoreWrite) -> (r: bool)
        requires
            old(self).wf(),
        ensures
            final(self).wf(),
            final(self).view() == after_write(old(self).view(), w@),
            r == old(self).view().contains_key(write_target(w@)),
    {
        let id = match w {
            StoreWrite::Start { download_id } => download_id.as_str(),
            StoreWrite::Percentage { download_id, .. } => download_id.as_str(),
            StoreWrite::FileName { download_id, .. } => download_id.as_str(),
            StoreWrite::Finish { download_id, .. } => download_id.as_str(),
        };
        match self.position(id) {
            None => false,
            Some(i) => {
                let next = written_record(&self.records[i], w);
                let ghost old_records = self.records@;
                let ghost old_contents = self.contents@;
                let ghost nm = next@;
                self.records.set(i, next);
                self.contents = Ghost(self.contents@.insert(id@, nm));
                proof {
                    assert(old_contents.contains_key(id@));
                    assert forall|k: Seq<char>| #[trigger] self.contents@.contains_key(k) implies exists|
                        j: int,
                    | 0 <= j < self.records@.len() && (#[trigger] self.records@[j])@.id == Some(k) by {
                        if k == id@ {
                            assert(self.records@[i as int]@.id == Some(k));
                        } else {
                            let j = choose|j: int|
                                0 <= j < old_records.len() && (#[trigger] old_records[j])@.id
                                    == Some(k);
                            assert(self.records@[j] == old_records[j]);
                        }
                    }
                    assert forall|j: int|
                        0 <= j < self.records@.len() implies (#[trigger] self.records@[j])@.id is Some
                        && self.contents@.contains_key(self.records@[j]@.id->0)
                        && self.contents@[self.records@[j]@.id->0] == self.records@[j]@ by {
                        if j != i {
                            assert(self.records@[j] == old_records[j]);
                            assert(old_records[j]@.id != old_records[i as int]@.id);
                        }
                    }
                    assert forall|a: int, b: int|
                        0 <= a < self.records@.len() && 0 <= b < self.records@.len() && a != b
                            implies (#[trigger] self.records@[a])@.id != (
                        #[trigger] self.records@[b])@.id by {
                        assert(old_records[a]@.id != old_records[b]@.id);
                    }
                }
                true
            },
        }
    }

    /// Records the progress of a request.
    pub fn update_percentage(&mut self, download_id: &str, percentage: u32) -> (r: bool)
        requires
            old(self).wf(),
        ensures
            final(self).wf(),
            final(self).view() == after_write(
                old(self).view(),
                WriteModel::Percentage(download_id@, percentage),
            ),
            r == old(self).view().contains_key(download_id@),
    {
        self.apply(&StoreWrite::Percentage { download_id: download_id.to_owned(), percentage })
    }

    /// Records the file name the fetch tool reported.
    pub fn update_file_name(&mut self, download_id: &str, file_name: String) -> (r: bool)
        requires
            old(self).wf(),
        ensures
            final(self).wf(),
            final(self).view() == after_write(
                old(self).view(),
                WriteModel::FileName(download_id@, file_name@),
            ),
            r == old(self).view().contains_key(download_id@),
    {
        self.apply(&StoreWrite::FileName { download_id: download_id.to_owned(), file_name })
    }

    /// Marks a request `Done` with its final file name.
    pub fn finish_download(&mut self, download_id: &str, file_name: &str) -> (r: bool)
        requires
            old(self).wf(),
        ensures
            final(self).wf(),
            final(self).view() == after_write(
                old(self).view(),
                WriteModel::Finish(download_id@, file_name@),
            ),
            r == old(self).view().contains_key(download_id@),
    {
        self.apply(
            &StoreWrite::Finish { download_id: download_id.to_owned(), file_name: file_name.to_owned() },
        )
    }

    /// Index of the record with id `id`.
    fn position(&self, id: &str) -> (r: Option<usize>)
        requires
            self.wf(),
        ensures
            r matches Some(i) ==> i < self.records@.len() && self.records@[i as int]@.id == Some(
                id@,
            ),
            r is None ==> !self.view().contains_key(id@),
    {
        let mut i: usize = 0;
        while i < self.records.len()
            invariant
                i <= self.records@.len(),
                forall|j: int| 0 <= j < i ==> self.records@[j]@.id != Some(id@),
            decreases self.records.len() - i,
        {
            let matches = match &self.records[i].id {
                Some(x) => str_eq(x.as_str(), id),
                None => false,
            };
            if matches {
                return Some(i);
            }
            i = i + 1;
        }
        None
    }
}

} // verus!

verus! {

/// A progress report reaches the record as it is: a percentage in 0..=100
/// from a progress line is stored exactly on a request that is still
/// running, and nothing else changes, neither the request's state and file
/// name nor any other record; a percentage above 100 is ignored; and a line
/// without a progress match gives no progress event at all.
pub proof fn progress_is_stored(s: Records, id: Seq<char>, line: Seq<char>, seen: bool, p: u32)
    requires
        s.contains_key(id),
        !is_terminal_state(s[id].state),
    ensures
        progress_of(line) matches Some(q) ==> q <= 100 && line_publications(id, seen, line).last()
            == PublicationModel::Progress(id, q),
        progress_of(line) is None ==> forall|i: int|
            0 <= i < line_publications(id, seen, line).len() ==> !(#[trigger] line_publications(
                id,
                seen,
                line,
            )[i] is Progress),
        p <= 100 ==> status_write(id, p) == Some(WriteModel::Percentage(id, p)) && after_write(
            s,
            WriteModel::Percentage(id, p),
        ) == s.insert(id, DownloadModel { percentage: p, ..s[id] }),
        p > 100 ==> status_write(id, p) is None,
{
}

/// Delivering the same `FetchDone` twice leaves the store as delivering it
/// once.
pub proof fn done_is_idempotent(s: Records, id: Seq<char>, file_name: Seq<char>)
    ensures
        after_write(after_write(s, WriteModel::Finish(id, file_name)), WriteModel::Finish(id, file_name))
            == after_write(s, WriteModel::Finish(id, file_name)),
{
    let once = after_write(s, WriteModel::Finish(id, file_name));
    if s.contains_key(id) {
        assert(after_write(once, WriteModel::Finish(id, file_name)) =~= once);
    }
}

} // verus!
