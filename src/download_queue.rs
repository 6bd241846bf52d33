use vstd::prelude::*;

use crate::download::{opt_view, Download, DownloadModel};
use crate::download_state::DownloadState;
use crate::store::{lookup, Records, RequestStore, StoreError};
use crate::text::str_eq;

verus! {

/// How long a request's working directory is kept: five minutes, in
/// milliseconds.
pub const STALE_AFTER_MS: i64 = 300000;

/// Whether a request created at `created` is stale at `now` (both in
/// milliseconds): more than five minutes have passed.
pub open spec fn stale(created: i64, now: i64) -> bool {
    created + STALE_AFTER_MS < now
}

pub fn is_older(created: i64, now: i64) -> (r: bool)
    ensures
        r == stale(created, now),
{
    (created as i128) + (STALE_AFTER_MS as i128) < (now as i128)
}

/// Why a queue operation failed.
#[derive(Clone, Copy, Debug, PartialEq, Eq, Structural)]
pub enum QueueError {
    /// The store refused the write.
    Persistence,
    /// A stored record lacks a field it must have (an id after insertion).
    Invariant,
    /// No request has that id.
    NotFound,
    /// The request exists but has no artifact yet.
    NotReady,
}

/// The artifact name of a looked-up request: `NotFound` where there is no
/// request, `NotReady` where it has no file name yet.
pub fn get_file_name(download: Option<Download>) -> (r: Result<String, QueueError>)
    ensures
        download is None ==> r == Err::<String, QueueError>(QueueError::NotFound),
        download matches Some(d) ==> match d.file {
            Some(f) => r matches Ok(n) && n@ == f@,
            None => r == Err::<String, QueueError>(QueueError::NotReady),
        },
{
    match download {
        Some(d) => match d.file {
            Some(f) => Ok(f),
            None => Err(QueueError::NotReady),
        },
        None => Err(QueueError::NotFound),
    }
}

/// The id of a freshly stored request; a record without one breaks the
/// store's promise.
pub fn stored_id(stored: &Download) -> (r: Result<String, QueueError>)
    ensures
        match stored.id {
            Some(i) => if i@.len() > 0 {
                r matches Ok(x) && x@ == i@
            } else {
                r == Err::<String, QueueError>(QueueError::Invariant)
            },
            None => r == Err::<String, QueueError>(QueueError::Invariant),
        },
{
    match &stored.id {
        Some(i) => if i.as_str().is_empty() {
            Err(QueueError::Invariant)
        } else {
            Ok(i.clone())
        },
        None => Err(QueueError::Invariant),
    }
}

/// The record a new request for `link` is stored as under `id`.
pub open spec fn new_request(
    link: Seq<char>,
    requester_id: Option<Seq<char>>,
    now: i64,
    id: Seq<char>,
) -> DownloadModel {
    DownloadModel {
        id: Some(id),
        state: DownloadState::Initiated,
        link: link,
        file: None,
        insert_time: Some(now),
        percentage: 0,
        requester_id: requester_id,
    }
}

/// Accepts a request: stores it in state `Initiated` under `id`, created
/// at `now`, and puts it in the index of working directories. Returns the
/// request's id. An empty id is refused as a broken store promise, a taken
/// one as a failed write; either way nothing changes.
pub fn add_request(
    store: &mut RequestStore,
    index: &mut DownloadIndex,
    link: &str,
    requester_id: Option<String>,
    now: i64,
    id: &str,
) -> (r: Result<String, QueueError>)
    requires
        old(store).wf(),
        old(index).wf(),
    ensures
        final(store).wf(),
        final(index).wf(),
        id@.len() == 0 ==> r == Err::<String, QueueError>(QueueError::Invariant)
            && final(store).view() == old(store).view() && final(index).view() == old(index).view(),
        id@.len() > 0 && old(store).view().contains_key(id@) ==> r == Err::<String, QueueError>(
            QueueError::Persistence,
        ) && final(store).view() == old(store).view() && final(index).view() == old(
            index,
        ).view(),
        id@.len() > 0 && !old(store).view().contains_key(id@) ==> (r matches Ok(x) && x@ == id@
            && x@.len() > 0) && final(store).view() == old(store).view().insert(
            id@,
            new_request(link@, opt_view(requester_id), now, id@),
        ) && final(index).view() == old(index).view().insert(id@, now),
{
    if id.is_empty() {
        return Err(QueueError::Invariant);
    }
    let d = Download::initiated(link, requester_id, now);
    match store.add_download(&d, id) {
        Ok(stored) => {
            index.track(id, now);
            stored_id(&stored)
        },
        Err(StoreError::DuplicateId) => Err(QueueError::Persistence),
    }
}

/// One request in the index of working directories.
#[derive(Clone, Debug)]
pub struct IndexEntry {
    pub id: String,
    pub insert_time: i64,
}

/// Request ids with their creation times: the requests whose working
/// directories the sweep may remove. Best effort; the store is what counts.
pub struct DownloadIndex {
    entries: Vec<IndexEntry>,
    times: Ghost<Map<Seq<char>, i64>>,
}

/// The index after a sweep at `now`: a stale entry goes unless the removal
/// of its directory failed (it is in `failed`); every other entry stays.
pub open spec fn after_sweep(s: Map<Seq<char>, i64>, now: i64, failed: Set<Seq<char>>) -> Map<
    Seq<char>,
    i64,
> {
    s.restrict(s.dom().filter(|k: Seq<char>| !(stale(s[k], now) && !failed.contains(k))))
}

pub open spec fn view_set(v: Seq<String>) -> Set<Seq<char>> {
    Set::new(|k: Seq<char>| exists|i: int| 0 <= i < v.len() && (#[trigger] v[i])@ == k)
}

impl DownloadIndex {
    /// Ids are unique and `view` holds exactly the entries.
    pub closed spec fn wf(&self) -> bool {
        &&& forall|i: int|
            0 <= i < self.entries@.len() ==> self.times@.contains_key(
                (#[trigger] self.entries@[i]).id@,
            ) && self.times@[self.entries@[i].id@] == self.entries@[i].insert_time
        &&& forall|i: int, j: int|
            0 <= i < self.entries@.len() && 0 <= j < self.entries@.len() && i != j
                ==> (#[trigger] self.entries@[i]).id@ != (#[trigger] self.entries@[j]).id@
        &&& forall|k: Seq<char>|
            #[trigger] self.times@.contains_key(k) ==> exists|i: int|
                0 <= i < self.entries@.len() && (#[trigger] self.entries@[i]).id@ == k
    }

    pub closed spec fn view(&self) -> Map<Seq<char>, i64> {
        self.times@
    }

    pub fn new() -> (r: DownloadIndex)
        ensures
            r.wf(),
            r.view() == Map::<Seq<char>, i64>::empty(),
    {
        DownloadIndex { entries: Vec::new(), times: Ghost(Map::empty()) }
    }

    fn position(&self, id: &str) -> (r: Option<usize>)
        requires
            self.wf(),
        ensures
            r matches Some(i) ==> i < self.entries@.len() && self.entries@[i as int].id@ == id@,
            r is None ==> !self.view().contains_key(id@),
    {
        let mut i: usize = 0;
        while i < self.entries.len()
            invariant
                i <= self.entries@.len(),
                forall|j: int| 0 <= j < i ==> self.entries@[j].id@ != id@,
            decreases self.entries.len() - i,
        {
            if str_eq(self.entries[i].id.as_str(), id) {
                return Some(i);
            }
            i = i + 1;
        }
        None
    }

    /// Records that request `id` was created at `insert_time`, replacing
    /// an earlier entry for the same id.
    pub fn track(&mut self, id: &str, insert_time: i64)
        requires
            old(self).wf(),
        ensures
            final(self).wf(),
            final(self).view() == old(self).view().insert(id@, insert_time),
    {
        let entry = IndexEntry { id: id.to_owned(), insert_time };
        let ghost old_entries = self.entries@;
        match self.position(id) {
            Some(i) => {
                self.entries.set(i, entry);
            },
            None => {
                self.entries.push(entry);
            },
        }
        self.times = Ghost(self.times@.insert(id@, insert_time));
        proof {
            assert forall|k: Seq<char>| #[trigger] self.times@.contains_key(k) implies exists|
                i: int,
            | 0 <= i < self.entries@.len() && (#[trigger] self.entries@[i]).id@ == k by {
                if k == id@ {
                    if self.entries@.len() > old_entries.len() {
                        assert(self.entries@[old_entries.len() as int].id@ == k);
                    } else {
                        let i = choose|i: int| 0 <= i < old_entries.len() && old_entries[i].id@ == id@;
                        assert(self.entries@[i].id@ == k);
                    }
                } else {
                    let i = choose|i: int|
                        0 <= i < old_entries.len() && (#[trigger] old_entries[i]).id@ == k;
                    assert(self.entries@[i] == old_entries[i]);
                }
            }
            assert forall|i: int|
                0 <= i < self.entries@.len() implies self.times@.contains_key(
                (#[trigger] self.entries@[i]).id@,
            ) && self.times@[self.entries@[i].id@] == self.entries@[i].insert_time by {
                if i < old_entries.len() && self.entries@[i].id@ != id@ {
                    assert(self.entries@[i] == old_entries[i]);
                }
            }
            assert forall|a: int, b: int|
                0 <= a < self.entries@.len() && 0 <= b < self.entries@.len() && a != b
                    implies (#[trigger] self.entries@[a]).id@ != (
                #[trigger] self.entries@[b]).id@ by {
                if a < old_entries.len() && b < old_entries.len() {
                    assert(old_entries[a].id@ != old_entries[b].id@);
                }
            }
        }
    }

    /// The ids whose working directories are due for removal at `now`.
    pub fn stale_ids(&self, now: i64) -> (r: Vec<String>)
        requires
            self.wf(),
        ensures
            forall|j: int|
                0 <= j < r@.len() ==> self.view().contains_key((#[trigger] r@[j])@) && stale(
                    self.view()[r@[j]@],
                    now,
                ),
            forall|k: Seq<char>|
                #[trigger] self.view().contains_key(k) && stale(self.view()[k], now)
                    ==> view_set(r@).contains(k),
            forall|a: int, b: int|
                0 <= a < r@.len() && 0 <= b < r@.len() && a != b ==> (#[trigger] r@[a])@ != (
                #[trigger] r@[b])@,
    {
        let mut out: Vec<String> = Vec::new();
        let mut i: usize = 0;
        while i < self.entries.len()
            invariant
                self.wf(),
                i <= self.entries@.len(),
                forall|j: int|
                    0 <= j < out@.len() ==> self.view().contains_key((#[trigger] out@[j])@)
                        && stale(self.view()[out@[j]@], now),
                forall|m: int|
                    0 <= m < i && stale((#[trigger] self.entries@[m]).insert_time, now)
                        ==> view_set(out@).contains(self.entries@[m].id@),
                forall|j: int|
                    0 <= j < out@.len() ==> exists|m: int|
                        0 <= m < i && (#[trigger] out@[j])@ == (#[trigger] self.entries@[m]).id@,
                forall|a: int, b: int|
                    0 <= a < out@.len() && 0 <= b < out@.len() && a != b ==> (#[trigger] out@[a])@
                        != (#[trigger] out@[b])@,
            decreases self.entries.len() - i,
        {
            if is_older(self.entries[i].insert_time, now) {
                let ghost before = out@;
                out.push(self.entries[i].id.clone());
                proof {
                    assert forall|m: int|
                        0 <= m < i + 1 && stale((#[trigger] self.entries@[m]).insert_time, now)
                            implies view_set(out@).contains(self.entries@[m].id@) by {
                        if m < i {
                            assert(view_set(before).contains(self.entries@[m].id@));
                            let j = choose|j: int|
                                0 <= j < before.len() && (#[trigger] before[j])@
                                    == self.entries@[m].id@;
                            assert(out@[j] == before[j]);
                        } else {
                            assert(out@[before.len() as int]@ == self.entries@[m].id@);
                        }
                    }
                    assert forall|j: int| 0 <= j < out@.len() implies exists|m: int|
                        0 <= m < i + 1 && (#[trigger] out@[j])@ == (
                        #[trigger] self.entries@[m]).id@ by {
                        if j < before.len() {
                            assert(out@[j] == before[j]);
                            let m = choose|m: int|
                                0 <= m < i && (#[trigger] before[j])@ == (
                                #[trigger] self.entries@[m]).id@;
                        } else {
                            assert(out@[j]@ == self.entries@[i as int].id@);
                        }
                    }
                    assert forall|a: int, b: int|
                        0 <= a < out@.len() && 0 <= b < out@.len() && a != b implies (
                        #[trigger] out@[a])@ != (#[trigger] out@[b])@ by {
                        if a < before.len() && b < before.len() {
                            assert(out@[a] == before[a] && out@[b] == before[b]);
                        } else if a < before.len() {
                            assert(out@[a] == before[a]);
                            let m = choose|m: int|
                                0 <= m < i && (#[trigger] before[a])@ == (
                                #[trigger] self.entries@[m]).id@;
                            assert(self.entries@[m].id@ != self.entries@[i as int].id@);
                        } else if b < before.len() {
                            assert(out@[b] == before[b]);
                            let m = choose|m: int|
                                0 <= m < i && (#[trigger] before[b])@ == (
                                #[trigger] self.entries@[m]).id@;
                            assert(self.entries@[m].id@ != self.entries@[i as int].id@);
                        }
                    }
                    assert forall|j: int| 0 <= j < out@.len() implies self.view().contains_key(
                        (#[trigger] out@[j])@,
                    ) && stale(self.view()[out@[j]@], now) by {
                        if j < before.len() {
                            assert(out@[j] == before[j]);
                        }
                    }
                }
            }
            i = i + 1;
        }
        proof {
            assert forall|k: Seq<char>|
                #[trigger] self.view().contains_key(k) && stale(self.view()[k], now) implies view_set(
                out@,
            ).contains(k) by {
                let m = choose|m: int|
                    0 <= m < self.entries@.len() && (#[trigger] self.entries@[m]).id@ == k;
                assert(stale(self.entries@[m].insert_time, now));
            }
        }
        out
    }

    /// Removes every entry that is stale at `now`, except those whose
    /// directory could not be removed (`failed`): they are tried again at
    /// the next sweep.
    pub fn sweep(&mut self, now: i64, failed: &Vec<String>)
        requires
            old(self).wf(),
        ensures
            final(self).wf(),
            final(self).view() == after_sweep(old(self).view(), now, view_set(failed@)),
    {
        let ghost old_map = self.times@;
        let ghost fs = view_set(failed@);
        let mut kept: Vec<IndexEntry> = Vec::new();
        let ghost mut kept_map: Map<Seq<char>, i64> = Map::empty();
        let mut i: usize = 0;
        while i < self.entries.len()
            invariant
                self.wf(),
                self.times@ == old_map,
                fs == view_set(failed@),
                i <= self.entries@.len(),
                forall|j: int|
                    0 <= j < kept@.len() ==> kept_map.contains_key((#[trigger] kept@[j]).id@)
                        && kept_map[kept@[j].id@] == kept@[j].insert_time,
                forall|a: int, b: int|
                    0 <= a < kept@.len() && 0 <= b < kept@.len() && a != b
                        ==> (#[trigger] kept@[a]).id@ != (#[trigger] kept@[b]).id@,
                forall|k: Seq<char>|
                    #[trigger] kept_map.contains_key(k) ==> exists|j: int|
                        0 <= j < kept@.len() && (#[trigger] kept@[j]).id@ == k,
                forall|j: int|
                    0 <= j < kept@.len() ==> exists|m: int|
                        0 <= m < i && (#[trigger] self.entries@[m]).id@ == (#[trigger] kept@[j]).id@,
                forall|m: int|
                    0 <= m < i && !(stale((#[trigger] self.entries@[m]).insert_time, now)
                        && !fs.contains(self.entries@[m].id@)) ==> kept_map.contains_key(
                        self.entries@[m].id@,
                    ),
                forall|k: Seq<char>|
                    #[trigger] kept_map.contains_key(k) ==> old_map.contains_key(k) && !(stale(
                        old_map[k],
                        now,
                    ) && !fs.contains(k)) && kept_map[k] == old_map[k],
            decreases self.entries.len() - i,
        {
            let e = &self.entries[i];
            let mut in_failed = false;
            let mut j: usize = 0;
            while j < failed.len()
                invariant
                    j <= failed@.len(),
                    in_failed <==> exists|x: int| 0 <= x < j && (#[trigger] failed@[x])@ == e.id@,
                decreases failed.len() - j,
            {
                if str_eq(failed[j].as_str(), e.id.as_str()) {
                    in_failed = true;
                }
                j = j + 1;
            }
            assert(in_failed <==> fs.contains(e.id@));
            if !is_older(e.insert_time, now) || in_failed {
                let ghost before = kept@;
                proof {
                    assert(!kept_map.contains_key(e.id@)) by {
                        if kept_map.contains_key(e.id@) {
                            let m = choose|m: int|
                                0 <= m < i && (#[trigger] self.entries@[m]).id@ == e.id@;
                            assert(self.entries@[m].id@ != self.entries@[i as int].id@);
                        }
                    }
                }
                kept.push(e.clone_entry());
                proof {
                    assert(old_map[e.id@] == e.insert_time);
                    kept_map = kept_map.insert(e.id@, e.insert_time);
                    assert forall|a: int, b: int|
                        0 <= a < kept@.len() && 0 <= b < kept@.len() && a != b
                            implies (#[trigger] kept@[a]).id@ != (#[trigger] kept@[b]).id@ by {
                        if a < before.len() && b < before.len() {
                            assert(kept@[a] == before[a] && kept@[b] == before[b]);
                        } else if a < before.len() {
                            assert(kept@[a] == before[a]);
                            assert(kept_map.contains_key(before[a].id@));
                        } else if b < before.len() {
                            assert(kept@[b] == before[b]);
                        }
                    }
                    assert forall|x: int|
                        0 <= x < kept@.len() implies kept_map.contains_key(
                        (#[trigger] kept@[x]).id@,
                    ) && kept_map[kept@[x].id@] == kept@[x].insert_time by {
                        if x < before.len() {
                            assert(kept@[x] == before[x]);
                        }
                    }
                    assert forall|k: Seq<char>| #[trigger] kept_map.contains_key(k) implies exists|
                        x: int,
                    | 0 <= x < kept@.len() && (#[trigger] kept@[x]).id@ == k by {
                        if k == e.id@ {
                            assert(kept@[before.len() as int].id@ == k);
                        } else {
                            let x = choose|x: int|
                                0 <= x < before.len() && (#[trigger] before[x]).id@ == k;
                            assert(kept@[x] == before[x]);
                        }
                    }
                    assert forall|x: int| 0 <= x < kept@.len() implies exists|m: int|
                        0 <= m < i + 1 && (#[trigger] self.entries@[m]).id@ == (
                        #[trigger] kept@[x]).id@ by {
                        if x < before.len() {
                            assert(kept@[x] == before[x]);
                        } else {
                            assert(self.entries@[i as int].id@ == kept@[x].id@);
                        }
                    }
                }
            }
            i = i + 1;
        }
        self.entries = kept;
        self.times = Ghost(kept_map);
        proof {
            assert forall|k: Seq<char>|
                old_map.contains_key(k) && !(stale(old_map[k], now) && !fs.contains(k)) implies #[trigger] kept_map.contains_key(k) by {
                let m = choose|m: int|
                    0 <= m < self.entries@.len() && (#[trigger] self.entries@[m]).id@ == k;
                assert(self.entries@[m].insert_time == old_map[k]);
            }
            assert(kept_map =~= after_sweep(old_map, now, fs));
        }
    }
}

impl IndexEntry {
    pub fn clone_entry(&self) -> (r: IndexEntry)
        ensures
            r.id@ == self.id@,
            r.insert_time == self.insert_time,
    {
        IndexEntry { id: self.id.clone(), insert_time: self.insert_time }
    }
}

} // verus!

verus! {

/// A request that was just added under a fresh, non-empty id is found under
/// that id, in state `Initiated`, with the link it was made for.
pub proof fn added_request_is_found(
    s: Records,
    link: Seq<char>,
    requester_id: Option<Seq<char>>,
    now: i64,
    id: Seq<char>,
)
    requires
        !s.contains_key(id),
    ensures
        lookup(s.insert(id, new_request(link, requester_id, now, id)), id) matches Some(m)
            && m.state == DownloadState::Initiated && m.link == link && m.id == Some(id),
{
}

/// At a sweep, an entry older than five minutes goes (unless removing its
/// directory failed), and a younger one stays, with its time.
pub proof fn sweep_removes_only_stale(
    s: Map<Seq<char>, i64>,
    now: i64,
    failed: Set<Seq<char>>,
    id: Seq<char>,
)
    requires
        s.contains_key(id),
    ensures
        s[id] + STALE_AFTER_MS < now && !failed.contains(id) ==> !after_sweep(
            s,
            now,
            failed,
        ).contains_key(id),
        s[id] + STALE_AFTER_MS >= now ==> after_sweep(s, now, failed).contains_key(id) && after_sweep(
            s,
            now,
            failed,
        )[id] == s[id],
{
}

} // verus!
