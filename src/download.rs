use vstd::prelude::*;

use crate::download_state::{state_of_name, DownloadState};

verus! {

/// A request to fetch one piece of media, as the store keeps it.
#[derive(Clone, Debug)]
pub struct Download {
    /// Given by the store; `None` before the record is stored.
    pub id: Option<String>,
    pub state: DownloadState,
    /// The source link the requester asked for.
    pub link: String,
    /// The artifact's name, once the fetch tool has reported one.
    pub file: Option<String>,
    /// Creation time in milliseconds since the Unix epoch.
    pub insert_time: Option<i64>,
    pub percentage: u32,
    pub requester_id: Option<String>,
}

/// A `Download` with its texts as character sequences.
pub struct DownloadModel {
    pub id: Option<Seq<char>>,
    pub state: DownloadState,
    pub link: Seq<char>,
    pub file: Option<Seq<char>>,
    pub insert_time: Option<i64>,
    pub percentage: u32,
    pub requester_id: Option<Seq<char>>,
}

pub open spec fn opt_view(o: Option<String>) -> Option<Seq<char>> {
    match o {
        Some(s) => Some(s@),
        None => None,
    }
}

impl View for Download {
    type V = DownloadModel;

    open spec fn view(&self) -> DownloadModel {
        DownloadModel {
            id: opt_view(self.id),
            state: self.state,
            link: self.link@,
            file: opt_view(self.file),
            insert_time: self.insert_time,
            percentage: self.percentage,
            requester_id: opt_view(self.requester_id),
        }
    }
}

/// Why a stored row does not make a `Download`.
#[derive(Clone, Copy, Debug, PartialEq, Eq, Structural)]
pub enum RowError {
    /// The state column holds no known state name.
    UnknownState,
    /// The percentage column is empty or outside 0..=100.
    BadPercentage,
}

pub fn copy_opt(o: &Option<String>) -> (r: Option<String>)
    ensures
        opt_view(r) == opt_view(*o),
{
    match o {
        Some(s) => Some(s.clone()),
        None => None,
    }
}

impl Download {
    /// A new request for `link`, created at `insert_time`, not stored yet.
    pub fn initiated(link: &str, requester_id: Option<String>, insert_time: i64) -> (r: Download)
        ensures
            r@ == (DownloadModel {
                id: None,
                state: DownloadState::Initiated,
                link: link@,
                file: None,
                insert_time: Some(insert_time),
                percentage: 0,
                requester_id: opt_view(requester_id),
            }),
    {
        Download {
            id: None,
            state: DownloadState::Initiated,
            link: link.to_owned(),
            file: None,
            insert_time: Some(insert_time),
            percentage: 0,
            requester_id,
        }
    }

    /// A field-by-field copy.
    pub fn duplicate(&self) -> (r: Download)
        ensures
            r@ == self@,
    {
        Download {
            id: copy_opt(&self.id),
            state: self.state,
            link: self.link.clone(),
            file: copy_opt(&self.file),
            insert_time: self.insert_time,
            percentage: self.percentage,
            requester_id: copy_opt(&self.requester_id),
        }
    }

    /// A request read back from a stored row. The state must be one of the
    /// known names and the percentage present and within 0..=100.
    pub fn from_row(
        download_id: String,
        state: &str,
        link: String,
        file: Option<String>,
        insert_time: i64,
        percentage: Option<i64>,
        requester_id: Option<String>,
    ) -> (r: Result<Download, RowError>)
        ensures
            state_of_name(state@) is None ==> r == Err::<Download, RowError>(
                RowError::UnknownState,
            ),
            state_of_name(state@) is Some && !(percentage matches Some(p) && 0 <= p <= 100)
                ==> r == Err::<Download, RowError>(RowError::BadPercentage),
            r matches Ok(d) ==> d@ == (DownloadModel {
                id: Some(download_id@),
                state: state_of_name(state@)->0,
                link: link@,
                file: opt_view(file),
                insert_time: Some(insert_time),
                percentage: percentage->0 as u32,
                requester_id: opt_view(requester_id),
            }),
            state_of_name(state@) is Some && (percentage matches Some(p) && 0 <= p <= 100)
                ==> r is Ok,
    {
        let st = match DownloadState::from_string(state) {
            Some(s) => s,
            None => {
                return Err(RowError::UnknownState);
            },
        };
        let p = match percentage {
            Some(p) => if 0 <= p && p <= 100 {
                p as u32
            } else {
                return Err(RowError::BadPercentage);
            },
            None => {
                return Err(RowError::BadPercentage);
            },
        };
        Ok(
            Download {
                id: Some(download_id),
                state: st,
                link,
                file,
                insert_time: Some(insert_time),
                percentage: p,
                requester_id,
            },
        )
    }
}

} // verus!
