use vstd::prelude::*;

use crate::text::{chars_of, same_chars};

verus! {

/// Where a request stands in the pipeline.
#[derive(Clone, Copy, Debug, PartialEq, Eq, Structural)]
pub enum DownloadState {
    Initiated,
    Downloading,
    Done,
    Error,
}

/// The name a state is stored and sent under.
pub open spec fn state_name(s: DownloadState) -> Seq<char> {
    match s {
        DownloadState::Initiated => "initiated"@,
        DownloadState::Downloading => "downloading"@,
        DownloadState::Done => "done"@,
        DownloadState::Error => "error"@,
    }
}

/// The state a name stands for, if any.
pub open spec fn state_of_name(n: Seq<char>) -> Option<DownloadState> {
    if n == "initiated"@ {
        Some(DownloadState::Initiated)
    } else if n == "downloading"@ {
        Some(DownloadState::Downloading)
    } else if n == "done"@ {
        Some(DownloadState::Done)
    } else if n == "error"@ {
        Some(DownloadState::Error)
    } else {
        None
    }
}

pub open spec fn is_terminal_state(s: DownloadState) -> bool {
    s == DownloadState::Done || s == DownloadState::Error
}

/// Reading back the name of a state gives that state.
pub proof fn lemma_state_name_round_trip(s: DownloadState)
    ensures
        state_of_name(state_name(s)) == Some(s),
{
    reveal_strlit("initiated");
    reveal_strlit("downloading");
    reveal_strlit("done");
    reveal_strlit("error");
    assert("initiated"@.len() == 9);
    assert("downloading"@.len() == 11);
    assert("done"@.len() == 4);
    assert("error"@.len() == 5);
}

/// What `str::to_lowercase` makes of a text.
pub uninterp spec fn lower_of(s: Seq<char>) -> Seq<char>;

/// Whether every character of `s` is one of `a`..`z`.
pub open spec fn ascii_lowercase_letters(s: Seq<char>) -> bool {
    forall|k: int| 0 <= k < s.len() ==> 97 <= (#[trigger] s[k]) as u32 <= 122
}

/// Relies on `str::to_lowercase`: the lowercase form of the text, which
/// depends on its characters alone; lowercase ASCII letters stay as they are.
#[verifier::external_body]
fn lowercase(s: &str) -> (r: String)
    ensures
        r@ == lower_of(s@),
        ascii_lowercase_letters(s@) ==> r@ == s@,
{
    s.to_lowercase()
}

/// Every state name is written in lowercase ASCII letters.
pub proof fn lemma_state_name_lowercase(s: DownloadState)
    ensures
        ascii_lowercase_letters(state_name(s)),
{
    reveal_strlit("initiated");
    reveal_strlit("downloading");
    reveal_strlit("done");
    reveal_strlit("error");
}

fn name_is(v: &Vec<char>, name: &str) -> (r: bool)
    ensures
        r == (v@ == name@),
{
    let n = chars_of(name);
    same_chars(v, &n)
}

impl DownloadState {
    pub fn as_str(&self) -> (r: &'static str)
        ensures
            r@ == state_name(*self),
    {
        match self {
            DownloadState::Initiated => "initiated",
            DownloadState::Downloading => "downloading",
            DownloadState::Done => "done",
            DownloadState::Error => "error",
        }
    }

    /// The state named `s`; `None` for any other text.
    pub fn from_string(s: &str) -> (r: Option<DownloadState>)
        ensures
            r == state_of_name(s@),
    {
        let v = chars_of(s);
        if name_is(&v, "initiated") {
            Some(DownloadState::Initiated)
        } else if name_is(&v, "downloading") {
            Some(DownloadState::Downloading)
        } else if name_is(&v, "done") {
            Some(DownloadState::Done)
        } else if name_is(&v, "error") {
            Some(DownloadState::Error)
        } else {
            None
        }
    }

    /// The state named `s` in any letter case, as records on the wire are
    /// read; any other text is refused.
    pub fn parse(s: &str) -> (r: Option<DownloadState>)
        ensures
            r == state_of_name(lower_of(s@)),
            ascii_lowercase_letters(s@) ==> r == state_of_name(s@),
    {
        let lower = lowercase(s);
        DownloadState::from_string(lower.as_str())
    }

    /// `Done` and `Error` end a request's pipeline.
    pub fn is_terminal(&self) -> (r: bool)
        ensures
            r == is_terminal_state(*self),
    {
        match self {
            DownloadState::Done | DownloadState::Error => true,
            _ => false,
        }
    }
}

} // verus!
