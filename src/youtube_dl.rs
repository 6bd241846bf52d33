use vstd::prelude::*;
use vstd::string::StringExecFns;
use vstd::utf8::encode_utf8;

use crate::lines::{file_name_of, parse_file_name, parse_line, progress_of};
use crate::text::{push_char, utf8_str};

verus! {

/// Why a run of the fetch tool did not produce a result.
#[derive(Clone, Debug, PartialEq, Eq)]
pub enum YoutubeDLError {
    /// The working directory could not be prepared.
    IOError(String),
    /// The tool wrote something that is not UTF-8.
    UTF8Error,
    /// The tool exited with a failure; this is what it wrote to stderr.
    Failure(String),
}

/// One command-line option of the fetch tool, with its value if it takes one.
#[derive(Clone, Debug)]
pub struct Arg {
    arg: String,
    input: Option<String>,
}

impl Arg {
    pub closed spec fn name(&self) -> Seq<char> {
        self.arg@
    }

    pub closed spec fn value(&self) -> Option<Seq<char>> {
        match self.input {
            Some(i) => Some(i@),
            None => None,
        }
    }

    /// The command-line words this option stands for.
    pub open spec fn words(&self) -> Seq<Seq<char>> {
        match self.value() {
            Some(v) => seq![self.name(), v],
            None => seq![self.name()],
        }
    }

    pub fn new(argument: &str) -> (r: Arg)
        ensures
            r.name() == argument@,
            r.value() is None,
    {
        Arg { arg: argument.to_owned(), input: None }
    }

    pub fn new_with_args(argument: &str, input: &str) -> (r: Arg)
        ensures
            r.name() == argument@,
            r.value() == Some(input@),
    {
        Arg { arg: argument.to_owned(), input: Some(input.to_owned()) }
    }

    /// The option as it reads on a command line: its name, then a space and
    /// its value if it has one.
    pub fn to_string(&self) -> (r: String)
        ensures
            r@ == match self.value() {
                Some(v) => self.name() + seq![' '] + v,
                None => self.name(),
            },
    {
        let mut out = self.arg.clone();
        match &self.input {
            Some(i) => {
                push_char(&mut out, ' ');
                out.append(i.as_str());
            },
            None => {},
        }
        out
    }
}

/// The command-line words of a list of options, in order.
pub open spec fn all_words(args: Seq<Arg>) -> Seq<Seq<char>>
    decreases args.len(),
{
    if args.len() == 0 {
        Seq::empty()
    } else {
        all_words(args.drop_last()) + args.last().words()
    }
}

pub open spec fn string_views(v: Seq<String>) -> Seq<Seq<char>> {
    v.map_values(|s: String| s@)
}

/// The options every fetch asks for: progress lines, one per line of output,
/// and an output name whose title part is cut at 90 characters.
pub fn download_args() -> (r: Vec<Arg>)
    ensures
        all_words(r@) == seq![
            "--progress"@,
            "--newline"@,
            "--output"@,
            "%(title).90s.%(ext)s"@,
        ],
{
    let r = vec![
        Arg::new("--progress"),
        Arg::new("--newline"),
        Arg::new_with_args("--output", "%(title).90s.%(ext)s"),
    ];
    proof {
        let s = r@;
        let s1 = s.drop_last();
        let s2 = s1.drop_last();
        let s3 = s2.drop_last();
        assert(s3 =~= Seq::<Arg>::empty());
        assert(all_words(s3) =~= Seq::<Seq<char>>::empty());
        assert(s2.last() == s[0] && s1.last() == s[1] && s.last() == s[2]);
        assert(all_words(s2) =~= seq!["--progress"@]);
        assert(all_words(s1) =~= seq!["--progress"@, "--newline"@]);
        assert(all_words(s) =~= seq![
            "--progress"@,
            "--newline"@,
            "--output"@,
            "%(title).90s.%(ext)s"@,
        ]);
    }
    r
}

/// The directory a request's download is written to: `storage_path/id`.
pub fn work_dir(storage_path: &str, id: &str) -> (r: String)
    ensures
        r@ == storage_path@ + seq!['/'] + id@,
{
    let mut out = storage_path.to_owned();
    push_char(&mut out, '/');
    out.append(id);
    out
}

/// A prepared run of the fetch tool: where it writes, what it fetches, and
/// with which options.
#[derive(Clone, Debug)]
pub struct YoutubeDL {
    path: String,
    links: Vec<String>,
    args: Vec<Arg>,
}

/// What a successful run of the fetch tool leaves: the directory it wrote
/// to and what it printed.
#[derive(Clone, Debug)]
pub struct YoutubeDLResult {
    path: String,
    output: String,
}

impl YoutubeDLResult {
    pub closed spec fn dir(&self) -> Seq<char> {
        self.path@
    }

    pub closed spec fn printed(&self) -> Seq<char> {
        self.output@
    }

    /// A result for `path` with nothing printed yet.
    pub fn new(path: &String) -> (r: YoutubeDLResult)
        ensures
            r.dir() == path@,
            r.printed() == Seq::<char>::empty(),
    {
        YoutubeDLResult { path: path.clone(), output: String::new() }
    }

    pub fn output_dir(&self) -> (r: &String)
        ensures
            r@ == self.dir(),
    {
        &self.path
    }

    pub fn output(&self) -> (r: &String)
        ensures
            r@ == self.printed(),
    {
        &self.output
    }
}

impl YoutubeDL {
    pub closed spec fn dir(&self) -> Seq<char> {
        self.path@
    }

    pub closed spec fn link_list(&self) -> Seq<Seq<char>> {
        string_views(self.links@)
    }

    pub closed spec fn options(&self) -> Seq<Arg> {
        self.args@
    }

    /// A run over several links into `dl_path`, a directory that the caller
    /// has created where it was missing; `is_dir` says whether it is one.
    pub fn new_multiple_links(dl_path: &String, is_dir: bool, args: Vec<Arg>, links: Vec<String>) -> (r:
        Result<YoutubeDL, YoutubeDLError>)
        ensures
            !is_dir <==> r is Err,
            r matches Err(e) ==> e is IOError,
            r matches Ok(y) ==> y.dir() == dl_path@ && y.options() == args@ && y.link_list()
                == string_views(links@),
    {
        if !is_dir {
            return Err(YoutubeDLError::IOError("path is not a directory".to_owned()));
        }
        Ok(YoutubeDL { path: dl_path.clone(), links, args })
    }

    /// A run over one link.
    pub fn new(dl_path: &String, is_dir: bool, args: Vec<Arg>, link: &str) -> (r: Result<
        YoutubeDL,
        YoutubeDLError,
    >)
        ensures
            !is_dir <==> r is Err,
            r matches Err(e) ==> e is IOError,
            r matches Ok(y) ==> y.dir() == dl_path@ && y.options() == args@ && y.link_list()
                == seq![link@],
    {
        let links = vec![link.to_owned()];
        assert(string_views(links@) =~= seq![link@]);
        YoutubeDL::new_multiple_links(dl_path, is_dir, args, links)
    }

    /// The words to start the tool with: every option, then every link.
    pub fn command_args(&self) -> (r: Vec<String>)
        ensures
            string_views(r@) == all_words(self.options()) + self.link_list(),
    {
        let mut out: Vec<String> = Vec::new();
        let mut i: usize = 0;
        while i < self.args.len()
            invariant
                i <= self.args.len(),
                string_views(out@) == all_words(self.args@.subrange(0, i as int)),
            decreases self.args.len() - i,
        {
            let a = &self.args[i];
            let old_out = Ghost(out@);
            out.push(a.arg.clone());
            match &a.input {
                Some(v) => {
                    out.push(v.clone());
                },
                None => {},
            }
            proof {
                let pre = self.args@.subrange(0, i + 1);
                assert(pre.drop_last() =~= self.args@.subrange(0, i as int));
                assert(string_views(out@) =~= string_views(old_out@) + a.words());
            }
            i = i + 1;
        }
        assert(self.args@.subrange(0, self.args.len() as int) =~= self.args@);
        let ghost opts = string_views(out@);
        let mut j: usize = 0;
        while j < self.links.len()
            invariant
                j <= self.links.len(),
                string_views(out@) == opts + string_views(self.links@.subrange(0, j as int)),
            decreases self.links.len() - j,
        {
            let ghost before = out@;
            out.push(self.links[j].clone());
            assert(self.links@.subrange(0, j + 1) =~= self.links@.subrange(0, j as int).push(
                self.links@[j as int],
            ));
            assert(string_views(out@) =~= string_views(before).push(self.links@[j as int]@));
            assert(string_views(out@) =~= opts + string_views(self.links@.subrange(0, j + 1)));
            j = j + 1;
        }
        assert(self.links@.subrange(0, self.links.len() as int) =~= self.links@);
        out
    }

    /// What a run amounts to once the tool has exited: `success` is its exit
    /// status, `stdout` and `stderr` what it wrote.
    pub fn finish(&self, success: bool, stdout: &Vec<u8>, stderr: &Vec<u8>) -> (r: Result<
        YoutubeDLResult,
        YoutubeDLError,
    >)
        ensures
            !success ==> (r matches Err(e) && if valid_utf8_bytes(stderr@) {
                e matches YoutubeDLError::Failure(m) && encode_utf8(m@) == stderr@
            } else {
                e is UTF8Error
            }),
            success ==> (if valid_utf8_bytes(stdout@) {
                r matches Ok(res) && res.dir() == self.dir() && encode_utf8(res.printed())
                    == stdout@
            } else {
                r matches Err(e) && e is UTF8Error
            }),
    {
        if !success {
            return match utf8_str(stderr.as_slice()) {
                Some(s) => Err(YoutubeDLError::Failure(s.to_owned())),
                None => Err(YoutubeDLError::UTF8Error),
            };
        }
        let mut result = YoutubeDLResult::new(&self.path);
        match utf8_str(stdout.as_slice()) {
            Some(s) => {
                result.output = s.to_owned();
                Ok(result)
            },
            None => Err(YoutubeDLError::UTF8Error),
        }
    }
}

pub open spec fn valid_utf8_bytes(b: Seq<u8>) -> bool {
    vstd::utf8::valid_utf8(b)
}

/// What one line of the tool's output reports.
#[derive(Clone, Debug, PartialEq, Eq)]
pub struct LineEvents {
    pub file_name: Option<String>,
    pub percentage: Option<u32>,
}

/// Reads the fetch tool's output one line at a time. A file name is taken
/// from the first destination line only; a percentage from every progress
/// line whose number is at most 100.
#[derive(Clone, Copy, Debug, PartialEq, Eq)]
pub struct LineScanner {
    file_name_seen: bool,
}

impl LineScanner {
    pub closed spec fn seen(&self) -> bool {
        self.file_name_seen
    }

    pub fn new() -> (r: LineScanner)
        ensures
            !r.seen(),
    {
        LineScanner { file_name_seen: false }
    }

    pub fn scan(&mut self, line: String) -> (r: LineEvents)
        ensures
            old(self).seen() ==> r.file_name is None && final(self).seen(),
            !old(self).seen() ==> match file_name_of(line@) {
                Some(n) => r.file_name matches Some(f) && f@ == n && final(self).seen(),
                None => r.file_name is None && !final(self).seen(),
            },
            r.percentage == progress_of(line@),
    {
        let mut file_name: Option<String> = None;
        if !self.file_name_seen {
            file_name = parse_file_name(line.clone());
            if file_name.is_some() {
                self.file_name_seen = true;
            }
        }
        let percentage = match parse_line(line) {
            Some(Ok(p)) => if p <= 100 {
                Some(p)
            } else {
                None
            },
            _ => None,
        };
        LineEvents { file_name, percentage }
    }
}

} // verus!
