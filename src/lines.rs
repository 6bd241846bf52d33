use vstd::prelude::*;

use crate::text::{chars_of, has_at, occurs_at, string_from};

verus! {

/// The tag that the fetch tool puts before its download lines.
pub open spec fn download_tag() -> Seq<char> {
    seq!['[', 'd', 'o', 'w', 'n', 'l', 'o', 'a', 'd', ']']
}

/// The short form of the tag, also accepted.
pub open spec fn fetch_tag() -> Seq<char> {
    seq!['[', 'f', 'e', 't', 'c', 'h', ']']
}

/// What stands between the tag and the file name on a destination line.
pub open spec fn destination_marker() -> Seq<char> {
    seq![' ', 'D', 'e', 's', 't', 'i', 'n', 'a', 't', 'i', 'o', 'n', ':', ' ']
}

fn download_tag_chars() -> (r: Vec<char>)
    ensures
        r@ == download_tag(),
{
    let r = vec!['[', 'd', 'o', 'w', 'n', 'l', 'o', 'a', 'd', ']'];
    assert(r@ =~= download_tag());
    r
}

fn fetch_tag_chars() -> (r: Vec<char>)
    ensures
        r@ == fetch_tag(),
{
    let r = vec!['[', 'f', 'e', 't', 'c', 'h', ']'];
    assert(r@ =~= fetch_tag());
    r
}

fn destination_marker_chars() -> (r: Vec<char>)
    ensures
        r@ == destination_marker(),
{
    let r = vec![' ', 'D', 'e', 's', 't', 'i', 'n', 'a', 't', 'i', 'o', 'n', ':', ' '];
    assert(r@ =~= destination_marker());
    r
}

/// White space in the Unicode sense (the `White_Space` property).
pub open spec fn is_space(c: char) -> bool {
    let u = c as u32;
    (9 <= u <= 13) || u == 32 || u == 0x85 || u == 0xa0 || u == 0x1680 || (0x2000 <= u <= 0x200a)
        || u == 0x2028 || u == 0x2029 || u == 0x202f || u == 0x205f || u == 0x3000
}

pub open spec fn is_ascii_digit(c: char) -> bool {
    48 <= c as u32 <= 57
}

/// Whether the regex crate's `\d` class holds a character: a Unicode
/// decimal digit.
pub uninterp spec fn unicode_digit(c: char) -> bool;

/// A digit as a progress line's number is matched: any decimal digit. The
/// class is Unicode's `Nd`, whose ASCII members are exactly `0`..`9`.
pub open spec fn is_digit(c: char) -> bool {
    if (c as u32) < 128 {
        is_ascii_digit(c)
    } else {
        unicode_digit(c)
    }
}

/// Whether every character of `d` is one of `0`..`9`.
pub open spec fn all_ascii_digits(d: Seq<char>) -> bool {
    forall|k: int| 0 <= k < d.len() ==> is_ascii_digit(#[trigger] d[k])
}

/// The characters a file name on a destination line may hold.
pub open spec fn is_name_char(c: char) -> bool {
    let u = c as u32;
    (48 <= u <= 57) || (65 <= u <= 90) || (97 <= u <= 122) || u == 46 || is_space(c)
}

/// The value of a string of decimal digits.
pub open spec fn decimal_value(d: Seq<char>) -> nat
    decreases d.len(),
{
    if d.len() == 0 {
        0
    } else {
        (decimal_value(d.drop_last()) * 10 + ((d.last() as u32) as int - 48)) as nat
    }
}

/// Length of the tag that starts at `i`, or 0 where none does.
pub open spec fn tag_len_at(s: Seq<char>, i: int) -> int {
    if occurs_at(s, i, download_tag()) {
        download_tag().len() as int
    } else if occurs_at(s, i, fetch_tag()) {
        fetch_tag().len() as int
    } else {
        0
    }
}

/// Number of white-space characters in a row from `j` on.
pub open spec fn space_run(s: Seq<char>, j: int) -> nat
    decreases s.len() - j,
{
    if 0 <= j < s.len() && is_space(s[j]) {
        1 + space_run(s, j + 1)
    } else {
        0
    }
}

/// Number of decimal digits in a row from `j` on.
pub open spec fn digit_run(s: Seq<char>, j: int) -> nat
    decreases s.len() - j,
{
    if 0 <= j < s.len() && is_digit(s[j]) {
        1 + digit_run(s, j + 1)
    } else {
        0
    }
}

/// Where the digits of a progress match that starts at `i` begin.
pub open spec fn digits_start(s: Seq<char>, i: int) -> int {
    i + tag_len_at(s, i) + space_run(s, i + tag_len_at(s, i))
}

/// A tag at `i`, then white space, then at least one digit.
pub open spec fn progress_match_at(s: Seq<char>, i: int) -> bool {
    tag_len_at(s, i) > 0 && space_run(s, i + tag_len_at(s, i)) > 0 && digit_run(
        s,
        digits_start(s, i),
    ) > 0
}

/// The leftmost position from `i` on where a progress match starts.
pub open spec fn first_progress_from(s: Seq<char>, i: int) -> Option<int>
    decreases s.len() - i,
{
    if i < 0 || i >= s.len() {
        None
    } else if progress_match_at(s, i) {
        Some(i)
    } else {
        first_progress_from(s, i + 1)
    }
}

/// The digits that the leftmost progress match of a line captures.
pub open spec fn progress_capture(s: Seq<char>) -> Option<Seq<char>> {
    match first_progress_from(s, 0) {
        Some(i) => Some(
            s.subrange(digits_start(s, i), digits_start(s, i) + digit_run(s, digits_start(s, i))),
        ),
        None => None,
    }
}

/// The percentage a line reports, where it is one in 0..=100.
pub open spec fn progress_of(s: Seq<char>) -> Option<u32> {
    match progress_capture(s) {
        Some(d) => if all_ascii_digits(d) && decimal_value(d) <= 100 {
            Some(decimal_value(d) as u32)
        } else {
            None
        },
        None => None,
    }
}

/// The file name that a destination line names: the whole line is a tag,
/// the destination marker, and a non-empty name.
pub open spec fn file_name_of(s: Seq<char>) -> Option<Seq<char>> {
    let t = tag_len_at(s, 0);
    let start = t + destination_marker().len();
    if t > 0 && occurs_at(s, t, destination_marker()) && start < s.len() && (forall|k: int|
        start <= k < s.len() ==> is_name_char(#[trigger] s[k])) {
        Some(s.subrange(start, s.len() as int))
    } else {
        None
    }
}

/// Why a captured number was not taken.
#[derive(Clone, Copy, Debug, PartialEq, Eq, Structural)]
pub enum PercentError {
    /// The number does not fit in a `u32`.
    TooLarge,
    /// The digits are not all ASCII digits, so they do not read as a number.
    InvalidDigit,
}

/// Relies on the regex crate's `\d` class (Unicode-aware by default) to
/// tell whether `c` is a decimal digit.
#[verifier::external_body]
fn regex_digit(c: char) -> (r: bool)
    ensures
        r == unicode_digit(c),
{
    let s = c.to_string();
    match regex::Regex::new(r"\d") {
        Ok(re) => re.is_match(&s),
        Err(_) => false,
    }
}

fn digit_char(c: char) -> (r: bool)
    ensures
        r == is_digit(c),
{
    let u = c as u32;
    if u < 128 {
        48 <= u && u <= 57
    } else {
        regex_digit(c)
    }
}

fn is_space_char(c: char) -> (r: bool)
    ensures
        r == is_space(c),
{
    let u = c as u32;
    (9 <= u && u <= 13) || u == 32 || u == 0x85 || u == 0xa0 || u == 0x1680 || (0x2000 <= u && u
        <= 0x200a) || u == 0x2028 || u == 0x2029 || u == 0x202f || u == 0x205f || u == 0x3000
}

fn is_name_character(c: char) -> (r: bool)
    ensures
        r == is_name_char(c),
{
    let u = c as u32;
    (48 <= u && u <= 57) || (65 <= u && u <= 90) || (97 <= u && u <= 122) || u == 46
        || is_space_char(c)
}

fn tag_len(v: &Vec<char>, i: usize, dl: &Vec<char>, fe: &Vec<char>) -> (r: usize)
    requires
        dl@ == download_tag(),
        fe@ == fetch_tag(),
    ensures
        r as int == tag_len_at(v@, i as int),
{
    if has_at(v, i, dl) {
        dl.len()
    } else if has_at(v, i, fe) {
        fe.len()
    } else {
        0
    }
}

fn spaces_from(v: &Vec<char>, j: usize) -> (r: usize)
    ensures
        r as int == space_run(v@, j as int),
{
    let mut k = j;
    while k < v.len() && is_space_char(v[k])
        invariant
            j <= k,
            k <= v.len() || k == j,
            space_run(v@, j as int) == (k - j) + space_run(v@, k as int),
        decreases v.len() - k,
    {
        k = k + 1;
    }
    k - j
}

fn digits_from(v: &Vec<char>, j: usize) -> (r: usize)
    ensures
        r as int == digit_run(v@, j as int),
{
    let mut k = j;
    while k < v.len() && digit_char(v[k])
        invariant
            j <= k,
            k <= v.len() || k == j,
            digit_run(v@, j as int) == (k - j) + digit_run(v@, k as int),
        decreases v.len() - k,
    {
        k = k + 1;
    }
    k - j
}

proof fn lemma_run_bounds(s: Seq<char>, j: int)
    requires
        0 <= j,
    ensures
        j + space_run(s, j) <= s.len() || space_run(s, j) == 0,
        j + digit_run(s, j) <= s.len() || digit_run(s, j) == 0,
    decreases s.len() - j,
{
    if 0 <= j < s.len() {
        lemma_run_bounds(s, j + 1);
    }
}

/// Reads the progress percentage from a line of the fetch tool's output:
/// the digits after the first tag that is followed by white space and a digit.
pub fn parse_line(line: String) -> (r: Option<Result<u32, PercentError>>)
    ensures
        match progress_capture(line@) {
            None => r is None,
            Some(d) => if !all_ascii_digits(d) {
                r == Some(Err::<u32, PercentError>(PercentError::InvalidDigit))
            } else if decimal_value(d) <= u32::MAX {
                r == Some(Ok::<u32, PercentError>(decimal_value(d) as u32))
            } else {
                r == Some(Err::<u32, PercentError>(PercentError::TooLarge))
            },
        },
{
    let v = chars_of(line.as_str());
    let dl = download_tag_chars();
    let fe = fetch_tag_chars();
    let ghost s = v@;
    let mut i: usize = 0;
    while i < v.len()
        invariant
            s == v@,
            s == line@,
            dl@ == download_tag(),
            fe@ == fetch_tag(),
            i <= v.len(),
            first_progress_from(s, 0) == first_progress_from(s, i as int),
        decreases v.len() - i,
    {
        let t = tag_len(&v, i, &dl, &fe);
        if t > 0 {
            proof {
                lemma_run_bounds(s, i + t);
            }
            let w = spaces_from(&v, i + t);
            if w > 0 {
                let j = i + t + w;
                proof {
                    lemma_run_bounds(s, j as int);
                }
                let n = digits_from(&v, j);
                if n > 0 {
                    assert(progress_match_at(s, i as int));
                    let ghost d = s.subrange(j as int, j + n);
                    assert(progress_capture(s) == Some(d));
                    return Some(decimal_of(&v, j, j + n));
                }
            }
        }
        i = i + 1;
    }
    None
}

/// The value of the digits `v[from..to]`: `InvalidDigit` where one is not
/// ASCII, `TooLarge` past `u32::MAX`.
fn decimal_of(v: &Vec<char>, from: usize, to: usize) -> (r: Result<u32, PercentError>)
    requires
        from < to <= v.len(),
    ensures
        ({
            let d = v@.subrange(from as int, to as int);
            if !all_ascii_digits(d) {
                r == Err::<u32, PercentError>(PercentError::InvalidDigit)
            } else if decimal_value(d) <= u32::MAX {
                r == Ok::<u32, PercentError>(decimal_value(d) as u32)
            } else {
                r == Err::<u32, PercentError>(PercentError::TooLarge)
            }
        }),
{
    let mut m = from;
    while m < to
        invariant
            from <= m <= to <= v.len(),
            forall|x: int| from <= x < m ==> is_ascii_digit(#[trigger] v@[x]),
        decreases to - m,
    {
        let u = v[m] as u32;
        if !(48 <= u && u <= 57) {
            assert(!is_ascii_digit(v@.subrange(from as int, to as int)[m - from]));
            return Err(PercentError::InvalidDigit);
        }
        m = m + 1;
    }
    assert(all_ascii_digits(v@.subrange(from as int, to as int)));
    let mut acc: u64 = 0;
    let mut over = false;
    let mut k = from;
    while k < to
        invariant
            from <= k <= to <= v.len(),
            forall|x: int| from <= x < to ==> is_ascii_digit(#[trigger] v@[x]),
            !over ==> acc == decimal_value(v@.subrange(from as int, k as int)),
            !over ==> acc <= u32::MAX,
            over ==> decimal_value(v@.subrange(from as int, k as int)) > u32::MAX,
        decreases to - k,
    {
        proof {
            assert(v@.subrange(from as int, k + 1).drop_last() =~= v@.subrange(
                from as int,
                k as int,
            ));
        }
        let u = v[k] as u32;
        assert(48 <= u <= 57);
        let dv = (u - 48) as u64;
        proof {
            let sub = v@.subrange(from as int, k + 1);
            assert(sub.last() == v@[k as int]);
            assert(dv == (v@[k as int] as u32) as int - 48);
            assert(decimal_value(sub) == (decimal_value(sub.drop_last()) * 10 + ((sub.last() as u32)
                as int - 48)) as nat);
            assert(decimal_value(sub) == decimal_value(v@.subrange(from as int, k as int)) * 10
                + dv);
        }
        if !over {
            let next = acc * 10 + dv;
            if next > u32::MAX as u64 {
                over = true;
            } else {
                acc = next;
            }
        }
        k = k + 1;
    }
    if over {
        Err(PercentError::TooLarge)
    } else {
        Ok(acc as u32)
    }
}

/// Reads the file name from a destination line of the fetch tool's output.
pub fn parse_file_name(line: String) -> (r: Option<String>)
    ensures
        match file_name_of(line@) {
            None => r is None,
            Some(name) => r matches Some(f) && f@ == name,
        },
{
    let v = chars_of(line.as_str());
    let dl = download_tag_chars();
    let fe = fetch_tag_chars();
    let marker = destination_marker_chars();
    let t = tag_len(&v, 0, &dl, &fe);
    if t == 0 || !has_at(&v, t, &marker) {
        return None;
    }
    let start = t + marker.len();
    if start >= v.len() {
        return None;
    }
    let mut k = start;
    while k < v.len()
        invariant
            v@ == line@,
            start as int == tag_len_at(line@, 0) + destination_marker().len(),
            start <= k <= v.len(),
            forall|m: int| start <= m < k ==> is_name_char(#[trigger] v@[m]),
        decreases v.len() - k,
    {
        if !is_name_character(v[k]) {
            assert(!is_name_char(line@[k as int]));
            return None;
        }
        k = k + 1;
    }
    Some(string_from(&v, start, v.len()))
}

} // verus!
