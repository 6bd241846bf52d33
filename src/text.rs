use vstd::prelude::*;
use vstd::string::StringSliceAdditionalSpecFns;
use vstd::utf8::valid_utf8;

verus! {

/// The characters of `s`, one element each.
pub fn chars_of(s: &str) -> (r: Vec<char>)
    ensures
        r@ == s@,
{
    let mut out: Vec<char> = Vec::new();
    for c in it: s.chars()
        invariant
            it.seq() == s@,
            out@ == s@.subrange(0, it.index() as int),
    {
        out.push(c);
    }
    assert(out@ =~= s@);
    out
}

/// Relies on `String::push`: appends one character at the end.
#[verifier::external_body]
pub(crate) fn push_char(s: &mut String, c: char)
    ensures
        final(s)@ == old(s)@.push(c),
{
    s.push(c)
}

/// The characters `v[from..to]` as a new string.
pub fn string_from(v: &Vec<char>, from: usize, to: usize) -> (r: String)
    requires
        from <= to <= v.len(),
    ensures
        r@ == v@.subrange(from as int, to as int),
{
    let mut out = String::new();
    let mut i = from;
    while i < to
        invariant
            from <= i <= to <= v.len(),
            out@ == v@.subrange(from as int, i as int),
        decreases to - i,
    {
        push_char(&mut out, v[i]);
        i = i + 1;
        assert(out@ =~= v@.subrange(from as int, i as int));
    }
    out
}

/// Whether `lit` occurs in `v` at position `at`.
pub open spec fn occurs_at(v: Seq<char>, at: int, lit: Seq<char>) -> bool {
    0 <= at && at + lit.len() <= v.len() && v.subrange(at, at + lit.len()) == lit
}

/// Tests `occurs_at(v, at, lit)`.
pub fn has_at(v: &Vec<char>, at: usize, lit: &Vec<char>) -> (r: bool)
    ensures
        r == occurs_at(v@, at as int, lit@),
{
    if lit.len() > v.len() || at > v.len() - lit.len() {
        return false;
    }
    let mut k: usize = 0;
    while k < lit.len()
        invariant
            at + lit.len() <= v.len(),
            k <= lit.len(),
            forall|j: int| 0 <= j < k ==> v@[at + j] == lit@[j],
        decreases lit.len() - k,
    {
        if v[at + k] != lit[k] {
            assert(v@.subrange(at as int, at + lit.len())[k as int] != lit@[k as int]);
            return false;
        }
        k = k + 1;
    }
    assert(v@.subrange(at as int, at + lit.len()) =~= lit@);
    true
}

/// Tests whether two character sequences are equal.
pub fn same_chars(a: &Vec<char>, b: &Vec<char>) -> (r: bool)
    ensures
        r == (a@ == b@),
{
    if a.len() != b.len() {
        return false;
    }
    let r = has_at(a, 0, b);
    assert(r ==> a@.subrange(0, a.len() as int) =~= a@);
    assert(a@ == b@ ==> a@.subrange(0, a.len() as int) =~= b@);
    r
}

/// Tests whether two texts are equal, character by character.
pub fn str_eq(a: &str, b: &str) -> (r: bool)
    ensures
        r == (a@ == b@),
{
    let x = chars_of(a);
    let y = chars_of(b);
    same_chars(&x, &y)
}

/// Relies on `std::str::from_utf8`: it succeeds exactly on well-formed UTF-8,
/// and the text it returns is made of those bytes.
#[verifier::external_body]
pub(crate) fn utf8_str(b: &[u8]) -> (r: Option<&str>)
    ensures
        r is Some <==> valid_utf8(b@),
        r matches Some(s) ==> s.spec_bytes() == b@,
{
    match std::str::from_utf8(b) {
        Ok(s) => Some(s),
        Err(_) => None,
    }
}

} // verus!
