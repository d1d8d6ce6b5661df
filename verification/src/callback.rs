//! Reading the authorization code out of the redirect's HTTP request line.
//!
//! The line is searched as bytes: first for the callback route, then for the
//! `code=` key, and the value runs up to the next `&` or to the end of the line.

use vstd::prelude::*;
use vstd::utf8::valid_utf8;

verus! {

/// The bytes of `GET /auth/callback`, which a redirect's request line holds.
pub open spec fn callback_marker() -> Seq<u8> {
    seq![
        0x47u8, 0x45u8, 0x54u8, 0x20u8, 0x2fu8, 0x61u8, 0x75u8, 0x74u8, 0x68u8, 0x2fu8,
        0x63u8, 0x61u8, 0x6cu8, 0x6cu8, 0x62u8, 0x61u8, 0x63u8, 0x6bu8,
    ]
}

/// The bytes of `code=`, the key of the authorization code.
pub open spec fn code_key() -> Seq<u8> {
    seq![0x63u8, 0x6fu8, 0x64u8, 0x65u8, 0x3du8]
}

/// The byte `&`, which ends a query parameter.
pub open spec fn separator() -> Seq<u8> {
    seq![0x26u8]
}

/// `needle` stands in `hay` at index `i`.
pub open spec fn occurs_at(hay: Seq<u8>, needle: Seq<u8>, i: int) -> bool {
    0 <= i && i + needle.len() <= hay.len() && hay.subrange(i, i + needle.len()) == needle
}

/// `i` is the first index at or after `from` where `needle` stands in `hay`.
pub open spec fn first_at(hay: Seq<u8>, needle: Seq<u8>, from: int, i: int) -> bool {
    &&& from <= i
    &&& occurs_at(hay, needle, i)
    &&& forall|j: int| from <= j < i ==> !occurs_at(hay, needle, j)
}

/// `needle` stands nowhere in `hay` at or after `from`.
pub open spec fn absent_from(hay: Seq<u8>, needle: Seq<u8>, from: int) -> bool {
    forall|j: int| from <= j ==> !occurs_at(hay, needle, j)
}

/// The line is a redirect to the callback route and carries a `code=` key.
pub open spec fn has_code(line: Seq<u8>) -> bool {
    !absent_from(line, callback_marker(), 0) && !absent_from(line, code_key(), 0)
}

/// `start..end` is where the still encoded code stands in `line`: it begins
/// right after the first `code=` and ends at the first `&` found from that
/// key on, or at the end of the line where no `&` follows.
pub open spec fn is_code_span(line: Seq<u8>, start: int, end: int) -> bool {
    &&& first_at(line, code_key(), 0, start - 5)
    &&& start <= end <= line.len()
    &&& (first_at(line, separator(), start - 5, end) || (absent_from(
        line,
        separator(),
        start - 5,
    ) && end == line.len()))
}

/// What `urlencoding::decode_binary` returns for `data`.
pub uninterp spec fn percent_decoded(data: Seq<u8>) -> Seq<u8>;

/// The code that is handed on: the percent-decoded bytes where they are
/// UTF-8, the bytes as they stood in the line where they are not.
pub open spec fn decoded_code(raw: Seq<u8>, decoded: Seq<u8>) -> Seq<u8> {
    if valid_utf8(decoded) {
        decoded
    } else {
        raw
    }
}

fn callback_marker_bytes() -> (v: Vec<u8>)
    ensures
        v@ == callback_marker(),
{
    let v = vec![
        0x47u8, 0x45u8, 0x54u8, 0x20u8, 0x2fu8, 0x61u8, 0x75u8, 0x74u8, 0x68u8, 0x2fu8,
        0x63u8, 0x61u8, 0x6cu8, 0x6cu8, 0x62u8, 0x61u8, 0x63u8, 0x6bu8,
    ];
    assert(v@ =~= callback_marker());
    v
}

fn code_key_bytes() -> (v: Vec<u8>)
    ensures
        v@ == code_key(),
{
    let v = vec![0x63u8, 0x6fu8, 0x64u8, 0x65u8, 0x3du8];
    assert(v@ =~= code_key());
    v
}

fn separator_bytes() -> (v: Vec<u8>)
    ensures
        v@ == separator(),
{
    let v = vec![0x26u8];
    assert(v@ =~= separator());
    v
}

fn matches_at(hay: &[u8], needle: &[u8], i: usize) -> (r: bool)
    requires
        i + needle@.len() <= hay@.len(),
    ensures
        r == occurs_at(hay@, needle@, i as int),
{
    let n: usize = hay.len();
    let mut k: usize = 0;
    while k < needle.len()
        invariant
            n == hay@.len(),
            k <= needle@.len(),
            i + needle@.len() <= hay@.len(),
            forall|m: int| 0 <= m < k ==> hay@[i + m] == needle@[m],
        decreases needle@.len() - k,
    {
        if hay[i + k] != needle[k] {
            assert(hay@.subrange(i as int, i + needle@.len())[k as int] == hay@[i + k]);
            return false;
        }
        k += 1;
    }
    assert(hay@.subrange(i as int, i + needle@.len()) =~= needle@);
    true
}

/// The first index at or after `from` where `needle` stands in `hay`.
pub fn find_from(hay: &[u8], needle: &[u8], from: usize) -> (r: Option<usize>)
    ensures
        match r {
            Some(i) => first_at(hay@, needle@, from as int, i as int),
            None => absent_from(hay@, needle@, from as int),
        },
{
    if needle.len() > hay.len() || from > hay.len() - needle.len() {
        return None;
    }
    let last: usize = hay.len() - needle.len();
    let mut i: usize = from;
    loop
        invariant
            from <= i <= last,
            last == hay@.len() - needle@.len(),
            forall|j: int| from <= j < i ==> !occurs_at(hay@, needle@, j),
        decreases last - i,
    {
        if matches_at(hay, needle, i) {
            return Some(i);
        }
        if i == last {
            return None;
        }
        i += 1;
    }
}

/// Where the still encoded authorization code stands in a request line, if
/// the line is a redirect to the callback route that carries one.
pub fn locate_code(line: &[u8]) -> (r: Option<(usize, usize)>)
    ensures
        r is Some <==> has_code(line@),
        r matches Some((start, end)) ==> is_code_span(line@, start as int, end as int),
{
    let marker = callback_marker_bytes();
    let key = code_key_bytes();
    let amp = separator_bytes();
    if find_from(line, marker.as_slice(), 0).is_none() {
        return None;
    }
    let key_at: usize = match find_from(line, key.as_slice(), 0) {
        Some(i) => i,
        None => {
            return None;
        },
    };
    let n: usize = line.len();
    assert(code_key().len() == 5);
    let start: usize = key_at + 5;
    assert(line@.subrange(key_at as int, key_at + 5) == code_key());
    let end: usize = match find_from(line, amp.as_slice(), key_at) {
        Some(j) => {
            assert(line@.subrange(j as int, j + 1)[0] == 0x26u8);
            assert(j >= start) by {
                if j < start {
                    assert(line@.subrange(key_at as int, key_at + 5)[j - key_at] == line@[j as int]);
                }
            }
            j
        },
        None => line.len(),
    };
    Some((start, end))
}

/// A line has at most one place where its code stands: two spans that both
/// fit the description are the same span.
pub proof fn lemma_code_span_unique(line: Seq<u8>, s1: int, e1: int, s2: int, e2: int)
    requires
        is_code_span(line, s1, e1),
        is_code_span(line, s2, e2),
    ensures
        s1 == s2,
        e1 == e2,
{
    lemma_first_at_unique(line, code_key(), 0, s1 - 5, s2 - 5);
    if first_at(line, separator(), s1 - 5, e1) && first_at(line, separator(), s1 - 5, e2) {
        lemma_first_at_unique(line, separator(), s1 - 5, e1, e2);
    }
}

/// The first place of a needle is one place.
pub proof fn lemma_first_at_unique(hay: Seq<u8>, needle: Seq<u8>, from: int, i: int, j: int)
    requires
        first_at(hay, needle, from, i),
        first_at(hay, needle, from, j),
    ensures
        i == j,
{
}

/// Percent-decodes `data` with `urlencoding::decode_binary`: each `%` that
/// two hexadecimal digits follow becomes the byte they spell, and the rest is
/// kept. The result is named, not described.
#[verifier::external_body]
fn percent_decode(data: &[u8]) -> (r: Vec<u8>)
    ensures
        r@ == percent_decoded(data@),
{
    urlencoding::decode_binary(data).into_owned()
}

/// Asks `core::str::from_utf8` whether `data` is well-formed UTF-8.
#[verifier::external_body]
fn is_utf8(data: &[u8]) -> (r: bool)
    ensures
        r == valid_utf8(data@),
{
    core::str::from_utf8(data).is_ok()
}

/// Chooses between the decoded bytes and the bytes as they stood in the
/// line: the decoded ones are taken where they are UTF-8.
pub fn choose_code(raw: Vec<u8>, decoded: Vec<u8>) -> (r: Vec<u8>)
    ensures
        r@ == decoded_code(raw@, decoded@),
{
    if is_utf8(decoded.as_slice()) {
        decoded
    } else {
        raw
    }
}

fn copy_range(line: &[u8], start: usize, end: usize) -> (r: Vec<u8>)
    requires
        start <= end <= line@.len(),
    ensures
        r@ == line@.subrange(start as int, end as int),
{
    let mut out: Vec<u8> = Vec::new();
    let mut i: usize = start;
    while i < end
        invariant
            start <= i <= end <= line@.len(),
            out@ == line@.subrange(start as int, i as int),
        decreases end - i,
    {
        out.push(line[i]);
        i += 1;
        assert(out@ =~= line@.subrange(start as int, i as int));
    }
    out
}

/// The authorization code that a request line carries, decoded. A line that
/// is no redirect to the callback route, or that has no `code=` key, gives
/// `None`.
pub fn extract_code(line: &[u8]) -> (r: Option<Vec<u8>>)
    ensures
        r is Some <==> has_code(line@),
        r matches Some(code) ==> exists|start: int, end: int|
            #![trigger is_code_span(line@, start, end)]
            is_code_span(line@, start, end) && code@ == decoded_code(
                line@.subrange(start, end),
                percent_decoded(line@.subrange(start, end)),
            ),
{
    match locate_code(line) {
        None => None,
        Some((start, end)) => {
            let raw = copy_range(line, start, end);
            let decoded = percent_decode(raw.as_slice());
            let code = choose_code(raw, decoded);
            assert(is_code_span(line@, start as int, end as int));
            Some(code)
        },
    }
}

} // verus!
