//! The request handling that the demo server's jobs perform, minus the
//! socket work: classify a request line against the two recognised probe
//! paths, and format the status line, `Content-Length` header and body
//! into one response string.

use vstd::prelude::*;
use vstd::string::{StrSliceExecFns, StringExecFns, StringSliceAdditionalSpecFns};

verus! {

/// `p` is a prefix of `s`.
pub open spec fn spec_starts_with(s: Seq<char>, p: Seq<char>) -> bool {
    p.len() <= s.len() && s.subrange(0, p.len() as int) == p
}

/// Whether `s` starts with `p`, character by character.
pub fn str_starts_with(s: &str, p: &str) -> (r: bool)
    ensures
        r == spec_starts_with(s@, p@),
{
    let p_len = p.unicode_len();
    let s_len = s.unicode_len();
    if p_len > s_len {
        return false;
    }
    let mut i: usize = 0;
    while i < p_len
        invariant
            i <= p_len,
            p_len == p@.len(),
            s_len == s@.len(),
            p_len <= s_len,
            forall|j: int| 0 <= j < i ==> s@[j] == p@[j],
        decreases p_len - i,
    {
        if s.get_char(i) != p.get_char(i) {
            proof {
                assert(s@.subrange(0, p@.len() as int)[i as int] == s@[i as int]);
            }
            return false;
        }
        i += 1;
    }
    proof {
        assert(s@.subrange(0, p@.len() as int) =~= p@);
    }
    true
}

/// What a request asks for: the fast probe path, the deliberately slow
/// one, or anything else, which is not found.
#[derive(Debug, Clone, Copy, PartialEq, Eq, Structural)]
pub enum RequestKind {
    Fast,
    Slow,
    NotFound,
}

/// The kind of a request line: matched by prefix against the two
/// recognised probes, in that order.
pub open spec fn spec_classify(request: Seq<char>) -> RequestKind {
    if spec_starts_with(request, "GET / HTTP/1.1\r\n"@) {
        RequestKind::Fast
    } else if spec_starts_with(request, "GET /sleep HTTP/1.1\r\n"@) {
        RequestKind::Slow
    } else {
        RequestKind::NotFound
    }
}

/// Classify one request.
pub fn classify_request(request: &str) -> (k: RequestKind)
    ensures
        k == spec_classify(request@),
{
    if str_starts_with(request, "GET / HTTP/1.1\r\n") {
        RequestKind::Fast
    } else if str_starts_with(request, "GET /sleep HTTP/1.1\r\n") {
        RequestKind::Slow
    } else {
        RequestKind::NotFound
    }
}

/// The status line for a kind: everything recognised is OK, the rest is
/// not found.
pub fn status_line(kind: RequestKind) -> (r: &'static str)
    ensures
        kind is NotFound ==> r@ == "HTTP/1.1 404 NOT FOUND"@,
        !(kind is NotFound) ==> r@ == "HTTP/1.1 200 OK"@,
{
    match kind {
        RequestKind::NotFound => "HTTP/1.1 404 NOT FOUND",
        _ => "HTTP/1.1 200 OK",
    }
}

/// The file whose contents answer a request of this kind.
pub fn response_filename(kind: RequestKind) -> (r: &'static str)
    ensures
        kind is NotFound ==> r@ == "404.html"@,
        !(kind is NotFound) ==> r@ == "hello.html"@,
{
    match kind {
        RequestKind::NotFound => "404.html",
        _ => "hello.html",
    }
}

/// The character for one decimal digit.
pub open spec fn digit_char(d: nat) -> char {
    if d == 0 {
        '0'
    } else if d == 1 {
        '1'
    } else if d == 2 {
        '2'
    } else if d == 3 {
        '3'
    } else if d == 4 {
        '4'
    } else if d == 5 {
        '5'
    } else if d == 6 {
        '6'
    } else if d == 7 {
        '7'
    } else {
        if d == 8 {
            '8'
        } else {
            '9'
        }
    }
}

/// The decimal rendering of `n`: most significant digit first, no
/// leading zeroes (a single `0` for zero itself).
pub open spec fn dec_digits(n: nat) -> Seq<char>
    decreases n,
{
    if n < 10 {
        seq![digit_char(n)]
    } else {
        dec_digits(n / 10).push(digit_char(n % 10))
    }
}

fn digit_str(d: usize) -> (r: &'static str)
    requires
        d < 10,
    ensures
        r@ =~= seq![digit_char(d as nat)],
{
    proof {
        reveal_strlit("0");
        reveal_strlit("1");
        reveal_strlit("2");
        reveal_strlit("3");
        reveal_strlit("4");
        reveal_strlit("5");
        reveal_strlit("6");
        reveal_strlit("7");
        reveal_strlit("8");
        reveal_strlit("9");
    }
    match d {
        0 => "0",
        1 => "1",
        2 => "2",
        3 => "3",
        4 => "4",
        5 => "5",
        6 => "6",
        7 => "7",
        8 => "8",
        _ => "9",
    }
}

/// Render `n` in decimal.
pub fn to_decimal(n: usize) -> (s: String)
    ensures
        s@ =~= dec_digits(n as nat),
    decreases n,
{
    if n < 10 {
        digit_str(n).to_owned()
    } else {
        let rest = to_decimal(n / 10);
        rest.concat(digit_str(n % 10))
    }
}

/// The whole response for a status line and a body: the status line,
/// a `Content-Length` header counting the body's bytes, a blank line,
/// then the body.
pub fn build_response(status: &str, contents: &str) -> (r: String)
    requires
        contents.spec_bytes().len() <= usize::MAX,
    ensures
        r@ =~= status@ + "\r\nContent-Length: "@ + dec_digits(contents.spec_bytes().len())
            + "\r\n\r\n"@ + contents@,
{
    let mut response = String::new();
    response.append(status);
    response.append("\r\nContent-Length: ");
    let length = to_decimal(contents.len());
    response.append(length.as_str());
    response.append("\r\n\r\n");
    response.append(contents);
    response
}

} // verus!
