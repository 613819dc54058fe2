//! Wire-format response building: a status line, a `Content-Length` header
//! carrying the body's byte length in decimal, a blank line, then the body.
//!
//! The header name is written without a space after the colon; that is the
//! exact byte shape the peer sees, so the model keeps it.

use vstd::prelude::*;
use vstd::string::StringExecFns;

verus! {

/// The outcome that drives the status line and the resource choice.
#[derive(Clone, Copy, PartialEq, Eq, Structural, Debug)]
pub enum Status {
    Success,
    NotFound,
}

/// The character standing for one decimal digit.
pub open spec fn digit_char(d: nat) -> char {
    if d == 0 {
        '0'
    } else if d == 1 {
        '1'
    } else if d == 2 {
        '2'
    } else if d == 3 {
        '3'
    } else if d == 4 {
        '4'
    } else if d == 5 {
        '5'
    } else if d == 6 {
        '6'
    } else if d == 7 {
        '7'
    } else if d == 8 {
        '8'
    } else {
        '9'
    }
}

/// The decimal digits of `n`, most significant first, with no leading zero
/// except for `n == 0` itself.
pub open spec fn dec_digits(n: nat) -> Seq<char>
    decreases n,
{
    if n < 10 {
        seq![digit_char(n)]
    } else {
        dec_digits(n / 10).push(digit_char(n % 10))
    }
}

/// The status line for each outcome.
pub open spec fn spec_status_line(status: Status) -> Seq<char> {
    match status {
        Status::Success => "HTTP/1.1 200 OK"@,
        Status::NotFound => "HTTP/1.1 404 NOT FOUND"@,
    }
}

/// The whole response for a status and a body: status line, CRLF,
/// `Content-Length:` with the body's byte length in decimal, CRLF CRLF,
/// then the body verbatim.
pub open spec fn spec_response(status: Status, content: &str) -> Seq<char> {
    spec_status_line(status) + "\r\nContent-Length:"@ + dec_digits(content.len() as nat)
        + "\r\n\r\n"@ + content@
}

/// One decimal digit as a string slice.
fn digit_str(d: usize) -> (s: &'static str)
    requires
        d < 10,
    ensures
        s@ == seq![digit_char(d as nat)],
{
    let s: &'static str = if d == 0 {
        "0"
    } else if d == 1 {
        "1"
    } else if d == 2 {
        "2"
    } else if d == 3 {
        "3"
    } else if d == 4 {
        "4"
    } else if d == 5 {
        "5"
    } else if d == 6 {
        "6"
    } else if d == 7 {
        "7"
    } else if d == 8 {
        "8"
    } else {
        "9"
    };
    proof {
        reveal_strlit("0");
        reveal_strlit("1");
        reveal_strlit("2");
        reveal_strlit("3");
        reveal_strlit("4");
        reveal_strlit("5");
        reveal_strlit("6");
        reveal_strlit("7");
        reveal_strlit("8");
        reveal_strlit("9");
        assert(s@ =~= seq![digit_char(d as nat)]);
    }
    s
}

/// `n` written in decimal.
pub fn usize_to_string(n: usize) -> (s: String)
    ensures
        s@ == dec_digits(n as nat),
    decreases n,
{
    if n < 10 {
        String::from_str(digit_str(n))
    } else {
        let mut s = usize_to_string(n / 10);
        s.append(digit_str(n % 10));
        proof {
            assert(s@ =~= dec_digits(n as nat));
        }
        s
    }
}

/// Builds the response bytes for a status and a body.
pub fn generate_response_content(status: Status, content: &str) -> (r: String)
    ensures
        r@ == spec_response(status, content),
{
    let status_line: &str = match status {
        Status::Success => "HTTP/1.1 200 OK",
        Status::NotFound => "HTTP/1.1 404 NOT FOUND",
    };
    let mut r = String::from_str(status_line);
    r.append("\r\nContent-Length:");
    let len_str = usize_to_string(content.len());
    r.append(len_str.as_str());
    r.append("\r\n\r\n");
    r.append(content);
    proof {
        assert(r@ =~= spec_response(status, content));
    }
    r
}

} // verus!
