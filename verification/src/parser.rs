//! Request-line parsing: split the line on single spaces, demand exactly
//! three tokens, and classify the method and protocol tokens.

use vstd::prelude::*;
use vstd::string::StrSliceExecFns;
use crate::text::find_space;
use crate::text::first_space;
use crate::text::lemma_first_space;
use crate::text::str_eq;

verus! {

/// The one request method the core accepts.
#[derive(Clone, Copy, PartialEq, Eq, Structural, Debug)]
pub enum Method {
    Get,
}

/// The two protocol versions the core accepts.
#[derive(Clone, Copy, PartialEq, Eq, Structural, Debug)]
pub enum Protocol {
    V10,
    V11,
}

/// Why a request line was rejected.
#[derive(Clone, Copy, PartialEq, Eq, Structural, Debug)]
pub enum ParseError {
    /// The line does not split into exactly three tokens.
    UnknownRouteHeader,
    /// The first token is not `GET`.
    UnknownMethod,
    /// The third token is neither `HTTP/1.0` nor `HTTP/1.1`.
    UnknownProtocol,
}

/// A successfully parsed request line.
#[derive(Debug)]
pub struct RequestHead {
    pub method: Method,
    pub uri: String,
    pub protocol: Protocol,
}

/// The line split at every space; a token may be empty, and the number of
/// tokens is always one more than the number of spaces.
pub open spec fn split_spaces(s: Seq<char>) -> Seq<Seq<char>>
    decreases s.len(),
    via split_spaces_decreases
{
    let i = first_space(s);
    if i == s.len() {
        seq![s]
    } else {
        seq![s.subrange(0, i)] + split_spaces(s.subrange(i + 1, s.len() as int))
    }
}

#[via_fn]
proof fn split_spaces_decreases(s: Seq<char>) {
    lemma_first_space(s);
}

/// A split is never empty.
pub proof fn lemma_split_spaces_len(s: Seq<char>)
    ensures
        split_spaces(s).len() >= 1,
{
    lemma_first_space(s);
}

/// What parsing a request line yields: the URI token and the protocol on
/// success, the classified failure otherwise.
pub open spec fn spec_parse(s: Seq<char>) -> Result<(Seq<char>, Protocol), ParseError> {
    let toks = split_spaces(s);
    if toks.len() != 3 {
        Err(ParseError::UnknownRouteHeader)
    } else if toks[0] != "GET"@ {
        Err(ParseError::UnknownMethod)
    } else if toks[2] == "HTTP/1.0"@ {
        Ok((toks[1], Protocol::V10))
    } else if toks[2] == "HTTP/1.1"@ {
        Ok((toks[1], Protocol::V11))
    } else {
        Err(ParseError::UnknownProtocol)
    }
}

/// Parses one request line. Succeeds exactly on a line of three
/// space-separated tokens whose first token is `GET` and whose third is
/// `HTTP/1.0` or `HTTP/1.1`; the URI token in between is taken as it stands.
pub fn get_request_head(request: &str) -> (r: Result<RequestHead, ParseError>)
    ensures
        match r {
            Ok(head) => spec_parse(request@) == Ok::<_, ParseError>((head.uri@, head.protocol))
                && head.method == Method::Get,
            Err(e) => spec_parse(request@) == Err::<(Seq<char>, Protocol), _>(e),
        },
{
    let ghost s = request@;
    let n = request.unicode_len();
    let i1 = find_space(request);
    proof {
        lemma_first_space(s);
    }
    if i1 == n {
        assert(split_spaces(s) =~= seq![s]);
        return Err(ParseError::UnknownRouteHeader);
    }
    let t1 = request.substring_char(0, i1);
    let rest1 = request.substring_char(i1 + 1, n);
    assert(split_spaces(s) == seq![t1@] + split_spaces(rest1@));

    let n1 = rest1.unicode_len();
    let i2 = find_space(rest1);
    proof {
        lemma_first_space(rest1@);
    }
    if i2 == n1 {
        assert(split_spaces(rest1@) =~= seq![rest1@]);
        assert(split_spaces(s).len() == 2);
        return Err(ParseError::UnknownRouteHeader);
    }
    let t2 = rest1.substring_char(0, i2);
    let rest2 = rest1.substring_char(i2 + 1, n1);
    assert(split_spaces(rest1@) == seq![t2@] + split_spaces(rest2@));

    let n2 = rest2.unicode_len();
    let i3 = find_space(rest2);
    proof {
        lemma_first_space(rest2@);
    }
    if i3 != n2 {
        proof {
            lemma_split_spaces_len(rest2@.subrange(i3 + 1, rest2@.len() as int));
        }
        assert(split_spaces(rest2@).len() >= 2);
        assert(split_spaces(s).len() >= 4);
        return Err(ParseError::UnknownRouteHeader);
    }
    assert(split_spaces(rest2@) =~= seq![rest2@]);
    assert(split_spaces(s) =~= seq![t1@, t2@, rest2@]);

    if !str_eq(t1, "GET") {
        return Err(ParseError::UnknownMethod);
    }
    let protocol = if str_eq(rest2, "HTTP/1.0") {
        Protocol::V10
    } else if str_eq(rest2, "HTTP/1.1") {
        Protocol::V11
    } else {
        return Err(ParseError::UnknownProtocol);
    };
    let uri = t2.to_owned();
    Ok(RequestHead { method: Method::Get, uri, protocol })
}

} // verus!
