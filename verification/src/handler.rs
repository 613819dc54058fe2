//! Per-connection handling: route the parsed URI through the static table
//! and decide what, if anything, is written back.

use vstd::prelude::*;
use crate::parser::ParseError;
use crate::parser::Protocol;
use crate::parser::RequestHead;
use crate::parser::get_request_head;
use crate::parser::spec_parse;
use crate::response::Status;
use crate::response::generate_response_content;
use crate::response::spec_response;
use crate::text::str_eq;

verus! {

/// Which static resource a response is built from.
#[derive(Clone, Copy, PartialEq, Eq, Structural, Debug)]
pub enum Resource {
    Root,
    Missing,
}

/// The static route table: `/` is served from the root resource, `/sleep`
/// the same but only after an artificial delay, and anything else gets the
/// not-found page.
pub open spec fn spec_route(uri: Seq<char>) -> (Status, Resource, bool) {
    if uri == "/"@ {
        (Status::Success, Resource::Root, false)
    } else if uri == "/sleep"@ {
        (Status::Success, Resource::Root, true)
    } else {
        (Status::NotFound, Resource::Missing, false)
    }
}

/// Looks a URI up in the static route table; the third component asks the
/// caller to delay before responding.
pub fn route(uri: &str) -> (r: (Status, Resource, bool))
    ensures
        r == spec_route(uri@),
{
    if str_eq(uri, "/") {
        (Status::Success, Resource::Root, false)
    } else if str_eq(uri, "/sleep") {
        (Status::Success, Resource::Root, true)
    } else {
        (Status::NotFound, Resource::Missing, false)
    }
}

/// What the caller does with the connection after the request head was read.
pub enum Action {
    /// The connection closed before any line arrived: do nothing.
    NoRequest,
    /// The request line was malformed: write nothing and drop the
    /// connection; the error is there for the caller's log.
    Reject(ParseError),
    /// Write `response` back, after an artificial delay when `delay` holds.
    Respond { delay: bool, response: String },
}

/// Decides the fate of one connection from the lines of its request head.
/// Only the first line is parsed; the rest were consumed by the caller up
/// to the blank line and carry no meaning here.
pub fn handle_request(lines: &Vec<String>, root_content: &str, missing_content: &str) -> (a:
    Action)
    ensures
        match a {
            Action::NoRequest => lines@.len() == 0,
            Action::Reject(e) => lines@.len() > 0 && spec_parse(lines@[0]@) == Err::<
                (Seq<char>, Protocol),
                _,
            >(e),
            Action::Respond { delay, response } => lines@.len() > 0 && (spec_parse(lines@[0]@)
                matches Ok(p) && {
                let (status, resource, d) = spec_route(p.0);
                &&& delay == d
                &&& response@ == spec_response(
                    status,
                    if resource == Resource::Root {
                        root_content
                    } else {
                        missing_content
                    },
                )
            }),
        },
{
    if lines.len() == 0 {
        return Action::NoRequest;
    }
    let first: &String = &lines[0];
    match get_request_head(first.as_str()) {
        Ok(head) => {
            let RequestHead { method: _, uri, protocol: _ } = head;
            let (status, resource, delay) = route(uri.as_str());
            let content: &str = match resource {
                Resource::Root => root_content,
                Resource::Missing => missing_content,
            };
            let response = generate_response_content(status, content);
            Action::Respond { delay, response }
        },
        Err(e) => Action::Reject(e),
    }
}

} // verus!
