//! The decision stages of handling one connection.
//!
//! One connection is handled in strict order: parse the request line,
//! resolve the path to a backing file, read that file, frame the
//! response. Reading from the socket and from disk is the caller's I/O;
//! the decisions between those reads live here. On any failure the
//! connection is answered with the fixed response for that failure kind
//! and then closed; nothing propagates past the connection.

use vstd::prelude::*;
use crate::errors::{err_response, ConnectionError, ErrorPages};
use crate::parse::{field1, lemma_one_field_no_path, parse_request};
use crate::resolve::{classify, lemma_asset_suffix_not_html, resolve_target, target_of, RoutePlan};
use crate::resolve::ResourceKind;
use crate::strutil::has_substring;

verus! {

/// The planning stage of one connection: from the decoded header lines
/// to which file to read and how to serve it. Fails with `TCPReadFailed`
/// exactly when no path can be parsed from the first line.
pub fn plan_request(lines: &Vec<String>) -> (r: Result<RoutePlan, ConnectionError>)
    ensures
        r is Ok <==> lines@.len() > 0 && lines@[0]@.len() > 0 && field1(lines@[0]@) is Some,
        r is Ok ==> r->Ok_0.kind == classify(field1(lines@[0]@)->Some_0),
        r is Ok ==> r->Ok_0.file@ == target_of(field1(lines@[0]@)->Some_0),
        r is Err ==> r->Err_0 == ConnectionError::TCPReadFailed,
{
    match parse_request(lines) {
        Ok(path) => Ok(resolve_target(path.as_str())),
        Err(e) => Err(e),
    }
}

/// A path carrying a `.css`, `.png` or `.ico` suffix whose backing file
/// is missing is answered with the 404 page, or with the bare
/// `404 NOT FOUND` status line when no page was loaded at startup. (The
/// framing stages report the missing file as `SourceNotFound`.)
pub proof fn lemma_missing_asset_is_not_found(path: Seq<char>, pages: ErrorPages)
    requires
        has_substring(path, ".css"@) || has_substring(path, ".png"@) || has_substring(
            path,
            ".ico"@,
        ),
    ensures
        classify(path) != ResourceKind::Html,
        err_response(ConnectionError::SourceNotFound, pages) == (match pages.not_found {
            Some(p) => p@,
            None => "HTTP/1.1 404 NOT FOUND"@,
        }),
{
    lemma_asset_suffix_not_html(path);
}

/// A request line with only one field (no space anywhere) parses to no
/// path, and the connection is answered with the bare `400 BAD REQUEST`
/// status line, whatever pages were loaded at startup.
pub proof fn lemma_one_field_gets_bad_request(line: Seq<char>, pages: ErrorPages)
    requires
        forall|k: int| 0 <= k < line.len() ==> line[k] != ' ',
    ensures
        field1(line) is None,
        err_response(ConnectionError::TCPReadFailed, pages) == "HTTP/1.1 400 BAD REQUEST"@,
{
    lemma_one_field_no_path(line);
}

} // verus!
