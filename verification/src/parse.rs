//! Request parsing: extracting the requested path from the first line
//! of a connection's header block.
//!
//! The caller hands over the header lines as decoded strings, read up to
//! the first empty line, with unreadable lines already replaced by empty
//! strings. Parsing fails when no non-empty first line exists or when
//! that line has fewer than two whitespace-delimited fields.

use vstd::prelude::*;
use crate::errors::ConnectionError;
use crate::strutil::{find_char, find_from, lemma_find_from_none};

verus! {

/// The second space-delimited field of a request line: the characters
/// between the first space and the next space (or the end of the line).
/// `None` when the line holds no space at all, i.e. fewer than two fields.
pub open spec fn field1(line: Seq<char>) -> Option<Seq<char>> {
    match find_from(line, ' ', 0) {
        None => None,
        Some(i) => {
            let end = match find_from(line, ' ', i + 1) {
                None => line.len() as int,
                Some(j) => j,
            };
            Some(line.subrange(i + 1, end))
        },
    }
}

/// Extracts the path token (the second space-delimited field) from a
/// request line.
pub fn extract_path(line: &str) -> (r: Option<String>)
    ensures
        r is Some <==> field1(line@) is Some,
        r is Some ==> r->Some_0@ == field1(line@)->Some_0,
{
    match find_char(line, ' ', 0) {
        None => None,
        Some(i) => {
            let len = line.unicode_len();
            let end = match find_char(line, ' ', i + 1) {
                None => len,
                Some(j) => j,
            };
            Some(line.substring_char(i + 1, end).to_owned())
        },
    }
}

/// Extracts the request path from the header lines of one connection:
/// the second field of the first line. Fails with `TCPReadFailed` when
/// the connection yielded no lines, the first line is empty (the header
/// block ended or a read error was decoded to an empty string), or the
/// first line has fewer than two fields.
pub fn parse_request(lines: &Vec<String>) -> (r: Result<String, ConnectionError>)
    ensures
        r is Ok <==> lines@.len() > 0 && lines@[0]@.len() > 0 && field1(lines@[0]@) is Some,
        r is Ok ==> r->Ok_0@ == field1(lines@[0]@)->Some_0,
        r is Err ==> r->Err_0 == ConnectionError::TCPReadFailed,
{
    if lines.len() == 0 {
        return Err(ConnectionError::TCPReadFailed);
    }
    let first = &lines[0];
    if first.as_str().unicode_len() == 0 {
        return Err(ConnectionError::TCPReadFailed);
    }
    match extract_path(first.as_str()) {
        Some(p) => Ok(p),
        None => Err(ConnectionError::TCPReadFailed),
    }
}

/// A request line with only one field (no space anywhere) yields no
/// path, so such a request is answered with `400 BAD REQUEST`.
pub proof fn lemma_one_field_no_path(line: Seq<char>)
    requires
        forall|k: int| 0 <= k < line.len() ==> line[k] != ' ',
    ensures
        field1(line) is None,
{
    lemma_find_from_none(line, ' ', 0);
}

} // verus!
