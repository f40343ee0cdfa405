//! Response framing: the exact byte shape written back to a client,
//! `<status-line>\r\n<header-lines>\r\n\r\n<payload>`.
//!
//! Text payloads (HTML, CSS) are framed as one combined string; binary
//! payloads (PNG, ICO) keep a text header block and a separate raw byte
//! body so that the payload never passes through a text-encoding step.
//! `Content-Length` always counts payload bytes, not characters.

use vstd::prelude::*;
use vstd::utf8::encode_utf8;
use crate::errors::ConnectionError;
use crate::resolve::{content_type_of, is_binary_kind, ResourceKind};
use crate::strutil::{dec_digits, usize_to_string};

verus! {

/// The header block of a successful response: status `200 OK`, the
/// content type, and a `Content-Length` of `len` payload bytes.
pub open spec fn ok_head(content_type: Seq<char>, len: nat) -> Seq<char> {
    "HTTP/1.1 200 OK\r\nContent-Type: "@ + content_type + "\r\nContent-Length: "@ + dec_digits(
        len,
    ) + "\r\n\r\n"@
}

/// A full text response: the success header block followed by the body,
/// whose length header counts the body's UTF-8 bytes.
pub open spec fn text_response_of(content_type: Seq<char>, body: Seq<char>) -> Seq<char> {
    ok_head(content_type, encode_utf8(body).len()) + body
}

/// A full error-page response: the given status line, a `Content-Length`
/// of the page's UTF-8 bytes, and the page as body.
pub open spec fn error_response_of(status_line: Seq<char>, page: Seq<char>) -> Seq<char> {
    status_line + "\r\nContent-Length: "@ + dec_digits(encode_utf8(page).len()) + "\r\n\r\n"@
        + page
}

/// A binary response: the header block is written as text, the payload
/// as raw bytes, in two separate writes.
pub struct BinaryResponse {
    pub head: String,
    pub body: Vec<u8>,
}

/// Builds the success header block for a payload of `len` bytes.
fn ok_head_string(content_type: &str, len: usize) -> (h: String)
    ensures
        h@ == ok_head(content_type@, len as nat),
{
    let mut h = String::from_str("HTTP/1.1 200 OK\r\nContent-Type: ");
    h.append(content_type);
    h.append("\r\nContent-Length: ");
    let n = usize_to_string(len);
    h.append(n.as_str());
    h.append("\r\n\r\n");
    h
}

/// The UTF-8 byte length of a string, as counted by length headers.
fn byte_len(s: &str) -> (n: usize)
    ensures
        n == encode_utf8(s@).len(),
{
    let bytes = s.as_bytes_vec();
    bytes.len()
}

/// Renders a startup-loaded error page into its full response.
pub fn render_error_page(status_line: &str, page: &str) -> (r: String)
    ensures
        r@ == error_response_of(status_line@, page@),
{
    let mut r = String::from_str(status_line);
    r.append("\r\nContent-Length: ");
    let n = usize_to_string(byte_len(page));
    r.append(n.as_str());
    r.append("\r\n\r\n");
    r.append(page);
    r
}

/// Requesting `/` and requesting `/home` resolve to the same kind and
/// the same backing file, so whatever payload that file holds, the two
/// framed responses are identical.
pub proof fn lemma_root_alias_response(body: Seq<char>)
    ensures
        text_response_of(content_type_of(crate::resolve::classify("/"@)), body)
            == text_response_of(content_type_of(crate::resolve::classify("/home"@)), body),
        crate::resolve::target_of("/"@) == crate::resolve::target_of("/home"@),
{
    crate::resolve::lemma_root_alias();
}

/// Frames a text payload (HTML or CSS) read for a request, or reports
/// the resource missing when the backing file could not be read.
pub fn text_response(kind: ResourceKind, contents: Option<String>) -> (r: Result<
    String,
    ConnectionError,
>)
    requires
        !is_binary_kind(kind),
    ensures
        match r {
            Ok(resp) => contents is Some && resp@ == text_response_of(
                content_type_of(kind),
                contents->Some_0@,
            ),
            Err(e) => contents is None && e == ConnectionError::SourceNotFound,
        },
{
    match contents {
        None => Err(ConnectionError::SourceNotFound),
        Some(body) => {
            let mut resp = ok_head_string(
                crate::resolve::content_type_str(kind),
                byte_len(body.as_str()),
            );
            resp.append(body.as_str());
            Ok(resp)
        },
    }
}

/// Frames a binary payload (PNG or ICO) read for a request, or reports
/// the resource missing. The payload is handed back byte-identical.
pub fn binary_response(kind: ResourceKind, contents: Option<Vec<u8>>) -> (r: Result<
    BinaryResponse,
    ConnectionError,
>)
    requires
        is_binary_kind(kind),
    ensures
        match r {
            Ok(resp) => contents is Some && resp.head@ == ok_head(
                content_type_of(kind),
                contents->Some_0@.len(),
            ) && resp.body@ == contents->Some_0@,
            Err(e) => contents is None && e == ConnectionError::SourceNotFound,
        },
{
    match contents {
        None => Err(ConnectionError::SourceNotFound),
        Some(body) => {
            let head = ok_head_string(crate::resolve::content_type_str(kind), body.len());
            Ok(BinaryResponse { head, body })
        },
    }
}

} // verus!
