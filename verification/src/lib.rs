//! The verified core of a minimal static-content HTTP server.
//!
//! A connection carries one request: its first line is parsed for a path,
//! the path is resolved to a backing file under the content root, and the
//! file's payload is framed into the exact bytes written back — or one of
//! the fixed error responses is served instead. Listening, worker
//! dispatch, and the actual socket and file reads are the embedding
//! program's I/O; every decision between those reads is specified and
//! proved here.

pub mod errors;
pub mod handler;
pub mod parse;
pub mod resolve;
pub mod respond;
pub mod strutil;
