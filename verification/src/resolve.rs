//! Content resolution: maps a request path to the kind of resource it
//! names, the content type to report, and the file under the content
//! root that backs it.
//!
//! Suffix matching is checked in a fixed priority order (`.css`, `.png`,
//! `.ico`, else HTML). A bare `/` is rewritten to `/home` in the HTML
//! branch only; HTML paths get `.html` appended, all other paths are
//! used verbatim under the root.

use vstd::prelude::*;
use crate::strutil::{contains_substring, has_substring};

verus! {

/// The kind of resource a path names, derived from its extension suffix.
#[derive(Clone, Copy, Debug, PartialEq, Eq, Structural)]
pub enum ResourceKind {
    Css,
    Png,
    Ico,
    Html,
}

/// Suffix classification, in the fixed priority order.
pub open spec fn classify(path: Seq<char>) -> ResourceKind {
    if has_substring(path, ".css"@) {
        ResourceKind::Css
    } else if has_substring(path, ".png"@) {
        ResourceKind::Png
    } else if has_substring(path, ".ico"@) {
        ResourceKind::Ico
    } else {
        ResourceKind::Html
    }
}

/// The content type reported for each resource kind.
pub open spec fn content_type_of(kind: ResourceKind) -> Seq<char> {
    match kind {
        ResourceKind::Css => "text/css"@,
        ResourceKind::Png => "image/png"@,
        ResourceKind::Ico => "image/vnd.microsoft.icon"@,
        ResourceKind::Html => "text/html"@,
    }
}

/// Whether the payload for this kind is served as raw bytes rather than text.
pub open spec fn is_binary_kind(kind: ResourceKind) -> bool {
    kind == ResourceKind::Png || kind == ResourceKind::Ico
}

/// A bare `/` is rewritten to `/home`; every other path stays as it is.
pub open spec fn normalized(path: Seq<char>) -> Seq<char> {
    if path == "/"@ {
        "/home"@
    } else {
        path
    }
}

/// The file under the content root that backs `path`: the path verbatim
/// for CSS/PNG/ICO, the normalized path with `.html` appended otherwise.
pub open spec fn target_of(path: Seq<char>) -> Seq<char> {
    if classify(path) == ResourceKind::Html {
        "website"@ + normalized(path) + ".html"@
    } else {
        "website"@ + path
    }
}

/// The resolution of one request path: what to read and how to serve it.
#[derive(Debug)]
pub struct RoutePlan {
    pub kind: ResourceKind,
    pub file: String,
}

impl ResourceKind {
    /// Whether the payload for this kind is served as raw bytes.
    pub fn is_binary(&self) -> (b: bool)
        ensures
            b == is_binary_kind(*self),
    {
        match self {
            ResourceKind::Png | ResourceKind::Ico => true,
            _ => false,
        }
    }
}

/// The content type reported for each resource kind.
pub fn content_type_str(kind: ResourceKind) -> (s: &'static str)
    ensures
        s@ == content_type_of(kind),
{
    match kind {
        ResourceKind::Css => "text/css",
        ResourceKind::Png => "image/png",
        ResourceKind::Ico => "image/vnd.microsoft.icon",
        ResourceKind::Html => "text/html",
    }
}

/// Classifies a path by its extension suffix, in the fixed priority order.
pub fn classify_path(path: &str) -> (k: ResourceKind)
    ensures
        k == classify(path@),
{
    if contains_substring(path, ".css") {
        ResourceKind::Css
    } else if contains_substring(path, ".png") {
        ResourceKind::Png
    } else if contains_substring(path, ".ico") {
        ResourceKind::Ico
    } else {
        ResourceKind::Html
    }
}

/// Resolves a request path to its kind and backing file.
pub fn resolve_target(path: &str) -> (r: RoutePlan)
    ensures
        r.kind == classify(path@),
        r.file@ == target_of(path@),
{
    let kind = classify_path(path);
    let mut file = String::from_str("website");
    match kind {
        ResourceKind::Html => {
            let is_root = path.unicode_len() == 1 && path.get_char(0) == '/';
            proof {
                reveal_strlit("/");
                if is_root {
                    assert(path@ =~= "/"@);
                }
            }
            if is_root {
                file.append("/home");
            } else {
                file.append(path);
            }
            file.append(".html");
        },
        _ => {
            file.append(path);
        },
    }
    RoutePlan { kind, file }
}

/// The root path and `/home` resolve to the same kind and the same
/// backing file, so their responses are built from the same payload.
pub proof fn lemma_root_alias()
    ensures
        classify("/"@) == classify("/home"@),
        target_of("/"@) == target_of("/home"@),
{
    reveal_strlit("/");
    reveal_strlit("/home");
    reveal_strlit(".css");
    reveal_strlit(".png");
    reveal_strlit(".ico");
    lemma_short_path_is_html("/"@);
    lemma_no_dot_is_html("/home"@);
    assert(normalized("/"@) == "/home"@);
    assert(normalized("/home"@) =~= "/home"@);
}

/// A path shorter than any extension suffix is classified as HTML.
pub proof fn lemma_short_path_is_html(path: Seq<char>)
    requires
        path.len() < 4,
    ensures
        classify(path) == ResourceKind::Html,
{
    reveal_strlit(".css");
    reveal_strlit(".png");
    reveal_strlit(".ico");
}

/// A path without a `.` has no extension suffix and is classified as HTML.
pub proof fn lemma_no_dot_is_html(path: Seq<char>)
    requires
        forall|k: int| 0 <= k < path.len() ==> path[k] != '.',
    ensures
        classify(path) == ResourceKind::Html,
{
    reveal_strlit(".css");
    reveal_strlit(".png");
    reveal_strlit(".ico");
    assert forall|pat: Seq<char>|
        pat.len() > 0 && pat[0] == '.' implies !has_substring(path, pat) by {
        if has_substring(path, pat) {
            let i = choose|i: int|
                0 <= i && i + pat.len() <= path.len() && #[trigger] path.subrange(
                    i,
                    i + pat.len(),
                ) == pat;
            assert(path.subrange(i, i + pat.len())[0] == path[i]);
        }
    }
    assert(".css"@[0] == '.' && ".png"@[0] == '.' && ".ico"@[0] == '.');
}

/// A path carrying one of the asset suffixes is never classified as HTML,
/// so a missing backing file yields the not-found error, not an HTML page.
pub proof fn lemma_asset_suffix_not_html(path: Seq<char>)
    requires
        has_substring(path, ".css"@) || has_substring(path, ".png"@) || has_substring(
            path,
            ".ico"@,
        ),
    ensures
        classify(path) != ResourceKind::Html,
{
}

} // verus!
