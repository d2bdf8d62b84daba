//! The `app://` asset responder: embedded files only, no filesystem access.
//!
//! Request paths are normalized before any lookup: separators are stripped
//! from both ends, an empty path becomes the default document, and any path
//! holding a parent-directory segment is rejected. MIME types come from the
//! extension alone.

use vstd::prelude::*;

use std::borrow::Cow;

use include_dir::Dir;

use crate::strs::{
    contains_dot_dot, ends_with, has_dot_dot, has_suffix, strip_leading_char, strip_trailing_char,
    trim_char,
};

verus! {

/// Outcome of serving one request; the caller sets the HTTP status from it.
#[derive(Debug)]
pub enum ServeResult<'a> {
    /// File found: status 200 with this body and MIME type.
    Found { body: Cow<'a, [u8]>, mime_type: &'static str },
    /// Path missing or invalid: status 404.
    NotFound,
}

/// Content-Security-Policy sent with every `app://` response.
pub const CSP: &'static str = "default-src 'self'; script-src 'self'; connect-src 'none';";

/// Default document for an empty path.
pub const INDEX_PATH: &'static str = "index.html";

/// An embedded directory of include_dir, opaque here; what it holds is
/// stated through [`embedded_files`].
#[verifier::external_type_specification]
#[verifier::external_body]
pub struct ExDir<'a>(Dir<'a>);

/// The files of an embedded directory: each path under which a lookup finds a
/// file, with that file's bytes.
pub uninterp spec fn embedded_files(d: Dir) -> Map<Seq<char>, Seq<u8>>;

/// Relies on include_dir's `Dir::get_file`, which searches the embedded tree
/// for a file at `path`, and on `File::contents`, which hands out its bytes.
#[verifier::external_body]
fn embedded_file(ui: &'static Dir<'static>, path: &str) -> (r: Option<&'static [u8]>)
    ensures
        match r {
            Some(b) => embedded_files(*ui).contains_key(path@) && b@ == embedded_files(*ui)[path@],
            None => !embedded_files(*ui).contains_key(path@),
        },
{
    ui.get_file(path).map(|f| f.contents())
}

/// The embedded path that a request path names, or `None` when it is rejected.
pub open spec fn normalized(uri_path: Seq<char>) -> Option<Seq<char>> {
    let t = strip_trailing_char(strip_leading_char(uri_path, '/'), '/');
    let t = if t.len() == 0 {
        INDEX_PATH@
    } else {
        t
    };
    if has_dot_dot(t) {
        None
    } else {
        Some(t)
    }
}

/// The MIME type that the extension table gives for `path`.
pub open spec fn mime_for(path: Seq<char>) -> Seq<char> {
    if has_suffix(path, ".html"@) || has_suffix(path, "/"@) || path.len() == 0 {
        "text/html"@
    } else if has_suffix(path, ".js"@) {
        "application/javascript"@
    } else if has_suffix(path, ".css"@) {
        "text/css"@
    } else if has_suffix(path, ".json"@) {
        "application/json"@
    } else if has_suffix(path, ".ico"@) {
        "image/x-icon"@
    } else if has_suffix(path, ".svg"@) {
        "image/svg+xml"@
    } else if has_suffix(path, ".png"@) {
        "image/png"@
    } else if has_suffix(path, ".woff2"@) {
        "font/woff2"@
    } else {
        "application/octet-stream"@
    }
}

/// Returns the MIME type for `path` by its extension; unknown extensions give
/// `application/octet-stream`.
pub fn mime_from_path(path: &str) -> (r: &'static str)
    ensures
        r@ == mime_for(path@),
{
    if ends_with(path, ".html") || ends_with(path, "/") || path.unicode_len() == 0 {
        "text/html"
    } else if ends_with(path, ".js") {
        "application/javascript"
    } else if ends_with(path, ".css") {
        "text/css"
    } else if ends_with(path, ".json") {
        "application/json"
    } else if ends_with(path, ".ico") {
        "image/x-icon"
    } else if ends_with(path, ".svg") {
        "image/svg+xml"
    } else if ends_with(path, ".png") {
        "image/png"
    } else if ends_with(path, ".woff2") {
        "font/woff2"
    } else {
        "application/octet-stream"
    }
}

proof fn lemma_strip_leading_keeps_dot_dot(s: Seq<char>)
    requires
        has_dot_dot(s),
    ensures
        has_dot_dot(strip_leading_char(s, '/')),
    decreases s.len(),
{
    if s.len() > 0 && s[0] == '/' {
        let i = choose|i: int| 0 <= i && i + 1 < s.len() && #[trigger] s[i] == '.' && s[i + 1] == '.';
        let t = s.drop_first();
        assert(t[i - 1] == '.' && t[i] == '.');
        lemma_strip_leading_keeps_dot_dot(t);
    }
}

proof fn lemma_strip_trailing_keeps_dot_dot(s: Seq<char>)
    requires
        has_dot_dot(s),
    ensures
        has_dot_dot(strip_trailing_char(s, '/')),
    decreases s.len(),
{
    if s.len() > 0 && s.last() == '/' {
        let i = choose|i: int| 0 <= i && i + 1 < s.len() && #[trigger] s[i] == '.' && s[i + 1] == '.';
        let t = s.drop_last();
        assert(t[i] == '.' && t[i + 1] == '.');
        lemma_strip_trailing_keeps_dot_dot(t);
    }
}

proof fn lemma_strip_all_slashes(s: Seq<char>)
    requires
        forall|i: int| 0 <= i < s.len() ==> s[i] == '/',
    ensures
        strip_leading_char(s, '/').len() == 0,
    decreases s.len(),
{
    if s.len() > 0 {
        lemma_strip_all_slashes(s.drop_first());
    }
}

/// A request path made of separators only (the empty path included) names
/// the default document.
pub proof fn lemma_slashes_name_index(uri_path: Seq<char>)
    requires
        forall|i: int| 0 <= i < uri_path.len() ==> uri_path[i] == '/',
    ensures
        normalized(uri_path) == Some(INDEX_PATH@),
{
    lemma_strip_all_slashes(uri_path);
    assert(strip_trailing_char(strip_leading_char(uri_path, '/'), '/').len() == 0);
    reveal_strlit("index.html");
    assert(!has_dot_dot(INDEX_PATH@));
}

/// A request path that holds `..` anywhere is rejected.
pub proof fn lemma_dot_dot_rejected(uri_path: Seq<char>)
    requires
        has_dot_dot(uri_path),
    ensures
        normalized(uri_path) is None,
{
    lemma_strip_leading_keeps_dot_dot(uri_path);
    lemma_strip_trailing_keeps_dot_dot(strip_leading_char(uri_path, '/'));
}

/// Normalizes a request path to an embedded file path: strips `/` from both
/// ends, substitutes the default document for an empty path, and rejects any
/// path holding `..`.
pub fn normalize_path(uri_path: &str) -> (r: Option<&str>)
    ensures
        match r {
            Some(p) => normalized(uri_path@) == Some(p@),
            None => normalized(uri_path@) is None,
        },
{
    let trimmed = trim_char(uri_path, '/');
    let path: &str = if trimmed.unicode_len() == 0 {
        INDEX_PATH
    } else {
        trimmed
    };
    if contains_dot_dot(path) {
        None
    } else {
        Some(path)
    }
}

/// Serves one request from the embedded directory `ui`. A path that fails
/// normalization never reaches the lookup.
pub fn serve(ui: &'static Dir<'static>, uri_path: &str) -> (r: ServeResult<'static>)
    ensures
        match normalized(uri_path@) {
            None => r is NotFound,
            Some(p) => if embedded_files(*ui).contains_key(p) {
                r matches ServeResult::Found { body, mime_type } && body@ == embedded_files(
                    *ui,
                )[p] && mime_type@ == mime_for(p)
            } else {
                r is NotFound
            },
        },
{
    let path = match normalize_path(uri_path) {
        Some(p) => p,
        None => return ServeResult::NotFound,
    };
    let bytes = match embedded_file(ui, path) {
        Some(b) => b,
        None => return ServeResult::NotFound,
    };
    ServeResult::Found { body: Cow::Borrowed(bytes), mime_type: mime_from_path(path) }
}

} // verus!
