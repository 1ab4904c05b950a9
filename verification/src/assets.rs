//! Decisions of the static file service: which file a request asks for,
//! whether it stays inside the directory that is served, and what is sent.

use crate::deps::{strip_leading, without_leading};
use crate::text::same_text;
use vstd::prelude::*;

verus! {

/// The content type for a file name extension, given without the dot.
/// Extensions are told apart by case, and an unknown one is served as bytes.
pub open spec fn mime_of(extension: Seq<char>) -> Seq<char> {
    if extension == "html"@ {
        "text/html; charset=utf-8"@
    } else if extension == "css"@ {
        "text/css; charset=utf-8"@
    } else if extension == "js"@ {
        "application/javascript; charset=utf-8"@
    } else if extension == "json"@ {
        "application/json; charset=utf-8"@
    } else if extension == "svg"@ {
        "image/svg+xml"@
    } else if extension == "png"@ {
        "image/png"@
    } else if extension == "jpg"@ || extension == "jpeg"@ {
        "image/jpeg"@
    } else if extension == "webp"@ {
        "image/webp"@
    } else {
        "application/octet-stream"@
    }
}

/// The content type for a file name extension. A file without an extension
/// is looked up with the empty text.
pub fn mime_for(extension: &str) -> (mime: &'static str)
    ensures
        mime@ == mime_of(extension@),
{
    if same_text(extension, "html") {
        "text/html; charset=utf-8"
    } else if same_text(extension, "css") {
        "text/css; charset=utf-8"
    } else if same_text(extension, "js") {
        "application/javascript; charset=utf-8"
    } else if same_text(extension, "json") {
        "application/json; charset=utf-8"
    } else if same_text(extension, "svg") {
        "image/svg+xml"
    } else if same_text(extension, "png") {
        "image/png"
    } else if same_text(extension, "jpg") || same_text(extension, "jpeg") {
        "image/jpeg"
    } else if same_text(extension, "webp") {
        "image/webp"
    } else {
        "application/octet-stream"
    }
}

/// Whether the path with components `path` lies in or under the directory
/// with components `base`: whether `base` is the start of `path`, component
/// by component.
pub open spec fn is_under(base: Seq<Seq<char>>, path: Seq<Seq<char>>) -> bool {
    base.len() <= path.len() && path.take(base.len() as int) == base
}

/// The components of a path, by characters.
pub open spec fn components_view(components: Seq<String>) -> Seq<Seq<char>> {
    components.map_values(|component: String| component@)
}

/// Lets a requested file through only if it lies under the directory that is
/// served. Both paths are given resolved, with links and `..` worked out, as
/// their components from the root down. The result is the requested path, or
/// nothing where it leads out of the directory.
pub fn safe_join(base: &Vec<String>, candidate: Vec<String>) -> (joined: Option<Vec<String>>)
    ensures
        joined is Some <==> is_under(components_view(base@), components_view(candidate@)),
        joined matches Some(path) ==> path == candidate,
{
    if base.len() > candidate.len() {
        return None;
    }
    let ghost wanted = components_view(base@);
    let ghost given = components_view(candidate@);
    let mut at: usize = 0;
    while at < base.len()
        invariant
            at <= base.len(),
            base.len() <= candidate.len(),
            wanted == components_view(base@),
            given == components_view(candidate@),
            forall|k: int| 0 <= k < at ==> given[k] == wanted[k],
        decreases base.len() - at,
    {
        if base[at] != candidate[at] {
            assert(given.take(wanted.len() as int)[at as int] != wanted[at as int]);
            return None;
        }
        at += 1;
    }
    assert(given.take(wanted.len() as int) =~= wanted);
    Some(candidate)
}

/// The file that a request path asks for, relative to the directory that is
/// served: the path without the slashes it starts with, or the index page
/// where nothing is left.
pub open spec fn requested(path: Seq<char>) -> Seq<char> {
    if without_leading(path, '/').len() == 0 {
        "index.html"@
    } else {
        without_leading(path, '/')
    }
}

/// Finds the file that a request path asks for.
pub fn requested_file(path: &str) -> (file: String)
    ensures
        file@ == requested(path@),
{
    let rest = strip_leading(path, '/');
    if rest.is_empty() {
        "index.html".to_owned()
    } else {
        rest.to_owned()
    }
}

/// Where the bytes of an answer come from.
#[derive(Clone, Copy, Debug, PartialEq, Eq, Structural)]
pub enum AssetSource {
    /// The requested file.
    Target,
    /// The index page, in place of a file that is not there.
    Index,
    /// Neither is there: a short notice.
    Notice,
}

/// What is sent for a request: from where, with which status and as which
/// content type.
#[derive(Clone, Copy, Debug, PartialEq, Eq)]
pub struct AssetPlan {
    pub source: AssetSource,
    pub status: u16,
    pub content_type: &'static str,
}

/// The notice that is sent where neither the file nor the index page is there.
pub fn missing_notice() -> (notice: &'static str)
    ensures
        notice@ == "Munin UI assets not found"@,
{
    "Munin UI assets not found"
}

/// Decides what is sent. A requested file that is there is sent with the
/// content type of its extension. Otherwise the index page is sent as HTML if
/// it is there, so that the interface can route the path itself, and a plain
/// notice with status 404 if it is not.
pub fn plan_asset(target_is_file: bool, extension: &str, index_exists: bool) -> (plan: AssetPlan)
    ensures
        target_is_file ==> plan.source == AssetSource::Target && plan.status == 200
            && plan.content_type@ == mime_of(extension@),
        !target_is_file && index_exists ==> plan.source == AssetSource::Index && plan.status
            == 200 && plan.content_type@ == "text/html; charset=utf-8"@,
        !target_is_file && !index_exists ==> plan.source == AssetSource::Notice && plan.status
            == 404 && plan.content_type@ == "text/plain; charset=utf-8"@,
{
    if target_is_file {
        AssetPlan { source: AssetSource::Target, status: 200, content_type: mime_for(extension) }
    } else if index_exists {
        AssetPlan {
            source: AssetSource::Index,
            status: 200,
            content_type: "text/html; charset=utf-8",
        }
    } else {
        AssetPlan {
            source: AssetSource::Notice,
            status: 404,
            content_type: "text/plain; charset=utf-8",
        }
    }
}

} // verus!
