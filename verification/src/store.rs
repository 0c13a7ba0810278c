//! The artifact store: a flat directory in which each artifact lies under a
//! name made from its identifier. Writing and resolving use the same rule.

use crate::config::Config;
use crate::identifier::{is_identifier, is_valid};
use crate::text::{concat2, concat3};
use vstd::prelude::*;
use vstd::string::*;

verus! {

/// File name of the artifact with identifier `id`.
pub open spec fn artifact_name(id: Seq<char>) -> Seq<char> {
    id + ".dng"@
}

/// Path of the artifact with identifier `id` in the directory `dir`.
pub open spec fn artifact_path(dir: Seq<char>, id: Seq<char>) -> Seq<char> {
    dir + "/"@ + artifact_name(id)
}

/// Path that the merge tool writes to while the artifact `id` is not yet
/// complete. It lies beside the artifacts, so that moving it into place is
/// a rename within one directory.
pub open spec fn partial_path(dir: Seq<char>, id: Seq<char>) -> Seq<char> {
    dir + "/"@ + id + ".partial.dng"@
}

/// The path under which a client fetches the artifact `id`.
pub open spec fn download_url(id: Seq<char>) -> Seq<char> {
    "/download/"@ + id
}

/// Where a download request for `raw` looks: the artifact path if `raw` has
/// the shape of an identifier, nowhere otherwise.
pub open spec fn located(dir: Seq<char>, raw: Seq<char>) -> Option<Seq<char>> {
    if is_identifier(raw) {
        Some(artifact_path(dir, raw))
    } else {
        None
    }
}

/// Builds the path of the artifact `id`.
pub fn artifact_path_of(config: &Config, id: &str) -> (r: String)
    ensures
        r@ == artifact_path(config@.storage_dir, id@),
{
    let mut r = concat3(config.storage_dir.as_str(), "/", id);
    r.append(".dng");
    assert(r@ =~= artifact_path(config@.storage_dir, id@));
    r
}

/// Builds the path that the tool writes to for the artifact `id`.
pub fn partial_path_of(config: &Config, id: &str) -> (r: String)
    ensures
        r@ == partial_path(config@.storage_dir, id@),
{
    let mut r = concat3(config.storage_dir.as_str(), "/", id);
    r.append(".partial.dng");
    r
}

/// Builds the path under which a client fetches the artifact `id`.
pub fn download_url_of(id: &str) -> (r: String)
    ensures
        r@ == download_url(id@),
{
    concat2("/download/", id)
}

/// Resolves the identifier of a download request to the path to open.
/// A string that is no identifier names no artifact.
pub fn locate(config: &Config, raw: &str) -> (r: Option<String>)
    ensures
        r is Some <==> is_identifier(raw@),
        r matches Some(path) ==> path@ == artifact_path(config@.storage_dir, raw@),
{
    if is_valid(raw) {
        Some(artifact_path_of(config, raw))
    } else {
        None
    }
}

/// How a download request ends.
#[derive(Clone, Debug, PartialEq, Eq)]
pub enum Retrieval {
    /// The file at `path` is sent to the client.
    Serve { path: String },
    /// No artifact has this identifier.
    NotFound,
}

/// A `Retrieval` as plain values.
pub enum RetrievalView {
    Serve { path: Seq<char> },
    NotFound,
}

impl View for Retrieval {
    type V = RetrievalView;

    open spec fn view(&self) -> RetrievalView {
        match self {
            Retrieval::Serve { path } => RetrievalView::Serve { path: path@ },
            Retrieval::NotFound => RetrievalView::NotFound,
        }
    }
}

/// How a download request for `raw` ends when the storage directory holds
/// the files `files`.
pub open spec fn retrieval(dir: Seq<char>, files: Set<Seq<char>>, raw: Seq<char>) -> RetrievalView {
    match located(dir, raw) {
        Some(path) => if files.contains(path) {
            RetrievalView::Serve { path }
        } else {
            RetrievalView::NotFound
        },
        None => RetrievalView::NotFound,
    }
}

/// Decides a download request. `present` says whether a file exists at the
/// path that `locate` gave for `raw`; it is not read where `locate` gave
/// none.
pub fn retrieve(config: &Config, raw: &str, present: bool) -> (r: Retrieval)
    ensures
        r@ == match located(config@.storage_dir, raw@) {
            Some(path) => if present {
                RetrievalView::Serve { path }
            } else {
                RetrievalView::NotFound
            },
            None => RetrievalView::NotFound,
        },
{
    match locate(config, raw) {
        Some(path) => if present {
            Retrieval::Serve { path }
        } else {
            Retrieval::NotFound
        },
        None => Retrieval::NotFound,
    }
}

/// Two artifacts share a path only if they share the identifier.
pub proof fn artifact_paths_are_distinct(dir: Seq<char>, a: Seq<char>, b: Seq<char>)
    requires
        artifact_path(dir, a) == artifact_path(dir, b),
    ensures
        a == b,
{
    reveal_strlit("/");
    reveal_strlit(".dng");
    let pa = artifact_path(dir, a);
    let pb = artifact_path(dir, b);
    assert(pa.len() == dir.len() + 1 + a.len() + 4);
    assert(pb.len() == dir.len() + 1 + b.len() + 4);
    assert(a.len() == b.len());
    assert forall|i: int| 0 <= i < a.len() implies a[i] == b[i] by {
        assert(pa[dir.len() + 1 + i] == a[i]);
        assert(pb[dir.len() + 1 + i] == b[i]);
    }
    assert(a =~= b);
}

/// The path that the tool writes to is the artifact path of no identifier:
/// a file that is still being written cannot be fetched.
pub proof fn partial_path_is_no_artifact(dir: Seq<char>, id: Seq<char>, other: Seq<char>)
    requires
        is_identifier(id),
        is_identifier(other),
    ensures
        partial_path(dir, id) != artifact_path(dir, other),
{
    reveal_strlit("/");
    reveal_strlit(".dng");
    reveal_strlit(".partial.dng");
    assert(partial_path(dir, id).len() == dir.len() + 1 + 36 + 12);
    assert(artifact_path(dir, other).len() == dir.len() + 1 + 36 + 4);
}

} // verus!
