use vstd::prelude::*;
use vstd::string::*;

use crate::error::VerifyError;

verus! {

/// What camino's `Utf8Path::parent` returns for a path text: its parent
/// directory, or None when the path is empty or terminates in a root or
/// prefix. A pure function of the path text alone.
pub uninterp spec fn parent_dir_of(p: Seq<char>) -> Option<Seq<char>>;

/// Relies on camino's Utf8Path::parent: the parent directory of a UTF-8
/// path, None when the path is empty or terminates in a root or prefix.
#[verifier::external_body]
fn utf8_parent(p: &str) -> (r: Option<String>)
    ensures
        r matches Some(q) ==> parent_dir_of(p@) == Some(q@),
        r is None ==> parent_dir_of(p@) is None,
{
    match camino::Utf8Path::new(p).parent() {
        Some(q) => Some(q.as_str().to_owned()),
        None => None,
    }
}

/// The workspace root of a verification attempt: the parent directory of
/// the build-manifest path. A manifest path without a parent is a
/// configuration error.
pub fn workspace_root(manifest_path: &str) -> (r: Result<String, VerifyError>)
    ensures
        r matches Ok(root) ==> parent_dir_of(manifest_path@) == Some(root@),
        r matches Err(e) ==> parent_dir_of(manifest_path@) is None && (e matches
            VerifyError::WorkspacePathError { detail } && detail@ == "Failed to obtain workspace dir"@),
{
    match utf8_parent(manifest_path) {
        Some(root) => Ok(root),
        None => Err(
            VerifyError::WorkspacePathError {
                detail: "Failed to obtain workspace dir".to_owned(),
            },
        ),
    }
}

} // verus!
