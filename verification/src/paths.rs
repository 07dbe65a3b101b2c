//! Joining a canonical runtime root with a container identifier.

use vstd::prelude::*;
use vstd::string::StringExecFns;

verus! {

/// The path of a container's root: the canonical runtime root with the
/// container identifier appended as one further segment. The identifier is
/// appended verbatim, after the root has been canonicalized, so symlinks in
/// the root never apply to the identifier itself.
pub open spec fn joined_path(root: Seq<char>, container_id: Seq<char>) -> Seq<char> {
    root + "/"@ + container_id
}

/// Appends `container_id` as a path segment under the already canonical
/// `root`.
pub fn join_container_root(root: &str, container_id: &str) -> (joined: String)
    ensures
        joined@ == joined_path(root@, container_id@),
{
    let mut joined = root.to_owned();
    joined.append("/");
    joined.append(container_id);
    joined
}

} // verus!
