//! Resolving a container's root and deciding whether the container exists.

use vstd::prelude::*;
use vstd::string::StringExecFns;

use crate::errors::{CommandError, ErrorView};
use crate::paths::{join_container_root, joined_path};
use crate::probe::{result_view, ContainerProbe, ProbeView};

verus! {

/// What resolution yields from a canonicalization outcome: the canonical
/// root with the identifier appended, or a path-resolution error that names
/// the original root directory, the container, and the cause.
pub open spec fn resolve_root_spec(
    canonical_root: Result<Seq<char>, Seq<char>>,
    root_dir: Seq<char>,
    container_id: Seq<char>,
) -> Result<Seq<char>, ErrorView> {
    match canonical_root {
        Ok(root) => Ok(joined_path(root, container_id)),
        Err(cause) => Err(ErrorView::PathResolution { root_dir, container_id, cause }),
    }
}

/// What the existence check yields: the presence bit of the probe, behind
/// the same path-resolution error as [`resolve_root_spec`].
pub open spec fn container_exists_spec(
    fs: ProbeView,
    root_dir: Seq<char>,
    container_id: Seq<char>,
) -> Result<bool, ErrorView> {
    match resolve_root_spec(fs.canonical_root, root_dir, container_id) {
        Ok(_) => Ok(fs.root_present),
        Err(error) => Err(error),
    }
}

/// Resolves the root directory of the container named `container_id` under
/// the runtime root `root_dir`.
///
/// `canonical_root` is the outcome the filesystem reported for
/// canonicalizing `root_dir`: symlinks and relative segments are resolved
/// there, before the identifier is appended, so the identifier itself is
/// never symlink-resolved. A failed canonicalization is never swallowed: it
/// becomes a [`CommandError::PathResolution`] carrying the original root
/// directory, the identifier, and the cause.
pub fn resolve_root(
    canonical_root: &Result<String, String>,
    root_dir: &str,
    container_id: &str,
) -> (resolved: Result<String, CommandError>)
    ensures
        result_view(resolved) == resolve_root_spec(
            result_view(*canonical_root),
            root_dir@,
            container_id@,
        ),
{
    match canonical_root {
        Ok(root) => Ok(join_container_root(root.as_str(), container_id)),
        Err(cause) => Err(
            CommandError::PathResolution {
                root_dir: root_dir.to_owned(),
                container_id: container_id.to_owned(),
                cause: cause.clone(),
            },
        ),
    }
}

/// Reports whether the container named `container_id` currently exists
/// under `root_dir`, from the observations in `fs`.
///
/// The result is advisory: the filesystem may change right after the
/// observation was taken. A canonicalization failure is propagated as the
/// same error [`resolve_root`] reports.
pub fn container_exists(
    fs: &ContainerProbe,
    root_dir: &str,
    container_id: &str,
) -> (present: Result<bool, CommandError>)
    ensures
        result_view(present) == container_exists_spec(fs@, root_dir@, container_id@),
{
    match resolve_root(&fs.canonical_root, root_dir, container_id) {
        Ok(_) => Ok(fs.root_present),
        Err(error) => Err(error),
    }
}

/// Resolution is deterministic and idempotent: as long as the filesystem
/// reports the same canonicalization outcome for the same root directory,
/// repeated resolutions of the same container yield identical results.
pub proof fn lemma_resolve_root_deterministic(
    first: Result<Seq<char>, Seq<char>>,
    second: Result<Seq<char>, Seq<char>>,
    root_dir: Seq<char>,
    container_id: Seq<char>,
)
    requires
        first == second,
    ensures
        resolve_root_spec(first, root_dir, container_id) == resolve_root_spec(
            second,
            root_dir,
            container_id,
        ),
{
}

} // verus!
