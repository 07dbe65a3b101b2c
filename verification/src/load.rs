//! Loading a validated container handle from observed state.

use vstd::prelude::*;

use crate::errors::{CommandError, ErrorView};
use crate::probe::{result_view, ContainerProbe, ProbeView, StateRecordView};
use crate::resolve::{container_exists_spec, resolve_root, resolve_root_spec};

verus! {

/// A loaded container: the in-memory face of the persisted state record of
/// one container. On success the loader hands the record over in full —
/// never a default or partially filled handle.
#[derive(Debug, PartialEq, Eq)]
pub struct ContainerHandle {
    /// The identifier the container was created under, as recorded in its
    /// state — not the string the caller supplied to the load.
    pub container_id: String,
    /// Whether the container's cgroup lifecycle is delegated to systemd.
    pub systemd_cgroup: bool,
    /// The cgroup path exposed by the container's specification, if it
    /// could be read.
    pub cgroup_path: Option<String>,
}

/// The mathematical content of a [`ContainerHandle`].
pub struct HandleView {
    pub container_id: Seq<char>,
    pub systemd_cgroup: bool,
    pub cgroup_path: Option<Seq<char>>,
}

impl View for ContainerHandle {
    type V = HandleView;

    open spec fn view(&self) -> HandleView {
        HandleView {
            container_id: self.container_id@,
            systemd_cgroup: self.systemd_cgroup,
            cgroup_path: match self.cgroup_path {
                Some(path) => Some(path@),
                None => None,
            },
        }
    }
}

/// The handle that loading a state record yields: the record, carried over
/// field by field.
pub open spec fn handle_of_record(record: StateRecordView) -> HandleView {
    HandleView {
        container_id: record.container_id,
        systemd_cgroup: record.systemd_cgroup,
        cgroup_path: record.cgroup_path,
    }
}

/// What loading yields from the observations: the resolver's error if the
/// runtime root could not be canonicalized; `ContainerNotFound` if the
/// resolved root is absent; `StateLoadFailure` wrapping the collaborator's
/// cause if the root is present but its state could not be read; otherwise
/// the handle of the record that was read.
pub open spec fn load_container_spec(
    fs: ProbeView,
    root_dir: Seq<char>,
    container_id: Seq<char>,
) -> Result<HandleView, ErrorView> {
    match resolve_root_spec(fs.canonical_root, root_dir, container_id) {
        Err(error) => Err(error),
        Ok(_) => if !fs.root_present {
            Err(ErrorView::ContainerNotFound { container_id })
        } else {
            match fs.state {
                Ok(record) => Ok(handle_of_record(record)),
                Err(cause) => Err(ErrorView::StateLoadFailure { container_id, cause }),
            }
        },
    }
}

/// Loads the container named `container_id` under `root_dir` from the
/// observations in `fs`.
///
/// The absence of the resolved root fails fast with
/// [`CommandError::ContainerNotFound`], before the state is ever consulted,
/// so a mistyped identifier is told apart from a damaged installation,
/// which reports [`CommandError::StateLoadFailure`] instead.
pub fn load_container(
    fs: ContainerProbe,
    root_dir: &str,
    container_id: &str,
) -> (loaded: Result<ContainerHandle, CommandError>)
    ensures
        result_view(loaded) == load_container_spec(fs@, root_dir@, container_id@),
{
    match resolve_root(&fs.canonical_root, root_dir, container_id) {
        Err(error) => Err(error),
        Ok(_) => if !fs.root_present {
            Err(CommandError::ContainerNotFound { container_id: container_id.to_owned() })
        } else {
            match fs.state {
                Ok(record) => Ok(
                    ContainerHandle {
                        container_id: record.container_id,
                        systemd_cgroup: record.systemd_cgroup,
                        cgroup_path: record.cgroup_path,
                    },
                ),
                Err(cause) => Err(
                    CommandError::StateLoadFailure {
                        container_id: container_id.to_owned(),
                        cause,
                    },
                ),
            }
        },
    }
}

/// An absent container root means "not found", on both paths: whenever the
/// runtime root canonicalizes but the resolved container root is absent,
/// the existence check reports `false`, and loading fails with
/// `ContainerNotFound` — never with `StateLoadFailure`, whatever the state
/// observation holds.
pub proof fn lemma_absent_root_is_not_found(
    fs: ProbeView,
    root_dir: Seq<char>,
    container_id: Seq<char>,
)
    requires
        fs.canonical_root is Ok,
        !fs.root_present,
    ensures
        container_exists_spec(fs, root_dir, container_id) == Ok::<
            bool,
            ErrorView,
        >(false),
        load_container_spec(fs, root_dir, container_id) == Err::<HandleView, ErrorView>(
            ErrorView::ContainerNotFound { container_id },
        ),
{
}

/// A present root whose state cannot be read fails as a state-load failure
/// wrapping the collaborator's cause — loading never falls back to a
/// default or empty handle.
pub proof fn lemma_unreadable_state_is_load_failure(
    fs: ProbeView,
    root_dir: Seq<char>,
    container_id: Seq<char>,
)
    requires
        fs.canonical_root is Ok,
        fs.root_present,
        fs.state is Err,
    ensures
        load_container_spec(fs, root_dir, container_id) == Err::<HandleView, ErrorView>(
            ErrorView::StateLoadFailure { container_id, cause: fs.state->Err_0 },
        ),
{
}

/// Round trip: a container whose creation recorded the caller's identifier
/// in its state loads back into a handle that carries that identifier.
pub proof fn lemma_load_round_trip(fs: ProbeView, root_dir: Seq<char>, container_id: Seq<char>)
    requires
        fs.canonical_root is Ok,
        fs.root_present,
        fs.state is Ok,
        fs.state->Ok_0.container_id == container_id,
    ensures
        load_container_spec(fs, root_dir, container_id) is Ok,
        load_container_spec(fs, root_dir, container_id)->Ok_0.container_id == container_id,
{
}

} // verus!
