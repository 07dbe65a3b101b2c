//! What one inspection of the runtime root reported for one container.

use vstd::prelude::*;

verus! {

/// The persisted state record of one container, as the state-persistence
/// collaborator deserialized it from the container's root directory.
#[derive(Debug, PartialEq, Eq)]
pub struct StateRecord {
    /// The identifier recorded when the container was created.
    pub container_id: String,
    /// Whether the container's cgroup lifecycle is delegated to systemd.
    pub systemd_cgroup: bool,
    /// The cgroup path exposed by the container's specification; `None` when
    /// the specification, or its cgroup-path field, could not be read.
    pub cgroup_path: Option<String>,
}

/// The mathematical content of a [`StateRecord`].
pub struct StateRecordView {
    pub container_id: Seq<char>,
    pub systemd_cgroup: bool,
    pub cgroup_path: Option<Seq<char>>,
}

impl View for StateRecord {
    type V = StateRecordView;

    open spec fn view(&self) -> StateRecordView {
        StateRecordView {
            container_id: self.container_id@,
            systemd_cgroup: self.systemd_cgroup,
            cgroup_path: match self.cgroup_path {
                Some(p) => Some(p@),
                None => None,
            },
        }
    }
}

/// What the filesystem and the state-persistence collaborator reported when
/// they were consulted about one runtime root and one container identifier.
///
/// The caller that owns the I/O fills this in — once per operation, in the
/// order the fields are listed — and every decision taken from it is made by
/// the verified functions of this crate. The observations are a snapshot:
/// the filesystem may change after they were taken, and nothing here claims
/// otherwise.
#[derive(Debug, PartialEq, Eq)]
pub struct ContainerProbe {
    /// The outcome of canonicalizing the runtime root directory: the
    /// canonical, symlink-free absolute path, or the cause of the failure.
    pub canonical_root: Result<String, String>,
    /// Whether the container's resolved root exists. Meaningful only when
    /// `canonical_root` is `Ok`; a root that exists but is inaccessible
    /// still counts as present, since the test is purely presence-based.
    pub root_present: bool,
    /// The outcome of reading and deserializing the container's state from
    /// its resolved root: the record, or the cause of the failure.
    /// Meaningful only when the resolved root is present.
    pub state: Result<StateRecord, String>,
}

/// The mathematical content of a [`ContainerProbe`].
pub struct ProbeView {
    pub canonical_root: Result<Seq<char>, Seq<char>>,
    pub root_present: bool,
    pub state: Result<StateRecordView, Seq<char>>,
}

impl View for ContainerProbe {
    type V = ProbeView;

    open spec fn view(&self) -> ProbeView {
        ProbeView {
            canonical_root: match self.canonical_root {
                Ok(root) => Ok(root@),
                Err(cause) => Err(cause@),
            },
            root_present: self.root_present,
            state: match self.state {
                Ok(record) => Ok(record@),
                Err(cause) => Err(cause@),
            },
        }
    }
}

/// The view of a `Result`, taken on both sides.
pub open spec fn result_view<T: View, E: View>(r: Result<T, E>) -> Result<T::V, E::V> {
    match r {
        Ok(value) => Ok(value@),
        Err(error) => Err(error@),
    }
}

} // verus!
