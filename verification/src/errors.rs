//! The error taxonomy of the resolution and loading pipeline.

use vstd::prelude::*;
use vstd::string::StringExecFns;

verus! {

/// Why a container operation failed. Every variant names the container the
/// failure is attributed to, and the variants that wrap a collaborator's
/// failure carry its reported cause, so diagnostics are never lost.
#[derive(Debug, PartialEq, Eq)]
pub enum CommandError {
    /// The runtime root directory could not be canonicalized: it is missing,
    /// inaccessible, or the filesystem reported an error.
    PathResolution { root_dir: String, container_id: String, cause: String },
    /// The container's resolved root does not exist.
    ContainerNotFound { container_id: String },
    /// The container's resolved root exists, but its persisted state could
    /// not be read or deserialized.
    StateLoadFailure { container_id: String, cause: String },
    /// The container's state was loaded, but its specification does not
    /// expose a readable cgroup path.
    SpecificationError { container_id: String },
    /// The resource-control backend rejected the derived configuration.
    ManagerConstructionError { container_name: String, cause: String },
}

/// The mathematical content of a [`CommandError`].
pub enum ErrorView {
    PathResolution { root_dir: Seq<char>, container_id: Seq<char>, cause: Seq<char> },
    ContainerNotFound { container_id: Seq<char> },
    StateLoadFailure { container_id: Seq<char>, cause: Seq<char> },
    SpecificationError { container_id: Seq<char> },
    ManagerConstructionError { container_name: Seq<char>, cause: Seq<char> },
}

impl View for CommandError {
    type V = ErrorView;

    open spec fn view(&self) -> ErrorView {
        match self {
            CommandError::PathResolution { root_dir, container_id, cause } => {
                ErrorView::PathResolution {
                    root_dir: root_dir@,
                    container_id: container_id@,
                    cause: cause@,
                }
            },
            CommandError::ContainerNotFound { container_id } => {
                ErrorView::ContainerNotFound { container_id: container_id@ }
            },
            CommandError::StateLoadFailure { container_id, cause } => {
                ErrorView::StateLoadFailure { container_id: container_id@, cause: cause@ }
            },
            CommandError::SpecificationError { container_id } => {
                ErrorView::SpecificationError { container_id: container_id@ }
            },
            CommandError::ManagerConstructionError { container_name, cause } => {
                ErrorView::ManagerConstructionError {
                    container_name: container_name@,
                    cause: cause@,
                }
            },
        }
    }
}

/// The diagnostic line that [`CommandError::message`] renders for an error.
pub open spec fn message_spec(error: ErrorView) -> Seq<char> {
    match error {
        ErrorView::PathResolution { root_dir, container_id, cause } => {
            "failed to canonicalize "@ + root_dir + " for container "@ + container_id + ": "@
                + cause
        },
        ErrorView::ContainerNotFound { container_id } => {
            "container "@ + container_id + " does not exist."@
        },
        ErrorView::StateLoadFailure { container_id, cause } => {
            "could not load state for container "@ + container_id + ": "@ + cause
        },
        ErrorView::SpecificationError { container_id } => {
            "could not read the cgroup path of the specification for container "@ + container_id
        },
        ErrorView::ManagerConstructionError { container_name, cause } => {
            "could not create a cgroup manager for container "@ + container_name + ": "@ + cause
        },
    }
}

impl CommandError {
    /// Renders the error as one human-readable line that names the container
    /// and the underlying cause.
    pub fn message(&self) -> (rendered: String)
        ensures
            rendered@ == message_spec(self@),
    {
        match self {
            CommandError::PathResolution { root_dir, container_id, cause } => {
                let mut rendered = "failed to canonicalize ".to_owned();
                rendered.append(root_dir.as_str());
                rendered.append(" for container ");
                rendered.append(container_id.as_str());
                rendered.append(": ");
                rendered.append(cause.as_str());
                rendered
            },
            CommandError::ContainerNotFound { container_id } => {
                let mut rendered = "container ".to_owned();
                rendered.append(container_id.as_str());
                rendered.append(" does not exist.");
                rendered
            },
            CommandError::StateLoadFailure { container_id, cause } => {
                let mut rendered = "could not load state for container ".to_owned();
                rendered.append(container_id.as_str());
                rendered.append(": ");
                rendered.append(cause.as_str());
                rendered
            },
            CommandError::SpecificationError { container_id } => {
                let mut rendered =
                    "could not read the cgroup path of the specification for container "
                    .to_owned();
                rendered.append(container_id.as_str());
                rendered
            },
            CommandError::ManagerConstructionError { container_name, cause } => {
                let mut rendered = "could not create a cgroup manager for container ".to_owned();
                rendered.append(container_name.as_str());
                rendered.append(": ");
                rendered.append(cause.as_str());
                rendered
            },
        }
    }
}

} // verus!
