//! Deriving the configuration a cgroup manager is constructed from.

use vstd::prelude::*;

use crate::errors::{CommandError, ErrorView};
use crate::load::{load_container, load_container_spec, ContainerHandle, HandleView};
use crate::probe::{result_view, ContainerProbe, ProbeView};

verus! {

/// The configuration handed verbatim to the resource-control collaborator:
/// derived fresh on every request, never persisted, never cached.
#[derive(Debug, PartialEq, Eq)]
pub struct CgroupConfig {
    /// The cgroup path from the loaded container's specification.
    pub cgroup_path: String,
    /// Whether the cgroup lifecycle is delegated to systemd.
    pub systemd_cgroup: bool,
    /// The loaded container's identifier — the one its state records.
    pub container_name: String,
}

/// The mathematical content of a [`CgroupConfig`].
pub struct ConfigView {
    pub cgroup_path: Seq<char>,
    pub systemd_cgroup: bool,
    pub container_name: Seq<char>,
}

impl View for CgroupConfig {
    type V = ConfigView;

    open spec fn view(&self) -> ConfigView {
        ConfigView {
            cgroup_path: self.cgroup_path@,
            systemd_cgroup: self.systemd_cgroup,
            container_name: self.container_name@,
        }
    }
}

/// What derivation yields from a loaded handle: every configuration field
/// comes from the handle — the name from the identifier its state records —
/// or a specification error naming that identifier when the handle exposes
/// no cgroup path.
pub open spec fn derive_manager_config_spec(handle: HandleView) -> Result<ConfigView, ErrorView> {
    match handle.cgroup_path {
        Some(path) => Ok(
            ConfigView {
                cgroup_path: path,
                systemd_cgroup: handle.systemd_cgroup,
                container_name: handle.container_id,
            },
        ),
        None => Err(ErrorView::SpecificationError { container_id: handle.container_id }),
    }
}

/// What requesting a manager yields from the observations: the loader's
/// error, or the configuration derived from the loaded handle.
pub open spec fn create_resource_manager_spec(
    fs: ProbeView,
    root_dir: Seq<char>,
    container_id: Seq<char>,
) -> Result<ConfigView, ErrorView> {
    match load_container_spec(fs, root_dir, container_id) {
        Ok(handle) => derive_manager_config_spec(handle),
        Err(error) => Err(error),
    }
}

/// Derives the cgroup-manager configuration from a loaded handle.
pub fn derive_manager_config(handle: &ContainerHandle) -> (config: Result<
    CgroupConfig,
    CommandError,
>)
    ensures
        result_view(config) == derive_manager_config_spec(handle@),
{
    match &handle.cgroup_path {
        Some(path) => Ok(
            CgroupConfig {
                cgroup_path: path.clone(),
                systemd_cgroup: handle.systemd_cgroup,
                container_name: handle.container_id.clone(),
            },
        ),
        None => Err(
            CommandError::SpecificationError { container_id: handle.container_id.clone() },
        ),
    }
}

/// Loads the container named `container_id` under `root_dir` from the
/// observations in `fs` and derives the configuration its cgroup manager is
/// constructed from. Inherits every failure of the loader; fails with
/// [`CommandError::SpecificationError`] when the loaded state exposes no
/// cgroup path.
pub fn create_resource_manager(
    fs: ContainerProbe,
    root_dir: &str,
    container_id: &str,
) -> (config: Result<CgroupConfig, CommandError>)
    ensures
        result_view(config) == create_resource_manager_spec(
            fs@,
            root_dir@,
            container_id@,
        ),
{
    match load_container(fs, root_dir, container_id) {
        Ok(handle) => derive_manager_config(&handle),
        Err(error) => Err(error),
    }
}

/// Wraps the resource-control collaborator's rejection of a derived
/// configuration: construction failures are terminal and are reported under
/// the name the configuration carries.
pub fn manager_construction_error(config: &CgroupConfig, cause: String) -> (error: CommandError)
    ensures
        error@ == (ErrorView::ManagerConstructionError {
            container_name: config@.container_name,
            cause: cause@,
        }),
{
    CommandError::ManagerConstructionError {
        container_name: config.container_name.clone(),
        cause,
    }
}

/// The manager is named after the loaded state's identifier: whenever a
/// configuration is derived at all, its `container_name` is the identifier
/// the container's state records — not the caller-supplied string, even
/// where the two differ.
pub proof fn lemma_manager_named_from_loaded_state(
    fs: ProbeView,
    root_dir: Seq<char>,
    container_id: Seq<char>,
)
    requires
        fs.state is Ok,
    ensures
        create_resource_manager_spec(fs, root_dir, container_id) is Ok
            ==> create_resource_manager_spec(fs, root_dir, container_id)->Ok_0.container_name
            == fs.state->Ok_0.container_id,
{
}

} // verus!
