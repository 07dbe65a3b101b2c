//! Container identity and state resolution for a container runtime.
//!
//! Given a runtime root directory and a container identifier, this crate
//! resolves the container's on-disk root, decides whether the container
//! exists, turns the persisted state that was read from that root into a
//! container handle, and derives the configuration a resource-control
//! (cgroup) manager is constructed from.
//!
//! The crate itself performs no I/O. A caller inspects the filesystem once
//! per operation and hands the outcome over as a [`probe::ContainerProbe`];
//! every decision made from that outcome is verified here.

pub mod errors;
pub mod load;
pub mod manager;
pub mod paths;
pub mod probe;
pub mod resolve;

pub use errors::CommandError;
pub use load::{load_container, ContainerHandle};
pub use manager::{create_resource_manager, derive_manager_config, CgroupConfig};
pub use paths::join_container_root;
pub use probe::{ContainerProbe, StateRecord};
pub use resolve::{container_exists, resolve_root};
