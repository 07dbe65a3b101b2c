use rkl::errors::CommandError;
use rkl::probe::{ContainerProbe, StateRecord};
use rkl::{container_exists, load_container, ContainerHandle};

fn recorded_web1() -> StateRecord {
    StateRecord {
        container_id: "web1".to_owned(),
        systemd_cgroup: true,
        cgroup_path: Some("/kubepods/web1".to_owned()),
    }
}

#[test]
fn absent_directory_reports_container_not_found() {
    // root=/var/run/containers, id=web1, directory absent.
    let fs = ContainerProbe {
        canonical_root: Ok("/var/run/containers".to_owned()),
        root_present: false,
        state: Err("state not read".to_owned()),
    };
    assert_eq!(
        load_container(fs, "/var/run/containers", "web1"),
        Err(CommandError::ContainerNotFound { container_id: "web1".to_owned() })
    );
}

#[test]
fn container_not_found_message_matches() {
    let error = CommandError::ContainerNotFound { container_id: "web1".to_owned() };
    assert_eq!(error.message(), "container web1 does not exist.");
}

#[test]
fn absent_root_agrees_between_exists_and_load() {
    // One probe, both questions: the container neither exists nor loads,
    // and the load failure is "not found", never a state-load failure.
    let fs = ContainerProbe {
        canonical_root: Ok("/var/run/containers".to_owned()),
        root_present: false,
        state: Err("would not matter".to_owned()),
    };
    assert_eq!(container_exists(&fs, "/var/run/containers", "web1"), Ok(false));
    let loaded = load_container(fs, "/var/run/containers", "web1");
    assert!(matches!(loaded, Err(CommandError::ContainerNotFound { .. })));
    assert!(!matches!(loaded, Err(CommandError::StateLoadFailure { .. })));
}

#[test]
fn unreadable_state_reports_load_failure() {
    let fs = ContainerProbe {
        canonical_root: Ok("/var/run/containers".to_owned()),
        root_present: true,
        state: Err("state.json: unexpected end of file".to_owned()),
    };
    assert_eq!(
        load_container(fs, "/var/run/containers", "web1"),
        Err(CommandError::StateLoadFailure {
            container_id: "web1".to_owned(),
            cause: "state.json: unexpected end of file".to_owned(),
        })
    );
}

#[test]
fn state_load_failure_message_carries_the_cause() {
    let error = CommandError::StateLoadFailure {
        container_id: "web1".to_owned(),
        cause: "state.json: unexpected end of file".to_owned(),
    };
    assert_eq!(
        error.message(),
        "could not load state for container web1: state.json: unexpected end of file"
    );
}

#[test]
fn loaded_handle_carries_the_recorded_state() {
    let fs = ContainerProbe {
        canonical_root: Ok("/var/run/containers".to_owned()),
        root_present: true,
        state: Ok(recorded_web1()),
    };
    assert_eq!(
        load_container(fs, "/var/run/containers", "web1"),
        Ok(ContainerHandle {
            container_id: "web1".to_owned(),
            systemd_cgroup: true,
            cgroup_path: Some("/kubepods/web1".to_owned()),
        })
    );
}

#[test]
fn created_then_loaded_round_trips_the_id() {
    // Creation recorded the caller's id in the state; loading under the
    // same id hands it back unchanged.
    let caller_id = "web1";
    let fs = ContainerProbe {
        canonical_root: Ok("/var/run/containers".to_owned()),
        root_present: true,
        state: Ok(recorded_web1()),
    };
    let handle = load_container(fs, "/var/run/containers", caller_id).unwrap();
    assert_eq!(handle.container_id, caller_id);
}

#[test]
fn canonicalization_failure_propagates_to_load() {
    let fs = ContainerProbe {
        canonical_root: Err("Permission denied".to_owned()),
        root_present: true,
        state: Ok(recorded_web1()),
    };
    assert_eq!(
        load_container(fs, "/var/run/containers", "web1"),
        Err(CommandError::PathResolution {
            root_dir: "/var/run/containers".to_owned(),
            container_id: "web1".to_owned(),
            cause: "Permission denied".to_owned(),
        })
    );
}
