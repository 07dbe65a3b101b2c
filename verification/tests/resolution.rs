use rkl::errors::CommandError;
use rkl::probe::ContainerProbe;
use rkl::{container_exists, join_container_root, resolve_root};

fn unreadable_state() -> Result<rkl::StateRecord, String> {
    Err("state not read".to_owned())
}

#[test]
fn join_appends_the_id_as_one_segment() {
    assert_eq!(join_container_root("/run/containers", "web1"), "/run/containers/web1");
}

#[test]
fn symlinked_root_resolves_before_id_appended() {
    // The runtime root `/var/run/containers` is a symlink to `/mnt/state`:
    // canonicalization reported the target, and the id lands under it.
    let canonical: Result<String, String> = Ok("/mnt/state".to_owned());
    let resolved = resolve_root(&canonical, "/var/run/containers", "web1");
    assert_eq!(resolved, Ok("/mnt/state/web1".to_owned()));
}

#[test]
fn resolution_is_deterministic() {
    let canonical: Result<String, String> = Ok("/mnt/state".to_owned());
    let first = resolve_root(&canonical, "/var/run/containers", "web1");
    let second = resolve_root(&canonical, "/var/run/containers", "web1");
    assert_eq!(first, second);
}

#[test]
fn missing_root_is_a_path_resolution_error() {
    let canonical: Result<String, String> = Err("No such file or directory".to_owned());
    let resolved = resolve_root(&canonical, "/var/run/containers", "web1");
    assert_eq!(
        resolved,
        Err(CommandError::PathResolution {
            root_dir: "/var/run/containers".to_owned(),
            container_id: "web1".to_owned(),
            cause: "No such file or directory".to_owned(),
        })
    );
}

#[test]
fn path_resolution_message_names_root_and_container() {
    let error = CommandError::PathResolution {
        root_dir: "/var/run/containers".to_owned(),
        container_id: "web1".to_owned(),
        cause: "No such file or directory".to_owned(),
    };
    assert_eq!(
        error.message(),
        "failed to canonicalize /var/run/containers for container web1: \
         No such file or directory"
    );
}

#[test]
fn existing_root_reports_present() {
    let fs = ContainerProbe {
        canonical_root: Ok("/mnt/state".to_owned()),
        root_present: true,
        state: unreadable_state(),
    };
    assert_eq!(container_exists(&fs, "/var/run/containers", "web1"), Ok(true));
}

#[test]
fn absent_root_reports_absent() {
    let fs = ContainerProbe {
        canonical_root: Ok("/mnt/state".to_owned()),
        root_present: false,
        state: unreadable_state(),
    };
    assert_eq!(container_exists(&fs, "/var/run/containers", "web1"), Ok(false));
}

#[test]
fn existence_check_propagates_resolution_failure() {
    let fs = ContainerProbe {
        canonical_root: Err("Permission denied".to_owned()),
        root_present: false,
        state: unreadable_state(),
    };
    assert_eq!(
        container_exists(&fs, "/var/run/containers", "web1"),
        Err(CommandError::PathResolution {
            root_dir: "/var/run/containers".to_owned(),
            container_id: "web1".to_owned(),
            cause: "Permission denied".to_owned(),
        })
    );
}
