use launch_core::errors::RegistryError;
use launch_core::registry::ClusterPath;
use launch_core::registry::ProcessRegistry;

fn path(s: &str) -> ClusterPath {
    ClusterPath::new(s.to_string())
}

#[test]
fn terminated_identifier_never_listed() {
    let mut reg = ProcessRegistry::new();
    reg.register_with_id(1, path("clusters/alpha"), Some(100), 1_000).unwrap();
    reg.register_with_id(2, path("clusters/beta"), Some(200), 2_000).unwrap();

    let removed = reg.terminate(1).unwrap();
    assert_eq!(removed.uuid, 1);
    assert_eq!(removed.pid, Some(100));

    let listed = reg.list();
    assert_eq!(listed.len(), 1);
    assert!(listed.iter().all(|inst| inst.uuid != 1));
    assert_eq!(listed[0].uuid, 2);
}

#[test]
fn terminate_absent_is_not_found_and_side_effect_free() {
    let mut reg = ProcessRegistry::new();
    reg.register_with_id(7, path("clusters/alpha"), None, 0).unwrap();

    let r = reg.terminate(99);
    assert_eq!(r.err().unwrap(), RegistryError::NotFound);

    let listed = reg.list();
    assert_eq!(listed.len(), 1);
    assert_eq!(listed[0].uuid, 7);
}

#[test]
fn second_terminate_is_not_found() {
    let mut reg = ProcessRegistry::new();
    reg.register_with_id(5, path("clusters/alpha"), Some(50), 0).unwrap();

    assert!(reg.terminate(5).is_ok());
    let again = reg.terminate(5);
    assert_eq!(again.err().unwrap(), RegistryError::NotFound);
    assert_eq!(reg.list().len(), 0);
}

#[test]
fn two_runs_give_distinct_independently_terminable_instances() {
    let mut reg = ProcessRegistry::new();
    let a = reg.register(path("clusters/alpha"), Some(10), 0).unwrap();
    let b = reg.register(path("clusters/beta"), Some(20), 0).unwrap();

    assert_ne!(a.uuid, b.uuid);
    let listed = reg.list();
    assert_eq!(listed.len(), 2);
    assert!(listed.iter().any(|inst| inst.uuid == a.uuid));
    assert!(listed.iter().any(|inst| inst.uuid == b.uuid));

    reg.terminate(a.uuid).unwrap();
    let listed = reg.list();
    assert_eq!(listed.len(), 1);
    assert_eq!(listed[0].uuid, b.uuid);
    reg.terminate(b.uuid).unwrap();
    assert_eq!(reg.list().len(), 0);
}

#[test]
fn duplicate_identifier_is_rejected_without_overwrite() {
    let mut reg = ProcessRegistry::new();
    reg.register_with_id(3, path("clusters/alpha"), Some(1), 11).unwrap();
    let dup = reg.register_with_id(3, path("clusters/beta"), Some(2), 22);
    assert_eq!(dup.err().unwrap(), RegistryError::DuplicateInstance);

    let listed = reg.list();
    assert_eq!(listed.len(), 1);
    assert_eq!(listed[0].cluster_path.path, "clusters/alpha");
    assert_eq!(listed[0].pid, Some(1));
}

#[test]
fn list_by_path_filters_the_secondary_index() {
    let mut reg = ProcessRegistry::new();
    reg.register_with_id(1, path("clusters/alpha"), None, 0).unwrap();
    reg.register_with_id(2, path("clusters/beta"), None, 0).unwrap();
    reg.register_with_id(3, path("clusters/alpha"), None, 0).unwrap();

    assert_eq!(reg.list_by_path(&path("clusters/alpha")), vec![1, 3]);
    assert_eq!(reg.list_by_path(&path("clusters/beta")), vec![2]);
    assert_eq!(reg.list_by_path(&path("clusters/gamma")), Vec::<u128>::new());
}

#[test]
fn running_cluster_paths_are_deduplicated() {
    let mut reg = ProcessRegistry::new();
    assert_eq!(reg.running_cluster_paths().len(), 0);

    reg.register_with_id(1, path("clusters/alpha"), None, 0).unwrap();
    reg.register_with_id(2, path("clusters/alpha"), None, 0).unwrap();
    reg.register_with_id(3, path("clusters/beta"), None, 0).unwrap();

    let paths = reg.running_cluster_paths();
    let names: Vec<&str> = paths.iter().map(|p| p.path.as_str()).collect();
    assert_eq!(names, vec!["clusters/alpha", "clusters/beta"]);
}

#[test]
fn pid_sentinel_is_zero_when_unreported() {
    let mut reg = ProcessRegistry::new();
    reg.register_with_id(1, path("clusters/alpha"), None, 0).unwrap();
    reg.register_with_id(2, path("clusters/beta"), Some(4242), 0).unwrap();

    let listed = reg.list();
    assert_eq!(listed[0].pid_or_zero(), 0);
    assert_eq!(listed[1].pid_or_zero(), 4242);
}
