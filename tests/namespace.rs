use gaol::namespace::{activate, ancestor_ends, namespace_flags_for, JailError, Step, CLONE_NEWNET, JAIL_ID};
use gaol::profile::{AddressPattern, Operation, PathPattern, Profile};

fn path_of(step: &Step) -> Option<(&'static str, String)> {
    match step {
        Step::BindMount { path } => Some(("bind", path.clone())),
        Step::DisallowReading { path } => Some(("chmod", path.clone())),
        _ => None,
    }
}

#[test]
fn namespace_flags_without_network() {
    let p = Profile::new(vec![]).unwrap();
    assert_eq!(namespace_flags_for(&p), 0x5c02_0200);
    assert_ne!(namespace_flags_for(&p) & CLONE_NEWNET, 0);
}

#[test]
fn namespace_flags_with_network() {
    let p = Profile::new(vec![Operation::NetworkOutbound(AddressPattern::Tcp(80))]).unwrap();
    assert_eq!(namespace_flags_for(&p), 0x1c02_0200);
}

#[test]
fn plan_for_metadata_profile() {
    let p = Profile::new(vec![
        Operation::FileReadMetadata(PathPattern::Literal("/tmp/gaoltest.abcdef".to_string())),
        Operation::SystemSocket,
        Operation::FileReadAll(PathPattern::Subpath("/usr/lib".to_string())),
    ])
    .unwrap();
    let steps = activate(&p, 1000, 100);
    assert_eq!(steps.len(), 7 + 3 + 2);
    assert!(matches!(steps[0], Step::Unshare { flags: 0x5c02_0200 }));
    assert!(matches!(steps[1], Step::DenySetgroups));
    assert!(matches!(steps[2], Step::MapGroup { parent_gid: 100 }));
    assert!(matches!(steps[3], Step::MapUser { parent_uid: 1000 }));
    assert!(matches!(steps[4], Step::SetGroupIds { gid } if gid == JAIL_ID));
    assert!(matches!(steps[5], Step::SetUserIds { uid } if uid == JAIL_ID));
    assert!(matches!(steps[6], Step::MountJailRoot));
    assert_eq!(path_of(&steps[7]), Some(("bind", "/tmp/gaoltest.abcdef".to_string())));
    assert_eq!(path_of(&steps[8]), Some(("chmod", "/tmp/gaoltest.abcdef".to_string())));
    assert_eq!(path_of(&steps[9]), Some(("bind", "/usr/lib".to_string())));
    assert!(matches!(steps[10], Step::EnterJail));
    assert!(matches!(steps[11], Step::DropCapabilities));
}

#[test]
fn failures_are_classified_by_step() {
    assert_eq!(Step::Unshare { flags: 0 }.failure(-1), JailError::Unshare(-1));
    assert_eq!(Step::DenySetgroups.failure(13), JailError::MapWrite(13));
    assert_eq!(Step::MapUser { parent_uid: 5 }.failure(1), JailError::MapWrite(1));
    assert_eq!(Step::SetUserIds { uid: 1 }.failure(1), JailError::SetId(1));
    assert_eq!(Step::MountJailRoot.failure(2), JailError::TmpfsMount(2));
    assert_eq!(Step::BindMount { path: "/a".to_string() }.failure(2), JailError::BindMount(2));
    assert_eq!(Step::DisallowReading { path: "/a".to_string() }.failure(3), JailError::Chmod(3));
    assert_eq!(Step::EnterJail.failure(4), JailError::Chroot(4));
    assert_eq!(Step::DropCapabilities.failure(5), JailError::CapDrop(5));
}

#[test]
fn prohibition_metadata_plan_binds_only_the_granted_subpath() {
    let p = Profile::new(vec![Operation::FileReadMetadata(PathPattern::Subpath("/bogus".to_string()))])
        .unwrap();
    let steps = activate(&p, 0, 0);
    let mounted: Vec<(&'static str, String)> = steps.iter().filter_map(path_of).collect();
    assert_eq!(
        mounted,
        vec![("bind", "/bogus".to_string()), ("chmod", "/bogus".to_string())]
    );
}

#[test]
fn capabilities_are_dropped_last() {
    let p = Profile::new(vec![Operation::SystemSocket]).unwrap();
    let steps = activate(&p, 42, 43);
    assert!(matches!(steps.last(), Some(Step::DropCapabilities)));
    assert!(matches!(steps[steps.len() - 2], Step::EnterJail));
}

#[test]
fn ancestor_ends_of_nested_path() {
    assert_eq!(ancestor_ends(b"/tmp/gaoltest.abcdef"), vec![4]);
    assert_eq!(ancestor_ends(b"/usr/lib/x/"), vec![4, 8, 10]);
    assert_eq!(ancestor_ends(b"/"), Vec::<usize>::new());
    assert_eq!(ancestor_ends(b""), Vec::<usize>::new());
}

#[test]
fn bind_mount_flags_value() {
    assert_eq!(gaol::namespace::BIND_MOUNT_FLAGS, 0xc0ed_5000);
    assert_eq!(gaol::namespace::NAMESPACE_FLAGS, 0x1c02_0200);
}
