use gaol::profile::{AddressPattern, Operation, OperationKind, PathPattern, PolicyError, Profile};

#[test]
fn new_keeps_operations_in_order() {
    let p = Profile::new(vec![
        Operation::SystemSocket,
        Operation::FileReadAll(PathPattern::Subpath("/usr".to_string())),
        Operation::NetworkOutbound(AddressPattern::LocalSocket("/run/x.sock".to_string())),
    ])
    .unwrap();
    let ops = p.allowed_operations();
    assert_eq!(ops.len(), 3);
    assert_eq!(ops[0].kind(), OperationKind::SystemSocket);
    assert_eq!(ops[1].kind(), OperationKind::FileReadAll);
    assert_eq!(ops[2].kind(), OperationKind::NetworkOutbound);
    match &ops[1] {
        Operation::FileReadAll(PathPattern::Subpath(path)) => assert_eq!(path, "/usr"),
        _ => panic!("operation changed"),
    }
}

#[test]
fn empty_profile_is_accepted() {
    let p = Profile::new(vec![]).unwrap();
    assert_eq!(p.allowed_operations().len(), 0);
    assert!(!p.allows_kind(OperationKind::FileReadAll));
}

#[test]
fn system_info_read_is_rejected() {
    let r = Profile::new(vec![Operation::SystemSocket, Operation::SystemInfoRead]);
    assert!(matches!(r, Err(PolicyError::UnsupportedOperation)));
}

#[test]
fn allows_kind_finds_any_match() {
    let p = Profile::new(vec![
        Operation::FileReadMetadata(PathPattern::Literal("/a".to_string())),
        Operation::NetworkOutbound(AddressPattern::Tcp(443)),
    ])
    .unwrap();
    assert!(p.allows_kind(OperationKind::FileReadMetadata));
    assert!(p.allows_kind(OperationKind::NetworkOutbound));
    assert!(!p.allows_kind(OperationKind::FileReadAll));
    assert!(!p.allows_kind(OperationKind::SystemSocket));
}

#[test]
fn supported_kinds() {
    assert!(OperationKind::FileReadAll.is_supported());
    assert!(OperationKind::FileReadMetadata.is_supported());
    assert!(OperationKind::NetworkOutbound.is_supported());
    assert!(OperationKind::SystemSocket.is_supported());
    assert!(!OperationKind::SystemInfoRead.is_supported());
    assert!(!OperationKind::PlatformSpecific.is_supported());
}
