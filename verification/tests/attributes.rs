use local_ipc::path::to_platform_string;
use local_ipc::security::{chmod_outcome, EVERYONE, OWNER_ONLY};
use local_ipc::{Error, SecurityAttributes};

#[test]
fn empty_allows_owner_only() {
    assert_eq!(SecurityAttributes::empty().mode(), Some(0o600));
    assert_eq!(OWNER_ONLY, 0o600);
}

#[test]
fn allow_everyone_connect_opens_read_write_to_all() {
    let attrs = SecurityAttributes::empty().allow_everyone_connect().unwrap();
    assert_eq!(attrs.mode(), Some(0o666));
    assert_eq!(EVERYONE, 0o666);
}

#[test]
fn set_mode_takes_bits_verbatim() {
    for mode in [0o640, 0, 0o600, 0o666, 0o777, 0o7777, u16::MAX] {
        let attrs = SecurityAttributes::empty().set_mode(mode).unwrap();
        assert_eq!(attrs.mode(), Some(mode));
    }
}

#[test]
fn later_request_replaces_earlier_one() {
    let attrs = SecurityAttributes::empty()
        .set_mode(0o640)
        .unwrap()
        .allow_everyone_connect()
        .unwrap();
    assert_eq!(attrs.mode(), Some(0o666));

    let attrs = SecurityAttributes::empty()
        .allow_everyone_connect()
        .unwrap()
        .set_mode(0o400)
        .unwrap();
    assert_eq!(attrs.mode(), Some(0o400));

    let attrs = SecurityAttributes::allow_everyone_create()
        .unwrap()
        .set_mode(0o060)
        .unwrap();
    assert_eq!(attrs.mode(), Some(0o060));
}

#[test]
fn allow_everyone_create_requests_no_override() {
    let create = SecurityAttributes::allow_everyone_create().unwrap();
    assert_eq!(create.mode(), None);
    let connect = SecurityAttributes::empty().allow_everyone_connect().unwrap();
    assert_ne!(create.mode(), connect.mode());
}

#[test]
fn apply_permissions_plans_one_change_with_requested_bits() {
    let change = SecurityAttributes::empty()
        .apply_permissions("/tmp/ipc.sock")
        .unwrap()
        .unwrap();
    assert_eq!(change.path, b"/tmp/ipc.sock\0".to_vec());
    assert_eq!(change.mode, 0o600);

    let change = SecurityAttributes::empty()
        .allow_everyone_connect()
        .unwrap()
        .apply_permissions("/tmp/ipc.sock")
        .unwrap()
        .unwrap();
    assert_eq!(change.path, b"/tmp/ipc.sock\0".to_vec());
    assert_eq!(change.mode, 0o666);

    let change = SecurityAttributes::empty()
        .set_mode(0o640)
        .unwrap()
        .apply_permissions("relative.sock")
        .unwrap()
        .unwrap();
    assert_eq!(change.path, b"relative.sock\0".to_vec());
    assert_eq!(change.mode, 0o640);
}

#[test]
fn apply_permissions_without_override_plans_nothing() {
    let attrs = SecurityAttributes::allow_everyone_create().unwrap();
    assert!(matches!(attrs.apply_permissions("/tmp/ipc.sock"), Ok(None)));
}

#[test]
fn apply_permissions_rejects_embedded_nul() {
    let attrs = SecurityAttributes::empty();
    assert!(matches!(
        attrs.apply_permissions("/tmp/ipc\0.sock"),
        Err(Error::InvalidInput)
    ));
}

#[test]
fn apply_permissions_rejects_nul_even_without_override() {
    let attrs = SecurityAttributes::allow_everyone_create().unwrap();
    assert!(matches!(
        attrs.apply_permissions("/tmp/ipc\0.sock"),
        Err(Error::InvalidInput)
    ));
}

#[test]
fn apply_permissions_rejects_nul_at_either_end() {
    let attrs = SecurityAttributes::empty().set_mode(0o640).unwrap();
    assert!(matches!(
        attrs.apply_permissions("\0abstract"),
        Err(Error::InvalidInput)
    ));
    assert!(matches!(
        attrs.apply_permissions("/tmp/ipc.sock\0"),
        Err(Error::InvalidInput)
    ));
    assert!(matches!(
        attrs.apply_permissions("\0"),
        Err(Error::InvalidInput)
    ));
}

#[test]
fn platform_string_is_utf8_then_nul() {
    assert_eq!(to_platform_string("a").unwrap(), vec![b'a', 0]);
    assert_eq!(
        to_platform_string("/tmp/\u{fc}.sock").unwrap(),
        vec![b'/', b't', b'm', b'p', b'/', 0xc3, 0xbc, b'.', b's', b'o', b'c', b'k', 0]
    );
    assert_eq!(
        to_platform_string("\u{20ac}\u{1f600}").unwrap(),
        vec![0xe2, 0x82, 0xac, 0xf0, 0x9f, 0x98, 0x80, 0]
    );
}

#[test]
fn platform_string_of_empty_path_is_lone_nul() {
    assert_eq!(to_platform_string("").unwrap(), vec![0]);
}

#[test]
fn platform_string_rejects_nul() {
    assert!(matches!(to_platform_string("a\0b"), Err(Error::InvalidInput)));
    assert!(matches!(
        to_platform_string("\u{fc}\0"),
        Err(Error::InvalidInput)
    ));
}

#[test]
fn chmod_outcome_fails_only_on_minus_one() {
    assert!(matches!(chmod_outcome(0, 0), Ok(())));
    assert!(matches!(chmod_outcome(0, 13), Ok(())));
    assert!(matches!(chmod_outcome(1, 13), Ok(())));
    assert!(matches!(chmod_outcome(-2, 13), Ok(())));
    assert!(matches!(chmod_outcome(i32::MIN, 13), Ok(())));
    assert!(matches!(chmod_outcome(-1, 13), Err(_)));
}

#[test]
fn chmod_outcome_carries_the_error_code() {
    assert!(matches!(
        chmod_outcome(-1, 2),
        Err(Error::Permissions { errno: 2 })
    ));
    assert!(matches!(
        chmod_outcome(-1, 13),
        Err(Error::Permissions { errno: 13 })
    ));
    assert!(matches!(
        chmod_outcome(-1, 0),
        Err(Error::Permissions { errno: 0 })
    ));
}
