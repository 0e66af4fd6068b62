use modem::binder::{plan_connect, AddressFamily, BindError};
use modem::fingerprint::OsFingerprint;
use modem::registry::{interface_map, InterfaceMap, InterfaceRecord};
use modem::session::{Action, Command, Event, Phase, Reply, Session, SocketTarget, TargetAddress};

const ID_A: &str = "9b786947-0f70-5809-bc1e-2b55bf1ea733";

fn map_with_wwan0() -> InterfaceMap {
    let records = vec![InterfaceRecord { name: "wwan0".to_string(), ip: "100.64.0.2".to_string() }];
    interface_map(&records, &vec!["wwan".to_string()])
}

fn authenticated(map: &InterfaceMap, user: &str) -> Session {
    let mut s = Session::new(OsFingerprint::Windows);
    let a = s.handle(Event::Greeting(vec![0x00, 0x02]), map);
    assert!(matches!(a, Action::SelectMethod(0x02)));
    assert_eq!(a.wire_bytes(), vec![0x05, 0x02]);
    let a = s.handle(
        Event::Credentials { username: user.as_bytes().to_vec(), password: ID_A.as_bytes().to_vec() },
        map,
    );
    assert!(matches!(a, Action::AcceptCredentials));
    assert_eq!(a.wire_bytes(), vec![0x01, 0x00]);
    s
}

#[test]
fn happy_path() {
    let map = map_with_wwan0();
    let mut s = authenticated(&map, "modem");
    let target = SocketTarget::V4([93, 184, 216, 34], 80);
    let a = s.handle(Event::Request { command: Command::Connect, address: TargetAddress::Ip(target) }, &map);
    match a {
        Action::Connect { target: SocketTarget::V4(ip, port), device, fingerprint } => {
            assert_eq!(ip, [93, 184, 216, 34]);
            assert_eq!(port, 80);
            assert_eq!(device, "wwan0");
            assert_eq!(fingerprint, OsFingerprint::Windows);
        }
        other => panic!("unexpected {:?}", other),
    }
    assert_eq!(s.phase(), Phase::Connecting);
    let a = s.handle(Event::Connected(true), &map);
    assert_eq!(a.wire_bytes(), vec![0x05, 0x00, 0x00, 0x01, 93, 184, 216, 34, 0x00, 80]);
    match a {
        Action::ReplyAndRelay(SocketTarget::V4(ip, port)) => {
            assert_eq!(ip, [93, 184, 216, 34]);
            assert_eq!(port, 80);
        }
        other => panic!("unexpected {:?}", other),
    }
    assert_eq!(s.phase(), Phase::Relaying);
    assert_eq!(Reply::Succeeded.code(), 0x00);
}

#[test]
fn greeting_without_password_method_is_rejected() {
    let map = map_with_wwan0();
    let mut s = Session::new(OsFingerprint::Windows);
    let a = s.handle(Event::Greeting(vec![0x00, 0x01]), &map);
    assert!(matches!(a, Action::RejectMethods));
    assert_eq!(a.wire_bytes(), vec![0x05, 0xFF]);
    assert_eq!(s.phase(), Phase::Closed);
    let mut s = Session::new(OsFingerprint::Windows);
    assert!(matches!(s.handle(Event::Greeting(vec![]), &map), Action::RejectMethods));
}

#[test]
fn fingerprint_via_username() {
    let map = map_with_wwan0();
    let mut s = authenticated(&map, "modem-fingerprint-Linux");
    let target = SocketTarget::V4([10, 0, 0, 1], 443);
    match s.handle(Event::Request { command: Command::Connect, address: TargetAddress::Ip(target) }, &map) {
        Action::Connect { target, device, fingerprint } => {
            assert_eq!(fingerprint, OsFingerprint::Linux);
            let plan = plan_connect(target, &device, Some(fingerprint)).unwrap();
            assert_eq!(plan.ttl, Some(64));
            assert_eq!(plan.buffer_size, Some(29200));
            assert_eq!(plan.bind_device, b"wwan0\0".to_vec());
            assert_eq!(plan.family, AddressFamily::V4);
        }
        other => panic!("unexpected {:?}", other),
    }
}

#[test]
fn unknown_interface_is_refused() {
    let map = map_with_wwan0();
    let mut s = Session::new(OsFingerprint::Windows);
    s.handle(Event::Greeting(vec![0x02]), &map);
    let a = s.handle(
        Event::Credentials { username: b"modem".to_vec(), password: b"id_Z".to_vec() },
        &map,
    );
    assert!(matches!(a, Action::RejectCredentials));
    assert_eq!(a.wire_bytes(), vec![0x01, 0x01]);
    assert_eq!(s.phase(), Phase::Closed);
}

#[test]
fn wrong_user_and_bad_tag_and_bad_utf8_are_refused() {
    let map = map_with_wwan0();
    for user in [b"admin".to_vec(), b"modem-fingerprint-amiga".to_vec(), vec![0xff, 0xfe]] {
        let mut s = Session::new(OsFingerprint::Windows);
        s.handle(Event::Greeting(vec![0x02]), &map);
        let a = s.handle(Event::Credentials { username: user, password: ID_A.as_bytes().to_vec() }, &map);
        assert!(matches!(a, Action::RejectCredentials));
    }
}

#[test]
fn associate_is_not_allowed() {
    let map = map_with_wwan0();
    let mut s = authenticated(&map, "modem");
    let target = SocketTarget::V4([1, 2, 3, 4], 53);
    let a = s.handle(Event::Request { command: Command::Associate, address: TargetAddress::Ip(target) }, &map);
    assert_eq!(a.wire_bytes(), vec![0x05, 0x02, 0x00, 0x01, 1, 2, 3, 4, 0, 53]);
    match a {
        Action::ReplyAndClose(reply, _) => assert_eq!(reply.code(), 0x02),
        other => panic!("unexpected {:?}", other),
    }
    assert_eq!(s.phase(), Phase::Closed);
}

#[test]
fn bind_is_not_supported() {
    let map = map_with_wwan0();
    let mut s = authenticated(&map, "modem");
    let target = SocketTarget::V4([1, 2, 3, 4], 53);
    match s.handle(Event::Request { command: Command::Bind, address: TargetAddress::Ip(target) }, &map) {
        Action::ReplyAndClose(reply, _) => assert_eq!(reply.code(), 0x07),
        other => panic!("unexpected {:?}", other),
    }
}

#[test]
fn undefined_command_is_not_supported() {
    let map = map_with_wwan0();
    let mut s = authenticated(&map, "modem");
    let target = SocketTarget::V6([0; 16], 0x1234);
    let a = s.handle(Event::Request { command: Command::Other(0x09), address: TargetAddress::Ip(target) }, &map);
    let mut expected = vec![0x05, 0x07, 0x00, 0x04];
    expected.extend_from_slice(&[0; 16]);
    expected.extend_from_slice(&[0x12, 0x34]);
    assert_eq!(a.wire_bytes(), expected);
}

#[test]
fn overlong_host_is_answered_with_unspecified_address() {
    let map = map_with_wwan0();
    let mut s = authenticated(&map, "modem");
    let address = TargetAddress::Domain { host: vec![b'a'; 300], port: 80 };
    let a = s.handle(Event::Request { command: Command::Connect, address }, &map);
    assert_eq!(a.wire_bytes(), vec![0x05, 0x01, 0x00, 0x01, 0, 0, 0, 0, 0, 0]);
}

#[test]
fn domain_target_is_a_general_failure() {
    let map = map_with_wwan0();
    let mut s = authenticated(&map, "modem");
    let address = TargetAddress::Domain { host: b"example.com".to_vec(), port: 80 };
    let a = s.handle(Event::Request { command: Command::Connect, address }, &map);
    let bytes = a.wire_bytes();
    assert_eq!(bytes[1], 0x01);
    assert_eq!(bytes[3..5], [0x03, 11]);
    assert_eq!(bytes.len(), 3 + 2 + 11 + 2);
    match a {
        Action::ReplyAndClose(reply, TargetAddress::Domain { host, port }) => {
            assert_eq!(reply.code(), 0x01);
            assert_eq!(host, b"example.com".to_vec());
            assert_eq!(port, 80);
        }
        other => panic!("unexpected {:?}", other),
    }
}

#[test]
fn failed_connect_is_a_general_failure() {
    let map = map_with_wwan0();
    let mut s = authenticated(&map, "modem");
    let target = SocketTarget::V6([0; 16], 8080);
    s.handle(Event::Request { command: Command::Connect, address: TargetAddress::Ip(target) }, &map);
    match s.handle(Event::Connected(false), &map) {
        Action::ReplyAndClose(Reply::GeneralFailure, TargetAddress::Ip(SocketTarget::V6(_, port))) => {
            assert_eq!(port, 8080)
        }
        other => panic!("unexpected {:?}", other),
    }
    assert_eq!(s.phase(), Phase::Closed);
}

#[test]
fn out_of_order_event_closes() {
    let map = map_with_wwan0();
    let mut s = Session::new(OsFingerprint::Windows);
    assert!(matches!(s.handle(Event::Connected(true), &map), Action::Close));
    assert_eq!(s.phase(), Phase::Closed);
    assert!(matches!(s.handle(Event::Greeting(vec![0x02]), &map), Action::Close));
}

#[test]
fn device_name_with_nul_is_refused() {
    let target = SocketTarget::V6([0; 16], 1);
    assert_eq!(plan_connect(target, "wl\0an", None).unwrap_err(), BindError::NulInDeviceName);
    let plan = plan_connect(target, "ppp0", None).unwrap();
    assert_eq!(plan.family, AddressFamily::V6);
    assert_eq!(plan.ttl, None);
    assert!(plan.nodelay && plan.keepalive);
}
