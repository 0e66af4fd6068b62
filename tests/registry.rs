use modem::allocator::JemallocStats;
use modem::api::basic_auth_accepts;
use modem::registry::{interface_map, list_devices, InterfaceMap, InterfaceRecord};

fn record(name: &str, ip: &str) -> InterfaceRecord {
    InterfaceRecord { name: name.to_string(), ip: ip.to_string() }
}

#[test]
fn identifiers_are_url_uuid_v5() {
    let records = vec![record("wwan0", "a"), record("enx001122334455", "b"), record("eth0", "c")];
    let prefixes = vec![String::new()];
    let devices = list_devices(&records, &prefixes, None);
    assert_eq!(devices[0].id, "9b786947-0f70-5809-bc1e-2b55bf1ea733");
    assert_eq!(devices[1].id, "b00963ec-6b93-5f70-b8af-4dcec9f6a8b1");
    assert_eq!(devices[2].id, "4dcc0d81-3337-59f6-81e4-a603f89aa932");
}

#[test]
fn map_keeps_only_prefixed_names() {
    let records = vec![
        record("lo", "127.0.0.1"),
        record("enx001122334455", "192.168.8.100"),
        record("eth0", "10.0.0.2"),
        record("enx001122334455", "fe80::1"),
    ];
    let map = interface_map(&records, &vec!["enx".to_string()]);
    assert_eq!(map.len(), 1);
    assert_eq!(map.get("b00963ec-6b93-5f70-b8af-4dcec9f6a8b1"), Some("enx001122334455".to_string()));
    assert!(!map.contains_key("4dcc0d81-3337-59f6-81e4-a603f89aa932"));
}

#[test]
fn empty_enumeration_gives_empty_map() {
    let map = interface_map(&vec![], &vec!["enx".to_string()]);
    assert_eq!(map.len(), 0);
    let map = interface_map(&vec![record("enx1", "1.1.1.1")], &vec![]);
    assert_eq!(map.len(), 0);
}

#[test]
fn insert_replaces() {
    let mut map = InterfaceMap::new();
    map.insert("a".to_string(), "x".to_string());
    map.insert("b".to_string(), "y".to_string());
    map.insert("a".to_string(), "z".to_string());
    assert_eq!(map.len(), 2);
    assert_eq!(map.get("a"), Some("z".to_string()));
    assert_eq!(map.get("c"), None);
}

#[test]
fn devices_in_enumeration_order() {
    let records = vec![
        record("ppp0", "100.64.0.1"),
        record("eth0", "10.0.0.2"),
        record("wwan0", "100.64.0.2"),
    ];
    let prefixes = vec!["ppp".to_string(), "wwan".to_string()];
    let devices = list_devices(&records, &prefixes, None);
    assert_eq!(devices.len(), 2);
    assert_eq!(devices[0].name, "ppp0");
    assert_eq!(devices[0].id, "a46a0112-4763-52a4-ba32-93ce63e53cb5");
    assert_eq!(devices[0].ip, "100.64.0.1");
    assert_eq!(devices[1].name, "wwan0");
    assert_eq!(devices[1].id, "9b786947-0f70-5809-bc1e-2b55bf1ea733");
}

#[test]
fn default_route_interface_is_listed_by_name() {
    let records = vec![record("eth0", "10.0.0.2"), record("lo", "127.0.0.1"), record("enx1", "192.168.8.100")];
    let prefixes = vec!["enx".to_string()];
    let devices = list_devices(&records, &prefixes, Some("eth0"));
    assert_eq!(devices.len(), 2);
    assert_eq!(devices[0].name, "eth0");
    assert_eq!(devices[0].id, "4dcc0d81-3337-59f6-81e4-a603f89aa932");
    assert_eq!(devices[1].name, "enx1");
    assert_eq!(list_devices(&records, &prefixes, Some("eth")).len(), 1);
}

#[test]
fn derived_allocator_figures_saturate() {
    let s = JemallocStats::from_counters(100, 150, 20, 200, 400, 50);
    assert_eq!(s.dirty, 30);
    assert_eq!(s.fragmentation, 50);
    let s = JemallocStats::from_counters(300, 150, 20, 100, 400, 50);
    assert_eq!(s.dirty, 0);
    assert_eq!(s.fragmentation, 0);
    assert_eq!(s.mapped, 400);
}

#[test]
fn basic_auth() {
    assert!(basic_auth_accepts(Some("Basic dXNlcjpwYXNz"), "user", "pass"));
    assert!(basic_auth_accepts(Some("Basic Basic dXNlcjpwYXNz"), "user", "pass"));
    assert!(!basic_auth_accepts(Some("Basic dXNlcjpwYXNz"), "user", "other"));
    assert!(!basic_auth_accepts(Some("Bearer dXNlcjpwYXNz"), "user", "pass"));
    assert!(!basic_auth_accepts(Some("Basic %%%"), "user", "pass"));
    assert!(!basic_auth_accepts(None, "user", "pass"));
}
