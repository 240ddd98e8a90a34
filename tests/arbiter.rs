use no_fly_zone::arbiter::{handle_event, Action, Event, SnapshotEntry};
use no_fly_zone::interface::InterfaceKind;
use no_fly_zone::registry::Registry;

fn entry(id: &str, kind: InterfaceKind, active: bool) -> SnapshotEntry {
    SnapshotEntry {
        id: id.to_string(),
        kind,
        display_name: format!("{} adapter", id),
        active,
    }
}

fn power(id: &str, on: bool) -> Action {
    Action::PowerWifi(id.to_string(), on)
}

fn strs(v: &[&str]) -> Vec<String> {
    v.iter().map(|s| s.to_string()).collect()
}

fn scenario_a() -> (Registry, Vec<Action>) {
    let mut reg = Registry::new();
    let acts = handle_event(
        &mut reg,
        &Event::Snapshot(vec![
            entry("en0", InterfaceKind::Ethernet, false),
            entry("en1", InterfaceKind::Wifi, true),
        ]),
    );
    (reg, acts)
}

fn scenario_c() -> (Registry, Vec<Action>) {
    let (mut reg, _) = scenario_a();
    let acts = handle_event(&mut reg, &Event::LinkChanged("en0".to_string(), true));
    (reg, acts)
}

#[test]
fn snapshot_without_active_ethernet_keeps_wifi() {
    let (reg, acts) = scenario_a();
    assert!(acts.is_empty());
    assert_eq!(reg.ethernet_ids(), strs(&["en0"]));
    assert_eq!(reg.wifi_ids(), strs(&["en1"]));
    assert!(reg.active_ethernet_ids().is_empty());
    assert_eq!(reg.active_wifi_ids(), strs(&["en1"]));
}

#[test]
fn snapshot_with_active_ethernet_powers_off_wifi() {
    let mut reg = Registry::new();
    let acts = handle_event(
        &mut reg,
        &Event::Snapshot(vec![
            entry("en0", InterfaceKind::Ethernet, true),
            entry("en1", InterfaceKind::Wifi, true),
        ]),
    );
    assert_eq!(acts, vec![power("en1", false)]);
}

#[test]
fn ethernet_coming_up_powers_off_wifi() {
    let (reg, acts) = scenario_c();
    assert_eq!(acts, vec![power("en1", false)]);
    assert_eq!(reg.active_ethernet_ids(), strs(&["en0"]));
    assert!(reg.active_wifi_ids().is_empty());
}

#[test]
fn last_ethernet_removed_powers_on_wifi() {
    let (mut reg, _) = scenario_c();
    let acts = handle_event(&mut reg, &Event::LinkRemoved("en0".to_string()));
    assert!(reg.active_ethernet_ids().is_empty());
    assert_eq!(acts, vec![power("en1", true)]);
    assert!(reg.is_ethernet(&"en0".to_string()));
}

#[test]
fn unknown_link_is_taken_for_inactive_ethernet() {
    let mut reg = Registry::new();
    let acts = handle_event(&mut reg, &Event::LinkChanged("en2".to_string(), false));
    assert!(acts.is_empty());
    assert_eq!(reg.ethernet_ids(), strs(&["en2"]));
    assert!(reg.active_ethernet_ids().is_empty());
    assert!(reg.wifi_ids().is_empty());
}

#[test]
fn unknown_link_coming_up_powers_off_active_wifis() {
    let (mut reg, _) = scenario_a();
    let acts = handle_event(&mut reg, &Event::LinkChanged("en5".to_string(), true));
    assert_eq!(acts, vec![power("en1", false)]);
    assert_eq!(reg.active_ethernet_ids(), strs(&["en5"]));
}

#[test]
fn wifi_coming_up_beside_active_ethernet_is_powered_off() {
    let (mut reg, _) = scenario_c();
    let acts = handle_event(&mut reg, &Event::LinkChanged("en1".to_string(), true));
    assert_eq!(acts, vec![power("en1", false)]);
    assert!(reg.active_wifi_ids().is_empty());
}

#[test]
fn wifi_coming_up_without_ethernet_is_recorded() {
    let (mut reg, _) = scenario_a();
    let acts = handle_event(&mut reg, &Event::LinkChanged("en1".to_string(), false));
    assert!(acts.is_empty());
    assert!(reg.active_wifi_ids().is_empty());
    let acts = handle_event(&mut reg, &Event::LinkChanged("en1".to_string(), true));
    assert!(acts.is_empty());
    assert_eq!(reg.active_wifi_ids(), strs(&["en1"]));
}

#[test]
fn replayed_link_change_is_idempotent() {
    let (mut reg, _) = scenario_a();
    let first = handle_event(&mut reg, &Event::LinkChanged("en0".to_string(), true));
    let after_first = (reg.active_ethernet_ids(), reg.active_wifi_ids());
    let second = handle_event(&mut reg, &Event::LinkChanged("en0".to_string(), true));
    assert_eq!((reg.active_ethernet_ids(), reg.active_wifi_ids()), after_first);
    assert_eq!(first, vec![power("en1", false)]);
    assert!(second.iter().all(|a| first.contains(a)));
}

#[test]
fn snapshot_powers_off_each_active_wifi_once() {
    let mut reg = Registry::new();
    let acts = handle_event(
        &mut reg,
        &Event::Snapshot(vec![
            entry("en0", InterfaceKind::Ethernet, true),
            entry("en1", InterfaceKind::Wifi, true),
            entry("en2", InterfaceKind::Wifi, false),
            entry("en3", InterfaceKind::Wifi, true),
            entry("en1", InterfaceKind::Wifi, true),
            entry("bridge0", InterfaceKind::Other, true),
        ]),
    );
    assert_eq!(acts, vec![power("en1", false), power("en3", false)]);
    assert!(reg.wifi_ids().contains(&"en2".to_string()));
    assert!(!reg.is_ethernet(&"bridge0".to_string()));
    assert!(!reg.is_wifi(&"bridge0".to_string()));
}

#[test]
fn removal_while_ethernet_stays_active_emits_nothing() {
    let mut reg = Registry::new();
    handle_event(
        &mut reg,
        &Event::Snapshot(vec![
            entry("en0", InterfaceKind::Ethernet, true),
            entry("en4", InterfaceKind::Ethernet, true),
            entry("en1", InterfaceKind::Wifi, false),
        ]),
    );
    let acts = handle_event(&mut reg, &Event::LinkRemoved("en0".to_string()));
    assert!(acts.is_empty());
    assert_eq!(reg.active_ethernet_ids(), strs(&["en4"]));
    let acts = handle_event(&mut reg, &Event::LinkRemoved("en4".to_string()));
    assert_eq!(acts, vec![power("en1", true)]);
}

#[test]
fn removed_interface_keeps_its_kind() {
    let (mut reg, _) = scenario_c();
    handle_event(&mut reg, &Event::LinkRemoved("en0".to_string()));
    let acts = handle_event(&mut reg, &Event::LinkChanged("en0".to_string(), true));
    assert!(reg.is_ethernet(&"en0".to_string()));
    assert_eq!(reg.active_ethernet_ids(), strs(&["en0"]));
    assert!(acts.is_empty());
}

#[test]
fn empty_snapshot_changes_nothing() {
    let mut reg = Registry::new();
    let acts = handle_event(&mut reg, &Event::Snapshot(Vec::new()));
    assert!(acts.is_empty());
    assert!(reg.ethernet_ids().is_empty());
    assert!(reg.wifi_ids().is_empty());
}
