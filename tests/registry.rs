use no_fly_zone::interface::InterfaceKind;
use no_fly_zone::registry::Registry;

fn s(x: &str) -> String {
    x.to_string()
}

#[test]
fn record_is_idempotent() {
    let mut reg = Registry::new();
    reg.classify_and_record(&s("en0"), InterfaceKind::Ethernet, true);
    reg.classify_and_record(&s("en0"), InterfaceKind::Ethernet, true);
    assert_eq!(reg.ethernet_ids(), vec![s("en0")]);
    assert_eq!(reg.active_ethernet_ids(), vec![s("en0")]);
    assert!(reg.has_any_active_ethernet());
}

#[test]
fn record_keeps_first_kind() {
    let mut reg = Registry::new();
    reg.classify_and_record(&s("en0"), InterfaceKind::Ethernet, false);
    reg.classify_and_record(&s("en0"), InterfaceKind::Wifi, true);
    assert_eq!(reg.ethernet_ids(), vec![s("en0")]);
    assert!(reg.wifi_ids().is_empty());
    assert!(!reg.has_any_active_wifi());
}

#[test]
fn other_kind_is_not_recorded() {
    let mut reg = Registry::new();
    reg.classify_and_record(&s("lo0"), InterfaceKind::Other, true);
    assert!(reg.ethernet_ids().is_empty());
    assert!(reg.wifi_ids().is_empty());
}

#[test]
fn mark_active_and_inactive() {
    let mut reg = Registry::new();
    reg.classify_and_record(&s("en1"), InterfaceKind::Wifi, false);
    reg.mark_active(&s("en1"));
    assert_eq!(reg.active_wifi_ids(), vec![s("en1")]);
    reg.mark_inactive(&s("en1"));
    assert!(reg.active_wifi_ids().is_empty());
    reg.mark_active(&s("en9"));
    assert!(reg.active_ethernet_ids().is_empty());
    assert!(reg.active_wifi_ids().is_empty());
}

#[test]
fn forget_removes_everywhere() {
    let mut reg = Registry::new();
    reg.classify_and_record(&s("en0"), InterfaceKind::Ethernet, true);
    reg.classify_and_record(&s("en1"), InterfaceKind::Wifi, true);
    reg.forget(&s("en0"));
    assert!(reg.ethernet_ids().is_empty());
    assert!(!reg.is_active_ethernet(&s("en0")));
    assert_eq!(reg.wifi_ids(), vec![s("en1")]);
}

#[test]
fn drain_marks_all_wifis_inactive() {
    let mut reg = Registry::new();
    reg.classify_and_record(&s("en1"), InterfaceKind::Wifi, true);
    reg.classify_and_record(&s("en2"), InterfaceKind::Wifi, true);
    reg.drain_wifis();
    assert!(!reg.has_any_active_wifi());
    assert_eq!(reg.wifi_ids(), vec![s("en1"), s("en2")]);
}
