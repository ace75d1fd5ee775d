use waybarx::monitors::MonitorRegistry;

fn displays(names: &[&str]) -> Vec<String> {
    names.iter().map(|s| s.to_string()).collect()
}

#[test]
fn initial_scan_spawns_one_panel_per_display() {
    let mut reg = MonitorRegistry::new();
    let spawned = reg.scan(&displays(&["HDMI-1", "DP-2"]));
    assert_eq!(spawned, displays(&["HDMI-1", "DP-2"]));
    assert!(reg.contains("HDMI-1"));
    assert!(reg.contains("DP-2"));
    assert_eq!(reg.len(), 2);
}

#[test]
fn rescan_with_unchanged_displays_spawns_nothing() {
    let mut reg = MonitorRegistry::new();
    reg.scan(&displays(&["HDMI-1", "DP-2"]));
    let spawned = reg.scan(&displays(&["HDMI-1", "DP-2"]));
    assert!(spawned.is_empty());
    assert_eq!(reg.len(), 2);
}

#[test]
fn hot_plug_spawns_exactly_the_new_display() {
    let mut reg = MonitorRegistry::new();
    reg.scan(&displays(&["HDMI-1"]));
    let spawned = reg.scan(&displays(&["HDMI-1", "DP-2"]));
    assert_eq!(spawned, displays(&["DP-2"]));
    assert!(reg.contains("HDMI-1"));
    assert!(reg.contains("DP-2"));
    assert_eq!(reg.len(), 2);
}

#[test]
fn duplicate_connectors_in_one_list_spawn_once() {
    let mut reg = MonitorRegistry::new();
    let spawned = reg.scan(&displays(&["eDP-1", "eDP-1"]));
    assert_eq!(spawned, displays(&["eDP-1"]));
    assert_eq!(reg.len(), 1);
}

#[test]
fn unplugged_displays_stay_registered() {
    // Removal has no transition: the registry only grows.
    let mut reg = MonitorRegistry::new();
    reg.scan(&displays(&["HDMI-1", "DP-2"]));
    let spawned = reg.scan(&displays(&["DP-2"]));
    assert!(spawned.is_empty());
    assert!(reg.contains("HDMI-1"));
    assert_eq!(reg.len(), 2);
}

#[test]
fn empty_registry_contains_nothing() {
    let reg = MonitorRegistry::new();
    assert!(!reg.contains("HDMI-1"));
    assert_eq!(reg.len(), 0);
}
