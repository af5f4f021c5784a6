use soundtouch_hub::discovery::Device;
use soundtouch_hub::discovery::Scan;
use soundtouch_hub::discovery::ScanEvent;
use soundtouch_hub::registry::Registry;

fn device(hostname: &str, ip: &str, port: u16, realname: &str) -> Device {
    Device {
        hostname: String::from(hostname),
        ip: String::from(ip),
        port,
        realname: String::from(realname),
    }
}

#[test]
fn scan_with_no_events_returns_nothing() {
    let registry = Registry::new();
    let scan = Scan::new();
    let devices = scan.finish();
    assert_eq!(devices.len(), 0);
    assert!(registry.is_empty());
}

#[test]
fn one_device_per_resolved_event_and_skipped_noise() {
    let mut registry = Registry::new();
    let mut scan = Scan::new();
    scan.on_event(&mut registry, ScanEvent::TimedOut);
    scan.on_event(
        &mut registry,
        ScanEvent::Resolved(device("alpha.local.", "192.168.1.10", 8090, "Alpha._soundtouch._tcp.local.")),
    );
    scan.on_event(&mut registry, ScanEvent::ReceiveFailed);
    scan.on_event(
        &mut registry,
        ScanEvent::Resolved(device("beta.local.", "", 8090, "Beta._soundtouch._tcp.local.")),
    );
    scan.on_event(&mut registry, ScanEvent::TimedOut);
    let devices = scan.finish();
    // exactly one record per resolved event, in order of observation
    assert_eq!(devices.len(), 2);
    assert_eq!(devices[0].hostname, "alpha.local.");
    assert_eq!(devices[0].ip, "192.168.1.10");
    assert_eq!(devices[0].port, 8090);
    assert_eq!(devices[0].realname, "Alpha._soundtouch._tcp.local.");
    assert_eq!(devices[1].hostname, "beta.local.");
    assert_eq!(devices[1].ip, "");
}

#[test]
fn empty_registry_gets_first_observed_device() {
    let mut registry = Registry::new();
    let mut scan = Scan::new();
    scan.on_event(&mut registry, ScanEvent::ReceiveFailed);
    scan.on_event(&mut registry, ScanEvent::Resolved(device("first.local.", "10.0.0.2", 8090, "a")));
    scan.on_event(&mut registry, ScanEvent::Resolved(device("second.local.", "10.0.0.3", 8090, "b")));
    let devices = scan.finish();
    assert_eq!(devices.len(), 2);
    assert_eq!(registry.get(), "first.local.");
}

#[test]
fn preselected_registry_is_never_overwritten_by_scan() {
    let mut registry = Registry::new();
    registry.set(String::from("chosen.local."));
    let mut scan = Scan::new();
    scan.on_event(&mut registry, ScanEvent::Resolved(device("found.local.", "10.0.0.4", 8090, "c")));
    let devices = scan.finish();
    assert_eq!(devices.len(), 1);
    assert_eq!(registry.get(), "chosen.local.");
}

#[test]
fn explicit_selection_between_events_is_honored() {
    // the registry is re-read on every event, so a selection written between
    // two events stands: the scan does not overwrite it
    let mut registry = Registry::new();
    let mut scan = Scan::new();
    scan.on_event(&mut registry, ScanEvent::Resolved(device("auto.local.", "", 8090, "d")));
    assert_eq!(registry.get(), "auto.local.");
    registry.set(String::from("manual.local."));
    scan.on_event(&mut registry, ScanEvent::Resolved(device("late.local.", "", 8090, "e")));
    assert_eq!(registry.get(), "manual.local.");
    assert_eq!(scan.finish().len(), 2);
}

#[test]
fn noise_only_scan_selects_nothing() {
    let mut registry = Registry::new();
    let mut scan = Scan::new();
    scan.on_event(&mut registry, ScanEvent::TimedOut);
    scan.on_event(&mut registry, ScanEvent::ReceiveFailed);
    let devices = scan.finish();
    assert_eq!(devices.len(), 0);
    assert!(registry.is_empty());
}
