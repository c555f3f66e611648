use cyvra_core::usb_topology::{parse_probe, SourceOutcome, UsbProbe, UsbSource};

fn hex(value: &str) -> String {
    value.as_bytes().iter().map(|byte| format!("{byte:02x}")).collect()
}

struct Fixture(String);

impl Fixture {
    fn new() -> Self {
        Self(String::new())
    }

    fn line(mut self, section: &str, index: usize, name: &str, value: &str) -> Self {
        self.0.push_str(&format!("{section}\t{index}\t{name}\t{}\n", hex(value)));
        self
    }

    fn probe(&self) -> UsbProbe {
        parse_probe(&self.0)
    }
}

#[test]
fn controllers_and_a_superspeed_device_are_printed() {
    let probe = Fixture::new()
        .line("controller", 0, "source_status", "reported")
        .line("controller", 0, "present", "True")
        .line("controller", 0, "name", "Intel USB 3.0 eXtensible Host Controller")
        .line("hub", 0, "source_status", "reported")
        .line("hub", 0, "present", "True")
        .line("hub", 0, "name", "USB Root Hub (USB 3.0)")
        .line("hub", 0, "root_hub", "True")
        .line("hub", 0, "speed", "USB 3.0")
        .line("device", 0, "source_status", "reported")
        .line("device", 0, "present", "True")
        .line("device", 0, "name", "USB Mass Storage Device")
        .line("device", 0, "speed", "USB 3.0")
        .line("device", 0, "port_index", "3")
        .probe();

    assert!(probe.topology_enumerated());
    assert_eq!(probe.controllers.len(), 1);
    assert!(probe.hubs[0].root_hub);
    assert_eq!(probe.devices[0].port_index, Some(3));
    assert_eq!(probe.speed_summary().as_deref(), Some("USB 3.0"));
}

#[test]
fn an_empty_but_answered_controller_class_still_counts_as_enumerated() {
    let probe = Fixture::new()
        .line("controller", 0, "source_status", "reported")
        .line("controller", 0, "record_count", "0")
        .probe();

    assert!(probe.topology_enumerated());
    assert!(probe.controllers.is_empty());
    assert!(probe.devices.is_empty());
}

#[test]
fn a_refused_query_is_not_treated_as_enumerated() {
    let probe = Fixture::new().line("controller", 0, "source_status", "permission_denied").probe();

    assert!(!probe.topology_enumerated());
    assert_eq!(probe.outcome_for(UsbSource::Controller), SourceOutcome::PermissionDenied);
}

#[test]
fn usb_topology_unavailable_off_windows_claims_nothing() {
    let probe = UsbProbe::unavailable("USB topology collection is only available on Windows.");

    assert!(!probe.topology_enumerated());
    assert!(probe.controllers.is_empty());
    assert_eq!(probe.probe_error, Some("USB topology collection is only available on Windows."));
}

#[test]
fn speed_summary_lists_each_speed_once_in_order() {
    let probe = Fixture::new()
        .line("device", 0, "source_status", "reported")
        .line("device", 0, "present", "True")
        .line("device", 0, "name", "Stick")
        .line("device", 0, "speed", "USB 3.0")
        .line("device", 1, "present", "True")
        .line("device", 1, "name", "Mouse")
        .line("device", 1, "speed", "USB 2.0")
        .line("device", 2, "present", "True")
        .line("device", 2, "name", "Drive")
        .line("device", 2, "speed", "USB 3.0")
        .probe();
    assert_eq!(probe.speed_summary().as_deref(), Some("USB 2.0, USB 3.0"));
}
