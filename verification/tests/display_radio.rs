use cyvra_core::display_radio::{
    parse_probe, DisplayRadioProbe, DisplayRadioSource, SourceOutcome, DISPLAY_RADIO_SCRIPT,
};

fn hex(value: &str) -> String {
    value.as_bytes().iter().map(|byte| format!("{byte:02x}")).collect()
}

struct Fixture(String);

impl Fixture {
    fn new() -> Self {
        Self(String::new())
    }

    fn line(mut self, section: &str, index: usize, name: &str, value: &str) -> Self {
        self.0.push_str(&format!("{section}\t{index}\t{name}\t{}\n", hex(value)));
        self
    }

    fn probe(&self) -> DisplayRadioProbe {
        parse_probe(&self.0)
    }
}

fn sample_edid_hex() -> String {
    let mut bytes = [0_u8; 128];
    bytes[0] = 0x00;
    bytes[7] = 0x00;
    let packed: u16 = (12 << 10) | (5 << 5) | 14;
    bytes[8] = (packed >> 8) as u8;
    bytes[9] = packed as u8;
    bytes[16] = 12;
    bytes[17] = 34;
    bytes[54] = 0x02;
    bytes[55] = 0x3A;
    bytes[56] = 0x80;
    bytes[58] = 0x70;
    bytes[59] = 0x38;
    bytes[61] = 0x40;
    bytes.iter().map(|byte| format!("{byte:02x}")).collect()
}

#[test]
fn edid_preferred_timing_is_native_not_current_mode() {
    let probe = Fixture::new()
        .line("panel", 0, "source_status", "reported")
        .line("panel", 0, "present", "True")
        .line("panel", 0, "manufacturer", "LEN")
        .line("panel", 0, "name", "LENovo LCD")
        .line("edid", 0, "source_status", "reported")
        .line("edid", 0, "present", "True")
        .line("edid", 0, "block_hex", &sample_edid_hex())
        .line("video", 0, "source_status", "reported")
        .line("video", 0, "present", "True")
        .line("video", 0, "current_width", "1280")
        .line("video", 0, "current_height", "720")
        .line("video", 0, "refresh_hz", "60")
        .probe();

    assert_eq!(probe.panels[0].native_width, Some(1920));
    assert_eq!(probe.panels[0].native_height, Some(1080));
    assert_eq!(probe.panels[0].current_width, Some(1280));
    assert_eq!(probe.panels[0].manufacturer.as_deref(), Some("LEN"));
    assert!(probe.panel_identified());
}

#[test]
fn wifi_bluetooth_and_ethernet_score_inputs_are_separate() {
    let probe = Fixture::new()
        .line("wifi", 0, "source_status", "reported")
        .line("wifi", 0, "present", "True")
        .line("wifi", 0, "name", "Wi-Fi")
        .line("wifi", 0, "state", "Up")
        .line("wifi", 0, "signal_quality", "72")
        .line("bluetooth", 0, "source_status", "reported")
        .line("bluetooth", 0, "present", "True")
        .line("bluetooth", 0, "name", "Intel Wireless Bluetooth")
        .line("ethernet", 0, "source_status", "reported")
        .line("ethernet", 0, "present", "True")
        .line("ethernet", 0, "name", "Ethernet")
        .line("ethernet", 0, "state", "Disconnected")
        .probe();

    assert!(probe.wifi_reporting());
    assert_eq!(probe.wifi.as_ref().unwrap().signal_quality_percent, Some(72));
    assert!(probe.bluetooth_present());
    assert!(probe.ethernet_link_readable());
}

#[test]
fn a_mac_address_is_dropped_and_never_printed() {
    let probe = Fixture::new()
        .line("wifi", 0, "source_status", "reported")
        .line("wifi", 0, "present", "True")
        .line("wifi", 0, "name", "AA:BB:CC:DD:EE:FF")
        .line("wifi", 0, "state", "Up")
        .probe();

    assert!(probe.wifi_reporting());
    assert!(probe.wifi.as_ref().unwrap().name.is_none());
}

#[test]
fn display_radio_unavailable_off_windows_claims_nothing() {
    let probe =
        DisplayRadioProbe::unavailable("Display and radio collection is only available on Windows.");
    assert!(probe.panels.is_empty());
    assert!(!probe.wifi_reporting());
    assert!(!probe.bluetooth_present());
    assert!(!probe.ethernet_link_readable());
    assert_eq!(probe.outcome_for(DisplayRadioSource::Wifi), SourceOutcome::NotQueried);
}

#[test]
fn the_script_never_emits_mac_fields() {
    let script = DISPLAY_RADIO_SCRIPT;
    assert!(!script.contains("MacAddress"));
    assert!(script.contains("WmiMonitorID"));
    assert!(script.contains("Get-NetAdapter"));
    assert!(script.contains("netsh wlan show interfaces"));
}
