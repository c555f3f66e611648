use cyvra_core::battery_probe::{parse_probe as parse_battery, BatteryProbe};
use cyvra_core::capture_probe::{parse_probe as parse_capture, CaptureProbe};
use cyvra_core::connectivity::{
    capture_group, capture_source_group, display_group, display_source_group, radio_source_group,
    usb_gap, usb_group, usb_source_group,
};
use cyvra_core::cpu_memory::{parse_probe as parse_identity, CpuMemoryProbe};
use cyvra_core::diagnostics::{
    battery_evidence, battery_points_for, boundary_note, coverage_domains, coverage_rows,
    method_rows, not_assessable, outcome_message, rubric_rows, stage_percent, telemetry_groups,
    temporary_files_note, STAGES,
    TelemetryGroup,
};
use cyvra_core::display_radio::{parse_probe as parse_radios, DisplayRadioProbe};
use cyvra_core::hardware_diagnostics_v1::{
    evaluate, DeviceForm, DiagnosticDomain, DomainApplicability, DomainEvidence,
};
use cyvra_core::power_identity::{
    battery_gap, battery_group, battery_source_group, identity_source_group, memory_group,
    processor_group,
};
use cyvra_core::progress::{
    battery_progress_detail, bench_progress_detail, capture_progress_detail,
    display_progress_detail, memory_progress_detail, ports_gap, processor_progress_detail,
    radio_progress_detail, usb_progress_detail,
};
use cyvra_core::storage_health::{parse_probe as parse_storage, StorageProbe};
use cyvra_core::advance_bench::DECLINED;
use cyvra_core::telemetry::{bench_group, storage_group, storage_source_group};
use cyvra_core::usb_topology::{parse_probe as parse_usb, UsbProbe};

fn hex(value: &str) -> String {
    value.as_bytes().iter().map(|byte| format!("{byte:02x}")).collect()
}

fn protocol(lines: &[(&str, usize, &str, &str)]) -> String {
    lines
        .iter()
        .map(|(section, index, name, value)| format!("{section}\t{index}\t{name}\t{}", hex(value)))
        .collect::<Vec<_>>()
        .join("\n")
}

fn battery_from(lines: &[(&str, usize, &str, &str)]) -> BatteryProbe {
    parse_battery(&protocol(lines))
}

fn healthy_battery() -> BatteryProbe {
    battery_from(&[
        ("battery", 0, "source_status", "reported"),
        ("battery", 0, "present", "True"),
        ("battery", 0, "name", "Primary"),
        ("battery", 0, "chemistry_code", "6"),
        ("battery", 0, "designed_capacity", "45000"),
        ("battery", 0, "full_charge_capacity", "39600"),
    ])
}

fn value(group: &TelemetryGroup, label: &str) -> String {
    group
        .rows
        .iter()
        .find(|row| row.label == label)
        .map(|row| row.value.clone())
        .unwrap_or_default()
}

fn labels(group: &TelemetryGroup) -> Vec<String> {
    group.rows.iter().map(|row| row.label.clone()).collect()
}

fn silent_usb() -> UsbProbe {
    UsbProbe::unavailable("USB topology collection is only available on Windows.")
}

fn silent_radios() -> DisplayRadioProbe {
    DisplayRadioProbe::unavailable("Display and radio collection is only available on Windows.")
}

fn enumerated_usb() -> UsbProbe {
    parse_usb(&protocol(&[
        ("controller", 0, "source_status", "reported"),
        ("controller", 0, "present", "True"),
        ("controller", 0, "name", "Intel USB 3.0 eXtensible Host Controller"),
        ("hub", 0, "source_status", "reported"),
        ("hub", 0, "present", "True"),
        ("hub", 0, "name", "USB Root Hub (USB 3.0)"),
        ("hub", 0, "root_hub", "True"),
        ("device", 0, "source_status", "reported"),
        ("device", 0, "present", "True"),
        ("device", 0, "name", "USB Composite Device"),
        ("device", 0, "speed", "USB 2.0"),
        ("device", 0, "port_index", "2"),
    ]))
}

fn uvc_capture() -> CaptureProbe {
    parse_capture(&protocol(&[
        ("camera_class", 0, "source_status", "reported"),
        ("usbvideo", 0, "source_status", "reported"),
        ("audio_endpoint", 0, "source_status", "reported"),
        ("camera", 0, "present", "True"),
        ("camera", 0, "name", "USB Video Device"),
        ("camera", 0, "enumerated_by", "USB video service"),
        ("microphone", 0, "present", "True"),
        ("microphone", 0, "name", "Microphone Array"),
        ("capture", 0, "frames_captured", "False"),
        ("capture", 0, "audio_recorded", "False"),
    ]))
}

fn named_processor_and_ram() -> CpuMemoryProbe {
    parse_identity(&protocol(&[
        ("cpu", 0, "source_status", "reported"),
        ("cpu", 0, "present", "True"),
        ("cpu", 0, "name", "Intel Core i7-6500U"),
        ("cpu", 0, "cores", "2"),
        ("cpu", 0, "l3_kb", "4096"),
        ("cpu", 0, "max_mhz", "2500"),
        ("memory", 0, "source_status", "reported"),
        ("memory", 0, "total_kb", "8388608"),
        ("module", 0, "source_status", "reported"),
        ("module", 0, "present", "True"),
        ("module", 0, "locator", "ChannelA-DIMM0"),
        ("module", 0, "capacity_bytes", "8589934592"),
        ("module", 0, "speed_mhz", "2133"),
    ]))
}

#[test]
fn a_healthy_battery_is_printed_with_its_wear_health_and_source() {
    let group = battery_group(&healthy_battery());
    assert_eq!(group.title, "Battery and power");
    assert_eq!(value(&group, "Battery present"), "Yes");
    assert_eq!(value(&group, "Packs reported"), "1");
    assert_eq!(value(&group, "Battery wear"), "12%");
    assert_eq!(value(&group, "Battery health"), "88% of design capacity");
    assert_eq!(value(&group, "Health classification"), "Good");
    assert_eq!(value(&group, "Capacity reported by"), "Windows battery class");
    assert_eq!(value(&group, "Design capacity"), "45000 mWh");
    assert_eq!(value(&group, "Full charge capacity"), "39600 mWh");
    assert_eq!(value(&group, "Chemistry"), "Lithium-ion");
    assert_eq!(value(&group, "Serial number"), "Not reported by firmware");
    assert!(group.note.is_none());
}

#[test]
fn a_healthy_battery_earns_all_twenty_points() {
    let evidence = battery_evidence(&healthy_battery(), DeviceForm::Portable);
    assert_eq!(evidence.assessed, 20);
    assert_eq!(evidence.awarded, 20);
    let rows = coverage_domains(&[evidence]);
    assert_eq!(rows[0].domain, "Battery and power");
    assert_eq!(rows[0].state, "Fully assessed");
    assert_eq!(rows[0].note, "Measured");
    assert_eq!(rows[0].confidence, "high");
}

#[test]
fn a_refused_battery_query_explains_itself_on_the_report() {
    let probe = battery_from(&[("battery", 0, "source_status", "permission_denied")]);
    let group = battery_group(&probe);
    assert!(value(&group, "Battery present").contains("refused the battery query"));
    assert_eq!(
        value(&group, "Battery present"),
        "Not collected in this scan. Windows refused the battery query on this account."
    );
    let sources = battery_source_group(&probe);
    assert_eq!(value(&sources, "Windows battery class"), "Refused without administrator rights");
    let evidence = battery_evidence(&probe, DeviceForm::Portable);
    let gaps = not_assessable(&[evidence]);
    assert!(gaps.iter().any(|entry| entry.contains("refused the battery query")));
    assert_eq!(
        gaps,
        vec!["Battery and power — Windows refused the battery query on this account (20 of 20 points)".to_string()]
    );
}

#[test]
fn a_desktop_without_a_battery_loses_the_weight_instead_of_the_points() {
    let probe = battery_from(&[
        ("battery", 0, "source_status", "reported"),
        ("battery", 0, "record_count", "0"),
    ]);
    let evidence = battery_evidence(&probe, DeviceForm::Fixed);
    assert_eq!(evidence.applicability, DomainApplicability::NotApplicable);
    let rows = coverage_domains(&[evidence.clone()]);
    assert_eq!(rows[0].state, "Not applicable");
    assert_eq!(rows[0].not_assessable, 0);
    assert!(!not_assessable(&[evidence]).iter().any(|entry| entry.contains("Battery")));
    assert!(value(&battery_group(&probe), "Battery present").contains("expected on a desktop"));
}

#[test]
fn a_missing_battery_on_a_laptop_is_a_gap_not_an_exemption() {
    let probe = battery_from(&[
        ("battery", 0, "source_status", "reported"),
        ("battery", 0, "record_count", "0"),
    ]);
    let evidence = battery_evidence(&probe, DeviceForm::Portable);
    let rows = coverage_domains(&[evidence]);
    assert_eq!(rows[0].state, "Not assessable");
    assert_eq!(rows[0].not_assessable, 20);
    assert_eq!(rows[0].note, "Windows reported no battery on a chassis that should have one");
}

#[test]
fn a_charge_level_is_never_presented_as_health() {
    let probe = battery_from(&[
        ("battery", 0, "source_status", "reported"),
        ("battery", 0, "present", "True"),
        ("battery", 0, "charge_percent", "64"),
    ]);
    let group = battery_group(&probe);
    assert_eq!(value(&group, "Battery health"), "Not reported by firmware");
    assert_eq!(value(&group, "Battery wear"), "Not reported by firmware");
    assert_eq!(value(&group, "Charge level now"), "64% (charge level, not health)");
    assert_eq!(battery_progress_detail(&probe), "The battery did not report a design capacity.");
}

#[test]
fn a_temporary_firmware_report_is_disclosed_and_kept_off_assessed_drives() {
    let probe = battery_from(&[
        ("battery", 0, "source_status", "reported"),
        ("battery", 0, "present", "True"),
        ("firmware", 0, "source_status", "reported"),
        ("firmware", 0, "temporary_file_written", "True"),
        ("firmware", 0, "temporary_file_removed", "True"),
        ("firmware", 0, "designed_capacity", "45000"),
        ("firmware", 0, "full_charge_capacity", "22000"),
    ]);
    let bytes_written = 0;
    let note = temporary_files_note(&probe, bytes_written, true);
    assert_eq!(bytes_written, 0);
    assert!(note.contains("deleted"));
    assert!(note.contains("not written to an assessed drive"));
    assert_eq!(value(&battery_group(&probe), "Health classification"), "Critical");
    assert_eq!(
        battery_progress_detail(&probe),
        "Battery reported 49% of its design capacity."
    );
}

#[test]
fn temporary_files_note_lists_every_file_or_says_none() {
    let silent = BatteryProbe::unavailable("off");
    assert_eq!(temporary_files_note(&silent, 0, true), "No temporary file was created by this scan.");
    assert_eq!(
        temporary_files_note(&silent, 4096, false),
        "One temporary benchmark file was written to the Windows temporary folder and could not be confirmed as deleted."
    );
}

#[test]
fn battery_points_follow_the_rubric_bands() {
    assert_eq!(battery_points_for(85, 100), 20);
    assert_eq!(battery_points_for(84, 100), 16);
    assert_eq!(battery_points_for(75, 100), 16);
    assert_eq!(battery_points_for(74, 100), 11);
    assert_eq!(battery_points_for(60, 100), 11);
    assert_eq!(battery_points_for(59, 100), 6);
    assert_eq!(battery_points_for(50, 100), 6);
    assert_eq!(battery_points_for(49, 100), 0);
    assert_eq!(battery_points_for(120, 100), 20);
}

#[test]
fn an_unavailable_battery_probe_prints_its_reason_only() {
    let probe = BatteryProbe::unavailable("Battery collection is only available on Windows.");
    let group = battery_group(&probe);
    assert_eq!(labels(&group), vec!["Battery probe".to_string()]);
    assert_eq!(value(&group, "Battery probe"), "Battery collection is only available on Windows.");
    assert_eq!(battery_gap(&probe), "The battery probe could not run on this PC");
}

#[test]
fn processor_and_memory_print_identity_and_never_temperatures() {
    let identity = named_processor_and_ram();
    let cpu = processor_group(&identity);
    assert_eq!(value(&cpu, "Processor"), "Intel Core i7-6500U");
    assert_eq!(value(&cpu, "Cores"), "2");
    assert_eq!(value(&cpu, "Maximum clock"), "2500 MHz");
    assert_eq!(value(&cpu, "Cache hierarchy"), "L3 4096 KB");
    assert_eq!(value(&cpu, "Logical processors"), "Not reported by firmware");
    assert!(value(&cpu, "Package temperature").contains("kernel-mode sensor driver"));
    assert!(value(&cpu, "Fan speed").contains("kernel-mode sensor driver"));
    let memory = memory_group(&identity);
    assert_eq!(value(&memory, "Modules"), "ChannelA-DIMM0 · 8589934592 bytes · 2133 MHz");
    assert!(memory.note.unwrap().contains("Never printed as memory verified"));
    assert_eq!(
        processor_progress_detail(&identity),
        "Processor Intel Core i7-6500U · 2 core(s). Cache L3 4096 KB."
    );
    assert_eq!(
        memory_progress_detail(&identity),
        "Memory inventory: 1 module(s). Channel mode is not inferred."
    );
    let sources = identity_source_group(&identity);
    assert_eq!(sources.rows.len(), identity.sources.len());
}

#[test]
fn an_unavailable_identity_probe_keeps_the_sensor_rows() {
    let identity = CpuMemoryProbe::unavailable("off");
    let cpu = processor_group(&identity);
    assert_eq!(
        labels(&cpu),
        vec!["Processor probe".to_string(), "Package temperature".to_string(), "Fan speed".to_string()]
    );
    assert_eq!(labels(&memory_group(&identity)), vec!["Memory probe".to_string()]);
    assert_eq!(processor_progress_detail(&identity), "off");
}

#[test]
fn enumerated_usb_lists_controllers_hubs_and_devices() {
    let usb = enumerated_usb();
    let group = usb_group(&usb, &silent_radios(), "Not attempted in this scan.");
    assert_eq!(value(&group, "USB controllers"), "1 · Intel USB 3.0 eXtensible Host Controller");
    assert_eq!(value(&group, "USB hubs"), "1 · USB Root Hub (USB 3.0)");
    assert_eq!(value(&group, "USB controller ports"), "USB Composite Device (port 2, USB 2.0)");
    assert_eq!(value(&group, "Negotiated port speeds"), "USB 2.0");
    assert_eq!(value(&group, "Physically verified ports"), "Not attempted in this scan.");
    assert_eq!(
        value(&group, "Wi-Fi signal quality"),
        "Display and radio collection is only available on Windows."
    );
    assert!(group.note.unwrap().contains("MAC addresses are never printed"));
    assert_eq!(
        usb_progress_detail(&usb),
        "USB topology: 1 controller(s), 1 hub(s), 1 attached device(s). Empty plastic connectors are not visible."
    );
    assert_eq!(usb_source_group(&usb).rows.len(), usb.sources.len());
}

#[test]
fn a_refused_usb_query_explains_the_gap() {
    let usb = parse_usb(&protocol(&[("controller", 0, "source_status", "permission_denied")]));
    assert_eq!(usb_gap(&usb), "Windows refused the USB controller query on this account");
    let group = usb_group(&usb, &silent_radios(), "Not attempted");
    assert_eq!(
        value(&group, "USB controllers"),
        "Not collected in this scan. Windows refused the USB controller query on this account."
    );
    assert_eq!(value(&group, "USB hubs"), "None enumerated by Windows");
    assert_eq!(value(&group, "Negotiated port speeds"), "Not reported by firmware");
    assert_eq!(ports_gap(&usb, &silent_radios()), "Windows refused the USB controller query on this account");
    assert_eq!(
        ports_gap(&silent_usb(), &silent_radios()),
        "Port topology and radio telemetry could not run on this PC"
    );
}

#[test]
fn an_unavailable_usb_probe_still_prints_the_radios() {
    let group = usb_group(&silent_usb(), &silent_radios(), "Not attempted");
    assert_eq!(
        labels(&group),
        vec![
            "USB probe".to_string(),
            "Physically verified ports".to_string(),
            "Wi-Fi signal quality".to_string(),
            "Wi-Fi link speed".to_string(),
            "Bluetooth radio".to_string(),
            "Ethernet link".to_string(),
        ]
    );
    assert!(group.note.is_none());
}

fn sample_edid_hex() -> String {
    let mut bytes = [0_u8; 128];
    let packed: u16 = (12 << 10) | (5 << 5) | 14;
    bytes[8] = (packed >> 8) as u8;
    bytes[9] = packed as u8;
    bytes[16] = 12;
    bytes[17] = 34;
    bytes[54] = 0x02;
    bytes[55] = 0x3A;
    bytes[56] = 0x80;
    bytes[58] = 0x70;
    bytes[59] = 0x38;
    bytes[61] = 0x40;
    bytes.iter().map(|byte| format!("{byte:02x}")).collect()
}

fn panel_and_radios() -> DisplayRadioProbe {
    parse_radios(&protocol(&[
        ("panel", 0, "source_status", "reported"),
        ("panel", 0, "present", "True"),
        ("panel", 0, "manufacturer", "LEN"),
        ("panel", 0, "name", "LENovo LCD"),
        ("panel", 0, "serial_number", "PF11ARPM"),
        ("edid", 0, "source_status", "reported"),
        ("edid", 0, "present", "True"),
        ("edid", 0, "block_hex", &sample_edid_hex()),
        ("video", 0, "source_status", "reported"),
        ("video", 0, "present", "True"),
        ("video", 0, "current_width", "1280"),
        ("video", 0, "current_height", "720"),
        ("video", 0, "refresh_hz", "60"),
        ("wifi", 0, "source_status", "reported"),
        ("wifi", 0, "present", "True"),
        ("wifi", 0, "name", "Wi-Fi"),
        ("wifi", 0, "state", "Up"),
        ("wifi", 0, "signal_quality", "72"),
        ("wifi", 0, "receive_mbps", "400"),
        ("bluetooth", 0, "source_status", "reported"),
        ("bluetooth", 0, "present", "True"),
        ("bluetooth", 0, "name", "Intel Wireless Bluetooth"),
        ("ethernet", 0, "source_status", "reported"),
        ("ethernet", 0, "present", "True"),
        ("ethernet", 0, "name", "Ethernet"),
        ("ethernet", 0, "state", "Disconnected"),
    ]))
}

fn radios_with_mac_in_the_wire() -> DisplayRadioProbe {
    parse_radios(&protocol(&[
        ("wifi", 0, "source_status", "reported"),
        ("wifi", 0, "present", "True"),
        ("wifi", 0, "name", "AA:BB:CC:DD:EE:FF"),
        ("wifi", 0, "state", "Up"),
        ("bluetooth", 0, "source_status", "reported"),
        ("bluetooth", 0, "present", "True"),
        ("ethernet", 0, "source_status", "reported"),
        ("ethernet", 0, "present", "True"),
        ("ethernet", 0, "name", "Ethernet"),
        ("ethernet", 0, "state", "Up"),
    ]))
}

#[test]
fn edid_native_resolution_is_kept_apart_from_the_desktop_mode() {
    let radios = panel_and_radios();
    let group = display_group(&radios);
    assert_eq!(value(&group, "Display panel"), "LENovo LCD");
    assert_eq!(value(&group, "Native resolution"), "1920 × 1080 (EDID preferred timing)");
    assert_eq!(value(&group, "Current desktop mode"), "1280 × 720 (current mode, not native)");
    assert_eq!(value(&group, "Refresh rate"), "60 Hz (current desktop mode)");
    assert_eq!(value(&group, "Panel serial number"), "PF11ARPM");
    assert!(value(&group, "HDR capability").contains("not inferred"));
    assert_eq!(
        display_progress_detail(&radios),
        "Panel native resolution 1920×1080 from EDID preferred timing, not the current desktop mode."
    );
}

#[test]
fn radios_are_printed_from_what_windows_returned() {
    let radios = panel_and_radios();
    let group = usb_group(&enumerated_usb(), &radios, "Not attempted");
    assert_eq!(value(&group, "Wi-Fi adapter"), "Wi-Fi");
    assert_eq!(value(&group, "Wi-Fi state"), "Up");
    assert_eq!(value(&group, "Wi-Fi signal quality"), "72%");
    assert_eq!(value(&group, "Wi-Fi link speed"), "400 Mbps");
    assert_eq!(value(&group, "Wi-Fi radio standards"), "None enumerated by Windows");
    assert_eq!(value(&group, "Bluetooth radio"), "Intel Wireless Bluetooth");
    assert_eq!(value(&group, "Ethernet link"), "Ethernet (Disconnected)");
    assert_eq!(
        radio_progress_detail(&radios),
        "Wi-Fi adapter reporting; Bluetooth present; Ethernet link state readable. MAC addresses were not collected."
    );
    let radio_sources = radio_source_group(&radios);
    assert_eq!(
        labels(&radio_sources),
        vec!["Wi-Fi adapter".to_string(), "Bluetooth radio".to_string(), "Ethernet adapter".to_string()]
    );
    let display_sources = display_source_group(&radios);
    assert_eq!(
        labels(&display_sources),
        vec!["Monitor identity".to_string(), "EDID block".to_string(), "Video controller".to_string()]
    );
}

#[test]
fn a_mac_address_never_appears_on_report_d() {
    let groups = telemetry_groups(
        &healthy_battery(),
        &StorageProbe::unavailable("Storage SMART collection is only available on Windows."),
        &silent_usb(),
        &radios_with_mac_in_the_wire(),
        &CaptureProbe::unavailable("Camera and microphone collection is only available on Windows."),
        &CpuMemoryProbe::unavailable("Processor and memory identity collection is only available on Windows."),
        "Not attempted in this scan. A technician records this at physical verification.",
        [DECLINED, DECLINED, DECLINED, DECLINED, DECLINED],
    );
    for group in &groups {
        for row in &group.rows {
            assert!(
                !row.value.contains("AA:BB:CC:DD:EE:FF"),
                "{} / {} leaked a MAC address: {}",
                group.title,
                row.label,
                row.value
            );
            assert!(
                !row.label.eq_ignore_ascii_case("mac")
                    && !row.label.to_ascii_lowercase().contains("mac address")
                    && !row.label.to_ascii_lowercase().contains("macaddress"),
                "Report D must not have a MAC label: {}",
                row.label
            );
        }
    }
    let ports = usb_group(&enumerated_usb(), &radios_with_mac_in_the_wire(), "Not attempted");
    assert_eq!(value(&ports, "Wi-Fi adapter"), "Present");
    assert_eq!(value(&ports, "Wi-Fi state"), "Up");
    assert_eq!(value(&ports, "Bluetooth radio"), "Present");
    assert_eq!(value(&ports, "Ethernet link"), "Ethernet (Up)");
}

#[test]
fn every_unread_row_says_so_and_none_invents_a_number() {
    let groups = telemetry_groups(
        &healthy_battery(),
        &StorageProbe::unavailable("Storage SMART collection is only available on Windows."),
        &silent_usb(),
        &silent_radios(),
        &CaptureProbe::unavailable("Camera and microphone collection is only available on Windows."),
        &CpuMemoryProbe::unavailable("Processor and memory identity collection is only available on Windows."),
        "Not attempted in this scan. A technician records this at physical verification.",
        [DECLINED, DECLINED, DECLINED, DECLINED, DECLINED],
    );
    for group in &groups {
        if group.title.starts_with("Battery")
            || group.title.starts_with("USB")
            || group.title.starts_with("Ports")
            || group.title.starts_with("Cameras")
            || group.title.starts_with("Capture")
            || group.title.starts_with("Storage")
            || group.title.starts_with("Display")
            || group.title.starts_with("Radio")
            || group.title.starts_with("Processor")
            || group.title.starts_with("Memory")
            || group.title.starts_with("Technician")
            || group.title.starts_with("Screen")
        {
            continue;
        }
        for row in &group.rows {
            assert!(
                row.value.contains("Not collected in this scan")
                    || row.value.contains("Not attempted in this scan")
                    || row.value.contains("Declined by the operator"),
                "{} / {} claimed a value it never read: {}",
                group.title,
                row.label,
                row.value
            );
        }
    }
}

#[test]
fn a_uvc_camera_is_printed_with_the_class_that_found_it() {
    let capture = uvc_capture();
    let group = capture_group(&capture);
    assert_eq!(value(&group, "Cameras"), "USB Video Device");
    assert_eq!(value(&group, "Camera enumerated by"), "USB video service");
    assert_eq!(value(&group, "Microphones"), "Microphone Array");
    assert_eq!(value(&group, "Frames captured"), "No");
    assert_eq!(value(&group, "Audio recorded"), "No");
    assert!(value(&group, "Camera image").contains("Not attempted in this scan"));
    assert_eq!(
        capture_progress_detail(&capture),
        "Found 1 camera(s) and 1 microphone(s). No image or audio was captured."
    );
    assert_eq!(capture_source_group(&capture).rows.len(), capture.sources.len());
}

#[test]
fn an_unavailable_capture_probe_claims_no_capture() {
    let capture = CaptureProbe::unavailable("off");
    let group = capture_group(&capture);
    assert_eq!(value(&group, "Capture probe"), "off");
    assert_eq!(value(&group, "Frames captured"), "No");
    assert_eq!(value(&group, "Audio recorded"), "No");
    assert!(!labels(&group).contains(&"Camera enumerated by".to_string()));
}

#[test]
fn unread_storage_rows_say_so_and_invent_no_number() {
    let storage = StorageProbe::unavailable("Storage SMART collection is only available on Windows.");
    let group = storage_group(&storage);
    assert_eq!(value(&group, "Storage probe"), "Storage SMART collection is only available on Windows.");
    for row in group.rows.iter().skip(1) {
        assert!(row.value.contains("Not collected in this scan"), "{}", row.label);
    }
    assert_eq!(storage_source_group(&storage).rows.len(), storage.sources.len());
}

#[test]
fn a_healthy_nvme_prints_identity_and_wear() {
    let storage = parse_storage(&protocol(&[
        ("physical", 0, "source_status", "reported"),
        ("physical", 0, "present", "True"),
        ("physical", 0, "model", "Samsung SSD 990 PRO 1TB"),
        ("physical", 0, "serial_number", "S6Z1NS0W123456"),
        ("physical", 0, "bus_type", "NVMe"),
        ("physical", 0, "media_kind", "SSD"),
        ("physical", 0, "rotational", "False"),
        ("reliability", 0, "source_status", "reported"),
        ("reliability", 0, "present", "True"),
        ("reliability", 0, "percentage_used", "2"),
        ("reliability", 0, "available_spare", "100"),
        ("reliability", 0, "power_on_hours", "1840"),
        ("predict", 0, "source_status", "reported"),
        ("predict", 0, "present", "True"),
        ("predict", 0, "predicts_failure", "False"),
    ]));
    let group = storage_group(&storage);
    assert_eq!(value(&group, "Storage devices"), "Samsung SSD 990 PRO 1TB");
    assert_eq!(value(&group, "Model"), "Samsung SSD 990 PRO 1TB");
    assert_eq!(value(&group, "Available spare"), "100%");
    assert_eq!(value(&group, "Predicted failure"), "No");
    assert!(group.note.unwrap().contains("not scored"));
}

#[test]
fn report_d_explains_its_method_and_rubric() {
    let method = method_rows();
    assert_eq!(method.len(), 13);
    assert!(method.iter().any(|row| row.value.contains("vulnerable-driver blocklist")));
    let rubric = rubric_rows();
    assert_eq!(rubric.len(), 9);
    assert_eq!(rubric[0].label, "Battery and power");
    assert_eq!(rubric[0].value, "20 points of 100");
    assert_eq!(rubric[4].value, "10 points of 100");
    assert!(rubric.iter().any(|row| row.label == "Coverage floor"));
}

#[test]
fn the_outcome_message_fails_closed_on_a_write_without_consent() {
    let evidence = vec![
        battery_evidence(&healthy_battery(), DeviceForm::Portable),
        DomainEvidence::not_assessable(DiagnosticDomain::StorageHealth, "Storage was not read"),
    ];
    let summary = evaluate(&evidence, DeviceForm::Portable, &[]);
    assert_eq!(
        outcome_message(&summary, true),
        "CYVRA stopped Advance scan because a write was recorded without consent."
    );
    assert_eq!(
        outcome_message(&summary, false),
        "Advance scan finished. Coverage 50%. No grade was issued because too little of this device could be assessed."
    );
    let rows = coverage_rows(&summary);
    assert_eq!(rows[0].label, "Points in scope");
    assert_eq!(rows[5].label, "Assessed Health Index");
    assert_eq!(rows[5].value, "100 / 100");
}

#[test]
fn the_boundary_note_says_nothing_was_erased() {
    let note = boundary_note(false, 0);
    assert_eq!(
        note,
        "Advance scan collection is read-only. Benchmarks were not permitted, so none were run. Nothing was written to any assessed drive. File contents were not opened. No data was erased. Purge stays off."
    );
    assert!(boundary_note(true, 4096).contains("A temporary benchmark file was written and removed."));
}

#[test]
fn benchmark_rows_and_detail_follow_consent() {
    let group = bench_group("Declined", "Declined", "Declined", "Declined", "Declined");
    assert_eq!(group.rows.len(), 5);
    assert_eq!(group.rows[4].label, "Write benchmark");
    assert_eq!(bench_progress_detail(false, 0), "Benchmarks were not permitted, so none were run.");
    assert_eq!(
        bench_progress_detail(true, 4096),
        "Consented workloads finished. 4096 bytes were written to the Windows temporary folder."
    );
}

#[test]
fn stages_run_from_zero_to_one_hundred_percent() {
    assert_eq!(STAGES.len(), 11);
    assert_eq!(STAGES[0], "Preparing advance scan");
    assert_eq!(STAGES[10], "Preparing Report D");
    assert_eq!(stage_percent(0), 0);
    assert_eq!(stage_percent(3), 30);
    assert_eq!(stage_percent(10), 100);
}

#[test]
fn telemetry_groups_come_in_report_order() {
    let groups = telemetry_groups(
        &healthy_battery(),
        &StorageProbe::unavailable("off"),
        &enumerated_usb(),
        &panel_and_radios(),
        &uvc_capture(),
        &named_processor_and_ram(),
        "Not attempted",
        ["a", "b", "c", "d", "e"],
    );
    let titles: Vec<&str> = groups.iter().map(|group| group.title.as_str()).collect();
    assert_eq!(
        titles,
        vec![
            "Battery and power",
            "Battery sources consulted",
            "Processor and thermal",
            "Memory",
            "Processor and memory sources consulted",
            "Storage health and SMART",
            "Storage sources consulted",
            "Ports and connectivity",
            "USB sources consulted",
            "Radio sources consulted",
            "Display panel",
            "Display sources consulted",
            "Cameras and microphones",
            "Capture sources consulted",
            "Benchmarks",
        ]
    );
    assert_eq!(groups[14].rows[2].value, "c");
}
