use cyvra_core::live_intake::{
    apply_volume_speeds, classify_usb_speed, interpret_battery_status, parse_power_stdout,
    parse_volume_speeds, power_unavailable, removable_from_targets, LiveIntakeNotes, SpeedMap,
};
use cyvra_core::ScanTarget;

fn target(letter: &str, kind: &str) -> ScanTarget {
    ScanTarget {
        letter: letter.to_string(),
        label: "Stick".to_string(),
        kind: kind.to_string(),
        size_label: "8 GB".to_string(),
        default_selected: false,
        hint: String::new(),
    }
}

#[test]
fn charging_codes_are_on_mains_and_charging() {
    for code in [6, 7, 8, 9] {
        let status = interpret_battery_status(code, Some(41));
        assert!(status.charging, "code {code}");
        assert!(status.on_mains, "code {code}");
        assert_eq!(status.charge_percent, Some(41));
        assert!(status.detail.contains("charging"));
    }
}

#[test]
fn ac_online_is_not_claimed_as_charging() {
    let status = interpret_battery_status(2, Some(88));
    assert!(status.on_mains);
    assert!(!status.charging);
    assert!(status.detail.contains("not necessarily charging"));
}

#[test]
fn discharging_is_not_on_mains() {
    let status = interpret_battery_status(1, Some(12));
    assert!(!status.on_mains);
    assert!(!status.charging);
    assert_eq!(status.status_label, "Discharging");
}

#[test]
fn empty_battery_list_is_honest() {
    let status = parse_power_stdout("count=0\n");
    assert!(!status.present);
    assert!(status.available);
    assert!(status.detail.contains("no battery pack"));
}

#[test]
fn protocol_line_maps_status_six() {
    let status = parse_power_stdout("count=1\npresent=1\nstatus=6\npercent=41\n");
    assert!(status.charging);
    assert_eq!(status.charge_percent, Some(41));
    assert_eq!(status.status_code, Some(6));
}

#[test]
fn removable_filter_drops_internal_disks() {
    let listed = removable_from_targets(vec![
        target("C", "Internal disk"),
        target("E", "Removable or USB"),
    ]);
    assert_eq!(listed.len(), 1);
    assert_eq!(listed[0].letter, "E");
    assert_eq!(listed[0].speed_label, "Not reported by Windows");
}

#[test]
fn empty_notes_print_not_attempted() {
    let notes = LiveIntakeNotes::default();
    assert!(notes.usb_or_default().contains("Not attempted"));
    assert!(notes.usb_port_or_default(0).contains("Not attempted"));
    assert!(!notes.has_camera_capture());
}

#[test]
fn snapshot_note_is_a_capture() {
    let notes = LiveIntakeNotes {
        camera_session:
            "Live preview opened. A snapshot was taken in this session and was not stored."
                .to_string(),
        ..LiveIntakeNotes::default()
    };
    assert!(notes.has_camera_capture());
}

#[test]
fn classify_usb_speed_maps_common_windows_strings() {
    assert_eq!(classify_usb_speed("USB SuperSpeedPlus Root Hub"), "USB 3.2 SuperSpeed+");
    assert_eq!(classify_usb_speed("USB 3.0 SuperSpeed Root Hub"), "USB 3.0 SuperSpeed");
    assert_eq!(classify_usb_speed("USB Mass Storage Device USB2"), "USB 2.0 High Speed");
    assert_eq!(classify_usb_speed("Full-Speed USB Composite Device USB1"), "USB 1.1 Full Speed");
    assert_eq!(classify_usb_speed("Generic USB Flash Disk"), "Not reported by Windows");
}

#[test]
fn volume_speed_protocol_maps_the_letter() {
    let speeds = parse_volume_speeds(
        "letter=E\ndescriptor=USB 3.0 SuperSpeed Root Hub\nletter=F\nspeed=USB 2.0 High Speed\n",
    );
    assert_eq!(speeds.get("E").map(String::as_str), Some("USB 3.0 SuperSpeed"));
    assert_eq!(speeds.get("F").map(String::as_str), Some("USB 2.0 High Speed"));
    let mut volumes = removable_from_targets(vec![target("E", "Removable or USB")]);
    apply_volume_speeds(&mut volumes, &speeds);
    assert_eq!(volumes[0].speed_label, "USB 3.0 SuperSpeed");
    let unused = SpeedMap::new();
    apply_volume_speeds(&mut volumes, &unused);
    assert_eq!(volumes[0].speed_label, "USB 3.0 SuperSpeed");
}

#[test]
fn a_later_speed_line_replaces_an_earlier_one() {
    let mut speeds = SpeedMap::new();
    speeds.insert("E".to_string(), "USB 1.1 Full Speed".to_string());
    speeds.insert("E".to_string(), "USB 2.0 High Speed".to_string());
    assert_eq!(speeds.get("E").map(String::as_str), Some("USB 2.0 High Speed"));
    assert_eq!(speeds.get("G"), None);
}

#[test]
fn power_off_windows_is_unavailable() {
    let status = power_unavailable(false);
    assert!(!status.available);
    assert!(!status.present);
    assert!(!status.charging);
}
