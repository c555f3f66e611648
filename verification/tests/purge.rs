use sha2::{Digest, Sha256};
use cyvra_core::purge::execute::{helper_must_refuse, parse_plan, parse_result, plan_file_body, result_body};
use cyvra_core::purge::media::{classify, method_for};
use cyvra_core::purge::plan::{erase_confirmed, hostname_matches, plan_targets};
use cyvra_core::purge::verify::{inspect_buffer, residue_ok, summarise, MARKER};
use cyvra_core::purge::{
    after_planning, consent_gate, controller_progress, open_mode_s, stage_progress, DiskHint, ModeSStage, MediaClass, MethodClass, ModeSStep, PurgeRequest,
    VolumeHint,
};

fn volume(letter: &str, kind: &str, system: bool) -> VolumeHint {
    VolumeHint {
        letter: letter.to_string(),
        drive_kind: kind.to_string(),
        is_system: system,
        size_bytes: 8_000_000_000,
    }
}

fn usb_disk() -> DiskHint {
    DiskHint {
        index: 1,
        model: "TOSHIBA USB".to_string(),
        serial: "ABC123".to_string(),
        size_bytes: 8_000_000_000,
        interface_type: "USB".to_string(),
        media_type: "External hard disk media".to_string(),
    }
}

#[test]
fn system_disk_is_never_mode_s() {
    let class = classify(true, "internal", "SATA", "HDD", "ST1000");
    assert_eq!(class, MediaClass::SystemDisk);
    assert!(!class.mode_s_allowed());
    assert_eq!(method_for(class), MethodClass::Refused);
}

#[test]
fn optical_and_network_are_refused() {
    assert_eq!(classify(false, "optical", "", "", "DVD"), MediaClass::Optical);
    assert_eq!(classify(false, "network", "", "", "share"), MediaClass::Network);
    assert_eq!(method_for(MediaClass::Unknown), MethodClass::Refused);
}

#[test]
fn usb_hdd_is_clear_overwrite() {
    let class = classify(false, "removable", "USB", "External hard disk media", "TOSHIBA");
    assert_eq!(class, MediaClass::UsbHdd);
    assert_eq!(method_for(class), MethodClass::OverwriteClear);
    assert!(!method_for(class).is_purge());
}

#[test]
fn nvme_uses_sanitize_not_overwrite() {
    let class = classify(false, "internal", "NVMe", "SSD", "Samsung SSD 980");
    assert_eq!(class, MediaClass::Nvme);
    assert_eq!(method_for(class), MethodClass::NvmeSanitize);
    assert!(method_for(class).is_purge());
}

#[test]
fn dual_confirm_tokens() {
    assert!(hostname_matches("LENOVO-PC", "lenovo-pc"));
    assert!(!hostname_matches("LENOVO-PC", "other"));
    assert!(erase_confirmed("ERASE"));
    assert!(erase_confirmed(" ERASE "));
    assert!(!erase_confirmed("erase"));
    assert!(!erase_confirmed("ERASE NOW"));
}

#[test]
fn system_letter_is_planned_but_not_allowed() {
    let planned = plan_targets(&["C".to_string()], &[volume("C", "internal", true)], &[], true);
    assert_eq!(planned.len(), 1);
    assert!(!planned[0].allowed);
    assert_eq!(planned[0].media_class, MediaClass::SystemDisk);
}

#[test]
fn usb_hdd_is_always_refused() {
    let planned = plan_targets(
        &["E".to_string()],
        &[volume("E", "removable", false)],
        &[usb_disk()],
        true,
    );
    assert!(!planned[0].allowed);
    assert_eq!(planned[0].media_class, MediaClass::UsbHdd);
    assert!(planned[0]
        .refuse_reason
        .as_deref()
        .unwrap_or("")
        .contains("cannot be sanitised by this application"));
}

#[test]
fn usb_opt_in_is_ignored() {
    let planned = plan_targets(
        &["E".to_string()],
        &[volume("E", "removable", false)],
        &[usb_disk()],
        false,
    );
    assert!(!planned[0].allowed);
    assert!(planned[0]
        .refuse_reason
        .as_deref()
        .unwrap_or("")
        .contains("USB or removable"));
}

#[test]
fn extra_internal_hdd_is_allowed_clear() {
    let planned = plan_targets(
        &["D".to_string()],
        &[volume("D", "internal", false)],
        &[DiskHint {
            index: 1,
            model: "ST1000DM".to_string(),
            serial: "INT001".to_string(),
            size_bytes: 8_000_000_000,
            interface_type: "SATA".to_string(),
            media_type: "HDD".to_string(),
        }],
        false,
    );
    assert!(planned[0].allowed);
    assert_eq!(planned[0].media_class, MediaClass::MagneticHdd);
    assert_eq!(planned[0].method, MethodClass::OverwriteClear);
}

#[test]
fn marker_fails_verify() {
    let mut buffer = vec![0_u8; 4096];
    buffer[100..100 + MARKER.len()].copy_from_slice(&MARKER);
    let (hits, _) = inspect_buffer(&buffer);
    assert_eq!(hits, 1);
    assert!(!residue_ok(&buffer));
}

#[test]
fn zeros_pass() {
    let buffer = vec![0_u8; 4096];
    assert!(residue_ok(&buffer));
    let report = summarise(&[(0, true), (0, true)]);
    assert!(report.passed);
    assert_eq!(report.sample_percent, 10);
}

#[test]
fn ones_pass_and_mixed_residue_fails() {
    assert!(residue_ok(&vec![0xff_u8; 512]));
    let mostly_zero = {
        let mut buffer = vec![0_u8; 512];
        buffer[3] = 7;
        buffer
    };
    assert!(residue_ok(&mostly_zero));
    let patterned: Vec<u8> = (0..512).map(|i| if i % 2 == 0 { 1 } else { 2 }).collect();
    assert!(!residue_ok(&patterned));
    let report = summarise(&[(0, true), (2, false)]);
    assert!(!report.passed);
    assert!(report.note.contains("marker still present"));
}

#[test]
fn result_round_trip() {
    let body = "job_id=abc\nletter=E\nmethod=overwrite_clear\nok=true\nmessage=done\nbytes_processed=10\n";
    let parsed = parse_result(body).unwrap();
    assert!(parsed.ok);
    assert_eq!(parsed.letter, "E");
    assert_eq!(parsed.bytes_processed, 10);
    let written = result_body("abc", "E", "overwrite_clear", true, "done", 10);
    assert_eq!(written, body);
}

#[test]
fn helper_refuses_usb_even_if_plan_asks() {
    assert!(helper_must_refuse("usb_hdd", "SATA", "internal"));
    assert!(helper_must_refuse("magnetic_hdd", "USB", "internal"));
    assert!(helper_must_refuse("magnetic_hdd", "SATA", "removable"));
    assert!(!helper_must_refuse("magnetic_hdd", "SATA", "internal"));
    assert!(!helper_must_refuse("nvme", "NVMe", "internal"));
}

fn request(licence: bool, hostname_typed: &str, erase_typed: &str, preview_only: bool) -> PurgeRequest {
    PurgeRequest {
        purge_licence_bound: licence,
        hostname: "PC".to_string(),
        hostname_typed: hostname_typed.to_string(),
        erase_typed: erase_typed.to_string(),
        letters: vec!["E".to_string()],
        usb_opt_in: true,
        operator_name: String::new(),
        preview_only,
    }
}

#[test]
fn missing_licence_does_not_start_helper() {
    let (stages, refused) = open_mode_s(&request(false, "PC", "ERASE", false));
    let calls: Vec<(u8, u8, &str, &str)> = stages.into_iter().map(stage_progress).collect();
    let outcome = refused.expect("refused");
    assert!(!outcome.ok);
    assert!(!outcome.report_allowed);
    assert!(!outcome.data_erased);
    assert_eq!(outcome.status, "FAILED");
    assert!(outcome.message.contains("Purge licence"));
    assert!(outcome.targets.is_empty());
    assert_eq!(calls.len(), 1);
    assert_eq!((calls[0].0, calls[0].1, calls[0].2), (5, 1, "Checking the Purge licence and consent tokens"));
}

#[test]
fn wrong_erase_token_fails_closed() {
    let (stages, refused) = open_mode_s(&request(true, "PC", "erase", false));
    let calls: Vec<(u8, u8, &str, &str)> = stages.into_iter().map(stage_progress).collect();
    let outcome = refused.expect("refused");
    assert!(!outcome.ok);
    assert!(!outcome.report_allowed);
    assert!(!outcome.data_erased);
    assert_eq!(outcome.message, "Type ERASE in capital letters to confirm permanent destruction.");
    assert!(outcome.targets.is_empty());
    assert_eq!(calls.len(), 1);
    assert_eq!(calls[0].0, 5);
}

#[test]
fn the_controller_stage_names_the_volume_and_method() {
    let (percent, index, stage, detail) = controller_progress("E", MethodClass::NvmeSanitize);
    assert_eq!((percent, index, stage), (70, 6, "Waiting for the controller"));
    assert!(detail.starts_with("Method on E: "));
    assert!(detail.ends_with('.'));
    assert_eq!(stage_progress(ModeSStage::Finish { report_allowed: false }).2, "Recording FAIL");
    assert_eq!(stage_progress(ModeSStage::Finish { report_allowed: true }).2, "Writing Report S");
}

#[test]
fn preview_does_not_require_erase_token() {
    let req = request(true, "", "", true);
    assert!(consent_gate(&req).is_none());
    let planned = plan_targets(&req.letters, &[], &[], req.usb_opt_in);
    let outcome = match after_planning(&req, planned, "job".to_string()) {
        ModeSStep::Finish(outcome) => outcome,
        ModeSStep::Proceed(_) => panic!("an unidentified volume must not proceed"),
    };
    assert_ne!(outcome.status, "CERTIFIED SECURE");
    assert!(!outcome.report_allowed);
    assert!(!outcome.data_erased);
    assert!(
        outcome.status == "PREVIEW"
            || outcome.status == "FAILED"
            || outcome.message.contains("Windows")
            || outcome.message.contains("identified")
            || outcome.message.contains("refused")
    );
}

#[test]
fn nothing_planned_is_a_failure() {
    let req = request(true, "PC", "ERASE", false);
    match after_planning(&req, Vec::new(), "job".to_string()) {
        ModeSStep::Finish(outcome) => {
            assert_eq!(outcome.status, "FAILED");
            assert_eq!(outcome.message, "No selected volumes could be identified.");
        }
        ModeSStep::Proceed(_) => panic!("nothing to proceed with"),
    }
}

#[test]
fn the_helper_reads_back_the_plan_the_desktop_wrote() {
    let target = cyvra_core::purge::PlannedTarget {
        letter: "E".to_string(),
        disk_index: 2,
        media_class: MediaClass::MagneticHdd,
        method: MethodClass::OverwriteClear,
        model: "WDC\nWD10".to_string(),
        serial: "WX1=23\r".to_string(),
        bus: "SATA\nport 1".to_string(),
        size_bytes: 1_000_204_886_016,
        allowed: true,
        refuse_reason: None,
    };
    let body = plan_file_body("ERS-42", &target).expect("allowed");
    let plan = parse_plan(&body);
    assert_eq!(plan.job_id, "ERS-42");
    assert_eq!(plan.letter, "E");
    assert_eq!(plan.method, "overwrite_clear");
    assert_eq!(plan.size_bytes, 1_000_204_886_016);
    assert_eq!(plan.media_class, "magnetic_hdd");
    assert_eq!(plan.bus, "SATA port 1");
}

#[test]
fn the_desktop_reads_back_the_result_the_helper_wrote() {
    let body = result_body("ERS-42", "E", "overwrite_clear", false, "a=b failed\r", 7);
    let result = parse_result(&body).expect("readable");
    assert_eq!(result.job_id, "ERS-42");
    assert!(!result.ok);
    assert_eq!(result.message, "a=b failed");
    assert_eq!(result.bytes_processed, 7);
}

#[test]
fn the_evidence_hash_covers_job_letter_serial_method_and_verdict() {
    let target = cyvra_core::purge::PlannedTarget {
        letter: "E".to_string(),
        disk_index: 1,
        media_class: MediaClass::MagneticHdd,
        method: MethodClass::OverwriteClear,
        model: "WDC".to_string(),
        serial: "WX123".to_string(),
        bus: "SATA".to_string(),
        size_bytes: 4096,
        allowed: true,
        refuse_reason: None,
    };
    let outcome = cyvra_core::purge::target_from_plan(&target, true, true, "ok");
    let hash = cyvra_core::purge::evidence_hash("ERS-1", &vec![outcome.clone()]);
    let mut hasher = Sha256::new();
    hasher.update(b"ERS-1");
    hasher.update(outcome.letter.as_bytes());
    hasher.update(outcome.serial.as_bytes());
    hasher.update(outcome.method_label.as_bytes());
    hasher.update([1u8]);
    let expected: String = hasher.finalize().iter().map(|b| format!("{b:02x}")).collect();
    assert_eq!(hash, expected);
    assert_ne!(hash, cyvra_core::purge::evidence_hash("ERS-2", &vec![outcome]));
}
