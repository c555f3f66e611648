use cyvra_core::battery_probe::parse_probe as parse_battery;
use cyvra_core::diagnostics::{
    battery_evidence, boundary_note, coverage_domains, coverage_rows, method_rows, not_assessable,
    outcome_message, rubric_rows, telemetry_groups, temporary_files_note, CustomerAdvanceScan,
};
use cyvra_core::hardware_diagnostics_v1::{evaluate, DeviceForm, DiagnosticDomain, DomainEvidence};
use cyvra_core::report_signing::{canonical_json, seal, seal_with_secret, verify, verify_detail, IntegritySeal, SEAL_SCHEME};
use cyvra_core::storage_health::StorageProbe;
use cyvra_core::usb_topology::UsbProbe;
use cyvra_core::display_radio::DisplayRadioProbe;
use cyvra_core::capture_probe::CaptureProbe;
use cyvra_core::cpu_memory::CpuMemoryProbe;
use sha2::{Digest, Sha256};

fn hex(bytes: &[u8]) -> String {
    bytes.iter().map(|byte| format!("{byte:02x}")).collect()
}

fn protocol_hex(value: &str) -> String {
    hex(value.as_bytes())
}

/// A Report D for a laptop whose battery answered and nothing else ran.
fn report() -> CustomerAdvanceScan {
    let lines = [
        ("battery", "source_status", "reported"),
        ("battery", "present", "True"),
        ("battery", "designed_capacity", "45000"),
        ("battery", "full_charge_capacity", "39600"),
    ];
    let text = lines
        .iter()
        .map(|(section, name, value)| format!("{section}\t0\t{name}\t{}", protocol_hex(value)))
        .collect::<Vec<_>>()
        .join("\n");
    let battery = parse_battery(&text);
    let storage = StorageProbe::unavailable("Storage SMART collection is only available on Windows.");
    let evidence = vec![
        battery_evidence(&battery, DeviceForm::Portable),
        DomainEvidence::not_assessable(DiagnosticDomain::StorageHealth, "Storage was not read"),
    ];
    let summary = evaluate(&evidence, DeviceForm::Portable, &[]);
    CustomerAdvanceScan {
        ok: true,
        message: outcome_message(&summary, false),
        schema_version: "hardware_diagnostics_v1",
        elevation_state: "not_requested",
        elevation_label: "Not requested",
        benchmarks_consented: false,
        write_benchmark_consented: false,
        bytes_written: 0,
        temporary_files_note: temporary_files_note(&battery, 0, true),
        destructive_operations_enabled: false,
        content_inspected: false,
        boundary_note: boundary_note(false, 0),
        telemetry_groups: telemetry_groups(
            &battery,
            &storage,
            &UsbProbe::unavailable("off"),
            &DisplayRadioProbe::unavailable("off"),
            &CaptureProbe::unavailable("off"),
            &CpuMemoryProbe::unavailable("off"),
            "Not attempted",
            ["Declined", "Declined", "Declined", "Declined", "Declined"],
        ),
        coverage_rows: coverage_rows(&summary),
        coverage_domains: coverage_domains(&evidence),
        method_rows: method_rows(),
        rubric_rows: rubric_rows(),
        not_assessable: not_assessable(&evidence),
        grading_engine: summary.engine,
        grading_rubric: summary.rubric,
        grade_label: summary.band.label(),
        grade_condition: summary.band.condition(),
        grade_observation: None,
        grade_withheld: summary.is_withheld(),
        grade_withheld_reason: summary.withheld_reason.clone(),
        issuance_notice: "Provisional until physical verification.",
        coverage_percent: summary.coverage_percent,
        index_percent: summary.index_percent,
        provisional: summary.provisional,
    }
}

#[test]
fn a_fresh_scan_seal_verifies_and_tampering_fails() {
    let scan = report();
    let mut sealed = scan.clone();
    let seal = seal(&scan).expect("a signing key can be drawn");
    assert_eq!(seal.scheme, SEAL_SCHEME);
    assert_eq!(seal.digest_hex.len(), 64);
    assert_eq!(seal.public_key_hex.len(), 64);
    assert_eq!(seal.signature_hex.len(), 128);
    assert!(seal.qr_payload.starts_with("CYVRA-ERD:1:"));
    assert!(seal.qr_svg.contains("<svg"));
    assert!(seal.notice.contains("not cloud-authenticated"));
    assert!(seal.notice.contains("not Authenticode"));
    assert!(verify(&seal));
    assert_eq!(canonical_json(&scan), seal.canonical_json);

    sealed.boundary_note.push_str(" tampered");
    let tampered = IntegritySeal {
        canonical_json: canonical_json(&sealed),
        digest_hex: seal.digest_hex.clone(),
        ..seal.clone()
    };
    assert!(!verify(&tampered));
    assert_eq!(verify_detail(&tampered), Err("digest does not match canonical JSON"));
}

#[test]
fn digest_is_sha256_of_canonical_json() {
    let scan = report();
    let json = canonical_json(&scan);
    let digest = hex(&Sha256::digest(json.as_bytes()));
    let sealed = seal(&scan).expect("a signing key can be drawn");
    assert_eq!(sealed.digest_hex, digest);
    assert_eq!(canonical_json(&scan), json);
    assert_eq!(sealed.qr_payload, format!("CYVRA-ERD:1:{digest}"));
}

#[test]
fn a_signature_from_another_key_is_refused() {
    let scan = report();
    let first = seal(&scan).expect("a signing key can be drawn");
    let second = seal(&scan).expect("a signing key can be drawn");
    let swapped = IntegritySeal { public_key_hex: second.public_key_hex.clone(), ..first.clone() };
    if second.public_key_hex != first.public_key_hex {
        assert!(!verify(&swapped));
    }
    let wrong_scheme = IntegritySeal { scheme: "other", ..first.clone() };
    assert_eq!(verify_detail(&wrong_scheme), Err("unknown seal scheme"));
}

#[test]
fn canonical_text_is_one_object_that_tracks_the_note() {
    let scan = report();
    let text = canonical_json(&scan);
    assert!(text.starts_with("{\"schemaVersion\":"));
    assert!(text.ends_with('}'));
    assert_eq!(canonical_json(&scan), text);
    let mut tampered = scan.clone();
    tampered.boundary_note.push_str(" tampered");
    assert_ne!(canonical_json(&tampered), text);
}

#[test]
fn the_qr_code_is_drawn_in_the_report_colours() {
    let sealed = seal(&report()).expect("a signing key can be drawn");
    assert!(sealed.qr_svg.contains("#0b1f3a"));
    assert_eq!(sealed.digest_hex.len(), 64);
}

#[test]
fn a_given_secret_seals_deterministically_under_its_own_key() {
    let scan = report();
    let secret = [7u8; 32];
    let first = seal_with_secret(&scan, &secret);
    let second = seal_with_secret(&scan, &secret);
    assert_eq!(first.signature_hex, second.signature_hex);
    assert!(verify(&first));
    let key = ed25519_dalek::SigningKey::from_bytes(&secret).verifying_key().to_bytes();
    assert_eq!(first.public_key_hex, hex(&key));
    assert_eq!(first.digest_hex, hex(&Sha256::digest(canonical_json(&scan).as_bytes())));
}
