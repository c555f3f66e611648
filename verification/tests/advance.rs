use cyvra_core::advance::{
    advance_start, advance_step, build_customer_scan, AdvanceAction, AdvanceEvent, AdvanceWork,
    BenchSummary, DiagnosticsRecord, IdentityPoints, InteractiveAttestations, PhysicalPortAttestation, RadioPoints,
    Timed, memory_evidence, processor_evidence, storage_evidence,
};
use cyvra_core::application_data::sorted_distinct;
use cyvra_core::battery_probe::BatteryProbe;
use cyvra_core::capture_probe::CaptureProbe;
use cyvra_core::cpu_memory::CpuMemoryProbe;
use cyvra_core::diagnostics::{CustomerAdvanceScan, STAGES};
use cyvra_core::display_radio::DisplayRadioProbe;
use cyvra_core::hardware_diagnostics_v1::{DeviceForm, DomainApplicability, ElevationState};
use cyvra_core::storage_health::StorageProbe;
use cyvra_core::usb_topology::UsbProbe;

const OFF: &str = "This probe runs only on Windows.";

fn no_attestations() -> InteractiveAttestations {
    InteractiveAttestations {
        physical_ports: PhysicalPortAttestation::NotAttempted,
        port_awarded: 0,
        port_assessed: 0,
        screen_awarded: 0,
        screen_assessed: 0,
    }
}

fn points() -> RadioPoints {
    RadioPoints { usb_topology: 2, wifi: 2, bluetooth: 1, ethernet: 1 }
}

fn declined_bench() -> BenchSummary {
    BenchSummary {
        cpu: "Declined".to_string(),
        memory: "Declined".to_string(),
        sequential: "Declined".to_string(),
        random: "Declined".to_string(),
        write: "Declined".to_string(),
        file_removed: true,
        pattern_passed: None,
    }
}

/// Advance scan with every probe unavailable, as it runs off Windows.
fn silent_scan(record: DiagnosticsRecord, interactive: InteractiveAttestations) -> CustomerAdvanceScan {
    build_customer_scan(
        &record,
        &BatteryProbe::unavailable(OFF),
        &StorageProbe::unavailable(OFF),
        None,
        &UsbProbe::unavailable(OFF),
        &DisplayRadioProbe::unavailable(OFF),
        &CaptureProbe::unavailable(OFF),
        &CpuMemoryProbe::unavailable(OFF),
        &declined_bench(),
        timed(),
        interactive,
        points(),
        DeviceForm::Unknown,
    )
}

fn timed() -> Timed {
    Timed {
        clock_points: None,
        bandwidth_points: None,
        pattern_passed: None,
        identity_points: IdentityPoints { processor_identity: 4, memory_inventory: 5, memory_pattern: 7 },
    }
}

fn default_record() -> DiagnosticsRecord {
    DiagnosticsRecord {
        elevation: ElevationState::NotRequested,
        benchmarks_consented: false,
        write_benchmark_consented: false,
        bytes_written: 0,
    }
}

#[test]
fn advance_scan_is_non_destructive_and_writes_nothing() {
    let outcome = silent_scan(default_record(), no_attestations());

    assert!(outcome.ok);
    assert!(!outcome.destructive_operations_enabled);
    assert!(!outcome.content_inspected);
    assert_eq!(outcome.bytes_written, 0);
    assert!(outcome.boundary_note.contains("No data was erased"));
    assert!(outcome.grade_withheld);
    assert_eq!(outcome.coverage_domains.len(), 6);
}

#[test]
fn a_write_without_consent_stops_the_scan() {
    let record = DiagnosticsRecord { bytes_written: 4096, ..default_record() };
    let outcome = silent_scan(record, no_attestations());
    assert!(!outcome.ok);
    assert!(outcome.message.contains("without consent"));
}

#[test]
fn attested_checks_score_ports_and_screen() {
    let interactive = InteractiveAttestations {
        physical_ports: PhysicalPortAttestation::AllPassed,
        port_awarded: 4,
        port_assessed: 4,
        screen_awarded: 15,
        screen_assessed: 15,
    };
    let outcome = silent_scan(default_record(), interactive);
    let screen = outcome
        .coverage_domains
        .iter()
        .find(|domain| domain.domain == "Screen, keyboard and peripherals")
        .expect("screen domain");
    assert_eq!((screen.awarded, screen.assessed), (15, 15));
    let ports = outcome
        .coverage_domains
        .iter()
        .find(|domain| domain.domain == "Ports and connectivity")
        .expect("ports domain");
    assert_eq!((ports.awarded, ports.assessed), (4, 4));
    assert_eq!(
        ports.note,
        "all attempted ports passed. 4 of 4 assessed ports points awarded (4 of 10). MAC addresses were not collected."
    );
}

#[test]
fn progress_visits_every_stage_in_order_and_ends_at_one_hundred() {
    let mut seen: Vec<(u8, u8, String, AdvanceWork)> = Vec::new();
    let mut state = advance_start(false);
    let mut event = AdvanceEvent::Proceed;
    loop {
        let (next, action) = advance_step(&state, event);
        state = next;
        event = AdvanceEvent::Proceed;
        match action {
            AdvanceAction::Finished => break,
            AdvanceAction::Report { percent, index, stage, detail, work, .. } => {
                assert!(!detail.is_empty(), "stage {stage} reported no detail");
                assert_eq!(stage, STAGES[index as usize]);
                assert_eq!(percent, 10 * index);
                if work == AdvanceWork::Score {
                    event = AdvanceEvent::Scored { grade_withheld: true };
                }
                if index == 10 {
                    assert_eq!(detail, "Report D is ready. No grade was issued.");
                }
                seen.push((percent, index, stage.to_string(), work));
            }
        }
    }
    let indices: Vec<u8> = seen.iter().map(|(_, index, _, _)| *index).collect();
    for step in 0..STAGES.len() {
        assert!(indices.contains(&(step as u8)), "stage {step} was never reported");
    }
    assert!(indices.windows(2).all(|pair| pair[0] <= pair[1]));
    assert_eq!(seen.first().expect("first").0, 0);
    assert_eq!(seen.last().expect("last").0, 100);
    assert_eq!(seen.last().expect("last").2, "Preparing Report D".to_string());
    assert_eq!(seen.iter().filter(|(_, index, _, _)| *index == 5).count(), 2);
    assert_eq!(advance_step(&state, AdvanceEvent::Proceed).1, AdvanceAction::Finished);
}

#[test]
fn cancellation_is_carried_to_every_later_collector() {
    let state = advance_start(true);
    let (state, first) = advance_step(&state, AdvanceEvent::Proceed);
    assert!(matches!(first, AdvanceAction::Report { cancelled: false, work: AdvanceWork::Nothing, .. }));
    let (state, second) = advance_step(&state, AdvanceEvent::Cancel);
    assert!(matches!(second, AdvanceAction::Report { cancelled: true, work: AdvanceWork::Battery, index: 1, .. }));
    let (_, third) = advance_step(&state, AdvanceEvent::Proceed);
    assert!(matches!(third, AdvanceAction::Report { cancelled: true, work: AdvanceWork::Identity, .. }));
}

#[test]
fn consented_benchmarks_are_announced_as_running() {
    let mut state = advance_start(true);
    for _ in 0..9 {
        state = advance_step(&state, AdvanceEvent::Proceed).0;
    }
    match advance_step(&state, AdvanceEvent::Proceed).1 {
        AdvanceAction::Report { index, detail, work, .. } => {
            assert_eq!(index, 8);
            assert_eq!(work, AdvanceWork::Benchmarks);
            assert!(detail.starts_with("Running consented CPU"));
        }
        AdvanceAction::Finished => panic!("the scan ended early"),
    }
}

#[test]
fn sorted_distinct_orders_and_removes_repeats() {
    let items: Vec<String> = ["C:\\b", "C:\\a", "C:\\b", "C:\\a\\x"].iter().map(|s| s.to_string()).collect();
    assert_eq!(sorted_distinct(&items), vec!["C:\\a", "C:\\a\\x", "C:\\b"]);
    assert!(sorted_distinct(&Vec::new()).is_empty());
}

#[test]
fn a_failed_pattern_check_scores_memory_zero_of_fifteen() {
    let e = memory_evidence(&CpuMemoryProbe::unavailable(OFF), Some(false), Some(3), timed().identity_points);
    assert_eq!((e.awarded, e.assessed), (0, 15));
    assert!(e.note.expect("note").contains("spot check failed"));
}

#[test]
fn workloads_alone_assess_memory_and_processor() {
    let id = CpuMemoryProbe::unavailable(OFF);
    let memory = memory_evidence(&id, Some(true), Some(2), timed().identity_points);
    assert_eq!((memory.awarded, memory.assessed), (9, 10));
    let processor = processor_evidence(&id, Some(12), timed().identity_points);
    assert_eq!((processor.awarded, processor.assessed), (12, 16));
    let none = processor_evidence(&id, None, timed().identity_points);
    assert_eq!((none.awarded, none.assessed), (0, 0));
    assert_eq!(none.note.as_deref(), Some("The processor identity probe could not run on this PC"));
}

#[test]
fn storage_points_count_only_when_a_drive_can_be_scored() {
    let e = storage_evidence(&StorageProbe::unavailable(OFF), Some(20));
    assert_eq!(e.applicability, DomainApplicability::Assessable);
    assert_eq!((e.awarded, e.assessed), (0, 0));
}
