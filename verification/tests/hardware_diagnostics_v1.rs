use cyvra_core::hardware_diagnostics_v1::{
    evaluate, CriticalFault, DeviceForm, DiagnosticDomain, DomainEvidence, GradeBand,
};
use cyvra_core::hardware_inventory_v1::Confidence;

fn all_not_assessable() -> Vec<DomainEvidence> {
    DiagnosticDomain::ALL
        .iter()
        .map(|domain| DomainEvidence::not_assessable(*domain, "not collected in this scan"))
        .collect()
}

#[test]
fn domain_weights_total_one_hundred() {
    let total: u32 = DiagnosticDomain::ALL
        .iter()
        .map(|domain| domain.weight())
        .sum();

    assert_eq!(total, 100);
}

#[test]
fn nothing_assessable_withholds_the_grade_and_never_scores_zero() {
    let summary = evaluate(&all_not_assessable(), DeviceForm::Portable, &[]);

    assert_eq!(summary.band, GradeBand::NotGradable);
    assert!(summary.is_withheld());
    assert_eq!(summary.index_percent, None);
    assert_eq!(summary.coverage_percent, 0);
    assert_eq!(summary.not_assessable_points, 100);
    assert!(summary.withheld_reason.is_some());
    assert_eq!(summary.engine, "CYVRA Grading Engine");
}

#[test]
fn unreadable_storage_is_withheld_not_failed() {
    let mut evidence = vec![
        DomainEvidence::measured(DiagnosticDomain::BatteryAndPower, 20, 20, Confidence::High),
        DomainEvidence::measured(DiagnosticDomain::ProcessorAndThermal, 20, 20, Confidence::High),
        DomainEvidence::measured(DiagnosticDomain::MemoryIntegrity, 15, 15, Confidence::High),
        DomainEvidence::measured(DiagnosticDomain::PortsAndConnectivity, 10, 10, Confidence::High),
        DomainEvidence::measured(DiagnosticDomain::ScreenAndPeripherals, 15, 15, Confidence::High),
    ];
    evidence.push(DomainEvidence::not_assessable(
        DiagnosticDomain::StorageHealth,
        "administrator approval was declined",
    ));

    let summary = evaluate(&evidence, DeviceForm::Portable, &[]);

    assert_eq!(summary.band, GradeBand::NotGradable);
    assert_ne!(summary.band, GradeBand::F);
    assert_eq!(summary.index_percent, Some(100));
    assert_eq!(summary.coverage_percent, 80);
}

#[test]
fn desktop_without_a_battery_is_still_gradable() {
    let evidence = vec![
        DomainEvidence::not_applicable(DiagnosticDomain::BatteryAndPower, "no battery on this chassis"),
        DomainEvidence::measured(DiagnosticDomain::ProcessorAndThermal, 18, 20, Confidence::High),
        DomainEvidence::measured(DiagnosticDomain::MemoryIntegrity, 15, 15, Confidence::High),
        DomainEvidence::measured(DiagnosticDomain::StorageHealth, 20, 20, Confidence::High),
        DomainEvidence::measured(DiagnosticDomain::PortsAndConnectivity, 8, 10, Confidence::Medium),
        DomainEvidence::measured(DiagnosticDomain::ScreenAndPeripherals, 13, 15, Confidence::Medium),
    ];

    let summary = evaluate(&evidence, DeviceForm::Fixed, &[]);

    assert_eq!(summary.in_scope_points, 80);
    assert_eq!(summary.assessed_points, 80);
    assert_eq!(summary.coverage_percent, 100);
    assert_eq!(summary.index_percent, Some(93));
    assert_eq!(summary.band, GradeBand::APlus);
}

#[test]
fn a_measured_critical_fault_forces_f_even_with_a_high_index() {
    let evidence = vec![
        DomainEvidence::measured(DiagnosticDomain::BatteryAndPower, 20, 20, Confidence::High),
        DomainEvidence::measured(DiagnosticDomain::ProcessorAndThermal, 20, 20, Confidence::High),
        DomainEvidence::measured(DiagnosticDomain::MemoryIntegrity, 15, 15, Confidence::High),
        DomainEvidence::measured(DiagnosticDomain::StorageHealth, 20, 20, Confidence::High),
        DomainEvidence::measured(DiagnosticDomain::PortsAndConnectivity, 10, 10, Confidence::High),
        DomainEvidence::measured(DiagnosticDomain::ScreenAndPeripherals, 15, 15, Confidence::High),
    ];

    let summary = evaluate(
        &evidence,
        DeviceForm::Portable,
        &[CriticalFault::StoragePredictsFailure],
    );

    assert_eq!(summary.index_percent, Some(100));
    assert_eq!(summary.band, GradeBand::F);
    assert_eq!(summary.criticals.len(), 1);
}

#[test]
fn coverage_below_the_floor_withholds_the_grade() {
    let evidence = vec![
        DomainEvidence::measured(DiagnosticDomain::StorageHealth, 20, 20, Confidence::High),
        DomainEvidence::measured(DiagnosticDomain::BatteryAndPower, 20, 20, Confidence::High),
        DomainEvidence::not_assessable(DiagnosticDomain::ProcessorAndThermal, "benchmark declined"),
        DomainEvidence::not_assessable(DiagnosticDomain::MemoryIntegrity, "benchmark declined"),
        DomainEvidence::not_assessable(DiagnosticDomain::PortsAndConnectivity, "not attempted"),
        DomainEvidence::not_assessable(DiagnosticDomain::ScreenAndPeripherals, "not attempted"),
    ];

    let summary = evaluate(&evidence, DeviceForm::Portable, &[]);

    assert_eq!(summary.coverage_percent, 40);
    assert_eq!(summary.band, GradeBand::NotGradable);
    assert!(summary
        .withheld_reason
        .as_deref()
        .unwrap_or_default()
        .contains("40%"));
}

#[test]
fn evidence_cannot_award_more_than_it_assessed() {
    let inflated =
        DomainEvidence::measured(DiagnosticDomain::MemoryIntegrity, 99, 99, Confidence::High);

    assert_eq!(inflated.assessed, 15);
    assert_eq!(inflated.awarded, 15);
    assert!(inflated.is_consistent());
}

#[test]
fn every_evidence_shape_keeps_the_points_invariant() {
    let shapes = vec![
        DomainEvidence::not_assessable(DiagnosticDomain::StorageHealth, "gap"),
        DomainEvidence::not_applicable(DiagnosticDomain::BatteryAndPower, "desktop"),
        DomainEvidence::measured(DiagnosticDomain::PortsAndConnectivity, 4, 6, Confidence::Low),
    ];

    for shape in shapes {
        assert!(shape.is_consistent(), "{shape:?} broke the points invariant");
    }
}

#[test]
fn band_edges_follow_the_rubric() {
    assert_eq!(GradeBand::from_index(100), GradeBand::APlus);
    assert_eq!(GradeBand::from_index(90), GradeBand::APlus);
    assert_eq!(GradeBand::from_index(89), GradeBand::A);
    assert_eq!(GradeBand::from_index(80), GradeBand::A);
    assert_eq!(GradeBand::from_index(79), GradeBand::B);
    assert_eq!(GradeBand::from_index(65), GradeBand::B);
    assert_eq!(GradeBand::from_index(64), GradeBand::C);
    assert_eq!(GradeBand::from_index(50), GradeBand::C);
    assert_eq!(GradeBand::from_index(49), GradeBand::F);
}

#[test]
fn mandatory_storage_gap_is_named_in_the_reason() {
    let evidence = vec![
        DomainEvidence::measured(DiagnosticDomain::BatteryAndPower, 20, 20, Confidence::High),
        DomainEvidence::not_assessable(DiagnosticDomain::StorageHealth, "declined"),
    ];
    let summary = evaluate(&evidence, DeviceForm::Portable, &[]);
    assert_eq!(summary.band, GradeBand::NotGradable);
    assert!(summary.withheld_reason.unwrap().contains("Storage health and SMART"));
}

#[test]
fn mandatory_domains_follow_the_chassis() {
    assert!(DiagnosticDomain::StorageHealth.is_mandatory_for(DeviceForm::Fixed));
    assert!(DiagnosticDomain::BatteryAndPower.is_mandatory_for(DeviceForm::Portable));
    assert!(!DiagnosticDomain::BatteryAndPower.is_mandatory_for(DeviceForm::Fixed));
    assert!(!DiagnosticDomain::MemoryIntegrity.is_mandatory_for(DeviceForm::Portable));
}
