use cyvra_core::advance_bench::{
    clocks_or_identity, cpu_after_loop, memory_status, cpu_blocked_by_battery, cpu_not_run, memory_critical,
    parse_clock_sample, pattern_byte, pattern_region, pattern_spot_check, storage_blocked,
    CLOCK_SAMPLE_SCRIPT, DECLINED,
};
use cyvra_core::battery_probe::{parse_probe as parse_battery, BatteryProbe};
use cyvra_core::cpu_memory::CpuMemoryProbe;
use cyvra_core::hardware_diagnostics_v1::CriticalFault;
use cyvra_core::storage_health::{parse_probe as parse_storage, StorageProbe};

fn hex(value: &str) -> String {
    value.as_bytes().iter().map(|byte| format!("{byte:02x}")).collect()
}

fn protocol(lines: &[(&str, usize, &str, &str)]) -> String {
    lines
        .iter()
        .map(|(section, index, name, value)| format!("{section}\t{index}\t{name}\t{}", hex(value)))
        .collect::<Vec<_>>()
        .join("\n")
}

#[test]
fn clock_sample_script_is_read_only() {
    assert!(CLOCK_SAMPLE_SCRIPT.contains("CurrentClockSpeed"));
    assert!(!CLOCK_SAMPLE_SCRIPT.contains("Format-Volume"));
}

#[test]
fn a_failed_pattern_is_the_memory_critical_fault() {
    assert_eq!(memory_critical(Some(false)), Some(CriticalFault::MemoryIntegrityMismatch));
    assert_eq!(memory_critical(Some(true)), None);
    assert_eq!(memory_critical(None), None);
}

#[test]
fn declined_workloads_report_the_declined_status() {
    let cpu = cpu_not_run(DECLINED);
    assert!(cpu.status.contains("Declined"));
    assert_eq!(cpu.ratio, None);
    assert_eq!(cpu.current_mhz, None);
}

#[test]
fn the_clock_ratio_is_a_whole_percent_rounded_down() {
    let cpu = cpu_after_loop(Some(2399), Some(2500));
    assert_eq!(cpu.ratio, Some(95));
    assert_eq!(
        cpu.status,
        "CPU workload finished. Windows reported 2399 MHz after the loop against a maximum of 2500 MHz (95% of maximum). Package temperature is not collected."
    );
    assert_eq!(cpu_after_loop(Some(1000), Some(0)).ratio, None);
    assert_eq!(cpu_after_loop(None, Some(2500)).ratio, None);
}

#[test]
fn a_critical_battery_blocks_the_cpu_loop() {
    let low: BatteryProbe = parse_battery(&protocol(&[
        ("battery", 0, "source_status", "reported"),
        ("battery", 0, "present", "True"),
        ("battery", 0, "charge_percent", "4"),
    ]));
    let identity = CpuMemoryProbe::unavailable("off");
    let blocked = cpu_blocked_by_battery(&low, &identity).expect("blocked");
    assert!(blocked.status.contains("battery charge is critical"));
    let fine: BatteryProbe = parse_battery(&protocol(&[
        ("battery", 0, "source_status", "reported"),
        ("battery", 0, "present", "True"),
        ("battery", 0, "charge_percent", "6"),
    ]));
    assert!(cpu_blocked_by_battery(&fine, &identity).is_none());
}

#[test]
fn the_last_clock_line_of_each_name_wins() {
    let text = protocol(&[
        ("cpu", 0, "current_mhz", "1200"),
        ("cpu", 0, "max_mhz", "2500"),
        ("cpu", 0, "current_mhz", "2300"),
        ("cpu", 1, "current_mhz", "9999"),
    ]);
    assert_eq!(parse_clock_sample(&text), (Some(2300), Some(2500)));
    assert_eq!(parse_clock_sample(""), (None, None));
    let identity = CpuMemoryProbe::unavailable("off");
    assert_eq!(clocks_or_identity(Some((Some(2300), Some(2500))), &identity), (Some(2300), Some(2500)));
}

#[test]
fn the_pattern_spot_check_passes_on_sound_memory() {
    let mut buffer = vec![0u8; 4096];
    assert!(pattern_spot_check(&mut buffer));
    assert_eq!(buffer[0], pattern_byte(0));
    assert_eq!(buffer[0], 0xA5);
    assert_eq!(buffer[1], 0xA5u8.wrapping_add(31));
    assert_eq!(buffer[256], buffer[0]);
}

#[test]
fn the_pattern_region_is_half_of_available_within_bounds() {
    assert_eq!(pattern_region(None), 32 * 1024 * 1024);
    assert_eq!(pattern_region(Some(1024)), 1024 * 1024);
    assert_eq!(pattern_region(Some(8 * 1024 * 1024)), 4 * 1024 * 1024);
    assert_eq!(pattern_region(Some(1u64 << 40)), 32 * 1024 * 1024);
}

#[test]
fn a_predicted_failure_blocks_storage_workloads() {
    let failing: StorageProbe = parse_storage(&protocol(&[
        ("physical", 0, "source_status", "reported"),
        ("physical", 0, "present", "True"),
        ("physical", 0, "model", "Old HDD"),
        ("physical", 0, "bus_type", "SATA"),
        ("predict", 0, "source_status", "reported"),
        ("predict", 0, "present", "True"),
        ("predict", 0, "predicts_failure", "True"),
    ]));
    assert!(storage_blocked(&failing));
    assert!(!storage_blocked(&StorageProbe::unavailable("off")));
}

#[test]
fn the_memory_status_prints_mib_to_one_decimal() {
    assert_eq!(
        memory_status(true, 32 * 1024 * 1024),
        "Memory pattern spot check passed on 32.0 MiB. This is not full-coverage memory testing; kernel-resident memory was not included."
    );
    assert!(memory_status(true, 1_572_864 + 52_429).starts_with("Memory pattern spot check passed on 1.6 MiB."));
    assert_eq!(
        memory_status(false, 1024),
        "Memory pattern spot check failed: the tested region did not match the pattern that was written."
    );
}
