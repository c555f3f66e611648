use cyvra_core::cpu_memory::{parse_probe, CpuMemoryProbe, SourceOutcome, IDENTITY_SCRIPT};

fn hex(value: &str) -> String {
    value.as_bytes().iter().map(|byte| format!("{byte:02x}")).collect()
}

struct Fixture(String);

impl Fixture {
    fn new() -> Self {
        Self(String::new())
    }

    fn line(mut self, section: &str, index: usize, name: &str, value: &str) -> Self {
        self.0.push_str(&format!("{section}\t{index}\t{name}\t{}\n", hex(value)));
        self
    }

    fn probe(&self) -> CpuMemoryProbe {
        parse_probe(&self.0)
    }
}

#[test]
fn identity_is_complete_with_model_cores_and_cache() {
    let probe = Fixture::new()
        .line("cpu", 0, "source_status", "reported")
        .line("cpu", 0, "present", "True")
        .line("cpu", 0, "name", "Intel Core i7-6500U")
        .line("cpu", 0, "cores", "2")
        .line("cpu", 0, "l3_kb", "4096")
        .line("cpu", 0, "max_mhz", "2500")
        .line("memory", 0, "source_status", "reported")
        .line("memory", 0, "total_kb", "8388608")
        .line("module", 0, "source_status", "reported")
        .line("module", 0, "present", "True")
        .line("module", 0, "locator", "ChannelA-DIMM0")
        .line("module", 0, "capacity_bytes", "4294967296")
        .line("module", 0, "speed_mhz", "2133")
        .probe();

    assert!(probe.processor.as_ref().unwrap().identity_complete());
    assert!(probe.inventory_complete());
    assert_eq!(probe.installed_bytes, Some(8_388_608 * 1024));
    assert_eq!(probe.processor.as_ref().unwrap().cache_summary().as_deref(), Some("L3 4096 KB"));
}

#[test]
fn missing_cache_is_not_a_complete_identity() {
    let probe = Fixture::new()
        .line("cpu", 0, "source_status", "reported")
        .line("cpu", 0, "present", "True")
        .line("cpu", 0, "name", "Intel")
        .line("cpu", 0, "cores", "2")
        .probe();
    assert!(!probe.processor.as_ref().unwrap().identity_complete());
    assert_eq!(probe.processor.as_ref().unwrap().cache_summary(), None);
}

#[test]
fn the_script_is_identity_only() {
    let script = IDENTITY_SCRIPT;
    assert!(script.contains("Win32_Processor"));
    assert!(script.contains("Win32_PhysicalMemory"));
    assert!(!script.contains("Format-Volume"));
    assert!(!script.contains("Clear-Disk"));
}

#[test]
fn an_unavailable_probe_claims_no_identity() {
    let probe = CpuMemoryProbe::unavailable("Processor collection is only available on Windows.");
    assert!(probe.processor.is_none());
    assert!(!probe.inventory_complete());
    for status in &probe.sources {
        assert_eq!(status.outcome, SourceOutcome::NotQueried);
    }
}
