use cyvra_core::application_data::ApplicationDataInventory;
use cyvra_core::cpu::CpuProfile;
use cyvra_core::device::DeviceIdentity;
use cyvra_core::encryption::EncryptionProfile;
use cyvra_core::os::OsProfile;
use cyvra_core::personal_data::{DataLocation, PersonalDataInventory};
use cyvra_core::storage::StorageProfile;
use cyvra_core::user_profiles::{UserProfile, UserProfileInventory};
use cyvra_core::volume::VolumeProfile;
use cyvra_core::{
    filter_volumes, letter_key, path_matches_letters, profile_paths, run_scan_selected,
    run_scan_with, scanned_drive_label, volume_roots, PlatformAdapter, ScanProgress,
};

struct FixtureAdapter;

impl PlatformAdapter for FixtureAdapter {
    fn collect_device(&self) -> DeviceIdentity {
        DeviceIdentity {
            hostname: "fixture-device".to_string(),
            platform: "windows",
            architecture: "x86_64",
            manufacturer: "CYVORIQ Fixture".to_string(),
            model: "Model 1".to_string(),
            serial_number: "fixture-local-only".to_string(),
        }
    }

    fn collect_os(&self) -> OsProfile {
        OsProfile {
            operating_system: "windows",
            family: "windows",
            architecture: "x86_64",
            caption: "Windows fixture".to_string(),
            version: "10.0".to_string(),
            build_number: "fixture".to_string(),
        }
    }

    fn collect_cpu(&self) -> CpuProfile {
        CpuProfile {
            name: "Fixture CPU".to_string(),
            manufacturer: "Fixture".to_string(),
            cores: 4,
            logical_processors: 8,
            address_width: 64,
        }
    }

    fn collect_storage(&self) -> StorageProfile {
        StorageProfile {
            discovery_status: "completed".to_string(),
            destructive_operations_enabled: false,
            note: "Read-only fixture.".to_string(),
            disks: Vec::new(),
        }
    }

    fn collect_volumes(&self) -> Vec<VolumeProfile> {
        Vec::new()
    }

    fn collect_encryption(&self) -> EncryptionProfile {
        EncryptionProfile {
            collection_status: "completed".to_string(),
            note: "No recovery material collected.".to_string(),
            volumes: Vec::new(),
        }
    }

    fn collect_user_profiles(&self) -> UserProfileInventory {
        UserProfileInventory {
            discovery_status: "completed".to_string(),
            current_user: "fixture-user".to_string(),
            current_profile: r"C:\Users\Fixture".to_string(),
            profiles: Vec::new(),
        }
    }

    fn collect_personal_data(
        &self,
        _profile_paths: &[String],
        _volume_roots: &[String],
    ) -> PersonalDataInventory {
        PersonalDataInventory {
            discovery_status: "completed".to_string(),
            content_inspected: false,
            locations: Vec::new(),
            inaccessible_entries: 0,
        }
    }

    fn collect_application_data(&self, _profile_paths: &[String]) -> ApplicationDataInventory {
        ApplicationDataInventory {
            discovery_status: "completed".to_string(),
            content_inspected: false,
            locations: Vec::new(),
            inaccessible_entries: 0,
        }
    }
}

fn volume(letter: &str) -> VolumeProfile {
    VolumeProfile {
        drive_letter: letter.to_string(),
        label: "Data".to_string(),
        file_system: "NTFS".to_string(),
        size_bytes: 10,
        free_bytes: 5,
        health_status: "Healthy".to_string(),
        drive_kind: "internal".to_string(),
    }
}

#[test]
fn profile_paths_exclude_special_unknown_and_duplicates() {
    let inventory = UserProfileInventory {
        discovery_status: "fixture".to_string(),
        current_user: "fixture-user".to_string(),
        current_profile: r"C:\Users\Alex".to_string(),
        profiles: vec![
            UserProfile {
                sid: "S-1".to_string(),
                path: r"C:\Users\Alex".to_string(),
                loaded: true,
                special: false,
            },
            UserProfile {
                sid: "S-2".to_string(),
                path: r"C:\Windows\System32\config\systemprofile".to_string(),
                loaded: true,
                special: true,
            },
            UserProfile {
                sid: "S-3".to_string(),
                path: "unknown".to_string(),
                loaded: false,
                special: false,
            },
        ],
    };

    assert_eq!(profile_paths(&inventory), vec![r"C:\Users\Alex".to_string()]);
}

#[test]
fn typed_core_keeps_hardware_uncollected_and_destructive_work_disabled() {
    let scan = run_scan_with(&FixtureAdapter, 1_700_000_000);

    assert!(scan.hardware_inventory.is_none());
    assert!(!scan.storage.destructive_operations_enabled);
    assert!(!scan.personal_data.content_inspected);
    assert!(!scan.application_data.content_inspected);

    let report = scan.render_json();
    assert!(report.contains(r#""product": "CYVRA Erase Verification""#));
    assert!(report.contains(r#""agentVersion": "0.2.1""#));
    assert!(report.contains(r#""scanMode": "non_destructive""#));
    assert!(report.contains(r#""destructiveOperationsEnabled": false"#));
    assert!(report.contains(r#""collectedAtUnix": 1700000000"#));
    assert!(report.contains(r#""pdem": {"schemaVersion":"pdem-1.2","collectionStatus":"completed","objects":[],"relationshipCount":0}"#));
}

#[test]
fn profile_paths_are_sorted_and_include_the_current_profile() {
    let inventory = UserProfileInventory {
        discovery_status: "fixture".to_string(),
        current_user: "b".to_string(),
        current_profile: r"C:\Users\Bea".to_string(),
        profiles: vec![
            UserProfile { sid: "S-1".to_string(), path: r"D:\Users\Zed".to_string(), loaded: true, special: false },
            UserProfile { sid: "S-2".to_string(), path: r"C:\Users\Al".to_string(), loaded: true, special: false },
            UserProfile { sid: "S-3".to_string(), path: r"C:\Users\Al".to_string(), loaded: false, special: false },
        ],
    };
    assert_eq!(
        profile_paths(&inventory),
        vec![r"C:\Users\Al".to_string(), r"C:\Users\Bea".to_string(), r"D:\Users\Zed".to_string()]
    );
}

#[test]
fn drive_letters_are_matched_by_their_first_letter() {
    assert_eq!(letter_key(" d:"), "D");
    assert_eq!(letter_key("12"), "");
    assert!(path_matches_letters(r"c:\Users\Al", &["C".to_string()]));
    assert!(!path_matches_letters(r"D:\Users\Al", &["C:".to_string()]));
    let chosen = filter_volumes(&[volume("C"), volume("D")], Some(&["d".to_string()]));
    assert_eq!(chosen.len(), 1);
    assert_eq!(chosen[0].drive_letter, "D");
    assert_eq!(filter_volumes(&[volume("C"), volume("D")], None).len(), 2);
}

#[test]
fn roots_and_labels_skip_unknown_letters() {
    let volumes = [volume("C"), volume("unknown"), volume("E")];
    assert_eq!(volume_roots(&volumes), vec![r"C:\".to_string(), r"E:\".to_string()]);
    assert_eq!(scanned_drive_label(&volumes), "C:, E:");
    assert_eq!(scanned_drive_label(&[volume("unknown")]), "the selected drive");
}

#[test]
fn a_selected_scan_keeps_only_the_chosen_drives() {
    let mut progress = Recorder(Vec::new());
    let scan = run_scan_selected(&FixtureAdapter, Some(&["D".to_string()]), 5, &mut progress);
    assert!(scan.volumes.is_empty());
    assert_eq!(scan.evidence.collected_at_unix, 5);
    assert_eq!(scan.pdem.objects.len(), 0);
    let _ = DataLocation {
        path: String::new(),
        category: String::new(),
        classification: String::new(),
        source: String::new(),
        confidence: String::new(),
        file_count: 0,
        total_bytes: 0,
        scan_status: String::new(),
    };
}

struct Recorder(Vec<(u8, u8, String, String)>);

impl ScanProgress for Recorder {
    fn report(&mut self, percent: u8, index: u8, stage: &str, detail: &str) {
        self.0.push((percent, index, stage.to_string(), detail.to_string()));
    }
}

#[test]
fn a_scan_reports_every_stage_in_order() {
    let mut progress = Recorder(Vec::new());
    let _ = run_scan_selected(&FixtureAdapter, None, 7, &mut progress);
    let percents: Vec<u8> = progress.0.iter().map(|(percent, _, _, _)| *percent).collect();
    assert_eq!(percents, vec![6, 14, 28, 48, 62, 76, 86, 93, 100]);
    let indices: Vec<u8> = progress.0.iter().map(|(_, index, _, _)| *index).collect();
    assert_eq!(indices, vec![0, 1, 2, 3, 3, 4, 5, 6, 7]);
    assert_eq!(progress.0[0].2, "Preparing verification");
    assert!(progress.0[3].3.starts_with("Looking for documents and known file types on "));
    assert_eq!(progress.0.last().expect("last").2, "Preparing results");
}
