//! Media class for Mode S. Unknown, optical and network are refused.

use vstd::prelude::*;
use crate::text::{chars_of, contains, contains_str, eq_str, lower_seq, lower_vec};

verus! {

#[derive(Debug, Clone, Copy, PartialEq, Eq, Structural)]
pub enum MediaClass {
    MagneticHdd,
    SataSsd,
    Nvme,
    UsbHdd,
    UsbFlash,
    Optical,
    Network,
    SystemDisk,
    Unknown,
}

#[derive(Debug, Clone, Copy, PartialEq, Eq, Structural)]
pub enum MethodClass {
    AtaSecureErase,
    NvmeSanitize,
    OverwriteClear,
    Refused,
}

impl MediaClass {
    /// The media classes that Mode S may sanitise at all.
    pub open spec fn allowed(self) -> bool {
        matches!(
            self,
            MediaClass::MagneticHdd | MediaClass::SataSsd | MediaClass::Nvme | MediaClass::UsbHdd
                | MediaClass::UsbFlash
        )
    }

    /// Attached USB or removable media.
    pub open spec fn is_usb(self) -> bool {
        matches!(self, MediaClass::UsbHdd | MediaClass::UsbFlash)
    }

    pub fn as_label(self) -> (s: &'static str)
        ensures
            s@ == self.label(),
    {
        match self {
            MediaClass::MagneticHdd => "Magnetic HDD",
            MediaClass::SataSsd => "SATA SSD",
            MediaClass::Nvme => "NVMe SSD",
            MediaClass::UsbHdd => "USB hard disk",
            MediaClass::UsbFlash => "USB flash",
            MediaClass::Optical => "Optical drive",
            MediaClass::Network => "Network location",
            MediaClass::SystemDisk => "Windows system disk",
            MediaClass::Unknown => "Unknown media",
        }
    }

    pub open spec fn label(self) -> Seq<char> {
        match self {
            MediaClass::MagneticHdd => "Magnetic HDD"@,
            MediaClass::SataSsd => "SATA SSD"@,
            MediaClass::Nvme => "NVMe SSD"@,
            MediaClass::UsbHdd => "USB hard disk"@,
            MediaClass::UsbFlash => "USB flash"@,
            MediaClass::Optical => "Optical drive"@,
            MediaClass::Network => "Network location"@,
            MediaClass::SystemDisk => "Windows system disk"@,
            MediaClass::Unknown => "Unknown media"@,
        }
    }

    /// The key written into a helper plan file.
    pub open spec fn key(self) -> Seq<char> {
        match self {
            MediaClass::MagneticHdd => "magnetic_hdd"@,
            MediaClass::SataSsd => "sata_ssd"@,
            MediaClass::Nvme => "nvme"@,
            MediaClass::UsbHdd => "usb_hdd"@,
            MediaClass::UsbFlash => "usb_flash"@,
            MediaClass::Optical => "optical"@,
            MediaClass::Network => "network"@,
            MediaClass::SystemDisk => "system_disk"@,
            MediaClass::Unknown => "unknown"@,
        }
    }

    pub fn as_key(self) -> (s: &'static str)
        ensures
            s@ == self.key(),
    {
        match self {
            MediaClass::MagneticHdd => "magnetic_hdd",
            MediaClass::SataSsd => "sata_ssd",
            MediaClass::Nvme => "nvme",
            MediaClass::UsbHdd => "usb_hdd",
            MediaClass::UsbFlash => "usb_flash",
            MediaClass::Optical => "optical",
            MediaClass::Network => "network",
            MediaClass::SystemDisk => "system_disk",
            MediaClass::Unknown => "unknown",
        }
    }

    pub fn mode_s_allowed(self) -> (r: bool)
        ensures
            r == self.allowed(),
    {
        match self {
            MediaClass::MagneticHdd | MediaClass::SataSsd | MediaClass::Nvme | MediaClass::UsbHdd
            | MediaClass::UsbFlash => true,
            _ => false,
        }
    }
}

impl MethodClass {
    pub open spec fn label(self) -> Seq<char> {
        match self {
            MethodClass::AtaSecureErase => "ATA SECURITY ERASE UNIT"@,
            MethodClass::NvmeSanitize => "NVMe Sanitize (Block Erase)"@,
            MethodClass::OverwriteClear => "Single-pass overwrite (NIST Clear) — not Purge"@,
            MethodClass::Refused => "Refused"@,
        }
    }

    pub open spec fn standard_text(self) -> Seq<char> {
        match self {
            MethodClass::AtaSecureErase => "NIST SP 800-88 Rev. 1 Purge"@,
            MethodClass::NvmeSanitize => "NIST SP 800-88 Rev. 1 Purge / IEEE 2883-2022"@,
            MethodClass::OverwriteClear => "NIST SP 800-88 Rev. 1 Clear"@,
            MethodClass::Refused => "None"@,
        }
    }

    /// A firmware Purge, as opposed to a Clear or a refusal.
    pub open spec fn purges(self) -> bool {
        matches!(self, MethodClass::AtaSecureErase | MethodClass::NvmeSanitize)
    }

    pub fn as_label(self) -> (s: &'static str)
        ensures
            s@ == self.label(),
    {
        match self {
            MethodClass::AtaSecureErase => "ATA SECURITY ERASE UNIT",
            MethodClass::NvmeSanitize => "NVMe Sanitize (Block Erase)",
            MethodClass::OverwriteClear => "Single-pass overwrite (NIST Clear) — not Purge",
            MethodClass::Refused => "Refused",
        }
    }

    pub fn standard(self) -> (s: &'static str)
        ensures
            s@ == self.standard_text(),
    {
        match self {
            MethodClass::AtaSecureErase => "NIST SP 800-88 Rev. 1 Purge",
            MethodClass::NvmeSanitize => "NIST SP 800-88 Rev. 1 Purge / IEEE 2883-2022",
            MethodClass::OverwriteClear => "NIST SP 800-88 Rev. 1 Clear",
            MethodClass::Refused => "None",
        }
    }

    pub fn is_purge(self) -> (r: bool)
        ensures
            r == self.purges(),
    {
        match self {
            MethodClass::AtaSecureErase | MethodClass::NvmeSanitize => true,
            _ => false,
        }
    }
}

/// The media class of a volume, from what Windows reports about it: the
/// system disk first, then optical and network drives by kind, then the bus,
/// media and model text (compared case-insensitively).
pub open spec fn classify_spec(
    is_system: bool,
    drive_kind: Seq<char>,
    interface_type: Seq<char>,
    media_type: Seq<char>,
    model: Seq<char>,
) -> MediaClass {
    let kind = lower_seq(drive_kind);
    let iface = lower_seq(interface_type);
    let media = lower_seq(media_type);
    let model_l = lower_seq(model);
    let looks_nvme = contains(iface, "nvme"@) || contains(model_l, "nvme"@);
    let looks_ssd = contains(media, "ssd"@) || contains(model_l, "ssd"@) || contains(media, "solid"@)
        || contains(iface, "nvme"@);
    let looks_usb = contains(iface, "usb"@) || kind == "removable"@;
    let looks_flash = contains(model_l, "flash"@) || contains(model_l, "usb disk"@) || contains(
        media,
        "removable"@,
    );
    if is_system {
        MediaClass::SystemDisk
    } else if kind == "optical"@ {
        MediaClass::Optical
    } else if kind == "network"@ {
        MediaClass::Network
    } else if looks_nvme {
        MediaClass::Nvme
    } else if looks_usb && looks_ssd && !looks_flash {
        MediaClass::SataSsd
    } else if looks_usb && looks_flash && !contains(media, "hard"@) {
        MediaClass::UsbFlash
    } else if looks_usb {
        if looks_ssd {
            MediaClass::SataSsd
        } else {
            MediaClass::UsbHdd
        }
    } else if looks_ssd {
        MediaClass::SataSsd
    } else if kind == "internal"@ || contains(media, "hard"@) || contains(iface, "ide"@) || contains(
        iface,
        "sata"@,
    ) {
        MediaClass::MagneticHdd
    } else if kind == "removable"@ {
        MediaClass::UsbHdd
    } else {
        MediaClass::Unknown
    }
}

/// The only method each media class may be sanitised with.
pub open spec fn method_spec(class: MediaClass) -> MethodClass {
    match class {
        MediaClass::MagneticHdd | MediaClass::UsbHdd | MediaClass::UsbFlash => MethodClass::OverwriteClear,
        MediaClass::SataSsd => MethodClass::AtaSecureErase,
        MediaClass::Nvme => MethodClass::NvmeSanitize,
        _ => MethodClass::Refused,
    }
}

pub fn classify(
    is_system: bool,
    drive_kind: &str,
    interface_type: &str,
    media_type: &str,
    model: &str,
) -> (class: MediaClass)
    ensures
        class == classify_spec(is_system, drive_kind@, interface_type@, media_type@, model@),
        is_system ==> class == MediaClass::SystemDisk,
{
    if is_system {
        return MediaClass::SystemDisk;
    }
    let kind = lower_vec(&chars_of(drive_kind));
    if eq_str(&kind, "optical") {
        return MediaClass::Optical;
    }
    if eq_str(&kind, "network") {
        return MediaClass::Network;
    }
    let iface = lower_vec(&chars_of(interface_type));
    let media = lower_vec(&chars_of(media_type));
    let model_l = lower_vec(&chars_of(model));
    let looks_nvme = contains_str(&iface, "nvme") || contains_str(&model_l, "nvme");
    let looks_ssd = contains_str(&media, "ssd") || contains_str(&model_l, "ssd") || contains_str(
        &media,
        "solid",
    ) || contains_str(&iface, "nvme");
    let looks_usb = contains_str(&iface, "usb") || eq_str(&kind, "removable");
    let looks_flash = contains_str(&model_l, "flash") || contains_str(&model_l, "usb disk")
        || contains_str(&media, "removable");
    if looks_nvme {
        return MediaClass::Nvme;
    }
    if looks_usb && looks_ssd && !looks_flash {
        return MediaClass::SataSsd;
    }
    if looks_usb && looks_flash && !contains_str(&media, "hard") {
        return MediaClass::UsbFlash;
    }
    if looks_usb {
        return if looks_ssd {
            MediaClass::SataSsd
        } else {
            MediaClass::UsbHdd
        };
    }
    if looks_ssd {
        return MediaClass::SataSsd;
    }
    if eq_str(&kind, "internal") || contains_str(&media, "hard") || contains_str(&iface, "ide")
        || contains_str(&iface, "sata") {
        return MediaClass::MagneticHdd;
    }
    if eq_str(&kind, "removable") {
        return MediaClass::UsbHdd;
    }
    MediaClass::Unknown
}

pub fn method_for(class: MediaClass) -> (m: MethodClass)
    ensures
        m == method_spec(class),
{
    match class {
        MediaClass::MagneticHdd | MediaClass::UsbHdd | MediaClass::UsbFlash => MethodClass::OverwriteClear,
        MediaClass::SataSsd => MethodClass::AtaSecureErase,
        MediaClass::Nvme => MethodClass::NvmeSanitize,
        MediaClass::Optical | MediaClass::Network | MediaClass::SystemDisk | MediaClass::Unknown => {
            MethodClass::Refused
        },
    }
}

/// A class gets a method exactly when Mode S may sanitise it, and only SSDs
/// are purged; everything else that is allowed is cleared by overwrite.
pub proof fn method_matches_permission(class: MediaClass)
    ensures
        (method_spec(class) == MethodClass::Refused) <==> !class.allowed(),
        method_spec(class).purges() <==> (class == MediaClass::SataSsd || class == MediaClass::Nvme),
        class.is_usb() ==> method_spec(class) == MethodClass::OverwriteClear,
{
}

/// An extra disk that is not on USB, not removable, not NVMe, and that
/// Windows calls an SSD or solid-state drive (by media type or model) is
/// a SATA SSD and is purged with ATA Secure Erase, never merely
/// overwritten.
pub proof fn solid_state_disks_are_purged(
    drive_kind: Seq<char>,
    interface_type: Seq<char>,
    media_type: Seq<char>,
    model: Seq<char>,
)
    requires
        lower_seq(drive_kind) != "optical"@,
        lower_seq(drive_kind) != "network"@,
        lower_seq(drive_kind) != "removable"@,
        !contains(lower_seq(interface_type), "usb"@),
        !contains(lower_seq(interface_type), "nvme"@),
        !contains(lower_seq(model), "nvme"@),
        contains(lower_seq(media_type), "ssd"@) || contains(lower_seq(media_type), "solid"@) || contains(
            lower_seq(model),
            "ssd"@,
        ),
    ensures
        classify_spec(false, drive_kind, interface_type, media_type, model) == MediaClass::SataSsd,
        method_spec(classify_spec(false, drive_kind, interface_type, media_type, model))
            == MethodClass::AtaSecureErase,
        method_spec(classify_spec(false, drive_kind, interface_type, media_type, model)).purges(),
{
}

/// The system disk is never a Mode S target, whatever else is reported.
pub proof fn system_disk_is_never_allowed(
    drive_kind: Seq<char>,
    interface_type: Seq<char>,
    media_type: Seq<char>,
    model: Seq<char>,
)
    ensures
        classify_spec(true, drive_kind, interface_type, media_type, model) == MediaClass::SystemDisk,
        !classify_spec(true, drive_kind, interface_type, media_type, model).allowed(),
        method_spec(classify_spec(true, drive_kind, interface_type, media_type, model))
            == MethodClass::Refused,
{
}

} // verus!
