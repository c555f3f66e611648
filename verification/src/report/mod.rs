//! The engineering JSON report of a local assessment.

use vstd::prelude::*;
use crate::assessment::AssessmentResult;
use crate::cpu::CpuProfile;
use crate::device::DeviceIdentity;
use crate::evidence::EvidenceRecord;
use crate::numtext::{dec, push_dec};
use crate::os::OsProfile;
use crate::storage::{PhysicalDisk, StorageProfile};
use crate::text::{append_all, append_str, chars_of, join, string_of};

pub mod a6;
pub mod a7;

verus! {

/// How one character is written inside a report string: backslash, quote,
/// newline, carriage return and tab are escaped; everything else stands.
pub open spec fn esc_char(c: char) -> Seq<char> {
    if c == '\\' {
        seq!['\\', '\\']
    } else if c == '"' {
        seq!['\\', '"']
    } else if c == '\n' {
        seq!['\\', 'n']
    } else if c == '\r' {
        seq!['\\', 'r']
    } else if c == '\t' {
        seq!['\\', 't']
    } else {
        seq![c]
    }
}

pub open spec fn esc(s: Seq<char>) -> Seq<char>
    decreases s.len(),
{
    if s.len() == 0 {
        Seq::<char>::empty()
    } else {
        esc(s.drop_last()) + esc_char(s.last())
    }
}

pub open spec fn bool_text(b: bool) -> Seq<char> {
    if b {
        "true"@
    } else {
        "false"@
    }
}

/// Appends `value` escaped for a report string.
pub fn push_esc(out: &mut Vec<char>, value: &str)
    ensures
        final(out)@ == old(out)@ + esc(value@),
{
    let v = chars_of(value);
    let mut i: usize = 0;
    while i < v.len()
        invariant
            i <= v@.len(),
            v@ == value@,
            out@ == old(out)@ + esc(v@.take(i as int)),
        decreases v.len() - i,
    {
        let c = v[i];
        let ghost before = out@;
        if c == '\\' {
            out.push('\\');
            out.push('\\');
        } else if c == '"' {
            out.push('\\');
            out.push('"');
        } else if c == '\n' {
            out.push('\\');
            out.push('n');
        } else if c == '\r' {
            out.push('\\');
            out.push('r');
        } else if c == '\t' {
            out.push('\\');
            out.push('t');
        } else {
            out.push(c);
        }
        assert(out@ =~= before + esc_char(c));
        assert(v@.take(i + 1).drop_last() =~= v@.take(i as int));
        i += 1;
    }
    assert(v@.take(v@.len() as int) =~= v@);
}

pub fn push_bool(out: &mut Vec<char>, b: bool)
    ensures
        final(out)@ == old(out)@ + bool_text(b),
{
    if b {
        append_str(out, "true");
    } else {
        append_str(out, "false");
    }
}

/// The items joined with `sep`, or `empty` when there are none, else
/// `open` + items + `close`.
pub open spec fn list_text(items: Seq<Seq<char>>, empty: Seq<char>, open: Seq<char>, sep: Seq<char>, close: Seq<char>) -> Seq<char> {
    if items.len() == 0 {
        empty
    } else {
        open + join(items, sep) + close
    }
}

/// Appends `parts` joined by `sep`.
pub fn push_joined(out: &mut Vec<char>, parts: &Vec<Vec<char>>, sep: &str)
    ensures
        final(out)@ == old(out)@ + join(crate::text::views(parts@), sep@),
{
    let j = crate::text::join_vec(parts, &chars_of(sep));
    append_all(out, &j);
}

pub open spec fn disk_json(d: PhysicalDisk) -> Seq<char> {
    "{\n        \"index\": "@ + dec(d.index as nat) + ",\n        \"model\": \""@ + esc(d.model@)
        + "\",\n        \"serialNumber\": \""@ + esc(d.serial_number@) + "\",\n        \"sizeBytes\": "@
        + dec(d.size_bytes as nat) + ",\n        \"interfaceType\": \""@ + esc(d.interface_type@)
        + "\",\n        \"mediaType\": \""@ + esc(d.media_type@) + "\",\n        \"firmwareRevision\": \""@
        + esc(d.firmware_revision@) + "\"\n      }"@
}

fn render_disk(d: &PhysicalDisk) -> (out: Vec<char>)
    ensures
        out@ == disk_json(*d),
{
    let mut out = chars_of("{\n        \"index\": ");
    push_dec(&mut out, d.index as u64);
    append_str(&mut out, ",\n        \"model\": \"");
    push_esc(&mut out, d.model.as_str());
    append_str(&mut out, "\",\n        \"serialNumber\": \"");
    push_esc(&mut out, d.serial_number.as_str());
    append_str(&mut out, "\",\n        \"sizeBytes\": ");
    push_dec(&mut out, d.size_bytes);
    append_str(&mut out, ",\n        \"interfaceType\": \"");
    push_esc(&mut out, d.interface_type.as_str());
    append_str(&mut out, "\",\n        \"mediaType\": \"");
    push_esc(&mut out, d.media_type.as_str());
    append_str(&mut out, "\",\n        \"firmwareRevision\": \"");
    push_esc(&mut out, d.firmware_revision.as_str());
    append_str(&mut out, "\"\n      }");
    out
}

pub open spec fn disks_json(disks: Seq<PhysicalDisk>) -> Seq<char> {
    list_text(disks.map_values(|d: PhysicalDisk| disk_json(d)), "[]"@, "[\n      "@, ",\n      "@, "\n    ]"@)
}

fn render_disks(disks: &Vec<PhysicalDisk>) -> (out: Vec<char>)
    ensures
        out@ == disks_json(disks@),
{
    if disks.len() == 0 {
        return chars_of("[]");
    }
    let mut parts: Vec<Vec<char>> = Vec::new();
    let mut i: usize = 0;
    while i < disks.len()
        invariant
            i <= disks@.len(),
            crate::text::views(parts@) == disks@.take(i as int).map_values(|d: PhysicalDisk| disk_json(d)),
        decreases disks.len() - i,
    {
        let ghost before = crate::text::views(parts@);
        let r = render_disk(&disks[i]);
        let ghost rv = r@;
        parts.push(r);
        proof {
            assert(disks@.take(i + 1) =~= disks@.take(i as int).push(disks@[i as int]));
            assert(crate::text::views(parts@) =~= before.push(rv));
        }
        i += 1;
        assert(crate::text::views(parts@) =~= disks@.take(i as int).map_values(|d: PhysicalDisk| disk_json(d)));
    }
    assert(disks@.take(disks@.len() as int) =~= disks@);
    let mut out = chars_of("[\n      ");
    push_joined(&mut out, &parts, ",\n      ");
    append_str(&mut out, "\n    ]");
    out
}

/// Volumes and encryption: the A6 evidence.
pub struct A6Evidence<'a> {
    pub volumes: &'a [crate::volume::VolumeProfile],
    pub encryption: &'a crate::encryption::EncryptionProfile,
}

/// User profiles, personal and application data, and the exposure map: the
/// A7 evidence.
pub struct A7Evidence<'a> {
    pub user_profiles: &'a crate::user_profiles::UserProfileInventory,
    pub personal_data: &'a crate::personal_data::PersonalDataInventory,
    pub application_data: &'a crate::application_data::ApplicationDataInventory,
    pub pdem: &'a crate::pdem::PdemProfile,
}

pub struct ReportContext<'a> {
    pub a6: &'a A6Evidence<'a>,
    pub a7: &'a A7Evidence<'a>,
    pub evidence: &'a EvidenceRecord,
    pub assessment: &'a AssessmentResult,
}

pub open spec fn head_json(assessment: AssessmentResult, device: DeviceIdentity) -> Seq<char> {
    "{\n  \"product\": \"CYVRA Erase Verification\",\n  \"agentVersion\": \"0.2.1\",\n  \"scanMode\": \""@
        + esc(assessment.scan_mode@) + "\",\n  \"device\": {\n    \"hostname\": \""@ + esc(device.hostname@)
        + "\",\n    \"platform\": \""@ + esc(device.platform@) + "\",\n    \"architecture\": \""@
        + esc(device.architecture@) + "\",\n    \"manufacturer\": \""@ + esc(device.manufacturer@)
        + "\",\n    \"model\": \""@ + esc(device.model@) + "\",\n    \"serialNumber\": \""@
        + esc(device.serial_number@) + "\"\n  },"@
}

fn render_head(assessment: &AssessmentResult, device: &DeviceIdentity) -> (out: Vec<char>)
    ensures
        out@ == head_json(*assessment, *device),
{
    let mut out = chars_of(
        "{\n  \"product\": \"CYVRA Erase Verification\",\n  \"agentVersion\": \"0.2.1\",\n  \"scanMode\": \"",
    );
    push_esc(&mut out, assessment.scan_mode);
    append_str(&mut out, "\",\n  \"device\": {\n    \"hostname\": \"");
    push_esc(&mut out, device.hostname.as_str());
    append_str(&mut out, "\",\n    \"platform\": \"");
    push_esc(&mut out, device.platform);
    append_str(&mut out, "\",\n    \"architecture\": \"");
    push_esc(&mut out, device.architecture);
    append_str(&mut out, "\",\n    \"manufacturer\": \"");
    push_esc(&mut out, device.manufacturer.as_str());
    append_str(&mut out, "\",\n    \"model\": \"");
    push_esc(&mut out, device.model.as_str());
    append_str(&mut out, "\",\n    \"serialNumber\": \"");
    push_esc(&mut out, device.serial_number.as_str());
    append_str(&mut out, "\"\n  },");
    out
}

pub open spec fn system_json(os: OsProfile, cpu: CpuProfile, storage: StorageProfile) -> Seq<char> {
    "\n  \"operatingSystem\": {\n    \"name\": \""@ + esc(os.operating_system@) + "\",\n    \"family\": \""@
        + esc(os.family@) + "\",\n    \"architecture\": \""@ + esc(os.architecture@)
        + "\",\n    \"caption\": \""@ + esc(os.caption@) + "\",\n    \"version\": \""@ + esc(os.version@)
        + "\",\n    \"buildNumber\": \""@ + esc(os.build_number@) + "\"\n  },\n  \"cpu\": {\n    \"name\": \""@
        + esc(cpu.name@) + "\",\n    \"manufacturer\": \""@ + esc(cpu.manufacturer@) + "\",\n    \"cores\": "@
        + dec(cpu.cores as nat) + ",\n    \"logicalProcessors\": "@ + dec(cpu.logical_processors as nat)
        + ",\n    \"addressWidth\": "@ + dec(cpu.address_width as nat)
        + "\n  },\n  \"storage\": {\n    \"discoveryStatus\": \""@ + esc(storage.discovery_status@)
        + "\",\n    \"destructiveOperationsEnabled\": "@ + bool_text(storage.destructive_operations_enabled)
        + ",\n    \"note\": \""@ + esc(storage.note@) + "\",\n    \"physicalDisks\": "@ + disks_json(storage.disks@)
        + "\n  },"@
}

fn render_system(os: &OsProfile, cpu: &CpuProfile, storage: &StorageProfile) -> (out: Vec<char>)
    ensures
        out@ == system_json(*os, *cpu, *storage),
{
    let mut out = chars_of("\n  \"operatingSystem\": {\n    \"name\": \"");
    push_esc(&mut out, os.operating_system);
    append_str(&mut out, "\",\n    \"family\": \"");
    push_esc(&mut out, os.family);
    append_str(&mut out, "\",\n    \"architecture\": \"");
    push_esc(&mut out, os.architecture);
    append_str(&mut out, "\",\n    \"caption\": \"");
    push_esc(&mut out, os.caption.as_str());
    append_str(&mut out, "\",\n    \"version\": \"");
    push_esc(&mut out, os.version.as_str());
    append_str(&mut out, "\",\n    \"buildNumber\": \"");
    push_esc(&mut out, os.build_number.as_str());
    append_str(&mut out, "\"\n  },\n  \"cpu\": {\n    \"name\": \"");
    push_esc(&mut out, cpu.name.as_str());
    append_str(&mut out, "\",\n    \"manufacturer\": \"");
    push_esc(&mut out, cpu.manufacturer.as_str());
    append_str(&mut out, "\",\n    \"cores\": ");
    push_dec(&mut out, cpu.cores as u64);
    append_str(&mut out, ",\n    \"logicalProcessors\": ");
    push_dec(&mut out, cpu.logical_processors as u64);
    append_str(&mut out, ",\n    \"addressWidth\": ");
    push_dec(&mut out, cpu.address_width as u64);
    append_str(&mut out, "\n  },\n  \"storage\": {\n    \"discoveryStatus\": \"");
    push_esc(&mut out, storage.discovery_status.as_str());
    append_str(&mut out, "\",\n    \"destructiveOperationsEnabled\": ");
    push_bool(&mut out, storage.destructive_operations_enabled);
    append_str(&mut out, ",\n    \"note\": \"");
    push_esc(&mut out, storage.note.as_str());
    append_str(&mut out, "\",\n    \"physicalDisks\": ");
    let disks = render_disks(&storage.disks);
    append_all(&mut out, &disks);
    append_str(&mut out, "\n  },");
    out
}

pub open spec fn tail_json(evidence: EvidenceRecord, assessment: AssessmentResult) -> Seq<char> {
    ",\n  \"evidence\": {\n    \"collectedAtUnix\": "@ + dec(evidence.collected_at_unix as nat)
        + ",\n    \"source\": \""@ + esc(evidence.source@) + "\"\n  },\n  \"assessment\": {\n    \"status\": \""@
        + esc(assessment.status@) + "\",\n    \"summary\": \""@ + esc(assessment.summary@) + "\"\n  }\n}"@
}

fn render_tail(evidence: &EvidenceRecord, assessment: &AssessmentResult) -> (out: Vec<char>)
    ensures
        out@ == tail_json(*evidence, *assessment),
{
    let mut out = chars_of(",\n  \"evidence\": {\n    \"collectedAtUnix\": ");
    push_dec(&mut out, evidence.collected_at_unix);
    append_str(&mut out, ",\n    \"source\": \"");
    push_esc(&mut out, evidence.source);
    append_str(&mut out, "\"\n  },\n  \"assessment\": {\n    \"status\": \"");
    push_esc(&mut out, assessment.status);
    append_str(&mut out, "\",\n    \"summary\": \"");
    push_esc(&mut out, assessment.summary);
    append_str(&mut out, "\"\n  }\n}");
    out
}

pub open spec fn evidence_json(
    volumes: Seq<crate::volume::VolumeProfile>,
    encryption: crate::encryption::EncryptionProfile,
    user_profiles: crate::user_profiles::UserProfileInventory,
    personal_data: crate::personal_data::PersonalDataInventory,
    application_data: crate::application_data::ApplicationDataInventory,
    pdem: crate::pdem::PdemProfile,
) -> Seq<char> {
    "\n  \"volumes\": "@ + a6::volumes_json(volumes) + ",\n  \"encryption\": "@ + a6::encryption_json(encryption)
        + ",\n  \"userProfiles\": "@ + a7::user_profiles_json(user_profiles) + ",\n  \"personalData\": "@
        + a7::personal_data_json(personal_data) + ",\n  \"applicationData\": "@
        + a7::application_data_json(application_data) + ",\n  \"pdem\": "@ + a7::pdem_json(pdem)
}

fn render_evidence(a6: &A6Evidence, a7: &A7Evidence) -> (out: Vec<char>)
    ensures
        out@ == evidence_json(
            a6.volumes@,
            *a6.encryption,
            *a7.user_profiles,
            *a7.personal_data,
            *a7.application_data,
            *a7.pdem,
        ),
{
    let mut out = chars_of("\n  \"volumes\": ");
    let v = a6::render_volumes(a6.volumes);
    append_all(&mut out, &chars_of(v.as_str()));
    append_str(&mut out, ",\n  \"encryption\": ");
    let e = a6::render_encryption(a6.encryption);
    append_all(&mut out, &chars_of(e.as_str()));
    append_str(&mut out, ",\n  \"userProfiles\": ");
    let u = a7::render_user_profiles(a7.user_profiles);
    append_all(&mut out, &chars_of(u.as_str()));
    append_str(&mut out, ",\n  \"personalData\": ");
    let p = a7::render_personal_data(a7.personal_data);
    append_all(&mut out, &chars_of(p.as_str()));
    append_str(&mut out, ",\n  \"applicationData\": ");
    let ad = a7::render_application_data(a7.application_data);
    append_all(&mut out, &chars_of(ad.as_str()));
    append_str(&mut out, ",\n  \"pdem\": ");
    let pd = a7::render_pdem(a7.pdem);
    append_all(&mut out, &chars_of(pd.as_str()));
    out
}

/// The report's JSON text, laid out as the engineering report always was.
pub open spec fn report_json(
    device: DeviceIdentity,
    os: OsProfile,
    cpu: CpuProfile,
    storage: StorageProfile,
    context: ReportContext,
) -> Seq<char> {
    head_json(*context.assessment, device) + system_json(os, cpu, storage) + evidence_json(
        context.a6.volumes@,
        *context.a6.encryption,
        *context.a7.user_profiles,
        *context.a7.personal_data,
        *context.a7.application_data,
        *context.a7.pdem,
    ) + tail_json(*context.evidence, *context.assessment)
}

pub fn render(
    device: &DeviceIdentity,
    os: &OsProfile,
    cpu: &CpuProfile,
    storage: &StorageProfile,
    context: &ReportContext,
) -> (s: String)
    ensures
        s@ == report_json(*device, *os, *cpu, *storage, *context),
{
    let mut out = render_head(context.assessment, device);
    let system = render_system(os, cpu, storage);
    append_all(&mut out, &system);
    let evidence = render_evidence(context.a6, context.a7);
    append_all(&mut out, &evidence);
    let tail = render_tail(context.evidence, context.assessment);
    append_all(&mut out, &tail);
    assert(out@ =~= report_json(*device, *os, *cpu, *storage, *context));
    string_of(&out)
}

} // verus!
