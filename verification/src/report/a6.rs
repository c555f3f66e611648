//! A6 evidence in the report: volumes and BitLocker status.

use vstd::prelude::*;
use crate::encryption::{EncryptionProfile, EncryptionVolume};
use crate::numtext::{dec, push_dec};
use crate::report::{esc, list_text, push_esc, push_joined};
use crate::text::{append_all, append_str, chars_of, join, string_of, string_views, views};
use crate::volume::VolumeProfile;

verus! {

pub open spec fn volume_json(v: VolumeProfile) -> Seq<char> {
    "{\n      \"driveLetter\": \""@ + esc(v.drive_letter@) + "\",\n      \"label\": \""@ + esc(v.label@)
        + "\",\n      \"fileSystem\": \""@ + esc(v.file_system@) + "\",\n      \"sizeBytes\": "@
        + dec(v.size_bytes as nat) + ",\n      \"freeBytes\": "@ + dec(v.free_bytes as nat)
        + ",\n      \"healthStatus\": \""@ + esc(v.health_status@) + "\"\n    }"@
}

fn render_volume(v: &VolumeProfile) -> (out: Vec<char>)
    ensures
        out@ == volume_json(*v),
{
    let mut out = chars_of("{\n      \"driveLetter\": \"");
    push_esc(&mut out, v.drive_letter.as_str());
    append_str(&mut out, "\",\n      \"label\": \"");
    push_esc(&mut out, v.label.as_str());
    append_str(&mut out, "\",\n      \"fileSystem\": \"");
    push_esc(&mut out, v.file_system.as_str());
    append_str(&mut out, "\",\n      \"sizeBytes\": ");
    push_dec(&mut out, v.size_bytes);
    append_str(&mut out, ",\n      \"freeBytes\": ");
    push_dec(&mut out, v.free_bytes);
    append_str(&mut out, ",\n      \"healthStatus\": \"");
    push_esc(&mut out, v.health_status.as_str());
    append_str(&mut out, "\"\n    }");
    out
}

pub open spec fn volumes_json(volumes: Seq<VolumeProfile>) -> Seq<char> {
    list_text(volumes.map_values(|v: VolumeProfile| volume_json(v)), "[]"@, "[\n    "@, ",\n    "@, "\n  ]"@)
}

pub fn render_volumes(volumes: &[VolumeProfile]) -> (s: String)
    ensures
        s@ == volumes_json(volumes@),
{
    if volumes.len() == 0 {
        return crate::text::owned("[]");
    }
    let mut parts: Vec<Vec<char>> = Vec::new();
    let mut i: usize = 0;
    while i < volumes.len()
        invariant
            i <= volumes@.len(),
            views(parts@) == volumes@.take(i as int).map_values(|v: VolumeProfile| volume_json(v)),
        decreases volumes.len() - i,
    {
        let ghost before = views(parts@);
        let r = render_volume(&volumes[i]);
        let ghost rv = r@;
        parts.push(r);
        proof {
            assert(volumes@.take(i + 1) =~= volumes@.take(i as int).push(volumes@[i as int]));
            assert(views(parts@) =~= before.push(rv));
        }
        i += 1;
        assert(views(parts@) =~= volumes@.take(i as int).map_values(|v: VolumeProfile| volume_json(v)));
    }
    assert(volumes@.take(volumes@.len() as int) =~= volumes@);
    let mut out = chars_of("[\n    ");
    push_joined(&mut out, &parts, ",\n    ");
    append_str(&mut out, "\n  ]");
    string_of(&out)
}

pub open spec fn quoted(s: Seq<char>) -> Seq<char> {
    "\""@ + esc(s) + "\""@
}

pub open spec fn protectors_json(types: Seq<Seq<char>>) -> Seq<char> {
    "["@ + join(types.map_values(|t: Seq<char>| quoted(t)), ", "@) + "]"@
}

fn render_protector_types(types: &Vec<String>) -> (out: Vec<char>)
    ensures
        out@ == protectors_json(string_views(types@)),
{
    let mut parts: Vec<Vec<char>> = Vec::new();
    let mut i: usize = 0;
    while i < types.len()
        invariant
            i <= types@.len(),
            views(parts@) == string_views(types@).take(i as int).map_values(|t: Seq<char>| quoted(t)),
        decreases types.len() - i,
    {
        let ghost before = views(parts@);
        let mut q = chars_of("\"");
        push_esc(&mut q, types[i].as_str());
        append_str(&mut q, "\"");
        let ghost qv = q@;
        parts.push(q);
        proof {
            assert(string_views(types@).take(i + 1) =~= string_views(types@).take(i as int).push(types@[i as int]@));
            assert(views(parts@) =~= before.push(qv));
        }
        i += 1;
        assert(views(parts@) =~= string_views(types@).take(i as int).map_values(|t: Seq<char>| quoted(t)));
    }
    assert(string_views(types@).take(types@.len() as int) =~= string_views(types@));
    let mut out = chars_of("[");
    push_joined(&mut out, &parts, ", ");
    append_str(&mut out, "]");
    out
}

pub open spec fn encryption_volume_json(v: EncryptionVolume) -> Seq<char> {
    "{\n      \"mountPoint\": \""@ + esc(v.mount_point@) + "\",\n      \"volumeStatus\": \""@
        + esc(v.volume_status@) + "\",\n      \"protectionStatus\": \""@ + esc(v.protection_status@)
        + "\",\n      \"encryptionPercentage\": "@ + dec(v.encryption_percentage as nat)
        + ",\n      \"encryptionMethod\": \""@ + esc(v.encryption_method@) + "\",\n      \"keyProtectorTypes\": "@
        + protectors_json(string_views(v.key_protector_types@)) + "\n    }"@
}

fn render_encryption_volume(v: &EncryptionVolume) -> (out: Vec<char>)
    ensures
        out@ == encryption_volume_json(*v),
{
    let mut out = chars_of("{\n      \"mountPoint\": \"");
    push_esc(&mut out, v.mount_point.as_str());
    append_str(&mut out, "\",\n      \"volumeStatus\": \"");
    push_esc(&mut out, v.volume_status.as_str());
    append_str(&mut out, "\",\n      \"protectionStatus\": \"");
    push_esc(&mut out, v.protection_status.as_str());
    append_str(&mut out, "\",\n      \"encryptionPercentage\": ");
    push_dec(&mut out, v.encryption_percentage as u64);
    append_str(&mut out, ",\n      \"encryptionMethod\": \"");
    push_esc(&mut out, v.encryption_method.as_str());
    append_str(&mut out, "\",\n      \"keyProtectorTypes\": ");
    let p = render_protector_types(&v.key_protector_types);
    append_all(&mut out, &p);
    append_str(&mut out, "\n    }");
    out
}

pub open spec fn encryption_json(p: EncryptionProfile) -> Seq<char> {
    "{\n    \"collectionStatus\": \""@ + esc(p.collection_status@) + "\",\n    \"note\": \""@ + esc(p.note@)
        + "\",\n    \"volumes\": "@ + list_text(
        p.volumes@.map_values(|v: EncryptionVolume| encryption_volume_json(v)),
        "[]"@,
        "[\n      "@,
        ",\n      "@,
        "\n    ]"@,
    ) + "\n  }"@
}

pub fn render_encryption(p: &EncryptionProfile) -> (s: String)
    ensures
        s@ == encryption_json(*p),
{
    let mut out = chars_of("{\n    \"collectionStatus\": \"");
    push_esc(&mut out, p.collection_status.as_str());
    append_str(&mut out, "\",\n    \"note\": \"");
    push_esc(&mut out, p.note.as_str());
    append_str(&mut out, "\",\n    \"volumes\": ");
    let ghost items = p.volumes@.map_values(|v: EncryptionVolume| encryption_volume_json(v));
    if p.volumes.len() == 0 {
        append_str(&mut out, "[]");
    } else {
        let mut parts: Vec<Vec<char>> = Vec::new();
        let mut i: usize = 0;
        while i < p.volumes.len()
            invariant
                i <= p.volumes@.len(),
                views(parts@) == p.volumes@.take(i as int).map_values(|v: EncryptionVolume| encryption_volume_json(v)),
            decreases p.volumes.len() - i,
        {
            let ghost before = views(parts@);
            let r = render_encryption_volume(&p.volumes[i]);
            let ghost rv = r@;
            parts.push(r);
            proof {
                assert(p.volumes@.take(i + 1) =~= p.volumes@.take(i as int).push(p.volumes@[i as int]));
                assert(views(parts@) =~= before.push(rv));
            }
            i += 1;
            assert(views(parts@) =~= p.volumes@.take(i as int).map_values(
                |v: EncryptionVolume| encryption_volume_json(v),
            ));
        }
        assert(p.volumes@.take(p.volumes@.len() as int) =~= p.volumes@);
        append_str(&mut out, "[\n      ");
        push_joined(&mut out, &parts, ",\n      ");
        append_str(&mut out, "\n    ]");
    }
    append_str(&mut out, "\n  }");
    assert(out@ =~= encryption_json(*p));
    string_of(&out)
}

} // verus!
