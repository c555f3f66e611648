//! The Privacy Exposure Map: every location where personal data appears to
//! live, as one object each. Built from metadata only.

use vstd::prelude::*;
use crate::application_data::{ApplicationDataInventory, ApplicationDataLocation};
use crate::numtext::{dec, push_dec};
use crate::personal_data::{DataLocation, PersonalDataInventory};
use crate::text::{append_str, chars_of, eq_str, owned, string_of};

verus! {

#[derive(Debug, Clone)]
pub struct PdemObject {
    pub object_id: String,
    pub object_type: String,
    pub category: String,
    pub classification: String,
    pub source: String,
    pub location: String,
    pub storage_scope: String,
    pub file_count: u64,
    pub total_bytes: u64,
    pub risk: String,
    pub confidence: String,
    pub coverage: String,
    pub status: String,
    pub content_inspected: bool,
    pub discovery_method: String,
}

#[derive(Debug, Clone)]
pub struct PdemRelationship {
    pub from_object_id: String,
    pub relationship: String,
    pub to_object_id: String,
}

#[derive(Debug, Clone)]
pub struct PdemProfile {
    pub schema_version: &'static str,
    pub collection_status: String,
    pub objects: Vec<PdemObject>,
    pub relationships: Vec<PdemRelationship>,
}

/// `n` in decimal, padded with leading zeros to four digits.
pub open spec fn padded4(n: nat) -> Seq<char> {
    let d = dec(n);
    if d.len() >= 4 {
        d
    } else {
        Seq::new((4 - d.len()) as nat, |i: int| '0') + d
    }
}

/// The id of the `n`th object, counting from one: `pdem-0001`, ...
pub open spec fn object_id(n: nat) -> Seq<char> {
    "pdem-"@ + padded4(n)
}

fn object_id_text(n: u64) -> (s: String)
    ensures
        s@ == object_id(n as nat),
{
    let mut digits: Vec<char> = Vec::new();
    push_dec(&mut digits, n);
    let mut out: Vec<char> = Vec::new();
    append_str(&mut out, "pdem-");
    let ghost head = out@;
    let mut k: usize = digits.len();
    while k < 4
        invariant
            digits@ == dec(n as nat),
            digits@.len() <= k <= 4 || (k == digits@.len() && k >= 4),
            out@ == head + Seq::new((k - digits@.len()) as nat, |i: int| '0'),
        decreases 4 - k,
    {
        out.push('0');
        assert(Seq::new((k + 1 - digits@.len()) as nat, |i: int| '0') =~= Seq::new(
            (k - digits@.len()) as nat,
            |i: int| '0',
        ).push('0'));
        k += 1;
    }
    let ghost pad = out@;
    crate::text::append_all(&mut out, &digits);
    proof {
        reveal_strlit("pdem-");
        if digits@.len() >= 4 {
            assert(Seq::new(0, |i: int| '0') =~= Seq::<char>::empty());
            assert(out@ =~= object_id(n as nat));
        } else {
            assert(out@ =~= object_id(n as nat));
        }
    }
    string_of(&out)
}

/// The drive a path lives on (`C:\`), or `unknown` when it does not start
/// with a drive letter and colon.
pub open spec fn storage_scope_spec(path: Seq<char>) -> Seq<char> {
    if path.len() >= 3 && path[1] == ':' {
        path.take(3)
    } else {
        "unknown"@
    }
}

pub fn storage_scope(path: &str) -> (s: String)
    ensures
        s@ == storage_scope_spec(path@),
{
    let c = chars_of(path);
    if c.len() >= 3 && c[1] == ':' {
        let mut out: Vec<char> = Vec::new();
        out.push(c[0]);
        out.push(c[1]);
        out.push(c[2]);
        assert(out@ =~= c@.take(3));
        string_of(&out)
    } else {
        owned("unknown")
    }
}

/// The risk of a personal-data category: high for mail, databases and
/// backups, medium for documents and media, else unknown.
pub open spec fn category_risk(category: Seq<char>) -> Seq<char> {
    if category == "email"@ || category == "database"@ || category == "backup"@ {
        "high"@
    } else if category == "document"@ || category == "pdf"@ || category == "spreadsheet"@
        || category == "presentation"@ || category == "image"@ || category == "video"@
        || category == "audio"@ || category == "archive"@ {
        "medium"@
    } else {
        "unknown"@
    }
}

/// The risk of a personal-data location, by how it was classified.
pub open spec fn location_risk(classification: Seq<char>, category: Seq<char>) -> Seq<char> {
    if classification == "software_resource"@ {
        "low"@
    } else if classification == "confirmed_user_location"@ || classification == "likely_personal_data"@ {
        category_risk(category)
    } else {
        "unknown"@
    }
}

/// The risk of a location found as personal data (confirmed or likely):
/// high exactly for mail, databases and backups; medium exactly for
/// documents, PDFs, spreadsheets, presentations, images, video, audio and
/// archives; never low. Only software-resource locations are low.
pub proof fn personal_locations_are_rated_by_category(classification: Seq<char>, category: Seq<char>)
    ensures
        (classification == "confirmed_user_location"@ || classification == "likely_personal_data"@) ==> {
            &&& (location_risk(classification, category) == "high"@ <==> (category == "email"@ || category
                == "database"@ || category == "backup"@))
            &&& (location_risk(classification, category) == "medium"@ <==> (category == "document"@ || category
                == "pdf"@ || category == "spreadsheet"@ || category == "presentation"@ || category == "image"@
                || category == "video"@ || category == "audio"@ || category == "archive"@))
            &&& location_risk(classification, category) != "low"@
        },
        location_risk(classification, category) == "low"@ <==> classification == "software_resource"@,
{
    reveal_strlit("high");
    reveal_strlit("medium");
    reveal_strlit("low");
    reveal_strlit("unknown");
    reveal_strlit("software_resource");
    reveal_strlit("confirmed_user_location");
    reveal_strlit("likely_personal_data");
    reveal_strlit("email");
    reveal_strlit("database");
    reveal_strlit("backup");
    reveal_strlit("document");
    reveal_strlit("pdf");
    reveal_strlit("spreadsheet");
    reveal_strlit("presentation");
    reveal_strlit("image");
    reveal_strlit("video");
    reveal_strlit("audio");
    reveal_strlit("archive");
    assert("high"@.len() != "medium"@.len() || "high"@[0] != "medium"@[0]);
    assert("high"@ != "medium"@);
    assert("high"@.len() != "unknown"@.len() || "high"@[0] != "unknown"@[0]);
    assert("high"@ != "unknown"@);
    assert("medium"@.len() != "unknown"@.len() || "medium"@[0] != "unknown"@[0]);
    assert("medium"@ != "unknown"@);
    assert("low"@.len() != "high"@.len() || "low"@[0] != "high"@[0]);
    assert("low"@ != "high"@);
    assert("low"@.len() != "medium"@.len() || "low"@[0] != "medium"@[0]);
    assert("low"@ != "medium"@);
    assert("low"@.len() != "unknown"@.len() || "low"@[0] != "unknown"@[0]);
    assert("low"@ != "unknown"@);
    assert("email"@.len() != "document"@.len());
    assert("email"@.len() != "pdf"@.len());
    assert("email"@.len() != "spreadsheet"@.len());
    assert("email"@.len() != "presentation"@.len());
    assert("email"@[0] != "image"@[0]);
    assert("email"@[0] != "video"@[0]);
    assert("email"@[0] != "audio"@[0]);
    assert("email"@.len() != "archive"@.len());
    assert("database"@[1] != "document"@[1]);
    assert("database"@.len() != "pdf"@.len());
    assert("database"@.len() != "spreadsheet"@.len());
    assert("database"@.len() != "presentation"@.len());
    assert("database"@.len() != "image"@.len());
    assert("database"@.len() != "video"@.len());
    assert("database"@.len() != "audio"@.len());
    assert("database"@.len() != "archive"@.len());
    assert("backup"@.len() != "document"@.len());
    assert("backup"@.len() != "pdf"@.len());
    assert("backup"@.len() != "spreadsheet"@.len());
    assert("backup"@.len() != "presentation"@.len());
    assert("backup"@.len() != "image"@.len());
    assert("backup"@.len() != "video"@.len());
    assert("backup"@.len() != "audio"@.len());
    assert("backup"@.len() != "archive"@.len());
    assert("software_resource"@.len() != "confirmed_user_location"@.len() || "software_resource"@[0] != "confirmed_user_location"@[0]);
    assert("software_resource"@ != "confirmed_user_location"@);
    assert("software_resource"@.len() != "likely_personal_data"@.len() || "software_resource"@[0] != "likely_personal_data"@[0]);
    assert("software_resource"@ != "likely_personal_data"@);
}

fn risk_for_category(category: &Vec<char>) -> (r: &'static str)
    ensures
        r@ == category_risk(category@),
{
    if eq_str(category, "email") || eq_str(category, "database") || eq_str(category, "backup") {
        "high"
    } else if eq_str(category, "document") || eq_str(category, "pdf") || eq_str(category, "spreadsheet")
        || eq_str(category, "presentation") || eq_str(category, "image") || eq_str(category, "video")
        || eq_str(category, "audio") || eq_str(category, "archive") {
        "medium"
    } else {
        "unknown"
    }
}

pub fn risk_for_location(classification: &str, category: &str) -> (r: &'static str)
    ensures
        r@ == location_risk(classification@, category@),
{
    let c = chars_of(classification);
    if eq_str(&c, "software_resource") {
        "low"
    } else if eq_str(&c, "confirmed_user_location") || eq_str(&c, "likely_personal_data") {
        risk_for_category(&chars_of(category))
    } else {
        "unknown"
    }
}

/// The object for the `n`th location (from one), a personal-data folder.
pub open spec fn data_object(o: PdemObject, l: DataLocation, n: nat) -> bool {
    &&& o.object_id@ == object_id(n)
    &&& o.object_type@ == "data_location"@
    &&& o.category@ == l.category@
    &&& o.classification@ == l.classification@
    &&& o.source@ == l.source@
    &&& o.location@ == l.path@
    &&& o.storage_scope@ == storage_scope_spec(l.path@)
    &&& o.file_count == l.file_count
    &&& o.total_bytes == l.total_bytes
    &&& o.risk@ == location_risk(l.classification@, l.category@)
    &&& o.confidence@ == l.confidence@
    &&& o.coverage@ == "filesystem_metadata"@
    &&& o.status@ == "detected"@
    &&& !o.content_inspected
    &&& o.discovery_method@ == "extension_and_location_context_metadata"@
}

/// The object for the `n`th location (from one), an application's data.
pub open spec fn app_object(o: PdemObject, l: ApplicationDataLocation, n: nat) -> bool {
    &&& o.object_id@ == object_id(n)
    &&& o.object_type@ == "application_data_location"@
    &&& o.category@ == l.category@
    &&& o.classification@ == l.classification@
    &&& o.source@ == l.application@
    &&& o.location@ == l.path@
    &&& o.storage_scope@ == storage_scope_spec(l.path@)
    &&& o.file_count == l.file_count
    &&& o.total_bytes == l.total_bytes
    &&& o.risk@ == l.risk@
    &&& o.confidence@ == l.confidence@
    &&& o.coverage@ == "known_application_path_metadata"@
    &&& o.status@ == "detected"@
    &&& o.content_inspected == l.content_inspected
    &&& o.discovery_method@ == "known_application_path_and_filesystem_metadata"@
}

/// `not_windows` when neither inventory ran, `completed` when both
/// completed, else `partial`.
pub open spec fn combined_status(personal: Seq<char>, application: Seq<char>) -> Seq<char> {
    if personal == "not_windows"@ && application == "not_windows"@ {
        "not_windows"@
    } else if personal == "completed"@ && application == "completed"@ {
        "completed"@
    } else {
        "partial"@
    }
}

/// The map built from these inventories.
pub open spec fn built_from(p: PdemProfile, personal_data: PersonalDataInventory, application_data: ApplicationDataInventory) -> bool {
    &&& p.schema_version@ == "pdem-1.2"@
    &&& p.collection_status@ == combined_status(
        personal_data.discovery_status@,
        application_data.discovery_status@,
    )
    &&& p.objects@.len() == personal_data.locations@.len() + application_data.locations@.len()
    &&& forall|i: int|
        0 <= i < personal_data.locations@.len() ==> data_object(
            #[trigger] p.objects@[i],
            personal_data.locations@[i],
            (i + 1) as nat,
        )
    &&& forall|j: int|
        0 <= j < application_data.locations@.len() ==> app_object(
            #[trigger] p.objects@[personal_data.locations@.len() + j],
            application_data.locations@[j],
            (personal_data.locations@.len() + j + 1) as nat,
        )
    &&& p.relationships@.len() == 0
}

/// One object per personal-data location, then one per application-data
/// location, numbered from `pdem-0001` in that order. No relationships yet.
pub fn build(personal_data: &PersonalDataInventory, application_data: &ApplicationDataInventory) -> (p: PdemProfile)
    requires
        personal_data.locations@.len() + application_data.locations@.len() < u64::MAX,
    ensures
        built_from(p, *personal_data, *application_data),
{
    let mut objects: Vec<PdemObject> = Vec::new();
    let pd = &personal_data.locations;
    let ad = &application_data.locations;
    let mut i: usize = 0;
    while i < pd.len()
        invariant
            i <= pd@.len(),
            pd@.len() + ad@.len() < u64::MAX,
            objects@.len() == i,
            forall|k: int| 0 <= k < i ==> data_object(#[trigger] objects@[k], pd@[k], (k + 1) as nat),
        decreases pd.len() - i,
    {
        let l = &pd[i];
        let n: u64 = (i + 1) as u64;
        objects.push(
            PdemObject {
                object_id: object_id_text(n),
                object_type: owned("data_location"),
                category: l.category.clone(),
                classification: l.classification.clone(),
                source: l.source.clone(),
                location: l.path.clone(),
                storage_scope: storage_scope(l.path.as_str()),
                file_count: l.file_count,
                total_bytes: l.total_bytes,
                risk: owned(risk_for_location(l.classification.as_str(), l.category.as_str())),
                confidence: l.confidence.clone(),
                coverage: owned("filesystem_metadata"),
                status: owned("detected"),
                content_inspected: false,
                discovery_method: owned("extension_and_location_context_metadata"),
            },
        );
        i += 1;
    }
    let mut j: usize = 0;
    while j < ad.len()
        invariant
            j <= ad@.len(),
            pd@.len() + ad@.len() < u64::MAX,
            objects@.len() == pd@.len() + j,
            forall|k: int| 0 <= k < pd@.len() ==> data_object(#[trigger] objects@[k], pd@[k], (k + 1) as nat),
            forall|k: int|
                0 <= k < j ==> app_object(
                    #[trigger] objects@[pd@.len() + k],
                    ad@[k],
                    (pd@.len() + k + 1) as nat,
                ),
        decreases ad.len() - j,
    {
        let l = &ad[j];
        let n: u64 = pd.len() as u64 + j as u64 + 1;
        let o = PdemObject {
            object_id: object_id_text(n),
            object_type: owned("application_data_location"),
            category: l.category.clone(),
            classification: l.classification.clone(),
            source: l.application.clone(),
            location: l.path.clone(),
            storage_scope: storage_scope(l.path.as_str()),
            file_count: l.file_count,
            total_bytes: l.total_bytes,
            risk: l.risk.clone(),
            confidence: l.confidence.clone(),
            coverage: owned("known_application_path_metadata"),
            status: owned("detected"),
            content_inspected: l.content_inspected,
            discovery_method: owned("known_application_path_and_filesystem_metadata"),
        };
        objects.push(o);
        proof {
            assert forall|k: int|
                0 <= k < j + 1 implies app_object(
                #[trigger] objects@[pd@.len() + k],
                ad@[k],
                (pd@.len() + k + 1) as nat,
            ) by {
                if k < j {
                } else {
                    assert(objects@[pd@.len() + k] == o);
                }
            }
        }
        j += 1;
    }
    let pstat = chars_of(personal_data.discovery_status.as_str());
    let astat = chars_of(application_data.discovery_status.as_str());
    let status = if eq_str(&pstat, "not_windows") && eq_str(&astat, "not_windows") {
        owned("not_windows")
    } else if eq_str(&pstat, "completed") && eq_str(&astat, "completed") {
        owned("completed")
    } else {
        owned("partial")
    };
    PdemProfile { schema_version: "pdem-1.2", collection_status: status, objects, relationships: Vec::new() }
}

} // verus!
