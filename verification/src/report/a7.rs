//! A7 evidence in the report: user profiles, personal and application data,
//! and the Privacy Exposure Map. All compact, one object per line item.

use vstd::prelude::*;
use crate::application_data::{ApplicationDataInventory, ApplicationDataLocation};
use crate::numtext::{dec, push_dec};
use crate::pdem::{PdemObject, PdemProfile};
use crate::personal_data::{DataLocation, PersonalDataInventory};
use crate::report::{bool_text, esc, push_bool, push_esc, push_joined};
use crate::text::{append_str, chars_of, join, string_of, views};
use crate::user_profiles::{UserProfile, UserProfileInventory};

verus! {

pub open spec fn profile_json(p: UserProfile) -> Seq<char> {
    "{\"sid\":\""@ + esc(p.sid@) + "\",\"path\":\""@ + esc(p.path@) + "\",\"loaded\":"@ + bool_text(p.loaded)
        + ",\"special\":"@ + bool_text(p.special) + "}"@
}

fn render_profile(p: &UserProfile) -> (out: Vec<char>)
    ensures
        out@ == profile_json(*p),
{
    let mut out = chars_of("{\"sid\":\"");
    push_esc(&mut out, p.sid.as_str());
    append_str(&mut out, "\",\"path\":\"");
    push_esc(&mut out, p.path.as_str());
    append_str(&mut out, "\",\"loaded\":");
    push_bool(&mut out, p.loaded);
    append_str(&mut out, ",\"special\":");
    push_bool(&mut out, p.special);
    append_str(&mut out, "}");
    out
}

pub open spec fn user_profiles_json(inv: UserProfileInventory) -> Seq<char> {
    "{\"discoveryStatus\":\""@ + esc(inv.discovery_status@) + "\",\"currentUser\":\""@ + esc(inv.current_user@)
        + "\",\"currentProfile\":\""@ + esc(inv.current_profile@) + "\",\"profiles\":["@ + join(
        inv.profiles@.map_values(|p: UserProfile| profile_json(p)),
        ","@,
    ) + "]}"@
}

pub fn render_user_profiles(inv: &UserProfileInventory) -> (s: String)
    ensures
        s@ == user_profiles_json(*inv),
{
    let mut parts: Vec<Vec<char>> = Vec::new();
    let mut i: usize = 0;
    while i < inv.profiles.len()
        invariant
            i <= inv.profiles@.len(),
            views(parts@) == inv.profiles@.take(i as int).map_values(|p: UserProfile| profile_json(p)),
        decreases inv.profiles.len() - i,
    {
        let ghost before = views(parts@);
        let r = render_profile(&inv.profiles[i]);
        let ghost rv = r@;
        parts.push(r);
        proof {
            assert(inv.profiles@.take(i + 1) =~= inv.profiles@.take(i as int).push(inv.profiles@[i as int]));
            assert(views(parts@) =~= before.push(rv));
        }
        i += 1;
        assert(views(parts@) =~= inv.profiles@.take(i as int).map_values(|p: UserProfile| profile_json(p)));
    }
    assert(inv.profiles@.take(inv.profiles@.len() as int) =~= inv.profiles@);
    let mut out = chars_of("{\"discoveryStatus\":\"");
    push_esc(&mut out, inv.discovery_status.as_str());
    append_str(&mut out, "\",\"currentUser\":\"");
    push_esc(&mut out, inv.current_user.as_str());
    append_str(&mut out, "\",\"currentProfile\":\"");
    push_esc(&mut out, inv.current_profile.as_str());
    append_str(&mut out, "\",\"profiles\":[");
    push_joined(&mut out, &parts, ",");
    append_str(&mut out, "]}");
    string_of(&out)
}

pub open spec fn location_json(l: DataLocation) -> Seq<char> {
    "{\"path\":\""@ + esc(l.path@) + "\",\"category\":\""@ + esc(l.category@) + "\",\"fileCount\":"@
        + dec(l.file_count as nat) + ",\"totalBytes\":"@ + dec(l.total_bytes as nat) + ",\"scanStatus\":\""@
        + esc(l.scan_status@) + "\"}"@
}

fn render_location(l: &DataLocation) -> (out: Vec<char>)
    ensures
        out@ == location_json(*l),
{
    let mut out = chars_of("{\"path\":\"");
    push_esc(&mut out, l.path.as_str());
    append_str(&mut out, "\",\"category\":\"");
    push_esc(&mut out, l.category.as_str());
    append_str(&mut out, "\",\"fileCount\":");
    push_dec(&mut out, l.file_count);
    append_str(&mut out, ",\"totalBytes\":");
    push_dec(&mut out, l.total_bytes);
    append_str(&mut out, ",\"scanStatus\":\"");
    push_esc(&mut out, l.scan_status.as_str());
    append_str(&mut out, "\"}");
    out
}

pub open spec fn personal_data_json(inv: PersonalDataInventory) -> Seq<char> {
    "{\"discoveryStatus\":\""@ + esc(inv.discovery_status@) + "\",\"contentInspected\":"@
        + bool_text(inv.content_inspected) + ",\"inaccessibleEntries\":"@ + dec(inv.inaccessible_entries as nat)
        + ",\"locations\":["@ + join(inv.locations@.map_values(|l: DataLocation| location_json(l)), ","@)
        + "]}"@
}

pub fn render_personal_data(inv: &PersonalDataInventory) -> (s: String)
    ensures
        s@ == personal_data_json(*inv),
{
    let mut parts: Vec<Vec<char>> = Vec::new();
    let mut i: usize = 0;
    while i < inv.locations.len()
        invariant
            i <= inv.locations@.len(),
            views(parts@) == inv.locations@.take(i as int).map_values(|l: DataLocation| location_json(l)),
        decreases inv.locations.len() - i,
    {
        let ghost before = views(parts@);
        let r = render_location(&inv.locations[i]);
        let ghost rv = r@;
        parts.push(r);
        proof {
            assert(inv.locations@.take(i + 1) =~= inv.locations@.take(i as int).push(inv.locations@[i as int]));
            assert(views(parts@) =~= before.push(rv));
        }
        i += 1;
        assert(views(parts@) =~= inv.locations@.take(i as int).map_values(|l: DataLocation| location_json(l)));
    }
    assert(inv.locations@.take(inv.locations@.len() as int) =~= inv.locations@);
    let mut out = chars_of("{\"discoveryStatus\":\"");
    push_esc(&mut out, inv.discovery_status.as_str());
    append_str(&mut out, "\",\"contentInspected\":");
    push_bool(&mut out, inv.content_inspected);
    append_str(&mut out, ",\"inaccessibleEntries\":");
    push_dec(&mut out, inv.inaccessible_entries);
    append_str(&mut out, ",\"locations\":[");
    push_joined(&mut out, &parts, ",");
    append_str(&mut out, "]}");
    string_of(&out)
}

pub open spec fn app_location_json(l: ApplicationDataLocation) -> Seq<char> {
    "{\"application\":\""@ + esc(l.application@) + "\",\"category\":\""@ + esc(l.category@)
        + "\",\"classification\":\""@ + esc(l.classification@) + "\",\"path\":\""@ + esc(l.path@)
        + "\",\"fileCount\":"@ + dec(l.file_count as nat) + ",\"totalBytes\":"@ + dec(l.total_bytes as nat)
        + ",\"risk\":\""@ + esc(l.risk@) + "\",\"confidence\":\""@ + esc(l.confidence@) + "\",\"scanStatus\":\""@
        + esc(l.scan_status@) + "\",\"contentInspected\":"@ + bool_text(l.content_inspected) + "}"@
}

fn render_app_location(l: &ApplicationDataLocation) -> (out: Vec<char>)
    ensures
        out@ == app_location_json(*l),
{
    let mut out = chars_of("{\"application\":\"");
    push_esc(&mut out, l.application.as_str());
    append_str(&mut out, "\",\"category\":\"");
    push_esc(&mut out, l.category.as_str());
    append_str(&mut out, "\",\"classification\":\"");
    push_esc(&mut out, l.classification.as_str());
    append_str(&mut out, "\",\"path\":\"");
    push_esc(&mut out, l.path.as_str());
    append_str(&mut out, "\",\"fileCount\":");
    push_dec(&mut out, l.file_count);
    append_str(&mut out, ",\"totalBytes\":");
    push_dec(&mut out, l.total_bytes);
    append_str(&mut out, ",\"risk\":\"");
    push_esc(&mut out, l.risk.as_str());
    append_str(&mut out, "\",\"confidence\":\"");
    push_esc(&mut out, l.confidence.as_str());
    append_str(&mut out, "\",\"scanStatus\":\"");
    push_esc(&mut out, l.scan_status.as_str());
    append_str(&mut out, "\",\"contentInspected\":");
    push_bool(&mut out, l.content_inspected);
    append_str(&mut out, "}");
    out
}

pub open spec fn application_data_json(inv: ApplicationDataInventory) -> Seq<char> {
    "{\"discoveryStatus\":\""@ + esc(inv.discovery_status@) + "\",\"contentInspected\":"@
        + bool_text(inv.content_inspected) + ",\"inaccessibleEntries\":"@ + dec(inv.inaccessible_entries as nat)
        + ",\"locations\":["@ + join(
        inv.locations@.map_values(|l: ApplicationDataLocation| app_location_json(l)),
        ","@,
    ) + "]}"@
}

pub fn render_application_data(inv: &ApplicationDataInventory) -> (s: String)
    ensures
        s@ == application_data_json(*inv),
{
    let mut parts: Vec<Vec<char>> = Vec::new();
    let mut i: usize = 0;
    while i < inv.locations.len()
        invariant
            i <= inv.locations@.len(),
            views(parts@) == inv.locations@.take(i as int).map_values(
                |l: ApplicationDataLocation| app_location_json(l),
            ),
        decreases inv.locations.len() - i,
    {
        let ghost before = views(parts@);
        let r = render_app_location(&inv.locations[i]);
        let ghost rv = r@;
        parts.push(r);
        proof {
            assert(inv.locations@.take(i + 1) =~= inv.locations@.take(i as int).push(inv.locations@[i as int]));
            assert(views(parts@) =~= before.push(rv));
        }
        i += 1;
        assert(views(parts@) =~= inv.locations@.take(i as int).map_values(
            |l: ApplicationDataLocation| app_location_json(l),
        ));
    }
    assert(inv.locations@.take(inv.locations@.len() as int) =~= inv.locations@);
    let mut out = chars_of("{\"discoveryStatus\":\"");
    push_esc(&mut out, inv.discovery_status.as_str());
    append_str(&mut out, "\",\"contentInspected\":");
    push_bool(&mut out, inv.content_inspected);
    append_str(&mut out, ",\"inaccessibleEntries\":");
    push_dec(&mut out, inv.inaccessible_entries);
    append_str(&mut out, ",\"locations\":[");
    push_joined(&mut out, &parts, ",");
    append_str(&mut out, "]}");
    string_of(&out)
}

pub open spec fn object_json(o: PdemObject) -> Seq<char> {
    "{\"objectId\":\""@ + esc(o.object_id@) + "\",\"objectType\":\""@ + esc(o.object_type@)
        + "\",\"category\":\""@ + esc(o.category@) + "\",\"location\":\""@ + esc(o.location@)
        + "\",\"storageScope\":\""@ + esc(o.storage_scope@) + "\",\"fileCount\":"@ + dec(o.file_count as nat)
        + ",\"totalBytes\":"@ + dec(o.total_bytes as nat) + ",\"risk\":\""@ + esc(o.risk@) + "\",\"confidence\":\""@
        + esc(o.confidence@) + "\",\"coverage\":\""@ + esc(o.coverage@) + "\",\"status\":\""@ + esc(o.status@)
        + "\",\"contentInspected\":"@ + bool_text(o.content_inspected) + ",\"discoveryMethod\":\""@
        + esc(o.discovery_method@) + "\"}"@
}

fn render_pdem_object(o: &PdemObject) -> (out: Vec<char>)
    ensures
        out@ == object_json(*o),
{
    let mut out = chars_of("{\"objectId\":\"");
    push_esc(&mut out, o.object_id.as_str());
    append_str(&mut out, "\",\"objectType\":\"");
    push_esc(&mut out, o.object_type.as_str());
    append_str(&mut out, "\",\"category\":\"");
    push_esc(&mut out, o.category.as_str());
    append_str(&mut out, "\",\"location\":\"");
    push_esc(&mut out, o.location.as_str());
    append_str(&mut out, "\",\"storageScope\":\"");
    push_esc(&mut out, o.storage_scope.as_str());
    append_str(&mut out, "\",\"fileCount\":");
    push_dec(&mut out, o.file_count);
    append_str(&mut out, ",\"totalBytes\":");
    push_dec(&mut out, o.total_bytes);
    append_str(&mut out, ",\"risk\":\"");
    push_esc(&mut out, o.risk.as_str());
    append_str(&mut out, "\",\"confidence\":\"");
    push_esc(&mut out, o.confidence.as_str());
    append_str(&mut out, "\",\"coverage\":\"");
    push_esc(&mut out, o.coverage.as_str());
    append_str(&mut out, "\",\"status\":\"");
    push_esc(&mut out, o.status.as_str());
    append_str(&mut out, "\",\"contentInspected\":");
    push_bool(&mut out, o.content_inspected);
    append_str(&mut out, ",\"discoveryMethod\":\"");
    push_esc(&mut out, o.discovery_method.as_str());
    append_str(&mut out, "\"}");
    out
}

pub open spec fn pdem_json(p: PdemProfile) -> Seq<char> {
    "{\"schemaVersion\":\""@ + esc(p.schema_version@) + "\",\"collectionStatus\":\""@
        + esc(p.collection_status@) + "\",\"objects\":["@ + join(
        p.objects@.map_values(|o: PdemObject| object_json(o)),
        ","@,
    ) + "],\"relationshipCount\":"@ + dec(p.relationships@.len()) + "}"@
}

pub fn render_pdem(p: &PdemProfile) -> (s: String)
    ensures
        s@ == pdem_json(*p),
{
    let mut parts: Vec<Vec<char>> = Vec::new();
    let mut i: usize = 0;
    while i < p.objects.len()
        invariant
            i <= p.objects@.len(),
            views(parts@) == p.objects@.take(i as int).map_values(|o: PdemObject| object_json(o)),
        decreases p.objects.len() - i,
    {
        let ghost before = views(parts@);
        let r = render_pdem_object(&p.objects[i]);
        let ghost rv = r@;
        parts.push(r);
        proof {
            assert(p.objects@.take(i + 1) =~= p.objects@.take(i as int).push(p.objects@[i as int]));
            assert(views(parts@) =~= before.push(rv));
        }
        i += 1;
        assert(views(parts@) =~= p.objects@.take(i as int).map_values(|o: PdemObject| object_json(o)));
    }
    assert(p.objects@.take(p.objects@.len() as int) =~= p.objects@);
    let mut out = chars_of("{\"schemaVersion\":\"");
    push_esc(&mut out, p.schema_version);
    append_str(&mut out, "\",\"collectionStatus\":\"");
    push_esc(&mut out, p.collection_status.as_str());
    append_str(&mut out, "\",\"objects\":[");
    push_joined(&mut out, &parts, ",");
    append_str(&mut out, "],\"relationshipCount\":");
    push_dec(&mut out, p.relationships.len() as u64);
    append_str(&mut out, "}");
    string_of(&out)
}

} // verus!
