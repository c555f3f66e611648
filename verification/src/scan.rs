//! The local, read-only assessment: what the platform reports, narrowed to
//! the drives the customer chose, and the exposure map built from it.

use vstd::prelude::*;
use crate::application_data::ApplicationDataInventory;
use crate::assessment::{self, AssessmentResult};
use crate::cpu::CpuProfile;
use crate::device::DeviceIdentity;
use crate::encryption::EncryptionProfile;
use crate::evidence::{self, EvidenceRecord};
use crate::hardware_inventory_v1::HardwareInventoryV1;
use crate::os::OsProfile;
use crate::pdem::{self, PdemProfile};
use crate::personal_data::PersonalDataInventory;
use crate::storage::StorageProfile;
use crate::text::{
    append_str, chars_of, eq_str, is_ascii_alpha, join, lex_lt, owned, seq_eq, string_of,
    string_views, upper, views,
};
use crate::usb_topology::{insert_sorted, strictly_ascending};
use crate::user_profiles::UserProfileInventory;
use crate::volume::VolumeProfile;

verus! {

/// Read-only operating-system boundary used by GUI, CLI and headless
/// callers. Implementations use fixed, trusted commands or native APIs; no
/// caller-supplied command crosses this boundary.
///
/// Each `answered_*` relation says that a value is one the adapter gave for
/// that question (and, where the question has arguments, for those
/// arguments). By default they say nothing; an adapter that can describe
/// its platform overrides them, and the scan's contract is stated over them.
pub trait PlatformAdapter {
    closed spec fn answered_device(&self, r: DeviceIdentity) -> bool {
        true
    }

    closed spec fn answered_os(&self, r: OsProfile) -> bool {
        true
    }

    closed spec fn answered_cpu(&self, r: CpuProfile) -> bool {
        true
    }

    closed spec fn answered_encryption(&self, r: EncryptionProfile) -> bool {
        true
    }

    closed spec fn answered_storage(&self, r: StorageProfile) -> bool {
        true
    }

    closed spec fn answered_volumes(&self, r: Seq<VolumeProfile>) -> bool {
        true
    }

    closed spec fn answered_user_profiles(&self, r: UserProfileInventory) -> bool {
        true
    }

    closed spec fn answered_personal_data(
        &self,
        profile_paths: Seq<Seq<char>>,
        volume_roots: Seq<Seq<char>>,
        r: PersonalDataInventory,
    ) -> bool {
        true
    }

    closed spec fn answered_application_data(&self, profile_paths: Seq<Seq<char>>, r: ApplicationDataInventory) -> bool {
        true
    }

    fn collect_device(&self) -> (r: DeviceIdentity)
        ensures
            self.answered_device(r),
    ;

    fn collect_os(&self) -> (r: OsProfile)
        ensures
            self.answered_os(r),
    ;

    fn collect_cpu(&self) -> (r: CpuProfile)
        ensures
            self.answered_cpu(r),
    ;

    fn collect_storage(&self) -> (r: StorageProfile)
        ensures
            self.answered_storage(r),
    ;

    fn collect_volumes(&self) -> (r: Vec<VolumeProfile>)
        ensures
            self.answered_volumes(r@),
    ;

    fn collect_encryption(&self) -> (r: EncryptionProfile)
        ensures
            self.answered_encryption(r),
    ;

    fn collect_user_profiles(&self) -> (r: UserProfileInventory)
        ensures
            self.answered_user_profiles(r),
    ;

    fn collect_personal_data(&self, profile_paths: &[String], volume_roots: &[String]) -> (r: PersonalDataInventory)
        ensures
            self.answered_personal_data(string_views(profile_paths@), string_views(volume_roots@), r),
    ;

    fn collect_application_data(&self, profile_paths: &[String]) -> (r: ApplicationDataInventory)
        ensures
            self.answered_application_data(string_views(profile_paths@), r),
    ;

    /// The passive hardware inventory. An adapter without a separately
    /// tested collector keeps it absent.
    fn collect_hardware_inventory(&self) -> Option<HardwareInventoryV1> {
        None
    }
}

/// Where a local assessment reports `(percent, stage index, stage, detail)`
/// as it goes.
pub trait ScanProgress {
    fn report(&mut self, percent: u8, index: u8, stage: &str, detail: &str);
}

/// Progress nobody watches.
pub struct NoProgress;

impl ScanProgress for NoProgress {
    fn report(&mut self, percent: u8, index: u8, stage: &str, detail: &str) {
    }
}

/// Everything one local assessment recorded.
pub struct ScanResult {
    pub device: DeviceIdentity,
    pub operating_system: OsProfile,
    pub cpu: CpuProfile,
    pub storage: StorageProfile,
    pub volumes: Vec<VolumeProfile>,
    pub encryption: EncryptionProfile,
    pub user_profiles: UserProfileInventory,
    pub personal_data: PersonalDataInventory,
    pub application_data: ApplicationDataInventory,
    pub pdem: PdemProfile,
    pub evidence: EvidenceRecord,
    pub assessment: AssessmentResult,
    pub hardware_inventory: Option<HardwareInventoryV1>,
}

/// The first ASCII letter of `s`, if any.
pub open spec fn first_letter(s: Seq<char>) -> Option<char>
    decreases s.len(),
{
    if s.len() == 0 {
        None
    } else if is_ascii_alpha(s[0]) {
        Some(s[0])
    } else {
        first_letter(s.drop_first())
    }
}

/// The drive a text names: its first ASCII letter, upper-cased; empty when
/// it has none.
pub open spec fn letter_key_spec(s: Seq<char>) -> Seq<char> {
    match first_letter(s) {
        Some(c) => seq![upper(c)],
        None => Seq::empty(),
    }
}

pub fn letter_key(value: &str) -> (key: String)
    ensures
        key@ == letter_key_spec(value@),
{
    let v = chars_of(value);
    assert(v@.skip(0) =~= v@);
    let mut i: usize = 0;
    while i < v.len()
        invariant
            i <= v@.len(),
            v@ == value@,
            first_letter(value@) == first_letter(v@.skip(i as int)),
        decreases v.len() - i,
    {
        assert(v@.skip(i as int).drop_first() =~= v@.skip(i + 1));
        let c = v[i];
        if ('a' <= c && c <= 'z') || ('A' <= c && c <= 'Z') {
            let u = crate::text::upper_char(c);
            let mut out: Vec<char> = Vec::new();
            out.push(u);
            assert(out@ =~= seq![upper(c)]);
            return string_of(&out);
        }
        i += 1;
    }
    assert(v@.skip(v@.len() as int) =~= Seq::<char>::empty());
    String::new()
}

/// Whether a path lies on one of the chosen drives.
pub open spec fn on_letters(path: Seq<char>, letters: Seq<Seq<char>>) -> bool {
    letter_key_spec(path).len() > 0 && exists|i: int|
        0 <= i < letters.len() && letter_key_spec(#[trigger] letters[i]) == letter_key_spec(path)
}

pub fn path_matches_letters(path: &str, letters: &[String]) -> (r: bool)
    ensures
        r == on_letters(path@, string_views(letters@)),
{
    let key = letter_key(path);
    let kv = chars_of(key.as_str());
    if kv.len() == 0 {
        return false;
    }
    let mut i: usize = 0;
    while i < letters.len()
        invariant
            i <= letters@.len(),
            kv@ == letter_key_spec(path@),
            kv@.len() > 0,
            forall|k: int| 0 <= k < i ==> letter_key_spec((#[trigger] letters@[k])@) != letter_key_spec(path@),
        decreases letters.len() - i,
    {
        let lk = letter_key(letters[i].as_str());
        if seq_eq(&chars_of(lk.as_str()), &kv) {
            assert(string_views(letters@)[i as int] == letters@[i as int]@);
            assert(letter_key_spec(string_views(letters@)[i as int]) == letter_key_spec(path@));
            return true;
        }
        i += 1;
    }
    proof {
        assert forall|k: int| 0 <= k < string_views(letters@).len() implies letter_key_spec(
            #[trigger] string_views(letters@)[k],
        ) != letter_key_spec(path@) by {
            assert(string_views(letters@)[k] == letters@[k]@);
        }
    }
    false
}

/// The volumes on the chosen drives, in order; all of them when no choice
/// was made.
pub open spec fn volume_chosen(v: VolumeProfile, letters: Option<Seq<Seq<char>>>) -> bool {
    match letters {
        None => true,
        Some(ls) => names_drive(ls, letter_key_spec(v.drive_letter@)),
    }
}

/// One of the texts names the drive `key`.
pub open spec fn names_drive(letters: Seq<Seq<char>>, key: Seq<char>) -> bool {
    exists|i: int| 0 <= i < letters.len() && letter_key_spec(#[trigger] letters[i]) == key
}

fn is_chosen(volume: &VolumeProfile, drive_letters: Option<&[String]>) -> (r: bool)
    ensures
        r == volume_chosen(*volume, chosen_letters(drive_letters)),
{
    match drive_letters {
        None => true,
        Some(ls) => {
            let key = letter_key(volume.drive_letter.as_str());
            let kv = chars_of(key.as_str());
            let mut j: usize = 0;
            while j < ls.len()
                invariant
                    j <= ls@.len(),
                    drive_letters == Some(ls),
                    kv@ == letter_key_spec(volume.drive_letter@),
                    forall|k: int| 0 <= k < j ==> letter_key_spec((#[trigger] ls@[k])@) != kv@,
                decreases ls.len() - j,
            {
                let lk = letter_key(ls[j].as_str());
                if seq_eq(&chars_of(lk.as_str()), &kv) {
                    assert(letter_key_spec(string_views(ls@)[j as int]) == kv@);
                    return true;
                }
                j += 1;
            }
            proof {
                let sv = string_views(ls@);
                assert forall|k: int| 0 <= k < sv.len() implies letter_key_spec(#[trigger] sv[k]) != kv@ by {
                    assert(sv[k] == ls@[k]@);
                }
            }
            false
        },
    }
}

/// The chosen drive letters' texts, when a choice was made.
pub open spec fn chosen_letters(drive_letters: Option<&[String]>) -> Option<Seq<Seq<char>>> {
    match drive_letters {
        Some(ls) => Some(string_views(ls@)),
        None => None,
    }
}

pub fn filter_volumes(volumes: &[VolumeProfile], drive_letters: Option<&[String]>) -> (out: Vec<VolumeProfile>)
    ensures
        out@ == volumes@.filter(|v: VolumeProfile| volume_chosen(v, chosen_letters(drive_letters))),
{
    let mut out: Vec<VolumeProfile> = Vec::new();
    let mut i: usize = 0;
    while i < volumes.len()
        invariant
            i <= volumes@.len(),
            out@ == volumes@.take(i as int).filter(
                |v: VolumeProfile| volume_chosen(v, chosen_letters(drive_letters)),
            ),
        decreases volumes.len() - i,
    {
        let ghost pre = volumes@.take(i as int);
        assert(volumes@.take(i + 1).drop_last() =~= pre);
        reveal_with_fuel(Seq::<_>::filter, 1);
        let keep = is_chosen(&volumes[i], drive_letters);
        assert(keep == volume_chosen(volumes@[i as int], chosen_letters(drive_letters)));
        if keep {
            out.push(volumes[i].duplicate());
            assert(volumes@.take(i + 1).filter(|v: VolumeProfile| volume_chosen(v, chosen_letters(drive_letters)))
                =~= pre.filter(|v: VolumeProfile| volume_chosen(v, chosen_letters(drive_letters))).push(volumes@[i as int]));
        } else {
            assert(volumes@.take(i + 1).filter(|v: VolumeProfile| volume_chosen(v, chosen_letters(drive_letters)))
                =~= pre.filter(|v: VolumeProfile| volume_chosen(v, chosen_letters(drive_letters))));
        }
        i += 1;
    }
    assert(volumes@.take(volumes@.len() as int) =~= volumes@);
    out
}

/// The root of every volume with a known letter, such as `D:\\`.
pub open spec fn volume_roots_spec(volumes: Seq<VolumeProfile>) -> Seq<Seq<char>> {
    volumes.filter(|v: VolumeProfile| v.drive_letter@ != "unknown"@).map_values(
        |v: VolumeProfile| v.drive_letter@ + ":\\"@,
    )
}

pub fn volume_roots(volumes: &[VolumeProfile]) -> (out: Vec<String>)
    ensures
        string_views(out@) == volume_roots_spec(volumes@),
{
    let mut out: Vec<String> = Vec::new();
    let mut i: usize = 0;
    while i < volumes.len()
        invariant
            i <= volumes@.len(),
            string_views(out@) == volume_roots_spec(volumes@.take(i as int)),
        decreases volumes.len() - i,
    {
        let ghost pre = volumes@.take(i as int);
        assert(volumes@.take(i + 1).drop_last() =~= pre);
        reveal_with_fuel(Seq::<_>::filter, 1);
        let letter = chars_of(volumes[i].drive_letter.as_str());
        if !eq_str(&letter, "unknown") {
            let mut root = letter;
            append_str(&mut root, ":\\");
            let ghost rv = root@;
            let ghost old_views = string_views(out@);
            out.push(string_of(&root));
            assert(string_views(out@) =~= old_views.push(rv));
            assert(volumes@.take(i + 1).filter(|v: VolumeProfile| v.drive_letter@ != "unknown"@)
                =~= pre.filter(|v: VolumeProfile| v.drive_letter@ != "unknown"@).push(volumes@[i as int]));
            assert(volume_roots_spec(volumes@.take(i + 1)) =~= volume_roots_spec(pre).push(rv));
        } else {
            assert(volumes@.take(i + 1).filter(|v: VolumeProfile| v.drive_letter@ != "unknown"@)
                =~= pre.filter(|v: VolumeProfile| v.drive_letter@ != "unknown"@));
        }
        i += 1;
    }
    assert(volumes@.take(volumes@.len() as int) =~= volumes@);
    out
}

/// The drives a scan covered, as `C:, D:`; or `the selected drive` when
/// none has a known letter.
pub open spec fn scanned_label_spec(volumes: Seq<VolumeProfile>) -> Seq<char> {
    let letters = volumes.filter(|v: VolumeProfile| v.drive_letter@ != "unknown"@).map_values(
        |v: VolumeProfile| v.drive_letter@ + ":"@,
    );
    if letters.len() == 0 {
        "the selected drive"@
    } else {
        join(letters, ", "@)
    }
}

pub fn scanned_drive_label(volumes: &[VolumeProfile]) -> (s: String)
    ensures
        s@ == scanned_label_spec(volumes@),
{
    let mut parts: Vec<Vec<char>> = Vec::new();
    let mut i: usize = 0;
    while i < volumes.len()
        invariant
            i <= volumes@.len(),
            views(parts@) == volumes@.take(i as int).filter(|v: VolumeProfile| v.drive_letter@ != "unknown"@).map_values(
                |v: VolumeProfile| v.drive_letter@ + ":"@,
            ),
        decreases volumes.len() - i,
    {
        let ghost pre = volumes@.take(i as int);
        assert(volumes@.take(i + 1).drop_last() =~= pre);
        reveal_with_fuel(Seq::<_>::filter, 1);
        let letter = chars_of(volumes[i].drive_letter.as_str());
        if !eq_str(&letter, "unknown") {
            let mut l = letter;
            append_str(&mut l, ":");
            let ghost lv = l@;
            let ghost old_views = views(parts@);
            parts.push(l);
            assert(views(parts@) =~= old_views.push(lv));
            let ghost fpre = pre.filter(|v: VolumeProfile| v.drive_letter@ != "unknown"@);
            assert(volumes@.take(i + 1).filter(|v: VolumeProfile| v.drive_letter@ != "unknown"@)
                =~= fpre.push(volumes@[i as int]));
            assert(fpre.push(volumes@[i as int]).map_values(|v: VolumeProfile| v.drive_letter@ + ":"@)
                =~= fpre.map_values(|v: VolumeProfile| v.drive_letter@ + ":"@).push(lv));
        } else {
            assert(volumes@.take(i + 1).filter(|v: VolumeProfile| v.drive_letter@ != "unknown"@)
                =~= pre.filter(|v: VolumeProfile| v.drive_letter@ != "unknown"@));
        }
        i += 1;
    }
    assert(volumes@.take(volumes@.len() as int) =~= volumes@);
    if parts.len() == 0 {
        return owned("the selected drive");
    }
    let mut out: Vec<char> = Vec::new();
    crate::report::push_joined(&mut out, &parts, ", ");
    assert(out@ =~= scanned_label_spec(volumes@));
    string_of(&out)
}

/// The profile folders a scan searches: each ordinary profile with a known
/// path, and the current profile when known.
pub open spec fn profile_candidate(inv: UserProfileInventory, s: Seq<char>) -> bool {
    (exists|i: int|
        0 <= i < inv.profiles@.len() && !(#[trigger] inv.profiles@[i]).special && inv.profiles@[i].path@
            != "unknown"@ && inv.profiles@[i].path@ == s) || (inv.current_profile@ != "unknown"@
        && inv.current_profile@ == s)
}

/// The profile folders to search, sorted and without repeats.
pub fn profile_paths(inventory: &UserProfileInventory) -> (paths: Vec<String>)
    ensures
        strictly_ascending(string_views(paths@)),
        forall|s: Seq<char>| string_views(paths@).contains(s) <==> profile_candidate(*inventory, s),
{
    let mut sorted: Vec<Vec<char>> = Vec::new();
    let mut i: usize = 0;
    while i < inventory.profiles.len()
        invariant
            i <= inventory.profiles@.len(),
            strictly_ascending(views(sorted@)),
            forall|s: Seq<char>|
                views(sorted@).contains(s) <==> exists|k: int|
                    0 <= k < i && !(#[trigger] inventory.profiles@[k]).special
                        && inventory.profiles@[k].path@ != "unknown"@ && inventory.profiles@[k].path@ == s,
        decreases inventory.profiles.len() - i,
    {
        let ghost before = views(sorted@);
        let p = &inventory.profiles[i];
        let path = chars_of(p.path.as_str());
        let take = !p.special && !eq_str(&path, "unknown");
        if take {
            insert_sorted(&mut sorted, path);
        }
        proof {
            assert forall|s: Seq<char>|
                views(sorted@).contains(s) <==> exists|k: int|
                    0 <= k < i + 1 && !(#[trigger] inventory.profiles@[k]).special
                        && inventory.profiles@[k].path@ != "unknown"@ && inventory.profiles@[k].path@ == s by {
                if exists|k: int|
                    0 <= k < i + 1 && !(#[trigger] inventory.profiles@[k]).special
                        && inventory.profiles@[k].path@ != "unknown"@ && inventory.profiles@[k].path@ == s {
                    let k = choose|k: int|
                        0 <= k < i + 1 && !(#[trigger] inventory.profiles@[k]).special
                            && inventory.profiles@[k].path@ != "unknown"@ && inventory.profiles@[k].path@ == s;
                    if k < i {
                        assert(before.contains(s));
                    }
                }
            }
        }
        i += 1;
    }
    let current = chars_of(inventory.current_profile.as_str());
    let ghost before = views(sorted@);
    if !eq_str(&current, "unknown") {
        insert_sorted(&mut sorted, current);
    }
    let mut paths: Vec<String> = Vec::new();
    let mut j: usize = 0;
    while j < sorted.len()
        invariant
            j <= sorted@.len(),
            string_views(paths@) == views(sorted@).take(j as int),
        decreases sorted.len() - j,
    {
        let ghost old_views = string_views(paths@);
        let p = string_of(&sorted[j]);
        paths.push(p);
        assert(string_views(paths@) =~= old_views.push(sorted@[j as int]@));
        assert(views(sorted@).take(j + 1) =~= views(sorted@).take(j as int).push(sorted@[j as int]@));
        j += 1;
        assert(string_views(paths@) =~= views(sorted@).take(j as int));
    }
    assert(views(sorted@).take(sorted@.len() as int) =~= views(sorted@));
    proof {
        assert forall|s: Seq<char>| string_views(paths@).contains(s) <==> profile_candidate(*inventory, s) by {
            if string_views(paths@).contains(s) && !before.contains(s) {
                assert(inventory.current_profile@ == s);
            }
        }
    }
    paths
}

/// The paths that lie on one of the chosen drives, in order.
pub fn paths_on_letters(paths: Vec<String>, letters: &[String]) -> (out: Vec<String>)
    ensures
        string_views(out@) == string_views(paths@).filter(path_filter(string_views(letters@))),
{
    let mut out: Vec<String> = Vec::new();
    let mut i: usize = 0;
    while i < paths.len()
        invariant
            i <= paths@.len(),
            string_views(out@) == string_views(paths@).take(i as int).filter(
                path_filter(string_views(letters@)),
            ),
        decreases paths.len() - i,
    {
        let ghost pre = string_views(paths@).take(i as int);
        assert(string_views(paths@).take(i + 1).drop_last() =~= pre);
        assert(string_views(paths@).take(i + 1).last() == paths@[i as int]@);
        reveal_with_fuel(Seq::<_>::filter, 1);
        if path_matches_letters(paths[i].as_str(), letters) {
            let ghost old_views = string_views(out@);
            out.push(paths[i].clone());
            assert(string_views(out@) =~= old_views.push(paths@[i as int]@));
        }
        i += 1;
    }
    assert(string_views(paths@).take(paths@.len() as int) =~= string_views(paths@));
    out
}

/// An empty exposure map, for inventories too large to number.
fn unnumbered_pdem() -> (p: PdemProfile) {
    PdemProfile {
        schema_version: "pdem-1.2",
        collection_status: owned("partial"),
        objects: Vec::new(),
        relationships: Vec::new(),
    }
}

/// Whether a profile folder lies on one of `letters`.
pub open spec fn path_filter(letters: Seq<Seq<char>>) -> spec_fn(Seq<char>) -> bool {
    |p: Seq<char>| on_letters(p, letters)
}

/// The profile folders searched: all of them, or those on the chosen drives.
pub open spec fn searched_paths(paths: Seq<Seq<char>>, drive_letters: Option<&[String]>) -> Seq<Seq<char>> {
    match drive_letters {
        Some(letters) => paths.filter(path_filter(string_views(letters@))),
        None => paths,
    }
}

/// Run a local assessment through `adapter`, on the chosen drives when
/// `drive_letters` is given, recording it at `collected_at_unix`.
///
/// The profile folders searched are those of [`profile_paths`], narrowed to
/// the chosen drives; the volume roots are those of the chosen volumes. The
/// exposure map is built from the personal and application data found.
/// Nothing here writes, erases or opens a file.
pub fn run_scan_selected<A: PlatformAdapter, P: ScanProgress>(
    adapter: &A,
    drive_letters: Option<&[String]>,
    collected_at_unix: u64,
    progress: &mut P,
) -> (r: ScanResult)
    ensures
        forall|i: int|
            0 <= i < r.volumes@.len() ==> volume_chosen(#[trigger] r.volumes@[i], chosen_letters(drive_letters)),
        r.personal_data.locations@.len() + r.application_data.locations@.len() < u64::MAX ==> pdem::built_from(
            r.pdem,
            r.personal_data,
            r.application_data,
        ),
        r.evidence.collected_at_unix == collected_at_unix,
        r.evidence.source@ == "cyvoriq-local-agent"@,
        r.assessment.scan_mode@ == "non_destructive"@,
        r.assessment.status@ == "foundation_ready"@,
        r.assessment.summary@ == "CYVRA local assessment completed. No data was erased."@,
        adapter.answered_device(r.device),
        adapter.answered_os(r.operating_system),
        adapter.answered_cpu(r.cpu),
        adapter.answered_encryption(r.encryption),
        adapter.answered_storage(r.storage),
        adapter.answered_user_profiles(r.user_profiles),
        exists|all: Seq<VolumeProfile>|
            adapter.answered_volumes(all) && r.volumes@ == all.filter(
                |v: VolumeProfile| volume_chosen(v, chosen_letters(drive_letters)),
            ),
        exists|paths: Seq<Seq<char>>|
            #![trigger adapter.answered_application_data(searched_paths(paths, drive_letters), r.application_data)]
            {
                &&& strictly_ascending(paths)
                &&& (forall|s: Seq<char>| paths.contains(s) <==> profile_candidate(r.user_profiles, s))
                &&& adapter.answered_personal_data(
                    searched_paths(paths, drive_letters),
                    volume_roots_spec(r.volumes@),
                    r.personal_data,
                )
                &&& adapter.answered_application_data(searched_paths(paths, drive_letters), r.application_data)
            },
{
    progress.report(6, 0, "Preparing verification", "Getting this PC ready for a local assessment.");
    progress.report(14, 1, "Confirming device identity", "Reading the Windows computer name and model.");
    let device = adapter.collect_device();
    let operating_system = adapter.collect_os();
    progress.report(28, 2, "Collecting hardware information", "Recording processor, memory and firmware details.");
    let cpu = adapter.collect_cpu();
    let storage = adapter.collect_storage();
    let volumes_all = adapter.collect_volumes();
    let volumes = filter_volumes(volumes_all.as_slice(), drive_letters);
    proof {
        assert forall|i: int| 0 <= i < volumes@.len() implies volume_chosen(
            #[trigger] volumes@[i],
            chosen_letters(drive_letters),
        ) by {
            let f = |v: VolumeProfile| volume_chosen(v, chosen_letters(drive_letters));
            assert(volumes_all@.filter(f).contains(volumes@[i]));
        }
    }
    let encryption = adapter.collect_encryption();
    let user_profiles = adapter.collect_user_profiles();
    let hardware_inventory = adapter.collect_hardware_inventory();
    let all_paths = profile_paths(&user_profiles);
    let paths = match drive_letters {
        Some(letters) => paths_on_letters(all_paths, letters),
        None => all_paths,
    };
    let roots = volume_roots(volumes.as_slice());
    let scanned = scanned_drive_label(volumes.as_slice());
    let mut detail: Vec<char> = Vec::new();
    append_str(&mut detail, "Looking for documents and known file types on ");
    append_str(&mut detail, scanned.as_str());
    append_str(&mut detail, ".");
    let detail = string_of(&detail);
    progress.report(48, 3, "Assessing personal-data locations", detail.as_str());
    let personal_data = adapter.collect_personal_data(paths.as_slice(), roots.as_slice());
    progress.report(62, 3, "Assessing personal-data locations", "Checking application data folders without opening messages.");
    let application_data = adapter.collect_application_data(paths.as_slice());
    progress.report(76, 4, "Building the Privacy Exposure Map", "Summarising where personal files appear to live.");
    let pdem = if (personal_data.locations.len() as u128) + (application_data.locations.len() as u128)
        < 0xffff_ffff_ffff_ffffu128 {
        pdem::build(&personal_data, &application_data)
    } else {
        unnumbered_pdem()
    };
    progress.report(86, 5, "Preparing evidence", "Recording what was assessed on this PC.");
    let evidence = evidence::collect(collected_at_unix);
    progress.report(93, 6, "Checking consistency", "Confirming the assessment stayed read-only.");
    let assessment = assessment::assess();
    progress.report(100, 7, "Preparing results", "The local assessment is ready to review.");
    proof {
        assert(string_views(paths@) == searched_paths(string_views(all_paths@), drive_letters));
    }
    let r = ScanResult {
        device,
        operating_system,
        cpu,
        storage,
        volumes,
        encryption,
        user_profiles,
        personal_data,
        application_data,
        pdem,
        evidence,
        assessment,
        hardware_inventory,
    };
    proof {
        let ps = string_views(all_paths@);
        assert({
            &&& strictly_ascending(ps)
            &&& (forall|s: Seq<char>| ps.contains(s) <==> profile_candidate(r.user_profiles, s))
            &&& adapter.answered_personal_data(
                searched_paths(ps, drive_letters),
                volume_roots_spec(r.volumes@),
                r.personal_data,
            )
            &&& adapter.answered_application_data(searched_paths(ps, drive_letters), r.application_data)
        });
    }
    r
}

/// Run a local assessment of every drive.
pub fn run_scan_with<A: PlatformAdapter>(adapter: &A, collected_at_unix: u64) -> (r: ScanResult)
    ensures
        r.personal_data.locations@.len() + r.application_data.locations@.len() < u64::MAX ==> pdem::built_from(
            r.pdem,
            r.personal_data,
            r.application_data,
        ),
        r.evidence.collected_at_unix == collected_at_unix,
        r.assessment.scan_mode@ == "non_destructive"@,
        adapter.answered_device(r.device),
        adapter.answered_os(r.operating_system),
        adapter.answered_cpu(r.cpu),
        adapter.answered_encryption(r.encryption),
        adapter.answered_storage(r.storage),
        adapter.answered_user_profiles(r.user_profiles),
        exists|all: Seq<VolumeProfile>|
            adapter.answered_volumes(all) && r.volumes@ == all.filter(
                |v: VolumeProfile| volume_chosen(v, None),
            ),
        exists|paths: Seq<Seq<char>>|
            #![trigger adapter.answered_application_data(paths, r.application_data)]
            {
                &&& strictly_ascending(paths)
                &&& (forall|s: Seq<char>| paths.contains(s) <==> profile_candidate(r.user_profiles, s))
                &&& adapter.answered_personal_data(paths, volume_roots_spec(r.volumes@), r.personal_data)
                &&& adapter.answered_application_data(paths, r.application_data)
            },
{
    run_scan_selected(adapter, None, collected_at_unix, &mut NoProgress)
}

/// The engineering JSON report of a scan.
pub open spec fn scan_json(r: ScanResult) -> Seq<char> {
    crate::report::head_json(r.assessment, r.device) + crate::report::system_json(
        r.operating_system,
        r.cpu,
        r.storage,
    ) + crate::report::evidence_json(
        r.volumes@,
        r.encryption,
        r.user_profiles,
        r.personal_data,
        r.application_data,
        r.pdem,
    ) + crate::report::tail_json(r.evidence, r.assessment)
}

impl ScanResult {
    /// The engineering JSON report, as the 0.2.1 agent wrote it.
    pub fn render_json(&self) -> (s: String)
        ensures
            s@ == scan_json(*self),
    {
        let a6 = crate::report::A6Evidence { volumes: self.volumes.as_slice(), encryption: &self.encryption };
        let a7 = crate::report::A7Evidence {
            user_profiles: &self.user_profiles,
            personal_data: &self.personal_data,
            application_data: &self.application_data,
            pdem: &self.pdem,
        };
        let context = crate::report::ReportContext {
            a6: &a6,
            a7: &a7,
            evidence: &self.evidence,
            assessment: &self.assessment,
        };
        crate::report::render(&self.device, &self.operating_system, &self.cpu, &self.storage, &context)
    }
}

/// A drive size as listed for the customer: whole GB, whole MB, or that it
/// was not reported.
pub open spec fn drive_size_text(bytes: u64) -> Seq<char> {
    if bytes == 0 {
        "Size not reported"@
    } else if bytes >= 1073741824 {
        crate::numtext::dec(crate::customer_fields::round_even(bytes as nat, 1073741824)) + " GB"@
    } else {
        crate::numtext::dec(crate::customer_fields::round_even(bytes as nat, 1048576)) + " MB"@
    }
}

pub fn format_drive_size(bytes: u64) -> (s: String)
    ensures
        s@ == drive_size_text(bytes),
{
    if bytes == 0 {
        return owned("Size not reported");
    }
    let d: u64 = if bytes >= 1073741824 {
        1073741824
    } else {
        1048576
    };
    let q = bytes / d;
    let r = bytes % d;
    let rounded: u64 = if 2 * (r as u128) > d as u128 || (2 * (r as u128) == d as u128 && q % 2 == 1) {
        q + 1
    } else {
        q
    };
    let mut out: Vec<char> = Vec::new();
    crate::numtext::push_dec(&mut out, rounded);
    if bytes >= 1073741824 {
        append_str(&mut out, " GB");
    } else {
        append_str(&mut out, " MB");
    }
    string_of(&out)
}

/// The drive a customer may choose, from one listed volume. `None` for a
/// volume without a drive letter.
pub open spec fn target_ok(t: crate::ScanTarget, v: VolumeProfile, system: Seq<char>) -> bool {
    let letter = letter_key_spec(v.drive_letter@);
    let is_system = letter == system;
    let kind = v.drive_kind@;
    &&& t.letter@ == letter
    &&& t.label@ == (if v.label@ == "unknown"@ || v.label@.len() == 0 {
        if is_system {
            "Windows"@
        } else {
            "Local disk"@
        }
    } else {
        v.label@
    })
    &&& t.kind@ == (if kind == "removable"@ {
        "Removable or USB"@
    } else if kind == "network"@ {
        "Network location"@
    } else if kind == "optical"@ {
        "Optical drive"@
    } else if kind == "internal"@ {
        "Internal disk"@
    } else {
        "Other"@
    })
    &&& t.size_label@ == drive_size_text(v.size_bytes)
    &&& t.default_selected == (is_system && kind != "removable"@)
    &&& t.hint@ == (if kind == "removable"@ || kind == "optical"@ {
        "Left off by default. Select this only if you want it included."@
    } else if is_system {
        "This is the Windows system drive. Recommended for every assessment."@
    } else {
        "May be an extra internal disk or an attached USB drive. Leave it off unless you need it."@
    })
}

pub open spec fn listable(v: VolumeProfile) -> bool {
    letter_key_spec(v.drive_letter@).len() > 0 && v.drive_letter@ != "unknown"@
}

fn target_for(v: &VolumeProfile, system: &Vec<char>) -> (t: crate::ScanTarget)
    ensures
        target_ok(t, *v, system@),
{
    let letter = letter_key(v.drive_letter.as_str());
    let lv = chars_of(letter.as_str());
    let is_system = seq_eq(&lv, system);
    let kind = chars_of(v.drive_kind.as_str());
    let kind_label = if eq_str(&kind, "removable") {
        "Removable or USB"
    } else if eq_str(&kind, "network") {
        "Network location"
    } else if eq_str(&kind, "optical") {
        "Optical drive"
    } else if eq_str(&kind, "internal") {
        "Internal disk"
    } else {
        "Other"
    };
    let removable = eq_str(&kind, "removable");
    let hint = if removable || eq_str(&kind, "optical") {
        "Left off by default. Select this only if you want it included."
    } else if is_system {
        "This is the Windows system drive. Recommended for every assessment."
    } else {
        "May be an extra internal disk or an attached USB drive. Leave it off unless you need it."
    };
    let label_chars = chars_of(v.label.as_str());
    let label = if eq_str(&label_chars, "unknown") || label_chars.len() == 0 {
        if is_system {
            owned("Windows")
        } else {
            owned("Local disk")
        }
    } else {
        v.label.clone()
    };
    crate::ScanTarget {
        letter,
        label,
        kind: owned(kind_label),
        size_label: format_drive_size(v.size_bytes),
        default_selected: is_system && !removable,
        hint: owned(hint),
    }
}

/// The drives a customer may choose from, in volume order; volumes without
/// a letter are left out. `system_letter` is the Windows system drive.
pub fn scan_targets(volumes: &[VolumeProfile], system_letter: &str) -> (out: Vec<crate::ScanTarget>)
    ensures
        out@.len() == volumes@.filter(|v: VolumeProfile| listable(v)).len(),
        forall|i: int|
            0 <= i < out@.len() ==> target_ok(
                #[trigger] out@[i],
                volumes@.filter(|v: VolumeProfile| listable(v))[i],
                system_letter@,
            ),
{
    let system = chars_of(system_letter);
    let mut out: Vec<crate::ScanTarget> = Vec::new();
    let mut i: usize = 0;
    while i < volumes.len()
        invariant
            i <= volumes@.len(),
            system@ == system_letter@,
            out@.len() == volumes@.take(i as int).filter(|v: VolumeProfile| listable(v)).len(),
            forall|k: int|
                0 <= k < out@.len() ==> target_ok(
                    #[trigger] out@[k],
                    volumes@.take(i as int).filter(|v: VolumeProfile| listable(v))[k],
                    system_letter@,
                ),
        decreases volumes.len() - i,
    {
        let ghost pre = volumes@.take(i as int);
        assert(volumes@.take(i + 1).drop_last() =~= pre);
        reveal_with_fuel(Seq::<_>::filter, 1);
        let v = &volumes[i];
        let key = letter_key(v.drive_letter.as_str());
        if chars_of(key.as_str()).len() > 0 && !eq_str(&chars_of(v.drive_letter.as_str()), "unknown") {
            let t = target_for(v, &system);
            out.push(t);
            assert(volumes@.take(i + 1).filter(|v: VolumeProfile| listable(v)) =~= pre.filter(
                |v: VolumeProfile| listable(v),
            ).push(volumes@[i as int]));
        } else {
            assert(volumes@.take(i + 1).filter(|v: VolumeProfile| listable(v)) =~= pre.filter(
                |v: VolumeProfile| listable(v),
            ));
        }
        i += 1;
    }
    assert(volumes@.take(volumes@.len() as int) =~= volumes@);
    out
}

} // verus!
