//! Where personal files appear to live, by category. Only names and sizes
//! are read; no file is ever opened.

use vstd::prelude::*;
use crate::text::{chars_of, eq_str, lower_seq, lower_vec, owned};

verus! {

#[derive(Debug, Clone)]
pub struct DataLocation {
    pub path: String,
    pub category: String,
    /// How the folder came to be searched, such as `confirmed_user_location`.
    pub classification: String,
    /// What found it.
    pub source: String,
    pub confidence: String,
    pub file_count: u64,
    pub total_bytes: u64,
    pub scan_status: String,
}

#[derive(Debug, Clone)]
pub struct PersonalDataInventory {
    pub discovery_status: String,
    pub content_inspected: bool,
    pub locations: Vec<DataLocation>,
    pub inaccessible_entries: u64,
}

impl PersonalDataInventory {
    pub fn not_windows() -> (inv: Self)
        ensures
            inv.discovery_status@ == "not_windows"@,
            !inv.content_inspected,
            inv.locations@.len() == 0,
            inv.inaccessible_entries == 0,
    {
        PersonalDataInventory {
            discovery_status: owned("not_windows"),
            content_inspected: false,
            locations: Vec::new(),
            inaccessible_entries: 0,
        }
    }
}

/// The folders under each profile that are searched.
pub const PROFILE_FOLDERS: [&'static str; 7] = [
    "Desktop",
    "Documents",
    "Downloads",
    "Pictures",
    "Videos",
    "Music",
    "OneDrive",
];

/// The category of a file extension, compared without case.
pub open spec fn category_spec(extension: Seq<char>) -> Option<Seq<char>> {
    let e = lower_seq(extension);
    if e == "doc"@ || e == "docx"@ || e == "odt"@ || e == "rtf"@ || e == "txt"@ || e == "md"@ {
        Some("document"@)
    } else if e == "pdf"@ {
        Some("pdf"@)
    } else if e == "xls"@ || e == "xlsx"@ || e == "xlsm"@ || e == "csv"@ || e == "ods"@ {
        Some("spreadsheet"@)
    } else if e == "ppt"@ || e == "pptx"@ || e == "odp"@ {
        Some("presentation"@)
    } else if e == "jpg"@ || e == "jpeg"@ || e == "png"@ || e == "gif"@ || e == "bmp"@ || e == "tif"@
        || e == "tiff"@ || e == "webp"@ || e == "heic"@ || e == "dng"@ {
        Some("image"@)
    } else if e == "mp4"@ || e == "mov"@ || e == "avi"@ || e == "mkv"@ || e == "wmv"@ || e == "m4v"@
        || e == "3gp"@ {
        Some("video"@)
    } else if e == "mp3"@ || e == "wav"@ || e == "m4a"@ || e == "aac"@ || e == "flac"@ || e == "ogg"@
        || e == "wma"@ {
        Some("audio"@)
    } else if e == "zip"@ || e == "7z"@ || e == "rar"@ || e == "tar"@ || e == "gz"@ || e == "bz2"@
        || e == "xz"@ {
        Some("archive"@)
    } else if e == "pst"@ || e == "ost"@ || e == "eml"@ || e == "msg"@ || e == "mbox"@ {
        Some("email"@)
    } else if e == "db"@ || e == "sqlite"@ || e == "sqlite3"@ || e == "mdb"@ || e == "accdb"@ {
        Some("database"@)
    } else if e == "bak"@ || e == "backup"@ || e == "vhd"@ || e == "vhdx"@ {
        Some("backup"@)
    } else {
        None
    }
}

fn is_one_of(e: &Vec<char>, names: &[&str]) -> (r: bool)
    ensures
        r == exists|i: int| 0 <= i < names@.len() && e@ == (#[trigger] names@[i])@,
{
    let mut i: usize = 0;
    while i < names.len()
        invariant
            i <= names@.len(),
            forall|k: int| 0 <= k < i ==> e@ != (#[trigger] names@[k])@,
        decreases names.len() - i,
    {
        if eq_str(e, names[i]) {
            return true;
        }
        i += 1;
    }
    false
}

/// The category of a file with this extension, or none when the file is not
/// personal data this scan counts.
pub fn classify_extension(extension: &str) -> (c: Option<&'static str>)
    ensures
        match c {
            Some(name) => category_spec(extension@) == Some(name@),
            None => category_spec(extension@) is None,
        },
{
    let e = lower_vec(&chars_of(extension));
    let documents = ["doc", "docx", "odt", "rtf", "txt", "md"];
    let spreadsheets = ["xls", "xlsx", "xlsm", "csv", "ods"];
    let presentations = ["ppt", "pptx", "odp"];
    let images = ["jpg", "jpeg", "png", "gif", "bmp", "tif", "tiff", "webp", "heic", "dng"];
    let videos = ["mp4", "mov", "avi", "mkv", "wmv", "m4v", "3gp"];
    let audio = ["mp3", "wav", "m4a", "aac", "flac", "ogg", "wma"];
    let archives = ["zip", "7z", "rar", "tar", "gz", "bz2", "xz"];
    let email = ["pst", "ost", "eml", "msg", "mbox"];
    let databases = ["db", "sqlite", "sqlite3", "mdb", "accdb"];
    let backups = ["bak", "backup", "vhd", "vhdx"];
    if is_one_of(&e, &documents) {
        Some("document")
    } else if eq_str(&e, "pdf") {
        Some("pdf")
    } else if is_one_of(&e, &spreadsheets) {
        Some("spreadsheet")
    } else if is_one_of(&e, &presentations) {
        Some("presentation")
    } else if is_one_of(&e, &images) {
        Some("image")
    } else if is_one_of(&e, &videos) {
        Some("video")
    } else if is_one_of(&e, &audio) {
        Some("audio")
    } else if is_one_of(&e, &archives) {
        Some("archive")
    } else if is_one_of(&e, &email) {
        Some("email")
    } else if is_one_of(&e, &databases) {
        Some("database")
    } else if is_one_of(&e, &backups) {
        Some("backup")
    } else {
        None
    }
}

/// Directory names that are never searched, compared without case.
pub open spec fn skipped_spec(name: Seq<char>) -> bool {
    let n = lower_seq(name);
    n == "windows"@ || n == "program files"@ || n == "program files (x86)"@ || n == "programdata"@
        || n == "$recycle.bin"@ || n == "system volume information"@ || n == "recovery"@
        || n == "msocache"@
}

/// Whether a directory with this name is left out of the search.
pub fn should_skip_directory(name: &str) -> (r: bool)
    ensures
        r == skipped_spec(name@),
{
    let n = lower_vec(&chars_of(name));
    let names = [
        "windows",
        "program files",
        "program files (x86)",
        "programdata",
        "$recycle.bin",
        "system volume information",
        "recovery",
        "msocache",
    ];
    is_one_of(&n, &names)
}

/// The categories in the order they are reported (alphabetical).
pub open spec fn category_order() -> Seq<Seq<char>> {
    seq![
        "archive"@,
        "audio"@,
        "backup"@,
        "database"@,
        "document"@,
        "email"@,
        "image"@,
        "pdf"@,
        "presentation"@,
        "spreadsheet"@,
        "video"@,
    ]
}

pub open spec fn saturating_add(a: u64, b: u64) -> u64 {
    if a + b > u64::MAX {
        u64::MAX
    } else {
        (a + b) as u64
    }
}

/// How many of the files (extension, length) fall in `category`, and their
/// total size, saturating at the largest `u64`.
pub open spec fn tally(files: Seq<(Seq<char>, u64)>, category: Seq<char>) -> (nat, u64)
    decreases files.len(),
{
    if files.len() == 0 {
        (0, 0)
    } else {
        let before = tally(files.drop_last(), category);
        if category_spec(files.last().0) == Some(category) {
            ((before.0 + 1) as nat, saturating_add(before.1, files.last().1))
        } else {
            before
        }
    }
}

/// One (category, count, bytes) per category with at least one file, in
/// the order of `categories`.
pub open spec fn summary(files: Seq<(Seq<char>, u64)>, categories: Seq<Seq<char>>) -> Seq<(Seq<char>, nat, u64)>
    decreases categories.len(),
{
    if categories.len() == 0 {
        Seq::empty()
    } else {
        let before = summary(files, categories.drop_last());
        let t = tally(files, categories.last());
        if t.0 > 0 {
            before.push((categories.last(), t.0, t.1))
        } else {
            before
        }
    }
}

pub open spec fn file_views(files: Seq<(String, u64)>) -> Seq<(Seq<char>, u64)> {
    files.map_values(|f: (String, u64)| (f.0@, f.1))
}

proof fn lemma_tally_bounded(files: Seq<(Seq<char>, u64)>, category: Seq<char>)
    ensures
        tally(files, category).0 <= files.len(),
    decreases files.len(),
{
    if files.len() > 0 {
        lemma_tally_bounded(files.drop_last(), category);
    }
}

fn count_category(files: &[(String, u64)], category: &str) -> (r: (u64, u64))
    ensures
        r.0 as nat == tally(file_views(files@), category@).0,
        r.1 == tally(file_views(files@), category@).1,
{
    let mut count: u64 = 0;
    let mut bytes: u64 = 0;
    let mut i: usize = 0;
    while i < files.len()
        invariant
            i <= files@.len(),
            count as nat == tally(file_views(files@).take(i as int), category@).0,
            bytes == tally(file_views(files@).take(i as int), category@).1,
        decreases files.len() - i,
    {
        let ghost pre = file_views(files@).take(i as int);
        let ghost next = file_views(files@).take(i + 1);
        assert(next.drop_last() =~= pre);
        proof {
            lemma_tally_bounded(pre, category@);
        }
        let c = classify_extension(files[i].0.as_str());
        let hit = match c {
            Some(name) => {
                let n = chars_of(name);
                eq_str(&n, category)
            },
            None => false,
        };
        if hit {
            count = count + 1;
            bytes = bytes.saturating_add(files[i].1);
        }
        i += 1;
    }
    assert(file_views(files@).take(files@.len() as int) =~= file_views(files@));
    (count, bytes)
}

/// The locations reported for one searched folder: per category with at
/// least one file, its count and total size, categories in alphabetical order.
pub fn summarize_root(
    root: &str,
    classification: &str,
    source: &str,
    confidence: &str,
    files: &[(String, u64)],
) -> (out: Vec<DataLocation>)
    ensures
        out@.len() == summary(file_views(files@), category_order()).len(),
        forall|i: int|
            0 <= i < out@.len() ==> {
                let s = summary(file_views(files@), category_order())[i];
                &&& (#[trigger] out@[i]).path@ == root@
                &&& out@[i].category@ == s.0
                &&& out@[i].classification@ == classification@
                &&& out@[i].source@ == source@
                &&& out@[i].confidence@ == confidence@
                &&& out@[i].file_count as nat == s.1
                &&& out@[i].total_bytes == s.2
                &&& out@[i].scan_status@ == "completed"@
            },
{
    let order = [
        "archive",
        "audio",
        "backup",
        "database",
        "document",
        "email",
        "image",
        "pdf",
        "presentation",
        "spreadsheet",
        "video",
    ];
    let ghost cats = category_order();
    assert(cats.len() == 11);
    assert(forall|k: int| 0 <= k < 11 ==> (#[trigger] order@[k])@ == cats[k]);
    let ghost fv = file_views(files@);
    let mut out: Vec<DataLocation> = Vec::new();
    let mut j: usize = 0;
    while j < 11
        invariant
            j <= 11,
            cats == category_order(),
            fv == file_views(files@),
            forall|k: int| 0 <= k < 11 ==> (#[trigger] order@[k])@ == cats[k],
            out@.len() == summary(fv, cats.take(j as int)).len(),
            forall|i: int|
                0 <= i < out@.len() ==> {
                    let s = summary(fv, cats.take(j as int))[i];
                    &&& (#[trigger] out@[i]).path@ == root@
                    &&& out@[i].category@ == s.0
                    &&& out@[i].classification@ == classification@
                    &&& out@[i].source@ == source@
                    &&& out@[i].confidence@ == confidence@
                    &&& out@[i].file_count as nat == s.1
                    &&& out@[i].total_bytes == s.2
                    &&& out@[i].scan_status@ == "completed"@
                },
        decreases 11 - j,
    {
        let ghost pre = cats.take(j as int);
        assert(cats.take(j + 1).drop_last() =~= pre);
        assert(cats.take(j + 1).last() == cats[j as int]);
        let (count, bytes) = count_category(files, order[j]);
        if count > 0 {
            out.push(
                DataLocation {
                    path: owned(root),
                    category: owned(order[j]),
                    classification: owned(classification),
                    source: owned(source),
                    confidence: owned(confidence),
                    file_count: count,
                    total_bytes: bytes,
                    scan_status: owned("completed"),
                },
            );
        }
        j += 1;
    }
    assert(cats.take(11) =~= cats);
    out
}

/// The first three characters of a path (`c:\` for a drive root), without
/// case; none for a shorter path. Data-drive roots on the system drive are
/// not searched again.
pub open spec fn drive_prefix_spec(path: Seq<char>) -> Option<Seq<char>> {
    if path.len() >= 3 {
        Some(lower_seq(path.take(3)))
    } else {
        None
    }
}

pub fn drive_prefix(path: &str) -> (r: Option<String>)
    ensures
        match r {
            Some(s) => drive_prefix_spec(path@) == Some(s@),
            None => drive_prefix_spec(path@) is None,
        },
{
    let v = chars_of(path);
    if v.len() < 3 {
        return None;
    }
    let mut head: Vec<char> = Vec::new();
    head.push(v[0]);
    head.push(v[1]);
    head.push(v[2]);
    assert(head@ =~= v@.take(3));
    Some(crate::text::string_of(&lower_vec(&head)))
}

/// How a searched folder is classified, what found it and how sure that
/// is: a folder of a user profile is a confirmed user location; a top-level
/// folder on a data drive is likely personal data.
pub fn origin_of(profile_folder: bool) -> (o: (&'static str, &'static str, &'static str))
    ensures
        profile_folder ==> o.0@ == "confirmed_user_location"@ && o.1@ == "user_profile_folder"@
            && o.2@ == "high"@,
        !profile_folder ==> o.0@ == "likely_personal_data"@ && o.1@ == "data_drive_folder"@
            && o.2@ == "medium"@,
{
    if profile_folder {
        ("confirmed_user_location", "user_profile_folder", "high")
    } else {
        ("likely_personal_data", "data_drive_folder", "medium")
    }
}

} // verus!
