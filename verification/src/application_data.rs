//! Application data folders (browsers, mail, messaging) that may hold
//! personal data. Their contents are counted, never opened.

use vstd::prelude::*;
use crate::text::{chars_of, contains, contains_str, lower_seq, lower_vec, owned};

verus! {

/// At most this many files are counted in one location.
pub const MAX_FILES_PER_LOCATION: u64 = 250_000;

/// At most this many directories are walked in one location.
pub const MAX_DIRECTORIES_PER_LOCATION: u64 = 50_000;

#[derive(Debug, Clone)]
pub struct ApplicationDataLocation {
    pub application: String,
    pub category: String,
    pub classification: String,
    pub path: String,
    pub file_count: u64,
    pub total_bytes: u64,
    pub risk: String,
    pub confidence: String,
    pub scan_status: String,
    pub content_inspected: bool,
}

#[derive(Debug, Clone)]
pub struct ApplicationDataInventory {
    pub discovery_status: String,
    pub content_inspected: bool,
    pub locations: Vec<ApplicationDataLocation>,
    pub inaccessible_entries: u64,
}

impl ApplicationDataInventory {
    pub fn not_windows() -> (inv: Self)
        ensures
            inv.discovery_status@ == "not_windows"@,
            !inv.content_inspected,
            inv.locations@.len() == 0,
            inv.inaccessible_entries == 0,
    {
        ApplicationDataInventory {
            discovery_status: owned("not_windows"),
            content_inspected: false,
            locations: Vec::new(),
            inaccessible_entries: 0,
        }
    }
}

/// A place an application keeps data, before it is checked to exist.
#[derive(Debug, Clone, Copy)]
pub struct Candidate {
    pub application: &'static str,
    pub category: &'static str,
    pub classification: &'static str,
    /// Relative to the user profile folder.
    pub relative_path: &'static str,
    pub risk: &'static str,
    pub confidence: &'static str,
}

/// The fixed places searched under every user profile, in order.
pub open spec fn profile_candidates_spec() -> Seq<Candidate> {
    seq![
        Candidate {
            application: "Google Chrome",
            category: "browser_profile",
            classification: "application_data",
            relative_path: "AppData\\Local\\Google\\Chrome\\User Data",
            risk: "high",
            confidence: "high",
        },
        Candidate {
            application: "Microsoft Edge",
            category: "browser_profile",
            classification: "application_data",
            relative_path: "AppData\\Local\\Microsoft\\Edge\\User Data",
            risk: "high",
            confidence: "high",
        },
        Candidate {
            application: "Mozilla Firefox",
            category: "browser_profile",
            classification: "application_data",
            relative_path: "AppData\\Roaming\\Mozilla\\Firefox\\Profiles",
            risk: "high",
            confidence: "high",
        },
        Candidate {
            application: "Microsoft Outlook",
            category: "email_store",
            classification: "application_data",
            relative_path: "AppData\\Local\\Microsoft\\Outlook",
            risk: "high",
            confidence: "high",
        },
        Candidate {
            application: "Microsoft Outlook",
            category: "email_store",
            classification: "confirmed_user_location",
            relative_path: "Documents\\Outlook Files",
            risk: "high",
            confidence: "high",
        },
        Candidate {
            application: "Mozilla Thunderbird",
            category: "email_profile",
            classification: "application_data",
            relative_path: "AppData\\Roaming\\Thunderbird\\Profiles",
            risk: "high",
            confidence: "high",
        },
        Candidate {
            application: "Telegram Desktop",
            category: "messaging_data",
            classification: "application_data",
            relative_path: "AppData\\Roaming\\Telegram Desktop\\tdata",
            risk: "high",
            confidence: "high",
        },
        Candidate {
            application: "Microsoft Teams",
            category: "collaboration_data",
            classification: "application_data",
            relative_path: "AppData\\Roaming\\Microsoft\\Teams",
            risk: "high",
            confidence: "medium",
        },
    ]
}

pub fn profile_candidates() -> (v: Vec<Candidate>)
    ensures
        v@ == profile_candidates_spec(),
{
    let v = vec![
        Candidate {
            application: "Google Chrome",
            category: "browser_profile",
            classification: "application_data",
            relative_path: "AppData\\Local\\Google\\Chrome\\User Data",
            risk: "high",
            confidence: "high",
        },
        Candidate {
            application: "Microsoft Edge",
            category: "browser_profile",
            classification: "application_data",
            relative_path: "AppData\\Local\\Microsoft\\Edge\\User Data",
            risk: "high",
            confidence: "high",
        },
        Candidate {
            application: "Mozilla Firefox",
            category: "browser_profile",
            classification: "application_data",
            relative_path: "AppData\\Roaming\\Mozilla\\Firefox\\Profiles",
            risk: "high",
            confidence: "high",
        },
        Candidate {
            application: "Microsoft Outlook",
            category: "email_store",
            classification: "application_data",
            relative_path: "AppData\\Local\\Microsoft\\Outlook",
            risk: "high",
            confidence: "high",
        },
        Candidate {
            application: "Microsoft Outlook",
            category: "email_store",
            classification: "confirmed_user_location",
            relative_path: "Documents\\Outlook Files",
            risk: "high",
            confidence: "high",
        },
        Candidate {
            application: "Mozilla Thunderbird",
            category: "email_profile",
            classification: "application_data",
            relative_path: "AppData\\Roaming\\Thunderbird\\Profiles",
            risk: "high",
            confidence: "high",
        },
        Candidate {
            application: "Telegram Desktop",
            category: "messaging_data",
            classification: "application_data",
            relative_path: "AppData\\Roaming\\Telegram Desktop\\tdata",
            risk: "high",
            confidence: "high",
        },
        Candidate {
            application: "Microsoft Teams",
            category: "collaboration_data",
            classification: "application_data",
            relative_path: "AppData\\Roaming\\Microsoft\\Teams",
            risk: "high",
            confidence: "medium",
        },
    ];
    assert(v@ =~= profile_candidates_spec());
    v
}

/// The application a Store package folder belongs to, by its name without
/// case: WhatsApp, Teams, Windows Mail or the new Outlook; none otherwise.
pub open spec fn store_app_spec(package: Seq<char>) -> Option<(Seq<char>, Seq<char>, Seq<char>)> {
    let n = lower_seq(package);
    if contains(n, "whatsapp"@) {
        Some(("WhatsApp"@, "messaging_data"@, "high"@))
    } else if contains(n, "msteams"@) {
        Some(("Microsoft Teams"@, "collaboration_data"@, "high"@))
    } else if contains(n, "windowscommunicationsapps"@) {
        Some(("Windows Mail"@, "email_profile"@, "high"@))
    } else if contains(n, "outlookforwindows"@) {
        Some(("Microsoft Outlook"@, "email_profile"@, "high"@))
    } else {
        None
    }
}

/// The candidate a Store package folder under `AppData\Local\Packages`
/// stands for, with its folder name as the relative path's last part.
pub fn store_app_candidate(package: &str) -> (c: Option<(&'static str, &'static str, &'static str)>)
    ensures
        match c {
            Some((a, cat, conf)) => store_app_spec(package@) == Some((a@, cat@, conf@)),
            None => store_app_spec(package@) is None,
        },
{
    let n = lower_vec(&chars_of(package));
    if contains_str(&n, "whatsapp") {
        Some(("WhatsApp", "messaging_data", "high"))
    } else if contains_str(&n, "msteams") {
        Some(("Microsoft Teams", "collaboration_data", "high"))
    } else if contains_str(&n, "windowscommunicationsapps") {
        Some(("Windows Mail", "email_profile", "high"))
    } else if contains_str(&n, "outlookforwindows") {
        Some(("Microsoft Outlook", "email_profile", "high"))
    } else {
        None
    }
}

/// The count kept while one location is walked, bounded by the limits.
#[derive(Debug, Clone, Copy, PartialEq, Eq, Structural)]
pub struct LocationWalk {
    pub file_count: u64,
    pub directory_count: u64,
    pub total_bytes: u64,
    pub partial: bool,
    pub limit_reached: bool,
}

impl LocationWalk {
    pub fn new() -> (w: Self)
        ensures
            w == (LocationWalk {
                file_count: 0,
                directory_count: 0,
                total_bytes: 0,
                partial: false,
                limit_reached: false,
            }),
    {
        LocationWalk { file_count: 0, directory_count: 0, total_bytes: 0, partial: false, limit_reached: false }
    }

    /// A directory is about to be read. Returns false, with the limit
    /// recorded, when the walk must stop here.
    pub fn enter_directory(&mut self) -> (go_on: bool)
        ensures
            final(self).directory_count == (if old(self).directory_count == u64::MAX {
                u64::MAX
            } else {
                (old(self).directory_count + 1) as u64
            }),
            go_on == (final(self).directory_count <= MAX_DIRECTORIES_PER_LOCATION),
            final(self).limit_reached == (old(self).limit_reached || !go_on),
            final(self).file_count == old(self).file_count,
            final(self).total_bytes == old(self).total_bytes,
            final(self).partial == old(self).partial,
    {
        self.directory_count = self.directory_count.saturating_add(1);
        if self.directory_count > MAX_DIRECTORIES_PER_LOCATION {
            self.limit_reached = true;
            return false;
        }
        true
    }

    /// An entry could not be read; the location is only partly counted.
    pub fn record_unreadable(&mut self)
        ensures
            *final(self) == (LocationWalk { partial: true, ..*old(self) }),
    {
        self.partial = true;
    }

    /// A regular file of `len` bytes. Returns false, with the limit
    /// recorded, once the file limit is reached.
    pub fn record_file(&mut self, len: u64) -> (go_on: bool)
        ensures
            final(self).file_count == (if old(self).file_count == u64::MAX {
                u64::MAX
            } else {
                (old(self).file_count + 1) as u64
            }),
            final(self).total_bytes == (if old(self).total_bytes + len > u64::MAX {
                u64::MAX
            } else {
                (old(self).total_bytes + len) as u64
            }),
            go_on == (final(self).file_count < MAX_FILES_PER_LOCATION),
            final(self).limit_reached == (old(self).limit_reached || !go_on),
            final(self).directory_count == old(self).directory_count,
            final(self).partial == old(self).partial,
    {
        self.file_count = self.file_count.saturating_add(1);
        self.total_bytes = self.total_bytes.saturating_add(len);
        if self.file_count >= MAX_FILES_PER_LOCATION {
            self.limit_reached = true;
            return false;
        }
        true
    }

    /// `partial_limit_reached` when a limit stopped the walk, else `partial`
    /// when an entry was unreadable, else `completed`.
    pub fn scan_status(&self) -> (s: &'static str)
        ensures
            s@ == (if self.limit_reached {
                "partial_limit_reached"@
            } else if self.partial {
                "partial"@
            } else {
                "completed"@
            }),
    {
        if self.limit_reached {
            "partial_limit_reached"
        } else if self.partial {
            "partial"
        } else {
            "completed"
        }
    }
}

/// The location record for a candidate found at `path`, counted by `walk`.
/// Contents are never inspected.
pub fn location_for(
    application: &str,
    category: &str,
    classification: &str,
    path: &str,
    risk: &str,
    confidence: &str,
    walk: &LocationWalk,
) -> (l: ApplicationDataLocation)
    ensures
        l.application@ == application@,
        l.category@ == category@,
        l.classification@ == classification@,
        l.path@ == path@,
        l.file_count == walk.file_count,
        l.total_bytes == walk.total_bytes,
        l.risk@ == risk@,
        l.confidence@ == confidence@,
        l.scan_status@ == (if walk.limit_reached {
            "partial_limit_reached"@
        } else if walk.partial {
            "partial"@
        } else {
            "completed"@
        }),
        !l.content_inspected,
{
    ApplicationDataLocation {
        application: owned(application),
        category: owned(category),
        classification: owned(classification),
        path: owned(path),
        file_count: walk.file_count,
        total_bytes: walk.total_bytes,
        risk: owned(risk),
        confidence: owned(confidence),
        scan_status: owned(walk.scan_status()),
        content_inspected: false,
    }
}


/// The texts of `items` in ascending order, each once (`sort` then `dedup`).
pub fn sorted_distinct(items: &Vec<String>) -> (out: Vec<String>)
    ensures
        crate::usb_topology::strictly_ascending(crate::text::string_views(out@)),
        forall|s: Seq<char>|
            crate::text::string_views(out@).contains(s) <==> crate::text::string_views(items@).contains(s),
{
    let mut sorted: Vec<Vec<char>> = Vec::new();
    let mut i: usize = 0;
    while i < items.len()
        invariant
            i <= items@.len(),
            crate::usb_topology::strictly_ascending(crate::text::views(sorted@)),
            forall|s: Seq<char>|
                crate::text::views(sorted@).contains(s) <==> exists|k: int| 0 <= k < i && (#[trigger] items@[k])@ == s,
        decreases items.len() - i,
    {
        let ghost before = crate::text::views(sorted@);
        crate::usb_topology::insert_sorted(&mut sorted, crate::text::chars_of(items[i].as_str()));
        proof {
            assert forall|s: Seq<char>|
                crate::text::views(sorted@).contains(s) <==> exists|k: int| 0 <= k < i + 1 && (#[trigger] items@[k])@ == s by {
                if exists|k: int| 0 <= k < i + 1 && (#[trigger] items@[k])@ == s {
                    let k = choose|k: int| 0 <= k < i + 1 && (#[trigger] items@[k])@ == s;
                    if k < i {
                        assert(before.contains(s));
                    }
                }
            }
        }
        i += 1;
    }
    let mut out: Vec<String> = Vec::new();
    let mut j: usize = 0;
    while j < sorted.len()
        invariant
            j <= sorted@.len(),
            crate::text::string_views(out@) == crate::text::views(sorted@).take(j as int),
        decreases sorted.len() - j,
    {
        let ghost old_views = crate::text::string_views(out@);
        out.push(crate::text::string_of(&sorted[j]));
        assert(crate::text::string_views(out@) =~= old_views.push(sorted@[j as int]@));
        assert(crate::text::views(sorted@).take(j + 1) =~= crate::text::views(sorted@).take(j as int).push(sorted@[j as int]@));
        j += 1;
    }
    assert(crate::text::views(sorted@).take(sorted@.len() as int) =~= crate::text::views(sorted@));
    proof {
        assert forall|s: Seq<char>|
            crate::text::string_views(out@).contains(s) <==> crate::text::string_views(items@).contains(s) by {
            if crate::text::string_views(items@).contains(s) {
                let k = choose|k: int| 0 <= k < items@.len() && crate::text::string_views(items@)[k] == s;
                assert(items@[k]@ == s);
            }
            if exists|k: int| 0 <= k < items@.len() && (#[trigger] items@[k])@ == s {
                let k = choose|k: int| 0 <= k < items@.len() && (#[trigger] items@[k])@ == s;
                assert(crate::text::string_views(items@)[k] == s);
            }
        }
    }
    out
}

} // verus!
