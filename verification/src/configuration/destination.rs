use vstd::prelude::*;
use vstd::string::*;

use crate::text::find_from;

verus! {

/// Which storage back-end an archive is written to and read from.
#[derive(Clone, Copy, Debug, PartialEq, Eq, Structural)]
pub enum Kind {
    Directory,
    Unset,
    S3,
    SSH,
}

/// One configured storage back-end, with the fields each kind needs: a
/// local path, an object-store bucket and region, or a server with
/// credentials.
pub struct Destination {
    pub kind: Kind,
    pub id: String,
    pub max_archive_age: Option<u64>,
    pub password: String,
    pub path: String,
    pub s3_bucket: String,
    pub s3_region: String,
    pub server: String,
    pub username: String,
}

/// The timestamp the object store's listing text stands for, in
/// milliseconds, or nothing when the text is malformed. A function of the
/// text alone.
pub uninterp spec fn remote_time_of(s: Seq<char>) -> Option<i64>;

/// Relies on chrono's NaiveDateTime::parse_from_str with the object
/// store's timestamp format, and on timestamp_millis: the value parsed
/// from the text depends on the text alone.
#[verifier::external_body]
fn parse_remote_timestamp(s: &str) -> (r: Option<i64>)
    ensures
        r == remote_time_of(s@),
{
    match chrono::NaiveDateTime::parse_from_str(s, "%Y-%m-%dT%H:%M:%S%.fZ") {
        Ok(t) => Some(t.and_utc().timestamp_millis()),
        Err(_) => None,
    }
}

/// Relies on chrono's DateTime::from_timestamp and DateTime::timestamp:
/// a second count it accepts comes back as the same timestamp, and it
/// accepts at least every count through the last second of year 9999
/// (chrono's calendar reaches about year 262,000); a count outside that
/// calendar comes back as nothing.
#[verifier::external_body]
fn mtime_to_timestamp(secs: u64) -> (r: Option<i64>)
    ensures
        r matches Some(t) ==> t == secs as i64,
        secs <= 253402300799 ==> r is Some,
{
    match chrono::DateTime::from_timestamp(secs as i64, 0) {
        Some(d) => Some(d.timestamp()),
        None => None,
    }
}

/// The timestamp of one listed remote object, from the listing's
/// last-modified text.
pub fn parse_listing_time(last_modified: Option<&str>) -> (r: Option<i64>)
    ensures
        match last_modified {
            Some(s) => r == remote_time_of(s@),
            None => r is None,
        },
{
    match last_modified {
        Some(s) => parse_remote_timestamp(s),
        None => None,
    }
}

/// The timestamp of one listed remote file, from its modification time in
/// seconds: any time through year 9999 keeps its value; only a time past
/// the calendar's range counts as missing.
pub fn sftp_entry_time(mtime: Option<u64>) -> (r: Option<i64>)
    ensures
        match mtime {
            Some(m) => (r matches Some(t) ==> t == m as i64) && (m <= 253402300799 ==> r == Some(
                m as i64,
            )),
            None => r is None,
        },
{
    match mtime {
        Some(m) => mtime_to_timestamp(m),
        None => None,
    }
}

/// A remote entry takes part in the newest-archive search when its name
/// starts with the wanted prefix (if any) and it carries a timestamp.
pub open spec fn entry_eligible(e: (String, Option<i64>), prefix: Option<Seq<char>>) -> bool {
    &&& e.1 is Some
    &&& match prefix {
        Some(p) => p.len() <= e.0@.len() && e.0@.subrange(0, p.len() as int) == p,
        None => true,
    }
}

/// The timestamp of an eligible entry.
pub open spec fn entry_time(e: (String, Option<i64>)) -> i64 {
    e.1->0
}

impl Destination {
    pub fn new() -> (r: Destination)
        ensures
            r.kind == Kind::Unset,
            r.id@.len() == 0,
            r.max_archive_age is None,
            r.password@.len() == 0,
            r.path@.len() == 0,
            r.s3_bucket@.len() == 0,
            r.s3_region@ == "eu-central-1"@,
            r.server@.len() == 0,
            r.username@.len() == 0,
    {
        Destination {
            kind: Kind::Unset,
            id: String::new(),
            max_archive_age: None,
            password: String::new(),
            path: String::new(),
            s3_bucket: String::new(),
            s3_region: String::from_str("eu-central-1"),
            server: String::new(),
            username: String::new(),
        }
    }

    /// A failure to store at this destination aborts the whole run only
    /// for a local directory; object-store and secure-copy uploads are
    /// skipped per file instead.
    pub fn store_failure_is_fatal(&self) -> (r: bool)
        ensures
            r == (self.kind is Directory),
    {
        match self.kind {
            Kind::Directory => true,
            _ => false,
        }
    }

    /// Where a file lands under this destination's local directory.
    pub fn local_target_path(&self, file: &str) -> (r: String)
        ensures
            r@ == self.path@ + "/"@ + file@,
    {
        let mut out = self.path.clone();
        out.append("/");
        out.append(file);
        out
    }
}

/// The literal text of a name template before its first placeholder, used
/// to narrow a remote listing; nothing when the template starts with a
/// placeholder or holds none.
pub fn template_literal_prefix(name: &str) -> (r: Option<String>)
    ensures
        match r {
            Some(p) => find_from(name@, "{"@, 0) matches Some(i) && i > 0 && p@ == name@.subrange(
                0,
                i,
            ),
            None => !(find_from(name@, "{"@, 0) matches Some(i) && i > 0),
        },
{
    proof {
        reveal_strlit("{");
    }
    match crate::text::find_pattern(name, "{") {
        Some(i) => {
            if i > 0 {
                proof {
                    crate::text::lemma_find_from_spec(name@, "{"@, 0);
                }
                Some(String::from_str(name.substring_char(0, i)))
            } else {
                None
            }
        },
        None => None,
    }
}

/// Picks the remote entry to restore from: among the entries that carry a
/// timestamp (and match the prefix, when one is given), the earliest entry
/// with the newest timestamp. Returns its index.
pub fn select_latest_entry(entries: &Vec<(String, Option<i64>)>, prefix: Option<&String>) -> (r:
    Option<usize>)
    ensures
        match r {
            Some(i) => i < entries@.len() && entry_eligible(
                entries@[i as int],
                spec_prefix_of(prefix),
            ) && (forall|j: int|
                0 <= j < entries@.len() && entry_eligible(
                    #[trigger] entries@[j],
                    spec_prefix_of(prefix),
                ) ==> entry_time(entries@[j]) <= entry_time(entries@[i as int])) && (forall|j: int|
                0 <= j < i && entry_eligible(#[trigger] entries@[j], spec_prefix_of(prefix))
                    ==> entry_time(entries@[j]) < entry_time(entries@[i as int])),
            None => forall|j: int|
                0 <= j < entries@.len() ==> !entry_eligible(
                    #[trigger] entries@[j],
                    spec_prefix_of(prefix),
                ),
        },
{
    let n = entries.len();
    let mut best: Option<(usize, i64)> = None;
    let mut i: usize = 0;
    while i < n
        invariant
            n == entries@.len(),
            i <= n,
            match best {
                Some(b) => b.0 < i && entry_eligible(entries@[b.0 as int], spec_prefix_of(prefix))
                    && b.1 == entry_time(entries@[b.0 as int]) && (forall|j: int|
                    0 <= j < i && entry_eligible(#[trigger] entries@[j], spec_prefix_of(prefix))
                        ==> entry_time(entries@[j]) <= b.1) && (forall|j: int|
                    0 <= j < b.0 && entry_eligible(#[trigger] entries@[j], spec_prefix_of(prefix))
                        ==> entry_time(entries@[j]) < b.1),
                None => forall|j: int|
                    0 <= j < i ==> !entry_eligible(#[trigger] entries@[j], spec_prefix_of(prefix)),
            },
        decreases n - i,
    {
        let eligible: bool = match &entries[i].1 {
            Some(_) => match prefix {
                Some(p) => crate::text::has_prefix(entries[i].0.as_str(), p.as_str()),
                None => true,
            },
            None => false,
        };
        if eligible {
            let t: i64 = match &entries[i].1 {
                Some(t) => *t,
                None => 0,
            };
            match best {
                Some(b) => {
                    if t > b.1 {
                        best = Some((i, t));
                    }
                },
                None => {
                    best = Some((i, t));
                },
            }
        }
        i = i + 1;
    }
    match best {
        Some(b) => Some(b.0),
        None => None,
    }
}

/// The characters of an optional prefix.
pub open spec fn spec_prefix_of(prefix: Option<&String>) -> Option<Seq<char>> {
    match prefix {
        Some(p) => Some(p@),
        None => None,
    }
}

} // verus!
