use vstd::prelude::*;
use vstd::string::*;

use crate::configuration::database::Database;
use crate::configuration::directory::Directory;
use crate::template;
use crate::text::{
    has_prefix, spec_head_before_last, spec_replace_first, spec_tail_after_last,
    spec_trim_trailing, str_equal, head_before_last, tail_after_last, trim_trailing,
};

verus! {

/// The restore side: candidate-name expansion, the newest-archive search,
/// and the dispatch of each extracted entry to a directory or a database.
/// Reading the filesystem and running the import programs is the
/// caller's; which file wins and where each entry goes is decided here.
pub struct Restore {}

/// The leaf name of a configured directory: the last path segment once
/// trailing separators are dropped; nothing for a path without a usable
/// segment.
pub open spec fn spec_dir_leaf(name: Seq<char>) -> Option<Seq<char>> {
    let trimmed = spec_trim_trailing(name, '/');
    let leaf = spec_tail_after_last(trimmed, '/');
    if leaf.len() == 0 || leaf == ".."@ {
        None
    } else {
        Some(leaf)
    }
}

/// The path a configured directory's parent: what precedes the leaf; the
/// empty path for a bare name; nothing for a path that is separators
/// alone.
pub open spec fn spec_dir_parent(name: Seq<char>) -> Option<Seq<char>> {
    let trimmed = spec_trim_trailing(name, '/');
    if trimmed.len() == 0 {
        None
    } else {
        Some(spec_head_before_last(trimmed, '/'))
    }
}

/// An archive entry belongs to a configured directory when its path
/// starts with that directory's leaf name and a separator.
pub open spec fn entry_matches_dir(entry: Seq<char>, dir_name: Seq<char>) -> bool {
    match spec_dir_leaf(dir_name) {
        Some(leaf) => {
            let want = leaf + "/"@;
            want.len() <= entry.len() && entry.subrange(0, want.len() as int) == want
        },
        None => false,
    }
}

/// The first configured directory an entry belongs to.
pub open spec fn first_matching_dir(entry: Seq<char>, dirs: Seq<Directory>, i: int) -> Option<int>
    decreases dirs.len() - i,
{
    if i < 0 || i >= dirs.len() {
        None
    } else if entry_matches_dir(entry, dirs[i].name@) {
        Some(i)
    } else {
        first_matching_dir(entry, dirs, i + 1)
    }
}

/// An archive entry belongs to a configured database when it is exactly
/// the database's dump filename.
pub open spec fn entry_matches_db(entry: Seq<char>, db: Database) -> bool {
    entry == db.name@ + db.kind.spec_extension()
}

/// Where one extracted archive entry goes.
pub enum EntryAction {
    /// Unpack under the owning directory's parent, at the carried path,
    /// and apply the configured ownership afterwards.
    UnpackDirectory { dir_index: usize, unpack_path: String },
    /// Unpack to the entry's own name and run the drop, create and import
    /// commands of each listed database, in order.
    RestoreDatabases { db_indices: Vec<usize> },
    /// The entry belongs to nothing configured and is skipped.
    Ignored,
}

impl Restore {
    /// Wraps a system error's text the way every run-aborting error is
    /// reported.
    pub fn map_error(err_text: &str) -> (r: String)
        ensures
            r@ == "error: "@ + err_text@,
    {
        let mut out = String::from_str("error: ");
        out.append(err_text);
        out
    }

    /// The archive names a restore searches for: the template's weekday
    /// expansions when it holds a weekday placeholder, else the template
    /// itself. Other placeholders stay as they are — restore matches
    /// stored names rather than re-deriving a date.
    pub fn build_possible_archive_names(name: &str) -> (r: Vec<String>)
        ensures
            template::has_weekday_placeholder(name@) ==> {
                &&& r@.len() == 7
                &&& (forall|i: int|
                    0 <= i < 7 ==> r@[i]@ == spec_replace_first(
                        name@,
                        "{date:weekday}"@,
                        template::weekday_name(i),
                    ))
                &&& (forall|i: int, j: int| 0 <= i < j < 7 ==> r@[i]@ != r@[j]@)
            },
            !template::has_weekday_placeholder(name@) ==> r@.len() == 1 && r@[0]@ == name@,
    {
        template::candidates(name)
    }

    /// Picks the archive to restore among the local candidates: given each
    /// candidate's creation time (nothing for a file that is absent or
    /// carries no creation time), the earliest candidate with the newest
    /// time wins. Returns its index.
    pub fn get_newest_archive_name_in_directory(created: &Vec<Option<u64>>) -> (r: Option<usize>)
        ensures
            match r {
                Some(i) => i < created@.len() && created@[i as int] is Some && (forall|j: int|
                    0 <= j < created@.len() && #[trigger] created@[j] is Some ==> created@[j]->0
                        <= created@[i as int]->0) && (forall|j: int|
                    0 <= j < i && #[trigger] created@[j] is Some ==> created@[j]->0 < created@[
                        i as int
                    ]->0),
                None => forall|j: int| 0 <= j < created@.len() ==> !(#[trigger] created@[j] is Some),
            },
    {
        let n = created.len();
        let mut best: Option<(usize, u64)> = None;
        let mut i: usize = 0;
        while i < n
            invariant
                n == created@.len(),
                i <= n,
                match best {
                    Some(b) => b.0 < i && created@[b.0 as int] == Some(b.1) && (forall|j: int|
                        0 <= j < i && #[trigger] created@[j] is Some ==> created@[j]->0 <= b.1) && (
                    forall|j: int|
                        0 <= j < b.0 && #[trigger] created@[j] is Some ==> created@[j]->0 < b.1),
                    None => forall|j: int| 0 <= j < i ==> !(#[trigger] created@[j] is Some),
                },
            decreases n - i,
        {
            match &created[i] {
                Some(t) => {
                    match best {
                        Some(b) => {
                            if *t > b.1 {
                                best = Some((i, *t));
                            }
                        },
                        None => {
                            best = Some((i, *t));
                        },
                    }
                },
                None => {},
            }
            i = i + 1;
        }
        match best {
            Some(b) => Some(b.0),
            None => None,
        }
    }

    /// The leaf name an entry is matched against, by the same reading as
    /// `spec_dir_leaf`.
    fn dir_leaf(name: &str) -> (r: Option<String>)
        ensures
            match r {
                Some(l) => spec_dir_leaf(name@) == Some(l@),
                None => spec_dir_leaf(name@) is None,
            },
    {
        let trimmed = trim_trailing(name, '/');
        let leaf = tail_after_last(trimmed.as_str(), '/');
        if leaf.as_str().unicode_len() == 0 {
            None
        } else if str_equal(leaf.as_str(), "..") {
            None
        } else {
            Some(leaf)
        }
    }

    /// Decides where one extracted archive entry goes: to the first
    /// configured directory whose leaf name opens the entry's path, else
    /// to every configured database whose dump filename the entry is,
    /// else nowhere.
    pub fn classify_entry(entry: &str, dirs: &Vec<Directory>, dbs: &Vec<Database>) -> (r:
        EntryAction)
        ensures
            match r {
                EntryAction::UnpackDirectory { dir_index, unpack_path } => {
                    &&& first_matching_dir(entry@, dirs@, 0) == Some(dir_index as int)
                    &&& spec_dir_parent(dirs@[dir_index as int].name@) matches Some(parent)
                        && unpack_path@ == parent + "/"@ + entry@
                },
                EntryAction::RestoreDatabases { db_indices } => {
                    &&& match first_matching_dir(entry@, dirs@, 0) {
                        Some(i) => spec_dir_parent(dirs@[i].name@) is None,
                        None => true,
                    }
                    &&& db_indices@.len() > 0
                    &&& (forall|t: int|
                        0 <= t < db_indices@.len() ==> #[trigger] db_indices@[t] < dbs@.len()
                            && entry_matches_db(entry@, dbs@[db_indices@[t] as int]))
                    &&& (forall|j: int|
                        0 <= j < dbs@.len() && entry_matches_db(entry@, #[trigger] dbs@[j])
                            ==> exists|t: int|
                            0 <= t < db_indices@.len() && #[trigger] db_indices@[t] == j)
                    &&& (forall|t1: int, t2: int|
                        0 <= t1 < t2 < db_indices@.len() ==> #[trigger] db_indices@[t1]
                            < #[trigger] db_indices@[t2])
                },
                EntryAction::Ignored => {
                    &&& match first_matching_dir(entry@, dirs@, 0) {
                        Some(i) => spec_dir_parent(dirs@[i].name@) is None,
                        None => true,
                    }
                    &&& (forall|j: int|
                        0 <= j < dbs@.len() ==> !entry_matches_db(entry@, #[trigger] dbs@[j]))
                },
            },
    {
        let nd = dirs.len();
        let mut i: usize = 0;
        while i < nd
            invariant
                nd == dirs@.len(),
                i <= nd,
                first_matching_dir(entry@, dirs@, 0) == first_matching_dir(entry@, dirs@, i as int),
            decreases nd - i,
        {
            let matched: bool = match Self::dir_leaf(dirs[i].name.as_str()) {
                Some(leaf) => {
                    let mut want = leaf;
                    want.append("/");
                    has_prefix(entry, want.as_str())
                },
                None => false,
            };
            if matched {
                let trimmed = trim_trailing(dirs[i].name.as_str(), '/');
                if trimmed.as_str().unicode_len() == 0 {
                    // A directory of separators alone has no parent to
                    // unpack under; the entry may still belong to a
                    // database.
                    return Self::collect_matching_databases(entry, dbs);
                }
                let parent = head_before_last(trimmed.as_str(), '/');
                let mut unpack_path = parent;
                unpack_path.append("/");
                unpack_path.append(entry);
                return EntryAction::UnpackDirectory { dir_index: i, unpack_path };
            }
            i = i + 1;
        }
        Self::collect_matching_databases(entry, dbs)
    }

    /// Collects every configured database whose dump filename the entry
    /// is, in configuration order.
    fn collect_matching_databases(entry: &str, dbs: &Vec<Database>) -> (r: EntryAction)
        ensures
            match r {
                EntryAction::RestoreDatabases { db_indices } => {
                    &&& db_indices@.len() > 0
                    &&& (forall|t: int|
                        0 <= t < db_indices@.len() ==> #[trigger] db_indices@[t] < dbs@.len()
                            && entry_matches_db(entry@, dbs@[db_indices@[t] as int]))
                    &&& (forall|j: int|
                        0 <= j < dbs@.len() && entry_matches_db(entry@, #[trigger] dbs@[j])
                            ==> exists|t: int|
                            0 <= t < db_indices@.len() && #[trigger] db_indices@[t] == j)
                    &&& (forall|t1: int, t2: int|
                        0 <= t1 < t2 < db_indices@.len() ==> #[trigger] db_indices@[t1]
                            < #[trigger] db_indices@[t2])
                },
                EntryAction::Ignored => forall|j: int|
                    0 <= j < dbs@.len() ==> !entry_matches_db(entry@, #[trigger] dbs@[j]),
                EntryAction::UnpackDirectory { .. } => false,
            },
    {
        let n = dbs.len();
        let mut hits: Vec<usize> = Vec::new();
        let mut j: usize = 0;
        while j < n
            invariant
                n == dbs@.len(),
                j <= n,
                forall|t: int|
                    0 <= t < hits@.len() ==> #[trigger] hits@[t] < j && entry_matches_db(
                        entry@,
                        dbs@[hits@[t] as int],
                    ),
                forall|k: int|
                    0 <= k < j && entry_matches_db(entry@, #[trigger] dbs@[k]) ==> exists|t: int|
                        0 <= t < hits@.len() && #[trigger] hits@[t] == k,
                forall|t1: int, t2: int|
                    0 <= t1 < t2 < hits@.len() ==> #[trigger] hits@[t1] < #[trigger] hits@[t2],
            decreases n - j,
        {
            let expected = dbs[j].build_dump_filename();
            let ghost prev = hits@;
            if str_equal(expected.as_str(), entry) {
                hits.push(j);
                proof {
                    assert forall|k: int|
                        0 <= k < j + 1 && entry_matches_db(entry@, #[trigger] dbs@[k]) implies exists|
                        t: int,
                    | 0 <= t < hits@.len() && #[trigger] hits@[t] == k by {
                        if k == j {
                            assert(hits@[prev.len() as int] == j as usize);
                        } else {
                            let t = choose|t: int| 0 <= t < prev.len() && #[trigger] prev[t] == k;
                            assert(hits@[t] == k);
                        }
                    }
                }
            }
            j = j + 1;
        }
        if hits.len() > 0 {
            EntryAction::RestoreDatabases { db_indices: hits }
        } else {
            EntryAction::Ignored
        }
    }
}

} // verus!
