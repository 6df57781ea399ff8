use vstd::prelude::*;
use vstd::string::*;

use crate::configuration::compression::{bz2_of, compress_payload};
use crate::template::{self, Date};
use crate::text::{spec_tail_after_last, tail_after_last};

verus! {

/// The backup side of the pipeline: name resolution, the tar and
/// compression stage bookkeeping, and the decisions around storing the
/// produced files. The filesystem and network work itself is the
/// caller's; every decision about it is made here.
pub struct Backup {}

/// How creating the tar container file failed; the first two kinds are
/// reported distinctly.
pub enum CreateFileError {
    AlreadyExists,
    PermissionDenied,
    Other,
}

impl Backup {
    /// Wraps a system error's text the way every run-aborting error is
    /// reported.
    pub fn map_error(err_text: &str) -> (r: String)
        ensures
            r@ == "error: "@ + err_text@,
    {
        let mut out = String::from_str("error: ");
        out.append(err_text);
        out
    }

    /// Relies on chrono's Utc::now, Datelike::year / month / day, and
    /// Weekday::num_days_from_monday: the month is 1 to 12, the day 1 to
    /// 31, and the weekday counts days since Monday, 0 to 6. Which date
    /// comes back depends on the clock.
    #[verifier::external_body]
    fn current_date_parts() -> (r: (i32, u32, u32, u32))
        ensures
            1 <= r.1 <= 12,
            1 <= r.2 <= 31,
            r.3 < 7,
    {
        let now = chrono::Utc::now();
        (
            chrono::Datelike::year(&now),
            chrono::Datelike::month(&now),
            chrono::Datelike::day(&now),
            chrono::Datelike::weekday(&now).num_days_from_monday(),
        )
    }

    /// Resolves an archive name template against one date.
    pub fn build_real_archive_name(name: &str, date: &Date) -> (r: String)
        requires
            date.wf(),
        ensures
            r@ == template::spec_resolved(name@, *date),
    {
        template::resolve(name, date)
    }

    /// Resolves an archive name template against the current date. Nothing
    /// comes back only when the clock reads a year past four digits.
    pub fn build_archive_name_today(name: &str) -> (r: Option<String>)
        ensures
            r matches Some(s) ==> exists|d: Date| d.wf() && s@ == template::spec_resolved(name@, d),
    {
        let (year, month, day, weekday) = Self::current_date_parts();
        match Date::from_calendar(year, month, day, weekday) {
            Some(date) => {
                let resolved = template::resolve(name, &date);
                proof {
                    assert(date.wf() && resolved@ == template::spec_resolved(name@, date));
                }
                Some(resolved)
            },
            None => None,
        }
    }

    /// The name a directory is stored under inside the archive: only what
    /// follows the last path separator, so the archive holds the leaf
    /// directory name and below.
    pub fn archive_directory_name(dir_name: &str) -> (r: String)
        ensures
            r@ == spec_tail_after_last(dir_name@, '/'),
    {
        tail_after_last(dir_name, '/')
    }

    /// The error a failed tar container creation aborts the run with,
    /// telling apart an existing file and missing permission.
    pub fn tar_create_error_message(tar_name: &str, err: &CreateFileError) -> (r: String)
        ensures
            match err {
                CreateFileError::AlreadyExists => r@ == "unable to create file: "@ + tar_name@
                    + ".tar => already exists"@,
                CreateFileError::PermissionDenied => r@ == "unable to create file: "@ + tar_name@
                    + ".tar => permission denied"@,
                CreateFileError::Other => r@ == "unable to create file: "@ + tar_name@ + ".tar"@,
            },
    {
        let mut out = String::from_str("unable to create file: ");
        out.append(tar_name);
        match err {
            CreateFileError::AlreadyExists => out.append(".tar => already exists"),
            CreateFileError::PermissionDenied => out.append(".tar => permission denied"),
            CreateFileError::Other => out.append(".tar"),
        }
        out
    }

    /// Compresses a tar stream for the `.bz2` stage: hands back the
    /// compressed file's name and its bytes.
    pub fn bz2_archive(archive_name: &str, tar_bytes: &Vec<u8>) -> (r: Result<
        (String, Vec<u8>),
        String,
    >)
        ensures
            r matches Ok(p) && p.0@ == archive_name@ + ".bz2"@ && p.1@ == bz2_of(tar_bytes@),
    {
        let packed = compress_payload(tar_bytes)?;
        let mut bz2_name = String::from_str(archive_name);
        bz2_name.append(".bz2");
        Ok((bz2_name, packed))
    }

    /// Judges one file's move into a local directory destination: a failed
    /// rename falls back to copy-then-delete, a failed delete after a
    /// good copy is ignored, and only failing both ways is an error.
    pub fn judge_local_move(file: &str, target: &str, rename_ok: bool, copy_ok: bool) -> (r:
        Result<(), String>)
        ensures
            r is Ok <==> rename_ok || copy_ok,
            r matches Err(m) ==> m@ == "unable to rename and copy '"@ + file@ + "' to '"@
                + target@ + "'!"@,
    {
        if rename_ok || copy_ok {
            Ok(())
        } else {
            let mut out = String::from_str("unable to rename and copy '");
            out.append(file);
            out.append("' to '");
            out.append(target);
            out.append("'!");
            Err(out)
        }
    }

    /// The error a run aborts with when the destination directory cannot
    /// be created.
    pub fn create_path_error_message(path: &str) -> (r: String)
        ensures
            r@ == "unable to create archive_path: '"@ + path@ + "'"@,
    {
        let mut out = String::from_str("unable to create archive_path: '");
        out.append(path);
        out.append("'");
        out
    }

    /// The error a run aborts with when an intermediate file cannot be
    /// deleted at the end of the run.
    pub fn remove_temporary_error_message(file: &str) -> (r: String)
        ensures
            r@ == "unable to remove temporary file: '"@ + file@ + "'"@,
    {
        let mut out = String::from_str("unable to remove temporary file: '");
        out.append(file);
        out.append("'");
        out
    }
}

} // verus!
