//! Where an archived recording goes and what it is called there. Moving the
//! file is left to the caller.

use vstd::prelude::*;
use vstd::string::*;
use crate::decimal::{padded2, push_padded2, push_signed, signed_decimal};
use crate::util::{stamp_text, stamp_ymdhms, CivilTime};

verus! {

#[derive(Debug)]
pub enum ArchiveResult {
    /// The destination path.
    Success(String),
    /// Why the file was not archived.
    Error(String),
}

/// What happened while the file was moved.
#[derive(Debug)]
pub enum MoveReport {
    /// The archive directory could not be created.
    CreateDirFailed(String),
    /// The file was renamed into place.
    Renamed,
    /// Renaming failed; the file was copied and the source file removed.
    Copied,
    /// Renaming failed and so did copying.
    CopyFailed(String),
    /// The file was copied, but the source file could not be removed.
    DeleteFailed(String),
}

/// Where a file goes when it is archived.
#[derive(Debug)]
pub struct ArchivePlan {
    /// The directory to create if it is not there.
    pub dest_dir: String,
    /// The name of the file in that directory.
    pub file_name: String,
}

/// Whether `k` is the place of the last dot of `name`.
pub open spec fn is_last_dot(name: Seq<char>, k: int) -> bool {
    &&& 0 <= k < name.len()
    &&& name[k] == '.'
    &&& forall|m: int| k < m < name.len() ==> name[m] != '.'
}

/// The archive directory of a month: `./archive/YYYY/MM`.
pub open spec fn archive_dir_text(year: int, month: nat) -> Seq<char> {
    "./archive/"@ + signed_decimal(year) + seq!['/'] + padded2(month)
}

/// Best effort: two paths are taken for the same when they are written the
/// same; nothing is resolved.
pub fn is_same_path(a: &str, b: &str) -> (same: bool)
    ensures
        same == (a@ == b@),
{
    let left = String::from_str(a);
    let right = String::from_str(b);
    left == right
}

/// The directory under which a file archived in the given month is put.
pub fn archive_dir(year: i32, month: u32) -> (dir: String)
    ensures
        dir@ == archive_dir_text(year as int, month as nat),
{
    let mut out = String::from_str("./archive/");
    push_signed(&mut out, year);
    proof {
        reveal_strlit("/");
    }
    out.append("/");
    push_padded2(&mut out, month as u64);
    assert(out@ =~= archive_dir_text(year as int, month as nat));
    out
}

/// The name under which a file is archived: the stamp goes in, after an
/// underscore, before the last dot of the name, or at its end when it has no
/// dot.
pub fn stamped_name(fname: &str, stamp: &str) -> (name: String)
    ensures
        forall|k: int|
            is_last_dot(fname@, k) ==> name@ == fname@.subrange(0, k) + seq!['_'] + stamp@
                + fname@.subrange(k, fname@.len() as int),
        (forall|k: int| 0 <= k < fname@.len() ==> fname@[k] != '.') ==> name@ == fname@ + seq![
            '_',
        ] + stamp@,
{
    let len = fname.unicode_len();
    let mut i: usize = len;
    while i > 0
        invariant
            i <= len,
            len == fname@.len(),
            forall|m: int| i <= m < len ==> fname@[m] != '.',
        decreases i,
    {
        if fname.get_char(i - 1) == '.' {
            proof {
                reveal_strlit("_");
            }
            let mut out = String::from_str(fname.substring_char(0, i - 1));
            out.append("_");
            out.append(stamp);
            out.append(fname.substring_char(i - 1, len));
            assert(is_last_dot(fname@, i - 1));
            assert(out@ =~= fname@.subrange(0, i - 1) + seq!['_'] + stamp@ + fname@.subrange(
                i - 1,
                len as int,
            ));
            return out;
        }
        i = i - 1;
    }
    proof {
        reveal_strlit("_");
    }
    let mut out = String::from_str(fname);
    out.append("_");
    out.append(stamp);
    assert(out@ =~= fname@ + seq!['_'] + stamp@);
    out
}

/// The result of archiving to `dest`, from what happened while the file was
/// moved.
pub fn archive_result(dest: String, report: MoveReport) -> (res: ArchiveResult)
    ensures
        match report {
            MoveReport::Renamed => res == ArchiveResult::Success(dest),
            MoveReport::Copied => res == ArchiveResult::Success(dest),
            MoveReport::CreateDirFailed(e) => res matches ArchiveResult::Error(m) && m@
                == "Create archive directory failed: "@ + e@,
            MoveReport::CopyFailed(e) => res matches ArchiveResult::Error(m) && m@ == "Copy failed: "@
                + e@,
            MoveReport::DeleteFailed(e) => res matches ArchiveResult::Error(m) && m@
                == "Delete original failed: "@ + e@,
        },
{
    match report {
        MoveReport::Renamed => ArchiveResult::Success(dest),
        MoveReport::Copied => ArchiveResult::Success(dest),
        MoveReport::CreateDirFailed(e) => {
            let mut m = String::from_str("Create archive directory failed: ");
            m.append(e.as_str());
            ArchiveResult::Error(m)
        },
        MoveReport::CopyFailed(e) => {
            let mut m = String::from_str("Copy failed: ");
            m.append(e.as_str());
            ArchiveResult::Error(m)
        },
        MoveReport::DeleteFailed(e) => {
            let mut m = String::from_str("Delete original failed: ");
            m.append(e.as_str());
            ArchiveResult::Error(m)
        },
    }
}

/// Plans the archiving of a file named `fname` at the clock reading `t`: the
/// directory of the reading's month, and the name with the reading's stamp.
pub fn plan_archive(fname: &str, t: CivilTime) -> (plan: ArchivePlan)
    ensures
        plan.dest_dir@ == archive_dir_text(t.year as int, t.month as nat),
        forall|k: int|
            is_last_dot(fname@, k) ==> plan.file_name@ == fname@.subrange(0, k) + seq!['_']
                + stamp_text(t) + fname@.subrange(k, fname@.len() as int),
        (forall|k: int| 0 <= k < fname@.len() ==> fname@[k] != '.') ==> plan.file_name@ == fname@
            + seq!['_'] + stamp_text(t),
{
    let stamp = stamp_ymdhms(t);
    ArchivePlan {
        dest_dir: archive_dir(t.year, t.month),
        file_name: stamped_name(fname, stamp.as_str()),
    }
}

} // verus!
