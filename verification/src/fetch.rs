//! Download planning: destination resolution, the overwrite policy and
//! the fixed request headers.
//!
//! Planning is pure: it decides where the response body may be written
//! before any network or filesystem activity, so a refused plan
//! guarantees that an existing destination file is never touched. The
//! caller performs the actual GET and write and reports transport and
//! filesystem failures as [`Error::NetworkError`] and
//! [`Error::IoError`].
use vstd::prelude::*;
use vstd::string::StringExecFns;

use crate::Error;

verus! {

/// A download destination as the caller observed it on its filesystem.
#[derive(Debug)]
pub enum Destination {
    /// An existing directory: the file gets a generated name inside it.
    Directory(String),
    /// A file path, with whether something already exists at it.
    File { path: String, exists: bool },
}

/// Where the response body is to be written.
#[derive(Debug)]
pub enum PlannedWrite {
    /// Under the generated name in the process-wide temporary
    /// directory.
    TempDir { file_name: String },
    /// Under the generated name in the given directory.
    InDirectory { dir: String, file_name: String },
    /// Exactly at the given path; `truncates_existing` says that a file
    /// is already there and will be truncated.
    AtPath { path: String, truncates_existing: bool },
}

/// The generated name for a downloaded file: `nflreadrs-<id>.csv`.
pub open spec fn download_file_name(id: Seq<char>) -> Seq<char> {
    "nflreadrs-"@ + id + ".csv"@
}

/// Builds the generated file name `nflreadrs-<id>.csv` for a unique
/// identifier.
pub fn temp_file_name(unique_id: &str) -> (r: String)
    ensures
        r@ == download_file_name(unique_id@),
{
    let mut s = String::from_str("nflreadrs-");
    s.append(unique_id);
    s.append(".csv");
    proof {
        assert(s@ =~= download_file_name(unique_id@));
    }
    s
}

/// Relies on `uuid::Uuid::new_v4` and the `Display` rendering of
/// `uuid::Uuid`: a random version-4 UUID in its hyphenated lowercase
/// form, which is always 36 characters long. The value is random, so
/// nothing further holds of it.
#[verifier::external_body]
fn fresh_unique_id() -> (r: String)
    ensures
        r@.len() == 36,
{
    uuid::Uuid::new_v4().to_string()
}

/// What a download plan must say for a destination, an overwrite
/// choice and a generated identifier: no destination goes to the
/// temporary directory under the generated name, a directory gets the
/// generated name inside it, and a file path is written exactly —
/// refused with [`Error::FileExists`] when a file already exists there
/// and overwriting was not explicitly requested.
pub open spec fn plan_matches(
    dest: Option<Destination>,
    overwrite: Option<bool>,
    id: Seq<char>,
    r: Result<PlannedWrite, Error>,
) -> bool {
    match dest {
        None => (r matches Ok(PlannedWrite::TempDir { file_name }) && file_name@
            == download_file_name(id)),
        Some(Destination::Directory(d)) => (r matches Ok(
            PlannedWrite::InDirectory { dir, file_name },
        ) && dir == d && file_name@ == download_file_name(id)),
        Some(Destination::File { path, exists }) => {
            if exists && overwrite != Some(true) {
                r == Err::<PlannedWrite, Error>(Error::FileExists)
            } else {
                r matches Ok(PlannedWrite::AtPath { path: p, truncates_existing }) && p == path
                    && truncates_existing == exists
            }
        },
    }
}

/// The plans that are refused: exactly those aimed at an existing
/// destination file without an explicit overwrite.
pub open spec fn plan_refused(dest: Option<Destination>, overwrite: Option<bool>) -> bool {
    dest matches Some(Destination::File { path: _, exists: true }) && overwrite != Some(true)
}

/// Decides where a download may be written, before any network or
/// filesystem activity.
///
/// With no destination, the body goes to the temporary directory under
/// the generated name; with a directory, into it under the generated
/// name; with a file path, exactly there — unless a file already exists
/// at it and `overwrite` is not explicitly `true`, in which case the
/// plan is refused with [`Error::FileExists`] and the existing file is
/// never touched.
pub fn plan_download(dest: Option<Destination>, overwrite: Option<bool>, unique_id: &str) -> (r:
    Result<PlannedWrite, Error>)
    ensures
        plan_matches(dest, overwrite, unique_id@, r),
        r is Err <==> plan_refused(dest, overwrite),
        r is Err ==> r == Err::<PlannedWrite, Error>(Error::FileExists),
{
    match dest {
        None => Ok(PlannedWrite::TempDir { file_name: temp_file_name(unique_id) }),
        Some(Destination::Directory(dir)) => Ok(
            PlannedWrite::InDirectory { dir, file_name: temp_file_name(unique_id) },
        ),
        Some(Destination::File { path, exists }) => {
            let explicit_overwrite = match overwrite {
                Some(b) => b,
                None => false,
            };
            if exists && !explicit_overwrite {
                Err(Error::FileExists)
            } else {
                Ok(PlannedWrite::AtPath { path, truncates_existing: exists })
            }
        },
    }
}

/// Decides where a download may be written, generating a fresh random
/// identifier for the file name.
///
/// The identifier is a freshly drawn UUID, so concurrent downloads into
/// the temporary directory or into one directory get distinct names in
/// practice; everything else follows the same rules as
/// [`plan_download`].
pub fn plan_download_fresh(dest: Option<Destination>, overwrite: Option<bool>) -> (r: Result<
    PlannedWrite,
    Error,
>)
    ensures
        exists|id: Seq<char>| id.len() == 36 && plan_matches(dest, overwrite, id, r),
        r is Err <==> plan_refused(dest, overwrite),
        r is Err ==> r == Err::<PlannedWrite, Error>(Error::FileExists),
{
    let id = fresh_unique_id();
    let ghost dest_ghost = dest;
    let r = plan_download(dest, overwrite, id.as_str());
    proof {
        assert(id@.len() == 36 && plan_matches(dest_ghost, overwrite, id@, r));
    }
    r
}

/// The fixed header set sent on every request: the identifying
/// user-agent, an accept value requesting the structured
/// release-metadata format, and the pinned API-version marker.
pub fn standard_headers() -> (h: Vec<(&'static str, &'static str)>)
    ensures
        h@.len() == 3,
        h@[0].0@ == "user-agent"@ && h@[0].1@ == "nflreadrs"@,
        h@[1].0@ == "accept"@ && h@[1].1@ == "application/vnd.github+json"@,
        h@[2].0@ == "x-github-api-version"@ && h@[2].1@ == "2022-11-28"@,
{
    let mut h: Vec<(&'static str, &'static str)> = Vec::new();
    h.push(("user-agent", "nflreadrs"));
    h.push(("accept", "application/vnd.github+json"));
    h.push(("x-github-api-version", "2022-11-28"));
    h
}

} // verus!
