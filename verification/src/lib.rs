//! Client library for the nflverse statistics releases: resolves a requested
//! dataset (team stats, player stats, play-by-play, schedules, rosters,
//! teams, players) to a concrete download URL, and defines the download and
//! CSV-ingestion contracts around that resolution.
use vstd::prelude::*;

pub mod digits;
pub mod fetch;
pub mod stats;
pub mod table;
pub mod utils;

verus! {

/// Errors raised by the library.
///
/// Every failure of the resolution, download-planning and ingestion
/// operations is one of these; each operation states exactly when it
/// raises which variant.
#[derive(Clone, Copy, Debug, PartialEq, Eq, Structural)]
pub enum Error {
    /// More than one season was supplied where only a single season is
    /// supported.
    UnsupportedMultiSeason,
    /// URL construction from the path template failed.
    InvalidUrl,
    /// The download destination already exists and overwriting was not
    /// explicitly requested.
    FileExists,
    /// Transport-level failure during the network step.
    NetworkError,
    /// Local filesystem failure during file creation or write.
    IoError,
    /// The retrieved content is not well-formed CSV.
    ParseError,
}

} // verus!
