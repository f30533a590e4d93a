//! Audits the repositories named in a dependency manifest: extracts
//! `organization/name` identifiers from the manifest text, reads credentials
//! from a key-value configuration, interprets the responses of a hosting
//! API's metadata and activity endpoints, and builds a report of the
//! repositories whose popularity count falls at or below a threshold,
//! flagging the ones whose latest activity is stale.

pub mod client;
pub mod credentials;
pub mod report;
pub mod scanner;
pub mod wrappers;

use vstd::prelude::*;

verus! {

/// A repository qualifies for the report exactly when its popularity count
/// is at or below the caller's threshold (the boundary itself qualifies).
#[allow(non_snake_case)]
pub fn AI(stars: u32, max_stars: u32) -> (r: bool)
    ensures
        r == (stars <= max_stars),
{
    stars <= max_stars
}

} // verus!
