//! Identifies the probable type(s) of a cryptographic hash by matching it
//! against a catalog of regular-expression patterns, each annotated with the
//! identifiers that common password-recovery tools use for that hash type.

use vstd::prelude::*;

pub mod catalog;
pub mod errors;
pub mod input;
pub mod json;
pub mod matcher;
pub mod report;
pub mod store;
pub mod text;

verus! {

/// Runs the matching pipeline for one hash: scans the catalog in order,
/// collects the modes of every entry whose pattern finds a match in the hash,
/// and renders the lines that the run prints. A hash that no entry matches
/// yields no lines at all.
pub fn identify(catalog: &Vec<catalog::PatternEntry>, hash: &str) -> (r: Vec<String>)
    ensures
        r.deep_view() == report::spec_report_lines(
            matcher::spec_matched_modes(catalog.deep_view(), hash@),
        ),
{
    let modes = matcher::find_matches(catalog, hash);
    report::render_report(&modes)
}

} // verus!
