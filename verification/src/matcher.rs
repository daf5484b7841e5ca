//! The matcher: scans the catalog in order and collects the modes of every
//! entry whose regular expression finds a match somewhere in the hash.

use vstd::prelude::*;
use crate::catalog::EntrySpec;
use crate::catalog::Mode;
use crate::catalog::ModeSpec;
use crate::catalog::PatternEntry;

verus! {

/// Whether a regular-expression pattern compiles. A function of the pattern
/// alone.
pub uninterp spec fn spec_regex_compiles(pattern: Seq<char>) -> bool;

/// Whether a compiling regular-expression pattern finds a match anywhere in
/// `text` (a substring match suffices). A function of the pattern and the
/// text alone.
pub uninterp spec fn spec_regex_found(pattern: Seq<char>, text: Seq<char>) -> bool;

/// Relies on `regress::Regex::new`, which returns `Ok` exactly when the
/// pattern is valid syntax, and on `regress::Regex::find`, which returns
/// `Some` exactly when the compiled pattern matches somewhere in the text.
/// Both outcomes are functions of the pattern and the text alone;
/// `spec_regex_compiles` and `spec_regex_found` name them. `None` reports a
/// pattern that does not compile.
#[verifier::external_body]
fn regex_search(pattern: &str, text: &str) -> (r: Option<bool>)
    ensures
        r is Some <==> spec_regex_compiles(pattern@),
        r is Some ==> r->Some_0 == spec_regex_found(pattern@, text@),
{
    match regress::Regex::new(pattern) {
        Ok(re) => Some(re.find(text).is_some()),
        Err(_) => None,
    }
}

/// An entry reports its modes exactly when its pattern compiles and finds a
/// match in the hash; an entry whose pattern does not compile is skipped.
pub open spec fn entry_matches(e: EntrySpec, hash: Seq<char>) -> bool {
    spec_regex_compiles(e.regex) && spec_regex_found(e.regex, hash)
}

/// What one entry contributes to the report: all of its modes when it
/// matches, nothing otherwise.
pub open spec fn entry_contribution(e: EntrySpec, hash: Seq<char>) -> Seq<ModeSpec> {
    if entry_matches(e, hash) {
        e.modes
    } else {
        Seq::empty()
    }
}

/// The modes reported for a hash: the contributions of all entries,
/// concatenated in catalog order, with no deduplication.
pub open spec fn spec_matched_modes(catalog: Seq<EntrySpec>, hash: Seq<char>) -> Seq<ModeSpec>
    decreases catalog.len(),
{
    if catalog.len() == 0 {
        Seq::empty()
    } else {
        spec_matched_modes(catalog.drop_last(), hash) + entry_contribution(catalog.last(), hash)
    }
}

/// Scans the catalog in order and collects the modes of every matching
/// entry. An entry whose pattern does not compile is skipped silently and the
/// scan continues.
#[verifier::loop_isolation(false)]
pub fn find_matches(catalog: &Vec<PatternEntry>, hash: &str) -> (r: Vec<Mode>)
    ensures
        r.deep_view() == spec_matched_modes(catalog.deep_view(), hash@),
{
    let mut out: Vec<Mode> = Vec::new();
    let mut i: usize = 0;
    while i < catalog.len()
        invariant
            i <= catalog@.len(),
            out.deep_view() =~= spec_matched_modes(catalog.deep_view().take(i as int), hash@),
        decreases catalog@.len() - i,
    {
        let entry = &catalog[i];
        let matched = match regex_search(entry.regex.as_str(), hash) {
            Some(found) => found,
            None => false,
        };
        if matched {
            let ghost before = out.deep_view();
            let mut k: usize = 0;
            while k < entry.modes.len()
                invariant
                    k <= entry.modes@.len(),
                    out.deep_view() =~= before + entry.modes.deep_view().take(k as int),
                decreases entry.modes@.len() - k,
            {
                let m = entry.modes[k].clone();
                let ghost pre = out.deep_view();
                out.push(m);
                proof {
                    assert(out.deep_view() =~= pre.push(entry.modes@[k as int].deep_view()));
                    assert(entry.modes.deep_view().take(k as int + 1) =~= entry.modes.deep_view().take(
                        k as int,
                    ).push(entry.modes@[k as int].deep_view()));
                }
                k += 1;
            }
            proof {
                assert(entry.modes.deep_view().take(entry.modes@.len() as int) =~= entry.modes.deep_view());
            }
        }
        proof {
            let cd = catalog.deep_view();
            assert(cd.take(i as int + 1).drop_last() =~= cd.take(i as int));
            assert(cd.take(i as int + 1).last() == entry.deep_view());
            assert(out.deep_view() =~= spec_matched_modes(cd.take(i as int + 1), hash@));
        }
        i += 1;
    }
    proof {
        assert(catalog.deep_view().take(catalog@.len() as int) =~= catalog.deep_view());
    }
    out
}

/// Law: the reported modes are exactly the union, in catalog order and with
/// no deduplication, of the modes of every entry whose pattern locates a
/// match in the hash.
pub proof fn lemma_report_is_ordered_union(catalog: Seq<EntrySpec>, hash: Seq<char>)
    ensures
        spec_matched_modes(catalog, hash) == catalog.map_values(
            |e: EntrySpec| entry_contribution(e, hash),
        ).flatten(),
    decreases catalog.len(),
{
    let contributions = catalog.map_values(|e: EntrySpec| entry_contribution(e, hash));
    contributions.lemma_flatten_and_flatten_alt_are_equivalent();
    if catalog.len() == 0 {
        assert(contributions.flatten_alt() =~= Seq::<ModeSpec>::empty());
    } else {
        lemma_report_is_ordered_union(catalog.drop_last(), hash);
        let prefix = catalog.drop_last().map_values(|e: EntrySpec| entry_contribution(e, hash));
        prefix.lemma_flatten_and_flatten_alt_are_equivalent();
        assert(contributions.drop_last() =~= prefix);
    }
}

} // verus!
