//! The reporter: turns matched modes into the lines a run prints, in order —
//! the mode's display name, then one line for each tool identifier the mode
//! carries.

use vstd::prelude::*;
use crate::catalog::EntrySpec;
use crate::catalog::Mode;
use crate::catalog::ModeSpec;
use crate::matcher::spec_matched_modes;
use crate::text::spec_decimal;
use crate::text::u64_to_string;

verus! {

/// The lines printed for one reported mode: its display name, a line with the
/// first tool's format identifier when the mode has one, and a line with the
/// second tool's numeric mode identifier when the mode has one.
pub open spec fn spec_mode_lines(m: ModeSpec) -> Seq<Seq<char>> {
    let name_line = seq!["[*] "@ + m.name];
    let john_lines = match m.john {
        Some(j) => seq!["    john format:  "@ + j],
        None => Seq::<Seq<char>>::empty(),
    };
    let hashcat_lines = match m.hashcat {
        Some(h) => seq!["    hashcat mode: "@ + spec_decimal(h as int)],
        None => Seq::<Seq<char>>::empty(),
    };
    name_line + john_lines + hashcat_lines
}

/// The lines printed for a whole report, mode by mode in reported order. A
/// report with no modes prints nothing.
pub open spec fn spec_report_lines(modes: Seq<ModeSpec>) -> Seq<Seq<char>>
    decreases modes.len(),
{
    if modes.len() == 0 {
        Seq::empty()
    } else {
        spec_report_lines(modes.drop_last()) + spec_mode_lines(modes.last())
    }
}

/// Renders the lines for one mode.
pub fn render_mode(m: &Mode) -> (r: Vec<String>)
    ensures
        r.deep_view() == spec_mode_lines(m.deep_view()),
{
    let mut lines: Vec<String> = Vec::new();
    lines.push(String::from_str("[*] ").concat(m.name.as_str()));
    match &m.john {
        Some(j) => {
            lines.push(String::from_str("    john format:  ").concat(j.as_str()));
        },
        None => {},
    }
    match m.hashcat {
        Some(h) => {
            let digits = u64_to_string(h);
            lines.push(String::from_str("    hashcat mode: ").concat(digits.as_str()));
        },
        None => {},
    }
    proof {
        assert(lines.deep_view() =~= spec_mode_lines(m.deep_view()));
    }
    lines
}

/// Renders the lines for a whole report.
#[verifier::loop_isolation(false)]
pub fn render_report(modes: &Vec<Mode>) -> (r: Vec<String>)
    ensures
        r.deep_view() == spec_report_lines(modes.deep_view()),
{
    let mut lines: Vec<String> = Vec::new();
    let mut i: usize = 0;
    while i < modes.len()
        invariant
            i <= modes@.len(),
            lines.deep_view() =~= spec_report_lines(modes.deep_view().take(i as int)),
        decreases modes@.len() - i,
    {
        let mode_lines = render_mode(&modes[i]);
        let ghost pre = lines.deep_view();
        let mut k: usize = 0;
        while k < mode_lines.len()
            invariant
                k <= mode_lines@.len(),
                lines.deep_view() =~= pre + mode_lines.deep_view().take(k as int),
            decreases mode_lines@.len() - k,
        {
            let line = mode_lines[k].clone();
            let ghost pre_line = lines.deep_view();
            lines.push(line);
            proof {
                assert(lines.deep_view() =~= pre_line.push(mode_lines@[k as int]@));
                assert(mode_lines.deep_view().take(k as int + 1) =~= mode_lines.deep_view().take(
                    k as int,
                ).push(mode_lines@[k as int]@));
            }
            k += 1;
        }
        proof {
            let md = modes.deep_view();
            assert(mode_lines.deep_view().take(mode_lines@.len() as int) =~= mode_lines.deep_view());
            assert(md.take(i as int + 1).drop_last() =~= md.take(i as int));
            assert(md.take(i as int + 1).last() == modes@[i as int].deep_view());
            assert(lines.deep_view() =~= spec_report_lines(md.take(i as int + 1)));
        }
        i += 1;
    }
    proof {
        assert(modes.deep_view().take(modes@.len() as int) =~= modes.deep_view());
    }
    lines
}

/// Law: a run's output is a function of the catalog and the hash alone. Two
/// runs over the same already-cached catalog and the same hash print
/// identical lines, and never need to fetch anything anew.
pub proof fn lemma_output_deterministic(
    catalog: Seq<EntrySpec>,
    hash: Seq<char>,
    out1: Seq<Seq<char>>,
    out2: Seq<Seq<char>>,
)
    requires
        out1 == spec_report_lines(spec_matched_modes(catalog, hash)),
        out2 == spec_report_lines(spec_matched_modes(catalog, hash)),
    ensures
        out1 == out2,
{
}

} // verus!
