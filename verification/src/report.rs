//! Reporter: formats the gathered records and the summary counts as
//! output lines.

use vstd::prelude::*;
use vstd::string::StrSliceExecFns;
use vstd::string::StringExecFns;

use crate::record::ClinicInfo;
use crate::record::ClinicInfoV;
use crate::record::spec_has_availability;
use crate::record::spec_report_lines;
use crate::text::decimal;
use crate::text::decimal_spec;

verus! {

/// How many records have availability.
pub open spec fn spec_count_available(rs: Seq<ClinicInfoV>) -> int
    decreases rs.len(),
{
    if rs.len() == 0 {
        0
    } else {
        spec_count_available(rs.drop_last()) + if spec_has_availability(rs.last().availability) {
            1int
        } else {
            0int
        }
    }
}

proof fn lemma_count_available_bound(rs: Seq<ClinicInfoV>)
    ensures
        0 <= spec_count_available(rs) <= rs.len(),
    decreases rs.len(),
{
    if rs.len() > 0 {
        lemma_count_available_bound(rs.drop_last());
    }
}

/// Counts the records with availability.
pub fn count_available(records: &Vec<ClinicInfo>) -> (r: usize)
    ensures
        r as int == spec_count_available(records.deep_view()),
        r <= records.len(),
{
    let ghost all = records.deep_view();
    let mut r: usize = 0;
    let mut i: usize = 0;
    while i < records.len()
        invariant
            0 <= i <= records.len(),
            all == records.deep_view(),
            r as int == spec_count_available(all.subrange(0, i as int)),
            r <= i,
        decreases records.len() - i,
    {
        if records[i].has_availability() {
            r += 1;
        }
        proof {
            let pre = all.subrange(0, i as int);
            let cur = all.subrange(0, i + 1);
            assert(cur.drop_last() =~= pre);
            assert(cur.last() == records@[i as int]@);
        }
        i += 1;
    }
    proof {
        assert(all.subrange(0, records.len() as int) =~= all);
    }
    r
}

/// The summary line: total records, records with availability, and pages
/// fetched.
pub open spec fn summary_line_spec(total: nat, avail: nat, pages: nat) -> Seq<char> {
    "Found "@ + decimal_spec(total) + " clinics, "@ + decimal_spec(avail)
        + " with availability (fetched "@ + decimal_spec(pages) + " pages)"@
}

/// Renders the summary line.
pub fn summary_line(total: u64, avail: u64, pages: u64) -> (r: String)
    ensures
        r@ == summary_line_spec(total as nat, avail as nat, pages as nat),
{
    let mut r = String::from_str("Found ");
    let t = decimal(total);
    r.append(t.as_str());
    r.append(" clinics, ");
    let a = decimal(avail);
    r.append(a.as_str());
    r.append(" with availability (fetched ");
    let p = decimal(pages);
    r.append(p.as_str());
    r.append(" pages)");
    r
}

/// The per-record report lines of a record sequence, flattened in order.
pub open spec fn spec_report(rs: Seq<ClinicInfoV>, all: bool) -> Seq<Seq<char>>
    decreases rs.len(),
{
    if rs.len() == 0 {
        Seq::empty()
    } else {
        spec_report(rs.drop_last(), all) + spec_report_lines(rs.last(), all)
    }
}

/// The report lines for every record, in extraction order.
pub fn report_records(records: &Vec<ClinicInfo>, all: bool) -> (r: Vec<String>)
    ensures
        r.deep_view() == spec_report(records.deep_view(), all),
{
    let ghost allv = records.deep_view();
    let mut r: Vec<String> = Vec::new();
    let mut i: usize = 0;
    proof {
        assert(r.deep_view() =~= spec_report(allv.subrange(0, 0), all));
    }
    while i < records.len()
        invariant
            0 <= i <= records.len(),
            allv == records.deep_view(),
            r.deep_view() == spec_report(allv.subrange(0, i as int), all),
        decreases records.len() - i,
    {
        let mut lines = records[i].report_lines(all);
        proof {
            let pre = allv.subrange(0, i as int);
            let cur = allv.subrange(0, i + 1);
            assert(cur.drop_last() =~= pre);
            assert(cur.last() == records@[i as int]@);
        }
        let ghost before = r.deep_view();
        let ghost added = lines.deep_view();
        r.append(&mut lines);
        proof {
            assert(r.deep_view() =~= before + added);
        }
        i += 1;
    }
    proof {
        assert(allv.subrange(0, records.len() as int) =~= allv);
    }
    r
}

/// The full report: every record's lines, then the summary line.
pub fn full_report(records: &Vec<ClinicInfo>, all: bool, pages_fetched: u64) -> (r: Vec<String>)
    ensures
        r.deep_view() == spec_report(records.deep_view(), all) + seq![
            summary_line_spec(
                records.deep_view().len(),
                spec_count_available(records.deep_view()) as nat,
                pages_fetched as nat,
            ),
        ],
{
    proof {
        lemma_count_available_bound(records.deep_view());
    }
    let mut r = report_records(records, all);
    let ghost before = r.deep_view();
    let total = records.len();
    let avail = count_available(records);
    let line = summary_line(total as u64, avail as u64, pages_fetched);
    r.push(line);
    proof {
        assert(records.deep_view().len() == records@.len());
        assert(r.deep_view() =~= before + seq![
            summary_line_spec(
                records.deep_view().len(),
                spec_count_available(records.deep_view()) as nat,
                pages_fetched as nat,
            ),
        ]);
    }
    r
}

} // verus!
