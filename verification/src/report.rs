use vstd::prelude::*;
use vstd::string::StringExecFns;

use crate::record::{RepoMetadata, RepoView};

verus! {

/// The five fixed counters of one run.
#[derive(Debug, PartialEq, Eq)]
pub struct Summary {
    pub total_rust_repos: usize,
    pub total_typescript_repos: usize,
    pub successful_rust_parses: usize,
    pub successful_typescript_parses: usize,
    pub failed_parses: usize,
}

#[verifier::ext_equal]
pub ghost struct SummaryView {
    pub total_rust_repos: nat,
    pub total_typescript_repos: nat,
    pub successful_rust_parses: nat,
    pub successful_typescript_parses: nat,
    pub failed_parses: nat,
}

impl View for Summary {
    type V = SummaryView;

    open spec fn view(&self) -> SummaryView {
        SummaryView {
            total_rust_repos: self.total_rust_repos as nat,
            total_typescript_repos: self.total_typescript_repos as nat,
            successful_rust_parses: self.successful_rust_parses as nat,
            successful_typescript_parses: self.successful_typescript_parses as nat,
            failed_parses: self.failed_parses as nat,
        }
    }
}

pub open spec fn recs_view(s: Seq<RepoMetadata>) -> Seq<RepoView> {
    s.map_values(|r: RepoMetadata| r@)
}

pub open spec fn strs_view(s: Seq<String>) -> Seq<Seq<char>> {
    s.map_values(|t: String| t@)
}

/// How many records parsed cleanly.
pub open spec fn count_ok(s: Seq<RepoView>) -> nat
    decreases s.len(),
{
    if s.len() == 0 {
        0
    } else {
        count_ok(s.drop_last()) + (if s.last().parse_error is None {
            1nat
        } else {
            0nat
        })
    }
}

/// How many records carry a parse error.
pub open spec fn count_failed(s: Seq<RepoView>) -> nat
    decreases s.len(),
{
    if s.len() == 0 {
        0
    } else {
        count_failed(s.drop_last()) + (if s.last().parse_error is Some {
            1nat
        } else {
            0nat
        })
    }
}

/// Every record either parsed cleanly or carries an error, so the two
/// counts split the total.
pub proof fn lemma_count_split(s: Seq<RepoView>)
    ensures
        count_ok(s) + count_failed(s) == s.len(),
    decreases s.len(),
{
    if s.len() > 0 {
        lemma_count_split(s.drop_last());
    }
}

pub open spec fn summary_of(rust: Seq<RepoView>, ts: Seq<RepoView>) -> SummaryView {
    SummaryView {
        total_rust_repos: rust.len(),
        total_typescript_repos: ts.len(),
        successful_rust_parses: count_ok(rust),
        successful_typescript_parses: count_ok(ts),
        failed_parses: count_failed(rust) + count_failed(ts),
    }
}

fn count_successful(v: &Vec<RepoMetadata>) -> (n: usize)
    ensures
        n == count_ok(recs_view(v@)),
{
    let mut n: usize = 0;
    let mut i: usize = 0;
    while i < v.len()
        invariant
            0 <= i <= v@.len(),
            n <= i,
            n == count_ok(recs_view(v@).take(i as int)),
        decreases v@.len() - i,
    {
        proof {
            let s = recs_view(v@);
            assert(s.take(i + 1).drop_last() =~= s.take(i as int));
            assert(s.take(i + 1).last() == v@[i as int]@);
        }
        if v[i].parse_error.is_none() {
            n = n + 1;
        }
        i = i + 1;
    }
    proof {
        assert(recs_view(v@).take(v@.len() as int) =~= recs_view(v@));
    }
    n
}

fn count_with_errors(v: &Vec<RepoMetadata>) -> (n: usize)
    ensures
        n == count_failed(recs_view(v@)),
{
    let mut n: usize = 0;
    let mut i: usize = 0;
    while i < v.len()
        invariant
            0 <= i <= v@.len(),
            n <= i,
            n == count_failed(recs_view(v@).take(i as int)),
        decreases v@.len() - i,
    {
        proof {
            let s = recs_view(v@);
            assert(s.take(i + 1).drop_last() =~= s.take(i as int));
            assert(s.take(i + 1).last() == v@[i as int]@);
        }
        if v[i].parse_error.is_some() {
            n = n + 1;
        }
        i = i + 1;
    }
    proof {
        assert(recs_view(v@).take(v@.len() as int) =~= recs_view(v@));
    }
    n
}

/// Computes the five counters over both record lists.
pub fn build_summary(rust: &Vec<RepoMetadata>, ts: &Vec<RepoMetadata>) -> (s: Summary)
    requires
        rust@.len() + ts@.len() <= usize::MAX,
    ensures
        s@ == summary_of(recs_view(rust@), recs_view(ts@)),
{
    proof {
        lemma_count_split(recs_view(rust@));
        lemma_count_split(recs_view(ts@));
    }
    let failed_rust = count_with_errors(rust);
    let failed_ts = count_with_errors(ts);
    Summary {
        total_rust_repos: rust.len(),
        total_typescript_repos: ts.len(),
        successful_rust_parses: count_successful(rust),
        successful_typescript_parses: count_successful(ts),
        failed_parses: failed_rust + failed_ts,
    }
}

/// The aggregate of one full run.
pub struct InventoryReport {
    pub timestamp: String,
    pub rust_repos: Vec<RepoMetadata>,
    pub typescript_repos: Vec<RepoMetadata>,
    pub summary: Summary,
    pub errors: Vec<String>,
}

#[verifier::ext_equal]
pub ghost struct ReportView {
    pub timestamp: Seq<char>,
    pub rust_repos: Seq<RepoView>,
    pub typescript_repos: Seq<RepoView>,
    pub summary: SummaryView,
    pub errors: Seq<Seq<char>>,
}

impl View for InventoryReport {
    type V = ReportView;

    open spec fn view(&self) -> ReportView {
        ReportView {
            timestamp: self.timestamp@,
            rust_repos: recs_view(self.rust_repos@),
            typescript_repos: recs_view(self.typescript_repos@),
            summary: self.summary@,
            errors: strs_view(self.errors@),
        }
    }
}

/// The whole report is a function of the scanned records, the top-level
/// errors, and the timestamp.
pub open spec fn report_spec(
    timestamp: Seq<char>,
    rust: Seq<RepoView>,
    ts: Seq<RepoView>,
    errors: Seq<Seq<char>>,
) -> ReportView {
    ReportView {
        timestamp: timestamp,
        rust_repos: rust,
        typescript_repos: ts,
        summary: summary_of(rust, ts),
        errors: errors,
    }
}

/// Assembles the report around a caller-supplied timestamp.
pub fn build_report(
    timestamp: String,
    rust_repos: Vec<RepoMetadata>,
    typescript_repos: Vec<RepoMetadata>,
    errors: Vec<String>,
) -> (r: InventoryReport)
    requires
        rust_repos@.len() + typescript_repos@.len() <= usize::MAX,
    ensures
        r@ == report_spec(
            timestamp@,
            recs_view(rust_repos@),
            recs_view(typescript_repos@),
            strs_view(errors@),
        ),
{
    let summary = build_summary(&rust_repos, &typescript_repos);
    let r = InventoryReport { timestamp, rust_repos, typescript_repos, summary, errors };
    proof {
        assert(r@ =~~= report_spec(
            r.timestamp@,
            recs_view(r.rust_repos@),
            recs_view(r.typescript_repos@),
            strs_view(r.errors@),
        ));
    }
    r
}

/// Relies on chrono::Utc::now and its RFC 3339 rendering for the report
/// generation instant; nothing can be promised of the clock's reading.
#[verifier::external_body]
fn now_rfc3339() -> (r: String) {
    chrono::Utc::now().to_rfc3339()
}

/// Stamps and aggregates one run's results. Every field except the
/// timestamp, which the clock gives, is pinned by the inputs.
pub fn make_report(
    rust_repos: Vec<RepoMetadata>,
    typescript_repos: Vec<RepoMetadata>,
    errors: Vec<String>,
) -> (r: InventoryReport)
    requires
        rust_repos@.len() + typescript_repos@.len() <= usize::MAX,
    ensures
        r@ == report_spec(
            r@.timestamp,
            recs_view(rust_repos@),
            recs_view(typescript_repos@),
            strs_view(errors@),
        ),
{
    let timestamp = now_rfc3339();
    build_report(timestamp, rust_repos, typescript_repos, errors)
}

/// The top-level error string recorded when one ecosystem's root
/// directory cannot be listed.
pub open spec fn root_scan_error_text(label: Seq<char>, path: Seq<char>) -> Seq<char> {
    "Failed to read "@ + label + " repos directory: "@ + path
}

/// Builds the top-level error string for an unreadable root directory.
pub fn root_scan_error(label: &str, path: &str) -> (r: String)
    ensures
        r@ == root_scan_error_text(label@, path@),
{
    let mut out = "Failed to read ".to_owned();
    out.append(label);
    out.append(" repos directory: ");
    out.append(path);
    out
}

/// The names of the failed records, rust list first, in order.
pub open spec fn failed_names(s: Seq<RepoView>) -> Seq<Seq<char>>
    decreases s.len(),
{
    if s.len() == 0 {
        Seq::empty()
    } else {
        failed_names(s.drop_last()) + (if s.last().parse_error is Some {
            seq![s.last().name]
        } else {
            Seq::empty()
        })
    }
}

fn push_failed_names(out: &mut Vec<String>, v: &Vec<RepoMetadata>)
    ensures
        strs_view(final(out)@) == strs_view(old(out)@) + failed_names(recs_view(v@)),
{
    let mut i: usize = 0;
    while i < v.len()
        invariant
            0 <= i <= v@.len(),
            strs_view(out@) == strs_view(old(out)@) + failed_names(
                recs_view(v@).take(i as int),
            ),
        decreases v@.len() - i,
    {
        proof {
            let s = recs_view(v@);
            assert(s.take(i + 1).drop_last() =~= s.take(i as int));
            assert(s.take(i + 1).last() == v@[i as int]@);
        }
        let ghost before = out@;
        if v[i].parse_error.is_some() {
            out.push(v[i].name.clone());
            proof {
                assert(strs_view(out@) =~= strs_view(before) + seq![v@[i as int].name@]);
            }
        }
        proof {
            assert(strs_view(out@) =~= strs_view(old(out)@) + failed_names(
                recs_view(v@).take(i + 1),
            ));
        }
        i = i + 1;
    }
    proof {
        assert(recs_view(v@).take(v@.len() as int) =~= recs_view(v@));
    }
}

/// Collects the names of every record with a parse error, both lists in
/// order.
pub fn failed_repo_names(rust: &Vec<RepoMetadata>, ts: &Vec<RepoMetadata>) -> (r: Vec<String>)
    ensures
        strs_view(r@) == failed_names(recs_view(rust@)) + failed_names(recs_view(ts@)),
{
    let mut out: Vec<String> = Vec::new();
    push_failed_names(&mut out, rust);
    push_failed_names(&mut out, ts);
    proof {
        assert(strs_view(out@) =~= failed_names(recs_view(rust@)) + failed_names(
            recs_view(ts@),
        ));
    }
    out
}

} // verus!
