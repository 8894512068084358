//! What a verification run reports: the machine-readable summary and the
//! grouping of results by status.

use vstd::prelude::*;
use vstd::string::*;

use crate::models::{language_id, ordered_languages, status_id, Language, Status};
use crate::report::{count_status, CheckResult, Entry, Report};

verus! {

/// The summary counts of a run.
#[derive(Debug)]
pub struct JsonSummary {
    pub passed: usize,
    pub failed: usize,
    pub warnings: usize,
}

/// One check in the machine-readable output.
#[derive(Debug)]
pub struct JsonResult {
    pub name: String,
    /// The lower-case status (`pass`, `fail`, `warn`, `skip`).
    pub status: String,
    /// The message; omitted from the output when empty.
    pub message: String,
}

/// The machine-readable output of a run.
#[derive(Debug)]
pub struct JsonOutput {
    pub path: String,
    /// Lower-case language identifiers, sorted.
    pub languages: Vec<String>,
    pub summary: JsonSummary,
    pub results: Vec<JsonResult>,
}

/// The output entry of a recorded check.
pub open spec fn json_result_of(entry: Entry) -> (Seq<char>, Seq<char>, Seq<char>) {
    (entry.name, status_id(entry.status), entry.message)
}

/// Build the machine-readable output of a report, for the project shown as
/// `path`.
pub fn json_output(report: &Report, path: String) -> (r: JsonOutput)
    ensures
        r.path@ == path@,
        r.languages@.len() == ordered_languages(report.languages@).len(),
        forall|i: int|
            0 <= i < r.languages@.len() ==> (#[trigger] r.languages@[i])@ == language_id(
                ordered_languages(report.languages@)[i],
            ),
        r.summary.passed == count_status(report.log(), Status::Pass),
        r.summary.failed == count_status(report.log(), Status::Fail),
        r.summary.warnings == count_status(report.log(), Status::Warn),
        r.results@.len() == report.log().len(),
        forall|i: int|
            0 <= i < r.results@.len() ==> ((#[trigger] r.results@[i]).name@, r.results@[i].status@,
                r.results@[i].message@) == json_result_of(report.log()[i]),
{
    let langs = report.languages.to_vec();
    let mut languages: Vec<String> = Vec::new();
    let mut i: usize = 0;
    while i < langs.len()
        invariant
            langs@ == ordered_languages(report.languages@),
            i <= langs@.len(),
            languages@.len() == i,
            forall|j: int| 0 <= j < i ==> (#[trigger] languages@[j])@ == language_id(langs@[j]),
        decreases langs@.len() - i,
    {
        languages.push(langs[i].id());
        i = i + 1;
    }
    let mut results: Vec<JsonResult> = Vec::new();
    let n = report.results.len();
    let mut k: usize = 0;
    while k < n
        invariant
            n == report.results@.len(),
            k <= n,
            results@.len() == k,
            forall|j: int|
                0 <= j < k ==> ((#[trigger] results@[j]).name@, results@[j].status@,
                    results@[j].message@) == json_result_of(report.log()[j]),
        decreases n - k,
    {
        let r = &report.results[k];
        results.push(
            JsonResult {
                name: String::from_str(r.name.as_str()),
                status: r.status.id(),
                message: String::from_str(r.message.as_str()),
            },
        );
        k = k + 1;
    }
    JsonOutput {
        path,
        languages,
        summary: JsonSummary {
            passed: report.passed(),
            failed: report.failed(),
            warnings: report.warnings(),
        },
        results,
    }
}

/// The entries with the given status, in order.
pub open spec fn entries_with_status(log: Seq<Entry>, status: Status) -> Seq<Entry>
    decreases log.len(),
{
    if log.len() == 0 {
        Seq::empty()
    } else if log.last().status == status {
        entries_with_status(log.drop_last(), status).push(log.last())
    } else {
        entries_with_status(log.drop_last(), status)
    }
}

/// The order in which the statuses are shown: failures first.
pub open spec fn display_order() -> Seq<Status> {
    seq![Status::Fail, Status::Warn, Status::Pass, Status::Skip]
}

impl Report {
    /// The recorded results with the given status, in recording order.
    pub fn results_with_status(&self, status: Status) -> (r: Vec<&CheckResult>)
        ensures
            r@.map_values(|c: &CheckResult| c@) == entries_with_status(self.log(), status),
    {
        let mut r: Vec<&CheckResult> = Vec::new();
        let n = self.results.len();
        let mut i: usize = 0;
        while i < n
            invariant
                n == self.results@.len(),
                i <= n,
                r@.map_values(|c: &CheckResult| c@) == entries_with_status(
                    self.log().take(i as int),
                    status,
                ),
            decreases n - i,
        {
            assert(self.log().take(i + 1).drop_last() =~= self.log().take(i as int));
            let ghost before = r@;
            if self.results[i].status == status {
                r.push(&self.results[i]);
                assert(r@.map_values(|c: &CheckResult| c@) =~= before.map_values(
                    |c: &CheckResult| c@,
                ).push(self.log()[i as int]));
            }
            i = i + 1;
        }
        assert(self.log().take(n as int) =~= self.log());
        r
    }

    /// The statuses in the order in which the report shows them: failures,
    /// warnings, passes, skips.
    pub fn display_order() -> (r: Vec<Status>)
        ensures
            r@ == display_order(),
    {
        let r = vec![Status::Fail, Status::Warn, Status::Pass, Status::Skip];
        assert(r@ =~= display_order());
        r
    }
}

/// The status that sums up a run: `Fail` if any check failed, else `Warn`
/// if any check warned, else `Pass`.
pub open spec fn overall(log: Seq<Entry>) -> Status {
    if count_status(log, Status::Fail) > 0 {
        Status::Fail
    } else if count_status(log, Status::Warn) > 0 {
        Status::Warn
    } else {
        Status::Pass
    }
}

impl Report {
    /// The status that sums up the run (it sets the tone of the summary line).
    pub fn overall_status(&self) -> (r: Status)
        ensures
            r == overall(self.log()),
    {
        if self.failed() > 0 {
            Status::Fail
        } else if self.warnings() > 0 {
            Status::Warn
        } else {
            Status::Pass
        }
    }
}

/// The run sums up as a failure exactly when some recorded check failed (and
/// then the run exits with an error).
pub proof fn law_overall_fail_iff_some_failure(log: Seq<Entry>)
    ensures
        (overall(log) == Status::Fail) <==> exists|i: int|
            0 <= i < log.len() && #[trigger] log[i].status == Status::Fail,
{
    crate::report::law_failures_iff_failed_count(log);
}

/// The results shown under a status are as many as the count of that status.
pub proof fn law_group_sizes_match_counts(log: Seq<Entry>, status: Status)
    ensures
        entries_with_status(log, status).len() == count_status(log, status),
    decreases log.len(),
{
    if log.len() > 0 {
        law_group_sizes_match_counts(log.drop_last(), status);
    }
}

/// Every result is shown in exactly one group: the four groups together
/// hold as many results as were recorded.
pub proof fn law_groups_cover_all_results(log: Seq<Entry>)
    ensures
        entries_with_status(log, Status::Fail).len() + entries_with_status(log, Status::Warn).len()
            + entries_with_status(log, Status::Pass).len() + entries_with_status(
            log,
            Status::Skip,
        ).len() == log.len(),
{
    law_group_sizes_match_counts(log, Status::Fail);
    law_group_sizes_match_counts(log, Status::Warn);
    law_group_sizes_match_counts(log, Status::Pass);
    law_group_sizes_match_counts(log, Status::Skip);
    crate::report::law_counts_partition(log);
}

} // verus!
