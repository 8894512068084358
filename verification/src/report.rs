//! The verification report: one recorded result per check, with the
//! severity that the check was given.

use vstd::prelude::*;
use vstd::string::*;

use crate::context::ConfigStatus;
use crate::models::{LanguageSet, Status};
use crate::pattern::regex_search;
use crate::text::{concat, str_contains};

verus! {

/// The outcome of a single check evaluation.
///
/// Its view is `None` for a pass and `Some(message)` for an issue.
#[derive(Debug, Clone)]
pub enum Outcome {
    /// The check passed.
    Pass,
    /// The check failed with an explanation.
    Issue(String),
}

impl View for Outcome {
    type V = Option<Seq<char>>;

    open spec fn view(&self) -> Option<Seq<char>> {
        match self {
            Outcome::Pass => None,
            Outcome::Issue(msg) => Some(msg@),
        }
    }
}

/// The outcome view of a boolean check: `true` passes, `false` is an issue
/// with an empty message.
pub open spec fn bool_outcome(value: bool) -> Option<Seq<char>> {
    if value {
        None
    } else {
        Some(Seq::empty())
    }
}

/// The outcome view of a check that passes when `cond` holds and otherwise
/// is an issue with the message `msg`.
pub open spec fn outcome_or(cond: bool, msg: Seq<char>) -> Option<Seq<char>> {
    if cond {
        None
    } else {
        Some(msg)
    }
}

impl Outcome {
    /// Create a failing outcome with the given message.
    pub fn fail(msg: &str) -> (r: Outcome)
        ensures
            r@ == Some(msg@),
    {
        Outcome::Issue(String::from_str(msg))
    }

    /// Returns `true` if this outcome is a pass.
    pub fn is_pass(&self) -> (r: bool)
        ensures
            r == (self@ is None),
    {
        match self {
            Outcome::Pass => true,
            Outcome::Issue(_) => false,
        }
    }

    /// `true` maps to `Pass`, `false` maps to `Issue` with an empty message.
    pub fn from_bool(value: bool) -> (r: Outcome)
        ensures
            r@ == bool_outcome(value),
    {
        if value {
            Outcome::Pass
        } else {
            Outcome::Issue(String::new())
        }
    }

    /// `Ok(())` maps to `Pass`, `Err(msg)` maps to `Issue(msg)`.
    pub fn from_result(result: Result<(), String>) -> (r: Outcome)
        ensures
            r@ == match result {
                Ok(_) => None,
                Err(msg) => Some(msg@),
            },
    {
        match result {
            Ok(()) => Outcome::Pass,
            Err(msg) => Outcome::Issue(msg),
        }
    }
}

/// The text after the last `/` of a path (the whole path where it has none).
pub open spec fn last_segment(path: Seq<char>) -> Seq<char>
    decreases path.len(),
{
    if path.len() == 0 {
        path
    } else if path.last() == '/' {
        Seq::empty()
    } else {
        last_segment(path.drop_last()).push(path.last())
    }
}

/// The text before the last `/` of a path (empty where it has none).
pub open spec fn before_last_segment(path: Seq<char>) -> Seq<char>
    decreases path.len(),
{
    if path.len() == 0 {
        path
    } else if path.last() == '/' {
        path.drop_last()
    } else {
        before_last_segment(path.drop_last())
    }
}

/// Dropping the last segment shortens a non-empty path.
pub proof fn lemma_before_last_segment_shorter(path: Seq<char>)
    requires
        path.len() > 0,
    ensures
        before_last_segment(path).len() < path.len(),
    decreases path.len(),
{
    if path.last() != '/' {
        if path.drop_last().len() > 0 {
            lemma_before_last_segment_shorter(path.drop_last());
        } else {
            assert(before_last_segment(path.drop_last()).len() == 0);
        }
    }
}

/// The file name of a `/`-separated path, as `Path::file_name` gives it (or
/// empty where that gives none): the last component, where empty components
/// (from repeated or trailing separators) and `.` components are skipped; the
/// empty name where no component is left (an empty path, a root, or only `.`)
/// or where the last component is `..`.
#[verifier::opaque]
pub open spec fn file_name(path: Seq<char>) -> Seq<char>
    decreases path.len(),
{
    if path.len() == 0 {
        Seq::empty()
    } else {
        let segment = last_segment(path);
        if segment.len() == 0 || segment == seq!['.'] {
            proof {
                lemma_before_last_segment_shorter(path);
            }
            file_name(before_last_segment(path))
        } else if segment == seq!['.', '.'] {
            Seq::empty()
        } else {
            segment
        }
    }
}

/// The outcome of `file_exists` for `path`, given whether it exists.
pub open spec fn file_exists_outcome(path: Seq<char>, present: bool) -> Option<Seq<char>> {
    if present {
        None
    } else {
        Some("Not found: "@ + file_name(path))
    }
}

/// The file name of a path, computed from the right.
fn path_file_name(path: &str) -> (r: String)
    ensures
        r@ == file_name(path@),
{
    reveal(file_name);
    let chars = crate::text::chars_of(path);
    let mut end: usize = chars.len();
    assert(path@.subrange(0, end as int) =~= path@);
    loop
        invariant
            chars@ == path@,
            end <= chars@.len(),
            file_name(path@) == file_name(path@.subrange(0, end as int)),
        decreases end,
    {
        proof {
            reveal(file_name);
        }
        if end == 0 {
            return String::new();
        }
        let ghost q = path@.subrange(0, end as int);
        if chars[end - 1] == '/' {
            // A trailing separator belongs to no component.
            assert(q.drop_last() =~= path@.subrange(0, end - 1));
            assert(last_segment(q) == Seq::<char>::empty());
            end = end - 1;
            continue;
        }
        // The last component runs from `start` to `end`.
        let mut start = end;
        assert(q.subrange(0, end as int) =~= q);
        assert(q.subrange(end as int, end as int) =~= Seq::<char>::empty());
        while start > 0 && chars[start - 1] != '/'
            invariant
                chars@ == path@,
                0 < end <= chars@.len(),
                start <= end,
                q == path@.subrange(0, end as int),
                last_segment(q) == last_segment(path@.subrange(0, start as int)) + path@.subrange(
                    start as int,
                    end as int,
                ),
                before_last_segment(q) == before_last_segment(path@.subrange(0, start as int)),
            decreases start,
        {
            proof {
                let p = path@.subrange(0, start as int);
                assert(p.drop_last() =~= path@.subrange(0, start - 1));
                assert(last_segment(p) == last_segment(p.drop_last()).push(p.last()));
                assert(before_last_segment(p) == before_last_segment(p.drop_last()));
                assert(last_segment(p.drop_last()).push(p.last()) + path@.subrange(
                    start as int,
                    end as int,
                ) =~= last_segment(p.drop_last()) + path@.subrange(start - 1, end as int));
            }
            start = start - 1;
        }
        let ghost p = path@.subrange(0, start as int);
        proof {
            if start > 0 {
                assert(p.last() == '/');
                assert(p.drop_last() =~= path@.subrange(0, start - 1));
            }
            assert(last_segment(p) =~= Seq::<char>::empty());
            assert(last_segment(q) =~= path@.subrange(start as int, end as int));
            assert(q.len() > 0);
        }
        let len = end - start;
        if len == 1 && chars[start] == '.' {
            // A `.` component is skipped.
            proof {
                assert(last_segment(q) =~= seq!['.']);
                if start > 0 {
                    assert(before_last_segment(q) == p.drop_last());
                    assert(file_name(p) == file_name(p.drop_last()));
                } else {
                    assert(before_last_segment(q) =~= p);
                }
            }
            end = start;
            continue;
        }
        if len == 2 && chars[start] == '.' && chars[start + 1] == '.' {
            assert(last_segment(q) =~= seq!['.', '.']);
            return String::new();
        }
        proof {
            assert(last_segment(q).len() > 0);
            if last_segment(q) == seq!['.'] {
                assert(last_segment(q)[0] == chars@[start as int]);
            }
            if last_segment(q) == seq!['.', '.'] {
                assert(last_segment(q)[0] == chars@[start as int]);
                assert(last_segment(q)[1] == chars@[start + 1]);
            }
        }
        return String::from_str(path.substring_char(start, end));
    }
}

/// Check whether a file (or directory) exists at the given path.
///
/// `present` is whether the path exists; the outcome of a missing path names
/// its file name.
pub fn file_exists(path: &str, present: bool) -> (r: Outcome)
    ensures
        r@ == file_exists_outcome(path@, present),
{
    if present {
        Outcome::Pass
    } else {
        let name = path_file_name(path);
        Outcome::Issue(concat("Not found: ", name.as_str()))
    }
}

/// Check whether a string contains a given pattern.
pub fn contains(haystack: &str, needle: &str) -> (r: Outcome)
    ensures
        r@ == if crate::text::seq_contains(haystack@, needle@) {
            None
        } else {
            Some("Missing: "@ + needle@)
        },
{
    if str_contains(haystack, needle) {
        Outcome::Pass
    } else {
        Outcome::Issue(concat("Missing: ", needle))
    }
}

/// The outcome of a regex search that gave `result` for `pattern`: a match
/// passes, no match is an issue naming the pattern, and a pattern that does
/// not compile is an issue with the compile error.
pub open spec fn search_outcome(result: Result<bool, Seq<char>>, pattern: Seq<char>) -> Option<Seq<char>> {
    match result {
        Ok(true) => None,
        Ok(false) => Some("Pattern not found: "@ + pattern),
        Err(e) => Some("Invalid regex: "@ + e),
    }
}

/// The answer of the regex crate for a pattern and a haystack: whether it
/// matches, or the compile error.
pub open spec fn regex_answer(haystack: Seq<char>, pattern: Seq<char>) -> Result<bool, Seq<char>> {
    match crate::pattern::regex_compile_error(pattern) {
        Some(e) => Err(e),
        None => Ok(crate::pattern::regex_is_match(pattern, haystack)),
    }
}

/// The outcome of `matches_regex` for a pattern and a haystack.
pub open spec fn regex_outcome(haystack: Seq<char>, pattern: Seq<char>) -> Option<Seq<char>> {
    search_outcome(regex_answer(haystack, pattern), pattern)
}

/// The outcome of a regex search that gave `result` for `pattern`.
pub fn search_result_outcome(result: Result<bool, String>, pattern: &str) -> (r: Outcome)
    ensures
        r@ == search_outcome(
            match result {
                Ok(found) => Ok(found),
                Err(e) => Err(e@),
            },
            pattern@,
        ),
{
    match result {
        Ok(true) => Outcome::Pass,
        Ok(false) => Outcome::Issue(concat("Pattern not found: ", pattern)),
        Err(e) => Outcome::Issue(concat("Invalid regex: ", e.as_str())),
    }
}

/// Check whether a regex pattern matches anywhere in the string.
pub fn matches_regex(haystack: &str, pattern: &str) -> (r: Outcome)
    ensures
        r@ == regex_outcome(haystack@, pattern@),
{
    search_result_outcome(regex_search(pattern, haystack), pattern)
}

/// A recorded check, as the contracts see it.
pub struct Entry {
    pub name: Seq<char>,
    pub status: Status,
    pub message: Seq<char>,
}

/// A single recorded check result.
#[derive(Debug, Clone)]
pub struct CheckResult {
    pub name: String,
    pub status: Status,
    pub message: String,
}

impl View for CheckResult {
    type V = Entry;

    open spec fn view(&self) -> Entry {
        Entry { name: self.name@, status: self.status, message: self.message@ }
    }
}

/// The entry recorded for a check: a pass is recorded as `Pass` with an
/// empty message, an issue with the given severity and its message.
pub open spec fn entry_for(name: Seq<char>, outcome: Option<Seq<char>>, fail_status: Status) -> Entry {
    match outcome {
        None => Entry { name, status: Status::Pass, message: Seq::empty() },
        Some(msg) => Entry { name, status: fail_status, message: msg },
    }
}

/// The entry of a required check (an issue is a failure).
pub open spec fn must_entry(name: Seq<char>, outcome: Option<Seq<char>>) -> Entry {
    entry_for(name, outcome, Status::Fail)
}

/// The entry of a recommended check (an issue is a warning).
pub open spec fn should_entry(name: Seq<char>, outcome: Option<Seq<char>>) -> Entry {
    entry_for(name, outcome, Status::Warn)
}

/// The entries that `require_parsed` (with `Fail`) or `recommend_parsed`
/// (with `Warn`) record for a config file: whether it exists, with the given
/// severity, and, where it exists, whether it is valid, as a required check.
pub open spec fn parsed_entries<T>(label: Seq<char>, status: ConfigStatus<T>, exists_severity: Status) -> Seq<Entry> {
    let exists_name = label + ": exists"@;
    let valid_name = label + ": valid"@;
    match status {
        ConfigStatus::NotFound => seq![
            entry_for(exists_name, Some("File not found"@), exists_severity),
        ],
        ConfigStatus::ParseError { error, .. } => seq![
            entry_for(exists_name, None, exists_severity),
            must_entry(valid_name, Some(error@)),
        ],
        ConfigStatus::Parsed { .. } => seq![
            entry_for(exists_name, None, exists_severity),
            must_entry(valid_name, None),
        ],
    }
}

/// The number of entries with the given status.
pub open spec fn count_status(log: Seq<Entry>, status: Status) -> nat
    decreases log.len(),
{
    if log.len() == 0 {
        0
    } else {
        count_status(log.drop_last(), status) + if log.last().status == status {
            1nat
        } else {
            0nat
        }
    }
}

/// Accumulates check results for a project verification run.
pub struct Report {
    pub project_path: String,
    pub languages: LanguageSet,
    pub results: Vec<CheckResult>,
}

impl Report {
    /// The recorded entries, in order.
    pub open spec fn log(&self) -> Seq<Entry> {
        self.results@.map_values(|r: CheckResult| r@)
    }

    /// `self` is `prior` with `entries` recorded after its own, and the same
    /// project path and languages.
    pub open spec fn extends(&self, prior: Report, entries: Seq<Entry>) -> bool {
        &&& self.project_path == prior.project_path
        &&& self.languages == prior.languages
        &&& self.log() == prior.log() + entries
    }

    /// Create a new empty report for the given project.
    pub fn new(project_path: String, languages: LanguageSet) -> (r: Report)
        ensures
            r.project_path == project_path,
            r.languages == languages,
            r.log() == Seq::<Entry>::empty(),
    {
        let r = Report { project_path, languages, results: Vec::new() };
        assert(r.log() =~= Seq::<Entry>::empty());
        r
    }

    /// Append one result.
    fn push_result(&mut self, result: CheckResult)
        ensures
            final(self).extends(*old(self), seq![result@]),
    {
        self.results.push(result);
        assert(self.log() =~= old(self).log() + seq![result@]);
    }

    /// Low-level recording: maps an `Outcome` to the appropriate status.
    fn record(&mut self, name: String, outcome: Outcome, fail_status: Status)
        ensures
            final(self).extends(*old(self), seq![entry_for(name@, outcome@, fail_status)]),
    {
        let (status, message) = match outcome {
            Outcome::Pass => (Status::Pass, String::new()),
            Outcome::Issue(msg) => (fail_status, msg),
        };
        self.push_result(CheckResult { name, status, message });
    }

    /// Record a required check. If the outcome is an issue, it is recorded as `FAIL`.
    pub fn must(&mut self, name: &str, outcome: Outcome) -> (r: &mut Self)
        ensures
            r.extends(*old(self), seq![must_entry(name@, outcome@)]),
            *final(self) == *final(r),
    {
        self.record(String::from_str(name), outcome, Status::Fail);
        self
    }

    /// Record a recommended check. If the outcome is an issue, it is recorded as `WARN`.
    pub fn should(&mut self, name: &str, outcome: Outcome) -> (r: &mut Self)
        ensures
            r.extends(*old(self), seq![should_entry(name@, outcome@)]),
            *final(self) == *final(r),
    {
        self.record(String::from_str(name), outcome, Status::Warn);
        self
    }

    /// Record a skipped check with a reason.
    pub fn skip(&mut self, name: &str, reason: &str) -> (r: &mut Self)
        ensures
            r.extends(*old(self), seq![Entry { name: name@, status: Status::Skip, message: reason@ }]),
            *final(self) == *final(r),
    {
        self.push_result(
            CheckResult {
                name: String::from_str(name),
                status: Status::Skip,
                message: String::from_str(reason),
            },
        );
        self
    }

    /// Records the existence and validity checks of a config file, with the
    /// given severity for the existence check.
    fn record_parsed<'a, T>(
        &mut self,
        label: &str,
        status: &'a ConfigStatus<T>,
        exists_severity: Status,
    ) -> (r: Option<&'a T>)
        ensures
            r is Some <==> *status is Parsed,
            r matches Some(v) ==> status.parsed_value() == Some(*v),
            final(self).extends(*old(self), parsed_entries(label@, *status, exists_severity)),
    {
        let exists_name = concat(label, ": exists");
        if let ConfigStatus::Parsed { value: value, .. } = status {
            self.record(exists_name, Outcome::Pass, exists_severity);
            self.record(concat(label, ": valid"), Outcome::Pass, Status::Fail);
            assert(self.log() =~= old(self).log() + parsed_entries(label@, *status, exists_severity));
            Some(value)
        } else if let ConfigStatus::ParseError { error, .. } = status {
            self.record(exists_name, Outcome::Pass, exists_severity);
            self.record(concat(label, ": valid"), Outcome::Issue(error.clone()), Status::Fail);
            assert(self.log() =~= old(self).log() + parsed_entries(label@, *status, exists_severity));
            None
        } else {
            self.record(exists_name, Outcome::fail("File not found"), exists_severity);
            None
        }
    }

    /// Require a parsed config file, recording existence and validity checks.
    ///
    /// Records up to two checks:
    /// - `"{label}: exists"` - always recorded
    /// - `"{label}: valid"` - recorded if the file exists
    ///
    /// Returns `Some(&T)` only when the file exists and parsed successfully.
    pub fn require_parsed<'a, T>(&mut self, label: &str, status: &'a ConfigStatus<T>) -> (r: Option<&'a T>)
        ensures
            r is Some <==> *status is Parsed,
            r matches Some(v) ==> status.parsed_value() == Some(*v),
            final(self).extends(*old(self), parsed_entries(label@, *status, Status::Fail)),
    {
        self.record_parsed(label, status, Status::Fail)
    }

    /// Like [`require_parsed`](Self::require_parsed) but issues a `WARN` instead
    /// of `FAIL` if the file is missing. Useful for optional config files.
    pub fn recommend_parsed<'a, T>(&mut self, label: &str, status: &'a ConfigStatus<T>) -> (r: Option<&'a T>)
        ensures
            r is Some <==> *status is Parsed,
            r matches Some(v) ==> status.parsed_value() == Some(*v),
            final(self).extends(*old(self), parsed_entries(label@, *status, Status::Warn)),
    {
        self.record_parsed(label, status, Status::Warn)
    }

    /// The number of recorded checks with the given status.
    fn count(&self, status: Status) -> (r: usize)
        ensures
            r == count_status(self.log(), status),
    {
        let n = self.results.len();
        let mut k: usize = 0;
        let mut i: usize = 0;
        while i < n
            invariant
                n == self.results@.len(),
                i <= n,
                k <= i,
                k == count_status(self.log().take(i as int), status),
            decreases n - i,
        {
            assert(self.log().take(i + 1).drop_last() =~= self.log().take(i as int));
            if self.results[i].status == status {
                k = k + 1;
            }
            i = i + 1;
        }
        assert(self.log().take(n as int) =~= self.log());
        k
    }

    /// Count of checks with status `Pass`.
    pub fn passed(&self) -> (r: usize)
        ensures
            r == count_status(self.log(), Status::Pass),
    {
        self.count(Status::Pass)
    }

    /// Count of checks with status `Fail`.
    pub fn failed(&self) -> (r: usize)
        ensures
            r == count_status(self.log(), Status::Fail),
    {
        self.count(Status::Fail)
    }

    /// Count of checks with status `Warn`.
    pub fn warnings(&self) -> (r: usize)
        ensures
            r == count_status(self.log(), Status::Warn),
    {
        self.count(Status::Warn)
    }

    /// Whether any recorded check failed (the run then exits with an error).
    pub fn has_failures(&self) -> (r: bool)
        ensures
            r == exists|i: int| 0 <= i < self.log().len() && #[trigger] self.log()[i].status == Status::Fail,
    {
        let n = self.results.len();
        let mut i: usize = 0;
        while i < n
            invariant
                n == self.results@.len(),
                i <= n,
                forall|j: int| 0 <= j < i ==> #[trigger] self.log()[j].status != Status::Fail,
            decreases n - i,
        {
            if self.results[i].status == Status::Fail {
                assert(self.log()[i as int].status == Status::Fail);
                return true;
            }
            i = i + 1;
        }
        false
    }
}


/// Counts add up over a run made of two parts: counting a status over the
/// joined log is counting it over each part.
pub proof fn law_count_concat(a: Seq<Entry>, b: Seq<Entry>, status: Status)
    ensures
        count_status(a + b, status) == count_status(a, status) + count_status(b, status),
    decreases b.len(),
{
    if b.len() == 0 {
        assert(a + b =~= a);
    } else {
        law_count_concat(a, b.drop_last(), status);
        assert((a + b).drop_last() =~= a + b.drop_last());
    }
}

/// Recording checks in sequence: a report that extends `a` by `first` and is
/// then extended by `second` extends `a` by `first` followed by `second`;
/// earlier results are never changed.
pub proof fn law_extends_compose(a: Report, b: Report, c: Report, first: Seq<Entry>, second: Seq<Entry>)
    requires
        b.extends(a, first),
        c.extends(b, second),
    ensures
        c.extends(a, first + second),
        c.log().subrange(0, a.log().len() as int) == a.log(),
{
    assert(a.log() + first + second =~= a.log() + (first + second));
    assert(c.log().subrange(0, a.log().len() as int) =~= a.log());
}

/// Every recorded check has exactly one of the four statuses, so the
/// passed, failed, warning and skipped counts add up to the number of
/// recorded checks.
pub proof fn law_counts_partition(log: Seq<Entry>)
    ensures
        count_status(log, Status::Pass) + count_status(log, Status::Fail) + count_status(
            log,
            Status::Warn,
        ) + count_status(log, Status::Skip) == log.len(),
    decreases log.len(),
{
    if log.len() > 0 {
        law_counts_partition(log.drop_last());
    }
}

/// A required check adds one to the failed count when its outcome is an
/// issue and one to the passed count otherwise; it never adds a warning or a
/// skip.
pub proof fn law_must_counts(log: Seq<Entry>, name: Seq<char>, outcome: Option<Seq<char>>)
    ensures
        count_status(log.push(must_entry(name, outcome)), Status::Fail) == count_status(
            log,
            Status::Fail,
        ) + if outcome is Some {
            1int
        } else {
            0int
        },
        count_status(log.push(must_entry(name, outcome)), Status::Pass) == count_status(
            log,
            Status::Pass,
        ) + if outcome is None {
            1int
        } else {
            0int
        },
        count_status(log.push(must_entry(name, outcome)), Status::Warn) == count_status(
            log,
            Status::Warn,
        ),
        count_status(log.push(must_entry(name, outcome)), Status::Skip) == count_status(
            log,
            Status::Skip,
        ),
{
    assert(log.push(must_entry(name, outcome)).drop_last() =~= log);
}

/// A recommended check adds one to the warning count when its outcome is an
/// issue and one to the passed count otherwise; it never adds a failure or a
/// skip.
pub proof fn law_should_counts(log: Seq<Entry>, name: Seq<char>, outcome: Option<Seq<char>>)
    ensures
        count_status(log.push(should_entry(name, outcome)), Status::Warn) == count_status(
            log,
            Status::Warn,
        ) + if outcome is Some {
            1int
        } else {
            0int
        },
        count_status(log.push(should_entry(name, outcome)), Status::Pass) == count_status(
            log,
            Status::Pass,
        ) + if outcome is None {
            1int
        } else {
            0int
        },
        count_status(log.push(should_entry(name, outcome)), Status::Fail) == count_status(
            log,
            Status::Fail,
        ),
        count_status(log.push(should_entry(name, outcome)), Status::Skip) == count_status(
            log,
            Status::Skip,
        ),
{
    assert(log.push(should_entry(name, outcome)).drop_last() =~= log);
}

/// The run has a failure exactly when the failed count is positive.
pub proof fn law_failures_iff_failed_count(log: Seq<Entry>)
    ensures
        (exists|i: int| 0 <= i < log.len() && #[trigger] log[i].status == Status::Fail) <==> count_status(
            log,
            Status::Fail,
        ) > 0,
    decreases log.len(),
{
    if log.len() > 0 {
        law_failures_iff_failed_count(log.drop_last());
        let last = log.len() - 1;
        if exists|i: int| 0 <= i < log.len() && #[trigger] log[i].status == Status::Fail {
            let i = choose|i: int| 0 <= i < log.len() && #[trigger] log[i].status == Status::Fail;
            if i < last {
                assert(log.drop_last()[i].status == Status::Fail);
            }
        }
        if exists|i: int|
            0 <= i < log.drop_last().len() && #[trigger] log.drop_last()[i].status == Status::Fail {
            let i = choose|i: int|
                0 <= i < log.drop_last().len() && #[trigger] log.drop_last()[i].status
                    == Status::Fail;
            assert(log[i].status == Status::Fail);
        }
        if log.last().status == Status::Fail {
            assert(log[last].status == Status::Fail);
        }
    }
}

/// A config file is handed on exactly when none of the checks recorded for it
/// is an issue: every recorded entry passes if and only if the file parsed.
pub proof fn law_parsed_iff_all_pass<T>(label: Seq<char>, status: ConfigStatus<T>, exists_severity: Status)
    requires
        exists_severity != Status::Pass,
    ensures
        (status is Parsed) <==> forall|i: int|
            0 <= i < parsed_entries(label, status, exists_severity).len()
                ==> #[trigger] parsed_entries(label, status, exists_severity)[i].status == Status::Pass,
{
    let e = parsed_entries(label, status, exists_severity);
    match status {
        ConfigStatus::NotFound => {
            assert(e[0].status != Status::Pass);
        },
        ConfigStatus::ParseError { .. } => {
            assert(e[1].status != Status::Pass);
        },
        ConfigStatus::Parsed { .. } => {},
    }
}

/// An optional config file differs from a required one only when it is
/// missing, and then it is recorded as a warning, never a failure.
pub proof fn law_recommend_only_softens_missing<T>(label: Seq<char>, status: ConfigStatus<T>)
    ensures
        !(status is NotFound) ==> parsed_entries(label, status, Status::Warn) == parsed_entries(
            label,
            status,
            Status::Fail,
        ),
        status is NotFound ==> count_status(parsed_entries(label, status, Status::Warn), Status::Fail)
            == 0,
        status is NotFound ==> count_status(parsed_entries(label, status, Status::Fail), Status::Fail)
            == 1,
{
    if status is NotFound {
        let w = parsed_entries(label, status, Status::Warn);
        let f = parsed_entries(label, status, Status::Fail);
        assert(w.drop_last() =~= Seq::<Entry>::empty());
        assert(f.drop_last() =~= Seq::<Entry>::empty());
        assert(count_status(w.drop_last(), Status::Fail) == 0);
        assert(count_status(f.drop_last(), Status::Fail) == 0);
    }
}

} // verus!
