use norms::context::ConfigStatus;
use norms::models::{Language, LanguageSet, Status};
use norms::output::json_output;
use norms::report::{contains, file_exists, matches_regex, search_result_outcome, Outcome, Report};

fn new_report() -> Report {
    Report::new(String::from("/tmp/project"), LanguageSet::new())
}

#[test]
fn must_records_fail_on_issue() {
    let mut report = new_report();
    report.must("README.md", Outcome::fail("Not found: README.md"));
    report.must("LICENSE", Outcome::Pass);
    assert_eq!(report.results.len(), 2);
    assert_eq!(report.results[0].name, "README.md");
    assert_eq!(report.results[0].status, Status::Fail);
    assert_eq!(report.results[0].message, "Not found: README.md");
    assert_eq!(report.results[1].status, Status::Pass);
    assert_eq!(report.results[1].message, "");
    assert_eq!(report.failed(), 1);
    assert_eq!(report.passed(), 1);
    assert_eq!(report.warnings(), 0);
    assert!(report.has_failures());
}

#[test]
fn should_records_warn_on_issue() {
    let mut report = new_report();
    report.should("CHANGELOG.md", Outcome::from_bool(false));
    report.should("devbox.lock", Outcome::from_bool(true));
    assert_eq!(report.results[0].status, Status::Warn);
    assert_eq!(report.results[0].message, "");
    assert_eq!(report.results[1].status, Status::Pass);
    assert_eq!(report.warnings(), 1);
    assert_eq!(report.failed(), 0);
    assert!(!report.has_failures());
    assert_eq!(report.overall_status(), Status::Warn);
}

#[test]
fn checks_can_be_chained() {
    let mut report = new_report();
    report
        .must("a", Outcome::Pass)
        .should("b", Outcome::fail("soft"))
        .skip("c", "not applicable");
    assert_eq!(report.results.len(), 3);
    assert_eq!(report.results[2].status, Status::Skip);
    assert_eq!(report.results[2].message, "not applicable");
    assert_eq!(report.passed() + report.failed() + report.warnings() + 1, report.results.len());
}

#[test]
fn outcome_conversions() {
    assert!(Outcome::from_bool(true).is_pass());
    assert!(!Outcome::from_bool(false).is_pass());
    assert!(Outcome::from_result(Ok(())).is_pass());
    match Outcome::from_result(Err(String::from("broken"))) {
        Outcome::Issue(msg) => assert_eq!(msg, "broken"),
        Outcome::Pass => panic!("expected an issue"),
    }
    assert!(!Outcome::fail("x").is_pass());
}

#[test]
fn file_exists_names_the_file() {
    assert!(file_exists("README.md", true).is_pass());
    match file_exists("frontend/pnpm-lock.yaml", false) {
        Outcome::Issue(msg) => assert_eq!(msg, "Not found: pnpm-lock.yaml"),
        Outcome::Pass => panic!("expected an issue"),
    }
    match file_exists("README.md", false) {
        Outcome::Issue(msg) => assert_eq!(msg, "Not found: README.md"),
        Outcome::Pass => panic!("expected an issue"),
    }
}

#[test]
fn contains_outcome() {
    assert!(contains("root = true\n", "root = true").is_pass());
    match contains("root = false", "root = true") {
        Outcome::Issue(msg) => assert_eq!(msg, "Missing: root = true"),
        Outcome::Pass => panic!("expected an issue"),
    }
    assert!(contains("anything", "").is_pass());
}

#[test]
fn matches_regex_outcomes() {
    assert!(matches_regex("*   text=auto eol=lf\n", r"(?m)^\*\s.+text=auto").is_pass());
    // `.+` needs at least one character between the blank and `text=auto`.
    assert!(!matches_regex("* text=auto\n", r"(?m)^\*\s.+text=auto").is_pass());
    match matches_regex("*.png binary\n", r"(?m)^\*\s.+text=auto") {
        Outcome::Issue(msg) => assert_eq!(msg, r"Pattern not found: (?m)^\*\s.+text=auto"),
        Outcome::Pass => panic!("expected an issue"),
    }
    match matches_regex("abc", "(unclosed") {
        Outcome::Issue(msg) => assert!(msg.starts_with("Invalid regex: ")),
        Outcome::Pass => panic!("expected an issue"),
    }
}

#[test]
fn require_parsed_missing_file() {
    let mut report = new_report();
    let status: ConfigStatus<String> = ConfigStatus::NotFound;
    assert!(report.require_parsed("devbox.json", &status).is_none());
    assert_eq!(report.results.len(), 1);
    assert_eq!(report.results[0].name, "devbox.json: exists");
    assert_eq!(report.results[0].status, Status::Fail);
    assert_eq!(report.results[0].message, "File not found");
}

#[test]
fn require_parsed_invalid_file() {
    let mut report = new_report();
    let status: ConfigStatus<String> =
        ConfigStatus::ParseError { raw: String::from("{"), error: String::from("Invalid JSON: eof") };
    assert!(report.require_parsed("devbox.json", &status).is_none());
    assert_eq!(report.results.len(), 2);
    assert_eq!(report.results[0].name, "devbox.json: exists");
    assert_eq!(report.results[0].status, Status::Pass);
    assert_eq!(report.results[1].name, "devbox.json: valid");
    assert_eq!(report.results[1].status, Status::Fail);
    assert_eq!(report.results[1].message, "Invalid JSON: eof");
    assert_eq!(status.raw_content(), Some("{"));
    assert!(status.as_ref_ok().is_none());
}

#[test]
fn require_parsed_valid_file() {
    let mut report = new_report();
    let status = ConfigStatus::Parsed { raw: String::from("content"), value: String::from("content") };
    assert_eq!(report.require_parsed("x.json", &status).map(|s| s.as_str()), Some("content"));
    assert_eq!(report.passed(), 2);
    assert_eq!(report.results[1].name, "x.json: valid");
    // The raw text is kept for a file that parsed too.
    assert_eq!(status.raw_content(), Some("content"));
    let missing: ConfigStatus<String> = ConfigStatus::NotFound;
    assert_eq!(missing.raw_content(), None);
}

#[test]
fn recommend_parsed_missing_file_warns() {
    let mut report = new_report();
    let status: ConfigStatus<String> = ConfigStatus::NotFound;
    assert!(report.recommend_parsed("renovate.json", &status).is_none());
    assert_eq!(report.results[0].status, Status::Warn);
    assert_eq!(report.failed(), 0);
    let invalid: ConfigStatus<String> =
        ConfigStatus::ParseError { raw: String::new(), error: String::from("bad") };
    assert!(report.recommend_parsed("renovate.json", &invalid).is_none());
    assert_eq!(report.results[2].status, Status::Fail);
    assert_eq!(report.failed(), 1);
}

#[test]
fn grouping_puts_failures_first() {
    let mut report = new_report();
    report.should("w", Outcome::fail("warn"));
    report.must("p", Outcome::Pass);
    report.must("f", Outcome::fail("fail"));
    report.must("f2", Outcome::fail("fail again"));
    let order = Report::display_order();
    assert_eq!(order, vec![Status::Fail, Status::Warn, Status::Pass, Status::Skip]);
    let failed: Vec<&str> = report.results_with_status(Status::Fail).iter().map(|r| r.name.as_str()).collect();
    assert_eq!(failed, vec!["f", "f2"]);
    assert_eq!(report.results_with_status(Status::Skip).len(), 0);
    assert_eq!(report.overall_status(), Status::Fail);
}

#[test]
fn overall_status_passes_when_clean() {
    let mut report = new_report();
    report.must("ok", Outcome::Pass);
    assert_eq!(report.overall_status(), Status::Pass);
}

#[test]
fn json_output_summary() {
    let mut languages = LanguageSet::new();
    languages.insert(Language::TypeScript);
    languages.insert(Language::Python);
    let mut report = Report::new(String::from("/p"), languages);
    report.must("README.md", Outcome::Pass);
    report.should("CHANGELOG.md", Outcome::fail("Not found: CHANGELOG.md"));
    let out = json_output(&report, String::from("/abs/p"));
    assert_eq!(out.path, "/abs/p");
    assert_eq!(out.languages, vec!["python".to_string(), "typescript".to_string()]);
    assert_eq!(out.summary.passed, 1);
    assert_eq!(out.summary.failed, 0);
    assert_eq!(out.summary.warnings, 1);
    assert_eq!(out.results.len(), 2);
    assert_eq!(out.results[0].status, "pass");
    assert_eq!(out.results[0].message, "");
    assert_eq!(out.results[1].status, "warn");
    assert_eq!(out.results[1].message, "Not found: CHANGELOG.md");
}

#[test]
fn display_names() {
    assert_eq!(Language::Cpp.to_string(), "C++");
    assert_eq!(Language::TypeScript.to_string(), "TypeScript");
    assert_eq!(Language::Cpp.id(), "cpp");
    assert_eq!(Status::Pass.to_string(), "PASS");
    assert_eq!(Status::Warn.to_string(), "WARN");
    assert_eq!(Status::Skip.id(), "skip");
    assert_eq!(Status::Fail.id(), "fail");
}

fn missing_message(path: &str) -> String {
    match file_exists(path, false) {
        Outcome::Issue(msg) => msg,
        Outcome::Pass => panic!("expected an issue"),
    }
}

#[test]
fn file_exists_follows_path_file_name() {
    assert_eq!(missing_message("a/"), "Not found: a");
    assert_eq!(missing_message("a//b"), "Not found: b");
    assert_eq!(missing_message("a/./"), "Not found: a");
    assert_eq!(missing_message("a/."), "Not found: a");
    assert_eq!(missing_message("./a"), "Not found: a");
    assert_eq!(missing_message("a/.."), "Not found: ");
    assert_eq!(missing_message(".."), "Not found: ");
    assert_eq!(missing_message("."), "Not found: ");
    assert_eq!(missing_message("/"), "Not found: ");
    assert_eq!(missing_message(""), "Not found: ");
    assert_eq!(missing_message("a/.b"), "Not found: .b");
    for p in ["a/", "a//b", "a/./", "a/.", "./a", "a/..", "..", ".", "/", "", "a/.b", "x/y.txt"] {
        let expected = std::path::Path::new(p).file_name().unwrap_or_default().to_string_lossy().to_string();
        assert_eq!(missing_message(p), format!("Not found: {expected}"), "path {p:?}");
    }
}

#[test]
fn search_results_map_to_outcomes() {
    assert!(search_result_outcome(Ok(true), "x").is_pass());
    match search_result_outcome(Ok(false), "a+b") {
        Outcome::Issue(msg) => assert_eq!(msg, "Pattern not found: a+b"),
        Outcome::Pass => panic!("expected an issue"),
    }
    match search_result_outcome(Err(String::from("oops")), "(") {
        Outcome::Issue(msg) => assert_eq!(msg, "Invalid regex: oops"),
        Outcome::Pass => panic!("expected an issue"),
    }
}

#[test]
fn config_models_default_to_empty() {
    let c = norms::config::CargoToml::default();
    assert!(c.package.is_none());
    assert!(!c.has_explicit_bin_targets());
    let d = norms::config::DevboxConfig::default();
    assert!(!d.has_package("uv"));
}
