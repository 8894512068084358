//! Check modules and runner.
//!
//! Checks are plain functions with the signature:
//!
//! ```ignore
//! fn check_something(ctx: &ProjectContext, report: &mut Report) { ... }
//! ```
//!
//! Each one's contract states the exact entries that it appends to the
//! report, as a function of the project context.

pub mod common;
pub mod python;
pub mod rust;
pub mod typescript;

use vstd::prelude::*;

use crate::context::ProjectContext;
use crate::detection::spec_detect_languages;
use crate::context::ConfigStatus;
use crate::models::{ordered_languages, Language, Status};
use crate::report::{
    bool_outcome, file_exists, file_exists_outcome, file_name, last_segment, must_entry, parsed_entries,
    should_entry, Entry, Outcome, Report,
};

verus! {

/// Whether the path, relative to the project root, exists.
pub open spec fn present(ctx: ProjectContext, path: Seq<char>) -> bool {
    ctx.spec_files().spec_exists(path)
}

/// The outcome of the file-existence check of a path of the project.
pub open spec fn file_check(ctx: ProjectContext, path: Seq<char>) -> Option<Seq<char>> {
    file_exists_outcome(path, present(ctx, path))
}

/// The file-existence check of a path of the project.
pub fn file_outcome(ctx: &ProjectContext, path: &str) -> (r: Outcome)
    ensures
        r@ == file_check(*ctx, path@),
{
    file_exists(path, ctx.path_exists(path))
}


/// Entries of the checks that apply to every project.
pub open spec fn common_entries(ctx: ProjectContext) -> Seq<Entry> {
    common::readme_entries(ctx) + common::license_entries(ctx) + common::changelog_entries(ctx)
        + common::gitignore_entries(ctx) + common::gitattributes_entries(ctx)
        + common::editorconfig_entries(ctx) + common::devbox_entries(ctx)
        + common::precommit_entries(ctx) + common::renovate_entries(ctx)
}

/// Entries of the Python checks.
pub open spec fn python_entries(ctx: ProjectContext) -> Seq<Entry> {
    python::pyproject_entries(ctx) + python::src_layout_entries(ctx) + python::uv_lock_entries(ctx)
        + python::dependency_groups_entries(ctx) + python::ruff_entries(ctx)
        + python::ruff_lint_entries(ctx) + python::mypy_entries(ctx)
        + python::precommit_hooks_entries(ctx) + python::devbox_uv_entries(ctx) + python::ci_entries(
        ctx,
    )
}

/// Entries of the checks registered for one language.
pub open spec fn language_entries(ctx: ProjectContext, language: Language) -> Seq<Entry> {
    match language {
        Language::Python => python_entries(ctx),
        _ => Seq::empty(),
    }
}

/// Entries of the checks registered for each language of a list, in order.
pub open spec fn languages_entries(ctx: ProjectContext, languages: Seq<Language>) -> Seq<Entry>
    decreases languages.len(),
{
    if languages.len() == 0 {
        Seq::empty()
    } else {
        languages_entries(ctx, languages.drop_last()) + language_entries(ctx, languages.last())
    }
}

/// Entries of `run_all_checks`: the common checks, then those of each
/// detected language.
pub open spec fn all_entries(ctx: ProjectContext) -> Seq<Entry> {
    common_entries(ctx) + languages_entries(
        ctx,
        ordered_languages(spec_detect_languages(ctx.spec_files())),
    )
}

/// Run the checks registered for one language.
#[verifier::rlimit(40)]
fn run_language_checks(ctx: &ProjectContext, report: &mut Report, language: Language)
    ensures
        final(report).extends(*old(report), language_entries(*ctx, language)),
{
    match language {
        Language::Python => {
            python::check_pyproject(ctx, report);
            python::check_src_layout(ctx, report);
            python::check_uv_lock(ctx, report);
            python::check_dependency_groups(ctx, report);
            python::check_ruff(ctx, report);
            python::check_ruff_lint(ctx, report);
            python::check_mypy(ctx, report);
            python::check_precommit_hooks(ctx, report);
            python::check_devbox_uv(ctx, report);
            python::check_ci(ctx, report);
            assert(report.log() =~= old(report).log() + python_entries(*ctx));
        },
        _ => {
            assert(report.log() =~= old(report).log() + language_entries(*ctx, language));
        },
    }
}

/// Run the checks that apply to every project.
#[verifier::rlimit(40)]
fn run_common_checks(ctx: &ProjectContext, report: &mut Report)
    ensures
        final(report).extends(*old(report), common_entries(*ctx)),
{
    common::check_readme(ctx, report);
    common::check_license(ctx, report);
    common::check_changelog(ctx, report);
    common::check_gitignore(ctx, report);
    common::check_gitattributes(ctx, report);
    common::check_editorconfig(ctx, report);
    common::check_devbox(ctx, report);
    common::check_precommit(ctx, report);
    common::check_renovate(ctx, report);
    assert(report.log() =~= old(report).log() + common_entries(*ctx));
}

/// Run all applicable checks for the given project context.
///
/// Common checks always run. Language-specific checks run for each detected language.
pub fn run_all_checks(ctx: &ProjectContext, report: &mut Report)
    ensures
        final(report).extends(*old(report), all_entries(*ctx)),
{
    // Common checks (apply to all projects)
    run_common_checks(ctx, report);
    let ghost after_common = *report;
    // Language-specific checks
    let languages = ctx.languages().to_vec();
    let n = languages.len();
    let mut i: usize = 0;
    assert(languages@.take(0) =~= Seq::<Language>::empty());
    while i < n
        invariant
            n == languages@.len(),
            i <= n,
            report.extends(after_common, languages_entries(*ctx, languages@.take(i as int))),
        decreases n - i,
    {
        run_language_checks(ctx, report, languages[i]);
        proof {
            assert(languages@.take(i + 1).drop_last() =~= languages@.take(i as int));
            assert(report.log() =~= after_common.log() + languages_entries(
                *ctx,
                languages@.take(i + 1),
            ));
        }
        i = i + 1;
    }
    assert(languages@.take(n as int) =~= languages@);
    assert(report.log() =~= old(report).log() + all_entries(*ctx));
}

/// The language checks that run depend only on whether Python is detected:
/// the Python checks run exactly once when it is, and nothing runs
/// otherwise, whatever other languages are detected.
pub proof fn law_language_checks_follow_detection(ctx: ProjectContext)
    ensures
        languages_entries(ctx, ordered_languages(spec_detect_languages(ctx.spec_files()))) == if spec_detect_languages(
            ctx.spec_files(),
        ).contains(Language::Python) {
            python_entries(ctx)
        } else {
            Seq::<Entry>::empty()
        },
{
    let set = spec_detect_languages(ctx.spec_files());
    let s0 = Seq::<Language>::empty();
    let s1 = if set.contains(Language::Cpp) { s0.push(Language::Cpp) } else { s0 };
    let s2 = if set.contains(Language::Python) { s1.push(Language::Python) } else { s1 };
    let s3 = if set.contains(Language::Rust) { s2.push(Language::Rust) } else { s2 };
    let s4 = if set.contains(Language::TypeScript) { s3.push(Language::TypeScript) } else { s3 };
    assert(languages_entries(ctx, s0) == Seq::<Entry>::empty());
    if set.contains(Language::Cpp) {
        assert(s1.drop_last() == s0);
    }
    assert(languages_entries(ctx, s1) =~= Seq::<Entry>::empty());
    if set.contains(Language::Python) {
        assert(s2.drop_last() == s1);
        assert(languages_entries(ctx, s2) =~= python_entries(ctx));
    } else {
        assert(languages_entries(ctx, s2) =~= Seq::<Entry>::empty());
    }
    if set.contains(Language::Rust) {
        assert(s3.drop_last() == s2);
        assert(languages_entries(ctx, s3) =~= languages_entries(ctx, s2));
    }
    if set.contains(Language::TypeScript) {
        assert(s4.drop_last() == s3);
        assert(languages_entries(ctx, s4) =~= languages_entries(ctx, s3));
    }
}

/// Whether no entry of `log` has a name that begins with `.p`.
spec fn no_dot_p_name(log: Seq<Entry>) -> bool {
    forall|j: int| 0 <= j < log.len() ==> (#[trigger] log[j]).name[0] != '.' || log[j].name[1] != 'p'
}

proof fn lemma_no_dot_p_concat(a: Seq<Entry>, b: Seq<Entry>)
    requires
        no_dot_p_name(a),
        no_dot_p_name(b),
    ensures
        no_dot_p_name(a + b),
{
    assert forall|j: int| 0 <= j < (a + b).len() implies (#[trigger] (a + b)[j]).name[0] != '.'
        || (a + b)[j].name[1] != 'p' by {
        if j < a.len() {
            assert((a + b)[j] == a[j]);
        } else {
            assert((a + b)[j] == b[j - a.len()]);
        }
    }
}

proof fn lemma_parsed_no_dot_p<T>(label: Seq<char>, status: ConfigStatus<T>, severity: Status)
    requires
        label.len() >= 2,
        label[0] != '.' || label[1] != 'p',
    ensures
        no_dot_p_name(parsed_entries(label, status, severity)),
{
    let exists_name = label + ": exists"@;
    let valid_name = label + ": valid"@;
    assert(exists_name[0] == label[0] && exists_name[1] == label[1]);
    assert(valid_name[0] == label[0] && valid_name[1] == label[1]);
}

/// No entry of the common checks but that of `check_precommit` has a name
/// beginning with `.p`.
proof fn lemma_common_names(ctx: ProjectContext)
    ensures
        no_dot_p_name(
            common::readme_entries(ctx) + common::license_entries(ctx) + common::changelog_entries(
                ctx,
            ) + common::gitignore_entries(ctx) + common::gitattributes_entries(ctx)
                + common::editorconfig_entries(ctx) + common::devbox_entries(ctx),
        ),
        no_dot_p_name(common::renovate_entries(ctx)),
{
    reveal_strlit("README.md");
    reveal_strlit("LICENSE");
    reveal_strlit("CHANGELOG.md");
    reveal_strlit(".gitignore");
    reveal_strlit(".gitattributes");
    reveal_strlit(".gitattributes: text=auto");
    reveal_strlit(".gitattributes: eol=lf");
    reveal_strlit(".gitattributes: binary markers");
    reveal_strlit(".editorconfig");
    reveal_strlit(".editorconfig: ");
    reveal_strlit("devbox.json");
    reveal_strlit("devbox.json: has $schema");
    reveal_strlit("devbox.json: has packages");
    reveal_strlit("devbox.lock");
    reveal_strlit("renovate.json");
    reveal_strlit("renovate.json: has $schema");
    reveal_strlit("renovate.json: has extends");
    reveal_strlit("renovate.json: extends best-practices");
    let configs = ctx.spec_configs();
    assert(no_dot_p_name(common::readme_entries(ctx)));
    assert(no_dot_p_name(common::license_entries(ctx)));
    assert(no_dot_p_name(common::changelog_entries(ctx)));
    assert(no_dot_p_name(common::gitignore_entries(ctx)));
    lemma_parsed_no_dot_p(".gitattributes"@, configs.gitattributes, Status::Fail);
    if let ConfigStatus::Parsed { value, .. } = configs.gitattributes {
        assert(no_dot_p_name(common::gitattributes_content_entries(value@)));
        lemma_no_dot_p_concat(
            parsed_entries(".gitattributes"@, configs.gitattributes, Status::Fail),
            common::gitattributes_content_entries(value@),
        );
    } else {
        assert(common::gitattributes_entries(ctx) =~= parsed_entries(
            ".gitattributes"@,
            configs.gitattributes,
            Status::Fail,
        ));
    }
    lemma_parsed_no_dot_p(".editorconfig"@, configs.editorconfig, Status::Fail);
    if let ConfigStatus::Parsed { value, .. } = configs.editorconfig {
        let c = common::editorconfig_content_entries(value@);
        assert forall|j: int| 0 <= j < c.len() implies (#[trigger] c[j]).name[0] != '.' || c[j].name[1]
            != 'p' by {
            assert(c[j].name == ".editorconfig: "@ + c[j].name.skip(15));
        }
        lemma_no_dot_p_concat(
            parsed_entries(".editorconfig"@, configs.editorconfig, Status::Fail),
            c,
        );
    } else {
        assert(common::editorconfig_entries(ctx) =~= parsed_entries(
            ".editorconfig"@,
            configs.editorconfig,
            Status::Fail,
        ));
    }
    lemma_parsed_no_dot_p("devbox.json"@, configs.devbox, Status::Fail);
    if let ConfigStatus::Parsed { .. } = configs.devbox {
        let rest = common::devbox_entries(ctx).skip(2);
        assert(common::devbox_entries(ctx) =~= parsed_entries("devbox.json"@, configs.devbox, Status::Fail) + rest);
        assert(no_dot_p_name(rest));
        lemma_no_dot_p_concat(parsed_entries("devbox.json"@, configs.devbox, Status::Fail), rest);
    } else {
        assert(common::devbox_entries(ctx) =~= parsed_entries("devbox.json"@, configs.devbox, Status::Fail));
    }
    lemma_parsed_no_dot_p("renovate.json"@, configs.renovate, Status::Warn);
    if let ConfigStatus::Parsed { .. } = configs.renovate {
        let rest = common::renovate_entries(ctx).skip(2);
        assert(common::renovate_entries(ctx) =~= parsed_entries("renovate.json"@, configs.renovate, Status::Warn) + rest);
        assert(no_dot_p_name(rest));
        lemma_no_dot_p_concat(parsed_entries("renovate.json"@, configs.renovate, Status::Warn), rest);
    } else {
        assert(common::renovate_entries(ctx) =~= parsed_entries("renovate.json"@, configs.renovate, Status::Warn));
    }
    lemma_no_dot_p_concat(common::readme_entries(ctx), common::license_entries(ctx));
    lemma_no_dot_p_concat(
        common::readme_entries(ctx) + common::license_entries(ctx),
        common::changelog_entries(ctx),
    );
    lemma_no_dot_p_concat(
        common::readme_entries(ctx) + common::license_entries(ctx) + common::changelog_entries(ctx),
        common::gitignore_entries(ctx),
    );
    lemma_no_dot_p_concat(
        common::readme_entries(ctx) + common::license_entries(ctx) + common::changelog_entries(ctx)
            + common::gitignore_entries(ctx),
        common::gitattributes_entries(ctx),
    );
    lemma_no_dot_p_concat(
        common::readme_entries(ctx) + common::license_entries(ctx) + common::changelog_entries(ctx)
            + common::gitignore_entries(ctx) + common::gitattributes_entries(ctx),
        common::editorconfig_entries(ctx),
    );
    lemma_no_dot_p_concat(
        common::readme_entries(ctx) + common::license_entries(ctx) + common::changelog_entries(ctx)
            + common::gitignore_entries(ctx) + common::gitattributes_entries(ctx)
            + common::editorconfig_entries(ctx),
        common::devbox_entries(ctx),
    );
}

/// No entry of the Python checks has a name beginning with `.`.
proof fn lemma_python_names(ctx: ProjectContext)
    ensures
        no_dot_p_name(python_entries(ctx)),
{
    reveal_strlit("pyproject.toml");
    reveal_strlit("pyproject.toml: has [project] section");
    reveal_strlit("Python: src/ directory");
    reveal_strlit("Python: src/ contains packages");
    reveal_strlit("Python: uv.lock");
    reveal_strlit("Python: has dependency-groups");
    reveal_strlit("Python: has dev dependency group");
    reveal_strlit("Ruff: configured");
    reveal_strlit("Ruff: line-length set");
    reveal_strlit("Ruff format: configured");
    reveal_strlit("Ruff format: LF line endings");
    reveal_strlit("Ruff lint: configured");
    reveal_strlit("Ruff lint: preview mode");
    reveal_strlit("Ruff lint: has rules selected");
    reveal_strlit("Ruff lint: uses ALL rule");
    reveal_strlit("Ruff lint: has ignore list");
    reveal_strlit("Ruff lint: pydocstyle convention");
    reveal_strlit("Ruff lint: isort configured");
    reveal_strlit("Ruff lint: copyright notice regex");
    reveal_strlit("mypy: configured");
    reveal_strlit("mypy: strict mode");
    reveal_strlit("Python pre-commit: Ruff hooks");
    reveal_strlit("Python pre-commit: ruff-check");
    reveal_strlit("Python pre-commit: ruff-format");
    reveal_strlit("Python pre-commit: Mypy hook");
    reveal_strlit("Python devbox: includes uv");
    reveal_strlit("Python CI: format check");
    reveal_strlit("Python CI: lint check");
    reveal_strlit("Python CI: type check");
    let configs = ctx.spec_configs();
    lemma_parsed_no_dot_p("pyproject.toml"@, configs.pyproject, Status::Fail);
    if let ConfigStatus::Parsed { .. } = configs.pyproject {
        let rest = python::pyproject_entries(ctx).skip(2);
        assert(python::pyproject_entries(ctx) =~= parsed_entries(
            "pyproject.toml"@,
            configs.pyproject,
            Status::Fail,
        ) + rest);
        assert(no_dot_p_name(rest));
        lemma_no_dot_p_concat(parsed_entries("pyproject.toml"@, configs.pyproject, Status::Fail), rest);
    } else {
        assert(python::pyproject_entries(ctx) =~= parsed_entries(
            "pyproject.toml"@,
            configs.pyproject,
            Status::Fail,
        ));
    }
    assert(no_dot_p_name(python::src_layout_entries(ctx)));
    assert(no_dot_p_name(python::uv_lock_entries(ctx)));
    assert(no_dot_p_name(python::dependency_groups_entries(ctx)));
    if let ConfigStatus::Parsed { value, .. } = configs.pyproject {
        if let Some(tool) = value.tool {
            if let Some(ruff) = tool.ruff {
                let head = seq![
                    must_entry("Ruff: configured"@, None),
                    should_entry("Ruff: line-length set"@, bool_outcome(ruff.line_length is Some)),
                ];
                let tail = python::ruff_entries(ctx).skip(2);
                assert(python::ruff_entries(ctx) =~= head + tail);
                assert(no_dot_p_name(head));
                assert(no_dot_p_name(tail));
                lemma_no_dot_p_concat(head, tail);
            }
        }
    }
    assert(no_dot_p_name(python::ruff_entries(ctx)));
    assert(no_dot_p_name(python::ruff_lint_entries(ctx)));
    assert(no_dot_p_name(python::mypy_entries(ctx)));
    assert(no_dot_p_name(python::precommit_hooks_entries(ctx)));
    assert(no_dot_p_name(python::devbox_uv_entries(ctx)));
    assert(no_dot_p_name(python::ci_entries(ctx)));
    lemma_no_dot_p_concat(python::pyproject_entries(ctx), python::src_layout_entries(ctx));
    let a1 = python::pyproject_entries(ctx) + python::src_layout_entries(ctx);
    lemma_no_dot_p_concat(a1, python::uv_lock_entries(ctx));
    let a2 = a1 + python::uv_lock_entries(ctx);
    lemma_no_dot_p_concat(a2, python::dependency_groups_entries(ctx));
    let a3 = a2 + python::dependency_groups_entries(ctx);
    lemma_no_dot_p_concat(a3, python::ruff_entries(ctx));
    let a4 = a3 + python::ruff_entries(ctx);
    lemma_no_dot_p_concat(a4, python::ruff_lint_entries(ctx));
    let a5 = a4 + python::ruff_lint_entries(ctx);
    lemma_no_dot_p_concat(a5, python::mypy_entries(ctx));
    let a6 = a5 + python::mypy_entries(ctx);
    lemma_no_dot_p_concat(a6, python::precommit_hooks_entries(ctx));
    let a7 = a6 + python::precommit_hooks_entries(ctx);
    lemma_no_dot_p_concat(a7, python::devbox_uv_entries(ctx));
    let a8 = a7 + python::devbox_uv_entries(ctx);
    lemma_no_dot_p_concat(a8, python::ci_entries(ctx));
}

/// The file name of a path without separators that is not `.` or `..` is the
/// path itself.
proof fn lemma_plain_file_name(path: Seq<char>)
    requires
        path.len() > 2,
        forall|i: int| 0 <= i < path.len() ==> path[i] != '/',
    ensures
        file_name(path) == path,
{
    lemma_last_segment_of_plain_name(path);
    assert(path != seq!['.']);
    assert(path != seq!['.', '.']);
    reveal(file_name);
}

proof fn lemma_last_segment_of_plain_name(path: Seq<char>)
    requires
        forall|i: int| 0 <= i < path.len() ==> path[i] != '/',
    ensures
        last_segment(path) == path,
    decreases path.len(),
{
    if path.len() > 0 {
        lemma_last_segment_of_plain_name(path.drop_last());
        assert(path.drop_last().push(path.last()) =~= path);
    }
}

/// Every run of all checks reports the pre-commit configuration exactly
/// once, as a required check: it fails, with the message
/// `Not found: .pre-commit-config.yaml`, exactly when that file does not
/// exist at the project root, and passes otherwise.
pub proof fn law_all_checks_report_precommit_config_once(ctx: ProjectContext)
    ensures
        exists|k: int|
            {
                &&& 0 <= k < all_entries(ctx).len()
                &&& (#[trigger] all_entries(ctx)[k]).name == ".pre-commit-config.yaml"@
                &&& all_entries(ctx)[k].status == (if ctx.spec_files().spec_exists(
                    ".pre-commit-config.yaml"@,
                ) {
                    Status::Pass
                } else {
                    Status::Fail
                })
                &&& !ctx.spec_files().spec_exists(".pre-commit-config.yaml"@) ==> all_entries(
                    ctx,
                )[k].message == "Not found: .pre-commit-config.yaml"@
            },
        forall|j: int, k: int|
            0 <= j < all_entries(ctx).len() && 0 <= k < all_entries(ctx).len() && (#[trigger] all_entries(
                ctx,
            )[j]).name == ".pre-commit-config.yaml"@ && (#[trigger] all_entries(ctx)[k]).name
                == ".pre-commit-config.yaml"@ ==> j == k,
{
    let name = ".pre-commit-config.yaml"@;
    reveal_strlit(".pre-commit-config.yaml");
    reveal_strlit("Not found: ");
    reveal_strlit("Not found: .pre-commit-config.yaml");
    let head = common::readme_entries(ctx) + common::license_entries(ctx)
        + common::changelog_entries(ctx) + common::gitignore_entries(ctx)
        + common::gitattributes_entries(ctx) + common::editorconfig_entries(ctx)
        + common::devbox_entries(ctx);
    let languages = languages_entries(
        ctx,
        ordered_languages(spec_detect_languages(ctx.spec_files())),
    );
    lemma_common_names(ctx);
    law_language_checks_follow_detection(ctx);
    if spec_detect_languages(ctx.spec_files()).contains(Language::Python) {
        lemma_python_names(ctx);
    }
    assert(no_dot_p_name(languages));
    let rest = common::renovate_entries(ctx) + languages;
    lemma_no_dot_p_concat(common::renovate_entries(ctx), languages);
    let log = all_entries(ctx);
    let entry = common::precommit_entries(ctx)[0];
    assert(log =~= head + (seq![entry] + rest));
    let k = head.len() as int;
    assert(log[k] == entry);
    lemma_plain_file_name(name);
    assert("Not found: "@ + name =~= "Not found: .pre-commit-config.yaml"@);
    assert(log[k].name == name);
    assert forall|j: int| 0 <= j < log.len() && (#[trigger] log[j]).name == name implies j == k by {
        assert(log[j].name[0] == '.' && log[j].name[1] == 'p');
        if j < k {
            assert(log[j] == head[j]);
        } else if j > k {
            assert(log[j] == rest[j - k - 1]);
        }
    }
}

} // verus!
