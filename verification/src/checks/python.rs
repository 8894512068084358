//! Python-specific checks.

use vstd::prelude::*;
use vstd::string::*;

use crate::checks::{file_check, file_outcome};
use crate::config::pyproject::{MypyConfig, RuffLintConfig};
use crate::config::PyprojectToml;
use crate::context::{direct_child, is_direct_child, join, join_path, ConfigStatus, ProjectContext, ProjectFiles};
use crate::models::Status;
use crate::report::{bool_outcome, must_entry, parsed_entries, should_entry, Entry, Outcome, Report};
use crate::text::{lowercase, seq_contains, str_contains, to_lowercase};

verus! {

//
// Project configuration
//

/// Entries of `check_pyproject`.
pub open spec fn pyproject_entries(ctx: ProjectContext) -> Seq<Entry> {
    let status = ctx.spec_configs().pyproject;
    parsed_entries("pyproject.toml"@, status, Status::Fail) + match status {
        ConfigStatus::Parsed { value: config, .. } => seq![
            must_entry("pyproject.toml: has [project] section"@, bool_outcome(config.project is Some)),
        ],
        _ => Seq::empty(),
    }
}

pub fn check_pyproject(ctx: &ProjectContext, report: &mut Report)
    ensures
        final(report).extends(*old(report), pyproject_entries(*ctx)),
{
    let Some(config) = report.require_parsed("pyproject.toml", ctx.pyproject()) else {
        assert(report.log() =~= old(report).log() + pyproject_entries(*ctx));
        return;
    };
    report.must("pyproject.toml: has [project] section", Outcome::from_bool(config.project.is_some()));
    assert(report.log() =~= old(report).log() + pyproject_entries(*ctx));
}

//
// Project layout
//

/// Whether `dir` is a directory directly inside `src` that holds an
/// `__init__.py`.
pub open spec fn is_src_package(files: ProjectFiles, dir: Seq<char>) -> bool {
    is_direct_child(dir, "src"@) && files.spec_exists(join_path(dir, "__init__.py"@))
}

/// Whether `src/` holds a package.
pub open spec fn has_src_packages(files: ProjectFiles) -> bool {
    exists|i: int| 0 <= i < files.dirs@.len() && is_src_package(files, (#[trigger] files.dirs@[i])@)
}

/// Entries of `check_src_layout`.
pub open spec fn src_layout_entries(ctx: ProjectContext) -> Seq<Entry> {
    let files = ctx.spec_files();
    if !files.spec_is_dir("src"@) {
        seq![should_entry("Python: src/ directory"@, Some("Consider using a src/ layout"@))]
    } else {
        seq![
            should_entry("Python: src/ directory"@, None),
            should_entry("Python: src/ contains packages"@, bool_outcome(has_src_packages(files))),
        ]
    }
}

/// Whether some directory directly inside `src` holds an `__init__.py`.
fn src_has_packages(files: &ProjectFiles) -> (r: bool)
    ensures
        r == has_src_packages(*files),
{
    let n = files.dirs.len();
    let mut i: usize = 0;
    while i < n
        invariant
            n == files.dirs@.len(),
            i <= n,
            forall|j: int| 0 <= j < i ==> !is_src_package(*files, (#[trigger] files.dirs@[j])@),
        decreases n - i,
    {
        let dir = files.dirs[i].as_str();
        if direct_child(dir, "src") {
            let init = join(dir, "__init__.py");
            if files.path_exists(init.as_str()) {
                assert(is_src_package(*files, files.dirs@[i as int]@));
                return true;
            }
        }
        i = i + 1;
    }
    false
}

pub fn check_src_layout(ctx: &ProjectContext, report: &mut Report)
    ensures
        final(report).extends(*old(report), src_layout_entries(*ctx)),
{
    let files = ctx.files();
    if !files.is_dir("src") {
        report.should("Python: src/ directory", Outcome::fail("Consider using a src/ layout"));
        return;
    }
    report.should("Python: src/ directory", Outcome::Pass);
    let has_packages = src_has_packages(files);
    report.should("Python: src/ contains packages", Outcome::from_bool(has_packages));
    assert(report.log() =~= old(report).log() + src_layout_entries(*ctx));
}

//
// Dependency management
//

/// Entries of `check_uv_lock`.
pub open spec fn uv_lock_entries(ctx: ProjectContext) -> Seq<Entry> {
    seq![should_entry("Python: uv.lock"@, file_check(ctx, "uv.lock"@))]
}

pub fn check_uv_lock(ctx: &ProjectContext, report: &mut Report)
    ensures
        final(report).extends(*old(report), uv_lock_entries(*ctx)),
{
    report.should("Python: uv.lock", file_outcome(ctx, "uv.lock"));
}

/// Entries of `check_dependency_groups`.
pub open spec fn dependency_groups_entries(ctx: ProjectContext) -> Seq<Entry> {
    match ctx.spec_configs().pyproject {
        ConfigStatus::Parsed { value: config, .. } => match config.dependency_groups {
            Some(groups) => seq![
                should_entry("Python: has dependency-groups"@, None),
                should_entry(
                    "Python: has dev dependency group"@,
                    bool_outcome(groups@.contains_key("dev"@)),
                ),
            ],
            None => seq![
                should_entry(
                    "Python: has dependency-groups"@,
                    Some("Consider using dependency-groups for dev dependencies"@),
                ),
            ],
        },
        _ => Seq::empty(),
    }
}

pub fn check_dependency_groups(ctx: &ProjectContext, report: &mut Report)
    ensures
        final(report).extends(*old(report), dependency_groups_entries(*ctx)),
{
    let Some(config) = ctx.pyproject().as_ref_ok() else {
        assert(report.log() =~= old(report).log() + dependency_groups_entries(*ctx));
        return;
    };
    if let Some(groups) = &config.dependency_groups {
        report.should("Python: has dependency-groups", Outcome::Pass);
        report.should("Python: has dev dependency group", Outcome::from_bool(groups.contains_key("dev")));
    } else {
        report.should(
            "Python: has dependency-groups",
            Outcome::fail("Consider using dependency-groups for dev dependencies"),
        );
    }
    assert(report.log() =~= old(report).log() + dependency_groups_entries(*ctx));
}

//
// Ruff
//

/// Entries of `check_ruff`.
pub open spec fn ruff_entries(ctx: ProjectContext) -> Seq<Entry> {
    match ctx.spec_configs().pyproject {
        ConfigStatus::Parsed { value: config, .. } => match config.tool {
            None => seq![must_entry("Ruff: configured"@, Some("No [tool] section in pyproject.toml"@))],
            Some(tool) => match tool.ruff {
                None => seq![
                    must_entry("Ruff: configured"@, Some("Missing [tool.ruff] in pyrpoject.toml"@)),
                ],
                Some(ruff) => seq![
                    must_entry("Ruff: configured"@, None),
                    should_entry("Ruff: line-length set"@, bool_outcome(ruff.line_length is Some)),
                ] + match ruff.format {
                    Some(fmt) => seq![
                        should_entry("Ruff format: configured"@, None),
                        should_entry(
                            "Ruff format: LF line endings"@,
                            bool_outcome(fmt.line_ending matches Some(e) && e@ == "lf"@),
                        ),
                    ],
                    None => seq![
                        should_entry(
                            "Ruff format: configured"@,
                            Some("Consider configuring [tool.ruff.format]"@),
                        ),
                    ],
                },
            },
        },
        _ => Seq::empty(),
    }
}

pub fn check_ruff(ctx: &ProjectContext, report: &mut Report)
    ensures
        final(report).extends(*old(report), ruff_entries(*ctx)),
{
    let Some(config) = ctx.pyproject().as_ref_ok() else {
        assert(report.log() =~= old(report).log() + ruff_entries(*ctx));
        return;
    };
    let Some(tool) = &config.tool else {
        report.must("Ruff: configured", Outcome::fail("No [tool] section in pyproject.toml"));
        return;
    };
    let Some(ruff) = &tool.ruff else {
        report.must("Ruff: configured", Outcome::fail("Missing [tool.ruff] in pyrpoject.toml"));
        return;
    };
    report.must("Ruff: configured", Outcome::Pass);
    report.should("Ruff: line-length set", Outcome::from_bool(ruff.line_length.is_some()));
    // Format settings
    if let Some(fmt) = &ruff.format {
        report.should("Ruff format: configured", Outcome::Pass);
        let lf = match &fmt.line_ending {
            Some(e) => crate::text::str_eq(e.as_str(), "lf"),
            None => false,
        };
        report.should("Ruff format: LF line endings", Outcome::from_bool(lf));
    } else {
        report.should(
            "Ruff format: configured",
            Outcome::fail("Consider configuring [tool.ruff.format]"),
        );
    }
    assert(report.log() =~= old(report).log() + ruff_entries(*ctx));
}

/// The `[tool.ruff.lint]` table of a `pyproject.toml`, if present.
pub open spec fn ruff_lint_of(config: PyprojectToml) -> Option<RuffLintConfig> {
    match config.tool {
        Some(tool) => match tool.ruff {
            Some(ruff) => ruff.lint,
            None => None,
        },
        None => None,
    }
}

/// Entries of the checks of a `[tool.ruff.lint]` table.
pub open spec fn ruff_lint_table_entries(lint: RuffLintConfig) -> Seq<Entry> {
    seq![
        should_entry("Ruff lint: configured"@, None),
        should_entry("Ruff lint: preview mode"@, bool_outcome(lint.preview == Some(true))),
        should_entry("Ruff lint: has rules selected"@, bool_outcome(lint.spec_has_rules())),
        should_entry("Ruff lint: uses ALL rule"@, bool_outcome(lint.spec_selects_all())),
    ] + (if lint.spec_selects_all() {
        seq![should_entry("Ruff lint: has ignore list"@, bool_outcome(lint.spec_has_ignores()))]
    } else {
        Seq::empty()
    }) + seq![
        should_entry(
            "Ruff lint: pydocstyle convention"@,
            bool_outcome(lint.pydocstyle matches Some(p) && p.convention is Some),
        ),
        should_entry("Ruff lint: isort configured"@, bool_outcome(lint.isort is Some)),
        should_entry(
            "Ruff lint: copyright notice regex"@,
            bool_outcome(lint.flake8_copyright matches Some(c) && c.notice_rgx is Some),
        ),
    ]
}

/// Entries of `check_ruff_lint`.
pub open spec fn ruff_lint_entries(ctx: ProjectContext) -> Seq<Entry> {
    match ctx.spec_configs().pyproject {
        ConfigStatus::Parsed { value: config, .. } => match ruff_lint_of(config) {
            None => seq![
                should_entry("Ruff lint: configured"@, Some("Consider configuring [tool.ruff.lint]"@)),
            ],
            Some(lint) => ruff_lint_table_entries(lint),
        },
        _ => Seq::empty(),
    }
}

/// The `[tool.ruff.lint]` table of a `pyproject.toml`, if present.
fn find_ruff_lint(config: &PyprojectToml) -> (r: Option<&RuffLintConfig>)
    ensures
        r is Some <==> ruff_lint_of(*config) is Some,
        r matches Some(l) ==> *l == ruff_lint_of(*config)->0,
{
    match &config.tool {
        Some(tool) => match &tool.ruff {
            Some(ruff) => match &ruff.lint {
                Some(lint) => Some(lint),
                None => None,
            },
            None => None,
        },
        None => None,
    }
}

pub fn check_ruff_lint(ctx: &ProjectContext, report: &mut Report)
    ensures
        final(report).extends(*old(report), ruff_lint_entries(*ctx)),
{
    let Some(config) = ctx.pyproject().as_ref_ok() else {
        assert(report.log() =~= old(report).log() + ruff_lint_entries(*ctx));
        return;
    };
    let Some(lint) = find_ruff_lint(config) else {
        report.should(
            "Ruff lint: configured",
            Outcome::fail("Consider configuring [tool.ruff.lint]"),
        );
        return;
    };
    report.should("Ruff lint: configured", Outcome::Pass);
    let preview = match lint.preview {
        Some(p) => p,
        None => false,
    };
    report.should("Ruff lint: preview mode", Outcome::from_bool(preview));
    report.should("Ruff lint: has rules selected", Outcome::from_bool(lint.has_rules()));
    report.should("Ruff lint: uses ALL rule", Outcome::from_bool(lint.selects_all()));
    if lint.selects_all() {
        report.should("Ruff lint: has ignore list", Outcome::from_bool(lint.has_ignores()));
    }
    // Pydocstyle convention
    let has_convention = match &lint.pydocstyle {
        Some(p) => p.convention.is_some(),
        None => false,
    };
    report.should("Ruff lint: pydocstyle convention", Outcome::from_bool(has_convention));
    // Isort
    report.should("Ruff lint: isort configured", Outcome::from_bool(lint.isort.is_some()));
    // Copyright notice
    let has_notice = match &lint.flake8_copyright {
        Some(c) => c.notice_rgx.is_some(),
        None => false,
    };
    report.should("Ruff lint: copyright notice regex", Outcome::from_bool(has_notice));
    assert(report.log() =~= old(report).log() + ruff_lint_entries(*ctx));
}

//
// Type checking (Mypy)
//

/// The `[tool.mypy]` table of a `pyproject.toml`, if present.
pub open spec fn mypy_of(config: PyprojectToml) -> Option<MypyConfig> {
    match config.tool {
        Some(tool) => tool.mypy,
        None => None,
    }
}

/// Entries of `check_mypy`.
pub open spec fn mypy_entries(ctx: ProjectContext) -> Seq<Entry> {
    match ctx.spec_configs().pyproject {
        ConfigStatus::Parsed { value: config, .. } => match mypy_of(config) {
            None => seq![must_entry("mypy: configured"@, Some("Missing [tool.mypy] in pyproject.toml"@))],
            Some(mypy) => seq![
                must_entry("mypy: configured"@, None),
                should_entry("mypy: strict mode"@, bool_outcome(mypy.strict == Some(true))),
            ],
        },
        _ => Seq::empty(),
    }
}

/// With a `[tool.mypy]` table, mypy is reported configured, and the
/// recommended check `mypy: strict mode` passes exactly when the table sets
/// `strict = true`; where `strict` is unset or false it is a warning.
pub proof fn law_mypy_strict_mode_passes_iff_strict_true(
    ctx: ProjectContext,
    config: PyprojectToml,
    mypy: MypyConfig,
)
    requires
        ctx.spec_configs().pyproject.parsed_value() == Some(config),
        config.tool matches Some(tool) && tool.mypy == Some(mypy),
    ensures
        mypy_entries(ctx).len() == 2,
        mypy_entries(ctx)[0] == (Entry {
            name: "mypy: configured"@,
            status: Status::Pass,
            message: Seq::empty(),
        }),
        mypy_entries(ctx)[1].name == "mypy: strict mode"@,
        mypy_entries(ctx)[1].status == Status::Pass <==> mypy.strict == Some(true),
        mypy.strict != Some(true) ==> mypy_entries(ctx)[1].status == Status::Warn,
{
}

pub fn check_mypy(ctx: &ProjectContext, report: &mut Report)
    ensures
        final(report).extends(*old(report), mypy_entries(*ctx)),
{
    let Some(config) = ctx.pyproject().as_ref_ok() else {
        assert(report.log() =~= old(report).log() + mypy_entries(*ctx));
        return;
    };
    let mypy = match &config.tool {
        Some(t) => match &t.mypy {
            Some(m) => Some(m),
            None => None,
        },
        None => None,
    };
    let Some(mypy) = mypy else {
        report.must("mypy: configured", Outcome::fail("Missing [tool.mypy] in pyproject.toml"));
        return;
    };
    report.must("mypy: configured", Outcome::Pass);
    let strict = match mypy.strict {
        Some(s) => s,
        None => false,
    };
    report.should("mypy: strict mode", Outcome::from_bool(strict));
    assert(report.log() =~= old(report).log() + mypy_entries(*ctx));
}

//
// Pre-commit integration
//

/// Entries of `check_precommit_hooks`.
pub open spec fn precommit_hooks_entries(ctx: ProjectContext) -> Seq<Entry> {
    match ctx.spec_configs().precommit {
        ConfigStatus::Parsed { value: config, .. } => {
            let has_ruff = config.spec_has_repo_containing("ruff"@);
            seq![should_entry("Python pre-commit: Ruff hooks"@, bool_outcome(has_ruff))] + (if has_ruff {
                seq![
                    should_entry(
                        "Python pre-commit: ruff-check"@,
                        bool_outcome(config.spec_has_hook("ruff-check"@)),
                    ),
                    should_entry(
                        "Python pre-commit: ruff-format"@,
                        bool_outcome(config.spec_has_hook("ruff-format"@)),
                    ),
                ]
            } else {
                Seq::empty()
            }) + seq![
                should_entry("Python pre-commit: Mypy hook"@, bool_outcome(config.spec_has_hook("mypy"@))),
            ]
        },
        _ => Seq::empty(),
    }
}

pub fn check_precommit_hooks(ctx: &ProjectContext, report: &mut Report)
    ensures
        final(report).extends(*old(report), precommit_hooks_entries(*ctx)),
{
    let Some(config) = ctx.precommit().as_ref_ok() else {
        assert(report.log() =~= old(report).log() + precommit_hooks_entries(*ctx));
        return;
    };
    // Ruff hooks
    let has_ruff = config.has_repo_containing("ruff");
    report.should("Python pre-commit: Ruff hooks", Outcome::from_bool(has_ruff));
    if has_ruff {
        report.should("Python pre-commit: ruff-check", Outcome::from_bool(config.has_hook("ruff-check")));
        report.should("Python pre-commit: ruff-format", Outcome::from_bool(config.has_hook("ruff-format")));
    }
    // Mypy hook
    report.should("Python pre-commit: Mypy hook", Outcome::from_bool(config.has_hook("mypy")));
    assert(report.log() =~= old(report).log() + precommit_hooks_entries(*ctx));
}

//
// Devbox integration
//

/// Entries of `check_devbox_uv`.
pub open spec fn devbox_uv_entries(ctx: ProjectContext) -> Seq<Entry> {
    match ctx.spec_configs().devbox {
        ConfigStatus::Parsed { value: config, .. } => seq![
            should_entry("Python devbox: includes uv"@, bool_outcome(config.spec_has_package("uv"@))),
        ],
        _ => Seq::empty(),
    }
}

pub fn check_devbox_uv(ctx: &ProjectContext, report: &mut Report)
    ensures
        final(report).extends(*old(report), devbox_uv_entries(*ctx)),
{
    let Some(config) = ctx.devbox().as_ref_ok() else {
        assert(report.log() =~= old(report).log() + devbox_uv_entries(*ctx));
        return;
    };
    report.should("Python devbox: includes uv", Outcome::from_bool(config.has_package("uv")));
}

//
// CI integration
//

/// Entries of `check_ci`: whether the lower-cased workflow mentions each
/// tool.
pub open spec fn ci_entries(ctx: ProjectContext) -> Seq<Entry> {
    match ctx.spec_configs().ci_workflow {
        ConfigStatus::Parsed { value: content, .. } => {
            let lower = lowercase(content@);
            seq![
                should_entry("Python CI: format check"@, bool_outcome(seq_contains(lower, "ruff format"@))),
                should_entry("Python CI: lint check"@, bool_outcome(seq_contains(lower, "ruff check"@))),
                should_entry("Python CI: type check"@, bool_outcome(seq_contains(lower, "mypy"@))),
            ]
        },
        _ => Seq::empty(),
    }
}

pub fn check_ci(ctx: &ProjectContext, report: &mut Report)
    ensures
        final(report).extends(*old(report), ci_entries(*ctx)),
{
    let ConfigStatus::Parsed { value: content, .. } = ctx.ci_workflow() else {
        assert(report.log() =~= old(report).log() + ci_entries(*ctx));
        return;
    };
    let lower = to_lowercase(content.as_str());
    report.should("Python CI: format check", Outcome::from_bool(str_contains(lower.as_str(), "ruff format")));
    report.should("Python CI: lint check", Outcome::from_bool(str_contains(lower.as_str(), "ruff check")));
    report.should("Python CI: type check", Outcome::from_bool(str_contains(lower.as_str(), "mypy")));
    assert(report.log() =~= old(report).log() + ci_entries(*ctx));
}

} // verus!
