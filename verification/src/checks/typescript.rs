//! TypeScript-specific checks.

use vstd::prelude::*;
use vstd::string::*;

use crate::checks::present;
use crate::config::{PackageJson, TsCompilerOptions, TsConfig};
use crate::context::{join, join_path, ConfigStatus, ProjectContext};
use crate::detection::spec_typescript_root;
use crate::models::Status;
use crate::report::{
    bool_outcome, file_exists, file_exists_outcome, must_entry, outcome_or, parsed_entries,
    should_entry, Entry, Outcome, Report,
};
use crate::text::{concat, lowercase, seq_contains, str_contains, to_lowercase};

verus! {

/// The path of `name` inside the project's TypeScript root.
pub open spec fn ts_path(ctx: ProjectContext, name: Seq<char>) -> Seq<char> {
    join_path(spec_typescript_root(ctx.spec_files()), name)
}

/// The file-existence outcome of `name` inside the TypeScript root.
pub open spec fn ts_file_check(ctx: ProjectContext, name: Seq<char>) -> Option<Seq<char>> {
    file_exists_outcome(ts_path(ctx, name), present(ctx, ts_path(ctx, name)))
}

//
// Package configuration
//

/// Entries of `check_package_json`.
pub open spec fn package_json_entries(ctx: ProjectContext) -> Seq<Entry> {
    let status = ctx.spec_configs().package_json;
    parsed_entries("package.json"@, status, Status::Fail) + match status {
        ConfigStatus::Parsed { value: config, .. } => seq![
            should_entry(
                "package.json: has name"@,
                bool_outcome(config.name matches Some(n) && n@.len() > 0),
            ),
            should_entry(
                "package.json: uses ESM (type: module)"@,
                outcome_or(
                    config.spec_is_esm(),
                    "Consider setting \"type\": \"module\" for ESM support"@,
                ),
            ),
            should_entry(
                "package.json: has engines field"@,
                outcome_or(config.engines is Some, "Consider specifying engine requirements"@),
            ),
        ],
        _ => Seq::empty(),
    }
}

pub fn check_package_json(ctx: &ProjectContext, report: &mut Report)
    ensures
        final(report).extends(*old(report), package_json_entries(*ctx)),
{
    let Some(config) = report.require_parsed("package.json", ctx.package_json()) else {
        assert(report.log() =~= old(report).log() + package_json_entries(*ctx));
        return;
    };
    // Name field
    let has_name = match &config.name {
        Some(n) => n.as_str().unicode_len() > 0,
        None => false,
    };
    report.should("package.json: has name", Outcome::from_bool(has_name));
    // ESM module type
    if config.is_esm() {
        report.should("package.json: uses ESM (type: module)", Outcome::Pass);
    } else {
        report.should(
            "package.json: uses ESM (type: module)",
            Outcome::fail("Consider setting \"type\": \"module\" for ESM support"),
        );
    }
    // Engine constraints
    report.should(
        "package.json: has engines field",
        if config.engines.is_some() {
            Outcome::Pass
        } else {
            Outcome::fail("Consider specifying engine requirements")
        },
    );
    assert(report.log() =~= old(report).log() + package_json_entries(*ctx));
}

//
// Package manager
//

/// The outcome of the package-manager check.
pub open spec fn package_manager_outcome(config: PackageJson) -> Option<Seq<char>> {
    if config.spec_uses_pnpm() {
        None
    } else {
        match config.package_manager {
            Some(pm) => Some("Package manager is '"@ + pm@ + "', expected pnpm"@),
            None => Some("Missing 'packageManager' field"@),
        }
    }
}

/// The entry of a competing lock file, where it exists.
pub open spec fn competing_lock_entries(ctx: ProjectContext, lockfile: Seq<char>, manager: Seq<char>) -> Seq<Entry> {
    if present(ctx, ts_path(ctx, lockfile)) {
        seq![
            should_entry(
                "pnpm: no "@ + manager + " lock file"@,
                Some(
                    "Found "@ + lockfile
                        + "; consider removing if pnpm is the intended package manager"@,
                ),
            ),
        ]
    } else {
        Seq::empty()
    }
}

/// Entries of `check_pnpm`.
pub open spec fn pnpm_entries(ctx: ProjectContext) -> Seq<Entry> {
    match ctx.spec_configs().package_json {
        ConfigStatus::Parsed { value: config, .. } => seq![
            should_entry("pnpm: configured as package manager"@, package_manager_outcome(config)),
            should_entry("pnpm: pnpm-lock.yaml exists"@, ts_file_check(ctx, "pnpm-lock.yaml"@)),
        ] + competing_lock_entries(ctx, "package-lock.json"@, "npm"@) + competing_lock_entries(
            ctx,
            "yarn.lock"@,
            "yarn"@,
        ),
        _ => Seq::empty(),
    }
}

/// Warn about a competing lock file in the TypeScript root.
fn check_competing_lock(ctx: &ProjectContext, report: &mut Report, lockfile: &str, manager: &str)
    ensures
        final(report).extends(*old(report), competing_lock_entries(*ctx, lockfile@, manager@)),
{
    let path = join(ctx.typescript_root(), lockfile);
    if ctx.path_exists(path.as_str()) {
        let name = concat(concat("pnpm: no ", manager).as_str(), " lock file");
        let msg = concat(
            concat("Found ", lockfile).as_str(),
            "; consider removing if pnpm is the intended package manager",
        );
        report.should(name.as_str(), Outcome::Issue(msg));
    }
    assert(report.log() =~= old(report).log() + competing_lock_entries(*ctx, lockfile@, manager@));
}

pub fn check_pnpm(ctx: &ProjectContext, report: &mut Report)
    ensures
        final(report).extends(*old(report), pnpm_entries(*ctx)),
{
    let Some(config) = ctx.package_json().as_ref_ok() else {
        assert(report.log() =~= old(report).log() + pnpm_entries(*ctx));
        return;
    };
    let typescript_root = ctx.typescript_root();
    // packageManager field
    if config.uses_pnpm() {
        report.should("pnpm: configured as package manager", Outcome::Pass);
    } else if let Some(pm) = config.package_manager_display() {
        let msg = concat(concat("Package manager is '", pm).as_str(), "', expected pnpm");
        report.should("pnpm: configured as package manager", Outcome::Issue(msg));
    } else {
        report.should(
            "pnpm: configured as package manager",
            Outcome::fail("Missing 'packageManager' field"),
        );
    }
    // Lock file
    let lock = join(typescript_root, "pnpm-lock.yaml");
    report.should(
        "pnpm: pnpm-lock.yaml exists",
        file_exists(lock.as_str(), ctx.path_exists(lock.as_str())),
    );
    // Warn if competing lock files are present
    check_competing_lock(ctx, report, "package-lock.json", "npm");
    check_competing_lock(ctx, report, "yarn.lock", "yarn");
    assert(report.log() =~= old(report).log() + pnpm_entries(*ctx));
}

//
// TypeScript configuration
//

/// Entries of `check_compiler_options` for a label.
pub open spec fn compiler_options_entries(label: Seq<char>, opts: TsCompilerOptions) -> Seq<Entry> {
    seq![
        must_entry(label + ": strict mode enabled"@, bool_outcome(opts.strict == Some(true))),
        should_entry(
            label + ": noUncheckedIndexedAccess enabled"@,
            outcome_or(
                opts.no_unchecked_indexed_access == Some(true),
                "Consider enabling noUncheckedIndexedAccess for safer index access"@,
            ),
        ),
        should_entry(label + ": module setting configured"@, bool_outcome(opts.module is Some)),
        should_entry(label + ": target configured"@, bool_outcome(opts.target is Some)),
        should_entry(
            label + ": verbatimModuleSyntax enabled"@,
            outcome_or(
                opts.verbatim_module_syntax == Some(true),
                "Consider enabling verbatimModuleSyntax for explicit import/export syntax"@,
            ),
        ),
        should_entry(
            label + ": isolatedModules enabled"@,
            outcome_or(
                opts.isolated_modules == Some(true),
                "Consider enabling isolatedModules for bundler compatibility"@,
            ),
        ),
    ]
}

/// Whether an optional flag is set to `true`.
fn flag(value: Option<bool>) -> (r: bool)
    ensures
        r == (value == Some(true)),
{
    match value {
        Some(v) => v,
        None => false,
    }
}

/// Check compiler options common to both single and solution-style configs.
///
/// The `label` is used as a prefix in check names so that solution-style configs produce per-reference results (e.g.
/// "tsconfig.app.json: strict mode enabled").
pub fn check_compiler_options(label: &str, opts: &TsCompilerOptions, report: &mut Report)
    ensures
        final(report).extends(*old(report), compiler_options_entries(label@, *opts)),
{
    // Strict mode
    report.must(
        concat(label, ": strict mode enabled").as_str(),
        Outcome::from_bool(flag(opts.strict)),
    );
    // noUncheckedIndexedAccess
    report.should(
        concat(label, ": noUncheckedIndexedAccess enabled").as_str(),
        if flag(opts.no_unchecked_indexed_access) {
            Outcome::Pass
        } else {
            Outcome::fail("Consider enabling noUncheckedIndexedAccess for safer index access")
        },
    );
    // Module setting
    report.should(
        concat(label, ": module setting configured").as_str(),
        Outcome::from_bool(opts.module.is_some()),
    );
    // Target setting
    report.should(
        concat(label, ": target configured").as_str(),
        Outcome::from_bool(opts.target.is_some()),
    );
    // verbatimModuleSyntax
    report.should(
        concat(label, ": verbatimModuleSyntax enabled").as_str(),
        if flag(opts.verbatim_module_syntax) {
            Outcome::Pass
        } else {
            Outcome::fail("Consider enabling verbatimModuleSyntax for explicit import/export syntax")
        },
    );
    // isolatedModules (important for bundler compatibility)
    report.should(
        concat(label, ": isolatedModules enabled").as_str(),
        if flag(opts.isolated_modules) {
            Outcome::Pass
        } else {
            Outcome::fail("Consider enabling isolatedModules for bundler compatibility")
        },
    );
    assert(report.log() =~= old(report).log() + compiler_options_entries(label@, *opts));
}

/// Entries of `check_tsconfig_single`.
pub open spec fn tsconfig_single_entries(config: TsConfig) -> Seq<Entry> {
    match config.compiler_options {
        None => seq![
            must_entry("tsconfig.json: has compilerOptions"@, Some("Missing compilerOptions section"@)),
        ],
        Some(opts) => seq![must_entry("tsconfig.json: has compilerOptions"@, None)]
            + compiler_options_entries("tsconfig.json"@, opts),
    }
}

/// Check a single (non-solution-style) tsconfig with inline `compilerOptions`.
fn check_tsconfig_single(config: &TsConfig, report: &mut Report)
    ensures
        final(report).extends(*old(report), tsconfig_single_entries(*config)),
{
    let Some(compiler_options) = &config.compiler_options else {
        report.must(
            "tsconfig.json: has compilerOptions",
            Outcome::fail("Missing compilerOptions section"),
        );
        return;
    };
    report.must("tsconfig.json: has compilerOptions", Outcome::Pass);
    check_compiler_options("tsconfig.json", compiler_options, report);
    assert(report.log() =~= old(report).log() + tsconfig_single_entries(*config));
}

/// Entries recorded for one referenced config.
pub open spec fn reference_entries(name: Seq<char>, status: ConfigStatus<TsConfig>) -> Seq<Entry> {
    match status {
        ConfigStatus::NotFound => seq![
            must_entry(name + ": exists"@, Some("Referenced config not found"@)),
        ],
        ConfigStatus::ParseError { error, .. } => seq![
            must_entry(name + ": exists"@, None),
            must_entry(name + ": valid"@, Some(error@)),
        ],
        ConfigStatus::Parsed { value: config, .. } => seq![
            must_entry(name + ": exists"@, None),
            must_entry(name + ": valid"@, None),
        ] + match config.compiler_options {
            Some(opts) => compiler_options_entries(name, opts),
            None => seq![
                must_entry(name + ": has compilerOptions"@, Some("Missing compilerOptions section"@)),
            ],
        },
    }
}

/// Entries recorded for the referenced configs, in order.
pub open spec fn references_entries(refs: Seq<(String, ConfigStatus<TsConfig>)>) -> Seq<Entry>
    decreases refs.len(),
{
    if refs.len() == 0 {
        Seq::empty()
    } else {
        references_entries(refs.drop_last()) + reference_entries(refs.last().0@, refs.last().1)
    }
}

/// Whether a config parsed and has `compilerOptions`.
pub open spec fn status_has_options(status: ConfigStatus<TsConfig>) -> bool {
    status matches ConfigStatus::Parsed { value: config, .. } && config.compiler_options is Some
}

/// Whether a referenced config parsed and has `compilerOptions`.
pub open spec fn reference_has_options(reference: (String, ConfigStatus<TsConfig>)) -> bool {
    status_has_options(reference.1)
}

/// Entries of `check_tsconfig_solution_style`.
pub open spec fn solution_style_entries(ctx: ProjectContext, config: TsConfig) -> Seq<Entry> {
    let refs = ctx.spec_configs().typescript_referenced_configs@;
    seq![should_entry("tsconfig.json: uses project references"@, None)] + if config.references@.len()
        == 0 {
        seq![must_entry("tsconfig.json: references non-empty"@, Some("references array is empty"@))]
    } else {
        seq![must_entry("tsconfig.json: references non-empty"@, None)] + if refs.len() == 0 {
            seq![
                must_entry(
                    "tsconfig.json: referenced configs parsed"@,
                    Some("Could not resolve any referenced configs"@),
                ),
            ]
        } else {
            references_entries(refs) + if exists|i: int|
                0 <= i < refs.len() && reference_has_options(#[trigger] refs[i]) {
                Seq::empty()
            } else {
                seq![
                    must_entry(
                        "tsconfig: at least one reference has compilerOptions"@,
                        Some("No referenced config has a compilerOptions section"@),
                    ),
                ]
            }
        }
    }
}

/// Record the checks of one referenced config; returns whether it has
/// `compilerOptions`.
fn check_reference(name: &str, status: &ConfigStatus<TsConfig>, report: &mut Report) -> (r: bool)
    ensures
        r == status_has_options(*status),
        final(report).extends(*old(report), reference_entries(name@, *status)),
{
    match status {
        ConfigStatus::NotFound => {
            report.must(
                concat(name, ": exists").as_str(),
                Outcome::fail("Referenced config not found"),
            );
            false
        },
        ConfigStatus::ParseError { error, .. } => {
            report.must(concat(name, ": exists").as_str(), Outcome::Pass);
            report.must(concat(name, ": valid").as_str(), Outcome::Issue(error.clone()));
            assert(report.log() =~= old(report).log() + reference_entries(name@, *status));
            false
        },
        ConfigStatus::Parsed { value: ref_config, .. } => {
            report.must(concat(name, ": exists").as_str(), Outcome::Pass);
            report.must(concat(name, ": valid").as_str(), Outcome::Pass);
            if let Some(opts) = &ref_config.compiler_options {
                check_compiler_options(name, opts, report);
                assert(report.log() =~= old(report).log() + reference_entries(name@, *status));
                true
            } else {
                report.must(
                    concat(name, ": has compilerOptions").as_str(),
                    Outcome::fail("Missing compilerOptions section"),
                );
                assert(report.log() =~= old(report).log() + reference_entries(name@, *status));
                false
            }
        },
    }
}

/// Check a solution-style tsconfig that delegates to referenced sub-projects.
fn check_tsconfig_solution_style(ctx: &ProjectContext, config: &TsConfig, report: &mut Report)
    ensures
        final(report).extends(*old(report), solution_style_entries(*ctx, *config)),
{
    report.should("tsconfig.json: uses project references", Outcome::Pass);
    let ref_paths = config.reference_paths();
    if ref_paths.len() == 0 {
        report.must("tsconfig.json: references non-empty", Outcome::fail("references array is empty"));
        assert(report.log() =~= old(report).log() + solution_style_entries(*ctx, *config));
        return;
    }
    report.must("tsconfig.json: references non-empty", Outcome::Pass);
    let referenced = ctx.typescript_referenced_configs();
    if referenced.len() == 0 {
        report.must(
            "tsconfig.json: referenced configs parsed",
            Outcome::fail("Could not resolve any referenced configs"),
        );
        assert(report.log() =~= old(report).log() + solution_style_entries(*ctx, *config));
        return;
    }
    // Validate each referenced config exists and is valid, then check its compilerOptions.
    let ghost start = *report;
    let n = referenced.len();
    let mut any_valid = false;
    let mut i: usize = 0;
    assert(referenced@.take(0) =~= Seq::<(String, ConfigStatus<TsConfig>)>::empty());
    while i < n
        invariant
            n == referenced@.len(),
            i <= n,
            report.extends(start, references_entries(referenced@.take(i as int))),
            any_valid == exists|j: int| 0 <= j < i && reference_has_options(#[trigger] referenced@[j]),
        decreases n - i,
    {
        let entry = &referenced[i];
        let has_options = check_reference(entry.0.as_str(), &entry.1, report);
        proof {
            assert(referenced@.take(i + 1).drop_last() =~= referenced@.take(i as int));
            assert(referenced@.take(i + 1).last() == referenced@[i as int]);
            assert(has_options == reference_has_options(referenced@[i as int]));
            assert(report.log() =~= start.log() + references_entries(referenced@.take(i + 1)));
        }
        any_valid = any_valid || has_options;
        i = i + 1;
    }
    assert(referenced@.take(n as int) =~= referenced@);
    if !any_valid {
        report.must(
            "tsconfig: at least one reference has compilerOptions",
            Outcome::fail("No referenced config has a compilerOptions section"),
        );
    }
    assert(report.log() =~= old(report).log() + solution_style_entries(*ctx, *config));
}

/// Entries of `check_tsconfig`.
pub open spec fn tsconfig_entries(ctx: ProjectContext) -> Seq<Entry> {
    let status = ctx.spec_configs().tsconfig;
    parsed_entries("tsconfig.json"@, status, Status::Fail) + match status {
        ConfigStatus::Parsed { value: config, .. } => if config.references@.len() > 0 {
            solution_style_entries(ctx, config)
        } else {
            tsconfig_single_entries(config)
        },
        _ => Seq::empty(),
    }
}

pub fn check_tsconfig(ctx: &ProjectContext, report: &mut Report)
    ensures
        final(report).extends(*old(report), tsconfig_entries(*ctx)),
{
    let Some(config) = report.require_parsed("tsconfig.json", ctx.tsconfig()) else {
        assert(report.log() =~= old(report).log() + tsconfig_entries(*ctx));
        return;
    };
    if config.is_solution_style() {
        check_tsconfig_solution_style(ctx, config, report);
    } else {
        check_tsconfig_single(config, report);
    }
    assert(report.log() =~= old(report).log() + tsconfig_entries(*ctx));
}


//
// Linting
//

/// Entries of `check_eslint`.
pub open spec fn eslint_entries(ctx: ProjectContext) -> Seq<Entry> {
    seq![must_entry("ESLint: configured"@, ts_file_check(ctx, "eslint.config.ts"@))] + match ctx.spec_configs().package_json {
        ConfigStatus::Parsed { value: pkg, .. } => seq![
            should_entry("ESLint: in dependencies"@, bool_outcome(pkg.spec_has_dep("eslint"@))),
            should_entry(
                "ESLint: typescript-eslint configured"@,
                outcome_or(
                    pkg.spec_has_dep("typescript-eslint"@) || pkg.spec_has_dep_starting_with(
                        "@typescript-eslint/"@,
                    ),
                    "Consider adding typescript-eslint for TypeScript-aware linting"@,
                ),
            ),
        ],
        _ => Seq::empty(),
    }
}

pub fn check_eslint(ctx: &ProjectContext, report: &mut Report)
    ensures
        final(report).extends(*old(report), eslint_entries(*ctx)),
{
    let eslint_config = join(ctx.typescript_root(), "eslint.config.ts");
    report.must(
        "ESLint: configured",
        file_exists(eslint_config.as_str(), ctx.path_exists(eslint_config.as_str())),
    );
    // Check for ESLint in dependencies
    if let Some(pkg) = ctx.package_json().as_ref_ok() {
        report.should("ESLint: in dependencies", Outcome::from_bool(pkg.has_dep("eslint")));
        // Check for typescript-eslint
        let has_ts_eslint = pkg.has_dep("typescript-eslint") || pkg.has_dep_starting_with(
            "@typescript-eslint/",
        );
        report.should(
            "ESLint: typescript-eslint configured",
            if has_ts_eslint {
                Outcome::Pass
            } else {
                Outcome::fail("Consider adding typescript-eslint for TypeScript-aware linting")
            },
        );
    }
    assert(report.log() =~= old(report).log() + eslint_entries(*ctx));
}

//
// Formatting
//

/// Entries of `check_prettier`.
pub open spec fn prettier_entries(ctx: ProjectContext) -> Seq<Entry> {
    seq![
        must_entry("Prettier: configured"@, ts_file_check(ctx, ".prettierrc"@)),
        should_entry(
            "Prettier: .prettierignore exists"@,
            outcome_or(
                present(ctx, ts_path(ctx, ".prettierignore"@)),
                "Consider adding .prettierignore"@,
            ),
        ),
    ] + match ctx.spec_configs().package_json {
        ConfigStatus::Parsed { value: pkg, .. } => seq![
            should_entry("Prettier: in dependencies"@, bool_outcome(pkg.spec_has_dep("prettier"@))),
        ],
        _ => Seq::empty(),
    }
}

pub fn check_prettier(ctx: &ProjectContext, report: &mut Report)
    ensures
        final(report).extends(*old(report), prettier_entries(*ctx)),
{
    let ts_root = ctx.typescript_root();
    let prettierrc = join(ts_root, ".prettierrc");
    report.must(
        "Prettier: configured",
        file_exists(prettierrc.as_str(), ctx.path_exists(prettierrc.as_str())),
    );
    // .prettierignore
    let ignore = join(ts_root, ".prettierignore");
    report.should(
        "Prettier: .prettierignore exists",
        if ctx.path_exists(ignore.as_str()) {
            Outcome::Pass
        } else {
            Outcome::fail("Consider adding .prettierignore")
        },
    );
    // Prettier in dependencies
    if let Some(pkg) = ctx.package_json().as_ref_ok() {
        report.should("Prettier: in dependencies", Outcome::from_bool(pkg.has_dep("prettier")));
    }
    assert(report.log() =~= old(report).log() + prettier_entries(*ctx));
}

//
// Scripts
//

/// The entry of one expected script.
pub open spec fn script_entry(name: Seq<char>, present: bool, script: Seq<char>) -> Entry {
    should_entry(name, outcome_or(present, "Consider adding a '"@ + script + "' script"@))
}

/// Entries of `check_scripts`.
pub open spec fn scripts_entries(ctx: ProjectContext) -> Seq<Entry> {
    match ctx.spec_configs().package_json {
        ConfigStatus::Parsed { value: config, .. } => if config.scripts is None {
            seq![should_entry("package.json: has scripts"@, Some("No scripts defined in package.json"@))]
        } else {
            seq![
                should_entry("package.json: has scripts"@, None),
                script_entry("Scripts: has 'build'"@, config.spec_has_script("build"@), "build"@),
                script_entry("Scripts: has 'lint'"@, config.spec_has_script("lint"@), "lint"@),
                script_entry(
                    "Scripts: has 'format'"@,
                    config.spec_has_script("format"@) || config.spec_has_script("fmt"@)
                        || config.spec_has_script("prettier"@),
                    "format"@,
                ),
                script_entry(
                    "Scripts: has 'typecheck'"@,
                    config.spec_has_script("typecheck"@),
                    "typecheck"@,
                ),
                script_entry("Scripts: has 'test'"@, config.spec_has_script("test"@), "test"@),
            ]
        },
        _ => Seq::empty(),
    }
}

/// Record the check of one expected script.
fn check_script(report: &mut Report, name: &str, present: bool, script: &str)
    ensures
        final(report).extends(*old(report), seq![script_entry(name@, present, script@)]),
{
    if present {
        report.should(name, Outcome::Pass);
    } else {
        let msg = concat(concat("Consider adding a '", script).as_str(), "' script");
        report.should(name, Outcome::Issue(msg));
    }
}

pub fn check_scripts(ctx: &ProjectContext, report: &mut Report)
    ensures
        final(report).extends(*old(report), scripts_entries(*ctx)),
{
    let Some(config) = ctx.package_json().as_ref_ok() else {
        assert(report.log() =~= old(report).log() + scripts_entries(*ctx));
        return;
    };
    if config.scripts.is_none() {
        report.should("package.json: has scripts", Outcome::fail("No scripts defined in package.json"));
        return;
    }
    report.should("package.json: has scripts", Outcome::Pass);
    // Build script
    check_script(report, "Scripts: has 'build'", config.has_script("build"), "build");
    // Lint script
    check_script(report, "Scripts: has 'lint'", config.has_script("lint"), "lint");
    // Format script
    let names: [&str; 3] = ["format", "fmt", "prettier"];
    let has_format = config.has_any_script(names.as_slice());
    proof {
        assert(names@.len() == 3);
        assert(names@[0]@ == "format"@);
        assert(names@[1]@ == "fmt"@);
        assert(names@[2]@ == "prettier"@);
        if has_format {
            let i = choose|i: int| 0 <= i < names@.len() && config.spec_has_script(#[trigger] names@[i]@);
            assert(i == 0 || i == 1 || i == 2);
        }
    }
    check_script(report, "Scripts: has 'format'", has_format, "format");
    // Type check script
    check_script(report, "Scripts: has 'typecheck'", config.has_script("typecheck"), "typecheck");
    // Test script
    check_script(report, "Scripts: has 'test'", config.has_script("test"), "test");
    assert(report.log() =~= old(report).log() + scripts_entries(*ctx));
}

//
// Pre-commit integration
//

/// Entries of `check_precommit_hooks`.
pub open spec fn precommit_hooks_entries(ctx: ProjectContext) -> Seq<Entry> {
    match ctx.spec_configs().precommit {
        ConfigStatus::Parsed { value: precommit, .. } => seq![
            should_entry(
                "Pre-commit: has pnpm-lock hook"@,
                outcome_or(
                    precommit.spec_has_hook("pnpm-lock"@),
                    "Consider adding a pnpm-lock hook to ensure lockfile is up to date"@,
                ),
            ),
            should_entry(
                "Pre-commit: has ESLint hook"@,
                outcome_or(
                    precommit.spec_has_hook("eslint"@),
                    "Consider adding an ESLint hook to pre-commit configuration"@,
                ),
            ),
            should_entry(
                "Pre-commit: has Prettier hook"@,
                outcome_or(
                    precommit.spec_has_hook("prettier"@),
                    "Consider adding a Prettier hook to pre-commit configuration"@,
                ),
            ),
            should_entry(
                "Pre-commit: has TypeScript type check hook"@,
                outcome_or(
                    precommit.spec_has_hook("tsc"@),
                    "Consider adding a TypeScript type check hook to pre-commit configuration"@,
                ),
            ),
        ],
        _ => Seq::empty(),
    }
}

pub fn check_precommit_hooks(ctx: &ProjectContext, report: &mut Report)
    ensures
        final(report).extends(*old(report), precommit_hooks_entries(*ctx)),
{
    let Some(precommit) = ctx.precommit().as_ref_ok() else {
        assert(report.log() =~= old(report).log() + precommit_hooks_entries(*ctx));
        return;
    };
    // pnpm-lock
    if precommit.has_hook("pnpm-lock") {
        report.should("Pre-commit: has pnpm-lock hook", Outcome::Pass);
    } else {
        report.should(
            "Pre-commit: has pnpm-lock hook",
            Outcome::fail("Consider adding a pnpm-lock hook to ensure lockfile is up to date"),
        );
    }
    // ESLint
    if precommit.has_hook("eslint") {
        report.should("Pre-commit: has ESLint hook", Outcome::Pass);
    } else {
        report.should(
            "Pre-commit: has ESLint hook",
            Outcome::fail("Consider adding an ESLint hook to pre-commit configuration"),
        );
    }
    // Prettier
    if precommit.has_hook("prettier") {
        report.should("Pre-commit: has Prettier hook", Outcome::Pass);
    } else {
        report.should(
            "Pre-commit: has Prettier hook",
            Outcome::fail("Consider adding a Prettier hook to pre-commit configuration"),
        );
    }
    // Type check
    if precommit.has_hook("tsc") {
        report.should("Pre-commit: has TypeScript type check hook", Outcome::Pass);
    } else {
        report.should(
            "Pre-commit: has TypeScript type check hook",
            Outcome::fail("Consider adding a TypeScript type check hook to pre-commit configuration"),
        );
    }
    assert(report.log() =~= old(report).log() + precommit_hooks_entries(*ctx));
}

//
// Devbox integration
//

/// Whether the Devbox environment sets `DEVBOX_COREPACK_ENABLED` to `true`.
pub open spec fn corepack_enabled(env: Option<crate::string_map::StringMap>) -> bool {
    env matches Some(e) && e@.contains_key("DEVBOX_COREPACK_ENABLED"@) && e@["DEVBOX_COREPACK_ENABLED"@]
        == "true"@
}

/// Entries of `check_devbox_pnpm`.
pub open spec fn devbox_pnpm_entries(ctx: ProjectContext) -> Seq<Entry> {
    match ctx.spec_configs().devbox {
        ConfigStatus::Parsed { value: config, .. } => seq![
            should_entry(
                "TypeScript devbox: enables corepack"@,
                outcome_or(
                    corepack_enabled(config.env),
                    "Consider setting DEVBOX_COREPACK_ENABLED=true in Devbox configuration"@,
                ),
            ),
            should_entry(
                "TypeScript devbox: includes nodejs"@,
                outcome_or(
                    config.spec_has_package("nodejs"@),
                    "Consider adding nodejs to Devbox packages"@,
                ),
            ),
        ],
        _ => Seq::empty(),
    }
}

pub fn check_devbox_pnpm(ctx: &ProjectContext, report: &mut Report)
    ensures
        final(report).extends(*old(report), devbox_pnpm_entries(*ctx)),
{
    let Some(config) = ctx.devbox().as_ref_ok() else {
        assert(report.log() =~= old(report).log() + devbox_pnpm_entries(*ctx));
        return;
    };
    let corepack_enabled = match &config.env {
        Some(env) => match env.get("DEVBOX_COREPACK_ENABLED") {
            Some(v) => crate::text::str_eq(v.as_str(), "true"),
            None => false,
        },
        None => false,
    };
    report.should(
        "TypeScript devbox: enables corepack",
        if corepack_enabled {
            Outcome::Pass
        } else {
            Outcome::fail("Consider setting DEVBOX_COREPACK_ENABLED=true in Devbox configuration")
        },
    );
    let has_node = config.has_package("nodejs");
    report.should(
        "TypeScript devbox: includes nodejs",
        if has_node {
            Outcome::Pass
        } else {
            Outcome::fail("Consider adding nodejs to Devbox packages")
        },
    );
    assert(report.log() =~= old(report).log() + devbox_pnpm_entries(*ctx));
}

//
// CI integration
//

/// Entries of `check_ci`: whether the lower-cased workflow runs each step.
pub open spec fn ci_entries(ctx: ProjectContext) -> Seq<Entry> {
    match ctx.spec_configs().ci_workflow {
        ConfigStatus::Parsed { value: content, .. } => {
            let lower = lowercase(content@);
            seq![
                should_entry(
                    "TypeScript CI: lint check"@,
                    bool_outcome(
                        seq_contains(lower, "eslint"@) || seq_contains(lower, "pnpm lint"@)
                            || seq_contains(lower, "pnpm run lint"@),
                    ),
                ),
                should_entry("TypeScript CI: format check"@, bool_outcome(seq_contains(lower, "prettier"@))),
                should_entry("TypeScript CI: type check"@, bool_outcome(seq_contains(lower, "tsc"@))),
                should_entry("TypeScript CI: tests"@, bool_outcome(seq_contains(lower, "pnpm test"@))),
            ]
        },
        _ => Seq::empty(),
    }
}

pub fn check_ci(ctx: &ProjectContext, report: &mut Report)
    ensures
        final(report).extends(*old(report), ci_entries(*ctx)),
{
    let ConfigStatus::Parsed { value: content, .. } = ctx.ci_workflow() else {
        assert(report.log() =~= old(report).log() + ci_entries(*ctx));
        return;
    };
    let lower = to_lowercase(content.as_str());
    let lower = lower.as_str();
    // Lint step
    let has_lint = str_contains(lower, "eslint") || str_contains(lower, "pnpm lint") || str_contains(
        lower,
        "pnpm run lint",
    );
    report.should("TypeScript CI: lint check", Outcome::from_bool(has_lint));
    // Format check
    let has_format = str_contains(lower, "prettier");
    report.should("TypeScript CI: format check", Outcome::from_bool(has_format));
    // Type check
    report.should("TypeScript CI: type check", Outcome::from_bool(str_contains(lower, "tsc")));
    // Tests
    report.should("TypeScript CI: tests", Outcome::from_bool(str_contains(lower, "pnpm test")));
    assert(report.log() =~= old(report).log() + ci_entries(*ctx));
}

} // verus!
