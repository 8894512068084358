use norms::checks::{common, python, run_all_checks, rust, typescript};
use norms::config::cargo::CargoPackage;
use norms::config::devbox::DevboxShell;
use norms::config::precommit::{PrecommitHook, PrecommitRepo};
use norms::config::{CargoToml, PrecommitConfig};
use norms::config::pyproject::{MypyConfig, ProjectSection, RuffConfig, ToolSection};
use norms::config::tsconfig::TsReference;
use norms::config::{DevboxConfig, PyprojectToml, TsCompilerOptions, TsConfig};
use norms::context::{ConfigStatus, ProjectConfigs, ProjectContext, ProjectFiles};
use norms::detection::{detect_languages, resolve_typescript_root};
use norms::models::{Language, Status};
use norms::report::Report;
use norms::string_map::StringMap;

fn configs() -> ProjectConfigs {
    ProjectConfigs {
        devbox: ConfigStatus::NotFound,
        renovate: ConfigStatus::NotFound,
        editorconfig: ConfigStatus::NotFound,
        gitattributes: ConfigStatus::NotFound,
        pyproject: ConfigStatus::NotFound,
        cargo: ConfigStatus::NotFound,
        precommit: ConfigStatus::NotFound,
        package_json: ConfigStatus::NotFound,
        tsconfig: ConfigStatus::NotFound,
        ci_workflow: ConfigStatus::NotFound,
        typescript_referenced_configs: Vec::new(),
    }
}

/// A config file that parsed into `value` (its raw text is not read by the checks).
fn parsed<T>(value: T) -> ConfigStatus<T> {
    ConfigStatus::Parsed { raw: String::new(), value }
}

/// A text config file with the given content.
fn text(content: String) -> ConfigStatus<String> {
    ConfigStatus::Parsed { raw: content.clone(), value: content }
}

fn files(files: &[&str], dirs: &[&str]) -> ProjectFiles {
    ProjectFiles {
        files: files.iter().map(|f| f.to_string()).collect(),
        dirs: dirs.iter().map(|d| d.to_string()).collect(),
    }
}

fn context(f: ProjectFiles, c: ProjectConfigs) -> ProjectContext {
    ProjectContext::new("/project".to_string(), f, c)
}

fn report_for(ctx: &ProjectContext) -> Report {
    Report::new(ctx.path().to_string(), *ctx.languages())
}

fn entry<'a>(report: &'a Report, name: &str) -> &'a norms::report::CheckResult {
    report.results.iter().find(|r| r.name == name).unwrap_or_else(|| panic!("no result named {name}"))
}

#[test]
fn detection_of_markers() {
    let f = files(&["CMakeLists.txt", "pyproject.toml"], &[]);
    let langs = detect_languages(&f);
    assert!(langs.contains(Language::Cpp));
    assert!(langs.contains(Language::Python));
    assert!(!langs.contains(Language::Rust));
    assert!(!langs.contains(Language::TypeScript));
    assert_eq!(resolve_typescript_root(&f), "");
}

#[test]
fn typescript_in_frontend() {
    let f = files(&["frontend/package.json"], &["frontend"]);
    assert!(detect_languages(&f).contains(Language::TypeScript));
    assert_eq!(resolve_typescript_root(&f), "frontend");
    // The root wins over frontend/.
    let both = files(&["package.json", "frontend/package.json"], &["frontend"]);
    assert_eq!(resolve_typescript_root(&both), "");
    // A frontend/package.json without the directory listed does not count.
    let stray = files(&["frontend/package.json"], &[]);
    assert!(!detect_languages(&stray).contains(Language::TypeScript));
    assert_eq!(resolve_typescript_root(&stray), "");
}

#[test]
fn common_file_checks() {
    let ctx = context(files(&["README.md", "LICENSE-MIT"], &[]), configs());
    let mut report = report_for(&ctx);
    common::check_readme(&ctx, &mut report);
    common::check_license(&ctx, &mut report);
    common::check_changelog(&ctx, &mut report);
    common::check_gitignore(&ctx, &mut report);
    common::check_precommit(&ctx, &mut report);
    assert_eq!(entry(&report, "README.md").status, Status::Pass);
    assert_eq!(entry(&report, "LICENSE").status, Status::Pass);
    assert_eq!(entry(&report, "CHANGELOG.md").status, Status::Warn);
    assert_eq!(entry(&report, "CHANGELOG.md").message, "Not found: CHANGELOG.md");
    assert_eq!(entry(&report, ".gitignore").status, Status::Fail);
    assert_eq!(entry(&report, ".pre-commit-config.yaml").status, Status::Fail);
}

#[test]
fn gitattributes_patterns() {
    let mut c = configs();
    c.gitattributes = text("*  text=auto eol=lf\n*.png binary\n".to_string());
    let ctx = context(files(&[".gitattributes"], &[]), c);
    let mut report = report_for(&ctx);
    common::check_gitattributes(&ctx, &mut report);
    assert_eq!(report.results.len(), 5);
    assert_eq!(entry(&report, ".gitattributes: text=auto").status, Status::Pass);
    assert_eq!(entry(&report, ".gitattributes: eol=lf").status, Status::Pass);
    assert_eq!(entry(&report, ".gitattributes: binary markers").status, Status::Pass);

    let mut c = configs();
    c.gitattributes = text("*.rs text\n".to_string());
    let ctx = context(files(&[".gitattributes"], &[]), c);
    let mut report = report_for(&ctx);
    common::check_gitattributes(&ctx, &mut report);
    let r = entry(&report, ".gitattributes: eol=lf");
    assert_eq!(r.status, Status::Warn);
    assert_eq!(r.message, r"Pattern not found: (?m)^\*\s.+eol=lf");
}

#[test]
fn editorconfig_settings_are_literal() {
    let mut c = configs();
    c.editorconfig = text(
        "root = true\n[*]\ncharset = utf-8\nend_of_line = lf\nindent_style = space\nindent_size = 2\n".to_string(),
    );
    let ctx = context(files(&[".editorconfig"], &[]), c);
    let mut report = report_for(&ctx);
    common::check_editorconfig(&ctx, &mut report);
    assert_eq!(report.results.len(), 9);
    assert_eq!(entry(&report, ".editorconfig: charset=utf-8").status, Status::Pass);
    assert_eq!(entry(&report, ".editorconfig: indent_size=4").status, Status::Warn);
    // The pattern shown is the escaped needle.
    assert_eq!(
        entry(&report, ".editorconfig: trim_trailing_whitespace=true").message,
        "Pattern not found: trim_trailing_whitespace = true"
    );
    assert_eq!(entry(&report, ".editorconfig: insert_final_newline=true").status, Status::Warn);
}

#[test]
fn editorconfig_escape_is_shown() {
    let mut c = configs();
    c.editorconfig = text("charset = utf8\n".to_string());
    let ctx = context(files(&[".editorconfig"], &[]), c);
    let mut report = report_for(&ctx);
    common::check_editorconfig(&ctx, &mut report);
    assert_eq!(entry(&report, ".editorconfig: charset=utf-8").message, r"Pattern not found: charset = utf\-8");
}

#[test]
fn devbox_and_renovate() {
    let mut c = configs();
    c.devbox = parsed(DevboxConfig {
        schema: Some("https://example.org/schema.json".to_string()),
        packages: vec!["uv@latest".to_string()],
        env: None,
        shell: Some(DevboxShell { init_hook: None, scripts: None }),
    });
    let ctx = context(files(&["devbox.json"], &[]), c);
    let mut report = report_for(&ctx);
    common::check_devbox(&ctx, &mut report);
    common::check_renovate(&ctx, &mut report);
    assert_eq!(entry(&report, "devbox.json: has $schema").status, Status::Pass);
    assert_eq!(entry(&report, "devbox.json: has packages").status, Status::Pass);
    assert_eq!(entry(&report, "devbox.lock").status, Status::Warn);
    let renovate = entry(&report, "renovate.json: exists");
    assert_eq!(renovate.status, Status::Warn);
    assert_eq!(renovate.message, "File not found");
    assert_eq!(report.results.len(), 6);
}

fn pyproject() -> PyprojectToml {
    let mut groups = StringMap::new();
    groups.insert("dev".to_string(), "[\"pytest\"]".to_string());
    PyprojectToml {
        project: Some(ProjectSection { name: Some("pkg".to_string()), description: None, requires_python: None, license: None }),
        tool: Some(ToolSection {
            ruff: Some(RuffConfig { line_length: Some(100), format: None, lint: None }),
            mypy: Some(MypyConfig { strict: Some(true) }),
        }),
        dependency_groups: Some(groups),
    }
}

#[test]
fn python_project_run() {
    let mut c = configs();
    c.pyproject = parsed(pyproject());
    c.ci_workflow = text("run: uv run RUFF FORMAT --check\nrun: Ruff Check\n".to_string());
    let f = files(
        &["README.md", "LICENSE", "pyproject.toml", "uv.lock", "src/pkg/__init__.py"],
        &["src", "src/pkg", "src/other"],
    );
    let ctx = context(f, c);
    let mut report = report_for(&ctx);
    run_all_checks(&ctx, &mut report);
    assert_eq!(report.results[0].name, "README.md");
    assert_eq!(entry(&report, "pyproject.toml: has [project] section").status, Status::Pass);
    assert_eq!(entry(&report, "Python: src/ directory").status, Status::Pass);
    assert_eq!(entry(&report, "Python: src/ contains packages").status, Status::Pass);
    assert_eq!(entry(&report, "Python: uv.lock").status, Status::Pass);
    assert_eq!(entry(&report, "Python: has dev dependency group").status, Status::Pass);
    assert_eq!(entry(&report, "Ruff: configured").status, Status::Pass);
    assert_eq!(entry(&report, "Ruff format: configured").message, "Consider configuring [tool.ruff.format]");
    assert_eq!(entry(&report, "Ruff lint: configured").status, Status::Warn);
    assert_eq!(entry(&report, "mypy: strict mode").status, Status::Pass);
    // The CI text is lower-cased before the search.
    assert_eq!(entry(&report, "Python CI: format check").status, Status::Pass);
    assert_eq!(entry(&report, "Python CI: lint check").status, Status::Pass);
    assert_eq!(entry(&report, "Python CI: type check").status, Status::Warn);
    // No Rust or TypeScript checks are registered.
    assert!(report.results.iter().all(|r| !r.name.starts_with("Rust")));
    assert!(report.has_failures());
}

#[test]
fn src_layout_without_packages() {
    let ctx = context(files(&["src/main.py"], &["src", "src/pkg", "src/pkg/sub"]), configs());
    let mut report = report_for(&ctx);
    python::check_src_layout(&ctx, &mut report);
    assert_eq!(entry(&report, "Python: src/ contains packages").status, Status::Warn);

    let nested = context(files(&["src/pkg/sub/__init__.py"], &["src", "src/pkg", "src/pkg/sub"]), configs());
    let mut report = report_for(&nested);
    python::check_src_layout(&nested, &mut report);
    assert_eq!(entry(&report, "Python: src/ contains packages").status, Status::Warn);

    let none = context(files(&[], &[]), configs());
    let mut report = report_for(&none);
    python::check_src_layout(&none, &mut report);
    assert_eq!(report.results.len(), 1);
    assert_eq!(report.results[0].message, "Consider using a src/ layout");
}

#[test]
fn ruff_missing_tool_section() {
    let mut p = pyproject();
    p.tool = None;
    let mut c = configs();
    c.pyproject = parsed(p);
    let ctx = context(files(&["pyproject.toml"], &[]), c);
    let mut report = report_for(&ctx);
    python::check_ruff(&ctx, &mut report);
    python::check_mypy(&ctx, &mut report);
    assert_eq!(report.results[0].message, "No [tool] section in pyproject.toml");
    assert_eq!(report.results[1].message, "Missing [tool.mypy] in pyproject.toml");
    assert_eq!(report.failed(), 2);
}

#[test]
fn rust_checks() {
    let mut c = configs();
    c.cargo = parsed(CargoToml {
        package: Some(CargoPackage {
            name: Some("x".to_string()),
            description: Some("d".to_string()),
            license: None,
            edition: Some("2021".to_string()),
            rust_version: Some("1.80".to_string()),
            repository: None,
        }),
        lints: None,
        workspace: None,
        bin: vec![],
    });
    c.ci_workflow = text("cargo fmt\ncargo clippy\ncargo test\n".to_string());
    let ctx = context(files(&["Cargo.toml", "src/main.rs"], &["src"]), c);
    let mut report = report_for(&ctx);
    rust::check_cargo(&ctx, &mut report);
    rust::check_rust_toolchain(&ctx, &mut report);
    rust::check_clippy_lints(&ctx, &mut report);
    rust::check_cargo_deny(&ctx, &mut report);
    rust::check_cargo_lock(&ctx, &mut report);
    rust::check_ci(&ctx, &mut report);
    assert_eq!(entry(&report, "Cargo.toml: has license").status, Status::Warn);
    assert_eq!(entry(&report, "Cargo.toml: has edition").status, Status::Pass);
    assert_eq!(entry(&report, "Rust: MSRV defined (rust-version)").status, Status::Pass);
    assert_eq!(entry(&report, "Clippy: lints configured").message, "No [lints.clippy] or [workspace.lints.clippy] section");
    assert_eq!(entry(&report, "Rust: Cargo.lock comitted (binary)").message, "Not found: Cargo.lock");
    assert_eq!(entry(&report, "Rust CI: test").status, Status::Pass);
    assert_eq!(entry(&report, "Rust CI: cargo deny").status, Status::Warn);
}

fn options(strict: bool) -> TsCompilerOptions {
    TsCompilerOptions {
        strict: Some(strict),
        no_unchecked_indexed_access: None,
        module: Some("ESNext".to_string()),
        target: None,
        module_resolution: None,
        out_dir: None,
        root_dir: None,
        declaration: None,
        source_map: None,
        es_module_interop: None,
        skip_lib_check: None,
        force_consistent_casing_in_file_names: None,
        resolve_json_module: None,
        isolated_modules: Some(true),
        verbatim_module_syntax: Some(false),
    }
}

#[test]
fn compiler_options_entries() {
    let mut report = Report::new("/p".to_string(), norms::models::LanguageSet::new());
    typescript::check_compiler_options("tsconfig.app.json", &options(true), &mut report);
    assert_eq!(report.results.len(), 6);
    assert_eq!(report.results[0].name, "tsconfig.app.json: strict mode enabled");
    assert_eq!(report.results[0].status, Status::Pass);
    assert_eq!(report.results[1].message, "Consider enabling noUncheckedIndexedAccess for safer index access");
    assert_eq!(report.results[2].status, Status::Pass);
    assert_eq!(report.results[3].status, Status::Warn);
    assert_eq!(report.results[4].status, Status::Warn);
    assert_eq!(report.results[5].status, Status::Pass);
}

#[test]
fn solution_style_tsconfig() {
    let mut c = configs();
    c.tsconfig = parsed(TsConfig {
        compiler_options: None,
        extends: None,
        references: vec![
            TsReference { path: "tsconfig.app.json".to_string() },
            TsReference { path: "tsconfig.node.json".to_string() },
        ],
    });
    c.typescript_referenced_configs = vec![
        (
            "tsconfig.app.json".to_string(),
            parsed(TsConfig { compiler_options: Some(options(false)), extends: None, references: vec![] }),
        ),
        ("tsconfig.node.json".to_string(), ConfigStatus::NotFound),
    ];
    let ctx = context(files(&["package.json", "tsconfig.json"], &[]), c);
    let mut report = report_for(&ctx);
    typescript::check_tsconfig(&ctx, &mut report);
    let names: Vec<&str> = report.results.iter().map(|r| r.name.as_str()).collect();
    assert_eq!(
        names[..7],
        [
            "tsconfig.json: exists",
            "tsconfig.json: valid",
            "tsconfig.json: uses project references",
            "tsconfig.json: references non-empty",
            "tsconfig.app.json: exists",
            "tsconfig.app.json: valid",
            "tsconfig.app.json: strict mode enabled",
        ]
    );
    assert_eq!(entry(&report, "tsconfig.app.json: strict mode enabled").status, Status::Fail);
    assert_eq!(entry(&report, "tsconfig.node.json: exists").message, "Referenced config not found");
    assert!(report.results.iter().all(|r| r.name != "tsconfig: at least one reference has compilerOptions"));
    assert_eq!(report.results.len(), 4 + 2 + 6 + 1);
}

#[test]
fn solution_style_without_any_options() {
    let mut c = configs();
    c.tsconfig = parsed(TsConfig {
        compiler_options: None,
        extends: None,
        references: vec![TsReference { path: "a.json".to_string() }],
    });
    c.typescript_referenced_configs = vec![(
        "a.json".to_string(),
        parsed(TsConfig { compiler_options: None, extends: None, references: vec![] }),
    )];
    let ctx = context(files(&["tsconfig.json"], &[]), c);
    let mut report = report_for(&ctx);
    typescript::check_tsconfig(&ctx, &mut report);
    assert_eq!(entry(&report, "a.json: has compilerOptions").message, "Missing compilerOptions section");
    assert_eq!(
        entry(&report, "tsconfig: at least one reference has compilerOptions").message,
        "No referenced config has a compilerOptions section"
    );
}

#[test]
fn single_tsconfig() {
    let mut c = configs();
    c.tsconfig = parsed(TsConfig { compiler_options: None, extends: None, references: vec![] });
    let ctx = context(files(&["tsconfig.json"], &[]), c);
    let mut report = report_for(&ctx);
    typescript::check_tsconfig(&ctx, &mut report);
    assert_eq!(report.results.len(), 3);
    assert_eq!(report.results[2].message, "Missing compilerOptions section");
}

#[test]
fn pnpm_checks_in_frontend() {
    let mut c = configs();
    let mut p = norms::config::PackageJson {
        name: Some(String::new()),
        description: None,
        module_type: None,
        package_manager: Some("yarn@4".to_string()),
        engines: None,
        scripts: None,
        dependencies: None,
        dev_dependencies: None,
    };
    p.scripts = None;
    c.package_json = parsed(p);
    let f = files(
        &["frontend/package.json", "frontend/yarn.lock", "frontend/pnpm-lock.yaml", "frontend/.prettierrc"],
        &["frontend"],
    );
    let ctx = context(f, c);
    let mut report = report_for(&ctx);
    typescript::check_package_json(&ctx, &mut report);
    typescript::check_pnpm(&ctx, &mut report);
    typescript::check_prettier(&ctx, &mut report);
    typescript::check_scripts(&ctx, &mut report);
    typescript::check_eslint(&ctx, &mut report);
    assert_eq!(entry(&report, "package.json: has name").status, Status::Warn);
    assert_eq!(
        entry(&report, "package.json: uses ESM (type: module)").message,
        "Consider setting \"type\": \"module\" for ESM support"
    );
    assert_eq!(
        entry(&report, "pnpm: configured as package manager").message,
        "Package manager is 'yarn@4', expected pnpm"
    );
    assert_eq!(entry(&report, "pnpm: pnpm-lock.yaml exists").status, Status::Pass);
    assert_eq!(
        entry(&report, "pnpm: no yarn lock file").message,
        "Found yarn.lock; consider removing if pnpm is the intended package manager"
    );
    assert!(report.results.iter().all(|r| r.name != "pnpm: no npm lock file"));
    assert_eq!(entry(&report, "Prettier: configured").status, Status::Pass);
    assert_eq!(entry(&report, "Prettier: .prettierignore exists").message, "Consider adding .prettierignore");
    assert_eq!(entry(&report, "package.json: has scripts").message, "No scripts defined in package.json");
    assert_eq!(entry(&report, "ESLint: configured").message, "Not found: eslint.config.ts");
    assert_eq!(
        entry(&report, "ESLint: typescript-eslint configured").message,
        "Consider adding typescript-eslint for TypeScript-aware linting"
    );
}

#[test]
fn scripts_and_devbox_pnpm() {
    let mut scripts = StringMap::new();
    scripts.insert("build".to_string(), "tsc".to_string());
    scripts.insert("prettier".to_string(), "prettier -w .".to_string());
    let mut env = StringMap::new();
    env.insert("DEVBOX_COREPACK_ENABLED".to_string(), "true".to_string());
    let mut c = configs();
    c.package_json = parsed(norms::config::PackageJson {
        name: Some("web".to_string()),
        description: None,
        module_type: Some("module".to_string()),
        package_manager: None,
        engines: None,
        scripts: Some(scripts),
        dependencies: None,
        dev_dependencies: None,
    });
    c.devbox = parsed(DevboxConfig {
        schema: None,
        packages: vec!["nodejs@22".to_string()],
        env: Some(env),
        shell: None,
    });
    c.ci_workflow = text("pnpm run lint\npnpm exec tsc --noEmit\n".to_string());
    let ctx = context(files(&["package.json"], &[]), c);
    let mut report = report_for(&ctx);
    typescript::check_scripts(&ctx, &mut report);
    typescript::check_devbox_pnpm(&ctx, &mut report);
    typescript::check_pnpm(&ctx, &mut report);
    typescript::check_ci(&ctx, &mut report);
    assert_eq!(entry(&report, "Scripts: has 'build'").status, Status::Pass);
    assert_eq!(entry(&report, "Scripts: has 'format'").status, Status::Pass);
    assert_eq!(entry(&report, "Scripts: has 'test'").message, "Consider adding a 'test' script");
    assert_eq!(entry(&report, "TypeScript devbox: enables corepack").status, Status::Pass);
    assert_eq!(entry(&report, "TypeScript devbox: includes nodejs").status, Status::Pass);
    assert_eq!(entry(&report, "pnpm: configured as package manager").message, "Missing 'packageManager' field");
    assert_eq!(entry(&report, "TypeScript CI: lint check").status, Status::Pass);
    assert_eq!(entry(&report, "TypeScript CI: type check").status, Status::Pass);
    assert_eq!(entry(&report, "TypeScript CI: tests").status, Status::Warn);
}

#[test]
fn precommit_hook_checks() {
    let hook = |id: &str| PrecommitHook { id: id.to_string(), name: None, entry: None, language: None, stages: None };
    let mut c = configs();
    c.precommit = parsed(PrecommitConfig {
        repos: vec![PrecommitRepo {
            repo: "https://github.com/doublify/pre-commit-rust".to_string(),
            rev: None,
            hooks: vec![hook("clippy"), hook("eslint")],
        }],
    });
    let ctx = context(files(&[".pre-commit-config.yaml"], &[]), c);
    let mut report = report_for(&ctx);
    python::check_precommit_hooks(&ctx, &mut report);
    rust::check_precommit_hooks(&ctx, &mut report);
    typescript::check_precommit_hooks(&ctx, &mut report);
    assert_eq!(entry(&report, "Python pre-commit: Ruff hooks").status, Status::Warn);
    assert!(report.results.iter().all(|r| r.name != "Python pre-commit: ruff-check"));
    assert_eq!(entry(&report, "Rust pre-commit: clippy hook").status, Status::Pass);
    assert_eq!(entry(&report, "Rust pre-commit: rustfmt hook").status, Status::Warn);
    assert_eq!(entry(&report, "Pre-commit: has ESLint hook").status, Status::Pass);
    assert_eq!(
        entry(&report, "Pre-commit: has TypeScript type check hook").message,
        "Consider adding a TypeScript type check hook to pre-commit configuration"
    );
}
