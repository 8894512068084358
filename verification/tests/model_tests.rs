use norms::config::cargo::{CargoLints, CargoPackage, CargoWorkspace};
use norms::config::precommit::{PrecommitHook, PrecommitRepo};
use norms::config::pyproject::RuffLintConfig;
use norms::config::tsconfig::TsReference;
use norms::config::{CargoToml, DevboxConfig, PackageJson, PrecommitConfig, RenovateConfig, TsConfig};
use norms::models::{Language, LanguageSet};
use norms::string_map::StringMap;
use norms::text::{str_contains, str_eq, str_starts_with};

fn map(entries: &[(&str, &str)]) -> StringMap {
    let mut m = StringMap::new();
    for (k, v) in entries {
        m.insert(k.to_string(), v.to_string());
    }
    m
}

#[test]
fn text_helpers() {
    assert!(str_contains("cargo fmt --check", "fmt"));
    assert!(!str_contains("cargo", "cargo fmt"));
    assert!(str_contains("", ""));
    assert!(str_starts_with("pnpm@9.15.0", "pnpm"));
    assert!(!str_starts_with("npm", "pnpm"));
    assert!(str_eq("lf", "lf"));
    assert!(!str_eq("lf", "crlf"));
    assert!(str_contains("naïve café", "café"));
}

#[test]
fn string_map_later_insert_wins() {
    let mut m = map(&[("dev", "[1]"), ("test", "[2]")]);
    assert!(m.contains_key("dev"));
    assert!(!m.contains_key("docs"));
    assert_eq!(m.get("dev").map(|s| s.as_str()), Some("[1]"));
    m.insert("dev".to_string(), "[3]".to_string());
    assert_eq!(m.get("dev").map(|s| s.as_str()), Some("[3]"));
    assert!(m.any_key_starts_with("te"));
    assert!(!m.any_key_starts_with("x"));
    assert!(!m.is_empty());
    assert!(StringMap::new().is_empty());
}

#[test]
fn language_set_basics() {
    let mut s = LanguageSet::new();
    assert!(s.is_empty());
    s.insert(Language::Rust);
    s.insert(Language::Cpp);
    s.insert(Language::Rust);
    assert!(s.contains(Language::Rust));
    assert!(!s.contains(Language::Python));
    assert_eq!(s.to_vec(), vec![Language::Cpp, Language::Rust]);
}

fn devbox(packages: &[&str]) -> DevboxConfig {
    DevboxConfig {
        schema: None,
        packages: packages.iter().map(|p| p.to_string()).collect(),
        env: None,
        shell: None,
    }
}

#[test]
fn devbox_has_package_forms() {
    let config = devbox(&["uv@latest", "\"nodejs", "rustup", "cargo-denyx"]);
    assert!(config.has_package("uv"));
    assert!(config.has_package("nodejs"));
    assert!(config.has_package("rustup"));
    assert!(!config.has_package("cargo-deny"));
    assert!(!config.has_package("python"));
}

#[test]
fn renovate_best_practices() {
    let yes = RenovateConfig {
        schema: None,
        extends: vec!["config:best-practices".to_string()],
    };
    let no = RenovateConfig { schema: None, extends: vec!["config:recommended".to_string()] };
    assert!(yes.extends_best_practices());
    assert!(!no.extends_best_practices());
}

fn hook(id: &str) -> PrecommitHook {
    PrecommitHook { id: id.to_string(), name: None, entry: None, language: None, stages: None }
}

#[test]
fn precommit_hooks_and_repos() {
    let config = PrecommitConfig {
        repos: vec![
            PrecommitRepo {
                repo: "https://github.com/astral-sh/ruff-pre-commit".to_string(),
                rev: Some("v0.8.0".to_string()),
                hooks: vec![hook("ruff-check"), hook("ruff-format")],
            },
            PrecommitRepo { repo: "local".to_string(), rev: None, hooks: vec![hook("mypy")] },
        ],
    };
    assert!(config.has_hook("mypy"));
    assert!(config.has_hook("ruff-format"));
    assert!(!config.has_hook("ruff"));
    assert!(config.has_repo_containing("ruff"));
    assert!(!config.has_repo_containing("prettier"));
}

#[test]
fn ruff_lint_selection() {
    let lint = RuffLintConfig {
        preview: Some(true),
        select: Some(vec!["E".to_string(), "ALL".to_string()]),
        ignore: Some(vec![]),
        pydocstyle: None,
        isort: None,
        flake8_copyright: None,
    };
    assert!(lint.selects_all());
    assert!(lint.has_rules());
    assert!(!lint.has_ignores());
    let empty = RuffLintConfig {
        preview: None,
        select: None,
        ignore: Some(vec!["D".to_string()]),
        pydocstyle: None,
        isort: None,
        flake8_copyright: None,
    };
    assert!(!empty.selects_all());
    assert!(!empty.has_rules());
    assert!(empty.has_ignores());
}

fn package_json() -> PackageJson {
    PackageJson {
        name: Some("app".to_string()),
        description: None,
        module_type: Some("module".to_string()),
        package_manager: Some("pnpm@9.15.0".to_string()),
        engines: None,
        scripts: Some(map(&[("build", "vite build"), ("fmt", "prettier -w .")])),
        dependencies: Some(map(&[("react", "^19")])),
        dev_dependencies: Some(map(&[("@typescript-eslint/parser", "^8"), ("eslint", "^9")])),
    }
}

#[test]
fn package_json_queries() {
    let p = package_json();
    assert!(p.is_esm());
    assert!(p.uses_pnpm());
    assert_eq!(p.package_manager_display(), Some("pnpm@9.15.0"));
    assert!(p.has_dep("react"));
    assert!(p.has_dep("eslint"));
    assert!(!p.has_dep("prettier"));
    assert!(p.has_dep_starting_with("@typescript-eslint/"));
    assert!(!p.has_dep_starting_with("@vitejs/"));
    assert!(p.has_script("build"));
    assert!(!p.has_script("test"));
    assert!(p.has_any_script(&["format", "fmt", "prettier"]));
    assert!(!p.has_any_script(&["lint"]));
}

#[test]
fn package_json_commonjs_npm() {
    let mut p = package_json();
    p.module_type = None;
    p.package_manager = Some("npm@10".to_string());
    assert!(!p.is_esm());
    assert!(!p.uses_pnpm());
}

fn cargo(package_clippy: Option<&[(&str, &str)]>, workspace_clippy: Option<&[(&str, &str)]>) -> CargoToml {
    CargoToml {
        package: Some(CargoPackage {
            name: Some("x".to_string()),
            description: None,
            license: Some("MIT".to_string()),
            edition: Some("2021".to_string()),
            rust_version: None,
            repository: None,
        }),
        lints: package_clippy.map(|c| CargoLints { clippy: Some(map(c)), rust: None }),
        workspace: workspace_clippy.map(|c| CargoWorkspace {
            lints: Some(CargoLints { clippy: Some(map(c)), rust: None }),
        }),
        bin: vec![],
    }
}

#[test]
fn clippy_lints_prefer_package_level() {
    let both = cargo(Some(&[("pedantic", "\"warn\"")]), Some(&[("nursery", "\"warn\"")]));
    assert!(both.has_clippy_lint("pedantic"));
    assert!(!both.has_clippy_lint("nursery"));
    let ws = cargo(None, Some(&[("nursery", "\"warn\"")]));
    assert!(ws.has_clippy_lint("nursery"));
    assert!(ws.effective_clippy_lints().is_some());
    let none = cargo(None, None);
    assert!(none.effective_clippy_lints().is_none());
    assert!(!none.has_clippy_lint("pedantic"));
    assert!(!none.has_explicit_bin_targets());
}

#[test]
fn tsconfig_references() {
    let t = TsConfig {
        compiler_options: None,
        extends: None,
        references: vec![
            TsReference { path: "./tsconfig.app.json".to_string() },
            TsReference { path: "./tsconfig.node.json".to_string() },
        ],
    };
    assert!(t.is_solution_style());
    assert_eq!(t.reference_paths(), vec!["./tsconfig.app.json", "./tsconfig.node.json"]);
}
