//! Rust-specific checks.

use vstd::prelude::*;
use vstd::string::*;

use crate::checks::{file_check, file_outcome, present};
use crate::config::cargo::CargoPackage;
use crate::config::CargoToml;
use crate::context::{ConfigStatus, ProjectContext};
use crate::models::Status;
use crate::report::{bool_outcome, parsed_entries, should_entry, Entry, Outcome, Report};
use crate::text::{lowercase, seq_contains, str_contains, to_lowercase};

verus! {

//
// Project configuration
//

/// Whether the package table is present and the selected field is set.
pub open spec fn package_has(package: Option<CargoPackage>, field: spec_fn(CargoPackage) -> Option<String>) -> bool {
    package matches Some(p) && field(p) is Some
}

/// Entries of `check_cargo`.
pub open spec fn cargo_entries(ctx: ProjectContext) -> Seq<Entry> {
    let status = ctx.spec_configs().cargo;
    parsed_entries("Cargo.toml"@, status, Status::Fail) + match status {
        ConfigStatus::Parsed { value: config, .. } => seq![
            should_entry(
                "Cargo.toml: has license"@,
                bool_outcome(package_has(config.package, |p: CargoPackage| p.license)),
            ),
            should_entry(
                "Cargo.toml: has description"@,
                bool_outcome(package_has(config.package, |p: CargoPackage| p.description)),
            ),
            should_entry(
                "Cargo.toml: has repository"@,
                bool_outcome(package_has(config.package, |p: CargoPackage| p.repository)),
            ),
            should_entry(
                "Cargo.toml: has edition"@,
                bool_outcome(package_has(config.package, |p: CargoPackage| p.edition)),
            ),
        ],
        _ => Seq::empty(),
    }
}

pub fn check_cargo(ctx: &ProjectContext, report: &mut Report)
    ensures
        final(report).extends(*old(report), cargo_entries(*ctx)),
{
    let Some(config) = report.require_parsed("Cargo.toml", ctx.cargo()) else {
        assert(report.log() =~= old(report).log() + cargo_entries(*ctx));
        return;
    };
    //  Package metadata
    let (license, description, repository, edition) = match &config.package {
        Some(p) => (
            p.license.is_some(),
            p.description.is_some(),
            p.repository.is_some(),
            p.edition.is_some(),
        ),
        None => (false, false, false, false),
    };
    report.should("Cargo.toml: has license", Outcome::from_bool(license));
    report.should("Cargo.toml: has description", Outcome::from_bool(description));
    report.should("Cargo.toml: has repository", Outcome::from_bool(repository));
    report.should("Cargo.toml: has edition", Outcome::from_bool(edition));
    assert(report.log() =~= old(report).log() + cargo_entries(*ctx));
}

//
// MSRV / Toolchain
//

/// Whether a parsed `Cargo.toml` declares `rust-version`.
pub open spec fn has_msrv(status: ConfigStatus<CargoToml>) -> bool {
    status matches ConfigStatus::Parsed { value: config, .. } && package_has(
        config.package,
        |p: CargoPackage| p.rust_version,
    )
}

/// Entries of `check_rust_toolchain`.
pub open spec fn rust_toolchain_entries(ctx: ProjectContext) -> Seq<Entry> {
    seq![
        should_entry(
            "Rust: MSRV defined (rust-version)"@,
            bool_outcome(has_msrv(ctx.spec_configs().cargo)),
        ),
        should_entry("Rust: rust-toolchain.toml"@, file_check(ctx, "rust-toolchain.toml"@)),
    ]
}

pub fn check_rust_toolchain(ctx: &ProjectContext, report: &mut Report)
    ensures
        final(report).extends(*old(report), rust_toolchain_entries(*ctx)),
{
    let has_msrv = match ctx.cargo().as_ref_ok() {
        Some(c) => match &c.package {
            Some(p) => p.rust_version.is_some(),
            None => false,
        },
        None => false,
    };
    report.should("Rust: MSRV defined (rust-version)", Outcome::from_bool(has_msrv));
    // rust-toolchain.toml pins the toolchain for contributors
    report.should("Rust: rust-toolchain.toml", file_outcome(ctx, "rust-toolchain.toml"));
    assert(report.log() =~= old(report).log() + rust_toolchain_entries(*ctx));
}

//
// Clippy lints
//

/// Entries of `check_clippy_lints`.
pub open spec fn clippy_lints_entries(ctx: ProjectContext) -> Seq<Entry> {
    match ctx.spec_configs().cargo {
        ConfigStatus::Parsed { value: config, .. } => if config.spec_effective_clippy_lints() is None {
            seq![
                should_entry(
                    "Clippy: lints configured"@,
                    Some("No [lints.clippy] or [workspace.lints.clippy] section"@),
                ),
            ]
        } else {
            seq![
                should_entry("Clippy: lints configured"@, None),
                should_entry(
                    "Clippy: pedantic enabled"@,
                    bool_outcome(config.spec_effective_clippy_lints()->0@.contains_key("pedantic"@)),
                ),
            ]
        },
        _ => Seq::empty(),
    }
}

pub fn check_clippy_lints(ctx: &ProjectContext, report: &mut Report)
    ensures
        final(report).extends(*old(report), clippy_lints_entries(*ctx)),
{
    let Some(config) = ctx.cargo().as_ref_ok() else {
        assert(report.log() =~= old(report).log() + clippy_lints_entries(*ctx));
        return;
    };
    let has_clippy_lints = config.effective_clippy_lints().is_some();
    if !has_clippy_lints {
        report.should(
            "Clippy: lints configured",
            Outcome::fail("No [lints.clippy] or [workspace.lints.clippy] section"),
        );
        return;
    }
    report.should("Clippy: lints configured", Outcome::Pass);
    report.should("Clippy: pedantic enabled", Outcome::from_bool(config.has_clippy_lint("pedantic")));
    assert(report.log() =~= old(report).log() + clippy_lints_entries(*ctx));
}

//
// Dependency auditing
//

/// Entries of `check_cargo_deny`.
pub open spec fn cargo_deny_entries(ctx: ProjectContext) -> Seq<Entry> {
    seq![should_entry("Rust: deny.toml"@, file_check(ctx, "deny.toml"@))]
}

pub fn check_cargo_deny(ctx: &ProjectContext, report: &mut Report)
    ensures
        final(report).extends(*old(report), cargo_deny_entries(*ctx)),
{
    report.should("Rust: deny.toml", file_outcome(ctx, "deny.toml"));
}

//
// Lock file
//

/// Entries of `check_cargo_lock`: a binary project (explicit `[[bin]]`
/// targets or `src/main.rs`) should commit `Cargo.lock`.
pub open spec fn cargo_lock_entries(ctx: ProjectContext) -> Seq<Entry> {
    match ctx.spec_configs().cargo {
        ConfigStatus::Parsed { value: config, .. } => if config.bin@.len() > 0 || present(ctx, "src/main.rs"@) {
            seq![
                should_entry("Rust: Cargo.lock comitted (binary)"@, file_check(ctx, "Cargo.lock"@)),
            ]
        } else {
            Seq::empty()
        },
        _ => Seq::empty(),
    }
}

pub fn check_cargo_lock(ctx: &ProjectContext, report: &mut Report)
    ensures
        final(report).extends(*old(report), cargo_lock_entries(*ctx)),
{
    let Some(config) = ctx.cargo().as_ref_ok() else {
        assert(report.log() =~= old(report).log() + cargo_lock_entries(*ctx));
        return;
    };
    // Determine if the project produces a binary
    let has_binary = config.has_explicit_bin_targets() || ctx.path_exists("src/main.rs");
    if has_binary {
        report.should("Rust: Cargo.lock comitted (binary)", file_outcome(ctx, "Cargo.lock"));
    }
    assert(report.log() =~= old(report).log() + cargo_lock_entries(*ctx));
}

//
// Pre-commit integration
//

/// Entries of `check_precommit_hooks`.
pub open spec fn precommit_hooks_entries(ctx: ProjectContext) -> Seq<Entry> {
    match ctx.spec_configs().precommit {
        ConfigStatus::Parsed { value: config, .. } => seq![
            should_entry("Rust pre-commit: rustfmt hook"@, bool_outcome(config.spec_has_hook("rustfmt"@))),
            should_entry("Rust pre-commit: clippy hook"@, bool_outcome(config.spec_has_hook("clippy"@))),
            should_entry(
                "Rust pre-commit: cargo-deny hook"@,
                bool_outcome(config.spec_has_hook("cargo-deny"@)),
            ),
        ],
        _ => Seq::empty(),
    }
}

pub fn check_precommit_hooks(ctx: &ProjectContext, report: &mut Report)
    ensures
        final(report).extends(*old(report), precommit_hooks_entries(*ctx)),
{
    let Some(config) = ctx.precommit().as_ref_ok() else {
        assert(report.log() =~= old(report).log() + precommit_hooks_entries(*ctx));
        return;
    };
    report.should("Rust pre-commit: rustfmt hook", Outcome::from_bool(config.has_hook("rustfmt")));
    report.should("Rust pre-commit: clippy hook", Outcome::from_bool(config.has_hook("clippy")));
    report.should("Rust pre-commit: cargo-deny hook", Outcome::from_bool(config.has_hook("cargo-deny")));
    assert(report.log() =~= old(report).log() + precommit_hooks_entries(*ctx));
}

//
// Devbox integration
//

/// Entries of `check_devbox_rust`.
pub open spec fn devbox_rust_entries(ctx: ProjectContext) -> Seq<Entry> {
    match ctx.spec_configs().devbox {
        ConfigStatus::Parsed { value: config, .. } => seq![
            should_entry(
                "Rust devbox: includes rustup"@,
                bool_outcome(config.spec_has_package("rustup"@)),
            ),
            should_entry(
                "Rust devbox: includes cargo-deny"@,
                bool_outcome(config.spec_has_package("cargo-deny"@)),
            ),
        ],
        _ => Seq::empty(),
    }
}

pub fn check_devbox_rust(ctx: &ProjectContext, report: &mut Report)
    ensures
        final(report).extends(*old(report), devbox_rust_entries(*ctx)),
{
    let Some(config) = ctx.devbox().as_ref_ok() else {
        assert(report.log() =~= old(report).log() + devbox_rust_entries(*ctx));
        return;
    };
    report.should("Rust devbox: includes rustup", Outcome::from_bool(config.has_package("rustup")));
    report.should("Rust devbox: includes cargo-deny", Outcome::from_bool(config.has_package("cargo-deny")));
    assert(report.log() =~= old(report).log() + devbox_rust_entries(*ctx));
}

//
// CI integration
//

/// Entries of `check_ci`: whether the lower-cased workflow runs each tool.
pub open spec fn ci_entries(ctx: ProjectContext) -> Seq<Entry> {
    match ctx.spec_configs().ci_workflow {
        ConfigStatus::Parsed { value: content, .. } => {
            let lower = lowercase(content@);
            seq![
                should_entry("Rust CI: format check"@, bool_outcome(seq_contains(lower, "cargo fmt"@))),
                should_entry("Rust CI: clippy check"@, bool_outcome(seq_contains(lower, "cargo clippy"@))),
                should_entry("Rust CI: test"@, bool_outcome(seq_contains(lower, "cargo test"@))),
                should_entry("Rust CI: cargo deny"@, bool_outcome(seq_contains(lower, "cargo deny"@))),
            ]
        },
        _ => Seq::empty(),
    }
}

pub fn check_ci(ctx: &ProjectContext, report: &mut Report)
    ensures
        final(report).extends(*old(report), ci_entries(*ctx)),
{
    let ConfigStatus::Parsed { value: content, .. } = ctx.ci_workflow() else {
        assert(report.log() =~= old(report).log() + ci_entries(*ctx));
        return;
    };
    let lower = to_lowercase(content.as_str());
    report.should("Rust CI: format check", Outcome::from_bool(str_contains(lower.as_str(), "cargo fmt")));
    report.should("Rust CI: clippy check", Outcome::from_bool(str_contains(lower.as_str(), "cargo clippy")));
    report.should("Rust CI: test", Outcome::from_bool(str_contains(lower.as_str(), "cargo test")));
    report.should("Rust CI: cargo deny", Outcome::from_bool(str_contains(lower.as_str(), "cargo deny")));
    assert(report.log() =~= old(report).log() + ci_entries(*ctx));
}

} // verus!
