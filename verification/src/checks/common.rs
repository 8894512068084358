//! Common checks that apply to all projects regardless of language.

use vstd::prelude::*;
use vstd::string::*;

use crate::checks::{file_check, file_outcome, present};
use crate::config::RenovateConfig;
use crate::context::{ConfigStatus, ProjectContext};
use crate::pattern::{escaped, regex_escape};
use crate::report::{
    bool_outcome, matches_regex, must_entry, parsed_entries, regex_outcome, should_entry, Entry,
    Outcome, Report,
};
use crate::models::Status;
use crate::text::{concat, seq_contains};

verus! {

//
// Required files
//

/// Entries of `check_readme`.
pub open spec fn readme_entries(ctx: ProjectContext) -> Seq<Entry> {
    seq![must_entry("README.md"@, file_check(ctx, "README.md"@))]
}

pub fn check_readme(ctx: &ProjectContext, report: &mut Report)
    ensures
        final(report).extends(*old(report), readme_entries(*ctx)),
{
    report.must("README.md", file_outcome(ctx, "README.md"));
}

/// Whether one of the license files exists.
pub open spec fn license_found(ctx: ProjectContext) -> bool {
    present(ctx, "LICENSE"@) || present(ctx, "LICENSE-APACHE-2.0"@) || present(ctx, "LICENSE-MIT"@)
}

/// Entries of `check_license`.
pub open spec fn license_entries(ctx: ProjectContext) -> Seq<Entry> {
    seq![must_entry("LICENSE"@, bool_outcome(license_found(ctx)))]
}

pub fn check_license(ctx: &ProjectContext, report: &mut Report)
    ensures
        final(report).extends(*old(report), license_entries(*ctx)),
{
    let found = ctx.path_exists("LICENSE") || ctx.path_exists("LICENSE-APACHE-2.0") || ctx.path_exists(
        "LICENSE-MIT",
    );
    report.must("LICENSE", Outcome::from_bool(found));
}

/// The `LICENSE` check is required, and passes exactly when one of
/// `LICENSE`, `LICENSE-APACHE-2.0` or `LICENSE-MIT` exists at the project
/// root; otherwise it fails. In particular a root holding only `LICENSE`
/// passes.
pub proof fn law_license_passes_iff_a_license_file_exists(ctx: ProjectContext)
    ensures
        license_entries(ctx).len() == 1,
        license_entries(ctx)[0].name == "LICENSE"@,
        license_entries(ctx)[0].status == Status::Pass <==> (ctx.spec_files().spec_exists("LICENSE"@)
            || ctx.spec_files().spec_exists("LICENSE-APACHE-2.0"@) || ctx.spec_files().spec_exists(
            "LICENSE-MIT"@,
        )),
        license_entries(ctx)[0].status == Status::Pass || license_entries(ctx)[0].status
            == Status::Fail,
        ctx.spec_files().spec_exists("LICENSE"@) ==> license_entries(ctx)[0].status == Status::Pass,
{
}

/// Entries of `check_changelog`.
pub open spec fn changelog_entries(ctx: ProjectContext) -> Seq<Entry> {
    seq![should_entry("CHANGELOG.md"@, file_check(ctx, "CHANGELOG.md"@))]
}

pub fn check_changelog(ctx: &ProjectContext, report: &mut Report)
    ensures
        final(report).extends(*old(report), changelog_entries(*ctx)),
{
    report.should("CHANGELOG.md", file_outcome(ctx, "CHANGELOG.md"));
}

//
// Git configuration
//

/// Entries of `check_gitignore`.
pub open spec fn gitignore_entries(ctx: ProjectContext) -> Seq<Entry> {
    seq![must_entry(".gitignore"@, file_check(ctx, ".gitignore"@))]
}

pub fn check_gitignore(ctx: &ProjectContext, report: &mut Report)
    ensures
        final(report).extends(*old(report), gitignore_entries(*ctx)),
{
    report.must(".gitignore", file_outcome(ctx, ".gitignore"));
}

/// Entries of the content checks of a parsed `.gitattributes`.
pub open spec fn gitattributes_content_entries(content: Seq<char>) -> Seq<Entry> {
    seq![
        should_entry(".gitattributes: text=auto"@, regex_outcome(content, "(?m)^\\*\\s.+text=auto"@)),
        should_entry(".gitattributes: eol=lf"@, regex_outcome(content, "(?m)^\\*\\s.+eol=lf"@)),
        should_entry(
            ".gitattributes: binary markers"@,
            regex_outcome(content, "(?m)^\\*\\.[a-zA-Z0-9]+\\s+binary"@),
        ),
    ]
}

/// Entries of `check_gitattributes`.
pub open spec fn gitattributes_entries(ctx: ProjectContext) -> Seq<Entry> {
    let status = ctx.spec_configs().gitattributes;
    parsed_entries(".gitattributes"@, status, Status::Fail) + match status {
        ConfigStatus::Parsed { value: content, .. } => gitattributes_content_entries(content@),
        _ => Seq::empty(),
    }
}

pub fn check_gitattributes(ctx: &ProjectContext, report: &mut Report)
    ensures
        final(report).extends(*old(report), gitattributes_entries(*ctx)),
{
    let status = ctx.gitattributes();
    let Some(content) = report.require_parsed(".gitattributes", status) else {
        assert(report.log() =~= old(report).log() + gitattributes_entries(*ctx));
        return;
    };
    report.should(".gitattributes: text=auto", matches_regex(content, "(?m)^\\*\\s.+text=auto"));
    report.should(".gitattributes: eol=lf", matches_regex(content, "(?m)^\\*\\s.+eol=lf"));
    report.should(
        ".gitattributes: binary markers",
        matches_regex(content, "(?m)^\\*\\.[a-zA-Z0-9]+\\s+binary"),
    );
    assert(report.log() =~= old(report).log() + gitattributes_entries(*ctx));
}

//
// Editor configuration
//

/// The entry of one `.editorconfig` setting: whether the literal setting
/// text occurs (as an escaped pattern).
pub open spec fn editorconfig_setting_entry(content: Seq<char>, label: Seq<char>, needle: Seq<char>) -> Entry {
    should_entry(".editorconfig: "@ + label, regex_outcome(content, escaped(needle)))
}

/// Entries of the content checks of a parsed `.editorconfig`.
pub open spec fn editorconfig_content_entries(content: Seq<char>) -> Seq<Entry> {
    seq![
        editorconfig_setting_entry(content, "root=true"@, "root = true"@),
        editorconfig_setting_entry(content, "charset=utf-8"@, "charset = utf-8"@),
        editorconfig_setting_entry(content, "end_of_line=lf"@, "end_of_line = lf"@),
        editorconfig_setting_entry(content, "indent_style=space"@, "indent_style = space"@),
        editorconfig_setting_entry(content, "indent_size=4"@, "indent_size = 4"@),
        editorconfig_setting_entry(
            content,
            "insert_final_newline=true"@,
            "insert_final_newline = true"@,
        ),
        editorconfig_setting_entry(
            content,
            "trim_trailing_whitespace=true"@,
            "trim_trailing_whitespace = true"@,
        ),
    ]
}

/// Entries of `check_editorconfig`.
pub open spec fn editorconfig_entries(ctx: ProjectContext) -> Seq<Entry> {
    let status = ctx.spec_configs().editorconfig;
    parsed_entries(".editorconfig"@, status, Status::Fail) + match status {
        ConfigStatus::Parsed { value: content, .. } => editorconfig_content_entries(content@),
        _ => Seq::empty(),
    }
}

/// Record one `.editorconfig` setting check.
fn check_editorconfig_setting(report: &mut Report, content: &str, label: &str, needle: &str)
    ensures
        final(report).extends(
            *old(report),
            seq![editorconfig_setting_entry(content@, label@, needle@)],
        ),
{
    let name = concat(".editorconfig: ", label);
    let pattern = regex_escape(needle);
    report.should(name.as_str(), matches_regex(content, pattern.as_str()));
}

pub fn check_editorconfig(ctx: &ProjectContext, report: &mut Report)
    ensures
        final(report).extends(*old(report), editorconfig_entries(*ctx)),
{
    let status = ctx.editorconfig();
    let Some(content) = report.require_parsed(".editorconfig", status) else {
        assert(report.log() =~= old(report).log() + editorconfig_entries(*ctx));
        return;
    };
    check_editorconfig_setting(report, content, "root=true", "root = true");
    check_editorconfig_setting(report, content, "charset=utf-8", "charset = utf-8");
    check_editorconfig_setting(report, content, "end_of_line=lf", "end_of_line = lf");
    check_editorconfig_setting(report, content, "indent_style=space", "indent_style = space");
    check_editorconfig_setting(report, content, "indent_size=4", "indent_size = 4");
    check_editorconfig_setting(
        report,
        content,
        "insert_final_newline=true",
        "insert_final_newline = true",
    );
    check_editorconfig_setting(
        report,
        content,
        "trim_trailing_whitespace=true",
        "trim_trailing_whitespace = true",
    );
    assert(report.log() =~= old(report).log() + editorconfig_entries(*ctx));
}

//
// Development environment
//

/// Entries of `check_devbox`.
pub open spec fn devbox_entries(ctx: ProjectContext) -> Seq<Entry> {
    let status = ctx.spec_configs().devbox;
    parsed_entries("devbox.json"@, status, Status::Fail) + match status {
        ConfigStatus::Parsed { value: config, .. } => seq![
            should_entry("devbox.json: has $schema"@, bool_outcome(config.schema is Some)),
            should_entry("devbox.json: has packages"@, bool_outcome(config.packages@.len() > 0)),
            should_entry("devbox.lock"@, file_check(ctx, "devbox.lock"@)),
        ],
        _ => Seq::empty(),
    }
}

pub fn check_devbox(ctx: &ProjectContext, report: &mut Report)
    ensures
        final(report).extends(*old(report), devbox_entries(*ctx)),
{
    let Some(config) = report.require_parsed("devbox.json", ctx.devbox()) else {
        assert(report.log() =~= old(report).log() + devbox_entries(*ctx));
        return;
    };
    report.should("devbox.json: has $schema", Outcome::from_bool(config.schema.is_some()));
    report.should("devbox.json: has packages", Outcome::from_bool(config.packages.len() > 0));
    // Check for devbox.lock
    report.should("devbox.lock", file_outcome(ctx, "devbox.lock"));
    assert(report.log() =~= old(report).log() + devbox_entries(*ctx));
}

//
// Pre-commit
//

/// Entries of `check_precommit`.
pub open spec fn precommit_entries(ctx: ProjectContext) -> Seq<Entry> {
    seq![must_entry(".pre-commit-config.yaml"@, file_check(ctx, ".pre-commit-config.yaml"@))]
}

pub fn check_precommit(ctx: &ProjectContext, report: &mut Report)
    ensures
        final(report).extends(*old(report), precommit_entries(*ctx)),
{
    report.must(".pre-commit-config.yaml", file_outcome(ctx, ".pre-commit-config.yaml"));
}

//
// Dependency management
//

/// Entries of `check_renovate`.
pub open spec fn renovate_entries(ctx: ProjectContext) -> Seq<Entry> {
    let status = ctx.spec_configs().renovate;
    parsed_entries("renovate.json"@, status, Status::Warn) + match status {
        ConfigStatus::Parsed { value: config, .. } => seq![
            should_entry("renovate.json: has $schema"@, bool_outcome(config.schema is Some)),
            should_entry("renovate.json: has extends"@, bool_outcome(config.extends@.len() > 0)),
            should_entry(
                "renovate.json: extends best-practices"@,
                bool_outcome(config.spec_extends_best_practices()),
            ),
        ],
        _ => Seq::empty(),
    }
}

pub fn check_renovate(ctx: &ProjectContext, report: &mut Report)
    ensures
        final(report).extends(*old(report), renovate_entries(*ctx)),
{
    let Some(config) = report.recommend_parsed("renovate.json", ctx.renovate()) else {
        assert(report.log() =~= old(report).log() + renovate_entries(*ctx));
        return;
    };
    report.should("renovate.json: has $schema", Outcome::from_bool(config.schema.is_some()));
    report.should("renovate.json: has extends", Outcome::from_bool(config.extends.len() > 0));
    report.should(
        "renovate.json: extends best-practices",
        Outcome::from_bool(config.extends_best_practices()),
    );
    assert(report.log() =~= old(report).log() + renovate_entries(*ctx));
}

/// Where `renovate.json` parses, its fifth entry is the recommended check
/// `renovate.json: extends best-practices`, which passes exactly when some
/// preset listed in `extends` contains the text `best-practices`, and is a
/// warning otherwise.
pub proof fn law_renovate_best_practices_iff_some_preset_names_it(
    ctx: ProjectContext,
    config: RenovateConfig,
)
    requires
        ctx.spec_configs().renovate.parsed_value() == Some(config),
    ensures
        renovate_entries(ctx).len() == 5,
        renovate_entries(ctx)[4].name == "renovate.json: extends best-practices"@,
        renovate_entries(ctx)[4].status == Status::Pass <==> exists|j: int|
            0 <= j < config.extends@.len() && seq_contains(
                #[trigger] config.extends@[j]@,
                "best-practices"@,
            ),
        renovate_entries(ctx)[4].status == Status::Pass || renovate_entries(ctx)[4].status
            == Status::Warn,
{
}

} // verus!
