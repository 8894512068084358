//! Language detection from the canonical build and config files.

use vstd::prelude::*;
use vstd::string::*;

use crate::context::{join_path, listed, ProjectFiles};
use crate::models::{Language, LanguageSet};

verus! {

/// Whether a TypeScript project lives in the `frontend/` subdirectory.
pub open spec fn spec_frontend_typescript(files: ProjectFiles) -> bool {
    files.spec_is_dir("frontend"@) && files.spec_exists("frontend/package.json"@)
}

/// The languages whose marker files exist:
/// - `CMakeLists.txt` for C++
/// - `pyproject.toml` for Python
/// - `Cargo.toml` for Rust
/// - `package.json` for TypeScript, at the root or in `frontend/`
pub open spec fn spec_detect_languages(files: ProjectFiles) -> Set<Language> {
    Set::new(
        |l: Language|
            match l {
                Language::Cpp => files.spec_exists("CMakeLists.txt"@),
                Language::Python => files.spec_exists("pyproject.toml"@),
                Language::Rust => files.spec_exists("Cargo.toml"@),
                Language::TypeScript => files.spec_exists("package.json"@)
                    || spec_frontend_typescript(files),
            },
    )
}

/// The TypeScript root: the project root where it holds `package.json`, else
/// `frontend` where that directory holds one, else the project root.
pub open spec fn spec_typescript_root(files: ProjectFiles) -> Seq<char> {
    if files.spec_exists("package.json"@) {
        Seq::empty()
    } else if spec_frontend_typescript(files) {
        "frontend"@
    } else {
        Seq::empty()
    }
}

/// Detect programming languages used in the project.
///
/// Detection is based on the presence of canonical build/config files:
/// - `CMakeLists.txt` for C++
/// - `pyproject.toml` for Python
/// - `Cargo.toml` for Rust
/// - `package.json` for TypeScript
pub fn detect_languages(files: &ProjectFiles) -> (r: LanguageSet)
    ensures
        r@ == spec_detect_languages(*files),
{
    let mut languages = LanguageSet::new();
    if files.path_exists("CMakeLists.txt") {
        languages.insert(Language::Cpp);
    }
    if files.path_exists("pyproject.toml") {
        languages.insert(Language::Python);
    }
    if files.path_exists("Cargo.toml") {
        languages.insert(Language::Rust);
    }
    if files.path_exists("package.json") {
        languages.insert(Language::TypeScript);
    }
    // TypeScript projects may live in a frontend/ subdirectory
    if !languages.contains(Language::TypeScript) {
        if files.is_dir("frontend") && files.path_exists("frontend/package.json") {
            languages.insert(Language::TypeScript);
        }
    }
    assert(languages@ =~= spec_detect_languages(*files));
    languages
}

/// Resolve the TypeScript project root directory.
///
/// TypeScript projects may live at the repository root or in a `frontend/` subdirectory. This function returns the
/// directory containing `package.json`, relative to the project root (empty for the root itself), preferring the
/// repository root if it exists there.
pub fn resolve_typescript_root(files: &ProjectFiles) -> (r: String)
    ensures
        r@ == spec_typescript_root(*files),
{
    if files.path_exists("package.json") {
        return String::new();
    }
    if files.is_dir("frontend") && files.path_exists("frontend/package.json") {
        return String::from_str("frontend");
    }
    // Fall back to repository root, though without a package.json TypeScript checks will be skipped
    String::new()
}

/// TypeScript is detected exactly when the TypeScript root holds a
/// `package.json`.
pub proof fn law_typescript_detected_iff_root_has_package_json(files: ProjectFiles)
    ensures
        spec_detect_languages(files).contains(Language::TypeScript) <==> files.spec_exists(
            join_path(spec_typescript_root(files), "package.json"@),
        ),
{
    reveal_strlit("frontend");
    reveal_strlit("/");
    reveal_strlit("package.json");
    reveal_strlit("frontend/package.json");
    if !files.spec_exists("package.json"@) && spec_frontend_typescript(files) {
        assert("frontend"@ + "/"@ + "package.json"@ =~= "frontend/package.json"@);
    }
}

/// Each language is detected exactly when its marker exists: C++ by
/// `CMakeLists.txt`, Python by `pyproject.toml` and Rust by `Cargo.toml` at
/// the project root, TypeScript by `package.json` at the root or inside a
/// `frontend` directory.
pub proof fn law_language_detected_iff_marker_exists(files: ProjectFiles)
    ensures
        spec_detect_languages(files).contains(Language::Cpp) <==> (listed(files.files@, "CMakeLists.txt"@)
            || listed(files.dirs@, "CMakeLists.txt"@)),
        spec_detect_languages(files).contains(Language::Python) <==> (listed(files.files@, "pyproject.toml"@)
            || listed(files.dirs@, "pyproject.toml"@)),
        spec_detect_languages(files).contains(Language::Rust) <==> (listed(files.files@, "Cargo.toml"@)
            || listed(files.dirs@, "Cargo.toml"@)),
        spec_detect_languages(files).contains(Language::TypeScript) <==> (listed(files.files@, "package.json"@)
            || listed(files.dirs@, "package.json"@) || (listed(files.dirs@, "frontend"@) && (listed(
            files.files@,
            "frontend/package.json"@,
        ) || listed(files.dirs@, "frontend/package.json"@)))),
{
}

} // verus!
