//! What is known of the project being checked: which paths exist, and
//! the parse status of each configuration file.

use vstd::prelude::*;
use vstd::string::*;

use crate::config::{
    CargoToml, DevboxConfig, PackageJson, PrecommitConfig, PyprojectToml, RenovateConfig, TsConfig,
};
use crate::models::LanguageSet;
use crate::text::{concat, seq_contains, seq_starts_with, str_contains, str_eq, str_starts_with};

verus! {

/// The result of attempting to read and parse a config file.
///
/// This three-state enum lets checks distinguish between "file missing",
/// "file present but malformed", and "file present and valid". The raw content
/// is preserved whenever the file exists, so that checks can still do
/// text-level matching even if structured parsing failed.
#[derive(Debug)]
pub enum ConfigStatus<T> {
    /// The file does not exist.
    NotFound,
    /// The file exists but could not be parsed.
    ParseError {
        /// The raw file content (useful for fallback text matching).
        raw: String,
        /// A human-readable description of the parse error.
        error: String,
    },
    /// The file exists and was parsed successfully.
    Parsed {
        /// The raw file content.
        raw: String,
        /// The parsed value.
        value: T,
    },
}

impl<T> ConfigStatus<T> {
    /// The parsed value, where the file parsed.
    pub open spec fn parsed_value(self) -> Option<T> {
        match self {
            ConfigStatus::Parsed { value, .. } => Some(value),
            _ => None,
        }
    }

    /// The raw file content, where the file exists.
    pub open spec fn raw_text(self) -> Option<Seq<char>> {
        match self {
            ConfigStatus::NotFound => None,
            ConfigStatus::ParseError { raw, .. } => Some(raw@),
            ConfigStatus::Parsed { raw, .. } => Some(raw@),
        }
    }

    /// Get a reference to the parsed value, if available.
    pub fn as_ref_ok(&self) -> (r: Option<&T>)
        ensures
            r is Some <==> self is Parsed,
            r matches Some(v) ==> self.parsed_value() == Some(*v),
    {
        match self {
            ConfigStatus::Parsed { value, .. } => Some(value),
            _ => None,
        }
    }

    /// Get the raw file content if the file exists (regardless of parse success).
    pub fn raw_content(&self) -> (r: Option<&str>)
        ensures
            r is Some <==> !(self is NotFound),
            r matches Some(s) ==> self.raw_text() == Some(s@),
    {
        match self {
            ConfigStatus::ParseError { raw, .. } => Some(raw.as_str()),
            ConfigStatus::Parsed { raw, .. } => Some(raw.as_str()),
            ConfigStatus::NotFound => None,
        }
    }
}

/// The paths known to exist in the project, relative to its root and
/// separated by `/`.
#[derive(Debug)]
pub struct ProjectFiles {
    /// Existing paths that are not directories.
    pub files: Vec<String>,
    /// Existing directories.
    pub dirs: Vec<String>,
}

/// `name` inside the directory `root` (the project root where `root` is empty).
pub open spec fn join_path(root: Seq<char>, name: Seq<char>) -> Seq<char> {
    if root.len() == 0 {
        name
    } else {
        root + "/"@ + name
    }
}

/// `name` inside the directory `root` (the project root where `root` is empty).
pub fn join(root: &str, name: &str) -> (r: String)
    ensures
        r@ == join_path(root@, name@),
{
    if root.unicode_len() == 0 {
        String::from_str(name)
    } else {
        let with_slash = concat(root, "/");
        concat(with_slash.as_str(), name)
    }
}

/// Whether `path` names an entry directly inside the directory `parent`.
pub open spec fn is_direct_child(path: Seq<char>, parent: Seq<char>) -> bool {
    &&& path.len() > parent.len() + 1
    &&& seq_starts_with(path, parent + "/"@)
    &&& !seq_contains(path.skip(parent.len() + 1int), "/"@)
}

/// Whether `path` names an entry directly inside the directory `parent`.
pub fn direct_child(path: &str, parent: &str) -> (r: bool)
    ensures
        r == is_direct_child(path@, parent@),
{
    let prefix = concat(parent, "/");
    proof {
        reveal_strlit("/");
    }
    let n = path.unicode_len();
    let k = prefix.as_str().unicode_len();
    if n <= k || !str_starts_with(path, prefix.as_str()) {
        return false;
    }
    let rest = path.substring_char(k, n);
    assert(rest@ =~= path@.skip(parent@.len() + 1int));
    !str_contains(rest, "/")
}

/// Whether some string of the list holds the characters `s`.
pub open spec fn listed(list: Seq<String>, s: Seq<char>) -> bool {
    exists|i: int| 0 <= i < list.len() && (#[trigger] list[i])@ == s
}

/// Whether the string list holds `s`.
fn list_contains(list: &Vec<String>, s: &str) -> (r: bool)
    ensures
        r == listed(list@, s@),
{
    let n = list.len();
    let mut i: usize = 0;
    while i < n
        invariant
            n == list@.len(),
            i <= n,
            forall|j: int| 0 <= j < i ==> (#[trigger] list@[j])@ != s@,
        decreases n - i,
    {
        if str_eq(list[i].as_str(), s) {
            assert((list@[i as int])@ == s@);
            return true;
        }
        i = i + 1;
    }
    false
}

impl ProjectFiles {
    /// Whether the path exists (as a file or a directory).
    pub open spec fn spec_exists(&self, path: Seq<char>) -> bool {
        listed(self.files@, path) || listed(self.dirs@, path)
    }

    /// Whether the path is an existing directory.
    pub open spec fn spec_is_dir(&self, path: Seq<char>) -> bool {
        listed(self.dirs@, path)
    }

    /// Whether the path exists (as a file or a directory).
    pub fn path_exists(&self, path: &str) -> (r: bool)
        ensures
            r == self.spec_exists(path@),
    {
        list_contains(&self.files, path) || list_contains(&self.dirs, path)
    }

    /// Whether the path is an existing directory.
    pub fn is_dir(&self, path: &str) -> (r: bool)
        ensures
            r == self.spec_is_dir(path@),
    {
        list_contains(&self.dirs, path)
    }
}

/// The parse status of each configuration file that the checks read.
#[derive(Debug)]
pub struct ProjectConfigs {
    /// `devbox.json`, read as JSON5.
    pub devbox: ConfigStatus<DevboxConfig>,
    /// `renovate.json`, read as JSON5.
    pub renovate: ConfigStatus<RenovateConfig>,
    /// `.editorconfig`, as text.
    pub editorconfig: ConfigStatus<String>,
    /// `.gitattributes`, as text.
    pub gitattributes: ConfigStatus<String>,
    /// `pyproject.toml`.
    pub pyproject: ConfigStatus<PyprojectToml>,
    /// `Cargo.toml`.
    pub cargo: ConfigStatus<CargoToml>,
    /// `.pre-commit-config.yaml`.
    pub precommit: ConfigStatus<PrecommitConfig>,
    /// `package.json` in the TypeScript root.
    pub package_json: ConfigStatus<PackageJson>,
    /// `tsconfig.json` in the TypeScript root.
    pub tsconfig: ConfigStatus<TsConfig>,
    /// The CI workflow (`.github/workflows/ci.yaml`), as text.
    pub ci_workflow: ConfigStatus<String>,
    /// The configs that `tsconfig.json` references, each under the name that
    /// its checks are recorded with.
    pub typescript_referenced_configs: Vec<(String, ConfigStatus<TsConfig>)>,
}

/// What is known of the project: its root path, which paths exist, and its
/// config files. The detected languages and the TypeScript root follow from
/// the existing paths.
pub struct ProjectContext {
    path: String,
    files: ProjectFiles,
    configs: ProjectConfigs,
    languages: LanguageSet,
    typescript_root: String,
}

impl ProjectContext {
    /// The root path of the project.
    pub closed spec fn spec_path(&self) -> Seq<char> {
        self.path@
    }

    /// The existing paths.
    pub closed spec fn spec_files(&self) -> ProjectFiles {
        self.files
    }

    /// The config files.
    pub closed spec fn spec_configs(&self) -> ProjectConfigs {
        self.configs
    }

    /// The languages and TypeScript root are those that the existing paths
    /// determine.
    #[verifier::type_invariant]
    spec fn derived_from_files(&self) -> bool {
        &&& self.languages@ == crate::detection::spec_detect_languages(self.files)
        &&& self.typescript_root@ == crate::detection::spec_typescript_root(self.files)
    }

    /// Create a context for the project at `path`, with the paths known to
    /// exist in it and its config files.
    pub fn new(path: String, files: ProjectFiles, configs: ProjectConfigs) -> (r: Self)
        ensures
            r.spec_path() == path@,
            r.spec_files() == files,
            r.spec_configs() == configs,
    {
        let languages = crate::detection::detect_languages(&files);
        let typescript_root = crate::detection::resolve_typescript_root(&files);
        ProjectContext { path, files, configs, languages, typescript_root }
    }

    /// The root path of the project.
    pub fn path(&self) -> (r: &str)
        ensures
            r@ == self.spec_path(),
    {
        self.path.as_str()
    }

    /// The existing paths.
    pub fn files(&self) -> (r: &ProjectFiles)
        ensures
            *r == self.spec_files(),
    {
        &self.files
    }

    /// Whether the path, relative to the project root, exists.
    pub fn path_exists(&self, path: &str) -> (r: bool)
        ensures
            r == self.spec_files().spec_exists(path@),
    {
        self.files.path_exists(path)
    }

    /// Detected programming languages.
    pub fn languages(&self) -> (r: &LanguageSet)
        ensures
            r@ == crate::detection::spec_detect_languages(self.spec_files()),
    {
        proof {
            use_type_invariant(self);
        }
        &self.languages
    }

    /// The directory, relative to the project root, that holds the
    /// TypeScript project (empty for the root itself).
    pub fn typescript_root(&self) -> (r: &str)
        ensures
            r@ == crate::detection::spec_typescript_root(self.spec_files()),
    {
        proof {
            use_type_invariant(self);
        }
        self.typescript_root.as_str()
    }

    /// Parsed `devbox.json`.
    pub fn devbox(&self) -> (r: &ConfigStatus<DevboxConfig>)
        ensures
            *r == self.spec_configs().devbox,
    {
        &self.configs.devbox
    }

    /// Parsed `renovate.json`.
    pub fn renovate(&self) -> (r: &ConfigStatus<RenovateConfig>)
        ensures
            *r == self.spec_configs().renovate,
    {
        &self.configs.renovate
    }

    /// Raw `.editorconfig` content.
    pub fn editorconfig(&self) -> (r: &ConfigStatus<String>)
        ensures
            *r == self.spec_configs().editorconfig,
    {
        &self.configs.editorconfig
    }

    /// Raw `.gitattributes` content.
    pub fn gitattributes(&self) -> (r: &ConfigStatus<String>)
        ensures
            *r == self.spec_configs().gitattributes,
    {
        &self.configs.gitattributes
    }

    /// Parsed `pyproject.toml`.
    pub fn pyproject(&self) -> (r: &ConfigStatus<PyprojectToml>)
        ensures
            *r == self.spec_configs().pyproject,
    {
        &self.configs.pyproject
    }

    /// Parsed `Cargo.toml`.
    pub fn cargo(&self) -> (r: &ConfigStatus<CargoToml>)
        ensures
            *r == self.spec_configs().cargo,
    {
        &self.configs.cargo
    }

    /// Parsed `.pre-commit-config.yaml`.
    pub fn precommit(&self) -> (r: &ConfigStatus<PrecommitConfig>)
        ensures
            *r == self.spec_configs().precommit,
    {
        &self.configs.precommit
    }

    /// Parsed `package.json`.
    pub fn package_json(&self) -> (r: &ConfigStatus<PackageJson>)
        ensures
            *r == self.spec_configs().package_json,
    {
        &self.configs.package_json
    }

    /// Parsed `tsconfig.json`.
    pub fn tsconfig(&self) -> (r: &ConfigStatus<TsConfig>)
        ensures
            *r == self.spec_configs().tsconfig,
    {
        &self.configs.tsconfig
    }

    /// Raw CI workflow content.
    pub fn ci_workflow(&self) -> (r: &ConfigStatus<String>)
        ensures
            *r == self.spec_configs().ci_workflow,
    {
        &self.configs.ci_workflow
    }

    /// The configs referenced from `tsconfig.json`, with their names.
    pub fn typescript_referenced_configs(&self) -> (r: &Vec<(String, ConfigStatus<TsConfig>)>)
        ensures
            *r == self.spec_configs().typescript_referenced_configs,
    {
        &self.configs.typescript_referenced_configs
    }
}

} // verus!
