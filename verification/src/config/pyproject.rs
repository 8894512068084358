//! Model of `pyproject.toml`.
//!
//! Only the subset of fields inspected by checks is modeled. Values of TOML
//! types that the checks do not read are kept as TOML text.

use vstd::prelude::*;
use vstd::string::*;

use crate::string_map::StringMap;
use crate::text::str_eq;

verus! {

/// Top-level `pyproject.toml` structure.
#[derive(Debug, Default)]
pub struct PyprojectToml {
    pub project: Option<ProjectSection>,
    pub tool: Option<ToolSection>,
    /// Dependency groups: each group's name mapped to its requirement list,
    /// written as TOML text.
    pub dependency_groups: Option<StringMap>,
}

/// The `[project]` table.
#[derive(Debug, Default)]
pub struct ProjectSection {
    pub name: Option<String>,
    pub description: Option<String>,
    pub requires_python: Option<String>,
    /// The `license` value, written as TOML text.
    pub license: Option<String>,
}

/// The `[tool]` table (we only model the tools we inspect)
#[derive(Debug, Default)]
pub struct ToolSection {
    pub ruff: Option<RuffConfig>,
    pub mypy: Option<MypyConfig>,
}

/// `[tool.ruff]` configuration.
#[derive(Debug, Default)]
pub struct RuffConfig {
    pub line_length: Option<u32>,
    pub format: Option<RuffFormatConfig>,
    pub lint: Option<RuffLintConfig>,
}

/// `[tool.ruff.format]` configuration.
#[derive(Debug, Default)]
pub struct RuffFormatConfig {
    pub line_ending: Option<String>,
}

/// `[tool.ruff.lint]` configuration.
#[derive(Debug, Default)]
pub struct RuffLintConfig {
    pub preview: Option<bool>,
    pub select: Option<Vec<String>>,
    pub ignore: Option<Vec<String>>,
    pub pydocstyle: Option<RuffLintPydocstyleConfig>,
    pub isort: Option<RuffLintIsortConfig>,
    pub flake8_copyright: Option<RuffLintCopyrightConfig>,
}

/// `[tool.ruff.lint.pydocstyle]`.
#[derive(Debug, Default)]
pub struct RuffLintPydocstyleConfig {
    pub convention: Option<String>,
}

/// `[tool.ruff.lint.isort]`.
#[derive(Debug, Default)]
pub struct RuffLintIsortConfig {
    pub lines_between_types: Option<u32>,
}

/// `[tool.ruff.lint.flake8-copyright]`.
#[derive(Debug, Default)]
pub struct RuffLintCopyrightConfig {
    pub notice_rgx: Option<String>,
}

/// `[tool.mypy]` configuration.
#[derive(Debug, Default)]
pub struct MypyConfig {
    pub strict: Option<bool>,
}

impl RuffLintConfig {
    /// Whether `select` is present and lists `ALL`.
    pub open spec fn spec_selects_all(&self) -> bool {
        self.select matches Some(s) && exists|i: int| 0 <= i < s@.len() && (#[trigger] s@[i])@ == "ALL"@
    }

    /// Whether `select` is present and non-empty.
    pub open spec fn spec_has_rules(&self) -> bool {
        self.select matches Some(s) && s@.len() > 0
    }

    /// Whether `ignore` is present and non-empty.
    pub open spec fn spec_has_ignores(&self) -> bool {
        self.ignore matches Some(s) && s@.len() > 0
    }

    /// Whether the `select` list includes `"ALL"`.
    pub fn selects_all(&self) -> (r: bool)
        ensures
            r == self.spec_selects_all(),
    {
        match &self.select {
            Some(s) => {
                let n = s.len();
                let mut i: usize = 0;
                while i < n
                    invariant
                        self.select == Some(*s),
                        n == s@.len(),
                        i <= n,
                        forall|j: int| 0 <= j < i ==> (#[trigger] s@[j])@ != "ALL"@,
                    decreases n - i,
                {
                    if str_eq(s[i].as_str(), "ALL") {
                        assert((self.select->0@[i as int])@ == "ALL"@);
                        return true;
                    }
                    i = i + 1;
                }
                false
            },
            None => false,
        }
    }

    /// Whether any rules are selected at all.
    pub fn has_rules(&self) -> (r: bool)
        ensures
            r == self.spec_has_rules(),
    {
        match &self.select {
            Some(s) => s.len() > 0,
            None => false,
        }
    }

    /// Whether an ignore list is present and non-empty.
    pub fn has_ignores(&self) -> (r: bool)
        ensures
            r == self.spec_has_ignores(),
    {
        match &self.ignore {
            Some(s) => s.len() > 0,
            None => false,
        }
    }
}

} // verus!
