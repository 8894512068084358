//! Model of `Cargo.toml`.
//!
//! Only the subset of fields inspected by checks is modeled. Lint tables map
//! each lint (or lint group) name to its setting, written as TOML text.

use vstd::prelude::*;

use crate::string_map::StringMap;

verus! {

/// Top-level `Cargo.toml` structure.
#[derive(Debug, Default)]
pub struct CargoToml {
    pub package: Option<CargoPackage>,
    pub lints: Option<CargoLints>,
    pub workspace: Option<CargoWorkspace>,
    /// Explicit `[[bin]]` targets.
    pub bin: Vec<CargoBinTarget>,
}

/// The `[package]` table.
#[derive(Debug, Default)]
pub struct CargoPackage {
    pub name: Option<String>,
    pub description: Option<String>,
    pub license: Option<String>,
    pub edition: Option<String>,
    pub rust_version: Option<String>,
    pub repository: Option<String>,
}

/// The `[lints]` table.
#[derive(Debug, Default)]
pub struct CargoLints {
    pub clippy: Option<StringMap>,
    pub rust: Option<StringMap>,
}

/// The `[workspace]` table (subset).
#[derive(Debug, Default)]
pub struct CargoWorkspace {
    pub lints: Option<CargoLints>,
}

/// A `[[bin]]` target entry.
#[derive(Debug, Default)]
pub struct CargoBinTarget {
    pub name: Option<String>,
}

impl CargoToml {
    /// The Clippy lint table in effect: the package's `[lints.clippy]` if
    /// present, else the workspace's `[workspace.lints.clippy]`.
    pub open spec fn spec_effective_clippy_lints(&self) -> Option<StringMap> {
        match self.lints {
            Some(lints) if lints.clippy is Some => lints.clippy,
            _ => match self.workspace {
                Some(workspace) => match workspace.lints {
                    Some(lints) => lints.clippy,
                    None => None,
                },
                None => None,
            },
        }
    }

    /// Whether the project defines any explicit `[[bin]]` targets.
    ///
    /// Note: the caller must separately check for `src/main.rs`.
    pub fn has_explicit_bin_targets(&self) -> (r: bool)
        ensures
            r == (self.bin@.len() > 0),
    {
        self.bin.len() > 0
    }

    /// Get the effective Clippy lint configuration, preferring package-level over workspace-level.
    pub fn effective_clippy_lints(&self) -> (r: Option<&StringMap>)
        ensures
            r is Some <==> self.spec_effective_clippy_lints() is Some,
            r matches Some(m) ==> *m == self.spec_effective_clippy_lints()->0,
    {
        if let Some(lints) = &self.lints {
            if let Some(clippy) = &lints.clippy {
                return Some(clippy);
            }
        }
        match &self.workspace {
            Some(workspace) => match &workspace.lints {
                Some(lints) => match &lints.clippy {
                    Some(clippy) => Some(clippy),
                    None => None,
                },
                None => None,
            },
            None => None,
        }
    }

    /// Check whether a specific Clippy lint group or lint is configured.
    pub fn has_clippy_lint(&self, name: &str) -> (r: bool)
        ensures
            r == (self.spec_effective_clippy_lints() matches Some(m) && m@.contains_key(name@)),
    {
        match self.effective_clippy_lints() {
            Some(lints) => lints.contains_key(name),
            None => false,
        }
    }
}

} // verus!
