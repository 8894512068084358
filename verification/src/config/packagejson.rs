//! Model of `package.json`.
//!
//! Only the subset of fields inspected by checks is modeled.

use vstd::prelude::*;
use vstd::string::*;

use crate::string_map::StringMap;
use crate::text::{seq_starts_with, str_eq, str_starts_with};

verus! {

/// Top-level `package.json` structure.
#[derive(Debug, Default)]
pub struct PackageJson {
    pub name: Option<String>,
    pub description: Option<String>,
    /// Module type (`"module"` for ESM, `"commonjs"` or absent for CJS).
    pub module_type: Option<String>,
    /// Corepack-style package manager declaration (e.g. `"pnpm@9.15.0"`)
    pub package_manager: Option<String>,
    /// Engine constraints (e.g. `{ "node": ">=20" }`).
    pub engines: Option<StringMap>,
    /// npm scripts.
    pub scripts: Option<StringMap>,
    /// Production dependencies.
    pub dependencies: Option<StringMap>,
    /// Development dependencies.
    pub dev_dependencies: Option<StringMap>,
}

/// Whether an optional map is present and has the key.
pub open spec fn has_key(map: Option<StringMap>, key: Seq<char>) -> bool {
    map matches Some(m) && m@.contains_key(key)
}

/// Whether an optional map is present and has a key that begins with `prefix`.
pub open spec fn has_key_starting_with(map: Option<StringMap>, prefix: Seq<char>) -> bool {
    map matches Some(m) && exists|k: Seq<char>| #[trigger] m@.contains_key(k) && seq_starts_with(k, prefix)
}

impl PackageJson {
    /// Whether `type` is `module`.
    pub open spec fn spec_is_esm(&self) -> bool {
        self.module_type matches Some(t) && t@ == "module"@
    }

    /// Whether `packageManager` starts with `pnpm`.
    pub open spec fn spec_uses_pnpm(&self) -> bool {
        self.package_manager matches Some(pm) && seq_starts_with(pm@, "pnpm"@)
    }

    /// Whether the package appears in the dependencies or dev dependencies.
    pub open spec fn spec_has_dep(&self, name: Seq<char>) -> bool {
        has_key(self.dependencies, name) || has_key(self.dev_dependencies, name)
    }

    /// Whether some dependency or dev dependency begins with `prefix`.
    pub open spec fn spec_has_dep_starting_with(&self, prefix: Seq<char>) -> bool {
        has_key_starting_with(self.dependencies, prefix) || has_key_starting_with(
            self.dev_dependencies,
            prefix,
        )
    }

    /// Whether a script of that name is defined.
    pub open spec fn spec_has_script(&self, name: Seq<char>) -> bool {
        has_key(self.scripts, name)
    }

    /// Whether `type` is set to `"module"` (ESM).
    pub fn is_esm(&self) -> (r: bool)
        ensures
            r == self.spec_is_esm(),
    {
        match &self.module_type {
            Some(t) => str_eq(t.as_str(), "module"),
            None => false,
        }
    }

    /// Whether `packageManager` starts with `"pnpm"`.
    pub fn uses_pnpm(&self) -> (r: bool)
        ensures
            r == self.spec_uses_pnpm(),
    {
        match &self.package_manager {
            Some(pm) => str_starts_with(pm.as_str(), "pnpm"),
            None => false,
        }
    }

    /// Get the `packageManager` value for display in messages.
    pub fn package_manager_display(&self) -> (r: Option<&str>)
        ensures
            r is Some <==> self.package_manager is Some,
            r matches Some(s) ==> s@ == self.package_manager->0@,
    {
        match &self.package_manager {
            Some(pm) => Some(pm.as_str()),
            None => None,
        }
    }

    /// Whether a given package name appears in any dependency list.
    pub fn has_dep(&self, name: &str) -> (r: bool)
        ensures
            r == self.spec_has_dep(name@),
    {
        let in_deps = match &self.dependencies {
            Some(d) => d.contains_key(name),
            None => false,
        };
        in_deps || match &self.dev_dependencies {
            Some(d) => d.contains_key(name),
            None => false,
        }
    }

    /// Whether any dependency name starts with the given prefix.
    pub fn has_dep_starting_with(&self, prefix: &str) -> (r: bool)
        ensures
            r == self.spec_has_dep_starting_with(prefix@),
    {
        let in_deps = match &self.dependencies {
            Some(d) => d.any_key_starts_with(prefix),
            None => false,
        };
        in_deps || match &self.dev_dependencies {
            Some(d) => d.any_key_starts_with(prefix),
            None => false,
        }
    }

    /// Whether a script with the given name exists.
    pub fn has_script(&self, name: &str) -> (r: bool)
        ensures
            r == self.spec_has_script(name@),
    {
        match &self.scripts {
            Some(s) => s.contains_key(name),
            None => false,
        }
    }

    /// Whether any script name matches one of the given alternatives.
    pub fn has_any_script(&self, names: &[&str]) -> (r: bool)
        ensures
            r == exists|i: int| 0 <= i < names@.len() && self.spec_has_script(#[trigger] names@[i]@),
    {
        let n = names.len();
        let mut i: usize = 0;
        while i < n
            invariant
                n == names@.len(),
                i <= n,
                forall|j: int| 0 <= j < i ==> !self.spec_has_script(#[trigger] names@[j]@),
            decreases n - i,
        {
            if self.has_script(names[i]) {
                return true;
            }
            i = i + 1;
        }
        false
    }
}

} // verus!
