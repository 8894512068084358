//! Model of `tsconfig.json`.
//!
//! Only the subset of fields inspected by checks is modeled.

use vstd::prelude::*;
use vstd::string::*;

verus! {

/// Top-level `tsconfig.json` structure.
#[derive(Debug, Default)]
pub struct TsConfig {
    pub compiler_options: Option<TsCompilerOptions>,
    /// The `extends` value, written as JSON text.
    pub extends: Option<String>,
    /// Project references for solution-style tsconfig.
    ///
    /// When present, the root tsconfig delegates compilation to referenced sub-projects (e.g. `tsconfig.app.json`,
    /// `tsconfig.node.json`). The root typically has no `compilerOptions` of its own.
    pub references: Vec<TsReference>,
}

/// A single entry in the `references` array.
#[derive(Debug, Default)]
pub struct TsReference {
    /// Path to the referenced tsconfig file (relative to the root tsconfig).
    pub path: String,
}

/// The `compilerOptions` section of `tsconfig.json`.
#[derive(Debug, Default)]
pub struct TsCompilerOptions {
    pub strict: Option<bool>,
    pub no_unchecked_indexed_access: Option<bool>,
    pub module: Option<String>,
    pub target: Option<String>,
    pub module_resolution: Option<String>,
    pub out_dir: Option<String>,
    pub root_dir: Option<String>,
    pub declaration: Option<bool>,
    pub source_map: Option<bool>,
    pub es_module_interop: Option<bool>,
    pub skip_lib_check: Option<bool>,
    pub force_consistent_casing_in_file_names: Option<bool>,
    pub resolve_json_module: Option<bool>,
    pub isolated_modules: Option<bool>,
    pub verbatim_module_syntax: Option<bool>,
}

impl TsConfig {
    /// Whether this is a solution-style tsconfig (uses project references).
    ///
    /// Solution-style configs have a non-empty `references` array and typically no `compilerOptions`, delegating all
    /// compilation to the referenced sub-projects.
    pub fn is_solution_style(&self) -> (r: bool)
        ensures
            r == (self.references@.len() > 0),
    {
        self.references.len() > 0
    }

    /// Return the reference paths, in order.
    pub fn reference_paths(&self) -> (r: Vec<&str>)
        ensures
            r@.len() == self.references@.len(),
            forall|i: int| 0 <= i < r@.len() ==> (#[trigger] r@[i])@ == self.references@[i].path@,
    {
        let n = self.references.len();
        let mut r: Vec<&str> = Vec::new();
        let mut i: usize = 0;
        while i < n
            invariant
                n == self.references@.len(),
                i <= n,
                r@.len() == i,
                forall|j: int| 0 <= j < i ==> (#[trigger] r@[j])@ == self.references@[j].path@,
            decreases n - i,
        {
            r.push(self.references[i].path.as_str());
            i = i + 1;
        }
        r
    }
}

} // verus!
