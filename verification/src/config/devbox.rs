//! Model of `devbox.json`.

use vstd::prelude::*;
use vstd::string::*;

use crate::string_map::StringMap;
use crate::text::{concat, seq_starts_with, str_eq, str_starts_with};

verus! {

/// Top-level `devbox.json` structure.
#[derive(Debug, Default)]
pub struct DevboxConfig {
    /// JSON Schema reference.
    pub schema: Option<String>,
    /// List of Nix packages (normalized from either a list or a dictionary:
    /// in dictionary form, its keys).
    pub packages: Vec<String>,
    /// Map of environment variables.
    pub env: Option<StringMap>,
    /// Shell configuration.
    pub shell: Option<DevboxShell>,
}

/// The `shell` section of `devbox.json`.
#[derive(Debug, Default)]
pub struct DevboxShell {
    pub init_hook: Option<Vec<String>>,
    /// The `scripts` value, written as JSON text.
    pub scripts: Option<String>,
}

/// Whether a package entry names the package `prefix`: it is `prefix`
/// itself, or starts with `prefix@`, or starts with a quote and `prefix`.
pub open spec fn package_entry_matches(entry: Seq<char>, prefix: Seq<char>) -> bool {
    entry == prefix || seq_starts_with(entry, prefix + "@"@) || seq_starts_with(
        entry,
        "\""@ + prefix,
    )
}

impl DevboxConfig {
    /// Whether some package entry names the package `prefix`.
    pub open spec fn spec_has_package(&self, prefix: Seq<char>) -> bool {
        exists|i: int|
            0 <= i < self.packages@.len() && package_entry_matches(
                #[trigger] self.packages@[i]@,
                prefix,
            )
    }

    /// Check if a particular package prefix is listed
    pub fn has_package(&self, prefix: &str) -> (r: bool)
        ensures
            r == self.spec_has_package(prefix@),
    {
        let with_version = concat(prefix, "@");
        let quoted = concat("\"", prefix);
        let n = self.packages.len();
        let mut i: usize = 0;
        while i < n
            invariant
                n == self.packages@.len(),
                i <= n,
                with_version@ == prefix@ + "@"@,
                quoted@ == "\""@ + prefix@,
                forall|j: int|
                    0 <= j < i ==> !package_entry_matches(#[trigger] self.packages@[j]@, prefix@),
            decreases n - i,
        {
            let p = self.packages[i].as_str();
            if str_eq(p, prefix) || str_starts_with(p, with_version.as_str()) || str_starts_with(
                p,
                quoted.as_str(),
            ) {
                assert(package_entry_matches(self.packages@[i as int]@, prefix@));
                return true;
            }
            i = i + 1;
        }
        false
    }
}

} // verus!
