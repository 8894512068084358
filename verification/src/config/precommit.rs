//! Model of `.pre-commit-config.yaml`.

use vstd::prelude::*;
use vstd::string::*;

use crate::text::{seq_contains, str_contains, str_eq};

verus! {

/// Top-level `.pre-commit-config.yaml` structure.
#[derive(Debug, Default)]
pub struct PrecommitConfig {
    pub repos: Vec<PrecommitRepo>,
}

/// A single repo entry in the pre-commit config.
#[derive(Debug, Default)]
pub struct PrecommitRepo {
    /// The repository URL (or `"local"` for local hooks).
    pub repo: String,
    /// The revision/tag to use.
    pub rev: Option<String>,
    /// Hooks defined in this repo.
    pub hooks: Vec<PrecommitHook>,
}

/// A single hook within a pre-commit repo.
#[derive(Debug, Default)]
pub struct PrecommitHook {
    pub id: String,
    pub name: Option<String>,
    pub entry: Option<String>,
    pub language: Option<String>,
    pub stages: Option<Vec<String>>,
}

/// Whether some hook of the repo has the given ID.
pub open spec fn repo_has_hook(repo: PrecommitRepo, hook_id: Seq<char>) -> bool {
    exists|j: int| 0 <= j < repo.hooks@.len() && (#[trigger] repo.hooks@[j]).id@ == hook_id
}

impl PrecommitConfig {
    /// Whether some hook of some repo has the given ID.
    pub open spec fn spec_has_hook(&self, hook_id: Seq<char>) -> bool {
        exists|i: int| 0 <= i < self.repos@.len() && repo_has_hook(#[trigger] self.repos@[i], hook_id)
    }

    /// Whether some repo URL contains the given text.
    pub open spec fn spec_has_repo_containing(&self, substring: Seq<char>) -> bool {
        exists|i: int|
            0 <= i < self.repos@.len() && seq_contains((#[trigger] self.repos@[i]).repo@, substring)
    }

    /// Check if any hook with the given ID exists across all repos.
    pub fn has_hook(&self, hook_id: &str) -> (r: bool)
        ensures
            r == self.spec_has_hook(hook_id@),
    {
        let n = self.repos.len();
        let mut i: usize = 0;
        while i < n
            invariant
                n == self.repos@.len(),
                i <= n,
                forall|a: int| 0 <= a < i ==> !repo_has_hook(#[trigger] self.repos@[a], hook_id@),
            decreases n - i,
        {
            let repo = &self.repos[i];
            let m = repo.hooks.len();
            let mut j: usize = 0;
            while j < m
                invariant
                    n == self.repos@.len(),
                    i < n,
                    *repo == self.repos@[i as int],
                    forall|a: int| 0 <= a < i ==> !repo_has_hook(#[trigger] self.repos@[a], hook_id@),
                    m == repo.hooks@.len(),
                    j <= m,
                    forall|b: int| 0 <= b < j ==> (#[trigger] repo.hooks@[b]).id@ != hook_id@,
                decreases m - j,
            {
                if str_eq(repo.hooks[j].id.as_str(), hook_id) {
                    assert(repo_has_hook(self.repos@[i as int], hook_id@));
                    return true;
                }
                j = j + 1;
            }
            i = i + 1;
        }
        false
    }

    /// Check if any repo URL contains the given substring.
    pub fn has_repo_containing(&self, substring: &str) -> (r: bool)
        ensures
            r == self.spec_has_repo_containing(substring@),
    {
        let n = self.repos.len();
        let mut i: usize = 0;
        while i < n
            invariant
                n == self.repos@.len(),
                i <= n,
                forall|a: int|
                    0 <= a < i ==> !seq_contains((#[trigger] self.repos@[a]).repo@, substring@),
            decreases n - i,
        {
            if str_contains(self.repos[i].repo.as_str(), substring) {
                return true;
            }
            i = i + 1;
        }
        false
    }
}

} // verus!
