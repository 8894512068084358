//! Model of `renovate.json`.

use vstd::prelude::*;
use vstd::string::*;

use crate::text::{seq_contains, str_contains};

verus! {

/// Top-level `renovate.json` structure.
#[derive(Debug, Default)]
pub struct RenovateConfig {
    /// JSON Schema reference.
    pub schema: Option<String>,
    /// Preset configurations to extend.
    pub extends: Vec<String>,
}

impl RenovateConfig {
    /// Whether some preset in `extends` contains `best-practices`.
    pub open spec fn spec_extends_best_practices(&self) -> bool {
        exists|i: int|
            0 <= i < self.extends@.len() && seq_contains(
                #[trigger] self.extends@[i]@,
                "best-practices"@,
            )
    }

    /// Whether `extends` includes any preset containing `"best-practices"`.
    pub fn extends_best_practices(&self) -> (r: bool)
        ensures
            r == self.spec_extends_best_practices(),
    {
        let n = self.extends.len();
        let mut i: usize = 0;
        while i < n
            invariant
                n == self.extends@.len(),
                i <= n,
                forall|j: int|
                    0 <= j < i ==> !seq_contains(#[trigger] self.extends@[j]@, "best-practices"@),
            decreases n - i,
        {
            if str_contains(self.extends[i].as_str(), "best-practices") {
                return true;
            }
            i = i + 1;
        }
        false
    }
}

} // verus!
