//! Core data models: languages and check statuses.

use vstd::prelude::*;
use vstd::string::*;

verus! {

/// Supported programming languages.
#[derive(Debug, Clone, Copy, PartialEq, Eq, Hash, Structural)]
pub enum Language {
    Cpp,
    Python,
    Rust,
    TypeScript,
}

/// The human-readable name of a language.
pub open spec fn language_name(language: Language) -> Seq<char> {
    match language {
        Language::Cpp => "C++"@,
        Language::Python => "Python"@,
        Language::Rust => "Rust"@,
        Language::TypeScript => "TypeScript"@,
    }
}

/// The lower-case identifier of a language used in machine-readable output.
pub open spec fn language_id(language: Language) -> Seq<char> {
    match language {
        Language::Cpp => "cpp"@,
        Language::Python => "python"@,
        Language::Rust => "rust"@,
        Language::TypeScript => "typescript"@,
    }
}

impl Language {
    /// The human-readable name (`C++`, `Python`, `Rust`, `TypeScript`).
    pub fn to_string(&self) -> (r: String)
        ensures
            r@ == language_name(*self),
    {
        match self {
            Language::Cpp => String::from_str("C++"),
            Language::Python => String::from_str("Python"),
            Language::Rust => String::from_str("Rust"),
            Language::TypeScript => String::from_str("TypeScript"),
        }
    }

    /// The lower-case identifier (`cpp`, `python`, `rust`, `typescript`).
    pub fn id(&self) -> (r: String)
        ensures
            r@ == language_id(*self),
    {
        match self {
            Language::Cpp => String::from_str("cpp"),
            Language::Python => String::from_str("python"),
            Language::Rust => String::from_str("rust"),
            Language::TypeScript => String::from_str("typescript"),
        }
    }
}

/// The severity/outcome of a check.
#[derive(Debug, Clone, Copy, PartialEq, Eq, Hash, Structural)]
pub enum Status {
    Pass,
    Fail,
    Warn,
    Skip,
}

/// The upper-case badge of a status.
pub open spec fn status_label(status: Status) -> Seq<char> {
    match status {
        Status::Pass => "PASS"@,
        Status::Fail => "FAIL"@,
        Status::Warn => "WARN"@,
        Status::Skip => "SKIP"@,
    }
}

/// The lower-case identifier of a status used in machine-readable output.
pub open spec fn status_id(status: Status) -> Seq<char> {
    match status {
        Status::Pass => "pass"@,
        Status::Fail => "fail"@,
        Status::Warn => "warn"@,
        Status::Skip => "skip"@,
    }
}

impl Status {
    /// The upper-case badge (`PASS`, `FAIL`, `WARN`, `SKIP`).
    pub fn to_string(&self) -> (r: String)
        ensures
            r@ == status_label(*self),
    {
        match self {
            Status::Pass => String::from_str("PASS"),
            Status::Fail => String::from_str("FAIL"),
            Status::Warn => String::from_str("WARN"),
            Status::Skip => String::from_str("SKIP"),
        }
    }

    /// The lower-case identifier (`pass`, `fail`, `warn`, `skip`).
    pub fn id(&self) -> (r: String)
        ensures
            r@ == status_id(*self),
    {
        match self {
            Status::Pass => String::from_str("pass"),
            Status::Fail => String::from_str("fail"),
            Status::Warn => String::from_str("warn"),
            Status::Skip => String::from_str("skip"),
        }
    }
}

/// A set of languages, one flag per language.
#[derive(Debug, Clone, Copy, PartialEq, Eq, Structural)]
pub struct LanguageSet {
    cpp: bool,
    python: bool,
    rust: bool,
    typescript: bool,
}

impl View for LanguageSet {
    type V = Set<Language>;

    closed spec fn view(&self) -> Set<Language> {
        Set::new(
            |l: Language|
                match l {
                    Language::Cpp => self.cpp,
                    Language::Python => self.python,
                    Language::Rust => self.rust,
                    Language::TypeScript => self.typescript,
                },
        )
    }
}

/// The languages in a set, in the order of their names.
pub open spec fn ordered_languages(set: Set<Language>) -> Seq<Language> {
    let s0 = Seq::<Language>::empty();
    let s1 = if set.contains(Language::Cpp) { s0.push(Language::Cpp) } else { s0 };
    let s2 = if set.contains(Language::Python) { s1.push(Language::Python) } else { s1 };
    let s3 = if set.contains(Language::Rust) { s2.push(Language::Rust) } else { s2 };
    if set.contains(Language::TypeScript) { s3.push(Language::TypeScript) } else { s3 }
}

/// The position of a language in name order.
pub open spec fn language_rank(language: Language) -> int {
    match language {
        Language::Cpp => 0,
        Language::Python => 1,
        Language::Rust => 2,
        Language::TypeScript => 3,
    }
}

/// One step of the ordered listing: appending the language of rank `k`
/// where the set holds it keeps the listing exact up to rank `k + 1`.
proof fn lemma_listing_step(prev: Seq<Language>, set: Set<Language>, next_language: Language)
    requires
        forall|l: Language|
            prev.contains(l) <==> set.contains(l) && language_rank(l) < language_rank(next_language),
        prev.no_duplicates(),
    ensures
        ({
            let next = if set.contains(next_language) {
                prev.push(next_language)
            } else {
                prev
            };
            &&& forall|l: Language|
                next.contains(l) <==> set.contains(l) && language_rank(l) <= language_rank(
                    next_language,
                )
            &&& next.no_duplicates()
        }),
{
    broadcast use vstd::seq_lib::lemma_seq_contains_after_push;

    assert forall|l: Language| language_rank(l) == language_rank(next_language) implies l
        == next_language by {
        match l {
            Language::Cpp => {},
            Language::Python => {},
            Language::Rust => {},
            Language::TypeScript => {},
        }
        match next_language {
            Language::Cpp => {},
            Language::Python => {},
            Language::Rust => {},
            Language::TypeScript => {},
        }
    }
    if set.contains(next_language) {
        let next = prev.push(next_language);
        assert(!prev.contains(next_language));
        assert forall|i: int, j: int| 0 <= i < next.len() && 0 <= j < next.len() && i != j implies next[i]
            != next[j] by {
            if i == prev.len() {
                assert(prev.contains(next[j]));
            } else if j == prev.len() {
                assert(prev.contains(next[i]));
            }
        }
    }
}

/// Each language of a set is listed exactly once in its ordered listing, and
/// nothing else is listed.
pub proof fn law_ordered_languages_lists_each_once(set: Set<Language>)
    ensures
        forall|l: Language| set.contains(l) <==> ordered_languages(set).contains(l),
        ordered_languages(set).no_duplicates(),
{
    let s0 = Seq::<Language>::empty();
    let s1 = if set.contains(Language::Cpp) { s0.push(Language::Cpp) } else { s0 };
    let s2 = if set.contains(Language::Python) { s1.push(Language::Python) } else { s1 };
    let s3 = if set.contains(Language::Rust) { s2.push(Language::Rust) } else { s2 };
    assert forall|l: Language| s0.contains(l) <==> set.contains(l) && language_rank(l) < 0 by {}
    lemma_listing_step(s0, set, Language::Cpp);
    lemma_listing_step(s1, set, Language::Python);
    lemma_listing_step(s2, set, Language::Rust);
    lemma_listing_step(s3, set, Language::TypeScript);
}

impl LanguageSet {
    /// The empty set.
    pub fn new() -> (r: Self)
        ensures
            r@ == Set::<Language>::empty(),
    {
        let r = LanguageSet { cpp: false, python: false, rust: false, typescript: false };
        assert(r@ =~= Set::<Language>::empty());
        r
    }

    /// Add a language to the set.
    pub fn insert(&mut self, language: Language)
        ensures
            final(self)@ == old(self)@.insert(language),
    {
        match language {
            Language::Cpp => self.cpp = true,
            Language::Python => self.python = true,
            Language::Rust => self.rust = true,
            Language::TypeScript => self.typescript = true,
        }
        assert(self@ =~= old(self)@.insert(language));
    }

    /// Whether the set holds the language.
    pub fn contains(&self, language: Language) -> (r: bool)
        ensures
            r == self@.contains(language),
    {
        match language {
            Language::Cpp => self.cpp,
            Language::Python => self.python,
            Language::Rust => self.rust,
            Language::TypeScript => self.typescript,
        }
    }

    /// Whether the set is empty.
    pub fn is_empty(&self) -> (r: bool)
        ensures
            r == (self@ == Set::<Language>::empty()),
    {
        let r = !self.cpp && !self.python && !self.rust && !self.typescript;
        if !r {
            if self.cpp {
                assert(self@.contains(Language::Cpp));
            } else if self.python {
                assert(self@.contains(Language::Python));
            } else if self.rust {
                assert(self@.contains(Language::Rust));
            } else {
                assert(self@.contains(Language::TypeScript));
            }
        } else {
            assert(self@ =~= Set::<Language>::empty());
        }
        r
    }

    /// The members of the set, in the order of their names (which is also
    /// the order of their lower-case identifiers).
    pub fn to_vec(&self) -> (r: Vec<Language>)
        ensures
            r@ == ordered_languages(self@),
    {
        let mut r: Vec<Language> = Vec::new();
        if self.cpp {
            r.push(Language::Cpp);
        }
        if self.python {
            r.push(Language::Python);
        }
        if self.rust {
            r.push(Language::Rust);
        }
        if self.typescript {
            r.push(Language::TypeScript);
        }
        assert(self@.contains(Language::Cpp) == self.cpp);
        assert(self@.contains(Language::Python) == self.python);
        assert(self@.contains(Language::Rust) == self.rust);
        assert(self@.contains(Language::TypeScript) == self.typescript);
        r
    }
}

} // verus!
