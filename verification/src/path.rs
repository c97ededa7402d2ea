//! Paths and import aliases.
//!
//! The hygiene oracle hands the library already-resolved paths; the only
//! path the library builds itself is the single-segment path of an
//! `extern crate` item. A path is therefore just its segment names.

use vstd::prelude::*;

verus! {

/// A resolved path, as a sequence of segment names.
#[derive(Debug, PartialEq, Eq)]
pub struct ModPath {
    pub segments: Vec<String>,
}

impl View for ModPath {
    type V = Seq<String>;

    open spec fn view(&self) -> Seq<String> {
        self.segments@
    }
}

impl ModPath {
    /// The single-segment path naming `name`, as an `extern crate` item
    /// refers to its crate.
    pub fn from_name(name: String) -> (r: ModPath)
        ensures
            r@ == seq![name],
    {
        let mut segments: Vec<String> = Vec::new();
        segments.push(name);
        proof {
            assert(segments@ =~= seq![segments@[0]]);
        }
        ModPath { segments }
    }
}

impl Clone for ModPath {
    fn clone(&self) -> (r: Self)
        ensures
            r@ == self@,
    {
        let mut segments: Vec<String> = Vec::new();
        let mut i: usize = 0;
        while i < self.segments.len()
            invariant
                i <= self.segments@.len(),
                segments@ == self.segments@.subrange(0, i as int),
            decreases self.segments@.len() - i,
        {
            segments.push(self.segments[i].clone());
            proof {
                assert(segments@ =~= self.segments@.subrange(0, i + 1));
            }
            i += 1;
        }
        proof {
            assert(self.segments@.subrange(0, self.segments@.len() as int) =~= self.segments@);
        }
        ModPath { segments }
    }
}

/// How an import renames what it brings in: an explicit alias name, or an
/// underscore placeholder (`as _`).
#[derive(Debug, PartialEq, Eq)]
pub enum ImportAlias {
    Alias(String),
    Underscore,
}

impl Clone for ImportAlias {
    fn clone(&self) -> (r: Self)
        ensures
            r == *self,
    {
        match self {
            ImportAlias::Alias(name) => ImportAlias::Alias(name.clone()),
            ImportAlias::Underscore => ImportAlias::Underscore,
        }
    }
}

} // verus!
