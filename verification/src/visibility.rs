//! Resolved visibility values.
//!
//! Visibility is resolved by the hygiene oracle before lowering sees it;
//! the lowered records merely carry the resolved value: either `pub`, or a
//! restriction to the module a path names (`pub(crate)`, `pub(super)` and
//! friends resolve to such a path; so does private visibility).

use vstd::prelude::*;
use crate::path::ModPath;

verus! {

/// A resolved visibility: restricted to a module, or public.
#[derive(Debug, PartialEq, Eq)]
pub enum RawVisibility {
    Module(ModPath),
    Public,
}

/// Ghost image of a [`RawVisibility`], with the path as a sequence.
pub enum VisibilityView {
    Module(Seq<String>),
    Public,
}

impl View for RawVisibility {
    type V = VisibilityView;

    open spec fn view(&self) -> VisibilityView {
        match self {
            RawVisibility::Module(path) => VisibilityView::Module(path@),
            RawVisibility::Public => VisibilityView::Public,
        }
    }
}

impl Clone for RawVisibility {
    fn clone(&self) -> (r: Self)
        ensures
            r@ == self@,
    {
        match self {
            RawVisibility::Module(path) => RawVisibility::Module(path.clone()),
            RawVisibility::Public => RawVisibility::Public,
        }
    }
}

} // verus!
