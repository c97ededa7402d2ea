//! Parsed attribute sets.
//!
//! The attribute-parsing oracle turns an item's attribute list into this
//! key-indexed form before lowering runs. Lowering asks three questions of
//! it: is a bare marker attribute present (`#[key]` with no argument), is
//! any attribute with a key present at all, and does an identifier token
//! inside a keyed attribute's argument list *contain* a marker substring.
//! The last is deliberately a substring match on identifier text, not an
//! exact-token comparison.

use vstd::prelude::*;
use crate::text::{contains_seq, str_contains};

verus! {

/// One leaf or subtree of an attribute's argument token list. Only
/// identifier text is ever inspected by lowering; every other token shape
/// is kept as [`AttrToken::Other`].
#[derive(Debug, PartialEq, Eq)]
pub enum AttrToken {
    Ident(String),
    Other,
}

impl Clone for AttrToken {
    fn clone(&self) -> (r: Self)
        ensures
            r == *self,
    {
        match self {
            AttrToken::Ident(text) => AttrToken::Ident(text.clone()),
            AttrToken::Other => AttrToken::Other,
        }
    }
}

/// The argument of an attribute: a literal (`#[key = "..."]`) or a token
/// list (`#[key(...)]`).
#[derive(Debug, PartialEq, Eq)]
pub enum AttrInput {
    Literal(String),
    Tokens(Vec<AttrToken>),
}

/// Ghost image of an [`AttrInput`], with the token list as a sequence.
pub enum AttrInputView {
    Literal(String),
    Tokens(Seq<AttrToken>),
}

impl View for AttrInput {
    type V = AttrInputView;

    open spec fn view(&self) -> AttrInputView {
        match self {
            AttrInput::Literal(text) => AttrInputView::Literal(*text),
            AttrInput::Tokens(tokens) => AttrInputView::Tokens(tokens@),
        }
    }
}

impl Clone for AttrInput {
    fn clone(&self) -> (r: Self)
        ensures
            r@ == self@,
    {
        match self {
            AttrInput::Literal(text) => AttrInput::Literal(text.clone()),
            AttrInput::Tokens(tokens) => {
                let mut cloned: Vec<AttrToken> = Vec::new();
                let mut i: usize = 0;
                while i < tokens.len()
                    invariant
                        i <= tokens@.len(),
                        cloned@ == tokens@.subrange(0, i as int),
                    decreases tokens@.len() - i,
                {
                    cloned.push(tokens[i].clone());
                    proof {
                        assert(cloned@ =~= tokens@.subrange(0, i + 1));
                    }
                    i += 1;
                }
                proof {
                    assert(tokens@.subrange(0, tokens@.len() as int) =~= tokens@);
                }
                AttrInput::Tokens(cloned)
            },
        }
    }
}

/// One attribute: a single-identifier key, and an optional argument.
#[derive(Debug, PartialEq, Eq)]
pub struct Attr {
    pub key: String,
    pub input: Option<AttrInput>,
}

/// Ghost image of an [`Attr`].
pub struct AttrView {
    pub key: String,
    pub input: Option<AttrInputView>,
}

impl View for Attr {
    type V = AttrView;

    open spec fn view(&self) -> AttrView {
        AttrView {
            key: self.key,
            input: match self.input {
                Option::None => Option::None,
                Option::Some(input) => Option::Some(input@),
            },
        }
    }
}

impl Clone for Attr {
    fn clone(&self) -> (r: Self)
        ensures
            r@ == self@,
    {
        Attr {
            key: self.key.clone(),
            input: match &self.input {
                Option::None => Option::None,
                Option::Some(input) => Option::Some(input.clone()),
            },
        }
    }
}

/// The attribute set of one item, in source order.
#[derive(Debug, PartialEq, Eq)]
pub struct Attrs {
    pub entries: Vec<Attr>,
}

impl View for Attrs {
    type V = Seq<AttrView>;

    open spec fn view(&self) -> Seq<AttrView> {
        self.entries@.map_values(|a: Attr| a@)
    }
}

impl Clone for Attrs {
    fn clone(&self) -> (r: Self)
        ensures
            r@ == self@,
    {
        let mut entries: Vec<Attr> = Vec::new();
        let mut i: usize = 0;
        while i < self.entries.len()
            invariant
                i <= self.entries@.len(),
                entries@.len() == i,
                forall|k: int| 0 <= k < i ==> #[trigger] entries@[k]@ == self.entries@[k]@,
            decreases self.entries@.len() - i,
        {
            entries.push(self.entries[i].clone());
            i += 1;
        }
        let r = Attrs { entries };
        proof {
            assert(r@ =~= self@);
        }
        r
    }
}

/// A token mentions the needle: it is an identifier whose text contains it.
pub open spec fn token_mentions(token: AttrToken, needle: Seq<char>) -> bool {
    match token {
        AttrToken::Ident(text) => contains_seq(text@, needle),
        AttrToken::Other => false,
    }
}

/// The argument token list of an attribute, empty when the attribute has
/// no token-list argument.
pub open spec fn attr_tokens_of(attr: AttrView) -> Seq<AttrToken> {
    match attr.input {
        Option::Some(AttrInputView::Tokens(tokens)) => tokens,
        _ => Seq::empty(),
    }
}

/// Some identifier among the attribute's argument tokens mentions the
/// needle.
pub open spec fn attr_tokens_mention(attr: AttrView, needle: Seq<char>) -> bool {
    exists|j: int|
        0 <= j < attr_tokens_of(attr).len() && token_mentions(
            #[trigger] attr_tokens_of(attr)[j],
            needle,
        )
}

/// A bare marker attribute with this key is present (`#[key]`, no
/// argument).
pub open spec fn atom_attr_present(attrs: Seq<AttrView>, key: Seq<char>) -> bool {
    exists|i: int| 0 <= i < attrs.len() && (#[trigger] attrs[i]).key@ == key && attrs[i].input is None
}

/// Some attribute with this key is present, whatever its argument.
pub open spec fn key_present(attrs: Seq<AttrView>, key: Seq<char>) -> bool {
    exists|i: int| 0 <= i < attrs.len() && (#[trigger] attrs[i]).key@ == key
}

/// Some attribute with this key has an identifier argument token that
/// contains the needle.
pub open spec fn key_tokens_mention(attrs: Seq<AttrView>, key: Seq<char>, needle: Seq<char>) -> bool {
    exists|i: int|
        0 <= i < attrs.len() && (#[trigger] attrs[i]).key@ == key && attr_tokens_mention(
            attrs[i],
            needle,
        )
}

impl Attrs {
    /// Is the bare marker attribute `#[key]` present?
    pub fn has_atom_attr(&self, key: &String) -> (r: bool)
        ensures
            r == atom_attr_present(self@, key@),
    {
        let mut i: usize = 0;
        while i < self.entries.len()
            invariant
                i <= self.entries@.len(),
                forall|k: int|
                    0 <= k < i ==> !((#[trigger] self@[k]).key@ == key@ && self@[k].input is None),
            decreases self.entries@.len() - i,
        {
            let entry = &self.entries[i];
            if entry.key == *key && entry.input.is_none() {
                proof {
                    assert((self@[i as int]).key@ == key@ && self@[i as int].input is None);
                }
                return true;
            }
            i += 1;
        }
        false
    }

    /// Is any attribute with this key present?
    pub fn by_key_exists(&self, key: &String) -> (r: bool)
        ensures
            r == key_present(self@, key@),
    {
        let mut i: usize = 0;
        while i < self.entries.len()
            invariant
                i <= self.entries@.len(),
                forall|k: int| 0 <= k < i ==> (#[trigger] self@[k]).key@ != key@,
            decreases self.entries@.len() - i,
        {
            let entry = &self.entries[i];
            if entry.key == *key {
                proof {
                    assert((self@[i as int]).key@ == key@);
                }
                return true;
            }
            i += 1;
        }
        false
    }

    /// Does an identifier token in the argument list of any attribute with
    /// this key contain the needle as a substring?
    pub fn by_key_tokens_mention(&self, key: &String, needle: &str) -> (r: bool)
        ensures
            r == key_tokens_mention(self@, key@, needle@),
    {
        let mut i: usize = 0;
        while i < self.entries.len()
            invariant
                i <= self.entries@.len(),
                forall|k: int|
                    0 <= k < i ==> !((#[trigger] self@[k]).key@ == key@ && attr_tokens_mention(
                        self@[k],
                        needle@,
                    )),
            decreases self.entries@.len() - i,
        {
            let entry = &self.entries[i];
            if entry.key == *key {
                match &entry.input {
                    Option::Some(AttrInput::Tokens(tokens)) => {
                        let mut j: usize = 0;
                        while j < tokens.len()
                            invariant
                                i < self.entries@.len(),
                                (self@[i as int]).key@ == key@,
                                (self@[i as int]).input == Option::Some(
                                    AttrInputView::Tokens(tokens@),
                                ),
                                j <= tokens@.len(),
                                forall|l: int|
                                    0 <= l < j ==> !token_mentions(#[trigger] tokens@[l], needle@),
                            decreases tokens@.len() - j,
                        {
                            let hit = match &tokens[j] {
                                AttrToken::Ident(text) => str_contains(text.as_str(), needle),
                                AttrToken::Other => false,
                            };
                            if hit {
                                proof {
                                    assert(token_mentions(tokens@[j as int], needle@));
                                    assert(attr_tokens_of(self@[i as int]) == tokens@);
                                    assert(token_mentions(
                                        attr_tokens_of(self@[i as int])[j as int],
                                        needle@,
                                    ));
                                    assert(attr_tokens_mention(self@[i as int], needle@));
                                    assert((self@[i as int]).key@ == key@);
                                }
                                return true;
                            }
                            j += 1;
                        }
                        proof {
                            assert(attr_tokens_of(self@[i as int]) == tokens@);
                            assert(!attr_tokens_mention(self@[i as int], needle@));
                        }
                    },
                    _ => {
                        proof {
                            assert(!attr_tokens_mention(self@[i as int], needle@));
                        }
                    },
                }
            }
            i += 1;
        }
        false
    }
}

} // verus!
