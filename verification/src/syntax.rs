//! The lowered view of one file's parsed syntax tree.
//!
//! Lowering does not walk raw syntax: the parser and the oracles around it
//! (the positional-identity service, the hygiene context, the attribute
//! parser, the use-tree flattener) run first, and the tree handed to
//! lowering carries their answers as plain values — every node already has
//! its attribute set, its resolved visibility and its positional id, and a
//! use statement already lists its flattened leaf paths. Anything a
//! malformed item lacks (a name, a path, a body) is an `Option` left empty.

use vstd::prelude::*;
use crate::attr::Attrs;
use crate::path::{ImportAlias, ModPath};
use crate::raw::StructDefKind;
use crate::visibility::RawVisibility;

verus! {

/// A `mod` item: `mod name;` (terminating marker, no body) or
/// `mod name { ... }` (inline body). A malformed module may lack a name,
/// or lack both the marker and the body.
pub struct ModuleNode {
    pub attrs: Attrs,
    pub visibility: RawVisibility,
    pub name: Option<String>,
    pub ast_id: u32,
    pub has_semicolon: bool,
    pub body: Option<Vec<ItemNode>>,
}

/// One flattened leaf of a use statement, as the use-tree flattening
/// oracle reports it: a path, an optional alias, and whether this branch
/// was a glob (`::*`).
pub struct UseLeaf {
    pub path: ModPath,
    pub alias: Option<ImportAlias>,
    pub is_glob: bool,
}

/// A `use` statement, with its flattened leaves.
pub struct UseNode {
    pub attrs: Attrs,
    pub visibility: RawVisibility,
    pub leaves: Vec<UseLeaf>,
}

/// The `as ...` rename of an `extern crate` item; the name is absent for
/// the underscore form (`as _`).
pub struct RenameNode {
    pub name: Option<String>,
}

/// An `extern crate` item. The crate name reference may be absent in
/// malformed source.
pub struct ExternCrateNode {
    pub attrs: Attrs,
    pub visibility: RawVisibility,
    pub name_ref: Option<String>,
    pub rename: Option<RenameNode>,
}

/// An `impl` block; nothing inside it is inspected.
pub struct ImplNode {
    pub attrs: Attrs,
    pub ast_id: u32,
}

/// A named definition item (union, enum, function, trait, type alias,
/// const or static). The name is absent in malformed source.
pub struct DefItemNode {
    pub attrs: Attrs,
    pub visibility: RawVisibility,
    pub name: Option<String>,
    pub ast_id: u32,
}

/// A struct definition, which additionally carries its field shape.
pub struct StructNode {
    pub attrs: Attrs,
    pub visibility: RawVisibility,
    pub name: Option<String>,
    pub ast_id: u32,
    pub shape: StructDefKind,
}

/// A macro invocation site. The path is the hygiene oracle's resolution of
/// the macro path and is absent when that fails; the name is the `name` in
/// `macro_rules! name { ... }`-style invocations.
pub struct MacroNode {
    pub attrs: Attrs,
    pub ast_id: u32,
    pub path: Option<ModPath>,
    pub name: Option<String>,
}

/// An item inside an `extern { ... }` block: only functions and statics
/// occur there.
pub enum ExternItemNode {
    Function(DefItemNode),
    Static(DefItemNode),
}

/// An `extern { ... }` block; the item list is absent in malformed source.
pub struct ExternBlockNode {
    pub items: Option<Vec<ExternItemNode>>,
}

/// One top-level or module-level item of the source file.
pub enum ItemNode {
    Module(ModuleNode),
    Use(UseNode),
    ExternCrate(ExternCrateNode),
    Impl(ImplNode),
    Struct(StructNode),
    Union(DefItemNode),
    Enum(DefItemNode),
    Function(DefItemNode),
    Trait(DefItemNode),
    TypeAlias(DefItemNode),
    Const(DefItemNode),
    Static(DefItemNode),
    MacroCall(MacroNode),
    ExternBlock(ExternBlockNode),
}

} // verus!
