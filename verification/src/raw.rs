//! The raw item set: the result of lowering one file.
//!
//! A raw item set owns five entity stores — modules, imports, definitions,
//! macro invocations, implementation blocks — and the ordered item list of
//! the file's top level. Each module definition owns the ordered item list
//! of its own body. Raw items carry no semantics beyond syntax shape, but
//! unlike syntax they do not change under edits that only touch statement
//! bodies, whitespace or comments.

use vstd::prelude::*;
use crate::arena::Arena;
use crate::attr::{Attrs, AttrView};
use crate::path::{ImportAlias, ModPath};
use crate::visibility::{RawVisibility, VisibilityView};

verus! {

/// The field shape of a struct definition.
#[derive(Clone, Copy, Debug, PartialEq, Eq)]
pub enum StructDefKind {
    Record,
    Tuple,
    Unit,
}

/// What a definition record defines, with the positional id of its syntax
/// node.
#[derive(Clone, Copy, Debug, PartialEq, Eq)]
pub enum DefKind {
    Function(u32),
    Struct(u32, StructDefKind),
    Union(u32),
    Enum(u32),
    Const(u32),
    Static(u32),
    Trait(u32),
    TypeAlias(u32),
}

/// The positional id carried by a definition kind, independent of which
/// kind it is.
pub open spec fn def_kind_ast_id(kind: DefKind) -> u32 {
    match kind {
        DefKind::Function(id) => id,
        DefKind::Struct(id, _) => id,
        DefKind::Union(id) => id,
        DefKind::Enum(id) => id,
        DefKind::Const(id) => id,
        DefKind::Static(id) => id,
        DefKind::Trait(id) => id,
        DefKind::TypeAlias(id) => id,
    }
}

impl DefKind {
    /// The positional id of the definition's syntax node.
    pub fn ast_id(&self) -> (r: u32)
        ensures
            r == def_kind_ast_id(*self),
    {
        match self {
            DefKind::Function(id) => *id,
            DefKind::Struct(id, _) => *id,
            DefKind::Union(id) => *id,
            DefKind::Enum(id) => *id,
            DefKind::Const(id) => *id,
            DefKind::Static(id) => *id,
            DefKind::Trait(id) => *id,
            DefKind::TypeAlias(id) => *id,
        }
    }
}

/// The tag of one scoped-list entry: which entity store its record lives
/// in, and at which index.
#[derive(Clone, Copy, Debug, PartialEq, Eq)]
pub enum RawItemKind {
    Module(usize),
    Import(usize),
    Def(usize),
    Macro(usize),
    Impl(usize),
}

/// One entry of a scoped item list: an attribute set plus an entity tag.
#[derive(Debug, PartialEq, Eq)]
pub struct RawItem {
    pub attrs: Attrs,
    pub kind: RawItemKind,
}

/// Ghost image of a [`RawItem`].
#[verifier::ext_equal]
pub struct RawItemView {
    pub attrs: Seq<AttrView>,
    pub kind: RawItemKind,
}

impl View for RawItem {
    type V = RawItemView;

    open spec fn view(&self) -> RawItemView {
        RawItemView { attrs: self.attrs@, kind: self.kind }
    }
}

/// The ghost image of a scoped item list.
pub open spec fn scope_view(items: Seq<RawItem>) -> Seq<RawItemView> {
    items.map_values(|x: RawItem| x@)
}

/// A module entity: a declaration (`mod m;`, body elsewhere) or a
/// definition (`mod m { ... }`, owning its body's item list). The choice
/// is made once, from the syntax shape, and never changes.
#[derive(Debug, PartialEq, Eq)]
pub enum ModuleData {
    Declaration { name: String, visibility: RawVisibility, ast_id: u32 },
    Definition { name: String, visibility: RawVisibility, ast_id: u32, items: Vec<RawItem> },
}

/// Ghost image of a [`ModuleData`].
#[verifier::ext_equal]
pub enum ModuleDataView {
    Declaration { name: String, visibility: VisibilityView, ast_id: u32 },
    Definition { name: String, visibility: VisibilityView, ast_id: u32, items: Seq<RawItemView> },
}

impl View for ModuleData {
    type V = ModuleDataView;

    open spec fn view(&self) -> ModuleDataView {
        match self {
            ModuleData::Declaration { name, visibility, ast_id } => ModuleDataView::Declaration {
                name: *name,
                visibility: visibility@,
                ast_id: *ast_id,
            },
            ModuleData::Definition { name, visibility, ast_id, items } => ModuleDataView::Definition {
                name: *name,
                visibility: visibility@,
                ast_id: *ast_id,
                items: scope_view(items@),
            },
        }
    }
}

/// An import record. One use statement may yield many of these — one per
/// flattened leaf — all sharing the statement's visibility and prelude
/// flag; an `extern crate` item yields exactly one, with
/// `is_extern_crate` set and no glob or prelude semantics.
#[derive(Debug, PartialEq, Eq)]
pub struct ImportData {
    pub path: ModPath,
    pub alias: Option<ImportAlias>,
    pub is_glob: bool,
    pub is_prelude: bool,
    pub is_extern_crate: bool,
    pub is_macro_use: bool,
    pub visibility: RawVisibility,
}

/// Ghost image of an [`ImportData`].
#[verifier::ext_equal]
pub struct ImportDataView {
    pub path: Seq<String>,
    pub alias: Option<ImportAlias>,
    pub is_glob: bool,
    pub is_prelude: bool,
    pub is_extern_crate: bool,
    pub is_macro_use: bool,
    pub visibility: VisibilityView,
}

impl View for ImportData {
    type V = ImportDataView;

    open spec fn view(&self) -> ImportDataView {
        ImportDataView {
            path: self.path@,
            alias: self.alias,
            is_glob: self.is_glob,
            is_prelude: self.is_prelude,
            is_extern_crate: self.is_extern_crate,
            is_macro_use: self.is_macro_use,
            visibility: self.visibility@,
        }
    }
}

/// A definition record: a named type, function, trait, alias, const or
/// static. Definitions inside an `extern { ... }` block land in the same
/// store with the same kinds as top-level ones.
#[derive(Debug, PartialEq, Eq)]
pub struct DefData {
    pub name: String,
    pub kind: DefKind,
    pub visibility: RawVisibility,
}

/// Ghost image of a [`DefData`].
#[verifier::ext_equal]
pub struct DefDataView {
    pub name: String,
    pub kind: DefKind,
    pub visibility: VisibilityView,
}

impl View for DefData {
    type V = DefDataView;

    open spec fn view(&self) -> DefDataView {
        DefDataView { name: self.name, kind: self.kind, visibility: self.visibility@ }
    }
}

/// A macro invocation record.
#[derive(Debug, PartialEq, Eq)]
pub struct MacroData {
    pub ast_id: u32,
    pub path: ModPath,
    pub name: Option<String>,
    pub export: bool,
    pub local_inner: bool,
    pub builtin: bool,
}

/// Ghost image of a [`MacroData`].
#[verifier::ext_equal]
pub struct MacroDataView {
    pub ast_id: u32,
    pub path: Seq<String>,
    pub name: Option<String>,
    pub export: bool,
    pub local_inner: bool,
    pub builtin: bool,
}

impl View for MacroData {
    type V = MacroDataView;

    open spec fn view(&self) -> MacroDataView {
        MacroDataView {
            ast_id: self.ast_id,
            path: self.path@,
            name: self.name,
            export: self.export,
            local_inner: self.local_inner,
            builtin: self.builtin,
        }
    }
}

/// An implementation-block record; only the block's positional id is
/// retained at this stage.
#[derive(Clone, Copy, Debug, PartialEq, Eq)]
pub struct ImplData {
    pub ast_id: u32,
}

impl View for ImplData {
    type V = ImplData;

    open spec fn view(&self) -> ImplData {
        *self
    }
}

/// Ghost image of a whole [`RawItems`].
#[verifier::ext_equal]
pub struct RawItemsView {
    pub modules: Seq<ModuleDataView>,
    pub imports: Seq<ImportDataView>,
    pub defs: Seq<DefDataView>,
    pub macros: Seq<MacroDataView>,
    pub impls: Seq<ImplData>,
    pub items: Seq<RawItemView>,
}

/// The set of raw items of one file: the five entity stores plus the
/// top-level item list. It is built in one pass and never mutated
/// afterwards; indices into its stores stay valid for its whole lifetime.
#[derive(Debug, PartialEq, Eq)]
pub struct RawItems {
    pub(crate) modules: Arena<ModuleData>,
    pub(crate) imports: Arena<ImportData>,
    pub(crate) defs: Arena<DefData>,
    pub(crate) macros: Arena<MacroData>,
    pub(crate) impls: Arena<ImplData>,
    pub(crate) items: Vec<RawItem>,
}

impl View for RawItems {
    type V = RawItemsView;

    closed spec fn view(&self) -> RawItemsView {
        RawItemsView {
            modules: self.modules@,
            imports: self.imports@,
            defs: self.defs@,
            macros: self.macros@,
            impls: self.impls@,
            items: scope_view(self.items@),
        }
    }
}

impl RawItems {
    /// The item list of the file's top level.
    pub fn items(&self) -> (r: &Vec<RawItem>)
        ensures
            scope_view(r@) == self@.items,
    {
        &self.items
    }

    /// Resolves a module tag's index.
    pub fn module_data(&self, idx: usize) -> (r: &ModuleData)
        requires
            idx < self@.modules.len(),
        ensures
            r@ == self@.modules[idx as int],
    {
        self.modules.get(idx)
    }

    /// Resolves an import tag's index.
    pub fn import_data(&self, idx: usize) -> (r: &ImportData)
        requires
            idx < self@.imports.len(),
        ensures
            r@ == self@.imports[idx as int],
    {
        self.imports.get(idx)
    }

    /// Resolves a definition tag's index.
    pub fn def_data(&self, idx: usize) -> (r: &DefData)
        requires
            idx < self@.defs.len(),
        ensures
            r@ == self@.defs[idx as int],
    {
        self.defs.get(idx)
    }

    /// Resolves a macro tag's index.
    pub fn macro_data(&self, idx: usize) -> (r: &MacroData)
        requires
            idx < self@.macros.len(),
        ensures
            r@ == self@.macros[idx as int],
    {
        self.macros.get(idx)
    }

    /// Resolves an impl tag's index.
    pub fn impl_data(&self, idx: usize) -> (r: &ImplData)
        requires
            idx < self@.impls.len(),
        ensures
            r@ == self@.impls[idx as int],
    {
        self.impls.get(idx)
    }

    /// Number of module entities.
    pub fn module_count(&self) -> (n: usize)
        ensures
            n == self@.modules.len(),
    {
        self.modules.len()
    }

    /// Number of import records.
    pub fn import_count(&self) -> (n: usize)
        ensures
            n == self@.imports.len(),
    {
        self.imports.len()
    }

    /// Number of definition records.
    pub fn def_count(&self) -> (n: usize)
        ensures
            n == self@.defs.len(),
    {
        self.defs.len()
    }

    /// Number of macro-invocation records.
    pub fn macro_count(&self) -> (n: usize)
        ensures
            n == self@.macros.len(),
    {
        self.macros.len()
    }

    /// Number of implementation-block records.
    pub fn impl_count(&self) -> (n: usize)
        ensures
            n == self@.impls.len(),
    {
        self.impls.len()
    }

    /// Assembles a raw item set from its finished parts.
    pub(crate) fn assemble(
        modules: Arena<ModuleData>,
        imports: Arena<ImportData>,
        defs: Arena<DefData>,
        macros: Arena<MacroData>,
        impls: Arena<ImplData>,
        items: Vec<RawItem>,
    ) -> (r: RawItems)
        ensures
            r@ == (RawItemsView {
                modules: modules@,
                imports: imports@,
                defs: defs@,
                macros: macros@,
                impls: impls@,
                items: scope_view(items@),
            }),
    {
        RawItems { modules, imports, defs, macros, impls, items }
    }
}

} // verus!
