//! The collector: one recursive-descent pass over the input tree.
//!
//! The pass is specified by a family of spec functions that fold the tree,
//! in source order, over a ghost state of the five entity stores; every
//! collector method is proved to realise exactly that fold. Malformed
//! items (a module with neither marker nor body, a nameless definition, a
//! macro call whose path did not resolve) contribute nothing: lowering
//! never fails, it only omits.

use vstd::prelude::*;
use crate::arena::Arena;
use crate::attr::{atom_attr_present, key_present, key_tokens_mention, Attrs, AttrView};
use crate::path::{ImportAlias, ModPath};
use crate::raw::{
    scope_view, DefData, DefDataView, DefKind, ImplData, ImportData, ImportDataView, MacroData,
    MacroDataView, ModuleData, ModuleDataView, RawItem, RawItemKind, RawItems, RawItemsView,
    RawItemView,
};
use crate::syntax::{
    ExternBlockNode, ExternCrateNode, ExternItemNode, ImplNode, ItemNode, MacroNode, ModuleNode,
    UseLeaf, UseNode,
};
use crate::visibility::{RawVisibility, VisibilityView};

verus! {

/// Ghost state of the five entity stores while a pass is running.
#[verifier::ext_equal]
pub struct StoresView {
    pub modules: Seq<ModuleDataView>,
    pub imports: Seq<ImportDataView>,
    pub defs: Seq<DefDataView>,
    pub macros: Seq<MacroDataView>,
    pub impls: Seq<ImplData>,
}

/// The stores before anything has been collected.
pub open spec fn empty_stores() -> StoresView {
    StoresView {
        modules: Seq::empty(),
        imports: Seq::empty(),
        defs: Seq::empty(),
        macros: Seq::empty(),
        impls: Seq::empty(),
    }
}

/// The import record one flattened use-tree leaf yields: its own path,
/// alias and glob flag, the statement's visibility and prelude flag.
pub open spec fn import_record_of_leaf(
    leaf: UseLeaf,
    is_prelude: bool,
    visibility: VisibilityView,
) -> ImportDataView {
    ImportDataView {
        path: leaf.path@,
        alias: leaf.alias,
        is_glob: leaf.is_glob,
        is_prelude,
        is_extern_crate: false,
        is_macro_use: false,
        visibility,
    }
}

/// What a use statement contributes: one import record per flattened
/// leaf, and one scope entry per record, in leaf order.
pub open spec fn use_item_spec(st: StoresView, u: UseNode) -> (StoresView, Seq<RawItemView>) {
    let is_prelude = atom_attr_present(u.attrs@, "prelude_import"@);
    let base = st.imports.len() as int;
    let records = Seq::new(
        u.leaves@.len(),
        |j: int| import_record_of_leaf(u.leaves@[j], is_prelude, u.visibility@),
    );
    let produced = Seq::new(
        u.leaves@.len(),
        |j: int|
            RawItemView { attrs: u.attrs@, kind: RawItemKind::Import((base + j) as usize) },
    );
    (
        StoresView {
            imports: st.imports + records,
            modules: st.modules,
            defs: st.defs,
            macros: st.macros,
            impls: st.impls,
        },
        produced,
    )
}

/// What an `extern crate` item contributes: nothing without a name
/// reference; otherwise one import record with a single-segment path, the
/// extern-crate flag, a macro-use flag read from its attributes, and an
/// alias that is an underscore placeholder when the rename has no name.
pub open spec fn extern_crate_item_spec(
    st: StoresView,
    e: ExternCrateNode,
) -> (StoresView, Seq<RawItemView>) {
    match e.name_ref {
        Option::None => (st, Seq::empty()),
        Option::Some(name) => {
            let alias = match e.rename {
                Option::None => Option::None,
                Option::Some(rename) => Option::Some(
                    match rename.name {
                        Option::Some(alias_name) => ImportAlias::Alias(alias_name),
                        Option::None => ImportAlias::Underscore,
                    },
                ),
            };
            let record = ImportDataView {
                path: seq![name],
                alias,
                is_glob: false,
                is_prelude: false,
                is_extern_crate: true,
                is_macro_use: atom_attr_present(e.attrs@, "macro_use"@),
                visibility: e.visibility@,
            };
            (
                StoresView {
                    imports: st.imports.push(record),
                    modules: st.modules,
                    defs: st.defs,
                    macros: st.macros,
                    impls: st.impls,
                },
                seq![
                    RawItemView {
                        attrs: e.attrs@,
                        kind: RawItemKind::Import(st.imports.len() as usize),
                    },
                ],
            )
        },
    }
}

/// What an implementation block contributes: one impl record, one entry.
pub open spec fn impl_item_spec(st: StoresView, im: ImplNode) -> (StoresView, Seq<RawItemView>) {
    (
        StoresView {
            impls: st.impls.push(ImplData { ast_id: im.ast_id }),
            modules: st.modules,
            imports: st.imports,
            defs: st.defs,
            macros: st.macros,
        },
        seq![
            RawItemView { attrs: im.attrs@, kind: RawItemKind::Impl(st.impls.len() as usize) },
        ],
    )
}

/// What a named definition contributes: nothing without a name; otherwise
/// one definition record and one entry.
pub open spec fn def_item_spec(
    st: StoresView,
    attrs: Seq<AttrView>,
    visibility: VisibilityView,
    name: Option<String>,
    kind: DefKind,
) -> (StoresView, Seq<RawItemView>) {
    match name {
        Option::None => (st, Seq::empty()),
        Option::Some(name) => (
            StoresView {
                defs: st.defs.push(DefDataView { name, kind, visibility }),
                modules: st.modules,
                imports: st.imports,
                macros: st.macros,
                impls: st.impls,
            },
            seq![RawItemView { attrs, kind: RawItemKind::Def(st.defs.len() as usize) }],
        ),
    }
}

/// What a macro invocation contributes: nothing when its path did not
/// resolve; otherwise one macro record whose flags are read from the
/// attribute set.
pub open spec fn macro_item_spec(st: StoresView, mc: MacroNode) -> (StoresView, Seq<RawItemView>) {
    match mc.path {
        Option::None => (st, Seq::empty()),
        Option::Some(path) => {
            let export = key_present(mc.attrs@, "macro_export"@);
            let local_inner = export && key_tokens_mention(
                mc.attrs@,
                "macro_export"@,
                "local_inner_macros"@,
            );
            let builtin = key_present(mc.attrs@, "rustc_builtin_macro"@);
            let record = MacroDataView {
                ast_id: mc.ast_id,
                path: path@,
                name: mc.name,
                export,
                local_inner,
                builtin,
            };
            (
                StoresView {
                    macros: st.macros.push(record),
                    modules: st.modules,
                    imports: st.imports,
                    defs: st.defs,
                    impls: st.impls,
                },
                seq![
                    RawItemView {
                        attrs: mc.attrs@,
                        kind: RawItemKind::Macro(st.macros.len() as usize),
                    },
                ],
            )
        },
    }
}

/// What one item of an `extern { ... }` block contributes: a function or
/// static definition, under the same name-required-or-dropped rule as a
/// top-level definition.
pub open spec fn extern_item_spec(
    st: StoresView,
    item: ExternItemNode,
) -> (StoresView, Seq<RawItemView>) {
    match item {
        ExternItemNode::Function(d) => def_item_spec(
            st,
            d.attrs@,
            d.visibility@,
            d.name,
            DefKind::Function(d.ast_id),
        ),
        ExternItemNode::Static(d) => def_item_spec(
            st,
            d.attrs@,
            d.visibility@,
            d.name,
            DefKind::Static(d.ast_id),
        ),
    }
}

/// Folds the first `n` items of an `extern { ... }` block, left to right.
pub open spec fn collect_extern_spec(
    st: StoresView,
    items: Seq<ExternItemNode>,
    n: int,
) -> (StoresView, Seq<RawItemView>)
    decreases n,
{
    if n <= 0 || items.len() < n {
        (st, Seq::empty())
    } else {
        let (st1, produced1) = collect_extern_spec(st, items, n - 1);
        let (st2, produced2) = extern_item_spec(st1, items[n - 1]);
        (st2, produced1 + produced2)
    }
}

/// What an `extern { ... }` block contributes: its items, folded into the
/// current scope — an extern block introduces no scope of its own.
pub open spec fn extern_block_spec(
    st: StoresView,
    b: ExternBlockNode,
) -> (StoresView, Seq<RawItemView>) {
    match b.items {
        Option::None => (st, Seq::empty()),
        Option::Some(items) => collect_extern_spec(st, items@, items@.len() as int),
    }
}

/// What a module item contributes. Nameless: nothing. With a terminating
/// marker: a declaration record. With a body: a definition record
/// allocated *before* its body is folded, whose item list is then the
/// body's fold; the module's own entry goes to the enclosing scope.
/// Neither marker nor body: nothing — the malformed module is dropped in
/// silence.
pub open spec fn module_item_spec(st: StoresView, m: ModuleNode) -> (StoresView, Seq<RawItemView>)
    decreases m, 1int,
{
    match m.name {
        Option::None => (st, Seq::empty()),
        Option::Some(name) => {
            if m.has_semicolon {
                let record = ModuleDataView::Declaration {
                    name,
                    visibility: m.visibility@,
                    ast_id: m.ast_id,
                };
                (
                    StoresView {
                        modules: st.modules.push(record),
                        imports: st.imports,
                        defs: st.defs,
                        macros: st.macros,
                        impls: st.impls,
                    },
                    seq![
                        RawItemView {
                            attrs: m.attrs@,
                            kind: RawItemKind::Module(st.modules.len() as usize),
                        },
                    ],
                )
            } else {
                match m.body {
                    Option::None => (st, Seq::empty()),
                    Option::Some(body) => {
                        let idx = st.modules.len() as int;
                        let placeholder = ModuleDataView::Definition {
                            name,
                            visibility: m.visibility@,
                            ast_id: m.ast_id,
                            items: Seq::empty(),
                        };
                        let st1 = StoresView {
                            modules: st.modules.push(placeholder),
                            imports: st.imports,
                            defs: st.defs,
                            macros: st.macros,
                            impls: st.impls,
                        };
                        let (st2, children) = collect_scope_spec(st1, body@, body@.len() as int);
                        let finished = ModuleDataView::Definition {
                            name,
                            visibility: m.visibility@,
                            ast_id: m.ast_id,
                            items: children,
                        };
                        let st3 = StoresView {
                            modules: st2.modules.update(idx, finished),
                            imports: st2.imports,
                            defs: st2.defs,
                            macros: st2.macros,
                            impls: st2.impls,
                        };
                        (
                            st3,
                            seq![
                                RawItemView {
                                    attrs: m.attrs@,
                                    kind: RawItemKind::Module(idx as usize),
                                },
                            ],
                        )
                    },
                }
            }
        },
    }
}

/// What one item contributes to the stores and to its scope's item list.
pub open spec fn collect_item_spec(st: StoresView, item: ItemNode) -> (StoresView, Seq<RawItemView>)
    decreases item, 2int,
{
    match item {
        ItemNode::Module(m) => module_item_spec(st, m),
        ItemNode::Use(u) => use_item_spec(st, u),
        ItemNode::ExternCrate(e) => extern_crate_item_spec(st, e),
        ItemNode::Impl(im) => impl_item_spec(st, im),
        ItemNode::Struct(s) => def_item_spec(
            st,
            s.attrs@,
            s.visibility@,
            s.name,
            DefKind::Struct(s.ast_id, s.shape),
        ),
        ItemNode::Union(d) => def_item_spec(st, d.attrs@, d.visibility@, d.name, DefKind::Union(d.ast_id)),
        ItemNode::Enum(d) => def_item_spec(st, d.attrs@, d.visibility@, d.name, DefKind::Enum(d.ast_id)),
        ItemNode::Function(d) => def_item_spec(
            st,
            d.attrs@,
            d.visibility@,
            d.name,
            DefKind::Function(d.ast_id),
        ),
        ItemNode::Trait(d) => def_item_spec(st, d.attrs@, d.visibility@, d.name, DefKind::Trait(d.ast_id)),
        ItemNode::TypeAlias(d) => def_item_spec(
            st,
            d.attrs@,
            d.visibility@,
            d.name,
            DefKind::TypeAlias(d.ast_id),
        ),
        ItemNode::Const(d) => def_item_spec(st, d.attrs@, d.visibility@, d.name, DefKind::Const(d.ast_id)),
        ItemNode::Static(d) => def_item_spec(st, d.attrs@, d.visibility@, d.name, DefKind::Static(d.ast_id)),
        ItemNode::MacroCall(mc) => macro_item_spec(st, mc),
        ItemNode::ExternBlock(b) => extern_block_spec(st, b),
    }
}

/// Folds the first `n` items of one scope, left to right: the scope's
/// item list is the concatenation, in source order, of what each item
/// contributes.
pub open spec fn collect_scope_spec(
    st: StoresView,
    items: Seq<ItemNode>,
    n: int,
) -> (StoresView, Seq<RawItemView>)
    decreases items, n,
{
    if n <= 0 || items.len() < n {
        (st, Seq::empty())
    } else {
        let (st1, produced1) = collect_scope_spec(st, items, n - 1);
        let (st2, produced2) = collect_item_spec(st1, items[n - 1]);
        (st2, produced1 + produced2)
    }
}

/// The raw item set lowering yields for a file with these top-level
/// items.
pub open spec fn lower_spec(items: Seq<ItemNode>) -> RawItemsView {
    let (st, top) = collect_scope_spec(empty_stores(), items, items.len() as int);
    RawItemsView {
        modules: st.modules,
        imports: st.imports,
        defs: st.defs,
        macros: st.macros,
        impls: st.impls,
        items: top,
    }
}

/// `b` extends `a`: no store ever shrinks during a pass.
pub open spec fn stores_grow(a: StoresView, b: StoresView) -> bool {
    &&& a.modules.len() <= b.modules.len()
    &&& a.imports.len() <= b.imports.len()
    &&& a.defs.len() <= b.defs.len()
    &&& a.macros.len() <= b.macros.len()
    &&& a.impls.len() <= b.impls.len()
}

/// Collecting one module item only appends to the stores.
pub proof fn lemma_module_item_grows(st: StoresView, m: ModuleNode)
    ensures
        stores_grow(st, module_item_spec(st, m).0),
    decreases m, 1int,
{
    match m.name {
        Option::None => {},
        Option::Some(name) => {
            if !m.has_semicolon {
                match m.body {
                    Option::None => {},
                    Option::Some(body) => {
                        let placeholder = ModuleDataView::Definition {
                            name,
                            visibility: m.visibility@,
                            ast_id: m.ast_id,
                            items: Seq::empty(),
                        };
                        let st1 = StoresView {
                            modules: st.modules.push(placeholder),
                            imports: st.imports,
                            defs: st.defs,
                            macros: st.macros,
                            impls: st.impls,
                        };
                        lemma_collect_scope_grows(st1, body@, body@.len() as int);
                    },
                }
            }
        },
    }
}

/// Collecting one item only appends to the stores.
pub proof fn lemma_collect_item_grows(st: StoresView, item: ItemNode)
    ensures
        stores_grow(st, collect_item_spec(st, item).0),
    decreases item, 2int,
{
    match item {
        ItemNode::Module(m) => lemma_module_item_grows(st, m),
        ItemNode::ExternBlock(b) => match b.items {
            Option::None => {},
            Option::Some(items) => lemma_collect_extern_grows(st, items@, items@.len() as int),
        },
        _ => {},
    }
}

/// Folding an extern block's items only appends to the stores.
pub proof fn lemma_collect_extern_grows(st: StoresView, items: Seq<ExternItemNode>, n: int)
    ensures
        stores_grow(st, collect_extern_spec(st, items, n).0),
    decreases n,
{
    if n <= 0 || items.len() < n {
    } else {
        lemma_collect_extern_grows(st, items, n - 1);
    }
}

/// Folding a scope's items only appends to the stores.
pub proof fn lemma_collect_scope_grows(st: StoresView, items: Seq<ItemNode>, n: int)
    ensures
        stores_grow(st, collect_scope_spec(st, items, n).0),
    decreases items, n,
{
    if n <= 0 || items.len() < n {
    } else {
        lemma_collect_scope_grows(st, items, n - 1);
        let (st1, produced1) = collect_scope_spec(st, items, n - 1);
        lemma_collect_item_grows(st1, items[n - 1]);
    }
}

/// The traversal engine: owns the five stores while the single pass over
/// one file's tree is in progress.
struct RawItemsCollector {
    modules: Arena<ModuleData>,
    imports: Arena<ImportData>,
    defs: Arena<DefData>,
    macros: Arena<MacroData>,
    impls: Arena<ImplData>,
}

impl View for RawItemsCollector {
    type V = StoresView;

    closed spec fn view(&self) -> StoresView {
        StoresView {
            modules: self.modules@,
            imports: self.imports@,
            defs: self.defs@,
            macros: self.macros@,
            impls: self.impls@,
        }
    }
}

impl RawItemsCollector {
    fn new() -> (r: RawItemsCollector)
        ensures
            r@ == empty_stores(),
    {
        let r = RawItemsCollector {
            modules: Arena::new(),
            imports: Arena::new(),
            defs: Arena::new(),
            macros: Arena::new(),
            impls: Arena::new(),
        };
        proof {
            assert(r@ =~= empty_stores());
        }
        r
    }

    /// Appends one entry to the scope list under construction.
    fn push_item(attrs: Attrs, kind: RawItemKind, out: &mut Vec<RawItem>)
        ensures
            scope_view(final(out)@) == scope_view(old(out)@).push(
                RawItemView { attrs: attrs@, kind },
            ),
    {
        let ghost entry_view = RawItemView { attrs: attrs@, kind };
        out.push(RawItem { attrs, kind });
        proof {
            assert(scope_view(out@) =~= scope_view(old(out)@).push(entry_view));
        }
    }

    /// Allocates an import record and appends its tag to the scope list.
    fn push_import(&mut self, attrs: Attrs, data: ImportData, out: &mut Vec<RawItem>)
        ensures
            final(self)@ == (StoresView {
                imports: old(self)@.imports.push(data@),
                ..old(self)@
            }),
            scope_view(final(out)@) == scope_view(old(out)@).push(
                RawItemView {
                    attrs: attrs@,
                    kind: RawItemKind::Import(old(self)@.imports.len() as usize),
                },
            ),
    {
        let idx = self.imports.allocate(data);
        Self::push_item(attrs, RawItemKind::Import(idx), out);
        proof {
            assert(self@ =~= (StoresView { imports: old(self)@.imports.push(data@), ..old(self)@ }));
        }
    }

    /// Allocates a definition record and appends its tag, or does nothing
    /// when the definition has no name.
    fn add_def(
        &mut self,
        attrs: &Attrs,
        visibility: &RawVisibility,
        name: &Option<String>,
        kind: DefKind,
        out: &mut Vec<RawItem>,
    )
        ensures
            ({
                let (st, produced) = def_item_spec(old(self)@, attrs@, visibility@, *name, kind);
                final(self)@ == st && scope_view(final(out)@) == scope_view(old(out)@) + produced
            }),
    {
        match name {
            Option::None => {
                proof {
                    assert(scope_view(out@) =~= scope_view(out@) + Seq::<RawItemView>::empty());
                }
            },
            Option::Some(name) => {
                let data = DefData {
                    name: name.clone(),
                    kind,
                    visibility: visibility.clone(),
                };
                let idx = self.defs.allocate(data);
                Self::push_item(attrs.clone(), RawItemKind::Def(idx), out);
                proof {
                    let (st, produced) = def_item_spec(
                        old(self)@,
                        attrs@,
                        visibility@,
                        Option::Some(*name),
                        kind,
                    );
                    assert(self@ =~= st);
                    assert(scope_view(out@) =~= scope_view(old(out)@) + produced);
                }
            },
        }
    }

    /// Allocates an impl record and appends its tag.
    fn add_impl(&mut self, imp: &ImplNode, out: &mut Vec<RawItem>)
        ensures
            ({
                let (st, produced) = impl_item_spec(old(self)@, *imp);
                final(self)@ == st && scope_view(final(out)@) == scope_view(old(out)@) + produced
            }),
    {
        let idx = self.impls.allocate(ImplData { ast_id: imp.ast_id });
        Self::push_item(imp.attrs.clone(), RawItemKind::Impl(idx), out);
        proof {
            let (st, produced) = impl_item_spec(old(self)@, *imp);
            assert(self@ =~= st);
            assert(scope_view(out@) =~= scope_view(old(out)@) + produced);
        }
    }

    /// Allocates a macro record — unless the call's path did not resolve —
    /// computing the export, local-inner and builtin flags from the
    /// attribute set.
    fn add_macro(&mut self, m: &MacroNode, out: &mut Vec<RawItem>)
        ensures
            ({
                let (st, produced) = macro_item_spec(old(self)@, *m);
                final(self)@ == st && scope_view(final(out)@) == scope_view(old(out)@) + produced
            }),
    {
        match &m.path {
            Option::None => {
                proof {
                    assert(scope_view(out@) =~= scope_view(out@) + Seq::<RawItemView>::empty());
                }
            },
            Option::Some(path) => {
                let export_key: String = "macro_export".to_owned();
                let export = m.attrs.by_key_exists(&export_key);
                let local_inner = if export {
                    m.attrs.by_key_tokens_mention(&export_key, "local_inner_macros")
                } else {
                    false
                };
                let builtin_key: String = "rustc_builtin_macro".to_owned();
                let builtin = m.attrs.by_key_exists(&builtin_key);
                let data = MacroData {
                    ast_id: m.ast_id,
                    path: path.clone(),
                    name: match &m.name {
                        Option::None => Option::None,
                        Option::Some(name) => Option::Some(name.clone()),
                    },
                    export,
                    local_inner,
                    builtin,
                };
                let idx = self.macros.allocate(data);
                Self::push_item(m.attrs.clone(), RawItemKind::Macro(idx), out);
                proof {
                    let (st, produced) = macro_item_spec(old(self)@, *m);
                    assert(self@ =~= st);
                    assert(scope_view(out@) =~= scope_view(old(out)@) + produced);
                }
            },
        }
    }

    /// Flattens a use statement: one import record per leaf, every record
    /// sharing the statement's visibility and prelude flag.
    fn add_use_item(&mut self, u: &UseNode, out: &mut Vec<RawItem>)
        ensures
            ({
                let (st, produced) = use_item_spec(old(self)@, *u);
                final(self)@ == st && scope_view(final(out)@) == scope_view(old(out)@) + produced
            }),
    {
        let prelude_key: String = "prelude_import".to_owned();
        let is_prelude = u.attrs.has_atom_attr(&prelude_key);
        let ghost base = old(self)@.imports.len() as int;
        let mut j: usize = 0;
        while j < u.leaves.len()
            invariant
                j <= u.leaves@.len(),
                is_prelude == atom_attr_present(u.attrs@, "prelude_import"@),
                base == old(self)@.imports.len() as int,
                self@ == (StoresView {
                    imports: old(self)@.imports + Seq::new(
                        j as nat,
                        |k: int| import_record_of_leaf(u.leaves@[k], is_prelude, u.visibility@),
                    ),
                    ..old(self)@
                }),
                scope_view(out@) == scope_view(old(out)@) + Seq::new(
                    j as nat,
                    |k: int|
                        RawItemView {
                            attrs: u.attrs@,
                            kind: RawItemKind::Import((base + k) as usize),
                        },
                ),
            decreases u.leaves@.len() - j,
        {
            let leaf = &u.leaves[j];
            let data = ImportData {
                path: leaf.path.clone(),
                alias: match &leaf.alias {
                    Option::None => Option::None,
                    Option::Some(alias) => Option::Some(alias.clone()),
                },
                is_glob: leaf.is_glob,
                is_prelude,
                is_extern_crate: false,
                is_macro_use: false,
                visibility: u.visibility.clone(),
            };
            self.push_import(u.attrs.clone(), data, out);
            proof {
                assert(self@.imports =~= old(self)@.imports + Seq::new(
                    (j + 1) as nat,
                    |k: int| import_record_of_leaf(u.leaves@[k], is_prelude, u.visibility@),
                ));
                assert(scope_view(out@) =~= scope_view(old(out)@) + Seq::new(
                    (j + 1) as nat,
                    |k: int|
                        RawItemView {
                            attrs: u.attrs@,
                            kind: RawItemKind::Import((base + k) as usize),
                        },
                ));
            }
            j += 1;
        }
        proof {
            let (st, produced) = use_item_spec(old(self)@, *u);
            assert(self@ =~= st);
            assert(scope_view(out@) =~= scope_view(old(out)@) + produced);
        }
    }

    /// Lowers an `extern crate` item to a single import record, provided
    /// it has a name reference.
    fn add_extern_crate_item(&mut self, e: &ExternCrateNode, out: &mut Vec<RawItem>)
        ensures
            ({
                let (st, produced) = extern_crate_item_spec(old(self)@, *e);
                final(self)@ == st && scope_view(final(out)@) == scope_view(old(out)@) + produced
            }),
    {
        match &e.name_ref {
            Option::None => {
                proof {
                    assert(scope_view(out@) =~= scope_view(out@) + Seq::<RawItemView>::empty());
                }
            },
            Option::Some(name) => {
                let path = ModPath::from_name(name.clone());
                let alias = match &e.rename {
                    Option::None => Option::None,
                    Option::Some(rename) => Option::Some(
                        match &rename.name {
                            Option::Some(alias_name) => ImportAlias::Alias(alias_name.clone()),
                            Option::None => ImportAlias::Underscore,
                        },
                    ),
                };
                let macro_use_key: String = "macro_use".to_owned();
                let is_macro_use = e.attrs.has_atom_attr(&macro_use_key);
                let data = ImportData {
                    path,
                    alias,
                    is_glob: false,
                    is_prelude: false,
                    is_extern_crate: true,
                    is_macro_use,
                    visibility: e.visibility.clone(),
                };
                self.push_import(e.attrs.clone(), data, out);
                proof {
                    let (st, produced) = extern_crate_item_spec(old(self)@, *e);
                    assert(self@ =~= st);
                    assert(scope_view(out@) =~= scope_view(old(out)@) + produced);
                }
            },
        }
    }

    /// Folds an `extern { ... }` block's functions and statics into the
    /// current scope; the block introduces no scope of its own.
    fn add_extern_block(&mut self, block: &ExternBlockNode, out: &mut Vec<RawItem>)
        ensures
            ({
                let (st, produced) = extern_block_spec(old(self)@, *block);
                final(self)@ == st && scope_view(final(out)@) == scope_view(old(out)@) + produced
            }),
    {
        match &block.items {
            Option::None => {
                proof {
                    assert(scope_view(out@) =~= scope_view(out@) + Seq::<RawItemView>::empty());
                }
            },
            Option::Some(items) => {
                let mut j: usize = 0;
                while j < items.len()
                    invariant
                        j <= items@.len(),
                        ({
                            let (st, produced) = collect_extern_spec(old(self)@, items@, j as int);
                            self@ == st && scope_view(out@) == scope_view(old(out)@) + produced
                        }),
                    decreases items@.len() - j,
                {
                    match &items[j] {
                        ExternItemNode::Function(d) => self.add_def(
                            &d.attrs,
                            &d.visibility,
                            &d.name,
                            DefKind::Function(d.ast_id),
                            out,
                        ),
                        ExternItemNode::Static(d) => self.add_def(
                            &d.attrs,
                            &d.visibility,
                            &d.name,
                            DefKind::Static(d.ast_id),
                            out,
                        ),
                    }
                    j += 1;
                }
            },
        }
    }

    /// Lowers a module item. A declaration is one record; a definition is
    /// allocated first with an empty item list, its body is collected into
    /// that record through its index, and the module's own tag then goes
    /// to the *enclosing* scope. A nameless module, or one with neither
    /// marker nor body, is dropped in silence.
    fn add_module(&mut self, m: &ModuleNode, out: &mut Vec<RawItem>)
        ensures
            ({
                let (st, produced) = module_item_spec(old(self)@, *m);
                final(self)@ == st && scope_view(final(out)@) == scope_view(old(out)@) + produced
            }),
        decreases *m, 1int,
    {
        let name = match &m.name {
            Option::None => {
                proof {
                    assert(scope_view(out@) =~= scope_view(out@) + Seq::<RawItemView>::empty());
                }
                return;
            },
            Option::Some(name) => name,
        };
        if m.has_semicolon {
            let data = ModuleData::Declaration {
                name: name.clone(),
                visibility: m.visibility.clone(),
                ast_id: m.ast_id,
            };
            let idx = self.modules.allocate(data);
            Self::push_item(m.attrs.clone(), RawItemKind::Module(idx), out);
            proof {
                let (st, produced) = module_item_spec(old(self)@, *m);
                assert(self@ =~= st);
                assert(scope_view(out@) =~= scope_view(old(out)@) + produced);
            }
            return;
        }
        match &m.body {
            Option::None => {
                proof {
                    assert(scope_view(out@) =~= scope_view(out@) + Seq::<RawItemView>::empty());
                }
            },
            Option::Some(body) => {
                let placeholder = ModuleData::Definition {
                    name: name.clone(),
                    visibility: m.visibility.clone(),
                    ast_id: m.ast_id,
                    items: Vec::new(),
                };
                let idx = self.modules.allocate(placeholder);
                let children = self.process_module(body);
                proof {
                    let ghost_placeholder = ModuleDataView::Definition {
                        name: *name,
                        visibility: m.visibility@,
                        ast_id: m.ast_id,
                        items: Seq::empty(),
                    };
                    assert(scope_view(Seq::<RawItem>::empty()) =~= Seq::<RawItemView>::empty());
                    assert(old(self)@.modules.push(ghost_placeholder) =~= StoresView {
                        modules: old(self)@.modules.push(ghost_placeholder),
                        ..old(self)@
                    }.modules);
                    lemma_collect_scope_grows(
                        StoresView { modules: old(self)@.modules.push(ghost_placeholder), ..old(self)@ },
                        body@,
                        body@.len() as int,
                    );
                }
                let finished = ModuleData::Definition {
                    name: name.clone(),
                    visibility: m.visibility.clone(),
                    ast_id: m.ast_id,
                    items: children,
                };
                self.modules.set(idx, finished);
                Self::push_item(m.attrs.clone(), RawItemKind::Module(idx), out);
                proof {
                    let (st, produced) = module_item_spec(old(self)@, *m);
                    assert(self@ =~= st);
                    assert(scope_view(out@) =~= scope_view(old(out)@) + produced);
                }
            },
        }
    }

    /// Dispatches one item on its syntax kind.
    fn add_item(&mut self, item: &ItemNode, out: &mut Vec<RawItem>)
        ensures
            ({
                let (st, produced) = collect_item_spec(old(self)@, *item);
                final(self)@ == st && scope_view(final(out)@) == scope_view(old(out)@) + produced
            }),
        decreases *item, 2int,
    {
        match item {
            ItemNode::Module(m) => self.add_module(m, out),
            ItemNode::Use(u) => self.add_use_item(u, out),
            ItemNode::ExternCrate(e) => self.add_extern_crate_item(e, out),
            ItemNode::Impl(imp) => self.add_impl(imp, out),
            ItemNode::Struct(s) => self.add_def(
                &s.attrs,
                &s.visibility,
                &s.name,
                DefKind::Struct(s.ast_id, s.shape),
                out,
            ),
            ItemNode::Union(d) => self.add_def(&d.attrs, &d.visibility, &d.name, DefKind::Union(d.ast_id), out),
            ItemNode::Enum(d) => self.add_def(&d.attrs, &d.visibility, &d.name, DefKind::Enum(d.ast_id), out),
            ItemNode::Function(d) => self.add_def(
                &d.attrs,
                &d.visibility,
                &d.name,
                DefKind::Function(d.ast_id),
                out,
            ),
            ItemNode::Trait(d) => self.add_def(&d.attrs, &d.visibility, &d.name, DefKind::Trait(d.ast_id), out),
            ItemNode::TypeAlias(d) => self.add_def(
                &d.attrs,
                &d.visibility,
                &d.name,
                DefKind::TypeAlias(d.ast_id),
                out,
            ),
            ItemNode::Const(d) => self.add_def(&d.attrs, &d.visibility, &d.name, DefKind::Const(d.ast_id), out),
            ItemNode::Static(d) => self.add_def(&d.attrs, &d.visibility, &d.name, DefKind::Static(d.ast_id), out),
            ItemNode::MacroCall(mc) => self.add_macro(mc, out),
            ItemNode::ExternBlock(b) => self.add_extern_block(b, out),
        }
    }

    /// Collects one scope's items, in source order, returning the scope's
    /// item list.
    fn process_module(&mut self, items: &Vec<ItemNode>) -> (out: Vec<RawItem>)
        ensures
            ({
                let (st, produced) = collect_scope_spec(old(self)@, items@, items@.len() as int);
                final(self)@ == st && scope_view(out@) == produced
            }),
        decreases items@, 0int,
    {
        let mut out: Vec<RawItem> = Vec::new();
        proof {
            assert(scope_view(out@) =~= Seq::<RawItemView>::empty());
        }
        let mut i: usize = 0;
        while i < items.len()
            invariant
                i <= items@.len(),
                ({
                    let (st, produced) = collect_scope_spec(old(self)@, items@, i as int);
                    self@ == st && scope_view(out@) == produced
                }),
            decreases items@.len() - i,
        {
            self.add_item(&items[i], &mut out);
            i += 1;
        }
        out
    }
}

/// Lowers one file's items to its raw item set. This is the entry point
/// the outer incremental engine memoizes per file; the result is a pure
/// function of the tree (oracle answers included), so an unchanged tree
/// lowers to an identical set.
pub fn lower(items: &Vec<ItemNode>) -> (r: RawItems)
    ensures
        r@ == lower_spec(items@),
{
    let mut collector = RawItemsCollector::new();
    let top = collector.process_module(items);
    let RawItemsCollector { modules, imports, defs, macros, impls } = collector;
    let r = RawItems::assemble(modules, imports, defs, macros, impls, top);
    proof {
        assert(r@ =~= lower_spec(items@));
    }
    r
}

} // verus!
