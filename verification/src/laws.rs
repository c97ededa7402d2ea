//! Laws of the lowering pass.
//!
//! Each proof function here states one guarantee of the collector as a
//! theorem over the fold in [`crate::collect`]: determinism and index
//! stability, order preservation, completeness of use-tree flattening,
//! silence on malformed modules, the macro flag derivation and the
//! extern-crate alias rule.

use vstd::prelude::*;
use vstd::seq_lib::*;
use crate::attr::{atom_attr_present, key_present, key_tokens_mention};
use crate::collect::{
    collect_extern_spec, collect_item_spec, collect_scope_spec, empty_stores,
    extern_crate_item_spec, extern_item_spec, lemma_collect_extern_grows,
    lemma_collect_item_grows, lemma_collect_scope_grows, lemma_module_item_grows, lower_spec,
    macro_item_spec, module_item_spec, stores_grow, use_item_spec, StoresView,
};
use crate::path::ImportAlias;
use crate::raw::{ModuleDataView, RawItemKind, RawItemsView, RawItemView};
use crate::syntax::{ExternCrateNode, ExternItemNode, ItemNode, MacroNode, ModuleNode, UseNode};

verus! {

/// Determinism: lowering is a function of the tree alone, so two raw item
/// sets lowered from the same items are identical — stores, indices and
/// scope lists alike.
pub proof fn lemma_lower_deterministic(
    items: Seq<ItemNode>,
    r1: RawItemsView,
    r2: RawItemsView,
)
    requires
        r1 == lower_spec(items),
        r2 == lower_spec(items),
    ensures
        r1 == r2,
{
}

/// Stable indices under a no-op rebuild: lowering the same unchanged
/// items twice yields equal entity counts and equal tag sequences.
pub proof fn lemma_stable_indices(items: Seq<ItemNode>, r1: RawItemsView, r2: RawItemsView)
    requires
        r1 == lower_spec(items),
        r2 == lower_spec(items),
    ensures
        r1.modules.len() == r2.modules.len(),
        r1.imports.len() == r2.imports.len(),
        r1.defs.len() == r2.defs.len(),
        r1.macros.len() == r2.macros.len(),
        r1.impls.len() == r2.impls.len(),
        r1.items == r2.items,
{
}

/// One step of the scope fold: the list after `n` items extends the list
/// after `n - 1` items by exactly what item `n - 1` contributes.
pub proof fn lemma_collect_scope_step(st: StoresView, items: Seq<ItemNode>, n: int)
    requires
        0 < n <= items.len(),
    ensures
        ({
            let (st1, produced1) = collect_scope_spec(st, items, n - 1);
            let (st2, produced2) = collect_item_spec(st1, items[n - 1]);
            collect_scope_spec(st, items, n) == (st2, produced1 + produced2)
        }),
{
}

/// Order preservation, prefix form: the scope list of a longer prefix of
/// the source extends the scope list of a shorter one — entries appear
/// grouped per item, in source order.
pub proof fn lemma_scope_order(st: StoresView, items: Seq<ItemNode>, i: int, n: int)
    requires
        0 <= i <= n <= items.len(),
    ensures
        collect_scope_spec(st, items, i).1.is_prefix_of(collect_scope_spec(st, items, n).1),
    decreases n - i,
{
    if i < n {
        lemma_scope_order(st, items, i, n - 1);
        let (st1, produced1) = collect_scope_spec(st, items, n - 1);
        let (st2, produced2) = collect_item_spec(st1, items[n - 1]);
        assert(collect_scope_spec(st, items, i).1.is_prefix_of(produced1 + produced2));
    }
}

/// Every scope entry an item contributes carries the tag kind of that
/// item's syntax kind.
pub open spec fn entry_matches_item(entry: RawItemView, item: ItemNode) -> bool {
    match item {
        ItemNode::Module(_) => entry.kind is Module,
        ItemNode::Use(_) => entry.kind is Import,
        ItemNode::ExternCrate(_) => entry.kind is Import,
        ItemNode::Impl(_) => entry.kind is Impl,
        ItemNode::MacroCall(_) => entry.kind is Macro,
        _ => entry.kind is Def,
    }
}

/// The entries of an extern block's fold are all definition tags.
pub proof fn lemma_extern_entries_are_defs(st: StoresView, items: Seq<ExternItemNode>, n: int)
    ensures
        forall|k: int|
            0 <= k < collect_extern_spec(st, items, n).1.len() ==> (#[trigger] collect_extern_spec(
                st,
                items,
                n,
            ).1[k]).kind is Def,
    decreases n,
{
    if n <= 0 || items.len() < n {
    } else {
        lemma_extern_entries_are_defs(st, items, n - 1);
    }
}

/// Order preservation, kind form: an item's scope entries all point into
/// the store that matches the item's syntax kind.
pub proof fn lemma_item_entries_match(st: StoresView, item: ItemNode)
    ensures
        forall|k: int|
            0 <= k < collect_item_spec(st, item).1.len() ==> entry_matches_item(
                #[trigger] collect_item_spec(st, item).1[k],
                item,
            ),
{
    match item {
        ItemNode::ExternBlock(b) => {
            match b.items {
                Option::None => {},
                Option::Some(xs) => {
                    lemma_extern_entries_are_defs(st, xs@, xs@.len() as int);
                },
            }
        },
        _ => {},
    }
}

/// Glob/group flattening completeness: a use statement with `n` flattened
/// leaves yields exactly `n` import records and `n` scope entries, in
/// leaf order; each record carries its own leaf's path, alias and glob
/// flag and the statement's shared visibility and prelude flag, and is
/// neither an extern-crate nor a macro-use import.
pub proof fn lemma_use_flattening(st: StoresView, u: UseNode)
    ensures
        ({
            let (st2, produced) = use_item_spec(st, u);
            &&& st2.imports.len() == st.imports.len() + u.leaves@.len()
            &&& produced.len() == u.leaves@.len()
            &&& forall|j: int|
                0 <= j < u.leaves@.len() ==> {
                    let record = st2.imports[st.imports.len() + j];
                    &&& record.path == (#[trigger] u.leaves@[j]).path@
                    &&& record.alias == u.leaves@[j].alias
                    &&& record.is_glob == u.leaves@[j].is_glob
                    &&& record.is_prelude == atom_attr_present(u.attrs@, "prelude_import"@)
                    &&& record.visibility == u.visibility@
                    &&& !record.is_extern_crate
                    &&& !record.is_macro_use
                    &&& produced[j] == (RawItemView {
                        attrs: u.attrs@,
                        kind: RawItemKind::Import((st.imports.len() + j) as usize),
                    })
                }
        }),
{
}

/// Folds over agreeing prefixes agree: only the first `n` items matter.
pub proof fn lemma_collect_scope_prefix_agree(
    st: StoresView,
    items1: Seq<ItemNode>,
    items2: Seq<ItemNode>,
    n: int,
)
    requires
        n <= items1.len(),
        n <= items2.len(),
        forall|k: int| 0 <= k < n ==> items1[k] == items2[k],
    ensures
        collect_scope_spec(st, items1, n) == collect_scope_spec(st, items2, n),
    decreases n,
{
    if n > 0 {
        lemma_collect_scope_prefix_agree(st, items1, items2, n - 1);
    }
}

/// The fold over a concatenation of scopes is the fold over the first
/// part, continued over the second.
pub proof fn lemma_collect_scope_append(st: StoresView, a: Seq<ItemNode>, b: Seq<ItemNode>)
    ensures
        ({
            let (st1, produced1) = collect_scope_spec(st, a, a.len() as int);
            let (st2, produced2) = collect_scope_spec(st1, b, b.len() as int);
            collect_scope_spec(st, a + b, (a.len() + b.len()) as int) == (st2, produced1
                + produced2)
        }),
    decreases b.len(),
{
    let (st1, produced1) = collect_scope_spec(st, a, a.len() as int);
    if b.len() == 0 {
        assert(a + b =~= a);
        assert(produced1 + Seq::<RawItemView>::empty() =~= produced1);
    } else {
        let bshort = b.drop_last();
        lemma_collect_scope_append(st, a, bshort);
        let whole = a + b;
        let n = (a.len() + b.len()) as int;
        lemma_collect_scope_prefix_agree(st, whole, a + bshort, n - 1);
        lemma_collect_scope_prefix_agree(st1, b, bshort, b.len() as int - 1);
        assert(a + bshort =~= (a + b).subrange(0, n - 1));
        assert((a + bshort).len() == n - 1);
        assert(whole[n - 1] == b[b.len() - 1]);
        let (stm, producedm) = collect_scope_spec(st1, b, b.len() as int - 1);
        let (st2, produced2) = collect_item_spec(stm, b[b.len() - 1]);
        assert(collect_scope_spec(st, whole, n) == (st2, (produced1 + producedm) + produced2));
        assert((produced1 + producedm) + produced2 =~= produced1 + (producedm + produced2));
        assert(collect_scope_spec(st1, b, b.len() as int) == (st2, producedm + produced2));
    }
}

/// A malformed module — no name, or neither terminating marker nor body —
/// contributes nothing at all.
pub proof fn lemma_malformed_module_contributes_nothing(st: StoresView, m: ModuleNode)
    requires
        m.name is None || (!m.has_semicolon && m.body is None),
    ensures
        collect_item_spec(st, ItemNode::Module(m)) == (st, Seq::<RawItemView>::empty()),
{
}

/// Malformed-module silence: a module with neither marker nor body can be
/// dropped from a scope without changing anything — the siblings before
/// and after it are collected exactly as if it were not there.
pub proof fn lemma_malformed_module_silent(
    st: StoresView,
    before: Seq<ItemNode>,
    m: ModuleNode,
    after: Seq<ItemNode>,
)
    requires
        m.name is None || (!m.has_semicolon && m.body is None),
    ensures
        collect_scope_spec(
            st,
            before + seq![ItemNode::Module(m)] + after,
            (before.len() + 1 + after.len()) as int,
        ) == collect_scope_spec(st, before + after, (before.len() + after.len()) as int),
{
    let bad = seq![ItemNode::Module(m)];
    lemma_collect_scope_append(st, before, bad);
    let (st1, produced1) = collect_scope_spec(st, before, before.len() as int);
    assert(collect_scope_spec(st1, bad, 1) == (st1, Seq::<RawItemView>::empty() + Seq::<
        RawItemView,
    >::empty())) by {
        reveal_with_fuel(collect_scope_spec, 2);
        assert(bad[0] == ItemNode::Module(m));
        lemma_malformed_module_contributes_nothing(st1, m);
    }
    assert(Seq::<RawItemView>::empty() + Seq::<RawItemView>::empty() =~= Seq::<
        RawItemView,
    >::empty());
    lemma_collect_scope_append(st, before + bad, after);
    lemma_collect_scope_append(st, before, after);
    assert(before + bad + after == (before + bad) + after);
    assert(produced1 + Seq::<RawItemView>::empty() =~= produced1);
}

/// Macro flag derivation: the record of a macro call whose path resolved
/// has `export` exactly when an export-marker attribute is present,
/// `local_inner` exactly when additionally an identifier token in such an
/// attribute's arguments contains the local-inner marker, and `builtin`
/// exactly when the builtin-marker attribute is present.
pub proof fn lemma_macro_flags(st: StoresView, mc: MacroNode)
    requires
        mc.path is Some,
    ensures
        ({
            let (st2, produced) = macro_item_spec(st, mc);
            let record = st2.macros.last();
            &&& st2.macros.len() == st.macros.len() + 1
            &&& record.export == key_present(mc.attrs@, "macro_export"@)
            &&& record.local_inner == (key_present(mc.attrs@, "macro_export"@)
                && key_tokens_mention(mc.attrs@, "macro_export"@, "local_inner_macros"@))
            &&& record.builtin == key_present(mc.attrs@, "rustc_builtin_macro"@)
            &&& produced == seq![
                RawItemView {
                    attrs: mc.attrs@,
                    kind: RawItemKind::Macro(st.macros.len() as usize),
                },
            ]
        }),
{
}

/// Extern-crate alias default: an `extern crate` item with a name yields
/// exactly one import record, an extern-crate import of the
/// single-segment path of that name; its alias is absent without a
/// rename, an underscore placeholder for a nameless rename (`as _`), and
/// the alias name otherwise.
pub proof fn lemma_extern_crate_alias(st: StoresView, e: ExternCrateNode, name: String)
    requires
        e.name_ref == Option::Some(name),
    ensures
        ({
            let (st2, produced) = extern_crate_item_spec(st, e);
            let record = st2.imports.last();
            &&& st2.imports.len() == st.imports.len() + 1
            &&& record.path == seq![name]
            &&& record.is_extern_crate
            &&& !record.is_glob
            &&& !record.is_prelude
            &&& record.is_macro_use == atom_attr_present(e.attrs@, "macro_use"@)
            &&& record.visibility == e.visibility@
            &&& record.alias == (match e.rename {
                Option::None => Option::<ImportAlias>::None,
                Option::Some(rename) => Option::Some(
                    match rename.name {
                        Option::Some(alias_name) => ImportAlias::Alias(alias_name),
                        Option::None => ImportAlias::Underscore,
                    },
                ),
            })
            &&& produced == seq![
                RawItemView {
                    attrs: e.attrs@,
                    kind: RawItemKind::Import(st.imports.len() as usize),
                },
            ]
        }),
{
}

/// A scope entry's tag points inside the store it names.
pub open spec fn entry_wf(entry: RawItemView, st: StoresView) -> bool {
    match entry.kind {
        RawItemKind::Module(i) => i < st.modules.len(),
        RawItemKind::Import(i) => i < st.imports.len(),
        RawItemKind::Def(i) => i < st.defs.len(),
        RawItemKind::Macro(i) => i < st.macros.len(),
        RawItemKind::Impl(i) => i < st.impls.len(),
    }
}

/// Every entry of a scope list points inside the stores.
pub open spec fn scope_wf(list: Seq<RawItemView>, st: StoresView) -> bool {
    forall|k: int| 0 <= k < list.len() ==> entry_wf(#[trigger] list[k], st)
}

/// Every module definition's own item list points inside the stores.
pub open spec fn stores_wf(st: StoresView) -> bool {
    forall|i: int|
        0 <= i < st.modules.len() ==> match #[trigger] st.modules[i] {
            ModuleDataView::Definition { items, .. } => scope_wf(items, st),
            ModuleDataView::Declaration { .. } => true,
        }
}

/// Validity of an entry survives store growth.
pub proof fn lemma_scope_wf_monotone(list: Seq<RawItemView>, st1: StoresView, st2: StoresView)
    requires
        scope_wf(list, st1),
        stores_grow(st1, st2),
    ensures
        scope_wf(list, st2),
{
}

/// Store well-formedness survives any step that appends records without
/// touching the module entries already present.
proof fn lemma_stores_wf_after_extend(st1: StoresView, st2: StoresView)
    requires
        stores_wf(st1),
        stores_grow(st1, st2),
        forall|i: int| 0 <= i < st1.modules.len() ==> st2.modules[i] == st1.modules[i],
        forall|i: int|
            st1.modules.len() <= i < st2.modules.len() ==> match #[trigger] st2.modules[i] {
                ModuleDataView::Definition { items, .. } => scope_wf(items, st2),
                ModuleDataView::Declaration { .. } => true,
            },
    ensures
        stores_wf(st2),
{
    assert forall|i: int| 0 <= i < st2.modules.len() implies match #[trigger] st2.modules[i] {
        ModuleDataView::Definition { items, .. } => scope_wf(items, st2),
        ModuleDataView::Declaration { .. } => true,
    } by {
        if i < st1.modules.len() {
            match st1.modules[i] {
                ModuleDataView::Definition { items, .. } => {
                    lemma_scope_wf_monotone(items, st1, st2);
                },
                ModuleDataView::Declaration { .. } => {},
            }
        }
    }
}

/// Collecting one module item keeps the stores well formed and produces
/// only valid tags.
proof fn lemma_module_item_wf(st: StoresView, m: ModuleNode)
    requires
        stores_wf(st),
    ensures
        ({
            let (st2, produced) = module_item_spec(st, m);
            stores_wf(st2) && scope_wf(produced, st2)
        }),
    decreases m, 1int,
{
    lemma_module_item_grows(st, m);
    match m.name {
        Option::None => {},
        Option::Some(name) => {
            if m.has_semicolon {
                let (st2, produced) = module_item_spec(st, m);
                lemma_stores_wf_after_extend(st, st2);
            } else {
                match m.body {
                    Option::None => {},
                    Option::Some(body) => {
                        let idx = st.modules.len() as int;
                        let placeholder = ModuleDataView::Definition {
                            name,
                            visibility: m.visibility@,
                            ast_id: m.ast_id,
                            items: Seq::empty(),
                        };
                        let st1 = StoresView {
                            modules: st.modules.push(placeholder),
                            imports: st.imports,
                            defs: st.defs,
                            macros: st.macros,
                            impls: st.impls,
                        };
                        assert(stores_grow(st, st1));
                        lemma_stores_wf_after_extend(st, st1);
                        lemma_collect_scope_wf(st1, body@, body@.len() as int);
                        lemma_collect_scope_grows(st1, body@, body@.len() as int);
                        let (st2, children) = collect_scope_spec(st1, body@, body@.len() as int);
                        let (st3, produced) = module_item_spec(st, m);
                        assert(stores_grow(st2, st3));
                        assert forall|i: int| 0 <= i < st3.modules.len() implies match #[trigger] st3.modules[i] {
                            ModuleDataView::Definition { items, .. } => scope_wf(items, st3),
                            ModuleDataView::Declaration { .. } => true,
                        } by {
                            if i == idx {
                                lemma_scope_wf_monotone(children, st2, st3);
                            } else {
                                match st2.modules[i] {
                                    ModuleDataView::Definition { items, .. } => {
                                        lemma_scope_wf_monotone(items, st2, st3);
                                    },
                                    ModuleDataView::Declaration { .. } => {},
                                }
                            }
                        }
                        assert(idx < st3.modules.len());
                    },
                }
            }
        },
    }
}

/// Collecting one item keeps the stores well formed and produces only
/// valid tags.
proof fn lemma_collect_item_wf(st: StoresView, item: ItemNode)
    requires
        stores_wf(st),
    ensures
        ({
            let (st2, produced) = collect_item_spec(st, item);
            stores_wf(st2) && scope_wf(produced, st2)
        }),
    decreases item, 2int,
{
    lemma_collect_item_grows(st, item);
    match item {
        ItemNode::Module(m) => lemma_module_item_wf(st, m),
        ItemNode::ExternBlock(b) => match b.items {
            Option::None => {},
            Option::Some(items) => lemma_collect_extern_wf(st, items@, items@.len() as int),
        },
        _ => {
            let (st2, produced) = collect_item_spec(st, item);
            lemma_stores_wf_after_extend(st, st2);
        },
    }
}

/// Folding an extern block keeps the stores well formed and produces only
/// valid tags.
proof fn lemma_collect_extern_wf(st: StoresView, items: Seq<ExternItemNode>, n: int)
    requires
        stores_wf(st),
    ensures
        ({
            let (st2, produced) = collect_extern_spec(st, items, n);
            stores_wf(st2) && scope_wf(produced, st2)
        }),
    decreases n,
{
    if n <= 0 || items.len() < n {
    } else {
        lemma_collect_extern_wf(st, items, n - 1);
        let (st1, produced1) = collect_extern_spec(st, items, n - 1);
        let (st2, produced2) = extern_item_spec(st1, items[n - 1]);
        lemma_collect_extern_grows(st, items, n - 1);
        assert(stores_grow(st1, st2));
        lemma_stores_wf_after_extend(st1, st2);
        lemma_scope_wf_monotone(produced1, st1, st2);
        assert(scope_wf(produced1 + produced2, st2));
    }
}

/// Folding a scope keeps the stores well formed and produces only valid
/// tags.
proof fn lemma_collect_scope_wf(st: StoresView, items: Seq<ItemNode>, n: int)
    requires
        stores_wf(st),
    ensures
        ({
            let (st2, produced) = collect_scope_spec(st, items, n);
            stores_wf(st2) && scope_wf(produced, st2)
        }),
    decreases items, n,
{
    if n <= 0 || items.len() < n {
    } else {
        lemma_collect_scope_wf(st, items, n - 1);
        let (st1, produced1) = collect_scope_spec(st, items, n - 1);
        lemma_collect_item_wf(st1, items[n - 1]);
        let (st2, produced2) = collect_item_spec(st1, items[n - 1]);
        lemma_collect_item_grows(st1, items[n - 1]);
        lemma_scope_wf_monotone(produced1, st1, st2);
        assert(scope_wf(produced1 + produced2, st2));
    }
}

/// The stores a lowered set carries, for speaking about its tags.
pub open spec fn stores_of(r: RawItemsView) -> StoresView {
    StoresView {
        modules: r.modules,
        imports: r.imports,
        defs: r.defs,
        macros: r.macros,
        impls: r.impls,
    }
}

/// Index validity: every tag of a lowered raw item set — in the top-level
/// list and in every module definition's list — points inside the store
/// it names, so index-based lookup never goes out of range.
pub proof fn lemma_lower_indices_valid(items: Seq<ItemNode>)
    ensures
        scope_wf(lower_spec(items).items, stores_of(lower_spec(items))),
        stores_wf(stores_of(lower_spec(items))),
{
    lemma_collect_scope_wf(empty_stores(), items, items.len() as int);
    let (st, top) = collect_scope_spec(empty_stores(), items, items.len() as int);
    assert(stores_of(lower_spec(items)) =~= st);
}

} // verus!
