//! End-to-end tests of the lowering pass.

use raw_items::attr::{Attr, AttrInput, AttrToken, Attrs};
use raw_items::lower;
use raw_items::path::{ImportAlias, ModPath};
use raw_items::raw::{DefKind, ModuleData, RawItemKind, StructDefKind};
use raw_items::syntax::{
    DefItemNode, ExternBlockNode, ExternCrateNode, ExternItemNode, ImplNode, ItemNode, MacroNode,
    ModuleNode, RenameNode, StructNode, UseLeaf, UseNode,
};
use raw_items::visibility::RawVisibility;

fn no_attrs() -> Attrs {
    Attrs { entries: Vec::new() }
}

fn atom(key: &str) -> Attr {
    Attr { key: key.to_owned(), input: None }
}

fn token_attr(key: &str, idents: &[&str]) -> Attr {
    let tokens = idents.iter().map(|s| AttrToken::Ident((*s).to_owned())).collect();
    Attr { key: key.to_owned(), input: Some(AttrInput::Tokens(tokens)) }
}

fn attrs_of(entries: Vec<Attr>) -> Attrs {
    Attrs { entries }
}

fn path_of(segments: &[&str]) -> ModPath {
    ModPath { segments: segments.iter().map(|s| (*s).to_owned()).collect() }
}

fn fn_node(name: &str, ast_id: u32) -> ItemNode {
    ItemNode::Function(DefItemNode {
        attrs: no_attrs(),
        visibility: RawVisibility::Public,
        name: Some(name.to_owned()),
        ast_id,
    })
}

fn struct_node(name: &str, ast_id: u32, shape: StructDefKind) -> ItemNode {
    ItemNode::Struct(StructNode {
        attrs: no_attrs(),
        visibility: RawVisibility::Public,
        name: Some(name.to_owned()),
        ast_id,
        shape,
    })
}

fn leaf(segments: &[&str], alias: Option<ImportAlias>, is_glob: bool) -> UseLeaf {
    UseLeaf { path: path_of(segments), alias, is_glob }
}

fn grouped_use() -> ItemNode {
    ItemNode::Use(UseNode {
        attrs: no_attrs(),
        visibility: RawVisibility::Public,
        leaves: vec![
            leaf(&["a", "b"], None, false),
            leaf(&["a", "c"], Some(ImportAlias::Alias("d".to_owned())), false),
            leaf(&["a", "e"], None, true),
        ],
    })
}

fn mixed_tree() -> Vec<ItemNode> {
    vec![
        fn_node("first", 1),
        struct_node("second", 2, StructDefKind::Record),
        ItemNode::Impl(ImplNode { attrs: no_attrs(), ast_id: 3 }),
        grouped_use(),
        ItemNode::MacroCall(MacroNode {
            attrs: no_attrs(),
            ast_id: 4,
            path: Some(path_of(&["m"])),
            name: None,
        }),
        ItemNode::Module(ModuleNode {
            attrs: no_attrs(),
            visibility: RawVisibility::Public,
            name: Some("sub".to_owned()),
            ast_id: 5,
            has_semicolon: false,
            body: Some(vec![fn_node("inner_fn", 6), fn_node("later_fn", 7)]),
        }),
    ]
}

#[test]
fn determinism_bit_for_bit() {
    let r1 = lower(&mixed_tree());
    let r2 = lower(&mixed_tree());
    assert_eq!(r1, r2);
}

#[test]
fn stable_indices_on_rebuild() {
    let r1 = lower(&mixed_tree());
    let r2 = lower(&mixed_tree());
    assert_eq!(r1.module_count(), r2.module_count());
    assert_eq!(r1.import_count(), r2.import_count());
    assert_eq!(r1.def_count(), r2.def_count());
    assert_eq!(r1.macro_count(), r2.macro_count());
    assert_eq!(r1.impl_count(), r2.impl_count());
    let tags1: Vec<RawItemKind> = r1.items().iter().map(|it| it.kind).collect();
    let tags2: Vec<RawItemKind> = r2.items().iter().map(|it| it.kind).collect();
    assert_eq!(tags1, tags2);
}

#[test]
fn top_level_order_follows_source_order() {
    let r = lower(&mixed_tree());
    let tags: Vec<RawItemKind> = r.items().iter().map(|it| it.kind).collect();
    assert_eq!(
        tags,
        vec![
            RawItemKind::Def(0),
            RawItemKind::Def(1),
            RawItemKind::Impl(0),
            RawItemKind::Import(0),
            RawItemKind::Import(1),
            RawItemKind::Import(2),
            RawItemKind::Macro(0),
            RawItemKind::Module(0),
        ]
    );
    assert_eq!(r.def_data(0).name, "first");
    assert_eq!(r.def_data(1).name, "second");
}

#[test]
fn module_body_order_follows_source_order() {
    let r = lower(&mixed_tree());
    match r.module_data(0) {
        ModuleData::Definition { name, items, .. } => {
            assert_eq!(name, "sub");
            let tags: Vec<RawItemKind> = items.iter().map(|it| it.kind).collect();
            assert_eq!(tags, vec![RawItemKind::Def(2), RawItemKind::Def(3)]);
            assert_eq!(r.def_data(2).name, "inner_fn");
            assert_eq!(r.def_data(3).name, "later_fn");
        }
        ModuleData::Declaration { .. } => panic!("expected a module definition"),
    }
}

#[test]
fn grouped_use_flattens_to_one_record_per_leaf() {
    let r = lower(&vec![grouped_use()]);
    assert_eq!(r.import_count(), 3);
    assert_eq!(r.items().len(), 3);

    let b = r.import_data(0);
    assert_eq!(b.path, path_of(&["a", "b"]));
    assert_eq!(b.alias, None);
    assert!(!b.is_glob);

    let c = r.import_data(1);
    assert_eq!(c.path, path_of(&["a", "c"]));
    assert_eq!(c.alias, Some(ImportAlias::Alias("d".to_owned())));
    assert!(!c.is_glob);

    let e = r.import_data(2);
    assert_eq!(e.path, path_of(&["a", "e"]));
    assert_eq!(e.alias, None);
    assert!(e.is_glob);

    for idx in 0..3 {
        let record = r.import_data(idx);
        assert_eq!(record.visibility, RawVisibility::Public);
        assert!(!record.is_prelude);
        assert!(!record.is_extern_crate);
        assert!(!record.is_macro_use);
    }
}

#[test]
fn prelude_marker_shared_by_all_leaves() {
    let r = lower(&vec![ItemNode::Use(UseNode {
        attrs: attrs_of(vec![atom("prelude_import")]),
        visibility: RawVisibility::Public,
        leaves: vec![leaf(&["p", "q"], None, false), leaf(&["p", "r"], None, true)],
    })]);
    assert_eq!(r.import_count(), 2);
    assert!(r.import_data(0).is_prelude);
    assert!(r.import_data(1).is_prelude);
}

#[test]
fn empty_use_statement_yields_nothing() {
    let r = lower(&vec![ItemNode::Use(UseNode {
        attrs: no_attrs(),
        visibility: RawVisibility::Public,
        leaves: Vec::new(),
    })]);
    assert_eq!(r.import_count(), 0);
    assert_eq!(r.items().len(), 0);
}

#[test]
fn malformed_module_is_dropped_but_siblings_survive() {
    let tree = vec![
        fn_node("before", 1),
        ItemNode::Module(ModuleNode {
            attrs: no_attrs(),
            visibility: RawVisibility::Public,
            name: Some("broken".to_owned()),
            ast_id: 2,
            has_semicolon: false,
            body: None,
        }),
        fn_node("after", 3),
    ];
    let r = lower(&tree);
    assert_eq!(r.module_count(), 0);
    assert_eq!(r.def_count(), 2);
    let tags: Vec<RawItemKind> = r.items().iter().map(|it| it.kind).collect();
    assert_eq!(tags, vec![RawItemKind::Def(0), RawItemKind::Def(1)]);
    assert_eq!(r.def_data(0).name, "before");
    assert_eq!(r.def_data(1).name, "after");
}

#[test]
fn nameless_module_is_dropped() {
    let r = lower(&vec![ItemNode::Module(ModuleNode {
        attrs: no_attrs(),
        visibility: RawVisibility::Public,
        name: None,
        ast_id: 1,
        has_semicolon: false,
        body: Some(vec![fn_node("unreached", 2)]),
    })]);
    assert_eq!(r.module_count(), 0);
    assert_eq!(r.def_count(), 0);
    assert_eq!(r.items().len(), 0);
}

#[test]
fn module_declaration_is_a_leaf() {
    let r = lower(&vec![ItemNode::Module(ModuleNode {
        attrs: no_attrs(),
        visibility: RawVisibility::Public,
        name: Some("m".to_owned()),
        ast_id: 9,
        has_semicolon: true,
        body: None,
    })]);
    assert_eq!(r.module_count(), 1);
    match r.module_data(0) {
        ModuleData::Declaration { name, ast_id, .. } => {
            assert_eq!(name, "m");
            assert_eq!(*ast_id, 9);
        }
        ModuleData::Definition { .. } => panic!("expected a module declaration"),
    }
}

#[test]
fn nested_module_indices_are_preorder() {
    let r = lower(&vec![ItemNode::Module(ModuleNode {
        attrs: no_attrs(),
        visibility: RawVisibility::Public,
        name: Some("outer".to_owned()),
        ast_id: 1,
        has_semicolon: false,
        body: Some(vec![ItemNode::Module(ModuleNode {
            attrs: no_attrs(),
            visibility: RawVisibility::Public,
            name: Some("inner".to_owned()),
            ast_id: 2,
            has_semicolon: false,
            body: Some(Vec::new()),
        })]),
    })]);
    assert_eq!(r.module_count(), 2);
    let tags: Vec<RawItemKind> = r.items().iter().map(|it| it.kind).collect();
    assert_eq!(tags, vec![RawItemKind::Module(0)]);
    match r.module_data(0) {
        ModuleData::Definition { name, items, .. } => {
            assert_eq!(name, "outer");
            let inner_tags: Vec<RawItemKind> = items.iter().map(|it| it.kind).collect();
            assert_eq!(inner_tags, vec![RawItemKind::Module(1)]);
        }
        ModuleData::Declaration { .. } => panic!("expected a module definition"),
    }
    match r.module_data(1) {
        ModuleData::Definition { name, items, .. } => {
            assert_eq!(name, "inner");
            assert!(items.is_empty());
        }
        ModuleData::Declaration { .. } => panic!("expected a module definition"),
    }
}

fn macro_call(attr_entries: Vec<Attr>) -> ItemNode {
    ItemNode::MacroCall(MacroNode {
        attrs: attrs_of(attr_entries),
        ast_id: 11,
        path: Some(path_of(&["macro_rules"])),
        name: Some("my_macro".to_owned()),
    })
}

#[test]
fn macro_export_with_local_inner_token() {
    let r = lower(&vec![macro_call(vec![token_attr(
        "macro_export",
        &["local_inner_macros"],
    )])]);
    assert_eq!(r.macro_count(), 1);
    let m = r.macro_data(0);
    assert!(m.export);
    assert!(m.local_inner);
    assert!(!m.builtin);
}

#[test]
fn macro_export_without_local_inner_token() {
    let r = lower(&vec![macro_call(vec![token_attr("macro_export", &["something_else"])])]);
    let m = r.macro_data(0);
    assert!(m.export);
    assert!(!m.local_inner);
}

#[test]
fn macro_export_bare_marker() {
    let r = lower(&vec![macro_call(vec![atom("macro_export")])]);
    let m = r.macro_data(0);
    assert!(m.export);
    assert!(!m.local_inner);
}

#[test]
fn no_export_marker_means_no_flags_regardless_of_tokens() {
    let r = lower(&vec![macro_call(vec![token_attr(
        "some_other_attr",
        &["local_inner_macros"],
    )])]);
    let m = r.macro_data(0);
    assert!(!m.export);
    assert!(!m.local_inner);
}

#[test]
fn local_inner_detection_is_a_substring_match() {
    let r = lower(&vec![macro_call(vec![token_attr(
        "macro_export",
        &["prefixed_local_inner_macros_suffixed"],
    )])]);
    let m = r.macro_data(0);
    assert!(m.export);
    assert!(m.local_inner);
}

#[test]
fn builtin_macro_marker() {
    let r = lower(&vec![macro_call(vec![atom("rustc_builtin_macro")])]);
    let m = r.macro_data(0);
    assert!(!m.export);
    assert!(m.builtin);
}

#[test]
fn macro_without_resolved_path_is_dropped() {
    let r = lower(&vec![ItemNode::MacroCall(MacroNode {
        attrs: no_attrs(),
        ast_id: 11,
        path: None,
        name: None,
    })]);
    assert_eq!(r.macro_count(), 0);
    assert_eq!(r.items().len(), 0);
}

fn extern_crate(rename: Option<RenameNode>, attr_entries: Vec<Attr>) -> ItemNode {
    ItemNode::ExternCrate(ExternCrateNode {
        attrs: attrs_of(attr_entries),
        visibility: RawVisibility::Public,
        name_ref: Some("foo".to_owned()),
        rename,
    })
}

#[test]
fn extern_crate_underscore_alias() {
    let r = lower(&vec![extern_crate(Some(RenameNode { name: None }), Vec::new())]);
    assert_eq!(r.import_count(), 1);
    let record = r.import_data(0);
    assert_eq!(record.path, path_of(&["foo"]));
    assert_eq!(record.alias, Some(ImportAlias::Underscore));
    assert!(record.is_extern_crate);
    assert!(!record.is_glob);
    assert!(!record.is_prelude);
    assert!(!record.is_macro_use);
}

#[test]
fn extern_crate_without_rename_has_no_alias() {
    let r = lower(&vec![extern_crate(None, Vec::new())]);
    assert_eq!(r.import_data(0).alias, None);
}

#[test]
fn extern_crate_named_alias() {
    let r = lower(&vec![extern_crate(
        Some(RenameNode { name: Some("bar".to_owned()) }),
        Vec::new(),
    )]);
    assert_eq!(
        r.import_data(0).alias,
        Some(ImportAlias::Alias("bar".to_owned()))
    );
}

#[test]
fn extern_crate_macro_use_marker() {
    let r = lower(&vec![extern_crate(None, vec![atom("macro_use")])]);
    assert!(r.import_data(0).is_macro_use);
}

#[test]
fn extern_crate_without_name_is_dropped() {
    let r = lower(&vec![ItemNode::ExternCrate(ExternCrateNode {
        attrs: no_attrs(),
        visibility: RawVisibility::Public,
        name_ref: None,
        rename: Some(RenameNode { name: None }),
    })]);
    assert_eq!(r.import_count(), 0);
    assert_eq!(r.items().len(), 0);
}

#[test]
fn extern_block_folds_into_current_scope() {
    let tree = vec![
        fn_node("top", 1),
        ItemNode::ExternBlock(ExternBlockNode {
            items: Some(vec![
                ExternItemNode::Function(DefItemNode {
                    attrs: no_attrs(),
                    visibility: RawVisibility::Public,
                    name: Some("ext_fn".to_owned()),
                    ast_id: 2,
                }),
                ExternItemNode::Static(DefItemNode {
                    attrs: no_attrs(),
                    visibility: RawVisibility::Public,
                    name: None,
                    ast_id: 3,
                }),
                ExternItemNode::Static(DefItemNode {
                    attrs: no_attrs(),
                    visibility: RawVisibility::Public,
                    name: Some("ext_static".to_owned()),
                    ast_id: 4,
                }),
            ]),
        }),
    ];
    let r = lower(&tree);
    assert_eq!(r.module_count(), 0);
    assert_eq!(r.def_count(), 3);
    let tags: Vec<RawItemKind> = r.items().iter().map(|it| it.kind).collect();
    assert_eq!(
        tags,
        vec![RawItemKind::Def(0), RawItemKind::Def(1), RawItemKind::Def(2)]
    );
    assert_eq!(r.def_data(1).name, "ext_fn");
    assert_eq!(r.def_data(1).kind, DefKind::Function(2));
    assert_eq!(r.def_data(2).name, "ext_static");
    assert_eq!(r.def_data(2).kind, DefKind::Static(4));
}

#[test]
fn extern_block_without_item_list_yields_nothing() {
    let r = lower(&vec![ItemNode::ExternBlock(ExternBlockNode { items: None })]);
    assert_eq!(r.def_count(), 0);
    assert_eq!(r.items().len(), 0);
}

#[test]
fn nameless_definition_is_dropped() {
    let r = lower(&vec![ItemNode::Function(DefItemNode {
        attrs: no_attrs(),
        visibility: RawVisibility::Public,
        name: None,
        ast_id: 1,
    })]);
    assert_eq!(r.def_count(), 0);
    assert_eq!(r.items().len(), 0);
}

#[test]
fn struct_shapes_are_recorded() {
    let tree = vec![
        struct_node("rec", 1, StructDefKind::Record),
        struct_node("tup", 2, StructDefKind::Tuple),
        struct_node("unit", 3, StructDefKind::Unit),
    ];
    let r = lower(&tree);
    assert_eq!(r.def_data(0).kind, DefKind::Struct(1, StructDefKind::Record));
    assert_eq!(r.def_data(1).kind, DefKind::Struct(2, StructDefKind::Tuple));
    assert_eq!(r.def_data(2).kind, DefKind::Struct(3, StructDefKind::Unit));
}

#[test]
fn every_definition_kind_is_lowered() {
    let make = |name: &str, ast_id: u32| DefItemNode {
        attrs: no_attrs(),
        visibility: RawVisibility::Public,
        name: Some(name.to_owned()),
        ast_id,
    };
    let tree = vec![
        ItemNode::Union(make("a", 1)),
        ItemNode::Enum(make("b", 2)),
        ItemNode::Function(make("c", 3)),
        ItemNode::Trait(make("d", 4)),
        ItemNode::TypeAlias(make("e", 5)),
        ItemNode::Const(make("f", 6)),
        ItemNode::Static(make("g", 7)),
    ];
    let r = lower(&tree);
    assert_eq!(r.def_data(0).kind, DefKind::Union(1));
    assert_eq!(r.def_data(1).kind, DefKind::Enum(2));
    assert_eq!(r.def_data(2).kind, DefKind::Function(3));
    assert_eq!(r.def_data(3).kind, DefKind::Trait(4));
    assert_eq!(r.def_data(4).kind, DefKind::TypeAlias(5));
    assert_eq!(r.def_data(5).kind, DefKind::Const(6));
    assert_eq!(r.def_data(6).kind, DefKind::Static(7));
}

#[test]
fn empty_file_lowers_to_empty_set() {
    let r = lower(&Vec::new());
    assert_eq!(r.module_count(), 0);
    assert_eq!(r.import_count(), 0);
    assert_eq!(r.def_count(), 0);
    assert_eq!(r.macro_count(), 0);
    assert_eq!(r.impl_count(), 0);
    assert!(r.items().is_empty());
}

#[test]
fn impl_block_records_only_its_id() {
    let r = lower(&vec![ItemNode::Impl(ImplNode { attrs: no_attrs(), ast_id: 42 })]);
    assert_eq!(r.impl_count(), 1);
    assert_eq!(r.impl_data(0).ast_id, 42);
    let tags: Vec<RawItemKind> = r.items().iter().map(|it| it.kind).collect();
    assert_eq!(tags, vec![RawItemKind::Impl(0)]);
}

#[test]
fn restricted_visibility_is_carried_through() {
    let vis = RawVisibility::Module(path_of(&["super"]));
    let r = lower(&vec![
        ItemNode::Use(UseNode {
            attrs: no_attrs(),
            visibility: RawVisibility::Module(path_of(&["super"])),
            leaves: vec![leaf(&["x", "y"], None, false)],
        }),
        ItemNode::Function(DefItemNode {
            attrs: no_attrs(),
            visibility: RawVisibility::Module(path_of(&["super"])),
            name: Some("f".to_owned()),
            ast_id: 2,
        }),
    ]);
    assert_eq!(r.import_data(0).visibility, vis);
    assert_eq!(r.def_data(0).visibility, vis);
}
