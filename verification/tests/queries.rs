//! Tests of the attribute queries, the substring search and the
//! definition-kind id accessor.

use raw_items::attr::{Attr, AttrInput, AttrToken, Attrs};
use raw_items::raw::{DefKind, StructDefKind};
use raw_items::text::str_contains;

fn atom(key: &str) -> Attr {
    Attr { key: key.to_owned(), input: None }
}

fn literal_attr(key: &str, value: &str) -> Attr {
    Attr { key: key.to_owned(), input: Some(AttrInput::Literal(value.to_owned())) }
}

fn token_attr(key: &str, idents: &[&str]) -> Attr {
    let tokens = idents.iter().map(|s| AttrToken::Ident((*s).to_owned())).collect();
    Attr { key: key.to_owned(), input: Some(AttrInput::Tokens(tokens)) }
}

#[test]
fn str_contains_finds_inner_substring() {
    assert!(str_contains("prefixed_local_inner_macros_suffixed", "local_inner_macros"));
}

#[test]
fn str_contains_whole_string() {
    assert!(str_contains("local_inner_macros", "local_inner_macros"));
}

#[test]
fn str_contains_rejects_absent_needle() {
    assert!(!str_contains("local_inner", "local_inner_macros"));
    assert!(!str_contains("", "x"));
}

#[test]
fn str_contains_empty_needle_always_matches() {
    assert!(str_contains("anything", ""));
    assert!(str_contains("", ""));
}

#[test]
fn str_contains_repeated_prefix() {
    assert!(str_contains("aaab", "aab"));
    assert!(!str_contains("aaac", "aab"));
}

#[test]
fn atom_attr_requires_bare_marker() {
    let attrs = Attrs {
        entries: vec![
            literal_attr("macro_use", "x"),
            token_attr("prelude_import", &["y"]),
            atom("macro_use"),
        ],
    };
    assert!(attrs.has_atom_attr(&"macro_use".to_owned()));
    assert!(!attrs.has_atom_attr(&"prelude_import".to_owned()));
    assert!(!attrs.has_atom_attr(&"absent".to_owned()));
}

#[test]
fn by_key_exists_ignores_argument_shape() {
    let attrs = Attrs {
        entries: vec![literal_attr("macro_export", "x"), token_attr("doc", &["hidden"])],
    };
    assert!(attrs.by_key_exists(&"macro_export".to_owned()));
    assert!(attrs.by_key_exists(&"doc".to_owned()));
    assert!(!attrs.by_key_exists(&"macro_use".to_owned()));
}

#[test]
fn by_key_tokens_mention_checks_only_matching_keys() {
    let attrs = Attrs {
        entries: vec![
            token_attr("other", &["local_inner_macros"]),
            token_attr("macro_export", &["unrelated"]),
        ],
    };
    assert!(!attrs.by_key_tokens_mention(&"macro_export".to_owned(), "local_inner_macros"));
    let attrs2 = Attrs {
        entries: vec![token_attr("macro_export", &["unrelated", "has_local_inner_macros_too"])],
    };
    assert!(attrs2.by_key_tokens_mention(&"macro_export".to_owned(), "local_inner_macros"));
}

#[test]
fn literal_arguments_carry_no_tokens() {
    let attrs = Attrs { entries: vec![literal_attr("macro_export", "local_inner_macros")] };
    assert!(!attrs.by_key_tokens_mention(&"macro_export".to_owned(), "local_inner_macros"));
}

#[test]
fn def_kind_ast_id_is_kind_independent() {
    assert_eq!(DefKind::Function(10).ast_id(), 10);
    assert_eq!(DefKind::Struct(11, StructDefKind::Tuple).ast_id(), 11);
    assert_eq!(DefKind::Union(12).ast_id(), 12);
    assert_eq!(DefKind::Enum(13).ast_id(), 13);
    assert_eq!(DefKind::Const(14).ast_id(), 14);
    assert_eq!(DefKind::Static(15).ast_id(), 15);
    assert_eq!(DefKind::Trait(16).ast_id(), 16);
    assert_eq!(DefKind::TypeAlias(17).ast_id(), 17);
}
