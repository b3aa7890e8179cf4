use ct::doc::{DocCrate, DocFunction, DocItem, DocItemKind, DocPath, DocTraitBound, DocType};
use ct::rustdoc_parser::{collect_local_ids_from_type, parse_rustdoc_with_filters, should_process_item, ItemKind, Relationship, RelationshipKind, RustdocParseArgs};

fn item(id: u32, name: Option<&str>, inner: DocItemKind) -> DocItem {
    DocItem {
        id,
        crate_id: 0,
        name: name.map(|n| n.to_string()),
        is_public: true,
        visibility: "Public".to_string(),
        docs: Some("doc".to_string()),
        span: None,
        inner,
    }
}

fn path(id: u32, segs: &[&str]) -> DocPath {
    DocPath { id, crate_id: 0, path: segs.iter().map(|s| s.to_string()).collect() }
}

fn f() -> DocItemKind {
    DocItemKind::Function(DocFunction { generics: vec![], params: vec![], has_output: false, is_const: false, is_async: false, is_unsafe: false })
}

fn args(module: Option<&str>, include_derives: bool) -> RustdocParseArgs {
    RustdocParseArgs { module: module.map(|m| m.to_string()), struct_name: None, no_orphan: false, include_derives }
}

fn blob() -> DocCrate {
    DocCrate {
        index: vec![
            item(1, Some("A"), DocItemKind::Struct { generics: vec![], fields: vec![2] }),
            item(2, Some("b"), DocItemKind::StructField(DocType::ResolvedPath(50, vec![DocType::Tuple(vec![DocType::ResolvedPath(3, vec![]), DocType::Primitive("u8".to_string())])]))),
            item(3, Some("E"), DocItemKind::Enum { generics: vec![], variants: vec![4, 99] }),
            item(4, Some("V"), DocItemKind::Variant),
            item(5, None, DocItemKind::Impl { items: vec![6, 7], trait_: None, for_type: DocType::ResolvedPath(1, vec![]) }),
            item(6, Some("run"), f()),
            item(7, Some("clone"), f()),
            item(8, Some("m"), DocItemKind::Module),
        ],
        paths: vec![
            path(1, &["k", "A"]),
            path(3, &["k", "E"]),
            path(4, &["k", "E", "V"]),
            path(6, &["k", "A", "run"]),
            path(7, &["k", "A", "clone"]),
            path(8, &["k", "m"]),
        ],
    }
}

#[test]
fn items_and_relationships() {
    let parsed = parse_rustdoc_with_filters(&blob(), &args(None, false));
    let kinds: Vec<(String, ItemKind)> = parsed.items.iter().map(|i| (i.path.clone(), i.kind)).collect();
    assert_eq!(
        kinds,
        vec![
            ("k::A".to_string(), ItemKind::Struct),
            ("k::E".to_string(), ItemKind::Enum),
            ("k::A::run".to_string(), ItemKind::Function),
            ("k::m".to_string(), ItemKind::Module),
        ]
    );
    assert_eq!(parsed.items[0].docs, Some("doc".to_string()));
    assert_eq!(
        parsed.relationships,
        vec![
            Relationship { from: 1, to: 3, kind: RelationshipKind::StructField },
            Relationship { from: 3, to: 4, kind: RelationshipKind::VariantOf },
            Relationship { from: 1, to: 6, kind: RelationshipKind::MethodOf },
        ]
    );
}

#[test]
fn derives_can_be_included() {
    let parsed = parse_rustdoc_with_filters(&blob(), &args(None, true));
    assert!(parsed.items.iter().any(|i| i.name == "clone"));
    assert!(parsed.relationships.contains(&Relationship { from: 1, to: 7, kind: RelationshipKind::MethodOf }));
}

#[test]
fn module_filter_limits_items() {
    let parsed = parse_rustdoc_with_filters(&blob(), &args(Some("k::E"), false));
    assert_eq!(parsed.items.len(), 1);
    assert_eq!(parsed.items[0].path, "k::E");
    assert!(should_process_item("k::E::V", &args(Some("k::E"), false)));
    let with_struct = RustdocParseArgs { module: None, struct_name: Some("A".to_string()), no_orphan: false, include_derives: false };
    assert!(should_process_item("k::A::run", &with_struct));
    assert!(!should_process_item("k::E", &with_struct));
}

#[test]
fn type_walk_collects_local_ids_in_order() {
    let paths = blob().paths;
    let ty = DocType::QualifiedPath(
        Box::new(DocType::Wrapped(Box::new(DocType::ResolvedPath(8, vec![])))),
        Some(DocTraitBound { id: 3, args: vec![DocType::ImplTrait(vec![DocTraitBound { id: 1, args: vec![] }])] }),
    );
    let mut out = vec![];
    collect_local_ids_from_type(&ty, &mut out, &paths);
    assert_eq!(out, vec![8, 3, 1]);
}
