use ct::doc::{DocCrate, DocFunction, DocItem, DocItemKind, DocPath, DocSpan, DocTraitRef, DocType};
use ct::hashing::{compute_def_hash, compute_file_digest, compute_symbol_id};
use ct::indexer::{format_function_signature, Indexer, SourceFile};
use ct::models::{ImplementationStatus, Symbol, SymbolKind, Visibility};
use ct::status::detect_implementation_status;

fn span(begin: u32, end: u32) -> Option<DocSpan> {
    Some(DocSpan { filename: "src/lib.rs".to_string(), begin_line: begin, end_line: end })
}

fn func(params: &[&str]) -> DocItemKind {
    DocItemKind::Function(DocFunction {
        generics: vec![],
        params: params.iter().map(|p| p.to_string()).collect(),
        has_output: false,
        is_const: false,
        is_async: false,
        is_unsafe: false,
    })
}

fn item(id: u32, name: Option<&str>, inner: DocItemKind, sp: Option<DocSpan>) -> DocItem {
    DocItem {
        id,
        crate_id: 0,
        name: name.map(|n| n.to_string()),
        is_public: true,
        visibility: "Public".to_string(),
        docs: None,
        span: sp,
        inner,
    }
}

fn path(id: u32, segs: &[&str]) -> DocPath {
    DocPath { id, crate_id: 0, path: segs.iter().map(|s| s.to_string()).collect() }
}

fn source_text() -> String {
    let mut lines: Vec<String> = (1..=50).map(|i| format!("// line {}", i)).collect();
    lines[12] = "        unimplemented!(\"x\")".to_string();
    lines[32] = "    // TODO: finish".to_string();
    lines.join("\n")
}

fn blob() -> DocCrate {
    DocCrate {
        index: vec![
            item(1, Some("TestStruct"), DocItemKind::Struct { generics: vec!["T".to_string()], fields: vec![] }, span(5, 8)),
            item(3, None, DocItemKind::Impl { items: vec![4, 7], trait_: None, for_type: DocType::ResolvedPath(1, vec![]) }, span(10, 30)),
            item(4, Some("unimplemented_method"), func(&["self"]), span(12, 14)),
            item(7, Some("clone"), func(&["self"]), span(20, 25)),
            item(5, Some("free_fn"), func(&["a", "b"]), span(32, 34)),
            item(8, None, DocItemKind::Impl {
                items: vec![9],
                trait_: Some(DocTraitRef { id: 6, name: "TestTrait".to_string() }),
                for_type: DocType::ResolvedPath(1, vec![]),
            }, span(36, 40)),
            item(9, Some("trait_method"), func(&["self"]), span(37, 39)),
            item(6, Some("TestTrait"), DocItemKind::Trait { is_unsafe: false, generics: vec![], items: vec![] }, span(42, 44)),
            DocItem {
                id: 100,
                crate_id: 1,
                name: Some("Foreign".to_string()),
                is_public: true,
                visibility: "Public".to_string(),
                docs: None,
                span: None,
                inner: DocItemKind::Struct { generics: vec![], fields: vec![] },
            },
        ],
        paths: vec![
            path(1, &["pkg", "TestStruct"]),
            path(5, &["pkg", "free_fn"]),
            path(6, &["pkg", "TestTrait"]),
            DocPath { id: 100, crate_id: 1, path: vec!["other".to_string(), "Foreign".to_string()] },
        ],
    }
}

fn sources() -> Vec<SourceFile> {
    vec![SourceFile { path: "src/lib.rs".to_string(), content: Some(source_text().into_bytes()) }]
}

fn find<'a>(symbols: &'a [Symbol], name: &str) -> Option<&'a Symbol> {
    symbols.iter().find(|s| s.name == name)
}

#[test]
fn indexes_local_items_with_canonical_paths() {
    let indexer = Indexer::new("/ws".to_string());
    let batch = indexer.process_rustdoc_data(&blob(), 7, "pkg", &sources()).unwrap();
    let names: Vec<&str> = batch.symbols.iter().map(|s| s.name.as_str()).collect();
    assert_eq!(names, vec!["TestStruct", "unimplemented_method", "free_fn", "trait_method", "TestTrait"]);
    assert_eq!(find(&batch.symbols, "TestStruct").unwrap().path, "pkg::TestStruct");
    assert_eq!(find(&batch.symbols, "TestStruct").unwrap().signature, "struct TestStruct<T>");
    let m = find(&batch.symbols, "unimplemented_method").unwrap();
    assert_eq!(m.kind, SymbolKind::Method);
    assert_eq!(m.path, "pkg::pkg::TestStruct::unimplemented_method");
    assert_eq!(m.signature, "fn unimplemented_method(self)");
    let t = find(&batch.symbols, "trait_method").unwrap();
    assert_eq!(t.path, "pkg::pkg::TestStruct::pkg::TestTrait::trait_method");
    let f = find(&batch.symbols, "free_fn").unwrap();
    assert_eq!(f.kind, SymbolKind::Fn);
    assert_eq!(f.path, "pkg::free_fn");
    assert_eq!(f.visibility, Visibility::Public);
    assert_eq!(f.crate_id, 7);
    assert_eq!(batch.impls.len(), 2);
    assert_eq!(batch.impls[0].for_path, "pkg::TestStruct");
    assert_eq!(batch.impls[0].trait_path, None);
    assert_eq!(batch.impls[1].trait_path, Some("pkg::TestTrait".to_string()));
    assert_eq!(batch.files.len(), 1);
}

#[test]
fn stored_identity_matches_recomputation() {
    let indexer = Indexer::new("/ws".to_string());
    let batch = indexer.process_rustdoc_data(&blob(), 1, "pkg", &sources()).unwrap();
    let digest = compute_file_digest(source_text().as_bytes());
    assert_eq!(batch.files[0].digest, digest);
    for s in &batch.symbols {
        let file = &batch.files[s.file_id as usize];
        assert_eq!(s.symbol_id, compute_symbol_id(&s.path, s.kind.as_str(), &file.digest, s.span_start, s.span_end));
        assert_eq!(s.def_hash, compute_def_hash(&s.signature));
    }
}

#[test]
fn derive_named_methods_are_left_out_by_default() {
    let batch = Indexer::new("/ws".to_string()).process_rustdoc_data(&blob(), 1, "pkg", &sources()).unwrap();
    assert!(batch.symbols.iter().all(|s| s.name != "clone"));
    let with = Indexer::new("/ws".to_string()).with_filters(None, None, true);
    let batch = with.process_rustdoc_data(&blob(), 1, "pkg", &sources()).unwrap();
    assert!(batch.symbols.iter().any(|s| s.name == "clone" && s.kind == SymbolKind::Method));
}

#[test]
fn status_comes_from_the_span_text() {
    let batch = Indexer::new("/ws".to_string()).process_rustdoc_data(&blob(), 1, "pkg", &sources()).unwrap();
    assert_eq!(find(&batch.symbols, "unimplemented_method").unwrap().status, ImplementationStatus::Unimplemented);
    assert_eq!(find(&batch.symbols, "free_fn").unwrap().status, ImplementationStatus::Todo);
    assert_eq!(find(&batch.symbols, "trait_method").unwrap().status, ImplementationStatus::Implemented);
    assert_eq!(find(&batch.symbols, "TestStruct").unwrap().status, ImplementationStatus::Implemented);
}

#[test]
fn detection_on_bodies() {
    let t = b"fn a() {\n    unimplemented!(\"x\")\n}\nfn b() {\n    // TODO: later\n}\nfn c() {\n    1\n}\n";
    assert_eq!(detect_implementation_status(Some(t), 1, 3), ImplementationStatus::Unimplemented);
    assert_eq!(detect_implementation_status(Some(t), 4, 6), ImplementationStatus::Todo);
    assert_eq!(detect_implementation_status(Some(t), 7, 9), ImplementationStatus::Implemented);
    assert_eq!(detect_implementation_status(Some(b"x\r\nFIXME\r\n"), 2, 2), ImplementationStatus::Todo);
    assert_eq!(detect_implementation_status(Some(b"todo!()"), 1, 1), ImplementationStatus::Todo);
    assert_eq!(detect_implementation_status(Some(t), 40, 50), ImplementationStatus::Implemented);
    assert_eq!(detect_implementation_status(None, 1, 3), ImplementationStatus::Implemented);
}

#[test]
fn moving_a_function_changes_only_its_identity() {
    let mut moved = blob();
    moved.index[4].span = span(37, 39);
    moved.index[6].span = span(32, 34);
    let a = Indexer::new("/ws".to_string()).process_rustdoc_data(&blob(), 1, "pkg", &sources()).unwrap();
    let b = Indexer::new("/ws".to_string()).process_rustdoc_data(&moved, 1, "pkg", &sources()).unwrap();
    let fa = find(&a.symbols, "free_fn").unwrap();
    let fb = find(&b.symbols, "free_fn").unwrap();
    assert_ne!(fa.symbol_id, fb.symbol_id);
    assert_eq!(fa.name, fb.name);
    assert_eq!(fa.path, fb.path);
    assert_eq!(fa.def_hash, fb.def_hash);
}

#[test]
fn renaming_a_parameter_changes_signature_and_def_hash() {
    let mut renamed = blob();
    renamed.index[4].inner = func(&["a", "c"]);
    let a = Indexer::new("/ws".to_string()).process_rustdoc_data(&blob(), 1, "pkg", &sources()).unwrap();
    let b = Indexer::new("/ws".to_string()).process_rustdoc_data(&renamed, 1, "pkg", &sources()).unwrap();
    let fa = find(&a.symbols, "free_fn").unwrap();
    let fb = find(&b.symbols, "free_fn").unwrap();
    assert_eq!(fa.signature, "fn free_fn(a, b)");
    assert_eq!(fb.signature, "fn free_fn(a, c)");
    assert_ne!(fa.def_hash, fb.def_hash);
}

#[test]
fn signature_rendering_with_qualifiers() {
    let f = DocFunction {
        generics: vec!["T".to_string(), "U".to_string()],
        params: vec!["x".to_string()],
        has_output: true,
        is_const: true,
        is_async: true,
        is_unsafe: true,
    };
    assert_eq!(format_function_signature("g", &f), "const async unsafe fn g<T, U>(x) -> _");
}

#[test]
fn each_method_lies_in_one_impl_row() {
    let batch = Indexer::new("/ws".to_string()).process_rustdoc_data(&blob(), 1, "pkg", &sources()).unwrap();
    for s in batch.symbols.iter().filter(|s| s.kind == SymbolKind::Method) {
        let n = batch
            .impls
            .iter()
            .filter(|b| b.file_id == s.file_id && b.line_start <= s.span_start && s.span_end <= b.line_end)
            .count();
        assert_eq!(n, 1);
    }
}

#[test]
fn an_item_without_span_fails_the_package() {
    let mut broken = blob();
    broken.index[4].span = None;
    let r = Indexer::new("/ws".to_string()).process_rustdoc_data(&broken, 1, "pkg", &sources());
    assert!(r.is_err());
}

#[test]
fn an_item_with_a_backward_span_fails_the_package() {
    let mut broken = blob();
    broken.index[4].span = span(34, 32);
    assert!(Indexer::new("/ws".to_string()).process_rustdoc_data(&broken, 1, "pkg", &sources()).is_err());
    let mut zero = blob();
    zero.index[4].span = span(0, 3);
    assert!(Indexer::new("/ws".to_string()).process_rustdoc_data(&zero, 1, "pkg", &sources()).is_err());
}

#[test]
fn file_digest_is_seventy_one_characters() {
    assert_eq!(compute_file_digest(b"").len(), 71);
}

#[test]
fn module_filter_keeps_matching_paths() {
    let indexer = Indexer::new("/ws".to_string()).with_filters(Some("pkg::free".to_string()), None, false);
    let batch = indexer.process_rustdoc_data(&blob(), 1, "pkg", &sources()).unwrap();
    let names: Vec<&str> = batch.symbols.iter().map(|s| s.name.as_str()).collect();
    assert_eq!(names, vec!["free_fn"]);
}

#[test]
fn empty_package_yields_no_rows() {
    let empty = DocCrate { index: vec![], paths: vec![] };
    let batch = Indexer::new("/ws".to_string()).process_rustdoc_data(&empty, 1, "pkg", &vec![]).unwrap();
    assert_eq!(batch.symbols.len(), 0);
    assert_eq!(batch.files.len(), 0);
}

#[test]
fn unreadable_file_is_missing() {
    let missing = vec![SourceFile { path: "src/lib.rs".to_string(), content: None }];
    let batch = Indexer::new("/ws".to_string()).process_rustdoc_data(&blob(), 1, "pkg", &missing).unwrap();
    assert_eq!(batch.files[0].digest, "missing");
    assert_eq!(find(&batch.symbols, "unimplemented_method").unwrap().status, ImplementationStatus::Implemented);
}
