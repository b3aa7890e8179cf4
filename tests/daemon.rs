use ct::client::{exit_code_for, ConnectAction, ConnectState};
use ct::config::Config;
use ct::daemon::{annotate_response, check_request, doc_symbol, find_items, store_failure_response, DaemonAction, DaemonState, FindItems};
use ct::discovery::{normalized_name, parent_of, rustdoc_command_args, rustdoc_json_candidates, select_workspace_members, MetadataPackage};
use ct::models::{ImplementationStatus, StatusCounts, Symbol, SymbolKind, Visibility};
use ct::protocol::{check_protocol_version, frame_error_response, frame_message, on_line, on_undecodable, read_frame, Command, ErrorCode, LineStep, ProtocolError, Request, Response, PROTOCOL_VERSION};
use ct::store::{check_schema_version, db_error_code, escape_like, find_by_name_query, status_items_query, DbError, parse_schema_version, parse_status, parse_symbol_kind, status_counts_from_rows, status_filter_for, SchemaAction, SqlParam};

fn state(max: usize) -> DaemonState {
    let mut config = Config::default();
    config.max_context_size = max;
    config.db_dir = Some("/tmp/ctdb".to_string());
    DaemonState::new(config, "blake3:0011223344556677".to_string(), 0)
}

fn find_cmd(name: Option<&str>, path: Option<&str>, vis: Option<&str>) -> Command {
    Command::Find {
        name: name.map(|s| s.to_string()),
        path: path.map(|s| s.to_string()),
        kind: None,
        vis: vis.map(|s| s.to_string()),
        unimplemented: None,
        todo: None,
        all: None,
    }
}

fn sym(path: &str) -> Symbol {
    Symbol {
        symbol_id: "00".to_string(),
        crate_id: 1,
        file_id: 1,
        path: path.to_string(),
        name: "x".to_string(),
        kind: SymbolKind::Fn,
        visibility: Visibility::Public,
        signature: "fn x()".to_string(),
        docs: Some("d".to_string()),
        status: ImplementationStatus::Implemented,
        span_start: 3,
        span_end: 9,
        def_hash: "h".to_string(),
    }
}

#[test]
fn find_needs_a_name_or_a_path() {
    let st = state(100);
    let err = st.plan_request(&find_cmd(None, None, None)).unwrap_err();
    assert_eq!(err.1, ErrorCode::InvalidArg);
    let err = st.plan_request(&find_cmd(Some("X"), None, Some("secret"))).unwrap_err();
    assert_eq!(err.1, ErrorCode::InvalidArg);
    assert!(matches!(st.plan_request(&find_cmd(Some("X"), None, None)), Ok(DaemonAction::FindByName { .. })));
    assert!(matches!(st.plan_request(&find_cmd(None, Some("p::q"), Some("all"))), Ok(DaemonAction::FindByPath { .. })));
}

#[test]
fn find_on_an_empty_store_has_no_items() {
    match find_items(vec![], false) {
        FindItems::Brief(items) => assert!(items.is_empty()),
        FindItems::Full(_) => panic!("expected brief items"),
    }
    match find_items(vec![sym("a::b")], false) {
        FindItems::Brief(items) => {
            assert_eq!(items[0].path, "a::b");
            assert_eq!((items[0].span_start, items[0].span_end), (3, 9));
        }
        FindItems::Full(_) => panic!("expected brief items"),
    }
    assert!(matches!(find_items(vec![sym("a")], true), FindItems::Full(v) if v.len() == 1));
}

#[test]
fn find_status_matrix() {
    assert_eq!(status_filter_for(Some(true), Some(true)), None);
    assert_eq!(status_filter_for(Some(true), None), Some(ImplementationStatus::Unimplemented));
    assert_eq!(status_filter_for(Some(false), Some(true)), Some(ImplementationStatus::Todo));
    assert_eq!(status_filter_for(None, None), Some(ImplementationStatus::Implemented));
}

#[test]
fn ls_expansion_depths() {
    let st = state(100);
    let cmd = Command::Ls {
        path: "p".to_string(),
        expansion: Some(">><".to_string()),
        impl_parents: false,
        include_docs: false,
        vis: None,
        unimplemented: None,
        todo: None,
    };
    match st.plan_request(&cmd).unwrap() {
        DaemonAction::Ls { path, children, parents, .. } => {
            assert_eq!(path, "p");
            assert_eq!((children, parents), (2, 1));
        }
        _ => panic!("expected a listing"),
    }
}

#[test]
fn oversized_export_needs_a_decision() {
    let st = state(100);
    match st.export_decision("r1".to_string(), 250) {
        Some(Response::Decision(d)) => {
            assert!(d.ok);
            assert_eq!(d.request_id, "r1");
            assert!(d.decision_required.content_len >= 100);
            assert!(!d.decision_required.options.is_empty());
        }
        _ => panic!("expected a decision"),
    }
    assert!(st.export_decision("r2".to_string(), 100).is_none());
}

#[test]
fn reindex_carries_the_filters() {
    let st = state(100);
    let cmd = Command::Reindex {
        features: Some(vec!["f1".to_string()]),
        target: Some("x86_64-unknown-linux-gnu".to_string()),
        module: Some("m".to_string()),
        struct_name: None,
        include_derives: true,
    };
    match st.plan_request(&cmd).unwrap() {
        DaemonAction::Reindex { indexer, features, target } => {
            assert_eq!(features, vec!["f1".to_string()]);
            assert_eq!(target, Some("x86_64-unknown-linux-gnu".to_string()));
            assert_eq!(indexer.filter_module, Some("m".to_string()));
            assert!(indexer.include_derives);
        }
        _ => panic!("expected a reindex"),
    }
}

#[test]
fn diag_record() {
    let st = state(100);
    let d = st.handle_diag("/ws".to_string(), 1, 2, 0, vec![], "t".to_string(), "sha256:unknown".to_string());
    assert_eq!(d.symbol_count, 0);
    assert_eq!(d.schema_version, "1");
    assert_eq!(d.protocol_versions_supported, vec![PROTOCOL_VERSION]);
    assert_eq!(d.index_timestamp, "1970-01-01T00:00:00+00:00");
    assert!(d.daemon_hot);
    assert_eq!(d.db_path.ends_with("symbols.sqlite"), true);
    assert_eq!(d.tool_version, "0.1.0");
    let cfg = Config::default();
    assert_eq!(cfg.db_path_under(Some("/c".to_string()), "fp", '/'), "/c/fp/symbols.sqlite");
    assert_eq!(cfg.db_path_under(None, "fp", '/'), ".ct/fp/symbols.sqlite");
}

#[test]
fn doc_lookup() {
    let d = doc_symbol(Some(sym("a::b")), "a::b", false).unwrap();
    assert_eq!(d.signature, "fn x()");
    assert_eq!(d.docs, None);
    assert_eq!(doc_symbol(Some(sym("a::b")), "a::b", true).unwrap().docs, Some("d".to_string()));
    assert_eq!(doc_symbol(None, "nope", true).unwrap_err().1, ErrorCode::NotFound);
}

#[test]
fn responses_carry_the_request_id_and_metrics() {
    let r = annotate_response(Response::success(String::new(), serde_json::Value::Null), "id-1".to_string(), 5, 10);
    match r {
        Response::Success(e) => {
            assert_eq!(e.request_id, "id-1");
            assert_eq!(e.metrics.unwrap().elapsed_ms, 5);
        }
        _ => panic!("expected success"),
    }
}

#[test]
fn framing_rejects_newlines_and_blank_lines() {
    assert_eq!(frame_message("{\"a\":1}").unwrap(), "{\"a\":1}\n");
    assert!(matches!(frame_message("{\n}"), Err(ProtocolError::MessageTooLarge(3))));
    assert!(matches!(read_frame(""), Err(ProtocolError::EmptyFrame)));
    assert!(matches!(read_frame("  \r\n"), Err(ProtocolError::EmptyFrame)));
    assert_eq!(read_frame("  {\"x\":2}\r\n").unwrap(), "{\"x\":2}");
    let framed = frame_message("{}").unwrap();
    assert_eq!(read_frame(&framed).unwrap(), "{}");
    match frame_error_response(&ProtocolError::EmptyFrame, "empty line") {
        Response::Error(e) => assert_eq!(e.err_code, ErrorCode::ProtocolError),
        _ => panic!("expected an error"),
    }
    assert!(check_protocol_version(1).is_ok());
    assert!(check_protocol_version(2).is_err());
    assert_eq!(ErrorCode::IndexMismatch.as_str(), "INDEX_MISMATCH");
}

#[test]
fn schema_versions() {
    assert_eq!(check_schema_version(None).unwrap(), SchemaAction::Create);
    assert_eq!(check_schema_version(Some(1)).unwrap(), SchemaAction::UpToDate);
    let e = check_schema_version(Some(0)).unwrap_err();
    assert_eq!(db_error_code(&e), ErrorCode::IndexMismatch);
    assert!(check_schema_version(Some(2)).is_err());
    assert_eq!(parse_schema_version(Some("1")), Some(1));
    assert_eq!(parse_schema_version(Some("+12")), Some(12));
    assert_eq!(parse_schema_version(Some("x1")), Some(0));
    assert_eq!(parse_schema_version(Some("4294967296")), Some(0));
    assert_eq!(parse_schema_version(None), None);
    assert!(check_schema_version(parse_schema_version(Some("0"))).is_err());
}

#[test]
fn store_failures_answer_under_the_request_id() {
    let e = check_schema_version(Some(0)).unwrap_err();
    match store_failure_response("r9".to_string(), &e) {
        Response::Error(env) => {
            assert_eq!(env.request_id, "r9");
            assert_eq!(env.err_code, ErrorCode::IndexMismatch);
        }
        _ => panic!("expected an error"),
    }
    match store_failure_response("r9".to_string(), &DbError::Sqlite("disk".to_string())) {
        Response::Error(env) => assert_eq!(env.err_code, ErrorCode::InternalError),
        _ => panic!("expected an error"),
    }
}

#[test]
fn version_mismatch_keeps_the_request_id() {
    let req = Request { cmd: Command::Diag, request_id: "abc".to_string(), protocol_version: 2 };
    match check_request(&req) {
        Err(Response::Error(e)) => {
            assert_eq!(e.request_id, "abc");
            assert_eq!(e.err_code, ErrorCode::ProtocolError);
        }
        _ => panic!("expected a protocol error"),
    }
    assert!(check_request(&Request::new(Command::Diag, "x".to_string())).is_ok());
}

#[test]
fn connection_steps_on_lines() {
    assert!(matches!(on_line(0, ""), LineStep::Close));
    match on_line(1, "\n") {
        LineStep::Reply { response: Response::Error(e), close } => {
            assert!(close);
            assert_eq!(e.err_code, ErrorCode::ProtocolError);
        }
        _ => panic!("expected a reply"),
    }
    assert!(matches!(on_line(5, " {} \n"), LineStep::Decode(p) if p == "{}"));
    assert!(matches!(on_undecodable("bad"), LineStep::Reply { close: true, .. }));
}

#[test]
fn annotation_keeps_error_fields() {
    let r = annotate_response(Response::error(String::new(), "boom".to_string(), ErrorCode::NotFound), "id".to_string(), 1, 2);
    match r {
        Response::Error(e) => {
            assert_eq!(e.request_id, "id");
            assert_eq!(e.err, "boom");
            assert_eq!(e.err_code, ErrorCode::NotFound);
            assert_eq!(e.protocol_version, PROTOCOL_VERSION);
        }
        _ => panic!("expected an error"),
    }
}

#[test]
fn name_search_matches_wildcards_literally() {
    assert_eq!(escape_like("a_b%c\\d"), "a\\_b\\%c\\\\d");
    let q = find_by_name_query("my_fn", None, None, None, 5);
    assert_eq!(q.params[0], SqlParam::Text("%my\\_fn%".to_string()));
    assert!(q.text.contains("LIKE ? ESCAPE '\\'"));
}

#[test]
fn status_listing_uses_the_find_matrix() {
    let both = status_items_query(None, true, true, 10);
    assert!(!both.text.contains("status ="));
    let neither = status_items_query(None, false, false, 10);
    assert!(neither.text.contains("status = 'implemented'"));
    let unimp = status_items_query(Some("all"), true, false, 10);
    assert!(unimp.text.contains("status = 'unimplemented'"));
    assert_eq!(unimp.params.len(), 1);
    let todo = status_items_query(Some("public"), false, true, 10);
    assert!(todo.text.contains("status = 'todo'"));
    assert_eq!(todo.params[0], SqlParam::Text("public".to_string()));
}
#[test]
fn status_counts_add_up() {
    let rows = vec![("implemented".to_string(), 5), ("todo".to_string(), 2), ("unimplemented".to_string(), 1)];
    let c: StatusCounts = status_counts_from_rows(&rows);
    assert_eq!((c.total, c.implemented, c.unimplemented, c.todo), (8, 5, 1, 2));
    assert_eq!(c.total, c.implemented + c.unimplemented + c.todo);
}

#[test]
fn row_decoding() {
    assert_eq!(parse_symbol_kind("type_alias"), SymbolKind::TypeAlias);
    assert_eq!(parse_symbol_kind("bogus"), SymbolKind::Module);
    assert_eq!(parse_status("todo"), ImplementationStatus::Todo);
    assert_eq!(parse_status("bogus"), ImplementationStatus::Implemented);
}

#[test]
fn name_search_statement() {
    let q = find_by_name_query("St", Some("struct"), Some("all"), Some(ImplementationStatus::Todo), 50);
    assert!(q.text.ends_with(" WHERE name LIKE ? ESCAPE '\\' AND kind = ? AND status = ? ORDER BY name, path, span_start LIMIT ?"));
    assert_eq!(
        q.params,
        vec![
            SqlParam::Text("%St%".to_string()),
            SqlParam::Text("struct".to_string()),
            SqlParam::Text("todo".to_string()),
            SqlParam::Int(50),
        ]
    );
}

#[test]
fn discovery_helpers() {
    let pkgs = vec![
        MetadataPackage { id: "a 0.1".to_string(), name: "a".to_string(), version: "0.1.0".to_string(), manifest_path: "/ws/a/Cargo.toml".to_string() },
        MetadataPackage { id: "dep 1.0".to_string(), name: "dep".to_string(), version: "1.0.0".to_string(), manifest_path: "/reg/dep/Cargo.toml".to_string() },
    ];
    let members = select_workspace_members(&pkgs, &vec!["a 0.1".to_string()]).unwrap();
    assert_eq!(members.len(), 1);
    assert_eq!(members[0].path, "/ws/a");
    assert_eq!(parent_of("/Cargo.toml"), Some("/".to_string()));
    assert_eq!(parent_of("Cargo.toml"), Some(String::new()));
    assert_eq!(parent_of(""), None);
    let args = rustdoc_command_args("my-crate");
    assert_eq!(args[3], "my-crate");
    assert_eq!(args.len(), 11);
    assert_eq!(normalized_name("my-crate_x"), "my_crate-x");
    let (a, b) = rustdoc_json_candidates("/ws/target/doc", "my-crate", '/');
    assert_eq!(a, "/ws/target/doc/my-crate.json");
    assert_eq!(b, "/ws/target/doc/my_crate.json");
}

#[test]
fn client_connect_steps() {
    let mut s = ConnectState::new(2);
    assert_eq!(s.step(false, true), ConnectAction::StartDaemon);
    assert_eq!(s.step(false, true), ConnectAction::Retry { delay_ms: 500 });
    assert_eq!(s.step(false, true), ConnectAction::Retry { delay_ms: 500 });
    assert_eq!(s.step(false, true), ConnectAction::GiveUp);
    assert_eq!(s.step(true, true), ConnectAction::Ready);
    let mut manual = ConnectState::new(3);
    assert_eq!(manual.step(false, false), ConnectAction::GiveUp);
}

#[test]
fn exit_codes_of_answers() {
    assert_eq!(exit_code_for(&Response::success("a".to_string(), serde_json::Value::Null)), 0);
    assert_eq!(exit_code_for(&Response::decision("a".to_string(), "big".to_string(), 9, vec![])), 3);
    assert_eq!(exit_code_for(&Response::error("a".to_string(), "x".to_string(), ErrorCode::InvalidArg)), 2);
    assert_eq!(exit_code_for(&Response::error("a".to_string(), "x".to_string(), ErrorCode::IndexMismatch)), 5);
    assert_eq!(exit_code_for(&Response::error("a".to_string(), "x".to_string(), ErrorCode::NotFound)), 6);
}

#[test]
fn store_path_under_the_cache_directory() {
    let config = Config::default();
    let p = config.get_db_path("blake3:abcd");
    assert!(p.ends_with("symbols.sqlite"));
    assert!(p.contains("blake3:abcd"));
}

#[test]
fn rustc_commit_hash_and_cfg_snapshot() {
    use_hash_helpers();
}

fn use_hash_helpers() {
    let text = b"rustc 1.80.0 (051478957 2024-07-21)\nbinary: rustc\ncommit-hash: 051478957371ee0084a7c0913941d2a8c4757bb9\nhost: x86_64\n";
    assert_eq!(ct::discovery::rustc_hash_from(text), b"sha256:051478957371ee0084a7c0913941d2a8c4757bb9".to_vec());
    assert_eq!(ct::discovery::rustc_hash_from(b"nothing here"), b"sha256:unknown".to_vec());
    assert_eq!(ct::discovery::rustc_hash_from(b"commit-hash:\n"), b"sha256:unknown".to_vec());
    let snap = ct::hashing::compute_cfg_snapshot("target_os=\"linux\"\n");
    assert!(snap.starts_with("blake3:"));
    assert_eq!(snap.len(), 71);
}

#[test]
fn children_expand_breadth_first() {
    use_expansion();
}

fn use_expansion() {
    let paths: Vec<String> = ["k::A::x::y", "k::A::b", "k::AB", "k::A::a", "k::A::b::c", "other"]
        .iter()
        .map(|s| s.to_string())
        .collect();
    assert_eq!(ct::daemon::expand_children("k::A", &paths, 1), vec![1, 3]);
    assert_eq!(ct::daemon::expand_children("k::A", &paths, 2), vec![1, 3, 0, 4]);
    assert_eq!(ct::daemon::expand_children("k::A", &paths, 0), Vec::<usize>::new());
    let q = ct::store::find_under_path_query("k::A");
    assert_eq!(q.params[0], SqlParam::Text("k::A::".to_string()));
}
