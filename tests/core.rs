use ct::config::{Config, Transport};
use ct::hashing::{compute_def_hash, compute_file_digest, compute_symbol_id, compute_workspace_fingerprint};
use ct::models::{ImplementationStatus, SymbolKind, Visibility};
use ct::utils::{format_exit_code, normalize_path, parse_expansion_operators, validate_visibility_filter};

#[test]
fn test_default_config() {
    let config = Config::default();
    assert_eq!(config.max_context_size, 16000);
    assert_eq!(config.autostart, true);
}

#[test]
fn test_effective_transport() {
    let config = Config::default();
    let transport = config.get_effective_transport();
    if std::path::MAIN_SEPARATOR == '/' {
        assert_eq!(transport, Transport::Unix);
    } else {
        assert_eq!(transport, Transport::Pipe);
    }
}

#[test]
fn test_transport_type() {
    let config = Config::default();
    let transport = config.get_effective_transport();
    if std::path::MAIN_SEPARATOR == '/' {
        assert_eq!(transport, Transport::Unix);
    } else {
        assert_eq!(transport, Transport::Pipe);
    }
}

#[test]
fn test_symbol_kind_str() {
    assert_eq!(SymbolKind::Struct.as_str(), "struct");
    assert_eq!(SymbolKind::Fn.as_str(), "fn");
}

#[test]
fn test_visibility_str() {
    assert_eq!(Visibility::Public.as_str(), "public");
    assert_eq!(Visibility::Private.as_str(), "private");
}

#[test]
fn status_names() {
    assert_eq!(ImplementationStatus::Implemented.as_str(), "implemented");
    assert_eq!(ImplementationStatus::Unimplemented.as_str(), "unimplemented");
    assert_eq!(ImplementationStatus::Todo.as_str(), "todo");
    assert_eq!(SymbolKind::TypeAlias.as_str(), "type_alias");
}

#[test]
fn test_normalize_path() {
    assert_eq!(normalize_path("crate::util::State", Some("my_crate")), "my_crate::util::State");
    assert_eq!(normalize_path("other_crate::util::State", Some("my_crate")), "other_crate::util::State");
}

#[test]
fn normalize_path_replaces_every_occurrence() {
    assert_eq!(normalize_path("crate::a::crate::b", Some("k")), "k::a::k::b");
    assert_eq!(normalize_path("crate::x", None), "crate::x");
}

#[test]
fn test_parse_expansion_operators() {
    assert_eq!(parse_expansion_operators(">>"), (2, 0));
    assert_eq!(parse_expansion_operators("<<"), (0, 2));
    assert_eq!(parse_expansion_operators("><"), (1, 1));
    assert_eq!(parse_expansion_operators(""), (0, 0));
}

#[test]
fn expansion_children_two_parents_one() {
    assert_eq!(parse_expansion_operators(">><"), (2, 1));
}

#[test]
fn test_validate_visibility_filter() {
    assert!(validate_visibility_filter(Some("public")).is_ok());
    assert!(validate_visibility_filter(Some("private")).is_ok());
    assert!(validate_visibility_filter(Some("all")).is_ok());
    assert!(validate_visibility_filter(None).is_ok());
    assert!(validate_visibility_filter(Some("invalid")).is_err());
}

#[test]
fn exit_code_words() {
    assert_eq!(format_exit_code(0), "ok");
    assert_eq!(format_exit_code(3), "over-max decision required");
    assert_eq!(format_exit_code(6), "internal error");
    assert_eq!(format_exit_code(9), "unknown (9)");
    assert_eq!(format_exit_code(255), "unknown (255)");
    assert_eq!(format_exit_code(42), "unknown (42)");
}

#[test]
fn test_symbol_id_generation() {
    let id1 = compute_symbol_id("crate::util::State", "struct", "blake3:abc123", 100, 200);
    let id2 = compute_symbol_id("crate::util::State", "struct", "blake3:abc123", 100, 200);
    assert_eq!(id1, id2);
    assert_eq!(id1.len(), 32);
}

#[test]
fn symbol_id_is_truncated_blake3_of_the_inputs() {
    let id = compute_symbol_id("p::a", "fn", "blake3:00", 1, 2);
    let mut input: Vec<u8> = Vec::new();
    input.extend_from_slice(b"ct-v0.1.0");
    input.extend_from_slice(b"p::a");
    input.extend_from_slice(b"fn");
    input.extend_from_slice(b"blake3:00");
    input.extend_from_slice(&1u32.to_le_bytes());
    input.extend_from_slice(&2u32.to_le_bytes());
    let full = blake3::hash(&input);
    assert_eq!(id, hex::encode(&full.as_bytes()[..16]));
    assert!(id.chars().all(|c| c.is_ascii_hexdigit() && !c.is_ascii_uppercase()));
}

#[test]
fn symbol_id_changes_when_the_span_moves() {
    let before = compute_symbol_id("p::f", "fn", "blake3:aa", 10, 20);
    let after = compute_symbol_id("p::f", "fn", "blake3:aa", 15, 25);
    assert_ne!(before, after);
    assert_eq!(compute_def_hash("fn f(a)"), compute_def_hash("fn f(a)"));
}

#[test]
fn test_file_digest() {
    let content = b"hello world";
    let digest = compute_file_digest(content);
    assert!(digest.starts_with("blake3:"));
}

#[test]
fn file_digest_of_hello_world() {
    assert_eq!(
        compute_file_digest(b"hello world"),
        "blake3:d74981efa70a0c880b8d8c1985d075dbcbf679b99a5f9914e5aaf96b831a9e24"
    );
}

#[test]
fn def_hash_is_plain_hex_of_signature_hash() {
    let h = compute_def_hash("fn f(a, b) -> _");
    assert_eq!(h, blake3::hash(b"fn f(a, b) -> _").to_hex().to_string());
    assert_ne!(h, compute_def_hash("fn f(x, b) -> _"));
}

#[test]
fn workspace_fingerprint_has_sixteen_hex_digits() {
    let fp = compute_workspace_fingerprint("/home/u/ws");
    assert_eq!(fp.len(), 23);
    assert!(fp.starts_with("blake3:"));
    let full = blake3::hash(b"/home/u/ws").to_hex().to_string();
    assert_eq!(&fp[7..], &full[..16]);
}

#[test]
fn socket_and_pipe_names_use_the_fingerprint_prefix() {
    let config = Config::default();
    assert_eq!(config.socket_path_for("blake3:0123456789", '/'), "/tmp/ctd-blake3:0.sock");
    assert_eq!(config.socket_path_for("blake3:0123456789", '\\'), "/tmp/ctd.sock");
    assert_eq!(config.pipe_name_for("abcdefghij", '\\'), r"\\.\pipe\ctd-abcdefgh");
    assert_eq!(config.pipe_name_for("abcdefghij", '/'), r"\\.\pipe\ctd");
}

#[test]
fn db_path_under_configured_directory() {
    let mut config = Config::default();
    config.db_dir = Some("/var/ct".to_string());
    let p = config.get_db_path("blake3:00");
    if std::path::MAIN_SEPARATOR == '/' {
        assert_eq!(p, "/var/ct/symbols.sqlite");
    }
    assert_eq!(config.cache_dir_under(None, "fp", '/'), ".ct/fp");
    assert_eq!(config.cache_dir_under(Some("/c/".to_string()), "fp", '/'), "/c/fp");
}

#[test]
fn crate_fingerprint_folds_in_the_tool_version() {
    let fp = ct::hashing::compute_crate_fingerprint("a", "0.1.0", "a 0.1.0");
    let mut input = Vec::new();
    input.extend_from_slice(b"a0.1.0a 0.1.0ct-v0.1.0");
    assert_eq!(fp, format!("blake3:{}", blake3::hash(&input).to_hex()));
}
