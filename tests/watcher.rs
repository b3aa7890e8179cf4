use ct::watcher::{collect_changed_paths, is_ignored, is_rust_file, WatchEventKind};

#[test]
fn test_is_rust_file() {
    assert!(is_rust_file("main.rs"));
    assert!(is_rust_file("src/lib.rs"));
    assert!(!is_rust_file("Cargo.toml"));
    assert!(!is_rust_file("README.md"));
}

#[test]
fn test_is_ignored() {
    assert!(is_ignored("target/debug/main"));
    assert!(is_ignored(".git/config"));
    assert!(!is_ignored("src/main.rs"));
}

#[test]
fn ignores_target_anywhere_and_dotted_directories() {
    assert!(is_ignored("crates/a/target/x.rs"));
    assert!(is_ignored("a/.hidden/b.rs"));
    assert!(!is_ignored("a/targets/b.rs"));
    assert!(!is_rust_file(".rs"));
    assert!(is_rust_file("a/b.rs/"));
}

#[test]
fn batch_is_sorted_deduplicated_and_filtered() {
    let events = vec![
        (WatchEventKind::Modify, vec!["src/b.rs".to_string(), "src/a.rs".to_string()]),
        (WatchEventKind::Create, vec!["src/a.rs".to_string(), "target/x.rs".to_string()]),
        (WatchEventKind::Other, vec!["src/c.rs".to_string()]),
        (WatchEventKind::Remove, vec![".git/d.rs".to_string(), "README.md".to_string()]),
    ];
    let batch = collect_changed_paths(&events);
    assert_eq!(batch, vec!["src/a.rs".to_string(), "src/b.rs".to_string()]);
}

#[test]
fn a_dot_segment_inside_a_path_is_no_directory() {
    assert!(!is_ignored("a/./b"));
    assert!(!is_ignored("a/b/."));
    assert!(is_ignored("./a"));
    assert!(is_ignored("a/../b"));
    assert!(is_rust_file("a/b.rs/."));
    let events = vec![(WatchEventKind::Create, vec!["a/./b.rs".to_string()])];
    assert_eq!(collect_changed_paths(&events), vec!["a/./b.rs".to_string()]);
}

#[test]
fn batch_is_ordered_and_deduplicated_by_components() {
    let events = vec![
        (WatchEventKind::Modify, vec!["a-b.rs".to_string(), "a/b.rs".to_string()]),
        (WatchEventKind::Modify, vec!["a//b.rs".to_string(), "a/./b.rs".to_string()]),
    ];
    let batch = collect_changed_paths(&events);
    assert_eq!(batch, vec!["a/b.rs".to_string(), "a-b.rs".to_string()]);
}
