use ct::sample::crate_a::{parse_config, validate_input, State};
use ct::sample::crate_b::{init_endpoints, process_api_request, Handler, Method, Response};
use ct::sample::shared::Config;
use ct::sample::simple_test::TestStruct;

#[test]
fn test_handler_creation() {
    let handler = Handler::new("test".to_string());
    assert_eq!(handler.operations.len(), 0);
}

#[test]
fn test_response() {
    let resp = Response::success("OK");
    assert!(resp.success);
    assert_eq!(resp.message, "OK");
}

#[test]
fn state_runs_and_counts() {
    let mut s = State::new("app".to_string());
    assert!(!s.running);
    s.start();
    s.increment();
    s.increment();
    assert!(s.running);
    assert_eq!(s.counter(), 2);
    s.reset();
    assert_eq!(s.counter(), 0);
    assert!(!s.running);
}

#[test]
fn settings_replace_earlier_values() {
    let mut c = Config::new(true);
    assert!(c.get_setting("k").is_none());
    c.set_setting("k".to_string(), "1".to_string());
    c.set_setting("j".to_string(), "2".to_string());
    c.set_setting("k".to_string(), "3".to_string());
    assert_eq!(c.get_setting("k"), Some(&"3".to_string()));
    assert_eq!(c.get_setting("j"), Some(&"2".to_string()));
    assert_eq!(c.settings.len(), 2);
    assert!(c.validate().is_ok());
    c.timeout_ms = 0;
    match c.validate() {
        Err(ct::sample::shared::Error::InvalidInput(m)) => assert_eq!(m, "timeout_ms must be greater than 0"),
        _ => panic!("expected invalid input"),
    }
    c.max_connections = 0;
    match c.validate() {
        Err(ct::sample::shared::Error::InvalidInput(m)) => assert_eq!(m, "max_connections must be greater than 0"),
        _ => panic!("expected invalid input"),
    }
}

#[test]
fn sample_helpers() {
    assert!(validate_input("x"));
    assert!(!validate_input(""));
    assert!(!validate_input(&"a".repeat(1000)));
    assert_eq!(parse_config("anything").unwrap().max_connections, 100);
    let eps = init_endpoints();
    assert_eq!(eps.len(), 3);
    assert_eq!(eps[2].path, "/status");
    assert!(eps[2].method == Method::Get);
    assert_eq!(process_api_request("/x", Method::Put).unwrap(), "API response");
    let t = TestStruct::new("f".to_string(), 3);
    let c = t.clone();
    assert_eq!(c.field1, "f");
    assert_eq!(c.field2, 3);
}
