//! A request handler over the application state, and its endpoints.
use vstd::prelude::*;
use vstd::string::*;
use crate::sample::crate_a::{Operation, State};
use crate::sample::shared::Logger;

verus! {

/// Main service handler.
#[derive(Debug, Clone)]
pub struct Handler {
    pub state: State,
    pub logger: Logger,
    pub operations: Vec<Operation>,
}

impl Handler {
    /// A handler over a fresh state, with no operations yet.
    pub fn new(name: String) -> (r: Handler)
        ensures
            r.state.name == name,
            !r.state.running,
            r.operations@.len() == 0,
            r.logger.prefix@ == "handler"@,
            r.logger.enabled,
    {
        Handler { state: State::new(name), logger: Logger::new("handler"), operations: Vec::new() }
    }
}

/// Request kinds.
#[derive(Debug, Clone)]
pub enum RequestKind {
    Start,
    Stop,
    Execute(Operation),
    Status,
}

/// A request.
#[derive(Debug, Clone)]
pub struct Request {
    pub id: u64,
    pub kind: RequestKind,
}

/// A response.
#[derive(Debug, Clone)]
pub struct Response {
    pub success: bool,
    pub message: String,
}

impl Response {
    pub fn success(msg: &str) -> (r: Response)
        ensures
            r.success,
            r.message@ == msg@,
    {
        Response { success: true, message: msg.to_owned() }
    }

    pub fn error(msg: &str) -> (r: Response)
        ensures
            !r.success,
            r.message@ == msg@,
    {
        Response { success: false, message: msg.to_owned() }
    }
}

/// HTTP methods.
#[derive(Debug, Clone, Copy, PartialEq, Eq, Structural)]
pub enum Method {
    Get,
    Post,
    Put,
    Delete,
}

/// An API endpoint.
#[derive(Debug, Clone)]
pub struct EndpointConfig {
    pub path: String,
    pub method: Method,
    pub auth_required: bool,
}

/// The API endpoints: start and stop by POST with authentication, status
/// by GET without.
pub fn init_endpoints() -> (r: Vec<EndpointConfig>)
    ensures
        r@.len() == 3,
        r@[0].path@ == "/start"@ && r@[0].method == Method::Post && r@[0].auth_required,
        r@[1].path@ == "/stop"@ && r@[1].method == Method::Post && r@[1].auth_required,
        r@[2].path@ == "/status"@ && r@[2].method == Method::Get && !r@[2].auth_required,
{
    let mut v: Vec<EndpointConfig> = Vec::new();
    v.push(EndpointConfig { path: "/start".to_owned(), method: Method::Post, auth_required: true });
    v.push(EndpointConfig { path: "/stop".to_owned(), method: Method::Post, auth_required: true });
    v.push(EndpointConfig { path: "/status".to_owned(), method: Method::Get, auth_required: false });
    v
}

/// Answers an API request.
pub fn process_api_request(path: &str, method: Method) -> (r: Result<String, String>)
    ensures
        r matches Ok(s) && s@ == "API response"@,
{
    Ok("API response".to_owned())
}

} // verus!
