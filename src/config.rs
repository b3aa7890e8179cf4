//! Daemon and client configuration: documented defaults and the addresses
//! and store location derived from them.
use vstd::prelude::*;
use vstd::string::*;
use crate::text::push_char;

verus! {

/// How the client reaches the daemon.
#[derive(Debug, Clone, Copy, PartialEq, Eq, Structural)]
pub enum Transport {
    Auto,
    Unix,
    Pipe,
    Tcp,
}

/// The configuration name of each transport.
pub open spec fn transport_name(t: Transport) -> Seq<char> {
    match t {
        Transport::Auto => "auto"@,
        Transport::Unix => "unix"@,
        Transport::Pipe => "pipe"@,
        Transport::Tcp => "tcp"@,
    }
}

impl Transport {
    /// The configuration name of the transport.
    pub fn as_str(&self) -> (r: &'static str)
        ensures
            r@ == transport_name(*self),
    {
        match self {
            Transport::Auto => "auto",
            Transport::Unix => "unix",
            Transport::Pipe => "pipe",
            Transport::Tcp => "tcp",
        }
    }
}

/// The settings of the daemon and its clients.
#[derive(Debug, Clone)]
pub struct Config {
    pub transport: Transport,
    pub autostart: bool,
    pub socket_path: String,
    pub pipe_name: String,
    pub tcp_addr: String,
    pub allow_full_context: bool,
    pub workspace_allow: Vec<String>,
    pub max_context_size: usize,
    pub max_list: usize,
    pub bundle_source_cap: usize,
    pub db_dir: Option<String>,
    pub db_file: String,
    pub references_top_n: usize,
    pub max_mem_mb: usize,
    pub bench_queries: u32,
    pub bench_duration_s: u32,
    pub watcher_debounce_ms: u64,
}

pub fn default_transport() -> (r: Transport)
    ensures
        r == Transport::Auto,
{
    Transport::Auto
}

pub fn default_autostart() -> (r: bool)
    ensures
        r,
{
    true
}

pub fn default_socket_path() -> (r: String)
    ensures
        r@ == "/tmp/ctd.sock"@,
{
    "/tmp/ctd.sock".to_owned()
}

pub fn default_pipe_name() -> (r: String)
    ensures
        r@ == "\\\\.\\pipe\\ctd"@,
{
    "\\\\.\\pipe\\ctd".to_owned()
}

pub fn default_tcp_addr() -> (r: String)
    ensures
        r@ == "127.0.0.1:48732"@,
{
    "127.0.0.1:48732".to_owned()
}

pub fn default_allow_full_context() -> (r: bool)
    ensures
        !r,
{
    false
}

pub fn default_max_context_size() -> (r: usize)
    ensures
        r == 16000,
{
    16000
}

pub fn default_max_list() -> (r: usize)
    ensures
        r == 200,
{
    200
}

pub fn default_bundle_source_cap() -> (r: usize)
    ensures
        r == 3000,
{
    3000
}

pub fn default_db_file() -> (r: String)
    ensures
        r@ == "symbols.sqlite"@,
{
    "symbols.sqlite".to_owned()
}

pub fn default_references_top_n() -> (r: usize)
    ensures
        r == 16,
{
    16
}

pub fn default_max_mem_mb() -> (r: usize)
    ensures
        r == 512,
{
    512
}

pub fn default_bench_queries() -> (r: u32)
    ensures
        r == 200,
{
    200
}

pub fn default_bench_duration_s() -> (r: u32)
    ensures
        r == 5,
{
    5
}

pub fn default_watcher_debounce_ms() -> (r: u64)
    ensures
        r == 300,
{
    300
}

/// The configuration with every documented default.
pub open spec fn is_default_config(c: Config) -> bool {
    &&& c.transport == Transport::Auto
    &&& c.autostart
    &&& c.socket_path@ == "/tmp/ctd.sock"@
    &&& c.pipe_name@ == "\\\\.\\pipe\\ctd"@
    &&& c.tcp_addr@ == "127.0.0.1:48732"@
    &&& !c.allow_full_context
    &&& c.workspace_allow@.len() == 0
    &&& c.max_context_size == 16000
    &&& c.max_list == 200
    &&& c.bundle_source_cap == 3000
    &&& c.db_dir is None
    &&& c.db_file@ == "symbols.sqlite"@
    &&& c.references_top_n == 16
    &&& c.max_mem_mb == 512
    &&& c.bench_queries == 200
    &&& c.bench_duration_s == 5
    &&& c.watcher_debounce_ms == 300
}

impl Default for Config {
    fn default() -> (r: Config)
        ensures
            is_default_config(r),
    {
        Config {
            transport: default_transport(),
            autostart: default_autostart(),
            socket_path: default_socket_path(),
            pipe_name: default_pipe_name(),
            tcp_addr: default_tcp_addr(),
            allow_full_context: default_allow_full_context(),
            workspace_allow: Vec::new(),
            max_context_size: default_max_context_size(),
            max_list: default_max_list(),
            bundle_source_cap: default_bundle_source_cap(),
            db_dir: None,
            db_file: default_db_file(),
            references_top_n: default_references_top_n(),
            max_mem_mb: default_max_mem_mb(),
            bench_queries: default_bench_queries(),
            bench_duration_s: default_bench_duration_s(),
            watcher_debounce_ms: default_watcher_debounce_ms(),
        }
    }
}

/// Relies on std::path::MAIN_SEPARATOR: the path separator of the platform
/// this runs on (`/` on Unix, `\` on Windows).
#[verifier::external_body]
fn host_separator() -> (r: char) {
    std::path::MAIN_SEPARATOR
}

/// Relies on directories::ProjectDirs: the per-user cache directory for an
/// application, where the platform has one.
#[verifier::external_body]
fn project_cache_dir(app: &str) -> (r: Option<String>) {
    match directories::ProjectDirs::from("", "", app) {
        Some(d) => Some(d.cache_dir().to_string_lossy().into_owned()),
        None => None,
    }
}

/// The transport that `auto` stands for on a platform whose path separator
/// is `sep`: a Unix socket where it is `/`, a named pipe where it is `\`,
/// TCP elsewhere.
pub open spec fn effective_transport(t: Transport, sep: char) -> Transport {
    match t {
        Transport::Auto => if sep == '/' {
            Transport::Unix
        } else if sep == '\\' {
            Transport::Pipe
        } else {
            Transport::Tcp
        },
        other => other,
    }
}

/// `a` and `b` joined as paths with separator `sep`: an absolute `b`
/// stands alone.
pub open spec fn join_path(a: Seq<char>, b: Seq<char>, sep: char) -> Seq<char> {
    if b.len() > 0 && (b[0] == '/' || b[0] == sep) {
        b
    } else if a.len() == 0 || a.last() == sep || a.last() == '/' {
        a + b
    } else {
        a.push(sep) + b
    }
}

/// The first (at most) eight characters of a fingerprint.
pub open spec fn short_fingerprint(fp: Seq<char>) -> Seq<char> {
    if fp.len() <= 8 {
        fp
    } else {
        fp.subrange(0, 8)
    }
}

/// Joins two paths with separator `sep`.
pub fn join_path_with(a: &str, b: &str, sep: char) -> (r: String)
    ensures
        r@ == join_path(a@, b@, sep),
{
    let nb = b.unicode_len();
    if nb > 0 && (b.get_char(0) == '/' || b.get_char(0) == sep) {
        return b.to_owned();
    }
    let na = a.unicode_len();
    let mut r = a.to_owned();
    if !(na == 0 || a.get_char(na - 1) == sep || a.get_char(na - 1) == '/') {
        push_char(&mut r, sep);
    }
    r.append(b);
    r
}

/// The first (at most) eight characters of a fingerprint.
fn fingerprint_prefix(fp: &str) -> (r: &str)
    ensures
        r@ == short_fingerprint(fp@),
{
    let n = fp.unicode_len();
    if n <= 8 {
        fp
    } else {
        fp.substring_char(0, 8)
    }
}

impl Config {
    /// The transport in use on a platform whose path separator is `sep`.
    pub fn effective_transport_for(&self, sep: char) -> (r: Transport)
        ensures
            r == effective_transport(self.transport, sep),
    {
        match self.transport {
            Transport::Auto => if sep == '/' {
                Transport::Unix
            } else if sep == '\\' {
                Transport::Pipe
            } else {
                Transport::Tcp
            },
            other => other,
        }
    }

    /// The transport in use on this platform: the configured one, or for
    /// `auto` the platform's own.
    pub fn get_effective_transport(&self) -> (r: Transport)
        ensures
            self.transport != Transport::Auto ==> r == self.transport,
            self.transport == Transport::Auto ==> r != Transport::Auto,
            exists|sep: char| r == effective_transport(self.transport, sep),
    {
        self.effective_transport_for(host_separator())
    }

    /// The per-workspace socket path on a platform whose separator is `sep`.
    pub fn socket_path_for(&self, workspace_fingerprint: &str, sep: char) -> (r: String)
        ensures
            sep == '/' ==> r@ == "/tmp/ctd-"@ + short_fingerprint(workspace_fingerprint@) + ".sock"@,
            sep != '/' ==> r@ == self.socket_path@,
    {
        if sep == '/' {
            let mut r = "/tmp/ctd-".to_owned();
            r.append(fingerprint_prefix(workspace_fingerprint));
            r.append(".sock");
            r
        } else {
            self.socket_path.clone()
        }
    }

    /// The per-workspace socket path: `/tmp/ctd-<first 8>.sock` on Unix, the
    /// configured path elsewhere.
    pub fn get_socket_path(&self, workspace_fingerprint: &str) -> (r: String)
        ensures
            r@ == self.socket_path@ || r@ == "/tmp/ctd-"@ + short_fingerprint(
                workspace_fingerprint@,
            ) + ".sock"@,
    {
        self.socket_path_for(workspace_fingerprint, host_separator())
    }

    /// The per-workspace pipe name on a platform whose separator is `sep`.
    pub fn pipe_name_for(&self, workspace_fingerprint: &str, sep: char) -> (r: String)
        ensures
            sep == '\\' ==> r@ == "\\\\.\\pipe\\ctd-"@ + short_fingerprint(workspace_fingerprint@),
            sep != '\\' ==> r@ == self.pipe_name@,
    {
        if sep == '\\' {
            let mut r = "\\\\.\\pipe\\ctd-".to_owned();
            r.append(fingerprint_prefix(workspace_fingerprint));
            r
        } else {
            self.pipe_name.clone()
        }
    }

    /// The per-workspace pipe name: `\\.\pipe\ctd-<first 8>` on Windows, the
    /// configured name elsewhere.
    pub fn get_pipe_name(&self, workspace_fingerprint: &str) -> (r: String)
        ensures
            r@ == self.pipe_name@ || r@ == "\\\\.\\pipe\\ctd-"@ + short_fingerprint(
                workspace_fingerprint@,
            ),
    {
        self.pipe_name_for(workspace_fingerprint, host_separator())
    }

    /// The per-workspace cache directory under a user cache root (`None`
    /// where the platform has none, which falls back to `.ct`).
    pub fn cache_dir_under(
        &self,
        cache_root: Option<String>,
        workspace_fingerprint: &str,
        sep: char,
    ) -> (r: String)
        ensures
            r@ == cache_dir_of(opt_string_view(cache_root), workspace_fingerprint@, sep),
    {
        match cache_root {
            Some(c) => join_path_with(c.as_str(), workspace_fingerprint, sep),
            None => join_path_with(".ct", workspace_fingerprint, sep),
        }
    }

    /// The store file for a user cache root and separator: under the
    /// configured directory, or else under the per-workspace cache directory.
    pub fn db_path_under(
        &self,
        cache_root: Option<String>,
        workspace_fingerprint: &str,
        sep: char,
    ) -> (r: String)
        ensures
            r@ == db_path_of(*self, opt_string_view(cache_root), workspace_fingerprint@, sep),
    {
        match &self.db_dir {
            Some(d) => join_path_with(d.as_str(), self.db_file.as_str(), sep),
            None => {
                let dir = self.cache_dir_under(cache_root, workspace_fingerprint, sep);
                join_path_with(dir.as_str(), self.db_file.as_str(), sep)
            },
        }
    }

    /// The per-workspace cache directory on this machine.
    pub fn get_cache_dir(&self, workspace_fingerprint: &str) -> (r: String)
        ensures
            exists|root: Option<Seq<char>>, sep: char|
                r@ == cache_dir_of(root, workspace_fingerprint@, sep),
    {
        self.cache_dir_under(project_cache_dir("ct"), workspace_fingerprint, host_separator())
    }

    /// The store file on this machine: under the configured directory, or
    /// else under the per-workspace cache directory.
    pub fn get_db_path(&self, workspace_fingerprint: &str) -> (r: String)
        ensures
            exists|root: Option<Seq<char>>, sep: char|
                r@ == db_path_of(*self, root, workspace_fingerprint@, sep),
    {
        self.db_path_under(project_cache_dir("ct"), workspace_fingerprint, host_separator())
    }
}

/// The view of an optional string.
pub open spec fn opt_string_view(o: Option<String>) -> Option<Seq<char>> {
    match o {
        Some(s) => Some(s@),
        None => None,
    }
}

/// The per-workspace cache directory under a cache root (`.ct` without one).
pub open spec fn cache_dir_of(root: Option<Seq<char>>, fp: Seq<char>, sep: char) -> Seq<char> {
    join_path(
        match root {
            Some(c) => c,
            None => ".ct"@,
        },
        fp,
        sep,
    )
}

/// The store file of a configuration for a cache root and separator.
pub open spec fn db_path_of(c: Config, root: Option<Seq<char>>, fp: Seq<char>, sep: char) -> Seq<char> {
    match c.db_dir {
        Some(d) => join_path(d@, c.db_file@, sep),
        None => join_path(cache_dir_of(root, fp, sep), c.db_file@, sep),
    }
}

} // verus!
