//! The daemon's request decisions: validating a command, planning the store
//! reads it needs, and shaping the answer from what they return.
use vstd::prelude::*;
use vstd::string::*;
use crate::config::{db_path_of, effective_transport, transport_name, Config};
use crate::indexer::Indexer;
use crate::models::{
    Bundle, BundleInvariants, DiagResponse, ImplRange, StatusCounts,
    StatusItem, StatusResponse, Symbol,
};
use crate::protocol::{
    request_id_of, Command, ErrorCode, Metrics, Request, Response, PROTOCOL_VERSION,
};
use crate::store::{
    db_error_code, DbError,
    find_by_name_params, find_by_name_query, find_by_name_text, find_by_path_query,
    find_status_filter, limit_param, status_counts_query, status_filter_for, status_items_query,
    symbol_select, text_params, vis_restricts, opt_str_view, status_items_clause, SqlParam, SqlQuery, CURRENT_VERSION,
};
use crate::indexer::opt_view;
use crate::text::{cat, is_prefix, starts_with};
use crate::utils::{count_char, decimal, parse_expansion_operators, to_decimal, valid_visibility, validate_visibility_filter};

verus! {

/// The RFC 3339 text of a Unix time in seconds.
pub uninterp spec fn rfc3339_of(secs: i64) -> Seq<char>;

/// Relies on chrono::DateTime::from_timestamp and to_rfc3339: the UTC
/// date and time of a Unix time, where chrono can represent it.
#[verifier::external_body]
fn format_rfc3339(secs: i64) -> (r: Option<String>)
    ensures
        r matches Some(t) ==> t@ == rfc3339_of(secs),
        0 <= secs <= 253402300799 ==> r is Some,
{
    match chrono::DateTime::from_timestamp(secs, 0) {
        Some(dt) => Some(dt.to_rfc3339()),
        None => None,
    }
}

/// A refused request: the message and its wire code.
pub type Rejection = (String, ErrorCode);

/// The store reads a request needs, or the work it starts.
#[derive(Debug, Clone)]
pub enum DaemonAction {
    /// Run the name search; `all` keeps every field of each symbol.
    FindByName { query: SqlQuery, all: bool },
    /// Look up one path; `all` keeps every field.
    FindByPath { query: SqlQuery, all: bool },
    /// Look up one path and show its documentation.
    Doc { path: String, query: SqlQuery, include_docs: bool },
    /// List around a path, `children` levels down and `parents` up.
    Ls { path: String, children: usize, parents: usize, impl_parents: bool, include_docs: bool },
    /// Export a bundle around a path.
    Export {
        query: SqlQuery,
        children: usize,
        parents: usize,
        include_docs: bool,
        impl_parents: bool,
        with_source: bool,
    },
    /// Re-run indexing with these rules.
    Reindex { indexer: Indexer, features: Vec<String>, target: Option<String> },
    /// Count statuses and list items.
    Status { counts: SqlQuery, items: SqlQuery },
    /// Build the diagnostic record.
    Diag,
    /// Run the self-benchmark.
    Bench { queries: u32, warmup: u32, duration: u32 },
}

/// One brief search result: where a symbol is.
#[derive(Debug, Clone)]
pub struct FindItem {
    pub path: String,
    pub span_start: u32,
    pub span_end: u32,
}

/// Search results, whole or brief.
#[derive(Debug, Clone)]
pub enum FindItems {
    Full(Vec<Symbol>),
    Brief(Vec<FindItem>),
}

/// What a documentation request shows of a symbol.
#[derive(Debug, Clone)]
pub struct DocSymbol {
    pub path: String,
    pub signature: String,
    pub docs: Option<String>,
}

/// The state the daemon keeps between requests.
#[derive(Debug, Clone)]
pub struct DaemonState {
    pub config: Config,
    pub workspace_fingerprint: String,
    pub db_path: String,
    pub index_timestamp: u64,
    pub last_index_duration_ms: u64,
}

/// A copy of a list of strings.
fn copy_strings(v: &Vec<String>) -> (r: Vec<String>)
    ensures
        r@ == v@,
{
    let mut r: Vec<String> = Vec::new();
    let mut i: usize = 0;
    while i < v.len()
        invariant
            i <= v@.len(),
            r@ == v@.subrange(0, i as int),
        decreases v@.len() - i,
    {
        r.push(v[i].clone());
        i = i + 1;
        assert(r@ =~= v@.subrange(0, i as int));
    }
    assert(v@.subrange(0, v@.len() as int) =~= v@);
    r
}

/// A visibility filter a request may carry: none or a valid one.
pub open spec fn vis_ok(vis: Option<String>) -> bool {
    vis matches Some(v) ==> valid_visibility(v@)
}

/// Checks a request's visibility filter.
fn check_vis(vis: &Option<String>) -> (r: Result<(), Rejection>)
    ensures
        r is Ok <==> vis_ok(*vis),
        r matches Err(e) ==> e.1 == ErrorCode::InvalidArg,
{
    match vis {
        None => Ok(()),
        Some(v) => match validate_visibility_filter(Some(v.as_str())) {
            Ok(_) => Ok(()),
            Err(_) => {
                let msg = cat("Invalid visibility filter: ", v.as_str());
                Err((msg, ErrorCode::InvalidArg))
            },
        },
    }
}

/// The expansion depths of an optional expansion string.
fn depths(expansion: &Option<String>) -> (r: (usize, usize))
    ensures
        expansion is None ==> r == (0usize, 0usize),
        expansion matches Some(e) ==> r.0 == count_char(e@, '>') && r.1 == count_char(e@, '<'),
{
    match expansion {
        Some(e) => parse_expansion_operators(e.as_str()),
        None => (0, 0),
    }
}

/// An optional string as an optional slice.
fn opt_str(o: &Option<String>) -> (r: Option<&str>)
    ensures
        o is None <==> r is None,
        o matches Some(s) ==> r matches Some(t) && t@ == s@,
        opt_str_view(r) == opt_view(*o),
{
    match o {
        Some(s) => Some(s.as_str()),
        None => None,
    }
}

/// A lookup of one exact path.
pub open spec fn path_lookup(q: SqlQuery, path: Seq<char>) -> bool {
    &&& q.text@ == symbol_select() + " WHERE path = ?"@
    &&& q.params@.len() == 1
    &&& q.params@[0] is Text
    &&& q.params@[0]->Text_0@ == path
}

/// The request is refused for its arguments: a search without name or path,
/// or a visibility filter other than `public`, `private` and `all`.
pub open spec fn invalid_command(cmd: Command) -> bool {
    match cmd {
        Command::Find { name, path, vis, .. } => (name is None && path is None) || !vis_ok(vis),
        Command::Doc { vis, .. } => !vis_ok(vis),
        Command::Ls { vis, .. } => !vis_ok(vis),
        Command::Export { vis, .. } => !vis_ok(vis),
        Command::Status { vis, .. } => !vis_ok(vis),
        _ => false,
    }
}

/// The options offered when an answer is over budget.
pub open spec fn decision_options(allow_full: bool) -> Seq<Seq<char>> {
    if allow_full {
        seq!["signatures_only"@, "no_source"@, "full"@]
    } else {
        seq!["signatures_only"@, "no_source"@]
    }
}

impl DaemonState {
    /// The state for a workspace, its store located by the configuration,
    /// indexed at `index_timestamp` (Unix seconds).
    pub fn new(config: Config, workspace_fingerprint: String, index_timestamp: u64) -> (r: DaemonState)
        ensures
            r.config == config,
            r.workspace_fingerprint == workspace_fingerprint,
            r.index_timestamp == index_timestamp,
            r.last_index_duration_ms == 0,
            exists|root: Option<Seq<char>>, sep: char|
                r.db_path@ == db_path_of(config, root, workspace_fingerprint@, sep),
    {
        let db_path = config.get_db_path(workspace_fingerprint.as_str());
        DaemonState {
            config,
            workspace_fingerprint,
            db_path,
            index_timestamp,
            last_index_duration_ms: 0,
        }
    }

    /// The search plan: refused without name and path or with an invalid
    /// visibility filter; by name with the status matrix and the list
    /// limit, else by exact path.
    pub fn handle_find(
        &self,
        name: &Option<String>,
        path: &Option<String>,
        kind: &Option<String>,
        vis: &Option<String>,
        unimplemented: Option<bool>,
        todo: Option<bool>,
        all: Option<bool>,
    ) -> (r: Result<DaemonAction, Rejection>)
        ensures
            r is Err <==> ((name is None && path is None) || !vis_ok(*vis)),
            r matches Err(e) ==> e.1 == ErrorCode::InvalidArg,
            r matches Ok(a) ==> (name is Some ==> a is FindByName) && (name is None ==> a is FindByPath),
            r matches Ok(a) ==> match a {
                DaemonAction::FindByName { query, all: keep } => {
                    &&& keep == (all == Some(true))
                    &&& query.text@ == find_by_name_text(
                        kind is Some,
                        vis_restricts(opt_view(*vis)),
                        find_status_filter(unimplemented, todo) is Some,
                    )
                    &&& query.params@.len() >= 1
                    &&& text_params(query.params@.drop_last()) == find_by_name_params(
                        name->0@,
                        opt_view(*kind),
                        opt_view(*vis),
                        find_status_filter(unimplemented, todo),
                        self.config.max_list,
                    )
                    &&& query.params@.last() == SqlParam::Int(limit_param(self.config.max_list))
                },
                DaemonAction::FindByPath { query, all: keep } => {
                    &&& keep == (all == Some(true))
                    &&& query.text@ == symbol_select() + " WHERE path = ?"@
                    &&& query.params@.len() == 1 && query.params@[0] is Text
                    &&& query.params@[0]->Text_0@ == path->0@
                },
                _ => false,
            },
    {
        if name.is_none() && path.is_none() {
            return Err(("Must provide either name or path".to_owned(), ErrorCode::InvalidArg));
        }
        check_vis(vis)?;
        let keep = match all {
            Some(true) => true,
            _ => false,
        };
        match name {
            Some(n) => {
                let status = status_filter_for(unimplemented, todo);

                let query = find_by_name_query(
                    n.as_str(),
                    opt_str(kind),
                    opt_str(vis),
                    status,
                    self.config.max_list,
                );
                Ok(DaemonAction::FindByName { query, all: keep })
            },
            None => {
                let p = match path {
                    Some(p) => p.as_str(),
                    None => "",
                };
                Ok(DaemonAction::FindByPath { query: find_by_path_query(p), all: keep })
            },
        }
    }

    /// The plan of a request, or why it is refused.
    pub fn plan_request(&self, cmd: &Command) -> (r: Result<DaemonAction, Rejection>)
        ensures
            r is Err <==> invalid_command(*cmd),
            r matches Err(e) ==> e.1 == ErrorCode::InvalidArg,
            r matches Ok(a) ==> match *cmd {
                Command::Find { name, .. } => (name is Some ==> a is FindByName) && (name is None
                    ==> a is FindByPath),
                Command::Doc { path, include_docs, .. } => (a matches DaemonAction::Doc {
                    path: p,
                    query,
                    include_docs: d,
                } && p == path && d == include_docs && path_lookup(query, path@)),
                Command::Ls { path, expansion, .. } => (a matches DaemonAction::Ls {
                    path: p,
                    children,
                    parents,
                    ..
                } && p == path && match expansion {
                    Some(e) => children == count_char(e@, '>') && parents == count_char(e@, '<'),
                    None => children == 0 && parents == 0,
                }),
                Command::Export { path, expansion, include_docs, impl_parents, with_source, .. } => (
                a matches DaemonAction::Export {
                    query,
                    children,
                    parents,
                    include_docs: d,
                    impl_parents: ip,
                    with_source: ws,
                } && path_lookup(query, path@) && d == include_docs && ip == impl_parents && ws
                    == with_source && match expansion {
                    Some(e) => children == count_char(e@, '>') && parents == count_char(e@, '<'),
                    None => children == 0 && parents == 0,
                }),
                Command::Reindex { features, target, module, struct_name, include_derives } => (a matches DaemonAction::Reindex {
                    indexer,
                    ..
                } && indexer.filter_module == module && indexer.filter_struct == struct_name
                    && indexer.include_derives == include_derives && a->Reindex_target == target
                    && a->Reindex_features@ == match features {
                    Some(f) => f@,
                    None => Seq::<String>::empty(),
                }),
                Command::Status { vis, unimplemented, todo } => (a matches DaemonAction::Status {
                    counts,
                    items,
                } && counts.text@ == "SELECT status, COUNT(*) FROM symbols WHERE 1=1"@ + (if vis_restricts(
                    opt_view(vis),
                ) {
                    " AND visibility = ?"@
                } else {
                    Seq::empty()
                }) + " GROUP BY status"@ && items.text@ == "SELECT path, status, kind FROM symbols WHERE 1=1"@
                    + (if vis_restricts(opt_view(vis)) {
                    " AND visibility = ?"@
                } else {
                    Seq::empty()
                }) + status_items_clause(unimplemented == Some(true), todo == Some(true))
                    + " ORDER BY path LIMIT ?"@ && items.params@.last() == SqlParam::Int(
                    limit_param(self.config.max_list),
                )),
                Command::Diag => a is Diag,
                Command::Bench { queries, warmup, duration } => a == DaemonAction::Bench {
                    queries,
                    warmup,
                    duration,
                },
            },
    {
        match cmd {
            Command::Find { name, path, kind, vis, unimplemented, todo, all } => {
                self.handle_find(name, path, kind, vis, *unimplemented, *todo, *all)
            },
            Command::Doc { path, include_docs, vis, .. } => {
                check_vis(vis)?;
                Ok(
                    DaemonAction::Doc {
                        path: path.clone(),
                        query: find_by_path_query(path.as_str()),
                        include_docs: *include_docs,
                    },
                )
            },
            Command::Ls { path, expansion, impl_parents, include_docs, vis, .. } => {
                check_vis(vis)?;
                let (children, parents) = depths(expansion);
                Ok(
                    DaemonAction::Ls {
                        path: path.clone(),
                        children,
                        parents,
                        impl_parents: *impl_parents,
                        include_docs: *include_docs,
                    },
                )
            },
            Command::Export { path, expansion, include_docs, vis, impl_parents, with_source, .. } => {
                check_vis(vis)?;
                let (children, parents) = depths(expansion);
                Ok(
                    DaemonAction::Export {
                        query: find_by_path_query(path.as_str()),
                        children,
                        parents,
                        include_docs: *include_docs,
                        impl_parents: *impl_parents,
                        with_source: *with_source,
                    },
                )
            },
            Command::Reindex { features, target, module, struct_name, include_derives } => {
                let indexer = Indexer::new(String::new()).with_filters(
                    module.clone(),
                    struct_name.clone(),
                    *include_derives,
                );
                let features = match features {
                    Some(f) => copy_strings(f),
                    None => Vec::new(),
                };
                let target = match target {
                    Some(t) => Some(t.clone()),
                    None => None,
                };
                Ok(DaemonAction::Reindex { indexer, features, target })
            },
            Command::Status { vis, unimplemented, todo } => {
                check_vis(vis)?;
                let u = match unimplemented {
                    Some(true) => true,
                    _ => false,
                };
                let t = match todo {
                    Some(true) => true,
                    _ => false,
                };
                Ok(
                    DaemonAction::Status {
                        counts: status_counts_query(opt_str(vis)),
                        items: status_items_query(opt_str(vis), u, t, self.config.max_list),
                    },
                )
            },
            Command::Diag => Ok(DaemonAction::Diag),
            Command::Bench { queries, warmup, duration } => Ok(
                DaemonAction::Bench { queries: *queries, warmup: *warmup, duration: *duration },
            ),
        }
    }

    /// The over-budget answer to an export whose serialized bundle is
    /// `content_len` long, or `None` when it fits the context budget.
    pub fn export_decision(&self, request_id: String, content_len: usize) -> (r: Option<Response>)
        ensures
            r is None <==> content_len <= self.config.max_context_size,
            r matches Some(resp) ==> (resp matches Response::Decision(d) && d.ok && d.request_id
                == request_id && d.decision_required.content_len == content_len
                && d.decision_required.content_len > self.config.max_context_size
                && d.decision_required.options@.len() > 0 && d.decision_required.options@.map_values(
                |o: String| o@,
            ) == decision_options(self.config.allow_full_context)),
    {
        if content_len <= self.config.max_context_size {
            return None;
        }
        let mut options: Vec<String> = Vec::new();
        options.push("signatures_only".to_owned());
        options.push("no_source".to_owned());
        if self.config.allow_full_context {
            options.push("full".to_owned());
        }
        assert(options@.map_values(|o: String| o@) =~= decision_options(self.config.allow_full_context));
        let reason = "bundle exceeds max_context_size".to_owned();
        Some(Response::decision(request_id, reason, content_len, options))
    }

    /// The diagnostic record from the store's counts.
    pub fn handle_diag(
        &self,
        workspace_root: String,
        crate_count: usize,
        file_count: usize,
        symbol_count: usize,
        features: Vec<String>,
        target: String,
        rustc_hash: String,
    ) -> (r: DiagResponse)
        ensures
            r.db_path == self.db_path,
            r.schema_version@ == decimal(CURRENT_VERSION as nat),
            r.protocol_versions_supported@ == seq![PROTOCOL_VERSION],
            r.workspace_root == workspace_root,
            r.workspace_fingerprint == self.workspace_fingerprint,
            r.crate_count == crate_count,
            r.file_count == file_count,
            r.symbol_count == symbol_count,
            r.last_index_duration_ms == self.last_index_duration_ms,
            self.index_timestamp <= 253402300799 ==> r.index_timestamp@ == rfc3339_of(
                self.index_timestamp as i64,
            ),
            r.tool_version@ == "0.1.0"@,
            r.mem_footprint_bytes == 0,
            r.daemon_hot,
            r.rustc_hash == rustc_hash,
            r.features == features,
            r.target == target,
            exists|sep: char| r.transport@ == transport_name(effective_transport(self.config.transport, sep)),
    {
        let ts = if self.index_timestamp <= 0x7fff_ffff_ffff_ffffu64 {
            match format_rfc3339(self.index_timestamp as i64) {
                Some(t) => t,
                None => String::new(),
            }
        } else {
            String::new()
        };
        let transport = self.config.get_effective_transport();
        let mut versions: Vec<u32> = Vec::new();
        versions.push(PROTOCOL_VERSION);
        assert(versions@ =~= seq![PROTOCOL_VERSION]);
        DiagResponse {
            db_path: self.db_path.clone(),
            schema_version: to_decimal(CURRENT_VERSION as u64),
            tool_version: "0.1.0".to_owned(),
            protocol_versions_supported: versions,
            workspace_root,
            workspace_fingerprint: self.workspace_fingerprint.clone(),
            crate_count,
            file_count,
            symbol_count,
            mem_footprint_bytes: 0,
            last_index_duration_ms: self.last_index_duration_ms,
            index_timestamp: ts,
            rustc_hash,
            features,
            target,
            daemon_hot: true,
            transport: transport.as_str().to_owned(),
        }
    }

    /// Records a finished index cycle.
    pub fn record_index(&mut self, timestamp: u64, duration_ms: u64)
        ensures
            final(self).index_timestamp == timestamp,
            final(self).last_index_duration_ms == duration_ms,
            final(self).config == old(self).config,
            final(self).db_path == old(self).db_path,
            final(self).workspace_fingerprint == old(self).workspace_fingerprint,
    {
        self.index_timestamp = timestamp;
        self.last_index_duration_ms = duration_ms;
    }
}

/// The answer to a request with its id, and with metrics where it
/// succeeded; every other field is kept.
pub fn annotate_response(resp: Response, request_id: String, elapsed_ms: u64, bytes: usize) -> (r:
    Response)
    ensures
        request_id_of(r) == request_id,
        match (resp, r) {
            (Response::Success(a), Response::Success(b)) => b.ok == a.ok && b.protocol_version
                == a.protocol_version && b.data == a.data && b.truncated == a.truncated && b.metrics
                == Some(Metrics { elapsed_ms, bytes }),
            (Response::Decision(a), Response::Decision(b)) => b.ok == a.ok && b.protocol_version
                == a.protocol_version && b.decision_required == a.decision_required,
            (Response::Error(a), Response::Error(b)) => b.ok == a.ok && b.protocol_version
                == a.protocol_version && b.err == a.err && b.err_code == a.err_code,
            _ => false,
        },
{
    match resp {
        Response::Success(mut e) => {
            e.request_id = request_id;
            e.metrics = Some(Metrics { elapsed_ms, bytes });
            Response::Success(e)
        },
        Response::Decision(mut e) => {
            e.request_id = request_id;
            Response::Decision(e)
        },
        Response::Error(mut e) => {
            e.request_id = request_id;
            Response::Error(e)
        },
    }
}

/// Admits a request at this protocol version; any other version is answered
/// with a protocol error under the request's own id, and nothing is run.
pub fn check_request(request: &Request) -> (r: Result<(), Response>)
    ensures
        r is Ok <==> request.protocol_version == PROTOCOL_VERSION,
        r matches Err(resp) ==> (resp matches Response::Error(e) && !e.ok && e.request_id
            == request.request_id && e.protocol_version == PROTOCOL_VERSION && e.err_code
            == ErrorCode::ProtocolError),
{
    if request.protocol_version == PROTOCOL_VERSION {
        Ok(())
    } else {
        let mut msg = "Unsupported protocol version ".to_owned();
        msg.append(to_decimal(request.protocol_version as u64).as_str());
        Err(Response::error(request.request_id.clone(), msg, ErrorCode::ProtocolError))
    }
}

/// The answer to a request whose store could not be opened or read: an index
/// mismatch where the store records another schema version, an internal
/// error otherwise, under the request's id.
pub fn store_failure_response(request_id: String, e: &DbError) -> (r: Response)
    ensures
        r matches Response::Error(env) && !env.ok && env.request_id == request_id
            && env.protocol_version == PROTOCOL_VERSION && (e is SchemaMismatch ==> env.err_code
            == ErrorCode::IndexMismatch) && (!(e is SchemaMismatch) ==> env.err_code
            == ErrorCode::InternalError),
{
    let code = db_error_code(e);
    let msg = match e {
        DbError::SchemaMismatch { expected, found } => {
            let mut m = "Schema mismatch: expected ".to_owned();
            m.append(expected.as_str());
            m.append(", found ");
            m.append(found.as_str());
            m
        },
        DbError::Sqlite(m) => cat("Store error: ", m.as_str()),
        DbError::Migration(m) => cat("Migration error: ", m.as_str()),
    };
    Response::error(request_id, msg, code)
}

/// The answer to a refused request.
pub fn rejection_response(request_id: String, rejection: Rejection) -> (r: Response)
    ensures
        r matches Response::Error(e) && !e.ok && e.request_id == request_id && e.err
            == rejection.0 && e.err_code == rejection.1,
{
    Response::error(request_id, rejection.0, rejection.1)
}

/// Search results: whole symbols when `all` is set, else where each is.
pub fn find_items(symbols: Vec<Symbol>, all: bool) -> (r: FindItems)
    ensures
        all ==> r == FindItems::Full(symbols),
        !all ==> (r matches FindItems::Brief(items) && items@.len() == symbols@.len() && forall|i: int|
            0 <= i < items@.len() ==> (#[trigger] items@[i]).path == symbols@[i].path
                && items@[i].span_start == symbols@[i].span_start && items@[i].span_end
                == symbols@[i].span_end),
{
    if all {
        return FindItems::Full(symbols);
    }
    let mut items: Vec<FindItem> = Vec::new();
    let mut i: usize = 0;
    while i < symbols.len()
        invariant
            i <= symbols@.len(),
            items@.len() == i,
            forall|j: int|
                0 <= j < i ==> (#[trigger] items@[j]).path == symbols@[j].path && items@[j].span_start
                    == symbols@[j].span_start && items@[j].span_end == symbols@[j].span_end,
        decreases symbols@.len() - i,
    {
        let s = &symbols[i];
        items.push(FindItem { path: s.path.clone(), span_start: s.span_start, span_end: s.span_end });
        i = i + 1;
    }
    FindItems::Brief(items)
}

/// What a documentation request shows: the symbol's path and signature,
/// its docs when asked for; a missing path is not found.
pub fn doc_symbol(found: Option<Symbol>, path: &str, include_docs: bool) -> (r: Result<DocSymbol, Rejection>)
    ensures
        found is None <==> r is Err,
        r matches Err(e) ==> e.1 == ErrorCode::NotFound,
        found matches Some(s) ==> (r matches Ok(d) && d.path == s.path && d.signature == s.signature
            && (include_docs ==> d.docs == s.docs) && (!include_docs ==> d.docs is None)),
{
    match found {
        Some(s) => Ok(
            DocSymbol {
                path: s.path,
                signature: s.signature,
                docs: if include_docs {
                    s.docs
                } else {
                    None
                },
            },
        ),
        None => Err((cat("No symbol at path ", path), ErrorCode::NotFound)),
    }
}

/// The status answer: the counts and the listed items.
pub fn status_response(counts: StatusCounts, items: Vec<StatusItem>) -> (r: StatusResponse)
    ensures
        r.counts == counts,
        r.items == items,
{
    StatusResponse { counts, items }
}

/// An export bundle: the symbol, its neighbourhood in breadth-first order,
/// with 1-based inclusive ranges.
pub fn make_bundle(
    symbol: Symbol,
    children: Vec<Symbol>,
    extern_refs: Vec<String>,
    impl_ranges: Vec<ImplRange>,
) -> (r: Bundle)
    ensures
        r.symbol == symbol,
        r.children == children,
        r.extern_refs == extern_refs,
        r.impl_ranges == impl_ranges,
        r.order@ == "bfs"@,
        r.invariants.range_1_based_inclusive,
{
    Bundle {
        symbol,
        children,
        extern_refs,
        impl_ranges,
        order: "bfs".to_owned(),
        invariants: BundleInvariants { range_1_based_inclusive: true },
    }
}


/// The number of `::` separators in a path, read from the left.
pub open spec fn separators(s: Seq<char>) -> nat
    decreases s.len(),
{
    if s.len() < 2 {
        0
    } else if s[0] == ':' && s[1] == ':' {
        1 + separators(s.subrange(2, s.len() as int))
    } else {
        separators(s.subrange(1, s.len() as int))
    }
}

/// How many levels below `base` a path lies: 0 when it is not below it.
pub open spec fn depth_below(base: Seq<char>, p: Seq<char>) -> nat {
    let head = base + "::"@;
    if is_prefix(head, p) {
        1 + separators(p.subrange(head.len() as int, p.len() as int))
    } else {
        0
    }
}

/// The positions of the paths at exactly `d` levels below `base`, in order.
pub open spec fn at_depth(base: Seq<char>, paths: Seq<Seq<char>>, d: nat, n: int) -> Seq<usize>
    decreases n,
{
    if n <= 0 {
        Seq::empty()
    } else {
        at_depth(base, paths, d, n - 1) + if depth_below(base, paths[n - 1]) == d {
            seq![(n - 1) as usize]
        } else {
            Seq::<usize>::empty()
        }
    }
}

/// The positions of the paths within `depth` levels below `base`,
/// breadth first: all of the first level in order, then the second, and so on.
pub open spec fn breadth_first(base: Seq<char>, paths: Seq<Seq<char>>, depth: nat) -> Seq<usize>
    decreases depth,
{
    if depth == 0 {
        Seq::empty()
    } else {
        breadth_first(base, paths, (depth - 1) as nat) + at_depth(base, paths, depth, paths.len() as int)
    }
}

/// Counts the `::` separators of a path.
fn count_separators(s: &str) -> (r: usize)
    ensures
        r == separators(s@),
{
    let n = s.unicode_len();
    let mut i: usize = 0;
    let mut c: usize = 0;
    assert(s@.subrange(0, n as int) =~= s@);
    while i < n && n - i >= 2
        invariant
            n == s@.len(),
            i <= n,
            c <= i,
            c + separators(s@.subrange(i as int, n as int)) == separators(s@),
        decreases n - i,
    {
        let ghost rest = s@.subrange(i as int, n as int);
        if s.get_char(i) == ':' && s.get_char(i + 1) == ':' {
            assert(rest.subrange(2, rest.len() as int) =~= s@.subrange(i + 2, n as int));
            c = c + 1;
            i = i + 2;
        } else {
            assert(rest.subrange(1, rest.len() as int) =~= s@.subrange(i + 1, n as int));
            i = i + 1;
        }
    }
    assert(separators(s@.subrange(i as int, n as int)) == 0);
    c
}

/// How many levels below `base` a path lies.
fn level_below(base: &str, p: &str) -> (r: usize)
    ensures
        r == depth_below(base@, p@),
{
    let head = cat(base, "::");
    proof {
        reveal_strlit("::");
    }
    if starts_with(p, head.as_str()) {
        let n = p.unicode_len();
        let m = head.unicode_len();
        let rest = p.substring_char(m, n);
        let k = count_separators(rest);
        if k < usize::MAX {
            k + 1
        } else {
            proof {
                lemma_separators_bound(rest@);
            }
            k
        }
    } else {
        0
    }
}

/// A path holds fewer separators than characters.
proof fn lemma_separators_bound(s: Seq<char>)
    ensures
        separators(s) <= s.len(),
    decreases s.len(),
{
    if s.len() >= 2 {
        lemma_separators_bound(s.subrange(2, s.len() as int));
        lemma_separators_bound(s.subrange(1, s.len() as int));
    }
}

/// The views of a sequence of strings.
pub open spec fn path_views(v: Seq<String>) -> Seq<Seq<char>> {
    v.map_values(|s: String| s@)
}

/// The positions of the paths within `depth` levels below `base`, breadth
/// first: the neighbourhood that a listing or an export expands to.
pub fn expand_children(base: &str, paths: &Vec<String>, depth: usize) -> (r: Vec<usize>)
    ensures
        r@ == breadth_first(base@, path_views(paths@), depth as nat),
{
    let n = paths.len();
    let mut levels: Vec<usize> = Vec::new();
    let mut i: usize = 0;
    while i < n
        invariant
            n == paths@.len(),
            i <= n,
            levels@.len() == i,
            forall|j: int| 0 <= j < i ==> levels@[j] == depth_below(base@, #[trigger] paths@[j]@),
        decreases n - i,
    {
        levels.push(level_below(base, paths[i].as_str()));
        i = i + 1;
    }
    let mut out: Vec<usize> = Vec::new();
    let mut d: usize = 1;
    assert(out@ =~= breadth_first(base@, path_views(paths@), 0));
    while d <= depth
        invariant
            n == paths@.len(),
            levels@.len() == n,
            forall|j: int| 0 <= j < n ==> levels@[j] == depth_below(base@, #[trigger] paths@[j]@),
            1 <= d,
            d <= depth + 1,
            out@ == breadth_first(base@, path_views(paths@), (d - 1) as nat),
        decreases depth + 1 - d,
    {
        let ghost before = out@;
        let mut j: usize = 0;
        while j < n
            invariant
                n == paths@.len(),
                levels@.len() == n,
                forall|k: int| 0 <= k < n ==> levels@[k] == depth_below(base@, #[trigger] paths@[k]@),
                j <= n,
                out@ == before + at_depth(base@, path_views(paths@), d as nat, j as int),
            decreases n - j,
        {
            assert(path_views(paths@)[j as int] == paths@[j as int]@);
            if levels[j] == d {
                out.push(j);
            }
            j = j + 1;
            assert(out@ =~= before + at_depth(base@, path_views(paths@), d as nat, j as int));
        }
        assert(breadth_first(base@, path_views(paths@), d as nat) == before + at_depth(base@, path_views(paths@), d as nat, paths@.len() as int));
        if d == depth {
            return out;
        }
        d = d + 1;
    }
    out
}

} // verus!
