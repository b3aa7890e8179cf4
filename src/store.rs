//! The symbol store's rules: schema version checks, query plans with their
//! filters, row decoding and status counts. The statements run elsewhere.
use vstd::prelude::*;
use vstd::string::*;
use crate::models::{
    status_name, ImplementationStatus, StatusCounts, SymbolKind,
    Visibility,
};
use crate::protocol::ErrorCode;
use crate::text::{cat, push_char, str_eq};
use crate::utils::{decimal, to_decimal};

verus! {

/// The schema version this code writes and reads.
pub const CURRENT_VERSION: u32 = 1;

/// The statements that create the schema of version 1: meta, crates, files,
/// symbols (unique identity, indexed by name, path, kind, visibility and
/// status), implementations and references.
pub const V1_SCHEMA: &'static str = "\nPRAGMA foreign_keys=ON;\n\nCREATE TABLE IF NOT EXISTS meta (\n  key TEXT PRIMARY KEY,\n  val TEXT NOT NULL\n);\n\nCREATE TABLE IF NOT EXISTS crates (\n  id INTEGER PRIMARY KEY,\n  name TEXT NOT NULL,\n  version TEXT,\n  fingerprint TEXT NOT NULL\n);\n\nCREATE TABLE IF NOT EXISTS files (\n  id INTEGER PRIMARY KEY,\n  crate_id INTEGER NOT NULL REFERENCES crates(id),\n  path TEXT NOT NULL,\n  digest TEXT NOT NULL\n);\n\nCREATE TABLE IF NOT EXISTS symbols (\n  id INTEGER PRIMARY KEY,\n  symbol_id BLOB NOT NULL,\n  crate_id INTEGER NOT NULL REFERENCES crates(id),\n  file_id INTEGER NOT NULL REFERENCES files(id),\n  path TEXT NOT NULL,\n  name TEXT NOT NULL,\n  kind TEXT NOT NULL,\n  visibility TEXT NOT NULL,\n  signature TEXT NOT NULL,\n  docs TEXT,\n  status TEXT NOT NULL,\n  span_start INTEGER NOT NULL,\n  span_end INTEGER NOT NULL,\n  def_hash TEXT NOT NULL\n);\n\nCREATE UNIQUE INDEX IF NOT EXISTS ux_symbols_symbol_id ON symbols(symbol_id);\nCREATE INDEX IF NOT EXISTS idx_symbols_name ON symbols(name COLLATE NOCASE);\nCREATE INDEX IF NOT EXISTS idx_symbols_path ON symbols(path);\nCREATE INDEX IF NOT EXISTS idx_symbols_kind ON symbols(kind);\nCREATE INDEX IF NOT EXISTS idx_symbols_vis ON symbols(visibility);\nCREATE INDEX IF NOT EXISTS idx_symbols_status ON symbols(status);\n\nCREATE TABLE IF NOT EXISTS impls (\n  id INTEGER PRIMARY KEY,\n  for_path TEXT NOT NULL,\n  trait_path TEXT,\n  file_id INTEGER NOT NULL REFERENCES files(id),\n  line_start INTEGER NOT NULL,\n  line_end INTEGER NOT NULL\n);\n\nCREATE INDEX IF NOT EXISTS idx_impls_for ON impls(for_path);\n\nCREATE TABLE IF NOT EXISTS symbol_references (\n  id INTEGER PRIMARY KEY,\n  symbol_id INTEGER NOT NULL REFERENCES symbols(id),\n  target_path TEXT NOT NULL,\n  file_id INTEGER NOT NULL REFERENCES files(id),\n  span_start INTEGER NOT NULL,\n  span_end INTEGER NOT NULL\n);\n";

/// Why a store operation failed.
#[derive(Debug, Clone)]
pub enum DbError {
    Sqlite(String),
    Migration(String),
    SchemaMismatch { expected: String, found: String },
}

/// What opening a store must do about its schema.
#[derive(Debug, Clone, Copy, PartialEq, Eq, Structural)]
pub enum SchemaAction {
    /// A fresh store: create the schema and record the current version.
    Create,
    /// The recorded version is the current one.
    UpToDate,
}

/// The schema version recorded after opening with `action` a store that
/// recorded `found` (`None`: no version recorded).
pub open spec fn version_after(found: Option<u32>, action: SchemaAction) -> u32 {
    match action {
        SchemaAction::Create => CURRENT_VERSION,
        SchemaAction::UpToDate => found->0,
    }
}

/// Decides what opening a store must do: create the schema where it records
/// no version, go on where it records the current one, and refuse a store
/// that records any other version, lower or higher.
pub fn check_schema_version(found: Option<u32>) -> (r: Result<SchemaAction, DbError>)
    ensures
        found is None <==> r == Ok::<SchemaAction, DbError>(SchemaAction::Create),
        found matches Some(v) ==> (r is Err <==> v != CURRENT_VERSION),
        found matches Some(v) && v == CURRENT_VERSION ==> r == Ok::<SchemaAction, DbError>(
            SchemaAction::UpToDate,
        ),
        r matches Ok(a) ==> version_after(found, a) == CURRENT_VERSION,
        r matches Err(e) ==> (e matches DbError::SchemaMismatch { expected, found: f } && expected@
            == decimal(CURRENT_VERSION as nat) && f@ == decimal(found->0 as nat)),
{
    match found {
        None => Ok(SchemaAction::Create),
        Some(v) => if v == CURRENT_VERSION {
            Ok(SchemaAction::UpToDate)
        } else {
            Err(
                DbError::SchemaMismatch {
                    expected: to_decimal(CURRENT_VERSION as u64),
                    found: to_decimal(v as u64),
                },
            )
        },
    }
}

/// The wire code of a store failure: a schema of another version is an
/// index mismatch, anything else an internal error.
pub fn db_error_code(e: &DbError) -> (r: ErrorCode)
    ensures
        e is SchemaMismatch ==> r == ErrorCode::IndexMismatch,
        !(e is SchemaMismatch) ==> r == ErrorCode::InternalError,
{
    match e {
        DbError::SchemaMismatch { .. } => ErrorCode::IndexMismatch,
        _ => ErrorCode::InternalError,
    }
}

/// Whether a character is a decimal digit.
pub open spec fn is_digit(c: char) -> bool {
    '0' <= c && c <= '9'
}

/// The value of a run of decimal digits.
pub open spec fn digits_value(s: Seq<char>) -> nat
    decreases s.len(),
{
    if s.len() == 0 {
        0
    } else {
        digits_value(s.drop_last()) * 10 + ((s.last() as nat) - ('0' as nat)) as nat
    }
}

/// The digits of a number text, after an optional `+`.
pub open spec fn unsigned_digits(s: Seq<char>) -> Seq<char> {
    if s.len() > 0 && s[0] == '+' {
        s.drop_first()
    } else {
        s
    }
}

/// The 32-bit number a text spells, if it spells one.
pub open spec fn parsed_u32(s: Seq<char>) -> Option<u32> {
    let d = unsigned_digits(s);
    if d.len() > 0 && (forall|i: int| 0 <= i < d.len() ==> is_digit(#[trigger] d[i]))
        && digits_value(d) <= u32::MAX {
        Some(digits_value(d) as u32)
    } else {
        None
    }
}

/// Reads a 32-bit number from text.
pub fn parse_u32(s: &str) -> (r: Option<u32>)
    ensures
        r == parsed_u32(s@),
{
    let n = s.unicode_len();
    let mut i: usize = 0;
    if n > 0 && s.get_char(0) == '+' {
        i = 1;
    }
    let ghost d = unsigned_digits(s@);
    assert(d =~= s@.subrange(i as int, n as int));
    if i == n {
        return None;
    }
    let start = i;
    let mut v: u64 = 0;
    while i < n
        invariant
            n == s@.len(),
            start <= i <= n,
            d == unsigned_digits(s@),
            d == s@.subrange(start as int, n as int),
            forall|k: int| 0 <= k < i - start ==> is_digit(#[trigger] d[k]),
            v == digits_value(d.subrange(0, i - start)),
            v <= u32::MAX,
        decreases n - i,
    {
        let c = s.get_char(i);
        assert(d[i - start] == c);
        if !('0' <= c && c <= '9') {
            assert(!is_digit(d[i - start]));
            return None;
        }
        assert(d.subrange(0, i - start + 1).drop_last() =~= d.subrange(0, i - start));
        v = v * 10 + ((c as u32) - 48) as u64;
        i = i + 1;
        if v > 0xffff_ffff {
            proof {
                if forall|k: int| 0 <= k < d.len() ==> is_digit(#[trigger] d[k]) {
                    lemma_digits_value_grows(d, i - start);
                }
            }
            return None;
        }
    }
    assert(d.subrange(0, n - start) =~= d);
    Some(v as u32)
}

/// A longer run of digits is worth at least as much as its prefix.
proof fn lemma_digits_value_grows(d: Seq<char>, k: int)
    requires
        0 <= k <= d.len(),
        forall|i: int| 0 <= i < d.len() ==> is_digit(#[trigger] d[i]),
    ensures
        digits_value(d) >= digits_value(d.subrange(0, k)),
    decreases d.len(),
{
    if k < d.len() {
        assert(d.drop_last().subrange(0, k) =~= d.subrange(0, k));
        lemma_digits_value_grows(d.drop_last(), k);
        assert forall|i: int| 0 <= i < d.drop_last().len() implies is_digit(#[trigger] d.drop_last()[i]) by {
            assert(d.drop_last()[i] == d[i]);
        }
    } else {
        assert(d.subrange(0, k) =~= d);
    }
}

/// The schema version a store records: none where it records none; its
/// number where it records one; 0 (a version no store of this code
/// writes) where what it records does not read as a number.
pub fn parse_schema_version(stored: Option<&str>) -> (r: Option<u32>)
    ensures
        stored is None <==> r is None,
        stored matches Some(s) ==> r == Some(
            match parsed_u32(s@) {
                Some(v) => v,
                None => 0u32,
            },
        ),
{
    match stored {
        None => None,
        Some(s) => match parse_u32(s) {
            Some(v) => Some(v),
            None => Some(0),
        },
    }
}

/// The kind a stored name stands for; an unknown name reads as a module.
pub open spec fn kind_from_name(s: Seq<char>) -> SymbolKind {
    if s == "module"@ {
        SymbolKind::Module
    } else if s == "struct"@ {
        SymbolKind::Struct
    } else if s == "enum"@ {
        SymbolKind::Enum
    } else if s == "trait"@ {
        SymbolKind::Trait
    } else if s == "fn"@ {
        SymbolKind::Fn
    } else if s == "method"@ {
        SymbolKind::Method
    } else if s == "field"@ {
        SymbolKind::Field
    } else if s == "variant"@ {
        SymbolKind::Variant
    } else if s == "type_alias"@ {
        SymbolKind::TypeAlias
    } else if s == "const"@ {
        SymbolKind::Const
    } else if s == "static"@ {
        SymbolKind::Static
    } else if s == "impl"@ {
        SymbolKind::Impl
    } else {
        SymbolKind::Module
    }
}

/// Reads a stored kind name.
pub fn parse_symbol_kind(s: &str) -> (r: SymbolKind)
    ensures
        r == kind_from_name(s@),
{
    if str_eq(s, "module") {
        SymbolKind::Module
    } else if str_eq(s, "struct") {
        SymbolKind::Struct
    } else if str_eq(s, "enum") {
        SymbolKind::Enum
    } else if str_eq(s, "trait") {
        SymbolKind::Trait
    } else if str_eq(s, "fn") {
        SymbolKind::Fn
    } else if str_eq(s, "method") {
        SymbolKind::Method
    } else if str_eq(s, "field") {
        SymbolKind::Field
    } else if str_eq(s, "variant") {
        SymbolKind::Variant
    } else if str_eq(s, "type_alias") {
        SymbolKind::TypeAlias
    } else if str_eq(s, "const") {
        SymbolKind::Const
    } else if str_eq(s, "static") {
        SymbolKind::Static
    } else if str_eq(s, "impl") {
        SymbolKind::Impl
    } else {
        SymbolKind::Module
    }
}

/// Reads a stored visibility; anything but `public` is private.
pub fn parse_visibility(s: &str) -> (r: Visibility)
    ensures
        r == (if s@ == "public"@ {
            Visibility::Public
        } else {
            Visibility::Private
        }),
{
    if str_eq(s, "public") {
        Visibility::Public
    } else {
        Visibility::Private
    }
}

/// The status a stored name stands for; an unknown name reads as
/// implemented.
pub open spec fn status_from_name(s: Seq<char>) -> ImplementationStatus {
    if s == "unimplemented"@ {
        ImplementationStatus::Unimplemented
    } else if s == "todo"@ {
        ImplementationStatus::Todo
    } else {
        ImplementationStatus::Implemented
    }
}

/// Reads a stored status.
pub fn parse_status(s: &str) -> (r: ImplementationStatus)
    ensures
        r == status_from_name(s@),
{
    if str_eq(s, "unimplemented") {
        ImplementationStatus::Unimplemented
    } else if str_eq(s, "todo") {
        ImplementationStatus::Todo
    } else {
        ImplementationStatus::Implemented
    }
}

/// A value bound to a statement parameter.
#[derive(Debug, Clone, PartialEq, Eq)]
pub enum SqlParam {
    Text(String),
    Int(i64),
}

/// A statement with its parameters, in order.
#[derive(Debug, Clone)]
pub struct SqlQuery {
    pub text: String,
    pub params: Vec<SqlParam>,
}

/// The columns that a symbol row is read from.
pub open spec fn symbol_select() -> Seq<char> {
    "SELECT id, symbol_id, crate_id, file_id, path, name, kind, visibility, signature, docs, status, span_start, span_end, def_hash FROM symbols"@
}

/// Whether a visibility filter restricts anything.
pub open spec fn vis_restricts(vis: Option<Seq<char>>) -> bool {
    vis matches Some(v) && v != "all"@
}

/// A view of an optional string slice.
pub open spec fn opt_str_view(o: Option<&str>) -> Option<Seq<char>> {
    match o {
        Some(s) => Some(s@),
        None => None,
    }
}

/// The number of rows a limit allows, as a statement parameter.
pub open spec fn limit_param(limit: usize) -> i64 {
    if limit <= i64::MAX {
        limit as i64
    } else {
        i64::MAX
    }
}

/// The statement of a name search.
pub open spec fn find_by_name_text(kind: bool, vis: bool, status: bool) -> Seq<char> {
    symbol_select() + " WHERE name LIKE ? ESCAPE '\\'"@ + (if kind {
        " AND kind = ?"@
    } else {
        Seq::empty()
    }) + (if vis {
        " AND visibility = ?"@
    } else {
        Seq::empty()
    }) + (if status {
        " AND status = ?"@
    } else {
        Seq::empty()
    }) + " ORDER BY name, path, span_start LIMIT ?"@
}

/// A text with `%`, `_` and the backslash each preceded by a backslash, so
/// that a `LIKE ... ESCAPE` pattern with the backslash matches it literally.
pub open spec fn like_escaped(s: Seq<char>) -> Seq<char>
    decreases s.len(),
{
    if s.len() == 0 {
        Seq::empty()
    } else {
        let c = s.last();
        like_escaped(s.drop_last()) + if c == '%' || c == '_' || c == '\\' {
            seq!['\\', c]
        } else {
            seq![c]
        }
    }
}

/// Escapes the wildcard characters of a `LIKE` pattern.
pub fn escape_like(s: &str) -> (r: String)
    ensures
        r@ == like_escaped(s@),
{
    let n = s.unicode_len();
    let mut r = String::new();
    let mut i: usize = 0;
    while i < n
        invariant
            n == s@.len(),
            i <= n,
            r@ == like_escaped(s@.subrange(0, i as int)),
        decreases n - i,
    {
        let c = s.get_char(i);
        proof {
            assert(s@.subrange(0, i + 1).drop_last() =~= s@.subrange(0, i as int));
        }
        if c == '%' || c == '_' || c == '\\' {
            push_char(&mut r, '\\');
        }
        push_char(&mut r, c);
        i = i + 1;
        assert(r@ =~= like_escaped(s@.subrange(0, i as int)));
    }
    assert(s@.subrange(0, n as int) =~= s@);
    r
}

/// The parameters of a name search.
pub open spec fn find_by_name_params(
    name: Seq<char>,
    kind: Option<Seq<char>>,
    vis: Option<Seq<char>>,
    status: Option<ImplementationStatus>,
    limit: usize,
) -> Seq<Seq<char>> {
    seq!["%"@ + like_escaped(name) + "%"@] + (match kind {
        Some(k) => seq![k],
        None => Seq::empty(),
    }) + (if vis_restricts(vis) {
        seq![vis->0]
    } else {
        Seq::empty()
    }) + (match status {
        Some(s) => seq![status_name(s)],
        None => Seq::empty(),
    })
}

/// The text parameters of a statement, in order.
pub open spec fn text_params(p: Seq<SqlParam>) -> Seq<Seq<char>>
    decreases p.len(),
{
    if p.len() == 0 {
        Seq::empty()
    } else {
        text_params(p.drop_last()) + match p.last() {
            SqlParam::Text(t) => seq![t@],
            SqlParam::Int(_) => Seq::empty(),
        }
    }
}

/// Adding a parameter adds its text, if it has one.
proof fn lemma_text_params_push(p: Seq<SqlParam>, x: SqlParam)
    ensures
        text_params(p.push(x)) == text_params(p) + match x {
            SqlParam::Text(t) => seq![t@],
            SqlParam::Int(_) => Seq::<Seq<char>>::empty(),
        },
{
    assert(p.push(x).drop_last() =~= p);
}

/// The limit bound to a statement.
fn limit_value(limit: usize) -> (r: i64)
    ensures
        r == limit_param(limit),
{
    if (limit as u64) <= 0x7fff_ffff_ffff_ffffu64 {
        limit as i64
    } else {
        0x7fff_ffff_ffff_ffffi64
    }
}

/// The name search: a case-insensitive substring match on the name, with
/// optional kind, visibility (`all` restricts nothing) and status filters,
/// ordered by name, path and first line, at most `limit` rows.
pub fn find_by_name_query(
    name: &str,
    kind: Option<&str>,
    vis: Option<&str>,
    status: Option<ImplementationStatus>,
    limit: usize,
) -> (r: SqlQuery)
    ensures
        r.text@ == find_by_name_text(kind is Some, vis_restricts(opt_str_view(vis)), status is Some),
        r.params@.len() >= 1,
        text_params(r.params@.drop_last()) == find_by_name_params(
            name@,
            opt_str_view(kind),
            opt_str_view(vis),
            status,
            limit,
        ),
        r.params@.last() == SqlParam::Int(limit_param(limit)),
{
    let mut text = "SELECT id, symbol_id, crate_id, file_id, path, name, kind, visibility, signature, docs, status, span_start, span_end, def_hash FROM symbols".to_owned();
    text.append(" WHERE name LIKE ? ESCAPE '\\'");
    let mut params: Vec<SqlParam> = Vec::new();
    let mut pattern = "%".to_owned();
    pattern.append(escape_like(name).as_str());
    pattern.append("%");
    let ghost mut expected: Seq<Seq<char>> = seq!["%"@ + like_escaped(name@) + "%"@];
    proof {
        lemma_text_params_push(params@, SqlParam::Text(pattern));
        assert(text_params(params@) =~= Seq::<Seq<char>>::empty());
    }
    params.push(SqlParam::Text(pattern));
    assert(text_params(params@) =~= expected);
    match kind {
        Some(k) => {
            text.append(" AND kind = ?");
            let kk = k.to_owned();
            proof {
                lemma_text_params_push(params@, SqlParam::Text(kk));
            }
            params.push(SqlParam::Text(kk));
            proof {
                expected = expected + seq![k@];
            }
        },
        None => {},
    }
    let restricts = match vis {
        Some(v) => !str_eq(v, "all"),
        None => false,
    };
    if restricts {
        text.append(" AND visibility = ?");
        let vv = vis.unwrap().to_owned();
        proof {
            lemma_text_params_push(params@, SqlParam::Text(vv));
        }
        params.push(SqlParam::Text(vv));
        proof {
            expected = expected + seq![vis->0@];
        }
    }
    match status {
        Some(s) => {
            text.append(" AND status = ?");
            let ss = s.as_str().to_owned();
            proof {
                lemma_text_params_push(params@, SqlParam::Text(ss));
            }
            params.push(SqlParam::Text(ss));
            proof {
                expected = expected + seq![status_name(s)];
            }
        },
        None => {},
    }
    assert(expected =~= find_by_name_params(name@, opt_str_view(kind), opt_str_view(vis), status, limit));
    text.append(" ORDER BY name, path, span_start LIMIT ?");
    let ghost before = params@;
    params.push(SqlParam::Int(limit_value(limit)));
    assert(params@.drop_last() =~= before);
    SqlQuery { text, params }
}

/// The exact-path lookup.
pub fn find_by_path_query(path: &str) -> (r: SqlQuery)
    ensures
        r.text@ == symbol_select() + " WHERE path = ?"@,
        r.params@ == seq![SqlParam::Text(r.params@[0]->Text_0)] && r.params@[0]->Text_0@ == path@,
{
    let mut text = "SELECT id, symbol_id, crate_id, file_id, path, name, kind, visibility, signature, docs, status, span_start, span_end, def_hash FROM symbols".to_owned();
    text.append(" WHERE path = ?");
    let mut params: Vec<SqlParam> = Vec::new();
    params.push(SqlParam::Text(path.to_owned()));
    assert(params@ =~= seq![SqlParam::Text(params@[0]->Text_0)]);
    SqlQuery { text, params }
}

/// The symbols under a path: those whose path begins with it and `::`,
/// ordered by path.
pub fn find_under_path_query(path: &str) -> (r: SqlQuery)
    ensures
        r.text@ == symbol_select() + " WHERE substr(path, 1, length(?)) = ? ORDER BY path"@,
        r.params@.len() == 2,
        r.params@[0] is Text && r.params@[0]->Text_0@ == path@ + "::"@,
        r.params@[1] == r.params@[0],
{
    let mut text = "SELECT id, symbol_id, crate_id, file_id, path, name, kind, visibility, signature, docs, status, span_start, span_end, def_hash FROM symbols".to_owned();
    text.append(" WHERE substr(path, 1, length(?)) = ? ORDER BY path");
    let head = cat(path, "::");
    let mut params: Vec<SqlParam> = Vec::new();
    params.push(SqlParam::Text(head.clone()));
    params.push(SqlParam::Text(head));
    SqlQuery { text, params }
}

/// The status a name search keeps, from the `unimplemented` and `todo`
/// flags: both set keeps every status, one set keeps that status, neither
/// keeps implemented symbols only.
pub open spec fn find_status_filter(unimplemented: Option<bool>, todo: Option<bool>) -> Option<
    ImplementationStatus,
> {
    if unimplemented == Some(true) && todo == Some(true) {
        None
    } else if unimplemented == Some(true) {
        Some(ImplementationStatus::Unimplemented)
    } else if todo == Some(true) {
        Some(ImplementationStatus::Todo)
    } else {
        Some(ImplementationStatus::Implemented)
    }
}

/// The status filter of a name search.
pub fn status_filter_for(unimplemented: Option<bool>, todo: Option<bool>) -> (r: Option<
    ImplementationStatus,
>)
    ensures
        r == find_status_filter(unimplemented, todo),
{
    match (unimplemented, todo) {
        (Some(true), Some(true)) => None,
        (Some(true), _) => Some(ImplementationStatus::Unimplemented),
        (_, Some(true)) => Some(ImplementationStatus::Todo),
        _ => Some(ImplementationStatus::Implemented),
    }
}

/// The status clause of a status listing, by the same matrix as a name
/// search: both flags keep every status, one flag keeps that status,
/// neither keeps implemented symbols only.
pub open spec fn status_items_clause(unimplemented: bool, todo: bool) -> Seq<char> {
    match find_status_filter(Some(unimplemented), Some(todo)) {
        None => Seq::empty(),
        Some(ImplementationStatus::Unimplemented) => " AND status = 'unimplemented'"@,
        Some(ImplementationStatus::Todo) => " AND status = 'todo'"@,
        Some(ImplementationStatus::Implemented) => " AND status = 'implemented'"@,
    }
}

/// The status listing: path, status and kind, optionally by visibility and
/// status, ordered by path, at most `limit` rows.
pub fn status_items_query(vis: Option<&str>, unimplemented: bool, todo: bool, limit: usize) -> (r:
    SqlQuery)
    ensures
        r.text@ == "SELECT path, status, kind FROM symbols WHERE 1=1"@ + (if vis_restricts(
            opt_str_view(vis),
        ) {
            " AND visibility = ?"@
        } else {
            Seq::empty()
        }) + status_items_clause(unimplemented, todo) + " ORDER BY path LIMIT ?"@,
        vis_restricts(opt_str_view(vis)) ==> r.params@.len() == 2 && r.params@[0] is Text
            && r.params@[0]->Text_0@ == vis->0@,
        !vis_restricts(opt_str_view(vis)) ==> r.params@.len() == 1,
        r.params@.last() == SqlParam::Int(limit_param(limit)),
{
    let mut text = "SELECT path, status, kind FROM symbols WHERE 1=1".to_owned();
    let mut params: Vec<SqlParam> = Vec::new();
    let restricts = match vis {
        Some(v) => !str_eq(v, "all"),
        None => false,
    };
    if restricts {
        text.append(" AND visibility = ?");
        params.push(SqlParam::Text(vis.unwrap().to_owned()));
    }
    if unimplemented && todo {
    } else if unimplemented {
        text.append(" AND status = 'unimplemented'");
    } else if todo {
        text.append(" AND status = 'todo'");
    } else {
        text.append(" AND status = 'implemented'");
    }
    text.append(" ORDER BY path LIMIT ?");
    params.push(SqlParam::Int(limit_value(limit)));
    SqlQuery { text, params }
}

/// The per-status count query: one row per stored status with its count,
/// optionally by visibility.
pub fn status_counts_query(vis: Option<&str>) -> (r: SqlQuery)
    ensures
        r.text@ == "SELECT status, COUNT(*) FROM symbols WHERE 1=1"@ + (if vis_restricts(
            opt_str_view(vis),
        ) {
            " AND visibility = ?"@
        } else {
            Seq::empty()
        }) + " GROUP BY status"@,
        vis_restricts(opt_str_view(vis)) ==> r.params@.len() == 1 && r.params@[0] is Text
            && r.params@[0]->Text_0@ == vis->0@,
        !vis_restricts(opt_str_view(vis)) ==> r.params@.len() == 0,
{
    let mut text = "SELECT status, COUNT(*) FROM symbols WHERE 1=1".to_owned();
    let mut params: Vec<SqlParam> = Vec::new();
    let restricts = match vis {
        Some(v) => !str_eq(v, "all"),
        None => false,
    };
    if restricts {
        text.append(" AND visibility = ?");
        params.push(SqlParam::Text(vis.unwrap().to_owned()));
    }
    text.append(" GROUP BY status");
    SqlQuery { text, params }
}

/// The sum of the counts of rows whose status reads as `s`.
pub open spec fn count_of(rows: Seq<(String, usize)>, s: ImplementationStatus) -> nat
    decreases rows.len(),
{
    if rows.len() == 0 {
        0
    } else {
        count_of(rows.drop_last(), s) + if status_from_name(rows.last().0@) == s {
            rows.last().1 as nat
        } else {
            0nat
        }
    }
}

/// The sum of all counts.
pub open spec fn count_all(rows: Seq<(String, usize)>) -> nat
    decreases rows.len(),
{
    if rows.len() == 0 {
        0
    } else {
        count_all(rows.drop_last()) + rows.last().1 as nat
    }
}

/// Every row's count lands in exactly one status.
proof fn lemma_counts_partition(rows: Seq<(String, usize)>)
    ensures
        count_all(rows) == count_of(rows, ImplementationStatus::Implemented) + count_of(
            rows,
            ImplementationStatus::Unimplemented,
        ) + count_of(rows, ImplementationStatus::Todo),
    decreases rows.len(),
{
    if rows.len() > 0 {
        lemma_counts_partition(rows.drop_last());
    }
}

/// The status counts from per-status rows: each row counts toward the status
/// its name reads as, and the total is their sum.
pub fn status_counts_from_rows(rows: &Vec<(String, usize)>) -> (r: StatusCounts)
    requires
        count_all(rows@) <= usize::MAX,
    ensures
        r.implemented == count_of(rows@, ImplementationStatus::Implemented),
        r.unimplemented == count_of(rows@, ImplementationStatus::Unimplemented),
        r.todo == count_of(rows@, ImplementationStatus::Todo),
        r.total == r.implemented + r.unimplemented + r.todo,
{
    let mut implemented: usize = 0;
    let mut unimplemented: usize = 0;
    let mut todo: usize = 0;
    let mut i: usize = 0;
    proof {
        lemma_counts_partition(rows@);
    }
    while i < rows.len()
        invariant
            i <= rows@.len(),
            count_all(rows@) <= usize::MAX,
            implemented == count_of(rows@.subrange(0, i as int), ImplementationStatus::Implemented),
            unimplemented == count_of(rows@.subrange(0, i as int), ImplementationStatus::Unimplemented),
            todo == count_of(rows@.subrange(0, i as int), ImplementationStatus::Todo),
            implemented + unimplemented + todo == count_all(rows@.subrange(0, i as int)),
        decreases rows@.len() - i,
    {
        proof {
            let pre = rows@.subrange(0, i + 1);
            assert(pre.drop_last() =~= rows@.subrange(0, i as int));
            lemma_counts_partition(pre);
            lemma_count_all_prefix(rows@, i + 1);
        }
        let (name, n) = (&rows[i].0, rows[i].1);
        match parse_status(name.as_str()) {
            ImplementationStatus::Implemented => implemented = implemented + n,
            ImplementationStatus::Unimplemented => unimplemented = unimplemented + n,
            ImplementationStatus::Todo => todo = todo + n,
        }
        i = i + 1;
    }
    assert(rows@.subrange(0, rows@.len() as int) =~= rows@);
    StatusCounts { total: implemented + unimplemented + todo, implemented, unimplemented, todo }
}

/// A prefix's total is at most the whole total.
proof fn lemma_count_all_prefix(rows: Seq<(String, usize)>, k: int)
    requires
        0 <= k <= rows.len(),
    ensures
        count_all(rows.subrange(0, k)) <= count_all(rows),
    decreases rows.len(),
{
    if k < rows.len() {
        assert(rows.drop_last().subrange(0, k) =~= rows.subrange(0, k));
        lemma_count_all_prefix(rows.drop_last(), k);
    } else {
        assert(rows.subrange(0, k) =~= rows);
    }
}

} // verus!
