use vstd::prelude::*;

verus! {

/// The kind of an indexed item.
#[derive(Debug, Clone, Copy, PartialEq, Eq, Structural)]
pub enum SymbolKind {
    Module,
    Struct,
    Enum,
    Trait,
    Fn,
    Method,
    Field,
    Variant,
    TypeAlias,
    Const,
    Static,
    Impl,
}

/// The stored name of each kind.
pub open spec fn kind_name(k: SymbolKind) -> Seq<char> {
    match k {
        SymbolKind::Module => "module"@,
        SymbolKind::Struct => "struct"@,
        SymbolKind::Enum => "enum"@,
        SymbolKind::Trait => "trait"@,
        SymbolKind::Fn => "fn"@,
        SymbolKind::Method => "method"@,
        SymbolKind::Field => "field"@,
        SymbolKind::Variant => "variant"@,
        SymbolKind::TypeAlias => "type_alias"@,
        SymbolKind::Const => "const"@,
        SymbolKind::Static => "static"@,
        SymbolKind::Impl => "impl"@,
    }
}

impl SymbolKind {
    pub fn as_str(&self) -> (r: &'static str)
        ensures
            r@ == kind_name(*self),
    {
        match self {
            SymbolKind::Module => "module",
            SymbolKind::Struct => "struct",
            SymbolKind::Enum => "enum",
            SymbolKind::Trait => "trait",
            SymbolKind::Fn => "fn",
            SymbolKind::Method => "method",
            SymbolKind::Field => "field",
            SymbolKind::Variant => "variant",
            SymbolKind::TypeAlias => "type_alias",
            SymbolKind::Const => "const",
            SymbolKind::Static => "static",
            SymbolKind::Impl => "impl",
        }
    }
}


/// Whether an item is visible outside its package.
#[derive(Debug, Clone, Copy, PartialEq, Eq, Structural)]
pub enum Visibility {
    Public,
    Private,
}

/// The stored name of each visibility.
pub open spec fn visibility_name(v: Visibility) -> Seq<char> {
    match v {
        Visibility::Public => "public"@,
        Visibility::Private => "private"@,
    }
}

impl Visibility {
    pub fn as_str(&self) -> (r: &'static str)
        ensures
            r@ == visibility_name(*self),
    {
        match self {
            Visibility::Public => "public",
            Visibility::Private => "private",
        }
    }
}

/// How far a function's body has been written.
#[derive(Debug, Clone, Copy, PartialEq, Eq, Structural)]
pub enum ImplementationStatus {
    Implemented,
    Unimplemented,
    Todo,
}

/// The stored name of each status.
pub open spec fn status_name(s: ImplementationStatus) -> Seq<char> {
    match s {
        ImplementationStatus::Implemented => "implemented"@,
        ImplementationStatus::Unimplemented => "unimplemented"@,
        ImplementationStatus::Todo => "todo"@,
    }
}

impl ImplementationStatus {
    pub fn as_str(&self) -> (r: &'static str)
        ensures
            r@ == status_name(*self),
    {
        match self {
            ImplementationStatus::Implemented => "implemented",
            ImplementationStatus::Unimplemented => "unimplemented",
            ImplementationStatus::Todo => "todo",
        }
    }
}

/// An indexed item with its stable identity.
#[derive(Debug, Clone, PartialEq, Eq)]
pub struct Symbol {
    pub symbol_id: String,
    pub crate_id: i64,
    pub file_id: i64,
    pub path: String,
    pub name: String,
    pub kind: SymbolKind,
    pub visibility: Visibility,
    pub signature: String,
    pub docs: Option<String>,
    pub status: ImplementationStatus,
    pub span_start: u32,
    pub span_end: u32,
    pub def_hash: String,
}

/// A package row.
#[derive(Debug, Clone)]
pub struct Crate {
    pub id: i64,
    pub name: String,
    pub version: Option<String>,
    pub fingerprint: String,
}

/// A source file row.
#[derive(Debug, Clone)]
pub struct File {
    pub id: i64,
    pub crate_id: i64,
    pub path: String,
    pub digest: String,
}

/// An implementation region in a source file.
#[derive(Debug, Clone)]
pub struct ImplBlock {
    pub id: i64,
    pub for_path: String,
    pub trait_path: Option<String>,
    pub file_id: i64,
    pub line_start: u32,
    pub line_end: u32,
}

/// An edge from a symbol to a target path.
#[derive(Debug, Clone)]
pub struct Reference {
    pub id: i64,
    pub symbol_id: i64,
    pub target_path: String,
    pub file_id: i64,
    pub span_start: u32,
    pub span_end: u32,
}

/// A self-contained export of a symbol and its neighbourhood.
#[derive(Debug, Clone)]
pub struct Bundle {
    pub symbol: Symbol,
    pub children: Vec<Symbol>,
    pub extern_refs: Vec<String>,
    pub impl_ranges: Vec<ImplRange>,
    pub order: String,
    pub invariants: BundleInvariants,
}

/// A line range of an implementation inside an exported bundle.
#[derive(Debug, Clone)]
pub struct ImplRange {
    pub file: String,
    pub file_digest: String,
    pub line_start: u32,
    pub line_end: u32,
}

/// What a bundle promises about its ranges.
#[derive(Debug, Clone)]
pub struct BundleInvariants {
    pub range_1_based_inclusive: bool,
}

impl Default for BundleInvariants {
    fn default() -> (r: Self)
        ensures
            r.range_1_based_inclusive,
    {
        BundleInvariants { range_1_based_inclusive: true }
    }
}

/// Counts of symbols by status.
#[derive(Debug, Clone)]
pub struct StatusCounts {
    pub total: usize,
    pub implemented: usize,
    pub unimplemented: usize,
    pub todo: usize,
}

/// One symbol in a status listing.
#[derive(Debug, Clone)]
pub struct StatusItem {
    pub path: String,
    pub status: ImplementationStatus,
    pub kind: SymbolKind,
}

/// The answer to a status request.
#[derive(Debug, Clone)]
pub struct StatusResponse {
    pub counts: StatusCounts,
    pub items: Vec<StatusItem>,
}

/// The daemon's diagnostic record.
#[derive(Debug, Clone)]
pub struct DiagResponse {
    pub db_path: String,
    pub schema_version: String,
    pub tool_version: String,
    pub protocol_versions_supported: Vec<u32>,
    pub workspace_root: String,
    pub workspace_fingerprint: String,
    pub crate_count: usize,
    pub file_count: usize,
    pub symbol_count: usize,
    pub mem_footprint_bytes: usize,
    pub last_index_duration_ms: u64,
    pub index_timestamp: String,
    pub rustc_hash: String,
    pub features: Vec<String>,
    pub target: String,
    pub daemon_hot: bool,
    pub transport: String,
}

/// The symbols found by a query.
#[derive(Debug, Clone)]
pub struct FindResult {
    pub items: Vec<Symbol>,
}

} // verus!
