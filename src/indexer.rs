//! Turns a package's documentation blob into symbol, file and implementation
//! rows: canonical paths, normalized signatures, identities and statuses.
use vstd::prelude::*;
use vstd::string::*;
use crate::doc::{
    find_impl_of, find_local_path, find_path_named, first_impl_from, first_named_from, DocItem,
    first_path_from, joined, opt_int, DocCrate, DocFunction, DocItemKind, DocPath, DocTraitRef,
    DocType, DocSpan, impl_lists,
};
use crate::hashing::{
    compute_def_hash, compute_file_digest, compute_symbol_id, def_hash_of, file_digest_of,
    symbol_id_of,
};
use crate::models::{kind_name, File, ImplBlock, ImplementationStatus, Symbol, SymbolKind, Visibility};
use crate::status::{detect_implementation_status, span_text, status_of_text};
use crate::text::{cat, contains_seq, contains_str, is_prefix, join, join_seq, starts_with, str_eq, views};

verus! {

/// Method names that derives and conversion traits supply.
#[verifier::opaque]
pub open spec fn is_derive_name(n: Seq<char>) -> bool {
    n == "clone"@ || n == "clone_from"@ || n == "fmt"@ || n == "eq"@ || n == "ne"@ || n
        == "partial_cmp"@ || n == "cmp"@ || n == "hash"@ || n == "serialize"@ || n
        == "deserialize"@ || n == "default"@ || n == "from"@ || n == "into"@ || n == "try_from"@
        || n == "try_into"@ || n == "as_ref"@ || n == "as_mut"@ || n == "borrow"@ || n
        == "borrow_mut"@ || n == "to_owned"@ || n == "to_string"@ || n == "drop"@ || n
        == "deref"@ || n == "deref_mut"@
}

/// Whether a name is one of the derived or bridge method names.
pub fn is_derive_method(method_name: &str) -> (r: bool)
    ensures
        r == is_derive_name(method_name@),
{
    let n = method_name;
    reveal(is_derive_name);
    str_eq(n, "clone") || str_eq(n, "clone_from") || str_eq(n, "fmt") || str_eq(n, "eq")
        || str_eq(n, "ne") || str_eq(n, "partial_cmp") || str_eq(n, "cmp") || str_eq(n, "hash")
        || str_eq(n, "serialize") || str_eq(n, "deserialize") || str_eq(n, "default") || str_eq(
        n,
        "from",
    ) || str_eq(n, "into") || str_eq(n, "try_from") || str_eq(n, "try_into") || str_eq(
        n,
        "as_ref",
    ) || str_eq(n, "as_mut") || str_eq(n, "borrow") || str_eq(n, "borrow_mut") || str_eq(
        n,
        "to_owned",
    ) || str_eq(n, "to_string") || str_eq(n, "drop") || str_eq(n, "deref") || str_eq(
        n,
        "deref_mut",
    )
}

/// Generic parameters rendered as `<A, B>`, or nothing.
pub open spec fn generics_text(g: Seq<String>) -> Seq<char> {
    if g.len() == 0 {
        Seq::empty()
    } else {
        "<"@ + join_seq(views(g), ", "@) + ">"@
    }
}

/// A function's normalized signature.
pub open spec fn fn_signature(f: DocFunction, name: Seq<char>) -> Seq<char> {
    (if f.is_const { "const "@ } else { Seq::empty() }) + (if f.is_async {
        "async "@
    } else {
        Seq::empty()
    }) + (if f.is_unsafe { "unsafe "@ } else { Seq::empty() }) + "fn "@ + name + generics_text(
        f.generics@,
    ) + "("@ + join_seq(views(f.params@), ", "@) + ")"@ + (if f.has_output {
        " -> _"@
    } else {
        Seq::empty()
    })
}

/// The normalized signature of an item.
pub open spec fn signature_of(inner: DocItemKind, name: Seq<char>) -> Seq<char> {
    match inner {
        DocItemKind::Module => "mod "@ + name,
        DocItemKind::Struct { generics, .. } => "struct "@ + name + generics_text(generics@),
        DocItemKind::Enum { generics, .. } => "enum "@ + name + generics_text(generics@),
        DocItemKind::Trait { is_unsafe, generics, .. } => (if is_unsafe {
            "unsafe "@
        } else {
            Seq::empty()
        }) + "trait "@ + name + generics_text(generics@),
        DocItemKind::Function(f) => fn_signature(f, name),
        DocItemKind::TypeAlias { generics } => "type "@ + name + generics_text(generics@),
        DocItemKind::Constant => "const "@ + name + ": _"@,
        DocItemKind::Static { is_mutable } => (if is_mutable {
            "mut "@
        } else {
            Seq::empty()
        }) + "static "@ + name + ": _"@,
        DocItemKind::Impl { .. } => "impl"@,
        DocItemKind::Variant => name,
        DocItemKind::StructField(_) => name,
        DocItemKind::Other => Seq::empty(),
    }
}

/// The symbol kind of an item; a function inside an implementation is a
/// method. Items of other kinds are not indexed.
pub open spec fn kind_of(inner: DocItemKind, in_impl: bool) -> Option<SymbolKind> {
    match inner {
        DocItemKind::Module => Some(SymbolKind::Module),
        DocItemKind::Struct { .. } => Some(SymbolKind::Struct),
        DocItemKind::Enum { .. } => Some(SymbolKind::Enum),
        DocItemKind::Trait { .. } => Some(SymbolKind::Trait),
        DocItemKind::Function(_) => Some(
            if in_impl {
                SymbolKind::Method
            } else {
                SymbolKind::Fn
            },
        ),
        DocItemKind::TypeAlias { .. } => Some(SymbolKind::TypeAlias),
        DocItemKind::Constant => Some(SymbolKind::Const),
        DocItemKind::Static { .. } => Some(SymbolKind::Static),
        DocItemKind::Impl { .. } => Some(SymbolKind::Impl),
        DocItemKind::Variant => Some(SymbolKind::Variant),
        DocItemKind::StructField(_) => Some(SymbolKind::Field),
        DocItemKind::Other => None,
    }
}

/// The path of an implementation's target type: its local path, or the
/// primitive or generic name.
pub open spec fn type_path(paths: Seq<DocPath>, t: DocType) -> Seq<char> {
    match t {
        DocType::ResolvedPath(id, _) => match first_path_from(paths, id, 0) {
            Some(k) => joined(paths[k]),
            None => "external"@,
        },
        DocType::Primitive(p) => p@,
        DocType::Generic(g) => g@,
        _ => "unknown"@,
    }
}

/// The path of an implemented trait: its local path, or the name written.
pub open spec fn trait_path_of(paths: Seq<DocPath>, tr: DocTraitRef) -> Seq<char> {
    match first_path_from(paths, tr.id, 0) {
        Some(k) => joined(paths[k]),
        None => tr.name@,
    }
}

/// The canonical path of item `id` named `name` in package `pkg`.
pub open spec fn canonical_path(k: DocCrate, id: u32, name: Seq<char>, pkg: Seq<char>) -> Seq<
    char,
> {
    match first_impl_from(k.index@, id, 0) {
        Some(j) => match k.index@[j].inner {
            DocItemKind::Impl { trait_, for_type, .. } => {
                let base = pkg + "::"@ + type_path(k.paths@, for_type);
                match trait_ {
                    Some(tr) => base + "::"@ + trait_path_of(k.paths@, tr) + "::"@ + name,
                    None => base + "::"@ + name,
                }
            },
            _ => pkg + "::"@ + name,
        },
        None => match first_path_from(k.paths@, id, 0) {
            Some(p) => joined(k.paths@[p]),
            None => match first_named_from(k.paths@, name, 0) {
                Some(p) => joined(k.paths@[p]),
                None => pkg + "::"@ + name,
            },
        },
    }
}

/// A source file as indexing sees it: `None` for one that could not be read.
#[derive(Debug, Clone)]
pub struct SourceFile {
    pub path: String,
    pub content: Option<Vec<u8>>,
}

/// The first source entry for `name`, at or after `i`.
pub open spec fn first_source_from(sources: Seq<SourceFile>, name: Seq<char>, i: int) -> Option<
    int,
>
    decreases sources.len() - i,
{
    if i < 0 || i >= sources.len() {
        None
    } else if sources[i].path@ == name {
        Some(i)
    } else {
        first_source_from(sources, name, i + 1)
    }
}

/// The bytes of a source file, if it was read.
pub open spec fn source_content(sources: Seq<SourceFile>, name: Seq<char>) -> Option<Seq<u8>> {
    match first_source_from(sources, name, 0) {
        Some(k) => match sources[k].content {
            Some(c) => Some(c@),
            None => None,
        },
        None => None,
    }
}

/// The digest recorded for a file: its content digest, or `missing`.
pub open spec fn digest_for(sources: Seq<SourceFile>, name: Seq<char>) -> Seq<char> {
    match source_content(sources, name) {
        Some(b) => file_digest_of(b),
        None => "missing"@,
    }
}

/// The status of a span of a file: read from its text, or implemented when
/// it could not be read.
pub open spec fn file_span_status(content: Option<Seq<u8>>, start: u32, end: u32) -> ImplementationStatus {
    match content {
        Some(t) => status_of_text(span_text(t, start, end)),
        None => ImplementationStatus::Implemented,
    }
}

/// The file rows of one package: numbered by position, each with the digest
/// of its source.
pub open spec fn files_wf(files: Seq<File>, sources: Seq<SourceFile>, crate_id: i64) -> bool {
    &&& forall|i: int|
        #![trigger files[i]]
        0 <= i < files.len() ==> {
            &&& files[i].id == i
            &&& files[i].crate_id == crate_id
            &&& files[i].digest@ == digest_for(sources, files[i].path@)
        }
    &&& forall|i: int, j: int|
        0 <= i < j < files.len() ==> (#[trigger] files[i]).path@ != (#[trigger] files[j]).path@
}

/// What the symbol made from item `i` holds.
#[verifier::opaque]
pub open spec fn symbol_for_item(
    s: Symbol,
    k: DocCrate,
    i: int,
    crate_id: i64,
    pkg: Seq<char>,
    sources: Seq<SourceFile>,
) -> bool {
    let item = k.index@[i];
    let span = item.span->0;
    &&& 0 <= i < k.index@.len()
    &&& item.crate_id == 0
    &&& item.name is Some
    &&& item.span is Some
    &&& s.name@ == item.name->0@
    &&& kind_of(item.inner, first_impl_from(k.index@, item.id, 0) is Some) == Some(s.kind)
    &&& s.signature@ == signature_of(item.inner, s.name@)
    &&& s.visibility == (if item.is_public {
        Visibility::Public
    } else {
        Visibility::Private
    })
    &&& s.path@ == canonical_path(k, item.id, s.name@, pkg)
    &&& s.crate_id == crate_id
    &&& s.span_start == span.begin_line
    &&& s.span_end == span.end_line
    &&& s.symbol_id@ == symbol_id_of(
        s.path@,
        kind_name(s.kind),
        digest_for(sources, span.filename@),
        s.span_start,
        s.span_end,
    )
    &&& s.def_hash@ == def_hash_of(s.signature@)
    &&& s.status == (if s.kind is Fn || s.kind is Method {
        file_span_status(source_content(sources, span.filename@), s.span_start, s.span_end)
    } else {
        ImplementationStatus::Implemented
    })
}

/// Finds the first source entry for `name`.
fn find_source(sources: &Vec<SourceFile>, name: &String) -> (r: Option<usize>)
    ensures
        opt_int(r) == first_source_from(sources@, name@, 0),
        r matches Some(k) ==> k < sources@.len(),
{
    let mut i: usize = 0;
    while i < sources.len()
        invariant
            i <= sources@.len(),
            first_source_from(sources@, name@, 0) == first_source_from(sources@, name@, i as int),
        decreases sources@.len() - i,
    {
        if sources[i].path == *name {
            return Some(i);
        }
        i = i + 1;
    }
    None
}

/// The bytes of a source file, if it was read.
fn content_of<'a>(sources: &'a Vec<SourceFile>, name: &String) -> (r: Option<&'a [u8]>)
    ensures
        r is None <==> source_content(sources@, name@) is None,
        r is Some ==> source_content(sources@, name@) == Some(r->0@),
{
    match find_source(sources, name) {
        Some(k) => match &sources[k].content {
            Some(c) => Some(c.as_slice()),
            None => None,
        },
        None => None,
    }
}

/// The row number of the file `name`, added with its digest on first use.
fn file_for(
    files: &mut Vec<File>,
    sources: &Vec<SourceFile>,
    crate_id: i64,
    name: &String,
) -> (r: usize)
    requires
        files_wf(old(files)@, sources@, crate_id),
        old(files)@.len() < 0x7fff_ffff_ffff_ffff,
    ensures
        files_wf(final(files)@, sources@, crate_id),
        r < final(files)@.len(),
        final(files)@[r as int].path@ == name@,
        old(files)@.len() <= final(files)@.len() <= old(files)@.len() + 1,
        forall|j: int| 0 <= j < old(files)@.len() ==> final(files)@[j] == old(files)@[j],
{
    let mut i: usize = 0;
    while i < files.len()
        invariant
            i <= files@.len(),
            files@ == old(files)@,
            files_wf(old(files)@, sources@, crate_id),
            old(files)@.len() < 0x7fff_ffff_ffff_ffff,
            forall|j: int| 0 <= j < i ==> (#[trigger] files@[j]).path@ != name@,
        decreases files@.len() - i,
    {
        if files[i].path == *name {
            return i;
        }
        i = i + 1;
    }
    let digest = match content_of(sources, name) {
        Some(c) => compute_file_digest(c),
        None => "missing".to_owned(),
    };
    let id = files.len() as i64;
    files.push(File { id, crate_id, path: name.clone(), digest });
    assert(files_wf(files@, sources@, crate_id)) by {
        assert forall|j: int| #![trigger files@[j]] 0 <= j < files@.len() implies {
            &&& files@[j].id == j
            &&& files@[j].crate_id == crate_id
            &&& files@[j].digest@ == digest_for(sources@, files@[j].path@)
        } by {
            if j < old(files)@.len() {
                assert(files@[j] == old(files)@[j]);
            }
        }
        assert forall|a: int, b: int| 0 <= a < b < files@.len() implies (#[trigger] files@[a]).path@
            != (#[trigger] files@[b]).path@ by {
            assert(files@[a] == old(files)@[a]);
            if b < old(files)@.len() {
                assert(files@[b] == old(files)@[b]);
            }
        }
    }
    files.len() - 1
}

/// Generic parameters rendered as `<A, B>`, or nothing.
pub fn format_generics(generics: &Vec<String>) -> (r: String)
    ensures
        r@ == generics_text(generics@),
{
    if generics.len() == 0 {
        String::new()
    } else {
        let mut r = "<".to_owned();
        let j = join(generics, ", ");
        r.append(j.as_str());
        r.append(">");
        r
    }
}

/// A function's normalized signature: qualifiers, name, generic names,
/// parameter names, and `-> _` where it returns a value.
pub fn format_function_signature(name: &str, f: &DocFunction) -> (r: String)
    ensures
        r@ == fn_signature(*f, name@),
{
    let mut r = String::new();
    if f.is_const {
        r.append("const ");
    }
    if f.is_async {
        r.append("async ");
    }
    if f.is_unsafe {
        r.append("unsafe ");
    }
    r.append("fn ");
    r.append(name);
    let g = format_generics(&f.generics);
    r.append(g.as_str());
    r.append("(");
    let p = join(&f.params, ", ");
    r.append(p.as_str());
    r.append(")");
    if f.has_output {
        r.append(" -> _");
    }
    proof {
        let q1: Seq<char> = if f.is_const { "const "@ } else { Seq::empty() };
        let q2: Seq<char> = if f.is_async { "async "@ } else { Seq::empty() };
        let q3: Seq<char> = if f.is_unsafe { "unsafe "@ } else { Seq::empty() };
        let o: Seq<char> = if f.has_output { " -> _"@ } else { Seq::empty() };
        assert(r@ =~= q1 + q2 + q3 + "fn "@ + name@ + generics_text(f.generics@) + "("@
            + join_seq(views(f.params@), ", "@) + ")"@ + o);
    }
    r
}

/// The normalized signature of an item.
pub fn render_signature(inner: &DocItemKind, name: &String) -> (r: String)
    ensures
        r@ == signature_of(*inner, name@),
{
    match inner {
        DocItemKind::Module => cat("mod ", name.as_str()),
        DocItemKind::Struct { generics, .. } => {
            let mut r = cat("struct ", name.as_str());
            r.append(format_generics(generics).as_str());
            r
        },
        DocItemKind::Enum { generics, .. } => {
            let mut r = cat("enum ", name.as_str());
            r.append(format_generics(generics).as_str());
            r
        },
        DocItemKind::Trait { is_unsafe, generics, .. } => {
            let mut r = if *is_unsafe {
                "unsafe ".to_owned()
            } else {
                String::new()
            };
            r.append("trait ");
            r.append(name.as_str());
            r.append(format_generics(generics).as_str());
            r
        },
        DocItemKind::Function(f) => format_function_signature(name.as_str(), f),
        DocItemKind::TypeAlias { generics } => {
            let mut r = cat("type ", name.as_str());
            r.append(format_generics(generics).as_str());
            r
        },
        DocItemKind::Constant => {
            let mut r = cat("const ", name.as_str());
            r.append(": _");
            r
        },
        DocItemKind::Static { is_mutable } => {
            let mut r = if *is_mutable {
                "mut ".to_owned()
            } else {
                String::new()
            };
            r.append("static ");
            r.append(name.as_str());
            r.append(": _");
            r
        },
        DocItemKind::Impl { .. } => "impl".to_owned(),
        DocItemKind::Variant => name.clone(),
        DocItemKind::StructField(_) => name.clone(),
        DocItemKind::Other => String::new(),
    }
}

/// The symbol kind of an item, if it is indexed at all.
pub fn symbol_kind_of(inner: &DocItemKind, in_impl: bool) -> (r: Option<SymbolKind>)
    ensures
        r == kind_of(*inner, in_impl),
{
    match inner {
        DocItemKind::Module => Some(SymbolKind::Module),
        DocItemKind::Struct { .. } => Some(SymbolKind::Struct),
        DocItemKind::Enum { .. } => Some(SymbolKind::Enum),
        DocItemKind::Trait { .. } => Some(SymbolKind::Trait),
        DocItemKind::Function(_) => Some(
            if in_impl {
                SymbolKind::Method
            } else {
                SymbolKind::Fn
            },
        ),
        DocItemKind::TypeAlias { .. } => Some(SymbolKind::TypeAlias),
        DocItemKind::Constant => Some(SymbolKind::Const),
        DocItemKind::Static { .. } => Some(SymbolKind::Static),
        DocItemKind::Impl { .. } => Some(SymbolKind::Impl),
        DocItemKind::Variant => Some(SymbolKind::Variant),
        DocItemKind::StructField(_) => Some(SymbolKind::Field),
        DocItemKind::Other => None,
    }
}

/// The path of an implementation's target type.
pub fn extract_type_path(ty: &DocType, paths: &Vec<DocPath>) -> (r: String)
    ensures
        r@ == type_path(paths@, *ty),
{
    match ty {
        DocType::ResolvedPath(id, _) => match find_local_path(paths, *id) {
            Some(k) => join(&paths[k].path, "::"),
            None => "external".to_owned(),
        },
        DocType::Primitive(p) => p.clone(),
        DocType::Generic(g) => g.clone(),
        _ => "unknown".to_owned(),
    }
}

/// The path of an implemented trait.
pub fn extract_trait_path(tr: &DocTraitRef, paths: &Vec<DocPath>) -> (r: String)
    ensures
        r@ == trait_path_of(paths@, *tr),
{
    match find_local_path(paths, tr.id) {
        Some(k) => join(&paths[k].path, "::"),
        None => tr.name.clone(),
    }
}

/// The canonical path of item `id` named `name` in package `crate_name`.
pub fn compute_canonical_path(krate: &DocCrate, id: u32, name: &String, crate_name: &str) -> (r:
    String)
    ensures
        r@ == canonical_path(*krate, id, name@, crate_name@),
{
    match find_impl_of(&krate.index, id) {
        Some(j) => match &krate.index[j].inner {
            DocItemKind::Impl { trait_, for_type, .. } => {
                let mut r = cat(crate_name, "::");
                r.append(extract_type_path(for_type, &krate.paths).as_str());
                r.append("::");
                match trait_ {
                    Some(tr) => {
                        r.append(extract_trait_path(tr, &krate.paths).as_str());
                        r.append("::");
                    },
                    None => {},
                }
                r.append(name.as_str());
                r
            },
            _ => {
                let mut r = cat(crate_name, "::");
                r.append(name.as_str());
                r
            },
        },
        None => match find_local_path(&krate.paths, id) {
            Some(p) => join(&krate.paths[p].path, "::"),
            None => match find_path_named(&krate.paths, name) {
                Some(p) => join(&krate.paths[p].path, "::"),
                None => {
                    let mut r = cat(crate_name, "::");
                    r.append(name.as_str());
                    r
                },
            },
        },
    }
}


/// Whether a canonical path passes the module and struct filters.
pub open spec fn passes_filters(module: Option<Seq<char>>, strukt: Option<Seq<char>>, path: Seq<
    char,
>) -> bool {
    &&& (module matches Some(m) ==> is_prefix(m, path))
    &&& (strukt matches Some(st) ==> match module {
        Some(m) => is_prefix(m + "::"@ + st, path),
        None => contains_seq(path, "::"@ + st),
    })
}

/// The view of an optional string.
pub open spec fn opt_view(o: Option<String>) -> Option<Seq<char>> {
    match o {
        Some(s) => Some(s@),
        None => None,
    }
}

/// A local item that the derive rule drops: a function named like a derived
/// or bridge method, when those are not wanted.
pub open spec fn derive_skipped(item: DocItem, include_derives: bool) -> bool {
    !include_derives && item.name is Some && is_derive_name(item.name->0@)
        && item.inner is Function
}

/// A local item that should yield a symbol but has no span.
pub open spec fn lacks_span(k: DocCrate, i: int, include_derives: bool) -> bool {
    let item = k.index@[i];
    &&& item.crate_id == 0
    &&& !derive_skipped(item, include_derives)
    &&& item.name is Some
    &&& kind_of(item.inner, first_impl_from(k.index@, item.id, 0) is Some) is Some
    &&& !span_ok(item.span)
}

/// A span that exists, starts at line 1 or later, and runs forward.
pub open spec fn span_ok(sp: Option<DocSpan>) -> bool {
    sp matches Some(s) && 1 <= s.begin_line && s.begin_line <= s.end_line
}

/// A local item that yields a symbol: named, of an indexed kind, with a
/// valid span, not dropped by the derive rule, and inside the filters.
pub open spec fn yields_symbol(
    k: DocCrate,
    w: int,
    include_derives: bool,
    module: Option<Seq<char>>,
    strukt: Option<Seq<char>>,
    pkg: Seq<char>,
) -> bool {
    let item = k.index@[w];
    &&& item.crate_id == 0
    &&& item.name is Some
    &&& span_ok(item.span)
    &&& kind_of(item.inner, first_impl_from(k.index@, item.id, 0) is Some) is Some
    &&& !derive_skipped(item, include_derives)
    &&& passes_filters(module, strukt, canonical_path(k, item.id, item.name->0@, pkg))
}

/// A symbol's identity is the hash of its path, kind, file digest and span.
pub open spec fn identity_holds(s: Symbol, files: Seq<File>) -> bool {
    &&& 0 <= s.file_id < files.len()
    &&& s.symbol_id@ == symbol_id_of(
        s.path@,
        kind_name(s.kind),
        files[s.file_id as int].digest@,
        s.span_start,
        s.span_end,
    )
}

/// What the implementation row made from item `i` holds.
#[verifier::opaque]
pub open spec fn impl_for_item(b: ImplBlock, k: DocCrate, i: int, files: Seq<File>) -> bool {
    let item = k.index@[i];
    &&& 0 <= i < k.index@.len()
    &&& item.crate_id == 0
    &&& item.span is Some
    &&& match item.inner {
        DocItemKind::Impl { trait_, for_type, .. } => {
            &&& b.for_path@ == type_path(k.paths@, for_type)
            &&& match trait_ {
                Some(tr) => b.trait_path matches Some(t) && t@ == trait_path_of(k.paths@, tr),
                None => b.trait_path is None,
            }
        },
        _ => false,
    }
    &&& b.line_start == item.span->0.begin_line
    &&& b.line_end == item.span->0.end_line
    &&& 0 <= b.file_id < files.len()
    &&& files[b.file_id as int].path@ == item.span->0.filename@
}

/// A symbol that some local item of the blob yields, not dropped by the
/// derive rule.
#[verifier::opaque]
pub open spec fn symbol_from_blob(
    s: Symbol,
    k: DocCrate,
    crate_id: i64,
    pkg: Seq<char>,
    sources: Seq<SourceFile>,
    include_derives: bool,
) -> bool {
    exists|w: int|
        #![trigger symbol_for_item(s, k, w, crate_id, pkg, sources)]
        symbol_for_item(s, k, w, crate_id, pkg, sources) && !derive_skipped(
            k.index@[w],
            include_derives,
        )
}

/// An implementation row that some local implementation of the blob yields.
#[verifier::opaque]
pub open spec fn impl_from_blob(b: ImplBlock, k: DocCrate, files: Seq<File>) -> bool {
    exists|w: int| #![trigger impl_for_item(b, k, w, files)] impl_for_item(b, k, w, files)
}

/// Why indexing a package failed.
#[derive(Debug, Clone)]
pub enum IndexError {
    /// A store operation failed.
    Database(String),
    /// A filesystem operation failed.
    Io(String),
    /// The documentation blob could not be read.
    Json(String),
    /// The file watcher failed.
    Notify(String),
    /// The package could not be indexed.
    IndexingFailed(String),
}

/// The rows that one package's blob yields. A symbol's `file_id` and an
/// implementation's `file_id` are positions in `files` until they are stored.
/// The sources name, for each symbol and each implementation row, the
/// position of the item it was made from.
pub struct IndexBatch {
    pub files: Vec<File>,
    pub symbols: Vec<Symbol>,
    pub impls: Vec<ImplBlock>,
    pub symbol_sources: Ghost<Seq<int>>,
    pub impl_sources: Ghost<Seq<int>>,
}

/// A local implementation item.
pub open spec fn is_local_impl(item: DocItem) -> bool {
    item.crate_id == 0 && item.inner is Impl
}

/// What a batch records of where its rows come from: each symbol and each
/// implementation row with the item it was made from, the implementation
/// rows in blob order, one for every local implementation with a span, and
/// each symbol's file row naming the file of its item's span.
pub open spec fn batch_sources_ok(
    b: IndexBatch,
    k: DocCrate,
    crate_id: i64,
    pkg: Seq<char>,
    sources: Seq<SourceFile>,
) -> bool {
    let ss = b.symbol_sources@;
    let is = b.impl_sources@;
    &&& files_wf(b.files@, sources, crate_id)
    &&& ss.len() == b.symbols@.len()
    &&& is.len() == b.impls@.len()
    &&& forall|j: int|
        0 <= j < ss.len() ==> symbol_for_item(#[trigger] b.symbols@[j], k, ss[j], crate_id, pkg, sources)
    &&& forall|j: int|
        0 <= j < ss.len() ==> 0 <= (#[trigger] b.symbols@[j]).file_id < b.files@.len()
            && b.files@[b.symbols@[j].file_id as int].path@ == k.index@[ss[j]].span->0.filename@
    &&& forall|j: int| 0 <= j < is.len() ==> impl_for_item(#[trigger] b.impls@[j], k, is[j], b.files@)
    &&& forall|a: int, c: int| 0 <= a < c < is.len() ==> #[trigger] is[a] < #[trigger] is[c]
    &&& forall|w: int|
        0 <= w < k.index@.len() && is_local_impl(#[trigger] k.index@[w]) && k.index@[w].span is Some
            ==> exists|m: int| 0 <= m < is.len() && is[m] == w
}

/// Counts gathered by an index cycle.
#[derive(Debug, Clone, Default)]
pub struct IndexStats {
    pub crates_indexed: usize,
    pub files_indexed: usize,
    pub symbols_indexed: usize,
    pub duration_ms: u64,
}

impl IndexStats {
    /// Adds another cycle's counts to these.
    pub fn merge(&mut self, other: IndexStats)
        requires
            old(self).crates_indexed + other.crates_indexed <= usize::MAX,
            old(self).files_indexed + other.files_indexed <= usize::MAX,
            old(self).symbols_indexed + other.symbols_indexed <= usize::MAX,
        ensures
            final(self).crates_indexed == old(self).crates_indexed + other.crates_indexed,
            final(self).files_indexed == old(self).files_indexed + other.files_indexed,
            final(self).symbols_indexed == old(self).symbols_indexed + other.symbols_indexed,
            final(self).duration_ms == old(self).duration_ms,
    {
        self.crates_indexed = self.crates_indexed + other.crates_indexed;
        self.files_indexed = self.files_indexed + other.files_indexed;
        self.symbols_indexed = self.symbols_indexed + other.symbols_indexed;
    }
}

/// A package of the workspace, as the metadata command lists it.
#[derive(Debug, Clone)]
pub struct WorkspaceMember {
    pub name: String,
    pub version: String,
    pub path: String,
    pub package_id: String,
}

/// The indexing rules for one workspace: where it is and which items to keep.
#[derive(Debug, Clone)]
pub struct Indexer {
    pub workspace_root: String,
    pub filter_module: Option<String>,
    pub filter_struct: Option<String>,
    pub include_derives: bool,
}

impl Indexer {
    /// An indexer for a workspace, with no filters and derived methods left out.
    pub fn new(workspace_root: String) -> (r: Indexer)
        ensures
            r.workspace_root == workspace_root,
            r.filter_module is None,
            r.filter_struct is None,
            !r.include_derives,
    {
        Indexer { workspace_root, filter_module: None, filter_struct: None, include_derives: false }
    }

    /// The same indexer with the given filters.
    pub fn with_filters(
        self,
        module: Option<String>,
        struct_name: Option<String>,
        include_derives: bool,
    ) -> (r: Indexer)
        ensures
            r.workspace_root == self.workspace_root,
            r.filter_module == module,
            r.filter_struct == struct_name,
            r.include_derives == include_derives,
    {
        Indexer {
            workspace_root: self.workspace_root,
            filter_module: module,
            filter_struct: struct_name,
            include_derives,
        }
    }

    /// Whether a symbol's canonical path passes the module and struct filters.
    pub fn should_process_symbol(&self, symbol: &Symbol) -> (r: bool)
        ensures
            r == passes_filters(opt_view(self.filter_module), opt_view(self.filter_struct), symbol.path@),
    {
        let path = symbol.path.as_str();
        match &self.filter_module {
            Some(m) => {
                if !starts_with(path, m.as_str()) {
                    return false;
                }
            },
            None => {},
        }
        match &self.filter_struct {
            Some(st) => match &self.filter_module {
                Some(m) => {
                    let mut expected = cat(m.as_str(), "::");
                    expected.append(st.as_str());
                    starts_with(path, expected.as_str())
                },
                None => {
                    let needle = cat("::", st.as_str());
                    contains_str(path, needle.as_str())
                },
            },
            None => true,
        }
    }

    /// The symbol that item `idx` yields, if it is named and of an indexed
    /// kind; an error where such an item has no span. Its file is added to
    /// `files` on first use.
    #[verifier::rlimit(60)]
    pub fn extract_symbol(
        &self,
        krate: &DocCrate,
        idx: usize,
        crate_id: i64,
        crate_name: &str,
        sources: &Vec<SourceFile>,
        files: &mut Vec<File>,
    ) -> (r: Result<Option<Symbol>, IndexError>)
        requires
            idx < krate.index@.len(),
            krate.index@[idx as int].crate_id == 0,
            files_wf(old(files)@, sources@, crate_id),
            old(files)@.len() < 0x7fff_ffff_ffff_ffff,
        ensures
            files_wf(final(files)@, sources@, crate_id),
            old(files)@.len() <= final(files)@.len() <= old(files)@.len() + 1,
            forall|j: int| 0 <= j < old(files)@.len() ==> final(files)@[j] == old(files)@[j],
            r is Err <==> ({
                let item = krate.index@[idx as int];
                item.name is Some && kind_of(
                    item.inner,
                    first_impl_from(krate.index@, item.id, 0) is Some,
                ) is Some && !span_ok(item.span)
            }),
            r matches Ok(None) ==> ({
                let item = krate.index@[idx as int];
                item.name is None || kind_of(
                    item.inner,
                    first_impl_from(krate.index@, item.id, 0) is Some,
                ) is None
            }),
            r matches Ok(Some(s)) ==> {
                &&& symbol_for_item(s, *krate, idx as int, crate_id, crate_name@, sources@)
                &&& identity_holds(s, final(files)@)
                &&& krate.index@[idx as int].name is Some
                &&& s.name@ == krate.index@[idx as int].name->0@
                &&& s.path@ == canonical_path(*krate, krate.index@[idx as int].id, s.name@, crate_name@)
                &&& 1 <= s.span_start <= s.span_end
                &&& ((s.kind is Fn || s.kind is Method) <==> krate.index@[idx as int].inner is Function)
                &&& 0 <= s.file_id < final(files)@.len()
                &&& final(files)@[s.file_id as int].path@ == krate.index@[idx as int].span->0.filename@
            },
    {
        let item = &krate.index[idx];
        let name = match &item.name {
            Some(n) => n,
            None => return Ok(None),
        };
        let in_impl = find_impl_of(&krate.index, item.id).is_some();
        let kind = match symbol_kind_of(&item.inner, in_impl) {
            Some(k) => k,
            None => return Ok(None),
        };
        let signature = render_signature(&item.inner, name);
        let visibility = if item.is_public {
            Visibility::Public
        } else {
            Visibility::Private
        };
        let path = compute_canonical_path(krate, item.id, name, crate_name);
        let span = match &item.span {
            Some(sp) => sp,
            None => {
                let mut msg = cat("Item ", name.as_str());
                msg.append(" has no span information");
                return Err(IndexError::IndexingFailed(msg));
            },
        };
        if span.begin_line < 1 || span.begin_line > span.end_line {
            let mut msg = cat("Item ", name.as_str());
            msg.append(" has an invalid span");
            return Err(IndexError::IndexingFailed(msg));
        }
        let file_id = file_for(files, sources, crate_id, &span.filename);
        let digest = files[file_id].digest.clone();
        let symbol_id = compute_symbol_id(
            path.as_str(),
            kind.as_str(),
            digest.as_str(),
            span.begin_line,
            span.end_line,
        );
        let status = match kind {
            SymbolKind::Fn | SymbolKind::Method => detect_implementation_status(
                content_of(sources, &span.filename),
                span.begin_line,
                span.end_line,
            ),
            _ => ImplementationStatus::Implemented,
        };
        let def_hash = compute_def_hash(signature.as_str());
        proof {
            assert(files@[file_id as int].id == file_id as int);
            reveal(symbol_for_item);
        }
        Ok(
            Some(
                Symbol {
                    symbol_id,
                    crate_id,
                    file_id: file_id as i64,
                    path,
                    name: name.clone(),
                    kind,
                    visibility,
                    signature,
                    docs: item.docs.clone(),
                    status,
                    span_start: span.begin_line,
                    span_end: span.end_line,
                    def_hash,
                },
            ),
        )
    }
}


/// An implementation row stays valid when file rows are added after it.
proof fn lemma_impl_row_extends(b: ImplBlock, k: DocCrate, i: int, files: Seq<File>, more: Seq<File>)
    requires
        impl_for_item(b, k, i, files),
        files.len() <= more.len(),
        forall|j: int| 0 <= j < files.len() ==> more[j] == files[j],
    ensures
        impl_for_item(b, k, i, more),
{
    reveal(impl_for_item);
    assert(more[b.file_id as int] == files[b.file_id as int]);
}

/// The implementation row of item `i`, if it is a local implementation with
/// a span; its file is added to `files` on first use.
fn impl_row(
    krate: &DocCrate,
    i: usize,
    crate_id: i64,
    sources: &Vec<SourceFile>,
    files: &mut Vec<File>,
) -> (r: Option<ImplBlock>)
    requires
        i < krate.index@.len(),
        krate.index@[i as int].crate_id == 0,
        files_wf(old(files)@, sources@, crate_id),
        old(files)@.len() < 0x7fff_ffff_ffff_ffff,
    ensures
        files_wf(final(files)@, sources@, crate_id),
        old(files)@.len() <= final(files)@.len() <= old(files)@.len() + 1,
        forall|j: int| 0 <= j < old(files)@.len() ==> final(files)@[j] == old(files)@[j],
        r is Some <==> (krate.index@[i as int].inner is Impl && krate.index@[i as int].span is Some),
        r matches Some(b) ==> impl_for_item(b, *krate, i as int, final(files)@),
{
    let item = &krate.index[i];
    match &item.inner {
        DocItemKind::Impl { trait_, for_type, .. } => match &item.span {
            Some(span) => {
                let file_id = file_for(files, sources, crate_id, &span.filename);
                let trait_path = match trait_ {
                    Some(tr) => Some(extract_trait_path(tr, &krate.paths)),
                    None => None,
                };
                let b = ImplBlock {
                    id: 0,
                    for_path: extract_type_path(for_type, &krate.paths),
                    trait_path,
                    file_id: file_id as i64,
                    line_start: span.begin_line,
                    line_end: span.end_line,
                };
                proof {
                    reveal(impl_for_item);
                }
                Some(b)
            },
            None => None,
        },
        _ => None,
    }
}

impl Indexer {
    /// The rows of one package: a symbol for each local item that is named,
    /// of an indexed kind, not dropped by the derive rule and inside the
    /// filters; an implementation row for each local implementation with a
    /// span; a file row for each file they name. Fails where a local item
    /// that should yield a symbol has no span.
    pub fn process_rustdoc_data(
        &self,
        krate: &DocCrate,
        crate_id: i64,
        crate_name: &str,
        sources: &Vec<SourceFile>,
    ) -> (r: Result<IndexBatch, IndexError>)
        requires
            krate.index@.len() <= 0x3fff_ffff_ffff_ffff,
        ensures
            r is Err <==> exists|w: int|
                0 <= w < krate.index@.len() && lacks_span(*krate, w, self.include_derives),
            r matches Ok(b) ==> {
                &&& files_wf(b.files@, sources@, crate_id)
                &&& forall|j: int|
                    0 <= j < b.symbols@.len() ==> identity_holds(#[trigger] b.symbols@[j], b.files@)
                &&& forall|j: int|
                    0 <= j < b.symbols@.len() ==> symbol_from_blob(
                        #[trigger] b.symbols@[j],
                        *krate,
                        crate_id,
                        crate_name@,
                        sources@,
                        self.include_derives,
                    )
                &&& forall|j: int|
                    0 <= j < b.symbols@.len() ==> passes_filters(
                        opt_view(self.filter_module),
                        opt_view(self.filter_struct),
                        (#[trigger] b.symbols@[j]).path@,
                    )
                &&& !self.include_derives ==> forall|j: int|
                    0 <= j < b.symbols@.len() ==> !(((#[trigger] b.symbols@[j]).kind is Fn
                        || b.symbols@[j].kind is Method) && is_derive_name(b.symbols@[j].name@))
                &&& forall|j: int|
                    0 <= j < b.impls@.len() ==> impl_from_blob(#[trigger] b.impls@[j], *krate, b.files@)
                &&& batch_sources_ok(b, *krate, crate_id, crate_name@, sources@)
                &&& forall|w: int|
                    0 <= w < krate.index@.len() && #[trigger] yields_symbol(
                        *krate,
                        w,
                        self.include_derives,
                        opt_view(self.filter_module),
                        opt_view(self.filter_struct),
                        crate_name@,
                    ) ==> exists|j: int| 0 <= j < b.symbols@.len() && b.symbol_sources@[j] == w
            },
    {
        let mut files: Vec<File> = Vec::new();
        let mut symbols: Vec<Symbol> = Vec::new();
        let mut impls: Vec<ImplBlock> = Vec::new();
        let ghost mut sym_src: Seq<int> = Seq::empty();
        let ghost mut impl_src: Seq<int> = Seq::empty();
        let n = krate.index.len();
        let mut i: usize = 0;
        while i < n
            invariant
                n == krate.index@.len(),
                n <= 0x3fff_ffff_ffff_ffff,
                i <= n,
                files@.len() <= 2 * i,
                files_wf(files@, sources@, crate_id),
                sym_src.len() == symbols@.len(),
                impl_src.len() == impls@.len(),
                forall|j: int| 0 <= j < symbols@.len() ==> identity_holds(#[trigger] symbols@[j], files@),
                forall|j: int|
                    0 <= j < symbols@.len() ==> symbol_for_item(
                        #[trigger] symbols@[j],
                        *krate,
                        sym_src[j],
                        crate_id,
                        crate_name@,
                        sources@,
                    ),
                forall|j: int|
                    0 <= j < symbols@.len() ==> !derive_skipped(
                        #[trigger] krate.index@[sym_src[j]],
                        self.include_derives,
                    ),
                !self.include_derives ==> forall|j: int|
                    0 <= j < symbols@.len() ==> !(((#[trigger] symbols@[j]).kind is Fn
                        || symbols@[j].kind is Method) && is_derive_name(symbols@[j].name@)),
                forall|j: int|
                    0 <= j < symbols@.len() ==> passes_filters(
                        opt_view(self.filter_module),
                        opt_view(self.filter_struct),
                        (#[trigger] symbols@[j]).path@,
                    ),
                forall|j: int|
                    0 <= j < impls@.len() ==> impl_for_item(#[trigger] impls@[j], *krate, impl_src[j], files@),
                forall|j: int| 0 <= j < i ==> !lacks_span(*krate, j, self.include_derives),
                forall|j: int|
                    0 <= j < symbols@.len() ==> 0 <= (#[trigger] symbols@[j]).file_id < files@.len()
                        && files@[symbols@[j].file_id as int].path@ == krate.index@[sym_src[j]].span->0.filename@,
                forall|a: int| 0 <= a < impl_src.len() ==> #[trigger] impl_src[a] < i,
                forall|a: int, c: int| 0 <= a < c < impl_src.len() ==> #[trigger] impl_src[a] < #[trigger] impl_src[c],
                forall|w: int|
                    0 <= w < i && is_local_impl(#[trigger] krate.index@[w]) && krate.index@[w].span is Some
                        ==> exists|m: int| 0 <= m < impl_src.len() && impl_src[m] == w,
                forall|w: int|
                    0 <= w < i && #[trigger] yields_symbol(
                        *krate,
                        w,
                        self.include_derives,
                        opt_view(self.filter_module),
                        opt_view(self.filter_struct),
                        crate_name@,
                    ) ==> exists|j: int| 0 <= j < sym_src.len() && sym_src[j] == w,
            decreases n - i,
        {
            let item = &krate.index[i];
            if item.crate_id != 0 {
                i = i + 1;
                continue;
            }
            let mut skip = false;
            if !self.include_derives {
                match &item.name {
                    Some(nm) => {
                        if is_derive_method(nm.as_str()) && matches!(item.inner, DocItemKind::Function(_)) {
                            skip = true;
                        }
                    },
                    None => {},
                }
            }
            assert(skip == derive_skipped(krate.index@[i as int], self.include_derives));
            if skip {
                i = i + 1;
                continue;
            }
            let ghost files0 = files@;
            let ghost symbols0 = symbols@;
            let ghost ssrc0 = sym_src;
            match self.extract_symbol(krate, i, crate_id, crate_name, sources, &mut files) {
                Err(e) => {
                    assert(lacks_span(*krate, i as int, self.include_derives));
                    return Err(e);
                },
                Ok(None) => {},
                Ok(Some(sym)) => {
                    assert(!self.include_derives ==> !((sym.kind is Fn || sym.kind is Method)
                        && is_derive_name(sym.name@)));
                    if self.should_process_symbol(&sym) {
                        symbols.push(sym);
                        proof {
                            sym_src = sym_src.push(i as int);
                        }
                    }
                },
            }
            proof {
                assert forall|w: int|
                    0 <= w < i + 1 && #[trigger] yields_symbol(
                        *krate,
                        w,
                        self.include_derives,
                        opt_view(self.filter_module),
                        opt_view(self.filter_struct),
                        crate_name@,
                    ) implies exists|j: int| 0 <= j < sym_src.len() && sym_src[j] == w by {
                    if w < i {
                        let j = choose|j: int| 0 <= j < ssrc0.len() && ssrc0[j] == w;
                        assert(sym_src[j] == w);
                    } else {
                        assert(sym_src[sym_src.len() - 1] == w);
                    }
                }
                if !self.include_derives {
                    assert forall|j: int| 0 <= j < symbols@.len() implies !(((#[trigger] symbols@[j]).kind is Fn
                        || symbols@[j].kind is Method) && is_derive_name(symbols@[j].name@)) by {
                        if j < symbols0.len() {
                            assert(symbols@[j] == symbols0[j]);
                        }
                    }
                }
                assert forall|j: int| 0 <= j < symbols@.len() implies identity_holds(
                    #[trigger] symbols@[j],
                    files@,
                ) by {
                    if j < symbols0.len() {
                        assert(symbols@[j] == symbols0[j]);
                        assert(identity_holds(symbols0[j], files0));
                        assert(files@[symbols@[j].file_id as int] == files0[symbols@[j].file_id as int]);
                    }
                }
                assert forall|j: int| 0 <= j < symbols@.len() implies 0 <= (#[trigger] symbols@[j]).file_id < files@.len()
                    && files@[symbols@[j].file_id as int].path@ == krate.index@[sym_src[j]].span->0.filename@ by {
                    if j < symbols0.len() {
                        assert(symbols@[j] == symbols0[j]);
                        assert(files@[symbols@[j].file_id as int] == files0[symbols@[j].file_id as int]);
                    }
                }
                assert forall|j: int| 0 <= j < impls@.len() implies impl_for_item(
                    #[trigger] impls@[j],
                    *krate,
                    impl_src[j],
                    files@,
                ) by {
                    lemma_impl_row_extends(impls@[j], *krate, impl_src[j], files0, files@);
                }
            }
            let ghost files1 = files@;
            let ghost impls1 = impls@;
            let ghost isrc1 = impl_src;
            match impl_row(krate, i, crate_id, sources, &mut files) {
                Some(b) => {
                    impls.push(b);
                    proof {
                        impl_src = impl_src.push(i as int);
                    }
                },
                None => {},
            }
            proof {
                assert forall|w: int|
                    0 <= w < i + 1 && is_local_impl(#[trigger] krate.index@[w]) && krate.index@[w].span is Some
                        implies exists|m: int| 0 <= m < impl_src.len() && impl_src[m] == w by {
                    if w < i {
                        let m = choose|m: int| 0 <= m < isrc1.len() && isrc1[m] == w;
                        assert(impl_src[m] == w);
                    } else {
                        assert(impl_src[impl_src.len() - 1] == w);
                    }
                }
                assert forall|j: int| 0 <= j < symbols@.len() implies 0 <= (#[trigger] symbols@[j]).file_id < files@.len()
                    && files@[symbols@[j].file_id as int].path@ == krate.index@[sym_src[j]].span->0.filename@ by {
                    assert(files@[symbols@[j].file_id as int] == files1[symbols@[j].file_id as int]);
                }
                assert forall|j: int| 0 <= j < symbols@.len() implies identity_holds(
                    #[trigger] symbols@[j],
                    files@,
                ) by {
                    assert(files@[symbols@[j].file_id as int] == files1[symbols@[j].file_id as int]);
                }
                assert forall|j: int| 0 <= j < impls@.len() implies impl_for_item(
                    #[trigger] impls@[j],
                    *krate,
                    impl_src[j],
                    files@,
                ) by {
                    if j < impls1.len() {
                        assert(impls@[j] == impls1[j]);
                        lemma_impl_row_extends(impls@[j], *krate, impl_src[j], files1, files@);
                    }
                }
            }
            i = i + 1;
        }
        proof {
            reveal(symbol_from_blob);
            reveal(impl_from_blob);
            assert forall|j: int| 0 <= j < symbols@.len() implies symbol_from_blob(
                #[trigger] symbols@[j],
                *krate,
                crate_id,
                crate_name@,
                sources@,
                self.include_derives,
            ) by {
                assert(symbol_for_item(symbols@[j], *krate, sym_src[j], crate_id, crate_name@, sources@));
                assert(!derive_skipped(krate.index@[sym_src[j]], self.include_derives));
            }
            assert forall|j: int| 0 <= j < impls@.len() implies impl_from_blob(#[trigger] impls@[j], *krate, files@) by {
                assert(impl_for_item(impls@[j], *krate, impl_src[j], files@));
            }
        }
        let b = IndexBatch {
            files,
            symbols,
            impls,
            symbol_sources: Ghost(sym_src),
            impl_sources: Ghost(impl_src),
        };
        Ok(b)
    }
}


/// A span lies inside another: same file, lines within.
pub open spec fn span_within(a: DocSpan, b: DocSpan) -> bool {
    a.filename@ == b.filename@ && b.begin_line <= a.begin_line && a.end_line <= b.end_line
}

/// A blob whose local implementations are well placed: each has a span,
/// each holds the spans of the items it lists, no two overlap within a
/// file, and every span runs forward.
pub open spec fn impls_well_placed(k: DocCrate) -> bool {
    let ix = k.index@;
    &&& forall|j: int| 0 <= j < ix.len() && is_local_impl(#[trigger] ix[j]) ==> ix[j].span is Some
    &&& forall|i: int, j: int|
        0 <= i < ix.len() && 0 <= j < ix.len() && impl_lists(#[trigger] ix[j], (#[trigger] ix[i]).id)
            && ix[i].span is Some ==> span_within(ix[i].span->0, ix[j].span->0)
    &&& forall|j1: int, j2: int|
        0 <= j1 < ix.len() && 0 <= j2 < ix.len() && j1 != j2 && is_local_impl(#[trigger] ix[j1])
            && is_local_impl(#[trigger] ix[j2]) && ix[j1].span->0.filename@ == ix[j2].span->0.filename@
            ==> (ix[j1].span->0.end_line < ix[j2].span->0.begin_line || ix[j2].span->0.end_line
            < ix[j1].span->0.begin_line)
    &&& forall|i: int|
        0 <= i < ix.len() && (#[trigger] ix[i]).span is Some ==> ix[i].span->0.begin_line
            <= ix[i].span->0.end_line
}

/// An implementation row covers a symbol: same file, lines within.
pub open spec fn block_contains(b: ImplBlock, s: Symbol) -> bool {
    b.file_id == s.file_id && b.line_start <= s.span_start && s.span_end <= b.line_end
}

/// The first implementation listing an id does list it.
proof fn lemma_first_impl_lists(index: Seq<DocItem>, id: u32, i: int)
    requires
        0 <= i,
        first_impl_from(index, id, i) is Some,
    ensures
        i <= first_impl_from(index, id, i)->0 < index.len(),
        impl_lists(index[first_impl_from(index, id, i)->0], id),
    decreases index.len() - i,
{
    if i < index.len() && !impl_lists(index[i], id) {
        lemma_first_impl_lists(index, id, i + 1);
    }
}

/// Every method symbol of a batch made from a blob with well-placed
/// implementations lies in exactly one of the batch's implementation rows:
/// the row of the implementation that lists it.
pub proof fn lemma_method_in_one_impl(
    b: IndexBatch,
    k: DocCrate,
    crate_id: i64,
    pkg: Seq<char>,
    sources: Seq<SourceFile>,
    t: int,
)
    requires
        batch_sources_ok(b, k, crate_id, pkg, sources),
        impls_well_placed(k),
        0 <= t < b.symbols@.len(),
        b.symbols@[t].kind is Method,
    ensures
        exists|m: int|
            0 <= m < b.impls@.len() && block_contains(b.impls@[m], b.symbols@[t]) && forall|m2: int|
                0 <= m2 < b.impls@.len() && block_contains(#[trigger] b.impls@[m2], b.symbols@[t])
                    ==> m2 == m,
{
    reveal(symbol_for_item);
    reveal(impl_for_item);
    let ix = k.index@;
    let s = b.symbols@[t];
    let ss = b.symbol_sources@;
    let is = b.impl_sources@;
    let i = ss[t];
    assert(symbol_for_item(s, k, i, crate_id, pkg, sources));
    let item = ix[i];
    let j = first_impl_from(ix, item.id, 0)->0;
    lemma_first_impl_lists(ix, item.id, 0);
    assert(impl_lists(ix[j], item.id));
    assert(is_local_impl(ix[j]));
    assert(ix[j].span is Some);
    assert(span_within(item.span->0, ix[j].span->0));
    let m = choose|m: int| 0 <= m < is.len() && is[m] == j;
    assert(impl_for_item(b.impls@[m], k, j, b.files@));
    let bm = b.impls@[m];
    assert(b.files@[bm.file_id as int].path@ == b.files@[s.file_id as int].path@);
    if bm.file_id != s.file_id {
        if bm.file_id < s.file_id {
            assert(b.files@[bm.file_id as int].path@ != b.files@[s.file_id as int].path@);
        } else {
            assert(b.files@[s.file_id as int].path@ != b.files@[bm.file_id as int].path@);
        }
    }
    assert(block_contains(bm, s));
    assert forall|m2: int|
        0 <= m2 < b.impls@.len() && block_contains(#[trigger] b.impls@[m2], s) implies m2 == m by {
        let j2 = is[m2];
        assert(impl_for_item(b.impls@[m2], k, j2, b.files@));
        assert(is_local_impl(ix[j2]));
        assert(ix[j2].span->0.filename@ == ix[j].span->0.filename@);
        assert(item.span->0.begin_line <= item.span->0.end_line);
        if j2 != j {
            assert(false);
        }
        if m2 < m {
            assert(is[m2] < is[m]);
        } else if m < m2 {
            assert(is[m] < is[m2]);
        }
    }
}

} // verus!
