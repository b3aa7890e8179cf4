//! The parts of a package's documentation blob that indexing reads, held as
//! plain values, with the lookups that the path rules make on them.
use vstd::prelude::*;
use crate::text::{join_seq, views};

verus! {

/// A source span: file name and 1-based inclusive line range.
#[derive(Debug)]
pub struct DocSpan {
    pub filename: String,
    pub begin_line: u32,
    pub end_line: u32,
}

/// A trait named in a type, with its type arguments.
#[derive(Debug)]
pub struct DocTraitBound {
    pub id: u32,
    pub args: Vec<DocType>,
}

/// A type as the blob writes it, with what relationships read of it.
#[derive(Debug)]
pub enum DocType {
    /// A named type, by item id, with the types among its generic arguments
    /// (angle-bracketed arguments, associated type bindings and bounds,
    /// parenthesized inputs and output), in order.
    ResolvedPath(u32, Vec<DocType>),
    Primitive(String),
    Generic(String),
    Tuple(Vec<DocType>),
    /// A slice, array, reference or raw pointer of a type.
    Wrapped(Box<DocType>),
    /// `<T as Trait>::Name`: the self type and the trait, if any.
    QualifiedPath(Box<DocType>, Option<DocTraitBound>),
    /// `impl Bounds`: its trait bounds.
    ImplTrait(Vec<DocTraitBound>),
    Other,
}

/// The trait that an implementation is for: its id and the name written.
#[derive(Debug, Clone)]
pub struct DocTraitRef {
    pub id: u32,
    pub name: String,
}

/// What a function's signature shows.
#[derive(Debug, Clone)]
pub struct DocFunction {
    pub generics: Vec<String>,
    pub params: Vec<String>,
    pub has_output: bool,
    pub is_const: bool,
    pub is_async: bool,
    pub is_unsafe: bool,
}

/// The kind of a documented item, with what indexing reads of it.
#[derive(Debug)]
pub enum DocItemKind {
    Module,
    Struct { generics: Vec<String>, fields: Vec<u32> },
    Enum { generics: Vec<String>, variants: Vec<u32> },
    Trait { is_unsafe: bool, generics: Vec<String>, items: Vec<u32> },
    Function(DocFunction),
    TypeAlias { generics: Vec<String> },
    Constant,
    Static { is_mutable: bool },
    Impl { items: Vec<u32>, trait_: Option<DocTraitRef>, for_type: DocType },
    Variant,
    StructField(DocType),
    Other,
}

/// One documented item. `crate_id` 0 marks an item of the package itself.
#[derive(Debug)]
pub struct DocItem {
    pub id: u32,
    pub crate_id: u32,
    pub name: Option<String>,
    pub is_public: bool,
    pub visibility: String,
    pub docs: Option<String>,
    pub span: Option<DocSpan>,
    pub inner: DocItemKind,
}

/// The module path of an item.
#[derive(Debug, Clone)]
pub struct DocPath {
    pub id: u32,
    pub crate_id: u32,
    pub path: Vec<String>,
}

/// A package's documentation blob: its items and their paths.
#[derive(Debug)]
pub struct DocCrate {
    pub index: Vec<DocItem>,
    pub paths: Vec<DocPath>,
}

/// An optional index as an integer.
pub open spec fn opt_int(r: Option<usize>) -> Option<int> {
    match r {
        Some(k) => Some(k as int),
        None => None,
    }
}

/// A path entry of the package itself for `id`.
pub open spec fn local_path_for(p: DocPath, id: u32) -> bool {
    p.crate_id == 0 && p.id == id
}

/// The first local path entry for `id` at or after `i`.
pub open spec fn first_path_from(paths: Seq<DocPath>, id: u32, i: int) -> Option<int>
    decreases paths.len() - i,
{
    if i < 0 || i >= paths.len() {
        None
    } else if local_path_for(paths[i], id) {
        Some(i)
    } else {
        first_path_from(paths, id, i + 1)
    }
}

/// A local path entry whose last segment is `name`.
pub open spec fn local_path_named(p: DocPath, name: Seq<char>) -> bool {
    p.crate_id == 0 && p.path@.len() > 0 && p.path@.last()@ == name
}

/// The first local path entry ending in `name` at or after `i`.
pub open spec fn first_named_from(paths: Seq<DocPath>, name: Seq<char>, i: int) -> Option<int>
    decreases paths.len() - i,
{
    if i < 0 || i >= paths.len() {
        None
    } else if local_path_named(paths[i], name) {
        Some(i)
    } else {
        first_named_from(paths, name, i + 1)
    }
}

/// A local implementation that lists `id` among its items.
pub open spec fn impl_lists(item: DocItem, id: u32) -> bool {
    item.crate_id == 0 && match item.inner {
        DocItemKind::Impl { items, .. } => items@.contains(id),
        _ => false,
    }
}

/// The first local implementation listing `id`, at or after `i`.
pub open spec fn first_impl_from(index: Seq<DocItem>, id: u32, i: int) -> Option<int>
    decreases index.len() - i,
{
    if i < 0 || i >= index.len() {
        None
    } else if impl_lists(index[i], id) {
        Some(i)
    } else {
        first_impl_from(index, id, i + 1)
    }
}

/// A path entry's segments joined with `::`.
pub open spec fn joined(p: DocPath) -> Seq<char> {
    join_seq(views(p.path@), "::"@)
}

/// Finds the first local path entry for `id`.
pub fn find_local_path(paths: &Vec<DocPath>, id: u32) -> (r: Option<usize>)
    ensures
        opt_int(r) == first_path_from(paths@, id, 0),
        r matches Some(k) ==> k < paths@.len(),
{
    let mut i: usize = 0;
    while i < paths.len()
        invariant
            i <= paths@.len(),
            first_path_from(paths@, id, 0) == first_path_from(paths@, id, i as int),
        decreases paths@.len() - i,
    {
        if paths[i].crate_id == 0 && paths[i].id == id {
            return Some(i);
        }
        i = i + 1;
    }
    None
}

/// Finds the first local path entry whose last segment is `name`.
pub fn find_path_named(paths: &Vec<DocPath>, name: &String) -> (r: Option<usize>)
    ensures
        opt_int(r) == first_named_from(paths@, name@, 0),
        r matches Some(k) ==> k < paths@.len(),
{
    let mut i: usize = 0;
    while i < paths.len()
        invariant
            i <= paths@.len(),
            first_named_from(paths@, name@, 0) == first_named_from(paths@, name@, i as int),
        decreases paths@.len() - i,
    {
        let p = &paths[i];
        let n = p.path.len();
        if p.crate_id == 0 && n > 0 && p.path[n - 1] == *name {
            return Some(i);
        }
        i = i + 1;
    }
    None
}

/// Whether `v` holds `x`.
pub fn contains_id(v: &Vec<u32>, x: u32) -> (r: bool)
    ensures
        r == v@.contains(x),
{
    let mut i: usize = 0;
    while i < v.len()
        invariant
            i <= v@.len(),
            forall|j: int| 0 <= j < i ==> v@[j] != x,
        decreases v@.len() - i,
    {
        if v[i] == x {
            return true;
        }
        i = i + 1;
    }
    false
}

/// Finds the first local implementation that lists `id`.
pub fn find_impl_of(index: &Vec<DocItem>, id: u32) -> (r: Option<usize>)
    ensures
        opt_int(r) == first_impl_from(index@, id, 0),
        r matches Some(k) ==> k < index@.len(),
{
    let mut i: usize = 0;
    while i < index.len()
        invariant
            i <= index@.len(),
            first_impl_from(index@, id, 0) == first_impl_from(index@, id, i as int),
        decreases index@.len() - i,
    {
        let item = &index[i];
        if item.crate_id == 0 {
            match &item.inner {
                DocItemKind::Impl { items, .. } => {
                    if contains_id(items, id) {
                        return Some(i);
                    }
                },
                _ => {},
            }
        }
        i = i + 1;
    }
    None
}

} // verus!
