//! Items and relationships of a documentation blob, filtered by module and
//! struct: what a dependency graph of a package is drawn from.
use vstd::prelude::*;
use vstd::string::*;
use crate::doc::{
    find_local_path, first_path_from, joined, opt_int, DocCrate, DocItem, DocItemKind, DocPath,
    DocTraitBound, DocType,
};
use crate::indexer::{is_derive_method, is_derive_name, opt_view, passes_filters};
use crate::text::{cat, contains_str, join, starts_with};

verus! {

broadcast use vstd::std_specs::vec::axiom_vec_index_decreases;

/// Which items to keep: a module prefix, a struct inside it, and whether
/// derived methods count.
#[derive(Debug, Clone)]
pub struct RustdocParseArgs {
    pub module: Option<String>,
    pub struct_name: Option<String>,
    pub no_orphan: bool,
    pub include_derives: bool,
}

/// The kind of a parsed item.
#[derive(Debug, Clone, Copy, PartialEq, Eq, Structural)]
pub enum ItemKind {
    Module,
    Struct,
    Enum,
    Trait,
    Function,
    Method,
    Const,
    Static,
    TypeAlias,
    Impl,
    Field,
    Variant,
}

/// A kept item.
#[derive(Debug, Clone)]
pub struct ParsedItem {
    pub id: u32,
    pub path: String,
    pub name: String,
    pub kind: ItemKind,
    pub docs: Option<String>,
    pub visibility: String,
}

/// How two items are related.
#[derive(Debug, Clone, Copy, PartialEq, Eq, Structural)]
pub enum RelationshipKind {
    StructField,
    ImplFor,
    TraitImpl,
    MethodOf,
    VariantOf,
}

/// An edge between two items.
#[derive(Debug, Clone, Copy, PartialEq, Eq, Structural)]
pub struct Relationship {
    pub from: u32,
    pub to: u32,
    pub kind: RelationshipKind,
}

/// The kept items and their relationships.
#[derive(Debug, Clone)]
pub struct ParsedRustdoc {
    pub items: Vec<ParsedItem>,
    pub relationships: Vec<Relationship>,
}

/// An id that has a path of the package itself.
pub open spec fn is_local(paths: Seq<DocPath>, id: u32) -> bool {
    first_path_from(paths, id, 0) is Some
}

/// `[id]` for a local id, else nothing.
pub open spec fn own_ref(paths: Seq<DocPath>, id: u32) -> Seq<u32> {
    if is_local(paths, id) {
        seq![id]
    } else {
        Seq::empty()
    }
}

/// The local ids a type mentions, in order.
pub open spec fn type_refs(t: DocType, paths: Seq<DocPath>) -> Seq<u32>
    decreases t,
{
    match t {
        DocType::ResolvedPath(id, args) => own_ref(paths, id) + list_refs(args, args.len() as int, paths),
        DocType::Tuple(ts) => list_refs(ts, ts.len() as int, paths),
        DocType::Wrapped(b) => type_refs(*b, paths),
        DocType::QualifiedPath(b, tr) => type_refs(*b, paths) + match tr {
            Some(tb) => bound_refs(tb, paths),
            None => Seq::empty(),
        },
        DocType::ImplTrait(bs) => bounds_refs(bs, bs.len() as int, paths),
        _ => Seq::empty(),
    }
}

/// The local ids that the first `n` types mention.
pub open spec fn list_refs(ts: Vec<DocType>, n: int, paths: Seq<DocPath>) -> Seq<u32>
    decreases ts, n,
{
    if n <= 0 || n > ts.len() {
        Seq::empty()
    } else {
        list_refs(ts, n - 1, paths) + type_refs(ts[n - 1], paths)
    }
}

/// The local ids a trait bound mentions: the trait, then its arguments.
pub open spec fn bound_refs(b: DocTraitBound, paths: Seq<DocPath>) -> Seq<u32>
    decreases b,
{
    own_ref(paths, b.id) + list_refs(b.args, b.args.len() as int, paths)
}

/// The local ids that the first `n` bounds mention.
pub open spec fn bounds_refs(bs: Vec<DocTraitBound>, n: int, paths: Seq<DocPath>) -> Seq<u32>
    decreases bs, n,
{
    if n <= 0 || n > bs.len() {
        Seq::empty()
    } else {
        bounds_refs(bs, n - 1, paths) + bound_refs(bs[n - 1], paths)
    }
}

/// Whether `id` has a local path.
fn local_id(paths: &Vec<DocPath>, id: u32) -> (r: bool)
    ensures
        r == is_local(paths@, id),
{
    find_local_path(paths, id).is_some()
}

/// Appends the local ids a type mentions.
pub fn collect_local_ids_from_type(ty: &DocType, out: &mut Vec<u32>, paths: &Vec<DocPath>)
    ensures
        final(out)@ == old(out)@ + type_refs(*ty, paths@),
    decreases ty,
{
    match ty {
        DocType::ResolvedPath(id, args) => {
            if local_id(paths, *id) {
                out.push(*id);
            }
            collect_local_ids_from_generic_args(args, out, paths);
            assert(out@ =~= old(out)@ + type_refs(*ty, paths@));
        },
        DocType::Tuple(ts) => collect_local_ids_from_generic_args(ts, out, paths),
        DocType::Wrapped(b) => collect_local_ids_from_type(b, out, paths),
        DocType::QualifiedPath(b, tr) => {
            collect_local_ids_from_type(b, out, paths);
            match tr {
                Some(tb) => collect_local_ids_from_generic_bound(tb, out, paths),
                None => {},
            }
            assert(out@ =~= old(out)@ + type_refs(*ty, paths@));
        },
        DocType::ImplTrait(bs) => collect_local_ids_from_bounds(bs, out, paths),
        _ => {},
    }
}

/// Appends the local ids that a list of type arguments mentions.
pub fn collect_local_ids_from_generic_args(args: &Vec<DocType>, out: &mut Vec<u32>, paths: &Vec<DocPath>)
    ensures
        final(out)@ == old(out)@ + list_refs(*args, args@.len() as int, paths@),
    decreases args,
{
    let mut i: usize = 0;
    assert(old(out)@ + list_refs(*args, 0, paths@) =~= old(out)@);
    while i < args.len()
        invariant
            i <= args@.len(),
            out@ == old(out)@ + list_refs(*args, i as int, paths@),
        decreases args@.len() - i,
    {
        collect_local_ids_from_type(&args[i], out, paths);
        i = i + 1;
        assert(out@ =~= old(out)@ + list_refs(*args, i as int, paths@));
    }
}

/// Appends the local ids that a list of trait bounds mentions.
pub fn collect_local_ids_from_bounds(bs: &Vec<DocTraitBound>, out: &mut Vec<u32>, paths: &Vec<DocPath>)
    ensures
        final(out)@ == old(out)@ + bounds_refs(*bs, bs@.len() as int, paths@),
    decreases bs,
{
    let mut i: usize = 0;
    assert(old(out)@ + bounds_refs(*bs, 0, paths@) =~= old(out)@);
    while i < bs.len()
        invariant
            i <= bs@.len(),
            out@ == old(out)@ + bounds_refs(*bs, i as int, paths@),
        decreases bs@.len() - i,
    {
        collect_local_ids_from_generic_bound(&bs[i], out, paths);
        i = i + 1;
        assert(out@ =~= old(out)@ + bounds_refs(*bs, i as int, paths@));
    }
}

/// Appends the local ids a trait bound mentions.
pub fn collect_local_ids_from_generic_bound(bound: &DocTraitBound, out: &mut Vec<u32>, paths: &Vec<DocPath>)
    ensures
        final(out)@ == old(out)@ + bound_refs(*bound, paths@),
    decreases bound,
{
    if local_id(paths, bound.id) {
        out.push(bound.id);
    }
    collect_local_ids_from_generic_args(&bound.args, out, paths);
    assert(out@ =~= old(out)@ + bound_refs(*bound, paths@));
}


/// The first item with `id`, at or after `i`.
pub open spec fn first_item_from(index: Seq<DocItem>, id: u32, i: int) -> Option<int>
    decreases index.len() - i,
{
    if i < 0 || i >= index.len() {
        None
    } else if index[i].id == id {
        Some(i)
    } else {
        first_item_from(index, id, i + 1)
    }
}

/// Finds the item with `id`.
pub fn find_item(index: &Vec<DocItem>, id: u32) -> (r: Option<usize>)
    ensures
        opt_int(r) == first_item_from(index@, id, 0),
        r matches Some(k) ==> k < index@.len(),
{
    let mut i: usize = 0;
    while i < index.len()
        invariant
            i <= index@.len(),
            first_item_from(index@, id, 0) == first_item_from(index@, id, i as int),
        decreases index@.len() - i,
    {
        if index[i].id == id {
            return Some(i);
        }
        i = i + 1;
    }
    None
}

/// The view of an optional name, empty when there is none.
pub open spec fn name_or_empty(name: Option<String>) -> Seq<char> {
    match name {
        Some(n) => n@,
        None => Seq::empty(),
    }
}

/// The full path of an item: its local path joined with `::`, or its name.
pub open spec fn full_path(paths: Seq<DocPath>, id: u32, name: Option<String>) -> Seq<char> {
    match first_path_from(paths, id, 0) {
        Some(k) => joined(paths[k]),
        None => name_or_empty(name),
    }
}

/// The full path of an item.
pub fn get_full_path(paths: &Vec<DocPath>, id: u32, name: &Option<String>) -> (r: String)
    ensures
        r@ == full_path(paths@, id, *name),
{
    match find_local_path(paths, id) {
        Some(k) => join(&paths[k].path, "::"),
        None => match name {
            Some(n) => n.clone(),
            None => String::new(),
        },
    }
}

/// Whether a path passes the module and struct filters.
pub open spec fn args_pass(args: RustdocParseArgs, path: Seq<char>) -> bool {
    passes_filters(opt_view(args.module), opt_view(args.struct_name), path)
}

/// Whether a path passes the module and struct filters: it begins with the
/// module, and with `module::struct` (or holds `::struct` without a module).
pub fn should_process_item(path: &str, args: &RustdocParseArgs) -> (r: bool)
    ensures
        r == args_pass(*args, path@),
{
    match &args.module {
        Some(m) => {
            if !starts_with(path, m.as_str()) {
                return false;
            }
        },
        None => {},
    }
    match &args.struct_name {
        Some(st) => match &args.module {
            Some(m) => {
                let mut expected = cat(m.as_str(), "::");
                expected.append(st.as_str());
                starts_with(path, expected.as_str())
            },
            None => {
                let needle = cat("::", st.as_str());
                contains_str(path, needle.as_str())
            },
        },
        None => true,
    }
}

/// The kind under which an item is kept, if items of its kind are kept.
pub open spec fn parsed_kind(inner: DocItemKind) -> Option<ItemKind> {
    match inner {
        DocItemKind::Module => Some(ItemKind::Module),
        DocItemKind::Struct { .. } => Some(ItemKind::Struct),
        DocItemKind::Enum { .. } => Some(ItemKind::Enum),
        DocItemKind::Trait { .. } => Some(ItemKind::Trait),
        DocItemKind::Function(_) => Some(ItemKind::Function),
        DocItemKind::Constant => Some(ItemKind::Const),
        DocItemKind::Static { .. } => Some(ItemKind::Static),
        DocItemKind::TypeAlias { .. } => Some(ItemKind::TypeAlias),
        _ => None,
    }
}

/// Whether item `i` is kept: local, of a kept kind, not a derived method
/// when those are left out, and inside the filters.
pub open spec fn keeps_item(k: DocCrate, args: RustdocParseArgs, i: int) -> bool {
    let item = k.index@[i];
    &&& item.crate_id == 0
    &&& parsed_kind(item.inner) is Some
    &&& !(item.inner is Function && !args.include_derives && item.name is Some && is_derive_name(
        item.name->0@,
    ))
    &&& args_pass(args, full_path(k.paths@, item.id, item.name))
}

/// The positions of the kept items among the first `n`.
pub open spec fn kept_upto(k: DocCrate, args: RustdocParseArgs, n: int) -> Seq<int>
    decreases n,
{
    if n <= 0 {
        Seq::empty()
    } else {
        kept_upto(k, args, n - 1) + if keeps_item(k, args, n - 1) {
            seq![n - 1]
        } else {
            Seq::<int>::empty()
        }
    }
}

/// The view of an optional string.
pub open spec fn docs_view(d: Option<String>) -> Option<Seq<char>> {
    opt_view(d)
}

/// What the kept item made from item `i` holds.
pub open spec fn parsed_item_for(p: ParsedItem, k: DocCrate, i: int) -> bool {
    let item = k.index@[i];
    &&& p.id == item.id
    &&& p.path@ == full_path(k.paths@, item.id, item.name)
    &&& p.name@ == name_or_empty(item.name)
    &&& Some(p.kind) == parsed_kind(item.inner)
    &&& docs_view(p.docs) == docs_view(item.docs)
    &&& p.visibility@ == item.visibility@
}

/// The relationship a member `mid` of `owner` adds: none when the member is
/// missing, unnamed where a name is needed, a derived method left out, or
/// not local.
pub open spec fn member_rel(k: DocCrate, args: RustdocParseArgs, owner: u32, mid: u32, need_name: bool) -> Seq<
    Relationship,
> {
    match first_item_from(k.index@, mid, 0) {
        None => Seq::empty(),
        Some(j) => {
            let m = k.index@[j];
            if need_name && m.name is None {
                Seq::empty()
            } else if m.name is Some && !args.include_derives && is_derive_name(m.name->0@) {
                Seq::empty()
            } else if is_local(k.paths@, mid) {
                seq![Relationship { from: owner, to: mid, kind: RelationshipKind::MethodOf }]
            } else {
                Seq::empty()
            }
        },
    }
}

/// The relationships of the first `n` members.
pub open spec fn members_rels(
    k: DocCrate,
    args: RustdocParseArgs,
    owner: u32,
    ids: Seq<u32>,
    n: int,
    need_name: bool,
) -> Seq<Relationship>
    decreases n,
{
    if n <= 0 || n > ids.len() {
        Seq::empty()
    } else {
        members_rels(k, args, owner, ids, n - 1, need_name) + member_rel(k, args, owner, ids[n - 1], need_name)
    }
}

/// The relationships of the first `n` variants of an enum.
pub open spec fn variant_rels(paths: Seq<DocPath>, eid: u32, vs: Seq<u32>, n: int) -> Seq<Relationship>
    decreases n,
{
    if n <= 0 || n > vs.len() {
        Seq::empty()
    } else {
        variant_rels(paths, eid, vs, n - 1) + if is_local(paths, vs[n - 1]) {
            seq![Relationship { from: eid, to: vs[n - 1], kind: RelationshipKind::VariantOf }]
        } else {
            Seq::<Relationship>::empty()
        }
    }
}

/// Edges from a struct to each local id a type mentions.
pub open spec fn field_edges(sid: u32, refs: Seq<u32>) -> Seq<Relationship> {
    refs.map_values(|r: u32| Relationship { from: sid, to: r, kind: RelationshipKind::StructField })
}

/// The relationships a field `fid` of struct `sid` adds.
pub open spec fn field_rel(k: DocCrate, sid: u32, fid: u32) -> Seq<Relationship> {
    match first_item_from(k.index@, fid, 0) {
        Some(j) => match k.index@[j].inner {
            DocItemKind::StructField(ty) => field_edges(sid, type_refs(ty, k.paths@)),
            _ => Seq::empty(),
        },
        None => Seq::empty(),
    }
}

/// The relationships of the first `n` fields of a struct.
pub open spec fn fields_rels(k: DocCrate, sid: u32, fs: Seq<u32>, n: int) -> Seq<Relationship>
    decreases n,
{
    if n <= 0 || n > fs.len() {
        Seq::empty()
    } else {
        fields_rels(k, sid, fs, n - 1) + field_rel(k, sid, fs[n - 1])
    }
}

/// The relationships item `i` adds.
pub open spec fn item_rels(k: DocCrate, args: RustdocParseArgs, i: int) -> Seq<Relationship> {
    let item = k.index@[i];
    if item.crate_id != 0 {
        Seq::empty()
    } else {
        let keep = args_pass(args, full_path(k.paths@, item.id, item.name));
        match item.inner {
            DocItemKind::Struct { fields, .. } => if keep {
                fields_rels(k, item.id, fields@, fields@.len() as int)
            } else {
                Seq::empty()
            },
            DocItemKind::Enum { variants, .. } => if keep {
                variant_rels(k.paths@, item.id, variants@, variants@.len() as int)
            } else {
                Seq::empty()
            },
            DocItemKind::Trait { items, .. } => if keep {
                members_rels(k, args, item.id, items@, items@.len() as int, true)
            } else {
                Seq::empty()
            },
            DocItemKind::Impl { items, for_type, .. } => match for_type {
                DocType::ResolvedPath(pid, _) => if is_local(k.paths@, pid) {
                    members_rels(k, args, pid, items@, items@.len() as int, false)
                } else {
                    Seq::empty()
                },
                _ => Seq::empty(),
            },
            _ => Seq::empty(),
        }
    }
}

/// The relationships of the first `n` items.
pub open spec fn rels_upto(k: DocCrate, args: RustdocParseArgs, n: int) -> Seq<Relationship>
    decreases n,
{
    if n <= 0 {
        Seq::empty()
    } else {
        rels_upto(k, args, n - 1) + item_rels(k, args, n - 1)
    }
}

/// Appends the relationship of member `mid` of `owner`.
fn push_member_rel(
    krate: &DocCrate,
    args: &RustdocParseArgs,
    owner: u32,
    mid: u32,
    need_name: bool,
    rels: &mut Vec<Relationship>,
)
    ensures
        final(rels)@ == old(rels)@ + member_rel(*krate, *args, owner, mid, need_name),
{
    match find_item(&krate.index, mid) {
        None => {
            assert(old(rels)@ + Seq::<Relationship>::empty() =~= old(rels)@);
        },
        Some(j) => {
            let m = &krate.index[j];
            let skip = match &m.name {
                None => need_name,
                Some(n) => !args.include_derives && is_derive_method(n.as_str()),
            };
            if !skip && local_id(&krate.paths, mid) {
                rels.push(Relationship { from: owner, to: mid, kind: RelationshipKind::MethodOf });
                assert(rels@ =~= old(rels)@ + member_rel(*krate, *args, owner, mid, need_name));
            } else {
                assert(old(rels)@ + member_rel(*krate, *args, owner, mid, need_name) =~= old(rels)@);
            }
        },
    }
}

/// Appends the relationships of the members of `owner`.
fn push_members_rels(
    krate: &DocCrate,
    args: &RustdocParseArgs,
    owner: u32,
    ids: &Vec<u32>,
    need_name: bool,
    rels: &mut Vec<Relationship>,
)
    ensures
        final(rels)@ == old(rels)@ + members_rels(*krate, *args, owner, ids@, ids@.len() as int, need_name),
{
    let mut i: usize = 0;
    assert(old(rels)@ + members_rels(*krate, *args, owner, ids@, 0, need_name) =~= old(rels)@);
    while i < ids.len()
        invariant
            i <= ids@.len(),
            rels@ == old(rels)@ + members_rels(*krate, *args, owner, ids@, i as int, need_name),
        decreases ids@.len() - i,
    {
        push_member_rel(krate, args, owner, ids[i], need_name, rels);
        i = i + 1;
        assert(rels@ =~= old(rels)@ + members_rels(*krate, *args, owner, ids@, i as int, need_name));
    }
}

/// Appends the relationships of the variants of enum `eid`.
fn push_variant_rels(paths: &Vec<DocPath>, eid: u32, vs: &Vec<u32>, rels: &mut Vec<Relationship>)
    ensures
        final(rels)@ == old(rels)@ + variant_rels(paths@, eid, vs@, vs@.len() as int),
{
    let mut i: usize = 0;
    assert(old(rels)@ + variant_rels(paths@, eid, vs@, 0) =~= old(rels)@);
    while i < vs.len()
        invariant
            i <= vs@.len(),
            rels@ == old(rels)@ + variant_rels(paths@, eid, vs@, i as int),
        decreases vs@.len() - i,
    {
        if local_id(paths, vs[i]) {
            rels.push(Relationship { from: eid, to: vs[i], kind: RelationshipKind::VariantOf });
        }
        i = i + 1;
        assert(rels@ =~= old(rels)@ + variant_rels(paths@, eid, vs@, i as int));
    }
}

/// Appends an edge from struct `sid` to each local id its fields' types
/// mention.
pub fn process_struct_fields(struct_id: u32, fields: &Vec<u32>, krate: &DocCrate, relationships: &mut Vec<Relationship>)
    ensures
        final(relationships)@ == old(relationships)@ + fields_rels(*krate, struct_id, fields@, fields@.len() as int),
{
    let mut i: usize = 0;
    assert(old(relationships)@ + fields_rels(*krate, struct_id, fields@, 0) =~= old(relationships)@);
    while i < fields.len()
        invariant
            i <= fields@.len(),
            relationships@ == old(relationships)@ + fields_rels(*krate, struct_id, fields@, i as int),
        decreases fields@.len() - i,
    {
        let ghost before = relationships@;
        match find_item(&krate.index, fields[i]) {
            Some(j) => match &krate.index[j].inner {
                DocItemKind::StructField(ty) => {
                    let mut refs: Vec<u32> = Vec::new();
                    collect_local_ids_from_type(ty, &mut refs, &krate.paths);
                    assert(refs@ =~= type_refs(*ty, krate.paths@));
                    let mut r: usize = 0;
                    while r < refs.len()
                        invariant
                            r <= refs@.len(),
                            relationships@ == before + field_edges(struct_id, refs@.subrange(0, r as int)),
                        decreases refs@.len() - r,
                    {
                        relationships.push(
                            Relationship { from: struct_id, to: refs[r], kind: RelationshipKind::StructField },
                        );
                        r = r + 1;
                        assert(relationships@ =~= before + field_edges(struct_id, refs@.subrange(0, r as int)));
                    }
                    assert(refs@.subrange(0, refs@.len() as int) =~= refs@);
                },
                _ => {
                    assert(before + Seq::<Relationship>::empty() =~= before);
                },
            },
            None => {
                assert(before + Seq::<Relationship>::empty() =~= before);
            },
        }
        i = i + 1;
        assert(relationships@ =~= old(relationships)@ + fields_rels(*krate, struct_id, fields@, i as int));
    }
}

/// Appends the relationships that item `i` adds.
fn push_item_rels(krate: &DocCrate, args: &RustdocParseArgs, i: usize, keep: bool, rels: &mut Vec<Relationship>)
    requires
        i < krate.index@.len(),
        keep == args_pass(*args, full_path(krate.paths@, krate.index@[i as int].id, krate.index@[i as int].name)),
    ensures
        final(rels)@ == old(rels)@ + item_rels(*krate, *args, i as int),
{
    let item = &krate.index[i];
    if item.crate_id != 0 {
        assert(old(rels)@ + Seq::<Relationship>::empty() =~= old(rels)@);
        return;
    }
    match &item.inner {
        DocItemKind::Struct { fields, .. } => {
            if keep {
                process_struct_fields(item.id, fields, krate, rels);
            } else {
                assert(old(rels)@ + Seq::<Relationship>::empty() =~= old(rels)@);
            }
        },
        DocItemKind::Enum { variants, .. } => {
            if keep {
                push_variant_rels(&krate.paths, item.id, variants, rels);
            } else {
                assert(old(rels)@ + Seq::<Relationship>::empty() =~= old(rels)@);
            }
        },
        DocItemKind::Trait { items, .. } => {
            if keep {
                push_members_rels(krate, args, item.id, items, true, rels);
            } else {
                assert(old(rels)@ + Seq::<Relationship>::empty() =~= old(rels)@);
            }
        },
        DocItemKind::Impl { items, for_type, .. } => match for_type {
            DocType::ResolvedPath(pid, _) => {
                if local_id(&krate.paths, *pid) {
                    push_members_rels(krate, args, *pid, items, false, rels);
                } else {
                    assert(old(rels)@ + Seq::<Relationship>::empty() =~= old(rels)@);
                }
            },
            _ => {
                assert(old(rels)@ + Seq::<Relationship>::empty() =~= old(rels)@);
            },
        },
        _ => {
            assert(old(rels)@ + Seq::<Relationship>::empty() =~= old(rels)@);
        },
    }
}

/// The kept items of a blob and their relationships: modules, structs,
/// enums, traits, functions, constants, statics and type aliases of the
/// package inside the filters (derived methods left out unless asked for),
/// with struct-field, variant and method edges between local items.
pub fn parse_rustdoc_with_filters(krate: &DocCrate, args: &RustdocParseArgs) -> (r: ParsedRustdoc)
    ensures
        r.items@.len() == kept_upto(*krate, *args, krate.index@.len() as int).len(),
        forall|j: int|
            0 <= j < r.items@.len() ==> parsed_item_for(
                #[trigger] r.items@[j],
                *krate,
                kept_upto(*krate, *args, krate.index@.len() as int)[j],
            ),
        r.relationships@ == rels_upto(*krate, *args, krate.index@.len() as int),
{
    let mut items: Vec<ParsedItem> = Vec::new();
    let mut relationships: Vec<Relationship> = Vec::new();
    let n = krate.index.len();
    let mut i: usize = 0;
    while i < n
        invariant
            n == krate.index@.len(),
            i <= n,
            items@.len() == kept_upto(*krate, *args, i as int).len(),
            forall|j: int|
                0 <= j < items@.len() ==> parsed_item_for(
                    #[trigger] items@[j],
                    *krate,
                    kept_upto(*krate, *args, i as int)[j],
                ),
            relationships@ == rels_upto(*krate, *args, i as int),
        decreases n - i,
    {
        let item = &krate.index[i];
        let path = get_full_path(&krate.paths, item.id, &item.name);
        let keep = should_process_item(path.as_str(), args);
        let kind: Option<ItemKind> = match &item.inner {
            DocItemKind::Module => Some(ItemKind::Module),
            DocItemKind::Struct { .. } => Some(ItemKind::Struct),
            DocItemKind::Enum { .. } => Some(ItemKind::Enum),
            DocItemKind::Trait { .. } => Some(ItemKind::Trait),
            DocItemKind::Function(_) => Some(ItemKind::Function),
            DocItemKind::Constant => Some(ItemKind::Const),
            DocItemKind::Static { .. } => Some(ItemKind::Static),
            DocItemKind::TypeAlias { .. } => Some(ItemKind::TypeAlias),
            _ => None,
        };
        let derived = match &item.name {
            Some(nm) => !args.include_derives && is_derive_method(nm.as_str()) && matches!(
                item.inner,
                DocItemKind::Function(_)
            ),
            None => false,
        };
        let ghost prev = kept_upto(*krate, *args, i as int);
        assert(kind == parsed_kind(item.inner));
        if item.crate_id == 0 && kind.is_some() && !derived && keep {
            let p = ParsedItem {
                id: item.id,
                path,
                name: match &item.name {
                    Some(nm) => nm.clone(),
                    None => String::new(),
                },
                kind: kind.unwrap(),
                docs: match &item.docs {
                    Some(d) => Some(d.clone()),
                    None => None,
                },
                visibility: item.visibility.clone(),
            };
            items.push(p);
            assert(keeps_item(*krate, *args, i as int));
            assert(kept_upto(*krate, *args, i + 1) == prev.push(i as int));
            assert forall|j: int| 0 <= j < items@.len() implies parsed_item_for(
                #[trigger] items@[j],
                *krate,
                kept_upto(*krate, *args, i + 1)[j],
            ) by {
                if j < prev.len() {
                    assert(kept_upto(*krate, *args, i + 1)[j] == prev[j]);
                }
            }
        } else {
            assert(!keeps_item(*krate, *args, i as int));
            assert(kept_upto(*krate, *args, i + 1) =~= prev);
        }
        push_item_rels(krate, args, i, keep, &mut relationships);
        i = i + 1;
    }
    ParsedRustdoc { items, relationships }
}

} // verus!
