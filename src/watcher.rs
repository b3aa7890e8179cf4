//! Which file-system events the watcher keeps, and how a window of them
//! becomes one sorted batch of changed paths.
use vstd::prelude::*;
use vstd::string::*;
use crate::text::{push_char, str_eq};

verus! {

/// The watcher's control messages.
#[derive(Debug, Clone, Copy, PartialEq, Eq, Structural)]
pub enum WatcherCommand {
    GetChanges,
    Stop,
}

/// The kind of a raw file-system event.
#[derive(Debug, Clone, Copy, PartialEq, Eq, Structural)]
pub enum WatchEventKind {
    Create,
    Modify,
    Remove,
    Other,
}

/// Whether a finished part is kept as a component: a `.` part counts only
/// where it begins the path (no separator before it).
pub open spec fn keeps_part(part: Seq<char>, seen_sep: bool) -> bool {
    part.len() > 0 && !(seen_sep && part == "."@)
}

/// The finished components, the open part, and whether a separator was
/// seen, after reading `p`.
pub open spec fn scan_components(p: Seq<char>) -> (Seq<Seq<char>>, Seq<char>, bool)
    decreases p.len(),
{
    if p.len() == 0 {
        (Seq::empty(), Seq::empty(), false)
    } else {
        let (cs, cur, seen) = scan_components(p.drop_last());
        if p.last() == '/' {
            if keeps_part(cur, seen) {
                (cs.push(cur), Seq::empty(), true)
            } else {
                (cs, Seq::empty(), true)
            }
        } else {
            (cs, cur.push(p.last()), seen)
        }
    }
}

/// The components of a path: the non-empty parts between separators, a `.`
/// part dropped unless it begins the path.
pub open spec fn components(p: Seq<char>) -> Seq<Seq<char>> {
    let (cs, cur, seen) = scan_components(p);
    if keeps_part(cur, seen) {
        cs.push(cur)
    } else {
        cs
    }
}

/// A component that the watcher skips: `target` or a dotted name.
pub open spec fn ignored_component(c: Seq<char>) -> bool {
    c == "target"@ || (c.len() > 0 && c[0] == '.')
}

/// A path under a `target` directory or under any dotted name.
pub open spec fn is_ignored_path(p: Seq<char>) -> bool {
    exists|i: int| 0 <= i < components(p).len() && ignored_component(#[trigger] components(p)[i])
}

/// A path whose file name has the extension `rs`: it ends in `.rs` after a
/// non-empty stem.
pub open spec fn is_rust_path(p: Seq<char>) -> bool {
    let cs = components(p);
    cs.len() > 0 && cs.last().len() > 3 && cs.last().subrange(cs.last().len() - 3, cs.last().len() as int)
        == ".rs"@
}

/// The views of a sequence of strings.
pub open spec fn string_views(v: Seq<String>) -> Seq<Seq<char>> {
    v.map_values(|s: String| s@)
}

/// Splits a path into its components.
pub fn path_components(path: &str) -> (r: Vec<String>)
    ensures
        string_views(r@) == components(path@),
{
    let n = path.unicode_len();
    let mut cs: Vec<String> = Vec::new();
    let mut cur = String::new();
    let mut seen = false;
    let mut i: usize = 0;
    proof {
        reveal_strlit(".");
    }
    while i < n
        invariant
            n == path@.len(),
            i <= n,
            (string_views(cs@), cur@, seen) == scan_components(path@.subrange(0, i as int)),
        decreases n - i,
    {
        proof {
            assert(path@.subrange(0, i + 1).drop_last() =~= path@.subrange(0, i as int));
        }
        let c = path.get_char(i);
        if c == '/' {
            let keep = cur.unicode_len() > 0 && !(seen && str_eq(cur.as_str(), "."));
            if keep {
                cs.push(cur);
            }
            cur = String::new();
            seen = true;
        } else {
            push_char(&mut cur, c);
        }
        i = i + 1;
        assert(string_views(cs@) =~= scan_components(path@.subrange(0, i as int)).0);
        assert(cur@ =~= scan_components(path@.subrange(0, i as int)).1);
    }
    assert(path@.subrange(0, n as int) =~= path@);
    let keep = cur.unicode_len() > 0 && !(seen && str_eq(cur.as_str(), "."));
    if keep {
        cs.push(cur);
        assert(string_views(cs@) =~= components(path@));
    }
    cs
}

/// Whether a component is `target` or dotted.
fn is_ignored_component(c: &str) -> (r: bool)
    ensures
        r == ignored_component(c@),
{
    str_eq(c, "target") || (c.unicode_len() > 0 && c.get_char(0) == '.')
}

/// Whether a path lies under a `target` directory or a dotted name.
pub fn is_ignored(path: &str) -> (r: bool)
    ensures
        r == is_ignored_path(path@),
{
    let cs = path_components(path);
    let mut i: usize = 0;
    while i < cs.len()
        invariant
            i <= cs@.len(),
            string_views(cs@) == components(path@),
            forall|j: int| 0 <= j < i ==> !ignored_component(#[trigger] components(path@)[j]),
        decreases cs@.len() - i,
    {
        assert(components(path@)[i as int] == cs@[i as int]@);
        if is_ignored_component(cs[i].as_str()) {
            return true;
        }
        i = i + 1;
    }
    false
}

/// Whether a path names a Rust source file.
pub fn is_rust_file(path: &str) -> (r: bool)
    ensures
        r == is_rust_path(path@),
{
    let cs = path_components(path);
    let k = cs.len();
    if k == 0 {
        return false;
    }
    let name = cs[k - 1].as_str();
    assert(name@ == components(path@).last());
    let m = name.unicode_len();
    if m <= 3 {
        return false;
    }
    let tail = name.substring_char(m - 3, m);
    let r = str_eq(tail, ".rs");
    r
}

/// Whether a raw event kind is one the watcher reacts to.
pub open spec fn relevant_kind(k: WatchEventKind) -> bool {
    k is Create || k is Modify || k is Remove
}

/// A changed path that the watcher keeps.
pub open spec fn kept_path(p: Seq<char>) -> bool {
    is_rust_path(p) && !is_ignored_path(p)
}

/// Characters in lexicographic order.
pub open spec fn lex_lt(a: Seq<char>, b: Seq<char>) -> bool
    decreases a.len(),
{
    if a.len() == 0 {
        b.len() > 0
    } else if b.len() == 0 {
        false
    } else if a[0] != b[0] {
        a[0] < b[0]
    } else {
        lex_lt(a.drop_first(), b.drop_first())
    }
}

/// Compares two strings in lexicographic order.
fn less_than(a: &str, b: &str) -> (r: bool)
    ensures
        r == lex_lt(a@, b@),
{
    let na = a.unicode_len();
    let nb = b.unicode_len();
    let mut i: usize = 0;
    assert(a@.subrange(0, na as int) =~= a@);
    assert(b@.subrange(0, nb as int) =~= b@);
    while i < na && i < nb && a.get_char(i) == b.get_char(i)
        invariant
            na == a@.len(),
            nb == b@.len(),
            i <= na,
            i <= nb,
            lex_lt(a@, b@) == lex_lt(a@.subrange(i as int, na as int), b@.subrange(i as int, nb as int)),
        decreases na - i,
    {
        proof {
            let sa = a@.subrange(i as int, na as int);
            let sb = b@.subrange(i as int, nb as int);
            assert(sa.drop_first() =~= a@.subrange(i + 1, na as int));
            assert(sb.drop_first() =~= b@.subrange(i + 1, nb as int));
        }
        i = i + 1;
    }
    proof {
        assert(a@.subrange(0, na as int) =~= a@);
        assert(b@.subrange(0, nb as int) =~= b@);
    }
    if i == na {
        i < nb
    } else if i == nb {
        false
    } else {
        a.get_char(i) < b.get_char(i)
    }
}

/// Lexicographic order is transitive.
proof fn lemma_lex_lt_transitive(a: Seq<char>, b: Seq<char>, c: Seq<char>)
    requires
        lex_lt(a, b),
        lex_lt(b, c),
    ensures
        lex_lt(a, c),
    decreases a.len(),
{
    if a.len() > 0 && b.len() > 0 && c.len() > 0 && a[0] == b[0] && b[0] == c[0] {
        lemma_lex_lt_transitive(a.drop_first(), b.drop_first(), c.drop_first());
    }
}

/// Lexicographic order is total on distinct texts.
proof fn lemma_lex_lt_total(a: Seq<char>, b: Seq<char>)
    requires
        a != b,
    ensures
        lex_lt(a, b) || lex_lt(b, a),
    decreases a.len(),
{
    if a.len() > 0 && b.len() > 0 && a[0] == b[0] {
        if a.drop_first() == b.drop_first() {
            assert(a =~= seq![a[0]] + a.drop_first());
            assert(b =~= seq![b[0]] + b.drop_first());
        }
        lemma_lex_lt_total(a.drop_first(), b.drop_first());
    } else if a.len() > 0 && b.len() > 0 {
    } else if a.len() == 0 && b.len() == 0 {
        assert(a =~= b);
    }
}

/// Lexicographic order is irreflexive.
proof fn lemma_lex_lt_irreflexive(a: Seq<char>)
    ensures
        !lex_lt(a, a),
    decreases a.len(),
{
    if a.len() > 0 {
        lemma_lex_lt_irreflexive(a.drop_first());
    }
}

/// Paths in order of their components: compared component by component,
/// each in character order, a shorter prefix first.
pub open spec fn comps_lt(x: Seq<Seq<char>>, y: Seq<Seq<char>>) -> bool
    decreases x.len(),
{
    if x.len() == 0 {
        y.len() > 0
    } else if y.len() == 0 {
        false
    } else if x[0] != y[0] {
        lex_lt(x[0], y[0])
    } else {
        comps_lt(x.drop_first(), y.drop_first())
    }
}

/// Component order is irreflexive.
proof fn lemma_comps_lt_irreflexive(x: Seq<Seq<char>>)
    ensures
        !comps_lt(x, x),
    decreases x.len(),
{
    if x.len() > 0 {
        lemma_comps_lt_irreflexive(x.drop_first());
    }
}

/// Component order is transitive.
proof fn lemma_comps_lt_transitive(x: Seq<Seq<char>>, y: Seq<Seq<char>>, z: Seq<Seq<char>>)
    requires
        comps_lt(x, y),
        comps_lt(y, z),
    ensures
        comps_lt(x, z),
    decreases x.len(),
{
    if x.len() > 0 && y.len() > 0 && z.len() > 0 {
        if x[0] == y[0] && y[0] == z[0] {
            lemma_comps_lt_transitive(x.drop_first(), y.drop_first(), z.drop_first());
        } else if x[0] != y[0] && y[0] != z[0] {
            lemma_lex_lt_transitive(x[0], y[0], z[0]);
            if x[0] == z[0] {
                lemma_lex_lt_transitive(x[0], y[0], x[0]);
                lemma_lex_lt_irreflexive(x[0]);
            }
        }
    }
}

/// Component order is total on distinct component lists.
proof fn lemma_comps_lt_total(x: Seq<Seq<char>>, y: Seq<Seq<char>>)
    requires
        x != y,
    ensures
        comps_lt(x, y) || comps_lt(y, x),
    decreases x.len(),
{
    if x.len() > 0 && y.len() > 0 && x[0] == y[0] {
        if x.drop_first() == y.drop_first() {
            assert(x =~= seq![x[0]] + x.drop_first());
            assert(y =~= seq![y[0]] + y.drop_first());
        }
        lemma_comps_lt_total(x.drop_first(), y.drop_first());
    } else if x.len() > 0 && y.len() > 0 {
        lemma_lex_lt_total(x[0], y[0]);
    } else if x.len() == 0 && y.len() == 0 {
        assert(x =~= y);
    }
}

/// The component lists of a list of paths.
pub open spec fn path_keys(v: Seq<String>) -> Seq<Seq<Seq<char>>> {
    v.map_values(|s: String| components(s@))
}

/// Paths in strictly increasing component order.
pub open spec fn path_sorted(v: Seq<String>) -> bool {
    forall|i: int, j: int|
        0 <= i < j < v.len() ==> comps_lt(#[trigger] path_keys(v)[i], #[trigger] path_keys(v)[j])
}

/// Compares two paths by their components: whether the first comes before
/// the second, and whether they have the same components.
fn path_cmp(a: &str, b: &str) -> (r: (bool, bool))
    ensures
        r.0 == comps_lt(components(a@), components(b@)),
        r.1 == (components(a@) == components(b@)),
{
    let ca = path_components(a);
    let cb = path_components(b);
    let ghost x = components(a@);
    let ghost y = components(b@);
    let na = ca.len();
    let nb = cb.len();
    let mut i: usize = 0;
    assert(x.subrange(0, na as int) =~= x);
    assert(y.subrange(0, nb as int) =~= y);
    while i < na && i < nb && ca[i] == cb[i]
        invariant
            string_views(ca@) == x,
            string_views(cb@) == y,
            na == x.len(),
            nb == y.len(),
            i <= na,
            i <= nb,
            x.subrange(0, i as int) == y.subrange(0, i as int),
            comps_lt(x, y) == comps_lt(x.subrange(i as int, na as int), y.subrange(i as int, nb as int)),
        decreases na - i,
    {
        proof {
            assert(x[i as int] == ca@[i as int]@);
            assert(y[i as int] == cb@[i as int]@);
            assert(x.subrange(i as int, na as int).drop_first() =~= x.subrange(i + 1, na as int));
            assert(y.subrange(i as int, nb as int).drop_first() =~= y.subrange(i + 1, nb as int));
            assert(x.subrange(0, i + 1) =~= x.subrange(0, i as int).push(x[i as int]));
            assert(y.subrange(0, i + 1) =~= y.subrange(0, i as int).push(y[i as int]));
        }
        i = i + 1;
    }
    if i == na && i == nb {
        assert(x =~= y);
        (false, true)
    } else if i == na {
        proof {
            if x == y {
                assert(false);
            }
        }
        (true, false)
    } else if i == nb {
        proof {
            if x == y {
                assert(false);
            }
        }
        (false, false)
    } else {
        proof {
            assert(x[i as int] == ca@[i as int]@);
            assert(y[i as int] == cb@[i as int]@);
            if x == y {
                assert(x[i as int] == y[i as int]);
            }
        }
        (less_than(ca[i].as_str(), cb[i].as_str()), false)
    }
}

/// Whether path `a` comes before path `b` in component order.
fn path_less(a: &str, b: &str) -> (r: bool)
    ensures
        r == comps_lt(components(a@), components(b@)),
{
    path_cmp(a, b).0
}

/// Adds `x` to a list in strictly increasing component order, unless a
/// path with the same components is there.
fn insert_path(v: &mut Vec<String>, x: String)
    requires
        path_sorted(old(v)@),
    ensures
        path_sorted(final(v)@),
        path_keys(final(v)@).to_set() == path_keys(old(v)@).to_set().insert(components(x@)),
        string_views(final(v)@).to_set().subset_of(string_views(old(v)@).to_set().insert(x@)),
{
    let n = v.len();
    let mut i: usize = 0;
    while i < n && path_less(v[i].as_str(), x.as_str())
        invariant
            n == v@.len(),
            i <= n,
            v@ == old(v)@,
            path_sorted(v@),
            forall|j: int| 0 <= j < i ==> comps_lt(#[trigger] path_keys(v@)[j], components(x@)),
        decreases n - i,
    {
        assert(path_keys(v@)[i as int] == components(v@[i as int]@));
        i = i + 1;
    }
    let ghost keys = path_keys(v@);
    let ghost strs = string_views(v@);
    if i < n && path_cmp(v[i].as_str(), x.as_str()).1 {
        proof {
            assert(keys[i as int] == components(x@));
            assert(keys.to_set().insert(components(x@)) =~= keys.to_set());
        }
        return;
    }
    let ghost cx = components(x@);
    proof {
        if i < n {
            assert(keys[i as int] == components(v@[i as int]@));
            assert(!comps_lt(keys[i as int], cx));
            lemma_comps_lt_total(keys[i as int], cx);
            assert(comps_lt(cx, keys[i as int]));
        }
    }
    let ghost xv = x@;
    v.insert(i, x);
    proof {
        let nk = path_keys(v@);
        assert(nk =~= keys.insert(i as int, cx));
        assert(string_views(v@) =~= strs.insert(i as int, xv));
        assert forall|a: int, b: int| 0 <= a < b < nk.len() implies comps_lt(
            #[trigger] nk[a],
            #[trigger] nk[b],
        ) by {
            if b == i {
                assert(comps_lt(keys[a], cx));
            } else if a == i {
                if b - 1 > i {
                    assert(comps_lt(keys[i as int], keys[b - 1]));
                    lemma_comps_lt_transitive(cx, keys[i as int], keys[b - 1]);
                }
            } else if a < i && b > i {
                assert(comps_lt(keys[a], keys[b - 1]));
            } else if a > i {
                assert(comps_lt(keys[a - 1], keys[b - 1]));
            } else {
                assert(comps_lt(keys[a], keys[b]));
            }
        }
        assert(nk.to_set() =~= keys.to_set().insert(cx)) by {
            assert forall|c: Seq<Seq<char>>| nk.to_set().contains(c) implies keys.to_set().insert(cx).contains(c) by {
                let k = choose|k: int| 0 <= k < nk.len() && nk[k] == c;
                if k < i {
                    assert(keys[k] == c);
                } else if k > i {
                    assert(keys[k - 1] == c);
                }
            }
            assert forall|c: Seq<Seq<char>>| keys.to_set().insert(cx).contains(c) implies nk.to_set().contains(c) by {
                if c == cx {
                    assert(nk[i as int] == c);
                } else {
                    let k = choose|k: int| 0 <= k < keys.len() && keys[k] == c;
                    if k < i {
                        assert(nk[k] == c);
                    } else {
                        assert(nk[k + 1] == c);
                    }
                }
            }
        }
        assert forall|t: Seq<char>| string_views(v@).to_set().contains(t) implies strs.to_set().insert(xv).contains(t) by {
            let k = choose|k: int| 0 <= k < string_views(v@).len() && string_views(v@)[k] == t;
            if k < i {
                assert(strs[k] == t);
            } else if k > i {
                assert(strs[k - 1] == t);
            }
        }
    }
}

/// The kept paths seen so far stand for the batch: the batch holds one path
/// for each of their component lists, and only paths among them.
pub open spec fn batch_of(out: Seq<String>, seen: Set<Seq<char>>) -> bool {
    &&& path_keys(out).to_set() == seen.map(|p: Seq<char>| components(p))
    &&& string_views(out).to_set().subset_of(seen)
}

/// Adding a path to the batch and to the seen paths keeps them in step.
proof fn lemma_batch_insert(old_out: Seq<String>, new_out: Seq<String>, seen: Set<Seq<char>>, p: Seq<char>)
    requires
        batch_of(old_out, seen),
        path_keys(new_out).to_set() == path_keys(old_out).to_set().insert(components(p)),
        string_views(new_out).to_set().subset_of(string_views(old_out).to_set().insert(p)),
    ensures
        batch_of(new_out, seen.insert(p)),
{
    seen.lemma_set_map_insert_commute(p, |q: Seq<char>| components(q));
}

/// Event `e` is a relevant one that names `p`.
pub open spec fn event_has(events: Seq<(WatchEventKind, Vec<String>)>, e: int, p: Seq<char>) -> bool {
    relevant_kind(events[e].0) && string_views(events[e].1@).contains(p)
}

/// The kept paths named by relevant events among the first `n`.
pub open spec fn kept_before(events: Seq<(WatchEventKind, Vec<String>)>, n: int) -> Set<Seq<char>> {
    Set::new(
        |p: Seq<char>|
            kept_path(p) && exists|e: int| 0 <= e < n && #[trigger] event_has(events, e, p),
    )
}

/// The paths of the events that the watcher keeps.
pub open spec fn kept_paths(events: Seq<(WatchEventKind, Vec<String>)>) -> Set<Seq<char>> {
    kept_before(events, events.len() as int)
}

/// One batch of changes from the events of a debounce window: the created,
/// modified or removed Rust files outside ignored directories, in strictly
/// increasing order of their components, one path for each distinct list
/// of components.
pub fn collect_changed_paths(events: &Vec<(WatchEventKind, Vec<String>)>) -> (r: Vec<String>)
    ensures
        path_sorted(r@),
        batch_of(r@, kept_paths(events@)),
{
    let mut out: Vec<String> = Vec::new();
    let mut e: usize = 0;
    proof {
        assert(kept_before(events@, 0) =~= Set::<Seq<char>>::empty());
        assert(path_keys(out@).to_set() =~= Set::<Seq<Seq<char>>>::empty());
        assert(kept_before(events@, 0).map(|p: Seq<char>| components(p)) =~= Set::<Seq<Seq<char>>>::empty());
        assert(string_views(out@).to_set() =~= Set::<Seq<char>>::empty());
    }
    while e < events.len()
        invariant
            e <= events@.len(),
            path_sorted(out@),
            batch_of(out@, kept_before(events@, e as int)),
        decreases events@.len() - e,
    {
        let relevant = match events[e].0 {
            WatchEventKind::Create | WatchEventKind::Modify | WatchEventKind::Remove => true,
            WatchEventKind::Other => false,
        };
        let paths = &events[e].1;
        let ghost base = kept_before(events@, e as int);
        let mut k: usize = 0;
        proof {
            assert(base.union(
                Set::new(|p: Seq<char>| kept_path(p) && relevant && string_views(paths@).subrange(0, 0).contains(p)),
            ) =~= base);
        }
        while k < paths.len()
            invariant
                e < events@.len(),
                paths == &events@[e as int].1,
                relevant == relevant_kind(events@[e as int].0),
                k <= paths@.len(),
                path_sorted(out@),
                batch_of(
                    out@,
                    base.union(
                        Set::new(
                            |p: Seq<char>|
                                kept_path(p) && relevant && string_views(paths@).subrange(0, k as int).contains(p),
                        ),
                    ),
                ),
            decreases paths@.len() - k,
        {
            let p = paths[k].as_str();
            let ghost pre = string_views(paths@).subrange(0, k as int);
            let ghost post = string_views(paths@).subrange(0, k + 1);
            let ghost before_set = base.union(
                Set::new(|q: Seq<char>| kept_path(q) && relevant && pre.contains(q)),
            );
            let ghost after_set = base.union(
                Set::new(|q: Seq<char>| kept_path(q) && relevant && post.contains(q)),
            );
            assert(post =~= pre.push(p@));
            proof {
                assert forall|q: Seq<char>| post.contains(q) <==> (pre.contains(q) || q == p@) by {
                    if post.contains(q) {
                        let j = choose|j: int| 0 <= j < post.len() && post[j] == q;
                        if j < pre.len() {
                            assert(pre[j] == q);
                        }
                    }
                    if pre.contains(q) {
                        let j = choose|j: int| 0 <= j < pre.len() && pre[j] == q;
                        assert(post[j] == q);
                    }
                    if q == p@ {
                        assert(post[k as int] == q);
                    }
                }
            }
            let ghost old_out = out@;
            if relevant && is_rust_file(p) && !is_ignored(p) {
                insert_path(&mut out, paths[k].clone());
                proof {
                    assert(after_set =~= before_set.insert(p@));
                    lemma_batch_insert(old_out, out@, before_set, p@);
                }
            } else {
                proof {
                    assert(after_set =~= before_set);
                }
            }
            k = k + 1;
        }
        assert(string_views(paths@).subrange(0, paths@.len() as int) =~= string_views(paths@));
        let ghost full = base.union(
            Set::new(|q: Seq<char>| kept_path(q) && relevant && string_views(paths@).contains(q)),
        );
        let ghost next = kept_before(events@, e + 1);
        assert(full =~= next) by {
            assert forall|p: Seq<char>| #[trigger] next.contains(p) implies full.contains(p) by {
                let w = choose|w: int| 0 <= w < e + 1 && #[trigger] event_has(events@, w, p);
                if w < e {
                    assert(base.contains(p));
                }
            }
            assert forall|p: Seq<char>| #[trigger] full.contains(p) implies next.contains(p) by {
                if base.contains(p) {
                    let w = choose|w: int| 0 <= w < e && #[trigger] event_has(events@, w, p);
                    assert(event_has(events@, w, p));
                } else {
                    assert(event_has(events@, e as int, p));
                }
            }
        }
        e = e + 1;
    }
    out
}

} // verus!
