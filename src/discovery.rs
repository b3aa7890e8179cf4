//! Workspace discovery and the documentation extractor's command line:
//! which packages are members, where each lives, how the extractor is run
//! and where its output is looked for.
use vstd::prelude::*;
use vstd::string::*;
use crate::indexer::{IndexError, WorkspaceMember};
use crate::text::{cat, push_char, views};
use crate::config::join_path;
use crate::status::{byte_views, lines_of, split_lines};
use crate::hashing::utf8;

verus! {

/// A package as the metadata command lists it.
#[derive(Debug, Clone)]
pub struct MetadataPackage {
    pub id: String,
    pub name: String,
    pub version: String,
    pub manifest_path: String,
}

/// The position of the last `/` in `p` at or before `i` (exclusive end).
pub open spec fn last_slash_before(p: Seq<char>, i: int) -> Option<int>
    decreases i,
{
    if i <= 0 {
        None
    } else if p[i - 1] == '/' {
        Some(i - 1)
    } else {
        last_slash_before(p, i - 1)
    }
}

/// The directory of a file path: what precedes its last `/` (the root
/// itself for a file at the root), empty for a bare name, none for an empty
/// path.
pub open spec fn parent_dir(p: Seq<char>) -> Option<Seq<char>> {
    if p.len() == 0 {
        None
    } else {
        match last_slash_before(p, p.len() as int) {
            Some(k) => if k == 0 {
                Some("/"@)
            } else {
                Some(p.subrange(0, k))
            },
            None => Some(Seq::empty()),
        }
    }
}

/// The directory of a file path.
pub fn parent_of(p: &str) -> (r: Option<String>)
    ensures
        match r {
            Some(s) => parent_dir(p@) == Some(s@),
            None => parent_dir(p@) is None,
        },
{
    let n = p.unicode_len();
    if n == 0 {
        return None;
    }
    let mut i: usize = n;
    while i > 0 && p.get_char(i - 1) != '/'
        invariant
            n == p@.len(),
            i <= n,
            last_slash_before(p@, n as int) == last_slash_before(p@, i as int),
        decreases i,
    {
        i = i - 1;
    }
    if i == 0 {
        Some(String::new())
    } else if i == 1 {
        proof {
            reveal_strlit("/");
        }
        Some("/".to_owned())
    } else {
        Some(p.substring_char(0, i - 1).to_owned())
    }
}

/// Whether `id` is among `ids`.
fn lists(ids: &Vec<String>, id: &String) -> (r: bool)
    ensures
        r == views(ids@).contains(id@),
{
    let mut i: usize = 0;
    while i < ids.len()
        invariant
            i <= ids@.len(),
            forall|j: int| 0 <= j < i ==> ids@[j]@ != id@,
        decreases ids@.len() - i,
    {
        if ids[i] == *id {
            assert(views(ids@)[i as int] == id@);
            return true;
        }
        i = i + 1;
    }
    proof {
        if views(ids@).contains(id@) {
            let j = choose|j: int| 0 <= j < ids@.len() && views(ids@)[j] == id@;
            assert(ids@[j]@ == id@);
        }
    }
    false
}

/// A member made from a listed package: a workspace member, located at its
/// manifest's directory.
pub open spec fn member_of_package(m: WorkspaceMember, p: MetadataPackage, member_ids: Seq<String>) -> bool {
    &&& views(member_ids).contains(p.id@)
    &&& m.name == p.name
    &&& m.version == p.version
    &&& m.package_id == p.id
    &&& parent_dir(p.manifest_path@) == Some(m.path@)
}

/// A member made from one of the listed packages.
#[verifier::opaque]
pub open spec fn member_listed(m: WorkspaceMember, packages: Seq<MetadataPackage>, member_ids: Seq<String>) -> bool {
    exists|i: int|
        #![trigger member_of_package(m, packages[i], member_ids)]
        0 <= i < packages.len() && member_of_package(m, packages[i], member_ids)
}

/// What a member holds: name, version, directory and package id.
pub open spec fn member_view(m: WorkspaceMember) -> (Seq<char>, Seq<char>, Seq<char>, Seq<char>) {
    (m.name@, m.version@, m.path@, m.package_id@)
}

/// The members that the first `n` listed packages give, in listing order:
/// one for each workspace member, at its manifest's directory.
pub open spec fn members_upto(packages: Seq<MetadataPackage>, member_ids: Seq<String>, n: int) -> Seq<
    (Seq<char>, Seq<char>, Seq<char>, Seq<char>),
>
    decreases n,
{
    if n <= 0 || n > packages.len() {
        Seq::empty()
    } else {
        let p = packages[n - 1];
        members_upto(packages, member_ids, n - 1) + if views(member_ids).contains(p.id@) {
            seq![(p.name@, p.version@, parent_dir(p.manifest_path@)->0, p.id@)]
        } else {
            Seq::empty()
        }
    }
}

/// Some member was made from package `p`.
#[verifier::opaque]
pub open spec fn appears_in(ms: Seq<WorkspaceMember>, p: MetadataPackage, member_ids: Seq<String>) -> bool {
    exists|j: int| 0 <= j < ms.len() && member_of_package(ms[j], p, member_ids)
}

/// The workspace members among the listed packages, in listing order, each
/// located at its manifest's directory. A member whose manifest path has no
/// directory fails discovery.
#[verifier::rlimit(30)]
pub fn select_workspace_members(packages: &Vec<MetadataPackage>, member_ids: &Vec<String>) -> (r: Result<
    Vec<WorkspaceMember>,
    IndexError,
>)
    ensures
        r matches Ok(ms) ==> forall|j: int|
            0 <= j < ms@.len() ==> member_listed(#[trigger] ms@[j], packages@, member_ids@),
        r is Err <==> exists|i: int|
            0 <= i < packages@.len() && views(member_ids@).contains(#[trigger] packages@[i].id@)
                && parent_dir(packages@[i].manifest_path@) is None,
        r matches Ok(ms) ==> forall|i: int|
            0 <= i < packages@.len() && views(member_ids@).contains(#[trigger] packages@[i].id@)
                ==> appears_in(ms@, packages@[i], member_ids@),
        r matches Ok(ms) ==> ms@.map_values(|m: WorkspaceMember| member_view(m)) == members_upto(
            packages@,
            member_ids@,
            packages@.len() as int,
        ),
{
    let mut out: Vec<WorkspaceMember> = Vec::new();
    let ghost mut src: Seq<int> = Seq::empty();
    let mut i: usize = 0;
    while i < packages.len()
        invariant
            i <= packages@.len(),
            src.len() == out@.len(),
            i <= packages@.len(),
            forall|j: int| 0 <= j < src.len() ==> 0 <= #[trigger] src[j] < i,
            forall|j: int|
                0 <= j < out@.len() ==> member_of_package(
                    #[trigger] out@[j],
                    packages@[src[j]],
                    member_ids@,
                ),
            forall|k: int|
                0 <= k < i && views(member_ids@).contains(#[trigger] packages@[k].id@) ==> parent_dir(
                    packages@[k].manifest_path@,
                ) is Some && appears_in(out@, packages@[k], member_ids@),
            out@.map_values(|m: WorkspaceMember| member_view(m)) == members_upto(
                packages@,
                member_ids@,
                i as int,
            ),
        decreases packages@.len() - i,
    {
        let p = &packages[i];
        if lists(member_ids, &p.id) {
            match parent_of(p.manifest_path.as_str()) {
                Some(dir) => {
                    let m = WorkspaceMember {
                        name: p.name.clone(),
                        version: p.version.clone(),
                        path: dir,
                        package_id: p.id.clone(),
                    };
                    let ghost before = out@;
                    out.push(m);
                    assert(out@.map_values(|m: WorkspaceMember| member_view(m)) =~= before.map_values(
                        |m: WorkspaceMember| member_view(m),
                    ).push(member_view(m)));
                    proof {
                        src = src.push(i as int);
                        assert forall|j: int| 0 <= j < out@.len() implies member_of_package(#[trigger] out@[j], packages@[src[j]], member_ids@) by {
                            if j < before.len() {
                                assert(out@[j] == before[j]);
                            }
                        }
                        assert forall|k: int|
                            0 <= k < i + 1 && views(member_ids@).contains(#[trigger] packages@[k].id@) implies parent_dir(
                                packages@[k].manifest_path@,
                            ) is Some && appears_in(out@, packages@[k], member_ids@) by {
                            reveal(appears_in);
                            if k < i {
                                let j = choose|j: int| 0 <= j < before.len() && member_of_package(before[j], packages@[k], member_ids@);
                                assert(out@[j] == before[j]);
                            } else {
                                assert(member_of_package(out@[before.len() as int], packages@[k], member_ids@));
                            }
                        }
                    }
                },
                None => {
                    let msg = cat("Invalid manifest path: ", p.manifest_path.as_str());
                    return Err(IndexError::IndexingFailed(msg));
                },
            }
        }
        proof {
            let pk = packages@[i as int];
            if !views(member_ids@).contains(pk.id@) {
                assert(members_upto(packages@, member_ids@, i + 1) =~= members_upto(
                    packages@,
                    member_ids@,
                    i as int,
                ));
            }
        }
        i = i + 1;
    }
    proof {
        reveal(member_listed);
        assert forall|j: int| 0 <= j < out@.len() implies member_listed(#[trigger] out@[j], packages@, member_ids@) by {
            assert(0 <= src[j] < packages@.len());
            assert(member_of_package(out@[j], packages@[src[j]], member_ids@));
        }
    }
    Ok(out)
}

/// The extractor's arguments for one package: its library's documentation
/// as JSON, private items included.
pub open spec fn rustdoc_args_of(name: Seq<char>) -> Seq<Seq<char>> {
    seq![
        "+nightly"@,
        "rustdoc"@,
        "-p"@,
        name,
        "--lib"@,
        "--"@,
        "-Z"@,
        "unstable-options"@,
        "--output-format"@,
        "json"@,
        "--document-private-items"@,
    ]
}

/// The extractor's arguments for one package.
pub fn rustdoc_command_args(name: &str) -> (r: Vec<String>)
    ensures
        r@.map_values(|s: String| s@) == rustdoc_args_of(name@),
{
    let mut v: Vec<String> = Vec::new();
    v.push("+nightly".to_owned());
    v.push("rustdoc".to_owned());
    v.push("-p".to_owned());
    v.push(name.to_owned());
    v.push("--lib".to_owned());
    v.push("--".to_owned());
    v.push("-Z".to_owned());
    v.push("unstable-options".to_owned());
    v.push("--output-format".to_owned());
    v.push("json".to_owned());
    v.push("--document-private-items".to_owned());
    assert(v@.map_values(|s: String| s@) =~= rustdoc_args_of(name@));
    v
}

/// A name with hyphens and underscores swapped.
pub open spec fn swap_separators(name: Seq<char>) -> Seq<char> {
    name.map_values(|c: char| if c == '-' { '_' } else if c == '_' { '-' } else { c })
}

/// A name with hyphens and underscores swapped.
pub fn normalized_name(name: &str) -> (r: String)
    ensures
        r@ == swap_separators(name@),
{
    let n = name.unicode_len();
    let mut r = String::new();
    let mut i: usize = 0;
    while i < n
        invariant
            n == name@.len(),
            i <= n,
            r@ == swap_separators(name@.subrange(0, i as int)),
        decreases n - i,
    {
        let c = name.get_char(i);
        let d = if c == '-' {
            '_'
        } else if c == '_' {
            '-'
        } else {
            c
        };
        push_char(&mut r, d);
        i = i + 1;
        assert(r@ =~= swap_separators(name@.subrange(0, i as int)));
    }
    assert(name@.subrange(0, n as int) =~= name@);
    r
}

/// The files the extractor's output is looked for in, in order: the
/// package name and its variant with hyphens and underscores swapped, each
/// with `.json`, under the output directory.
pub fn rustdoc_json_candidates(doc_dir: &str, name: &str, sep: char) -> (r: (String, String))
    ensures
        r.0@ == join_path(doc_dir@, name@ + ".json"@, sep),
        r.1@ == join_path(doc_dir@, swap_separators(name@) + ".json"@, sep),
{
    let first = cat(name, ".json");
    let swapped = normalized_name(name);
    let second = cat(swapped.as_str(), ".json");
    (
        crate::config::join_path_with(doc_dir, first.as_str(), sep),
        crate::config::join_path_with(doc_dir, second.as_str(), sep),
    )
}

/// The failure of the extractor on a package, with its error output verbatim.
pub fn rustdoc_failure(name: &str, stderr: &str) -> (r: IndexError)
    ensures
        r matches IndexError::IndexingFailed(m) && m@ == "rustdoc failed for crate "@ + name@ + ": "@
            + stderr@,
{
    let mut m = cat("rustdoc failed for crate ", name);
    m.append(": ");
    m.append(stderr);
    IndexError::IndexingFailed(m)
}


/// An ASCII white-space byte.
pub open spec fn is_space(b: u8) -> bool {
    b == 32 || (9 <= b && b <= 13)
}

/// The finished tokens and the open one after reading `t`.
pub open spec fn scan_tokens(t: Seq<u8>) -> (Seq<Seq<u8>>, Seq<u8>)
    decreases t.len(),
{
    if t.len() == 0 {
        (Seq::empty(), Seq::empty())
    } else {
        let (ts, cur) = scan_tokens(t.drop_last());
        if is_space(t.last()) {
            if cur.len() == 0 {
                (ts, cur)
            } else {
                (ts.push(cur), Seq::empty())
            }
        } else {
            (ts, cur.push(t.last()))
        }
    }
}

/// The white-space separated tokens of a line.
pub open spec fn tokens(t: Seq<u8>) -> Seq<Seq<u8>> {
    let (ts, cur) = scan_tokens(t);
    if cur.len() == 0 {
        ts
    } else {
        ts.push(cur)
    }
}

/// The first line at or after `i` that begins with `commit-hash:`.
pub open spec fn first_commit_line(ls: Seq<Seq<u8>>, i: int) -> Option<int>
    decreases ls.len() - i,
{
    if i < 0 || i >= ls.len() {
        None
    } else if ls[i].len() >= 12 && ls[i].subrange(0, 12) == utf8("commit-hash:"@) {
        Some(i)
    } else {
        first_commit_line(ls, i + 1)
    }
}

/// The compiler's commit hash from its verbose version text: the second
/// token of the first `commit-hash:` line, or `unknown`, after `sha256:`.
pub open spec fn rustc_hash_of(verbose: Seq<u8>) -> Seq<u8> {
    let ls = lines_of(verbose);
    utf8("sha256:"@) + match first_commit_line(ls, 0) {
        Some(k) => if tokens(ls[k]).len() > 1 {
            tokens(ls[k])[1]
        } else {
            utf8("unknown"@)
        },
        None => utf8("unknown"@),
    }
}

/// Splits a line into its white-space separated tokens.
fn split_tokens(t: &Vec<u8>) -> (r: Vec<Vec<u8>>)
    ensures
        byte_views(r@) == tokens(t@),
{
    let mut ts: Vec<Vec<u8>> = Vec::new();
    let mut cur: Vec<u8> = Vec::new();
    let mut i: usize = 0;
    while i < t.len()
        invariant
            i <= t@.len(),
            (byte_views(ts@), cur@) == scan_tokens(t@.subrange(0, i as int)),
        decreases t@.len() - i,
    {
        proof {
            assert(t@.subrange(0, i + 1).drop_last() =~= t@.subrange(0, i as int));
        }
        let b = t[i];
        if b == 32 || (9 <= b && b <= 13) {
            if cur.len() > 0 {
                ts.push(cur);
                cur = Vec::new();
            }
        } else {
            cur.push(b);
        }
        i = i + 1;
        assert(byte_views(ts@) =~= scan_tokens(t@.subrange(0, i as int)).0);
    }
    assert(t@.subrange(0, t@.len() as int) =~= t@);
    if cur.len() > 0 {
        ts.push(cur);
        assert(byte_views(ts@) =~= tokens(t@));
    }
    ts
}

/// Whether a line begins with `commit-hash:`.
fn is_commit_line(l: &Vec<u8>) -> (r: bool)
    ensures
        r == (l@.len() >= 12 && l@.subrange(0, 12) == utf8("commit-hash:"@)),
{
    let p = "commit-hash:".as_bytes();
    proof {
        reveal_strlit("commit-hash:");
        vstd::string::is_ascii_spec_bytes("commit-hash:");
    }
    assert(p@.len() == 12);
    if l.len() < 12 {
        return false;
    }
    let mut i: usize = 0;
    while i < 12
        invariant
            p@.len() == 12,
            p@ == utf8("commit-hash:"@),
            l@.len() >= 12,
            i <= 12,
            forall|j: int| 0 <= j < i ==> l@[j] == p@[j],
        decreases 12 - i,
    {
        if l[i] != p[i] {
            assert(l@.subrange(0, 12)[i as int] != p@[i as int]);
            return false;
        }
        i = i + 1;
    }
    assert(l@.subrange(0, 12) =~= p@);
    true
}

/// The compiler's commit hash, `sha256:`-tagged, from the text that
/// `rustc --version --verbose` prints.
pub fn rustc_hash_from(verbose: &[u8]) -> (r: Vec<u8>)
    ensures
        r@ == rustc_hash_of(verbose@),
{
    let ls = split_lines(verbose);
    let mut k: usize = 0;
    while k < ls.len() && !is_commit_line(&ls[k])
        invariant
            k <= ls@.len(),
            byte_views(ls@) == lines_of(verbose@),
            first_commit_line(lines_of(verbose@), 0) == first_commit_line(lines_of(verbose@), k as int),
        decreases ls@.len() - k,
    {
        k = k + 1;
    }
    let mut r: Vec<u8> = Vec::new();
    let prefix = "sha256:".as_bytes();
    let mut i: usize = 0;
    while i < prefix.len()
        invariant
            i <= prefix@.len(),
            r@ == prefix@.subrange(0, i as int),
        decreases prefix@.len() - i,
    {
        r.push(prefix[i]);
        i = i + 1;
        assert(r@ =~= prefix@.subrange(0, i as int));
    }
    assert(prefix@.subrange(0, prefix@.len() as int) =~= prefix@);
    let ghost base = r@;
    let tail: Vec<u8> = if k < ls.len() {
        let ts = split_tokens(&ls[k]);
        if ts.len() > 1 {
            ts[1].clone()
        } else {
            let u = "unknown".as_bytes();
            vstd::slice::slice_to_vec(u)
        }
    } else {
        let u = "unknown".as_bytes();
        vstd::slice::slice_to_vec(u)
    };
    let mut j: usize = 0;
    while j < tail.len()
        invariant
            j <= tail@.len(),
            r@ == base + tail@.subrange(0, j as int),
        decreases tail@.len() - j,
    {
        r.push(tail[j]);
        j = j + 1;
        assert(r@ =~= base + tail@.subrange(0, j as int));
    }
    assert(tail@.subrange(0, tail@.len() as int) =~= tail@);
    r
}

} // verus!
