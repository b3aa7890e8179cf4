//! Small rules shared by the client and the daemon: path normalization,
//! expansion operators, visibility filters and exit codes.
use vstd::prelude::*;
use vstd::string::*;
use crate::text::{cat, is_prefix, matches_at, push_char, starts_with, str_eq};

verus! {

/// Why a core operation failed.
#[derive(Debug, Clone)]
pub enum CoreError {
    Io(String),
    Config(String),
    InvalidPath(String),
    WorkspaceNotFound,
}

pub const EXIT_OK: u8 = 0;

pub const EXIT_INVALID_ARGS: u8 = 2;

pub const EXIT_OVER_MAX: u8 = 3;

pub const EXIT_DAEMON_UNAVAILABLE: u8 = 4;

pub const EXIT_INDEX_MISMATCH: u8 = 5;

pub const EXIT_INTERNAL_ERROR: u8 = 6;

pub const EXIT_DAEMON_ALREADY_RUNNING: u8 = 7;

/// Every non-overlapping occurrence of `pat` in `s`, from the left, replaced
/// by `rep`.
pub open spec fn replace_all(s: Seq<char>, pat: Seq<char>, rep: Seq<char>) -> Seq<char>
    decreases s.len(),
{
    if pat.len() == 0 || s.len() < pat.len() {
        s
    } else if s.subrange(0, pat.len() as int) == pat {
        rep + replace_all(s.subrange(pat.len() as int, s.len() as int), pat, rep)
    } else {
        seq![s[0]] + replace_all(s.subrange(1, s.len() as int), pat, rep)
    }
}

/// A path with `crate::` replaced by the current package's name, where it
/// begins with `crate::` and the package is known.
pub open spec fn normalized_path(path: Seq<char>, current: Option<Seq<char>>) -> Seq<char> {
    match current {
        Some(c) => if is_prefix("crate::"@, path) {
            replace_all(path, "crate::"@, c + "::"@)
        } else {
            path
        },
        None => path,
    }
}

/// Replaces every occurrence of `pat` in `s` by `rep`.
pub fn replace_str(s: &str, pat: &str, rep: &str) -> (r: String)
    requires
        pat@.len() > 0,
    ensures
        r@ == replace_all(s@, pat@, rep@),
{
    let n = s.unicode_len();
    let m = pat.unicode_len();
    let mut r = String::new();
    let mut i: usize = 0;
    assert(s@.subrange(0, n as int) =~= s@);
    assert(r@ + s@ =~= s@);
    while i < n
        invariant
            n == s@.len(),
            m == pat@.len(),
            m > 0,
            i <= n,
            r@ + replace_all(s@.subrange(i as int, n as int), pat@, rep@) == replace_all(s@, pat@, rep@),
        decreases n - i,
    {
        let ghost rest = s@.subrange(i as int, n as int);
        if m <= n - i && matches_at(s, pat, i) {
            proof {
                assert(rest.subrange(0, m as int) =~= s@.subrange(i as int, i + m));
                assert(rest.subrange(m as int, rest.len() as int) =~= s@.subrange(i + m, n as int));
            }
            r.append(rep);
            i = i + m;
            proof {
                assert(r@ + replace_all(s@.subrange(i as int, n as int), pat@, rep@) =~= (r@.subrange(0, r@.len() - rep@.len())) + (rep@ + replace_all(s@.subrange(i as int, n as int), pat@, rep@)));
            }
        } else {
            let c = s.get_char(i);
            proof {
                if rest.len() >= m {
                    assert(rest.subrange(0, m as int) =~= s@.subrange(i as int, i + m));
                }
                assert(rest.subrange(1, rest.len() as int) =~= s@.subrange(i + 1, n as int));
                assert(rest[0] == c);
            }
            let ghost r0 = r@;
            push_char(&mut r, c);
            i = i + 1;
            proof {
                assert(r@ + replace_all(s@.subrange(i as int, n as int), pat@, rep@) =~= r0 + (seq![c] + replace_all(s@.subrange(i as int, n as int), pat@, rep@)));
            }
        }
    }
    proof {
        assert(s@.subrange(n as int, n as int) =~= Seq::<char>::empty());
        assert(r@ + Seq::<char>::empty() =~= r@);
    }
    r
}

/// A path with `crate::` replaced by the current package's name.
pub fn normalize_path(path: &str, current_crate: Option<&str>) -> (r: String)
    ensures
        r@ == normalized_path(
            path@,
            match current_crate {
                Some(c) => Some(c@),
                None => None,
            },
        ),
{
    match current_crate {
        Some(c) => {
            if starts_with(path, "crate::") {
                proof {
                    reveal_strlit("crate::");
                }
                let rep = cat(c, "::");
                replace_str(path, "crate::", rep.as_str())
            } else {
                path.to_owned()
            }
        },
        None => path.to_owned(),
    }
}

/// The number of times `c` occurs in `s`.
pub open spec fn count_char(s: Seq<char>, c: char) -> nat
    decreases s.len(),
{
    if s.len() == 0 {
        0
    } else {
        count_char(s.drop_last(), c) + if s.last() == c {
            1nat
        } else {
            0nat
        }
    }
}

/// The depths that an expansion string asks for: the number of `>`
/// (children) and of `<` (parents).
pub fn parse_expansion_operators(expansion: &str) -> (r: (usize, usize))
    ensures
        r.0 == count_char(expansion@, '>'),
        r.1 == count_char(expansion@, '<'),
{
    let n = expansion.unicode_len();
    let mut children: usize = 0;
    let mut parents: usize = 0;
    let mut i: usize = 0;
    while i < n
        invariant
            n == expansion@.len(),
            i <= n,
            children == count_char(expansion@.subrange(0, i as int), '>'),
            parents == count_char(expansion@.subrange(0, i as int), '<'),
            children <= i,
            parents <= i,
        decreases n - i,
    {
        let c = expansion.get_char(i);
        proof {
            assert(expansion@.subrange(0, i + 1).drop_last() =~= expansion@.subrange(0, i as int));
        }
        if c == '>' {
            children = children + 1;
        } else if c == '<' {
            parents = parents + 1;
        }
        i = i + 1;
    }
    assert(expansion@.subrange(0, n as int) =~= expansion@);
    (children, parents)
}

/// The visibility filters a request may name.
pub open spec fn valid_visibility(v: Seq<char>) -> bool {
    v == "public"@ || v == "private"@ || v == "all"@
}

/// Accepts no filter or one of `public`, `private`, `all`.
pub fn validate_visibility_filter(vis: Option<&str>) -> (r: Result<Option<&str>, CoreError>)
    ensures
        r is Ok <==> (vis is None || valid_visibility(vis->0@)),
        r matches Ok(v) ==> v == vis,
        r matches Err(e) ==> e is Config,
{
    match vis {
        None => Ok(vis),
        Some(v) => {
            if str_eq(v, "public") || str_eq(v, "private") || str_eq(v, "all") {
                Ok(vis)
            } else {
                Err(CoreError::Config(cat("Invalid visibility filter: ", v)))
            }
        },
    }
}

/// Decimal digits of a number.
pub open spec fn decimal(n: nat) -> Seq<char>
    decreases n,
{
    if n < 10 {
        seq![(('0' as nat) + n) as char]
    } else {
        decimal(n / 10) + seq![(('0' as nat) + (n % 10)) as char]
    }
}

/// The decimal text of a number.
pub fn to_decimal(n: u64) -> (r: String)
    ensures
        r@ == decimal(n as nat),
    decreases n,
{
    if n < 10 {
        let mut r = String::new();
        push_char(&mut r, ((48 + n) as u8) as char);
        assert(r@ =~= decimal(n as nat));
        r
    } else {
        let mut r = to_decimal(n / 10);
        push_char(&mut r, ((48 + n % 10) as u8) as char);
        assert(r@ =~= decimal(n as nat));
        r
    }
}

/// The meaning of an exit code.
pub open spec fn exit_code_text(code: u8) -> Seq<char> {
    if code == 0 {
        "ok"@
    } else if code == 2 {
        "invalid args"@
    } else if code == 3 {
        "over-max decision required"@
    } else if code == 4 {
        "daemon unavailable"@
    } else if code == 5 {
        "index mismatch"@
    } else if code == 6 {
        "internal error"@
    } else {
        "unknown ("@ + decimal(code as nat) + ")"@
    }
}

/// Describes an exit code in words.
pub fn format_exit_code(code: u8) -> (r: String)
    ensures
        r@ == exit_code_text(code),
{
    if code == 0 {
        "ok".to_owned()
    } else if code == 2 {
        "invalid args".to_owned()
    } else if code == 3 {
        "over-max decision required".to_owned()
    } else if code == 4 {
        "daemon unavailable".to_owned()
    } else if code == 5 {
        "index mismatch".to_owned()
    } else if code == 6 {
        "internal error".to_owned()
    } else {
        let mut r = "unknown (".to_owned();
        r.append(to_decimal(code as u64).as_str());
        r.append(")");
        r
    }
}

} // verus!
