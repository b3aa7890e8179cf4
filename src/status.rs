//! Implementation status of a function, read from the text of its span.
use vstd::prelude::*;
use crate::models::ImplementationStatus;
use crate::text::{contains_bytes, contains_seq};
use crate::hashing::utf8;

verus! {

/// The views of a sequence of byte vectors.
pub open spec fn byte_views(v: Seq<Vec<u8>>) -> Seq<Seq<u8>> {
    v.map_values(|l: Vec<u8>| l@)
}

/// A line without the carriage return that ended it.
pub open spec fn strip_cr(l: Seq<u8>) -> Seq<u8> {
    if l.len() > 0 && l.last() == 13u8 {
        l.drop_last()
    } else {
        l
    }
}

/// The finished lines and the open line after reading `t`.
pub open spec fn scan_lines(t: Seq<u8>) -> (Seq<Seq<u8>>, Seq<u8>)
    decreases t.len(),
{
    if t.len() == 0 {
        (Seq::empty(), Seq::empty())
    } else {
        let (ls, cur) = scan_lines(t.drop_last());
        if t.last() == 10u8 {
            (ls.push(strip_cr(cur)), Seq::empty())
        } else {
            (ls, cur.push(t.last()))
        }
    }
}

/// The lines of a text: split at line feeds, a carriage return before a line
/// feed dropped, and no empty line after a final line feed.
pub open spec fn lines_of(t: Seq<u8>) -> Seq<Seq<u8>> {
    let (ls, cur) = scan_lines(t);
    if cur.len() == 0 {
        ls
    } else {
        ls.push(cur)
    }
}

/// Byte strings joined with line feeds.
pub open spec fn join_lines(ls: Seq<Seq<u8>>) -> Seq<u8>
    decreases ls.len(),
{
    if ls.len() == 0 {
        Seq::empty()
    } else if ls.len() == 1 {
        ls[0]
    } else {
        join_lines(ls.drop_last()) + seq![10u8] + ls.last()
    }
}

/// The text of lines `start..=end` (1-based, inclusive), cut to the lines
/// that exist.
pub open spec fn span_text(t: Seq<u8>, start: u32, end: u32) -> Seq<u8> {
    let ls = lines_of(t);
    let lo: int = if start == 0 { 0 } else { start - 1 };
    let hi: int = if end as int <= ls.len() { end as int } else { ls.len() as int };
    if lo >= hi {
        Seq::empty()
    } else {
        join_lines(ls.subrange(lo, hi))
    }
}

/// The status that a body's text shows.
pub open spec fn status_of_text(body: Seq<u8>) -> ImplementationStatus {
    if contains_seq(body, utf8("unimplemented!"@)) {
        ImplementationStatus::Unimplemented
    } else if contains_seq(body, utf8("todo!"@)) || contains_seq(body, utf8("TODO"@))
        || contains_seq(body, utf8("FIXME"@)) {
        ImplementationStatus::Todo
    } else {
        ImplementationStatus::Implemented
    }
}

/// Splits a text into its lines.
pub fn split_lines(t: &[u8]) -> (r: Vec<Vec<u8>>)
    ensures
        byte_views(r@) == lines_of(t@),
{
    let mut ls: Vec<Vec<u8>> = Vec::new();
    let mut cur: Vec<u8> = Vec::new();
    let mut i: usize = 0;
    while i < t.len()
        invariant
            i <= t@.len(),
            (byte_views(ls@), cur@) == scan_lines(t@.subrange(0, i as int)),
        decreases t@.len() - i,
    {
        proof {
            assert(t@.subrange(0, i + 1).drop_last() =~= t@.subrange(0, i as int));
        }
        if t[i] == 10u8 {
            let n = cur.len();
            if n > 0 && cur[n - 1] == 13u8 {
                cur.pop();
            }
            ls.push(cur);
            cur = Vec::new();
        } else {
            cur.push(t[i]);
        }
        i = i + 1;
        assert(byte_views(ls@) =~= scan_lines(t@.subrange(0, i as int)).0);
        assert(cur@ =~= scan_lines(t@.subrange(0, i as int)).1);
    }
    assert(t@.subrange(0, t@.len() as int) =~= t@);
    if cur.len() > 0 {
        ls.push(cur);
        assert(byte_views(ls@) =~= lines_of(t@));
    }
    ls
}

/// The text of lines `lo..hi` (0-based, exclusive end) joined with line feeds.
fn join_range(ls: &Vec<Vec<u8>>, lo: usize, hi: usize) -> (r: Vec<u8>)
    requires
        lo < hi <= ls@.len(),
    ensures
        r@ == join_lines(byte_views(ls@).subrange(lo as int, hi as int)),
{
    let mut r: Vec<u8> = Vec::new();
    let mut i: usize = lo;
    while i < hi
        invariant
            lo <= i <= hi <= ls@.len(),
            i == lo ==> r@.len() == 0,
            i > lo ==> r@ == join_lines(byte_views(ls@).subrange(lo as int, i as int)),
        decreases hi - i,
    {
        proof {
            let next = byte_views(ls@).subrange(lo as int, i + 1);
            assert(next.drop_last() =~= byte_views(ls@).subrange(lo as int, i as int));
        }
        if i > lo {
            r.push(10u8);
        }
        let line = &ls[i];
        let mut j: usize = 0;
        let ghost base = r@;
        while j < line.len()
            invariant
                j <= line@.len(),
                r@ == base + line@.subrange(0, j as int),
            decreases line@.len() - j,
        {
            r.push(line[j]);
            j = j + 1;
            assert(r@ =~= base + line@.subrange(0, j as int));
        }
        assert(line@.subrange(0, line@.len() as int) =~= line@);
        i = i + 1;
        proof {
            let cur = byte_views(ls@).subrange(lo as int, i as int);
            if i == lo + 1 {
                assert(r@ =~= cur[0]);
            } else {
                assert(cur.drop_last() =~= byte_views(ls@).subrange(lo as int, i - 1));
                assert(r@ =~= join_lines(cur.drop_last()) + seq![10u8] + cur.last());
            }
        }
    }
    r
}

/// The status of a body's text.
pub fn classify_text(body: &[u8]) -> (r: ImplementationStatus)
    ensures
        r == status_of_text(body@),
{
    if contains_bytes(body, "unimplemented!".as_bytes()) {
        ImplementationStatus::Unimplemented
    } else if contains_bytes(body, "todo!".as_bytes()) || contains_bytes(body, "TODO".as_bytes())
        || contains_bytes(body, "FIXME".as_bytes()) {
        ImplementationStatus::Todo
    } else {
        ImplementationStatus::Implemented
    }
}

/// The status of the span `span_start..=span_end` (1-based, inclusive) of a
/// file's text; `None` stands for a file that could not be read.
pub fn detect_implementation_status(content: Option<&[u8]>, span_start: u32, span_end: u32) -> (r:
    ImplementationStatus)
    ensures
        content is None ==> r == ImplementationStatus::Implemented,
        content is Some ==> r == status_of_text(span_text(content->0@, span_start, span_end)),
{
    match content {
        None => ImplementationStatus::Implemented,
        Some(t) => {
            let ls = split_lines(t);
            let n = ls.len();
            let lo: usize = if span_start == 0 {
                0
            } else {
                (span_start - 1) as usize
            };
            let hi: usize = if (span_end as usize) <= n {
                span_end as usize
            } else {
                n
            };
            if lo >= hi {
                let empty: Vec<u8> = Vec::new();
                assert(span_text(t@, span_start, span_end) =~= empty@);
                classify_text(empty.as_slice())
            } else {
                let body = join_range(&ls, lo, hi);
                assert(body@ == span_text(t@, span_start, span_end));
                classify_text(body.as_slice())
            }
        },
    }
}

} // verus!
