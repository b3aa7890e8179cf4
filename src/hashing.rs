//! Stable fingerprints: file digests, workspace and package fingerprints,
//! symbol identities and definition hashes, all over blake3.
use vstd::prelude::*;
use vstd::slice::slice_subrange;
use vstd::string::*;
use crate::text::cat;

verus! {

/// Version string of the tool, folded into every symbol identity.
pub const TOOL_FINGERPRINT: &'static str = "ct-v0.1.0";

/// The 32-byte blake3 digest of a byte string.
pub uninterp spec fn blake3_of(input: Seq<u8>) -> Seq<u8>;

/// Lower-case hexadecimal digit of a value below 16.
pub open spec fn hex_digit(n: u8) -> char {
    if n < 10 {
        (('0' as u8) + n) as char
    } else {
        (('a' as u8) + (n - 10)) as char
    }
}

/// Lower-case hexadecimal text of a byte string, high nibble first.
pub open spec fn hex_of(b: Seq<u8>) -> Seq<char> {
    Seq::new(
        2 * b.len(),
        |i: int|
            if i % 2 == 0 {
                hex_digit(b[i / 2] / 16)
            } else {
                hex_digit(b[i / 2] % 16)
            },
    )
}

/// Little-endian bytes of a 32-bit integer.
pub open spec fn le_bytes(x: u32) -> Seq<u8> {
    seq![
        (x % 256) as u8,
        ((x / 256) % 256) as u8,
        ((x / 65536) % 256) as u8,
        ((x / 16777216) % 256) as u8,
    ]
}

/// UTF-8 bytes of a character sequence.
pub open spec fn utf8(s: Seq<char>) -> Seq<u8> {
    vstd::utf8::encode_utf8(s)
}

/// What a symbol identity hashes: the tool version, the canonical path, the
/// kind, the file digest and both span ends.
pub open spec fn symbol_id_input(
    path: Seq<char>,
    kind: Seq<char>,
    digest: Seq<char>,
    start: u32,
    end: u32,
) -> Seq<u8> {
    utf8(TOOL_FINGERPRINT@) + utf8(path) + utf8(kind) + utf8(digest) + le_bytes(start) + le_bytes(
        end,
    )
}

/// A symbol identity: the first 16 digest bytes, in hex.
pub open spec fn symbol_id_of(
    path: Seq<char>,
    kind: Seq<char>,
    digest: Seq<char>,
    start: u32,
    end: u32,
) -> Seq<char> {
    hex_of(blake3_of(symbol_id_input(path, kind, digest, start, end)).subrange(0, 16))
}

/// A tagged digest string: `blake3:` and hex.
pub open spec fn tagged(hex: Seq<char>) -> Seq<char> {
    "blake3:"@ + hex
}

/// The digest of a file's bytes.
pub open spec fn file_digest_of(content: Seq<u8>) -> Seq<char> {
    tagged(hex_of(blake3_of(content)))
}

/// The fingerprint of a workspace path: 16 hex digits.
pub open spec fn workspace_fingerprint_of(path: Seq<char>) -> Seq<char> {
    tagged(hex_of(blake3_of(utf8(path)).subrange(0, 8)))
}

/// The hash of a rendered signature.
pub open spec fn def_hash_of(signature: Seq<char>) -> Seq<char> {
    hex_of(blake3_of(utf8(signature)))
}

/// The fingerprint of a package: its name, version and package id, and the
/// tool version, so that upgrading the tool changes it.
pub open spec fn crate_fingerprint_of(name: Seq<char>, version: Seq<char>, id: Seq<char>) -> Seq<
    char,
> {
    tagged(hex_of(blake3_of(utf8(name) + utf8(version) + utf8(id) + utf8(TOOL_FINGERPRINT@))))
}

/// Relies on blake3::hash: the 32-byte digest, a function of the input alone.
#[verifier::external_body]
fn blake3_digest(input: &[u8]) -> (r: Vec<u8>)
    ensures
        r@ == blake3_of(input@),
        r@.len() == 32,
{
    blake3::hash(input).as_bytes().to_vec()
}

/// Relies on hex::encode: two lower-case digits per byte, high nibble first.
#[verifier::external_body]
fn hex_encode(bytes: &[u8]) -> (r: String)
    ensures
        r@ == hex_of(bytes@),
{
    hex::encode(bytes)
}

/// Appends the UTF-8 bytes of `s`.
fn push_utf8(v: &mut Vec<u8>, s: &str)
    ensures
        final(v)@ == old(v)@ + utf8(s@),
{
    let b = s.as_bytes();
    let mut i: usize = 0;
    while i < b.len()
        invariant
            b@ == utf8(s@),
            i <= b@.len(),
            v@ == old(v)@ + b@.subrange(0, i as int),
        decreases b@.len() - i,
    {
        v.push(b[i]);
        i = i + 1;
        assert(v@ =~= old(v)@ + b@.subrange(0, i as int));
    }
    assert(b@.subrange(0, b@.len() as int) =~= b@);
}

/// Appends the little-endian bytes of `x`.
fn push_le_u32(v: &mut Vec<u8>, x: u32)
    ensures
        final(v)@ == old(v)@ + le_bytes(x),
{
    v.push((x % 256) as u8);
    v.push(((x / 256) % 256) as u8);
    v.push(((x / 65536) % 256) as u8);
    v.push(((x / 16777216) % 256) as u8);
    assert(v@ =~= old(v)@ + le_bytes(x));
}

/// The identity of a symbol: blake3 over the tool version, the canonical
/// path, the kind, the file digest and the span ends, cut to 16 bytes, in hex.
pub fn compute_symbol_id(
    def_path: &str,
    kind: &str,
    file_digest: &str,
    span_start: u32,
    span_end: u32,
) -> (r: String)
    ensures
        r@ == symbol_id_of(def_path@, kind@, file_digest@, span_start, span_end),
        r@.len() == 32,
{
    let mut input: Vec<u8> = Vec::new();
    push_utf8(&mut input, TOOL_FINGERPRINT);
    push_utf8(&mut input, def_path);
    push_utf8(&mut input, kind);
    push_utf8(&mut input, file_digest);
    push_le_u32(&mut input, span_start);
    push_le_u32(&mut input, span_end);
    assert(input@ =~= symbol_id_input(def_path@, kind@, file_digest@, span_start, span_end));
    let digest = blake3_digest(input.as_slice());
    let head = slice_subrange(digest.as_slice(), 0, 16);
    hex_encode(head)
}

/// The digest of a file's contents: `blake3:` and the hex of its blake3 hash.
pub fn compute_file_digest(content: &[u8]) -> (r: String)
    ensures
        r@ == file_digest_of(content@),
        r@.len() == 71,
{
    let digest = blake3_digest(content);
    let h = hex_encode(digest.as_slice());
    proof {
        reveal_strlit("blake3:");
    }
    cat("blake3:", h.as_str())
}

/// The fingerprint of a workspace root: `blake3:` and the first 16 hex digits
/// of the hash of its path.
pub fn compute_workspace_fingerprint(workspace_path: &str) -> (r: String)
    ensures
        r@ == workspace_fingerprint_of(workspace_path@),
        r@.len() == 23,
{
    let mut input: Vec<u8> = Vec::new();
    push_utf8(&mut input, workspace_path);
    assert(input@ =~= utf8(workspace_path@));
    let digest = blake3_digest(input.as_slice());
    let head = slice_subrange(digest.as_slice(), 0, 8);
    let h = hex_encode(head);
    proof {
        reveal_strlit("blake3:");
    }
    cat("blake3:", h.as_str())
}

/// The definition hash of a rendered signature: the hex of its blake3 hash.
pub fn compute_def_hash(signature: &str) -> (r: String)
    ensures
        r@ == def_hash_of(signature@),
{
    let mut input: Vec<u8> = Vec::new();
    push_utf8(&mut input, signature);
    assert(input@ =~= utf8(signature@));
    let digest = blake3_digest(input.as_slice());
    hex_encode(digest.as_slice())
}

/// The fingerprint of a package from its name, version and package id, and
/// the tool version.
pub fn compute_crate_fingerprint(name: &str, version: &str, package_id: &str) -> (r: String)
    ensures
        r@ == crate_fingerprint_of(name@, version@, package_id@),
{
    let mut input: Vec<u8> = Vec::new();
    push_utf8(&mut input, name);
    push_utf8(&mut input, version);
    push_utf8(&mut input, package_id);
    push_utf8(&mut input, TOOL_FINGERPRINT);
    assert(input@ =~= utf8(name@) + utf8(version@) + utf8(package_id@) + utf8(TOOL_FINGERPRINT@));
    let digest = blake3_digest(input.as_slice());
    let h = hex_encode(digest.as_slice());
    cat("blake3:", h.as_str())
}


/// The snapshot of a compiler's configuration listing: `blake3:` and the hex
/// of the hash of its text.
pub fn compute_cfg_snapshot(cfg: &str) -> (r: String)
    ensures
        r@ == tagged(hex_of(blake3_of(utf8(cfg@)))),
{
    let mut input: Vec<u8> = Vec::new();
    push_utf8(&mut input, cfg);
    assert(input@ =~= utf8(cfg@));
    let digest = blake3_digest(input.as_slice());
    let h = hex_encode(digest.as_slice());
    cat("blake3:", h.as_str())
}

} // verus!
