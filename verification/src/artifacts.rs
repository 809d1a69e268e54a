//! Model artifact contents: the declared byte transforms (including the SentencePiece
//! token list extraction), SHA-256 digests in hex, and safe relative install paths.
use vstd::prelude::*;
use vstd::utf8::valid_utf8;
use sha2::{Digest, Sha256};
use crate::models::ModelError;
use crate::tools::{has_prefix, starts_with};
use crate::unicode::{chars_of, string_of, text_eq};

verus! {

/// The error every malformed SentencePiece model yields.
pub open spec fn sentencepiece_error(e: ModelError) -> bool {
    e matches ModelError::UnsupportedTransform(s) && s@ == "sentencepiece_tokens_v1"@
}

// ---------------------------------------------------------------------------------------
// Varints
// ---------------------------------------------------------------------------------------

/// Reads the `k`-th and later bytes of a little-endian base-128 varint starting at
/// `offset`, with `acc` holding the value of the bytes before. At most ten bytes are read.
/// The result is the value, or `None` when the input ends or the tenth byte still
/// continues, together with the offset after the last byte read.
pub open spec fn varint_from(input: Seq<u8>, offset: int, k: nat, acc: u64) -> (Option<u64>, int)
    decreases 10 - k,
{
    if k >= 10 {
        (None, offset + k)
    } else if offset + k < 0 || offset + k >= input.len() {
        (None, offset + k)
    } else {
        let b = input[offset + k];
        let acc2 = acc | (((b & 0x7f) as u64) << ((7 * k) as u64));
        if b & 0x80 == 0 {
            (Some(acc2), offset + k + 1)
        } else {
            varint_from(input, offset, k + 1, acc2)
        }
    }
}

/// The varint at `offset`, and the offset after it.
pub open spec fn varint_at(input: Seq<u8>, offset: int) -> (Option<u64>, int) {
    varint_from(input, offset, 0, 0)
}

pub proof fn lemma_varint_advances(input: Seq<u8>, offset: int, k: nat, acc: u64)
    ensures
        varint_from(input, offset, k, acc).0 is Some ==> varint_from(input, offset, k, acc).1
            > offset + k && varint_from(input, offset, k, acc).1 <= input.len(),
    decreases 10 - k,
{
    if k < 10 && 0 <= offset + k < input.len() {
        let b = input[offset + k];
        let acc2 = acc | (((b & 0x7f) as u64) << ((7 * k) as u64));
        if b & 0x80 != 0 {
            lemma_varint_advances(input, offset, k + 1, acc2);
        }
    }
}

/// Reads one base-128 varint of at most ten bytes at `*offset`, advancing past the bytes
/// read.
pub fn read_varint(input: &[u8], offset: &mut usize) -> (r: Result<u64, ModelError>)
    ensures
        ({
            let v = varint_at(input@, *old(offset) as int);
            &&& *final(offset) == v.1
            &&& match r {
                Ok(x) => v.0 == Some(x),
                Err(e) => v.0 is None && sentencepiece_error(e),
            }
        }),
{
    let ghost start = *offset as int;
    let mut value: u64 = 0;
    let mut k: u64 = 0;
    while k < 10
        invariant
            k <= 10,
            *offset == start + k,
            start == *old(offset),
            start >= 0,
            varint_at(input@, start) == varint_from(input@, start, k as nat, value),
        decreases 10 - k,
    {
        if *offset >= input.len() {
            return Err(ModelError::UnsupportedTransform("sentencepiece_tokens_v1".to_owned()));
        }
        let byte = input[*offset];
        *offset = *offset + 1;
        value = value | (((byte & 0x7f) as u64) << (7 * k));
        if byte & 0x80 == 0 {
            return Ok(value);
        }
        k = k + 1;
    }
    Err(ModelError::UnsupportedTransform("sentencepiece_tokens_v1".to_owned()))
}

// ---------------------------------------------------------------------------------------
// SentencePiece token list
// ---------------------------------------------------------------------------------------

/// ASCII decimal digits of `n`.
pub open spec fn decimal(n: nat) -> Seq<u8>
    decreases n,
{
    if n < 10 {
        seq![(48 + n) as u8]
    } else {
        decimal(n / 10).push((48 + n % 10) as u8)
    }
}

/// The piece text of one `pieces` entry: a length-delimited field 1 holding valid UTF-8.
pub open spec fn piece_of(entry: Seq<u8>) -> Option<Seq<u8>> {
    let (tag, p1) = varint_at(entry, 0);
    let (len, p2) = varint_at(entry, p1);
    if tag is None || len is None {
        None
    } else {
        let end = p2 + (len.unwrap() as usize);
        if end > entry.len() || tag.unwrap() != 0x0a {
            None
        } else if !valid_utf8(entry.subrange(p2, end)) {
            None
        } else {
            Some(entry.subrange(p2, end))
        }
    }
}

/// One output line: the piece, a space, its position and a newline.
pub open spec fn token_line(piece: Seq<u8>, index: nat) -> Seq<u8> {
    piece + seq![32u8] + decimal(index) + seq![10u8]
}

/// The token lines of the records from `offset` on, numbered from `count`; `None` for a
/// malformed record. Records are (tag, length, payload); tag `0x0a` holds a piece.
pub open spec fn token_lines(input: Seq<u8>, offset: int, count: nat) -> Option<Seq<u8>>
    decreases input.len() - offset,
{
    if offset < 0 || offset >= input.len() {
        Some(Seq::empty())
    } else {
        let (tag, o1) = varint_at(input, offset);
        let (len, o2) = varint_at(input, o1);
        if tag is None || len is None {
            None
        } else {
            let end = o2 + (len.unwrap() as usize);
            if end > input.len() {
                None
            } else {
                proof {
                    lemma_varint_advances(input, offset, 0, 0);
                    lemma_varint_advances(input, o1, 0, 0);
                }
                if tag.unwrap() == 0x0a {
                    match piece_of(input.subrange(o2, end)) {
                        None => None,
                        Some(piece) => match token_lines(input, end, count + 1) {
                            None => None,
                            Some(rest) => Some(token_line(piece, count) + rest),
                        },
                    }
                } else {
                    token_lines(input, end, count)
                }
            }
        }
    }
}

/// The token list of a SentencePiece model: one line per piece, in order.
pub open spec fn sentencepiece_output(input: Seq<u8>) -> Option<Seq<u8>> {
    match token_lines(input, 0, 0) {
        Some(out) => if out.len() > 0 {
            Some(out)
        } else {
            None
        },
        None => None,
    }
}

/// Calls `std::str::from_utf8` and reports whether the bytes are valid UTF-8.
#[verifier::external_body]
fn is_utf8(bytes: &[u8]) -> (b: bool)
    ensures
        b == valid_utf8(bytes@),
{
    std::str::from_utf8(bytes).is_ok()
}

fn push_decimal(out: &mut Vec<u8>, n: usize)
    ensures
        final(out)@ == old(out)@ + decimal(n as nat),
    decreases n,
{
    if n >= 10 {
        push_decimal(out, n / 10);
    }
    out.push(48u8 + (n % 10) as u8);
    proof {
        if n >= 10 {
            assert(out@ =~= old(out)@ + decimal(n as nat));
        } else {
            assert(out@ =~= old(out)@ + decimal(n as nat));
        }
    }
}

fn push_bytes(out: &mut Vec<u8>, src: &[u8], lo: usize, hi: usize)
    requires
        lo <= hi <= src@.len(),
    ensures
        final(out)@ == old(out)@ + src@.subrange(lo as int, hi as int),
{
    let mut i: usize = lo;
    while i < hi
        invariant
            lo <= i <= hi <= src@.len(),
            out@ == old(out)@ + src@.subrange(lo as int, i as int),
        decreases hi - i,
    {
        out.push(src[i]);
        i = i + 1;
        assert(out@ =~= old(out)@ + src@.subrange(lo as int, i as int));
    }
}

fn copy_bytes(src: &[u8], lo: usize, hi: usize) -> (r: Vec<u8>)
    requires
        lo <= hi <= src@.len(),
    ensures
        r@ == src@.subrange(lo as int, hi as int),
{
    let mut r: Vec<u8> = Vec::new();
    push_bytes(&mut r, src, lo, hi);
    assert(r@ =~= src@.subrange(lo as int, hi as int));
    r
}

/// The piece of one `pieces` entry, as `piece_of` describes.
fn read_piece(entry: &[u8]) -> (r: Option<(usize, usize)>)
    ensures
        match r {
            Some((lo, hi)) => lo <= hi <= entry@.len() && piece_of(entry@) == Some(
                entry@.subrange(lo as int, hi as int),
            ),
            None => piece_of(entry@) is None,
        },
{
    let mut offset: usize = 0;
    let tag = match read_varint(entry, &mut offset) {
        Ok(t) => t,
        Err(_) => return None,
    };
    let len = match read_varint(entry, &mut offset) {
        Ok(l) => l,
        Err(_) => return None,
    };
    let length = len as usize;
    if length > entry.len() || offset > entry.len() - length {
        return None;
    }
    let end = offset + length;
    if tag != 0x0a {
        return None;
    }
    let piece = copy_bytes(entry, offset, end);
    if !is_utf8(piece.as_slice()) {
        return None;
    }
    Some((offset, end))
}

fn malformed_sentencepiece() -> (e: ModelError)
    ensures
        sentencepiece_error(e),
{
    ModelError::UnsupportedTransform("sentencepiece_tokens_v1".to_owned())
}

/// Extracts the token list of a SentencePiece model: every piece on its own line,
/// followed by its index. A malformed model, or one without pieces, is refused.
pub fn sentencepiece_tokens(input: &[u8]) -> (r: Result<Vec<u8>, ModelError>)
    ensures
        match r {
            Ok(out) => sentencepiece_output(input@) == Some(out@),
            Err(e) => sentencepiece_output(input@) is None && sentencepiece_error(e),
        },
{
    let mut out: Vec<u8> = Vec::new();
    let mut offset: usize = 0;
    let mut count: usize = 0;
    loop
        invariant
            offset <= input@.len(),
            count <= offset,
            token_lines(input@, 0, 0) == match token_lines(input@, offset as int, count as nat) {
                Some(rest) => Some(out@ + rest),
                None => None::<Seq<u8>>,
            },
            count == 0 ==> out@.len() == 0,
            count > 0 ==> out@.len() > 0,
        ensures
            offset >= input@.len(),
            token_lines(input@, 0, 0) == match token_lines(input@, offset as int, count as nat) {
                Some(rest) => Some(out@ + rest),
                None => None::<Seq<u8>>,
            },
            count == 0 ==> out@.len() == 0,
            count > 0 ==> out@.len() > 0,
        decreases input@.len() - offset,
    {
        if offset >= input.len() {
            break;
        }
        let ghost here = offset as int;
        proof {
            lemma_varint_advances(input@, here, 0, 0);
            let o1 = varint_at(input@, here).1;
            lemma_varint_advances(input@, o1, 0, 0);
        }
        let tag = match read_varint(input, &mut offset) {
            Ok(t) => t,
            Err(_) => return Err(malformed_sentencepiece()),
        };
        let len = match read_varint(input, &mut offset) {
            Ok(l) => l,
            Err(_) => return Err(malformed_sentencepiece()),
        };
        let length = len as usize;
        if length > input.len() || offset > input.len() - length {
            return Err(malformed_sentencepiece());
        }
        let end = offset + length;
        if tag == 0x0a {
            let entry = copy_bytes(input, offset, end);
            match read_piece(entry.as_slice()) {
                None => return Err(malformed_sentencepiece()),
                Some((lo, hi)) => {
                    let ghost before = out@;
                    push_bytes(&mut out, entry.as_slice(), lo, hi);
                    out.push(32u8);
                    push_decimal(&mut out, count);
                    out.push(10u8);
                    proof {
                        let piece = entry@.subrange(lo as int, hi as int);
                        assert(out@ =~= before + token_line(piece, count as nat));
                        match token_lines(input@, end as int, count as nat + 1) {
                            Some(rest) => {
                                assert(before + (token_line(piece, count as nat) + rest) =~= out@
                                    + rest);
                            },
                            None => {},
                        }
                    }
                    count = count + 1;
                },
            }
        }
        offset = end;
    }
    assert(token_lines(input@, offset as int, count as nat) == Some(Seq::<u8>::empty()));
    assert(out@ + Seq::<u8>::empty() =~= out@);
    if count == 0 {
        return Err(malformed_sentencepiece());
    }
    Ok(out)
}

// ---------------------------------------------------------------------------------------
// Declared transforms
// ---------------------------------------------------------------------------------------

/// The value of a decimal number as `usize` parsing reads it: an optional `+`, then one
/// or more ASCII digits, within range.
pub open spec fn digits_value(d: Seq<char>) -> int
    decreases d.len(),
{
    if d.len() == 0 {
        0
    } else {
        digits_value(d.drop_last()) * 10 + (d.last() as int - 48)
    }
}

pub open spec fn all_digits(d: Seq<char>) -> bool {
    forall|i: int| 0 <= i < d.len() ==> '0' <= #[trigger] d[i] && d[i] <= '9'
}

pub open spec fn parsed_usize(s: Seq<char>) -> Option<usize> {
    let d = if s.len() > 0 && s[0] == '+' {
        s.drop_first()
    } else {
        s
    };
    if d.len() > 0 && all_digits(d) && digits_value(d) <= usize::MAX {
        Some(digits_value(d) as usize)
    } else {
        None
    }
}

proof fn lemma_digits_value_nonneg(d: Seq<char>)
    requires
        all_digits(d),
    ensures
        digits_value(d) >= 0,
    decreases d.len(),
{
    if d.len() > 0 {
        assert(all_digits(d.drop_last())) by {
            assert forall|i: int| 0 <= i < d.drop_last().len() implies '0' <= #[trigger] d.drop_last()[i]
                && d.drop_last()[i] <= '9' by {
                assert(d.drop_last()[i] == d[i]);
            }
        }
        lemma_digits_value_nonneg(d.drop_last());
    }
}

/// Parses a decimal `usize`, as `str::parse::<usize>` accepts it.
fn parse_usize(s: &[char]) -> (r: Option<usize>)
    ensures
        r == parsed_usize(s@),
{
    let mut start: usize = 0;
    if s.len() > 0 && s[0] == '+' {
        start = 1;
    }
    let ghost d = if s@.len() > 0 && s@[0] == '+' {
        s@.drop_first()
    } else {
        s@
    };
    assert(d =~= s@.subrange(start as int, s@.len() as int));
    if start >= s.len() {
        return None;
    }
    let mut value: usize = 0;
    let mut i: usize = start;
    while i < s.len()
        invariant
            start <= i <= s@.len(),
            d == s@.subrange(start as int, s@.len() as int),
            d == (if s@.len() > 0 && s@[0] == '+' {
                s@.drop_first()
            } else {
                s@
            }),
            d.len() > 0,
            all_digits(d.take(i - start)),
            value as int == digits_value(d.take(i - start)),
        decreases s.len() - i,
    {
        let c = s[i];
        proof {
            assert(d.take(i - start + 1).drop_last() =~= d.take(i - start));
            assert(d.take(i - start + 1).last() == c);
        }
        if c < '0' || c > '9' {
            assert(!all_digits(d)) by {
                assert(d[i - start] == c);
            }
            return None;
        }
        let digit = (c as u32 - 48) as usize;
        if value > (usize::MAX - digit) / 10 {
            proof {
                assert(value * 10 + digit > usize::MAX) by (nonlinear_arith)
                    requires
                        value > (usize::MAX - digit) / 10,
                        digit <= 9,
                ;
                assert(digits_value(d.take(i - start + 1)) == value * 10 + digit);
                if all_digits(d) {
                    lemma_digits_prefix_bound(d, i - start + 1);
                }
            }
            return None;
        }
        value = value * 10 + digit;
        i = i + 1;
        proof {
            assert forall|j: int| 0 <= j < d.take(i - start).len() implies '0'
                <= #[trigger] d.take(i - start)[j] && d.take(i - start)[j] <= '9' by {
                if j < i - start - 1 {
                    assert(d.take(i - start)[j] == d.take(i - start - 1)[j]);
                }
            }
        }
    }
    assert(d.take(i - start) =~= d);
    Some(value)
}

proof fn lemma_digits_prefix_bound(d: Seq<char>, k: int)
    requires
        0 <= k <= d.len(),
        all_digits(d),
    ensures
        digits_value(d.take(k)) <= digits_value(d),
    decreases d.len() - k,
{
    if k < d.len() {
        lemma_digits_prefix_bound(d, k + 1);
        assert(d.take(k + 1).drop_last() =~= d.take(k));
        assert(all_digits(d.take(k))) by {
            assert forall|j: int| 0 <= j < d.take(k).len() implies '0' <= #[trigger] d.take(k)[j]
                && d.take(k)[j] <= '9' by {
                assert(d.take(k)[j] == d[j]);
            }
        }
        lemma_digits_value_nonneg(d.take(k));
    } else {
        assert(d.take(k) =~= d);
    }
}

/// The bytes a declared transform makes of an acquired artifact, or `None` when the
/// transform is unknown or cannot apply.
pub open spec fn transformed(input: Seq<u8>, declared: Seq<char>) -> Option<Seq<u8>> {
    if declared == "identity"@ {
        Some(input)
    } else if declared == "sentencepiece_tokens_v1"@ {
        sentencepiece_output(input)
    } else if has_prefix(declared, "strip_prefix:"@) {
        match parsed_usize(declared.skip(13)) {
            Some(n) => if n <= input.len() {
                Some(input.skip(n as int))
            } else {
                None
            },
            None => None,
        }
    } else {
        None
    }
}

/// Applies the transform an artifact declares to its acquired bytes.
pub fn transform_bytes(input: Vec<u8>, declared: &str) -> (r: Result<Vec<u8>, ModelError>)
    ensures
        match r {
            Ok(out) => transformed(input@, declared@) == Some(out@),
            Err(e) => transformed(input@, declared@) is None && (if declared@
                == "sentencepiece_tokens_v1"@ {
                sentencepiece_error(e)
            } else {
                e matches ModelError::UnsupportedTransform(s) && s@ == declared@
            }),
        },
{
    proof {
        reveal_strlit("strip_prefix:");
        reveal_strlit("identity");
        reveal_strlit("sentencepiece_tokens_v1");
    }
    if text_eq(declared, "identity") {
        return Ok(input);
    }
    if text_eq(declared, "sentencepiece_tokens_v1") {
        return sentencepiece_tokens(input.as_slice());
    }
    if starts_with(declared, "strip_prefix:") {
        let d = chars_of(declared);
        let rest = crate::unicode::copy_range(&d, 13, d.len());
        assert(rest@ =~= declared@.skip(13));
        match parse_usize(&rest) {
            Some(n) => {
                if n <= input.len() {
                    let out = copy_bytes(input.as_slice(), n, input.len());
                    assert(out@ =~= input@.skip(n as int));
                    return Ok(out);
                }
            },
            None => {},
        }
    }
    Err(ModelError::UnsupportedTransform(string_of(&chars_of(declared))))
}

// ---------------------------------------------------------------------------------------
// Digests
// ---------------------------------------------------------------------------------------

/// The SHA-256 digest of a byte sequence.
pub uninterp spec fn sha256_digest(bytes: Seq<u8>) -> Seq<u8>;

/// Calls `sha2::Sha256::digest` and copies the digest out; SHA-256 digests are 32 bytes.
#[verifier::external_body]
fn sha256(bytes: &[u8]) -> (d: Vec<u8>)
    ensures
        d@ == sha256_digest(bytes@),
        d@.len() == 32,
{
    Sha256::digest(bytes).to_vec()
}

/// The lowercase hexadecimal digit of a nibble.
pub open spec fn hex_digit(n: u8) -> char {
    if n < 10 {
        ((48 + n) as u8) as char
    } else {
        ((87 + n) as u8) as char
    }
}

/// Lowercase hexadecimal text, two digits per byte.
pub open spec fn hex_lower(bytes: Seq<u8>) -> Seq<char>
    decreases bytes.len(),
{
    if bytes.len() == 0 {
        Seq::empty()
    } else {
        hex_lower(bytes.drop_last()) + seq![hex_digit(bytes.last() / 16), hex_digit(bytes.last() % 16)]
    }
}

fn hex_char(n: u8) -> (c: char)
    requires
        n < 16,
    ensures
        c == hex_digit(n),
{
    if n < 10 {
        (48u8 + n) as char
    } else {
        (87u8 + n) as char
    }
}

/// The SHA-256 digest of `bytes` as lowercase hexadecimal.
pub fn hash(bytes: &[u8]) -> (r: String)
    ensures
        r@ == hex_lower(sha256_digest(bytes@)),
{
    let d = sha256(bytes);
    let mut out: Vec<char> = Vec::new();
    let mut i: usize = 0;
    while i < d.len()
        invariant
            i <= d@.len(),
            out@ == hex_lower(d@.take(i as int)),
        decreases d.len() - i,
    {
        let b = d[i];
        out.push(hex_char(b / 16));
        out.push(hex_char(b % 16));
        i = i + 1;
        assert(d@.take(i as int).drop_last() =~= d@.take(i - 1));
        assert(out@ =~= hex_lower(d@.take(i as int)));
    }
    assert(d@.take(i as int) =~= d@);
    string_of(&out)
}

/// Whether `bytes` have the expected hexadecimal SHA-256 digest.
pub fn digest_matches(bytes: &[u8], expected: &str) -> (b: bool)
    ensures
        b == (hex_lower(sha256_digest(bytes@)) == expected@),
{
    let actual = hash(bytes);
    text_eq(actual.as_str(), expected)
}

// ---------------------------------------------------------------------------------------
// Install paths
// ---------------------------------------------------------------------------------------

/// The components of a relative path split at `/`, as path iteration yields them: empty
/// components vanish, and so does `.` except in first place.
pub open spec fn path_segments(p: Seq<char>, from: int, seg_start: int) -> Seq<Seq<char>>
    decreases p.len() - from,
{
    if from >= p.len() || from < 0 {
        if seg_start < p.len() && seg_start >= 0 {
            seq![p.subrange(seg_start, p.len() as int)]
        } else {
            Seq::empty()
        }
    } else if p[from] == '/' {
        let rest = path_segments(p, from + 1, from + 1);
        if seg_start < from {
            seq![p.subrange(seg_start, from)] + rest
        } else {
            rest
        }
    } else {
        path_segments(p, from + 1, seg_start)
    }
}

/// A path every component of which is a plain name: not absolute, no `..` anywhere, and
/// no leading `.` component.
pub open spec fn is_plain_relative(p: Seq<char>) -> bool {
    let segs = path_segments(p, 0, 0);
    &&& !(p.len() > 0 && p[0] == '/')
    &&& !(segs.len() > 0 && segs[0] == "."@)
    &&& forall|i: int| 0 <= i < segs.len() ==> #[trigger] segs[i] != ".."@
}

/// No segment is `..`, and a first segment is not `.`.
pub open spec fn plain_segments(segs: Seq<Seq<char>>) -> bool {
    &&& !(segs.len() > 0 && segs[0] == "."@)
    &&& forall|i: int| 0 <= i < segs.len() ==> #[trigger] segs[i] != ".."@
}

fn segment_is_plain(seg: &Vec<char>, first: bool) -> (b: bool)
    ensures
        b == (seg@ != ".."@ && !(first && seg@ == "."@)),
{
    proof {
        reveal_strlit("..");
        reveal_strlit(".");
    }
    let parent = seg.len() == 2 && seg[0] == '.' && seg[1] == '.';
    let current = seg.len() == 1 && seg[0] == '.';
    assert(parent == (seg@ == ".."@)) by {
        if seg@.len() == 2 && seg@[0] == '.' && seg@[1] == '.' {
            assert(seg@ =~= ".."@);
        }
    }
    assert(current == (seg@ == "."@)) by {
        if seg@.len() == 1 && seg@[0] == '.' {
            assert(seg@ =~= "."@);
        }
    }
    !parent && !(first && current)
}

/// Accepts a relative install path only when every component is a plain name.
pub fn validate_relative_path(path: &str) -> (r: Result<(), ModelError>)
    ensures
        match r {
            Ok(_) => is_plain_relative(path@),
            Err(e) => !is_plain_relative(path@) && (e matches ModelError::UnsafePath(s) && s@
                == path@),
        },
{
    let p = chars_of(path);
    if p.len() > 0 && p[0] == '/' {
        return Err(ModelError::UnsafePath(string_of(&p)));
    }
    let ghost all = path_segments(p@, 0, 0);
    let ghost mut done: Seq<Seq<char>> = Seq::empty();
    let mut seg_start: usize = 0;
    let mut i: usize = 0;
    let mut seen: bool = false;
    assert(done + path_segments(p@, 0, 0) =~= all);
    while i < p.len()
        invariant
            p@ == path@,
            seg_start <= i <= p@.len(),
            all == path_segments(p@, 0, 0),
            all == done + path_segments(p@, i as int, seg_start as int),
            plain_segments(done),
            seen == (done.len() > 0),
        decreases p.len() - i,
    {
        if p[i] == '/' {
            if seg_start < i {
                let seg = crate::unicode::copy_range(&p, seg_start, i);
                if !segment_is_plain(&seg, !seen) {
                    proof {
                        let rest = path_segments(p@, i + 1, i + 1);
                        assert(all == done + (seq![seg@] + rest));
                        assert(all[done.len() as int] == seg@);
                    }
                    return Err(ModelError::UnsafePath(string_of(&p)));
                }
                proof {
                    let rest = path_segments(p@, i + 1, i + 1);
                    assert(done + (seq![seg@] + rest) =~= done.push(seg@) + rest);
                    done = done.push(seg@);
                }
                seen = true;
            }
            seg_start = i + 1;
        }
        i = i + 1;
    }
    if seg_start < p.len() {
        let seg = crate::unicode::copy_range(&p, seg_start, p.len());
        if !segment_is_plain(&seg, !seen) {
            assert(all == done + seq![seg@]);
            assert(all[done.len() as int] == seg@);
            return Err(ModelError::UnsafePath(string_of(&p)));
        }
        proof {
            done = done.push(seg@);
        }
    } else {
        assert(all =~= done);
    }
    assert(all =~= done);
    Ok(())
}

} // verus!
