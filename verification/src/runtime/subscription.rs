//! Subscription management: stored subscription metadata, and decoding and
//! parsing of subscription payloads.

use vstd::prelude::*;
use std::hash::{Hash, Hasher};
use vstd::utf8::{decode_utf8, encode_scalar, encode_utf8, is_ascii_chars, valid_utf8};
use crate::error::{AppError, ErrorView};
use crate::text::{
    chars_of, concat, is_whitespace, owned, push_range, remove_whitespace, starts_with,
    string_from_chars, trim, trim_exec, without_whitespace,
};
use crate::yaml::{
    emit_yaml, lemma_get_tags_nonempty, lemma_sequence_tags_nonempty, parse_yaml, tags_nonempty,
    yaml_as_sequence, yaml_emit, yaml_get, yaml_parse, yaml_str_at, yaml_u64_at, Yaml, YamlValue,
};

verus! {

// ── Base64 decoding ────────────────────────────────────────────────────────

/// The value of a base64 alphabet byte (`A-Z a-z 0-9 + /`).
pub open spec fn base64_digit(b: u8) -> Option<nat> {
    if 65 <= b <= 90 {
        Some((b - 65) as nat)
    } else if 97 <= b <= 122 {
        Some((b - 71) as nat)
    } else if 48 <= b <= 57 {
        Some((b + 4) as nat)
    } else if b == 43 {
        Some(62)
    } else if b == 47 {
        Some(63)
    } else {
        None
    }
}

/// A byte's value in a chunk: its digit, or 0 when it is not in the alphabet.
pub open spec fn digit_or_zero(b: u8) -> nat {
    match base64_digit(b) {
        Some(v) => v,
        None => 0,
    }
}

/// One more than the position of the last alphabet byte of a 4-byte chunk,
/// or 0 when it holds none.
pub open spec fn chunk_extent(c: Seq<u8>) -> nat {
    if base64_digit(c[3]) is Some {
        4
    } else if base64_digit(c[2]) is Some {
        3
    } else if base64_digit(c[1]) is Some {
        2
    } else if base64_digit(c[0]) is Some {
        1
    } else {
        0
    }
}

/// The bytes one 4-byte chunk decodes to: the 24 bits of its four values,
/// cut to one byte fewer than its extent.
pub open spec fn decode_chunk(c: Seq<u8>) -> Seq<u8> {
    let t0 = digit_or_zero(c[0]);
    let t1 = digit_or_zero(c[1]);
    let t2 = digit_or_zero(c[2]);
    let t3 = digit_or_zero(c[3]);
    let all = seq![
        (t0 * 4 + t1 / 16) as u8,
        ((t1 % 16) * 16 + t2 / 4) as u8,
        ((t2 % 4) * 64 + t3) as u8,
    ];
    let n = chunk_extent(c);
    if n == 0 {
        seq![]
    } else {
        all.take(n - 1)
    }
}

/// The concatenated decodings of the consecutive 4-byte chunks.
pub open spec fn decode_chunks(b: Seq<u8>) -> Seq<u8>
    decreases b.len(),
{
    if b.len() < 4 {
        seq![]
    } else {
        decode_chunk(b.take(4)) + decode_chunks(b.skip(4))
    }
}

/// The input without whitespace, as UTF-8, padded with `=` to a multiple of
/// four bytes.
pub open spec fn base64_padded(input: Seq<char>) -> Seq<u8> {
    let b = encode_utf8(remove_whitespace(input));
    b + Seq::new(((4 - b.len() % 4) % 4) as nat, |i: int| 61u8)
}

/// The bytes that `decode_base64` decodes `input` to.
pub open spec fn base64_bytes(input: Seq<char>) -> Seq<u8> {
    decode_chunks(base64_padded(input))
}

/// What `decode_base64` returns: the decoded text when the decoded bytes are
/// valid UTF-8.
pub open spec fn decode_base64_spec(input: Seq<char>) -> Option<Seq<char>> {
    if valid_utf8(base64_bytes(input)) {
        Some(decode_utf8(base64_bytes(input)))
    } else {
        None
    }
}

/// `String::from_utf8`: `Ok` exactly for valid UTF-8, holding the decoded text.
#[verifier::external_body]
fn string_from_utf8(bytes: Vec<u8>) -> (r: Option<String>)
    ensures
        r is Some <==> valid_utf8(bytes@),
        r matches Some(s) ==> s@ == decode_utf8(bytes@),
{
    String::from_utf8(bytes).ok()
}

/// The value of a base64 alphabet byte.
fn base64_digit_exec(b: u8) -> (r: Option<u8>)
    ensures
        r matches Some(v) ==> base64_digit(b) == Some(v as nat),
        r is None <==> base64_digit(b) is None,
{
    if 65 <= b && b <= 90 {
        Some(b - 65)
    } else if 97 <= b && b <= 122 {
        Some(b - 71)
    } else if 48 <= b && b <= 57 {
        Some(b + 4)
    } else if b == 43 {
        Some(62)
    } else if b == 47 {
        Some(63)
    } else {
        None
    }
}

/// Appends the decoding of the chunk `b[k..k + 4]`.
fn push_decoded_chunk(out: &mut Vec<u8>, b: &[u8], k: usize)
    requires
        k + 4 <= b@.len(),
    ensures
        final(out)@ == old(out)@ + decode_chunk(b@.subrange(k as int, k + 4)),
{
    let ghost c = b@.subrange(k as int, k + 4);
    let n = b.len();
    assert(n == b@.len());
    let mut tmp: [u32; 4] = [0, 0, 0, 0];
    let mut valid: usize = 0;
    let mut i: usize = 0;
    while i < 4
        invariant
            k + 4 <= b@.len(),
            b@.len() <= usize::MAX,
            c == b@.subrange(k as int, k + 4),
            i <= 4,
            forall|j: int| 0 <= j < i ==> tmp@[j] == digit_or_zero(#[trigger] c[j]),
            forall|j: int| 0 <= j < 4 ==> tmp@[j] <= 63,
            valid <= i,
            valid == 0 ==> forall|j: int| 0 <= j < i ==> base64_digit(#[trigger] c[j]) is None,
            valid > 0 ==> base64_digit(c[valid - 1]) is Some,
            forall|j: int| valid <= j < i ==> base64_digit(#[trigger] c[j]) is None,
        decreases 4 - i,
    {
        match base64_digit_exec(b[k + i]) {
            Some(v) => {
                tmp[i] = v as u32;
                valid = i + 1;
            },
            None => {
                tmp[i] = 0;
            },
        }
        i = i + 1;
    }
    let t0 = tmp[0];
    let t1 = tmp[1];
    let t2 = tmp[2];
    let t3 = tmp[3];
    let ghost start = out@;
    if valid > 1 {
        out.push((t0 * 4 + t1 / 16) as u8);
    }
    if valid > 2 {
        out.push(((t1 % 16) * 16 + t2 / 4) as u8);
    }
    if valid > 3 {
        out.push(((t2 % 4) * 64 + t3) as u8);
    }
    assert(chunk_extent(c) == valid);
    assert(out@ =~= start + decode_chunk(c));
}

/// UTF-8 encoding distributes over concatenation.
pub proof fn lemma_encode_utf8_concat(a: Seq<char>, b: Seq<char>)
    ensures
        encode_utf8(a + b) == encode_utf8(a) + encode_utf8(b),
    decreases a.len(),
{
    if a.len() == 0 {
        assert(a + b =~= b);
    } else {
        assert((a + b).drop_first() =~= a.drop_first() + b);
        lemma_encode_utf8_concat(a.drop_first(), b);
    }
}

/// Decode a base64-encoded string to UTF-8, ignoring whitespace and
/// tolerating missing padding. Bytes outside the alphabet count as zero bits.
pub fn decode_base64(input: &str) -> (r: Result<String, AppError>)
    ensures
        r matches Ok(s) ==> decode_base64_spec(input@) == Some(s@),
        r is Err <==> decode_base64_spec(input@) is None,
        r matches Err(e) ==> e@ == ErrorView::Other("base64 result is not valid UTF-8"@),
{
    let chars = chars_of(input);
    let clean = without_whitespace(chars.as_slice());
    let clean_text = string_from_chars(clean.as_slice());
    let bytes = clean_text.as_str().as_bytes();
    let mut padded: Vec<u8> = Vec::new();
    let mut i: usize = 0;
    while i < bytes.len()
        invariant
            i <= bytes@.len(),
            padded@ == bytes@.take(i as int),
        decreases bytes@.len() - i,
    {
        padded.push(bytes[i]);
        i = i + 1;
        assert(padded@ =~= bytes@.take(i as int));
    }
    assert(bytes@.take(i as int) =~= bytes@);
    let pad = (4 - bytes.len() % 4) % 4;
    let ghost unpadded = padded@;
    let mut j: usize = 0;
    while j < pad
        invariant
            j <= pad,
            pad < 4,
            padded@ == unpadded + Seq::new(j as nat, |x: int| 61u8),
        decreases pad - j,
    {
        padded.push(61u8);
        j = j + 1;
        assert(padded@ =~= unpadded + Seq::new(j as nat, |x: int| 61u8));
    }
    assert(padded@ =~= base64_padded(input@));
    assert(padded@.len() % 4 == 0);
    let mut out: Vec<u8> = Vec::new();
    let mut k: usize = 0;
    assert(padded@.skip(0) =~= padded@);
    assert(out@ + padded@ =~= padded@);
    while k < padded.len()
        invariant
            k <= padded@.len(),
            k % 4 == 0,
            padded@.len() % 4 == 0,
            out@ + decode_chunks(padded@.skip(k as int)) == decode_chunks(padded@),
        decreases padded@.len() - k,
    {
        let ghost rest = padded@.skip(k as int);
        assert(rest.take(4) =~= padded@.subrange(k as int, k + 4));
        assert(rest.skip(4) =~= padded@.skip(k + 4));
        push_decoded_chunk(&mut out, padded.as_slice(), k);
        assert(out@ + decode_chunks(padded@.skip(k + 4)) =~= decode_chunks(padded@));
        k = k + 4;
    }
    assert(padded@.skip(k as int).len() == 0);
    assert(out@ =~= out@ + decode_chunks(padded@.skip(k as int)));
    match string_from_utf8(out) {
        Some(s) => Ok(s),
        None => Err(AppError::Other("base64 result is not valid UTF-8".to_owned())),
    }
}

/// Removing whitespace twice is removing it once.
proof fn lemma_remove_whitespace_idempotent(s: Seq<char>)
    ensures
        remove_whitespace(remove_whitespace(s)) == remove_whitespace(s),
    decreases s.len(),
{
    if s.len() > 0 {
        lemma_remove_whitespace_idempotent(s.drop_last());
        let r = remove_whitespace(s.drop_last());
        if !is_whitespace(s.last()) {
            assert(r.push(s.last()).drop_last() =~= r);
        }
    }
}

/// A sequence without whitespace is left unchanged.
proof fn lemma_remove_whitespace_none(s: Seq<char>)
    requires
        forall|i: int| 0 <= i < s.len() ==> !is_whitespace(#[trigger] s[i]),
    ensures
        remove_whitespace(s) == s,
    decreases s.len(),
{
    if s.len() > 0 {
        lemma_remove_whitespace_none(s.drop_last());
        assert(s.drop_last().push(s.last()) =~= s);
    }
}

/// `k` padding characters encode to `k` bytes 61.
proof fn lemma_encode_padding(k: nat)
    ensures
        encode_utf8(Seq::new(k, |i: int| '=')) == Seq::new(k, |i: int| 61u8),
    decreases k,
{
    if k > 0 {
        let eqs = Seq::new(k, |i: int| '=');
        assert(eqs.drop_first() =~= Seq::new((k - 1) as nat, |i: int| '='));
        lemma_encode_padding((k - 1) as nat);
        assert(('=' as u32) == 61);
        assert((61u32 & 0x7F) as u8 == 61u8) by (bit_vector);
        assert(encode_scalar(eqs[0] as u32) =~= seq![61u8]);
        assert(encode_utf8(eqs) =~= Seq::new(k, |i: int| 61u8));
    }
}

/// Decoding ignores whitespace: decoding a text and decoding it with all
/// whitespace removed give the same result.
pub proof fn law_base64_ignores_whitespace(input: Seq<char>)
    ensures
        decode_base64_spec(input) == decode_base64_spec(remove_whitespace(input)),
{
    lemma_remove_whitespace_idempotent(input);
}

/// Decoding tolerates missing padding: a text without whitespace decodes to
/// the same result as the text completed with `=` to a multiple of four
/// bytes.
pub proof fn law_base64_padding_optional(input: Seq<char>)
    requires
        forall|i: int| 0 <= i < input.len() ==> !is_whitespace(#[trigger] input[i]),
    ensures
        decode_base64_spec(input) == decode_base64_spec(
            input + Seq::new(
                ((4 - encode_utf8(input).len() % 4) % 4) as nat,
                |i: int| '=',
            ),
        ),
{
    let k = ((4 - encode_utf8(input).len() % 4) % 4) as nat;
    let eqs = Seq::new(k, |i: int| '=');
    let ext = input + eqs;
    assert forall|i: int| 0 <= i < ext.len() implies !is_whitespace(#[trigger] ext[i]) by {
        if i >= input.len() {
            assert(ext[i] == '=');
        } else {
            assert(ext[i] == input[i]);
        }
    }
    lemma_remove_whitespace_none(input);
    lemma_remove_whitespace_none(ext);
    lemma_encode_utf8_concat(input, eqs);
    lemma_encode_padding(k);
    let b = encode_utf8(input);
    let eb = encode_utf8(ext);
    assert(eb.len() == b.len() + k);
    assert(eb.len() % 4 == 0) by {
        assert((b.len() + (4 - b.len() % 4) % 4) % 4 == 0) by (nonlinear_arith);
    }
    assert(base64_padded(ext) =~= eb);
    assert(base64_padded(input) =~= eb);
}

// ── Base64 encoding ────────────────────────────────────────────────────────

/// The alphabet byte of a 6-bit value (`A-Z a-z 0-9 + /`).
pub open spec fn base64_symbol(v: nat) -> u8 {
    if v < 26 {
        (65 + v) as u8
    } else if v < 52 {
        (71 + v) as u8
    } else if v < 62 {
        (v - 4) as u8
    } else if v == 62 {
        43u8
    } else {
        47u8
    }
}

/// RFC 4648 base64 of `d` as bytes: each three bytes as four symbols, the
/// last one or two bytes as two or three symbols padded with `=`.
pub open spec fn base64_encode_bytes(d: Seq<u8>) -> Seq<u8>
    decreases d.len(),
{
    if d.len() == 0 {
        seq![]
    } else if d.len() == 1 {
        seq![base64_symbol((d[0] / 4) as nat), base64_symbol(((d[0] % 4) * 16) as nat), 61u8, 61u8]
    } else if d.len() == 2 {
        seq![
            base64_symbol((d[0] / 4) as nat),
            base64_symbol(((d[0] % 4) * 16 + d[1] / 16) as nat),
            base64_symbol(((d[1] % 16) * 4) as nat),
            61u8,
        ]
    } else {
        seq![
            base64_symbol((d[0] / 4) as nat),
            base64_symbol(((d[0] % 4) * 16 + d[1] / 16) as nat),
            base64_symbol(((d[1] % 16) * 4 + d[2] / 64) as nat),
            base64_symbol((d[2] % 64) as nat),
        ] + base64_encode_bytes(d.skip(3))
    }
}

/// RFC 4648 base64 text of `d`, with `=` padding.
pub open spec fn base64_encode(d: Seq<u8>) -> Seq<char> {
    base64_encode_bytes(d).map_values(|b: u8| b as char)
}

/// A symbol decodes back to its value, and is an ASCII byte other than `=`.
proof fn lemma_base64_symbol(v: nat)
    requires
        v < 64,
    ensures
        base64_digit(base64_symbol(v)) == Some(v),
        base64_symbol(v) < 128,
        base64_symbol(v) != 61,
        base64_symbol(v) > 32,
{
}

/// The encoding is made of symbols and `=`, four bytes per started group
/// of three.
proof fn lemma_base64_encode_bytes_shape(d: Seq<u8>)
    ensures
        base64_encode_bytes(d).len() % 4 == 0,
        forall|i: int| 0 <= i < base64_encode_bytes(d).len()
            ==> 32 < #[trigger] base64_encode_bytes(d)[i] < 128,
    decreases d.len(),
{
    if d.len() > 0 {
        assert(d[0] / 4 < 64);
        assert((d[0] % 4) * 16 < 64);
        lemma_base64_symbol((d[0] / 4) as nat);
        lemma_base64_symbol(((d[0] % 4) * 16) as nat);
        if d.len() >= 2 {
            lemma_base64_symbol(((d[0] % 4) * 16 + d[1] / 16) as nat);
            lemma_base64_symbol(((d[1] % 16) * 4) as nat);
        }
        if d.len() >= 3 {
            lemma_base64_symbol(((d[1] % 16) * 4 + d[2] / 64) as nat);
            lemma_base64_symbol((d[2] % 64) as nat);
            lemma_base64_encode_bytes_shape(d.skip(3));
        }
    }
}

/// Decoding the chunks of an encoding gives the bytes back.
proof fn lemma_base64_decode_encode(d: Seq<u8>)
    ensures
        decode_chunks(base64_encode_bytes(d)) == d,
    decreases d.len(),
{
    let e = base64_encode_bytes(d);
    if d.len() == 0 {
        assert(decode_chunks(e) =~= d);
    } else {
        let a = d[0];
        lemma_base64_symbol((a / 4) as nat);
        assert(e.take(4).skip(4) =~= Seq::<u8>::empty());
        if d.len() == 1 {
            lemma_base64_symbol(((a % 4) * 16) as nat);
            assert(e.take(4) =~= e);
            assert(e.skip(4) =~= Seq::<u8>::empty());
            let t0 = digit_or_zero(e[0]);
            let t1 = digit_or_zero(e[1]);
            assert(((t0 * 4 + t1 / 16) as u8) == a) by (nonlinear_arith)
                requires t0 == a / 4, t1 == (a % 4) * 16;
            assert(base64_digit(e[3]) is None && base64_digit(e[2]) is None);
            assert(chunk_extent(e) == 2);
            assert(decode_chunk(e) =~= seq![a]);
            assert(decode_chunks(e.skip(4)) =~= Seq::<u8>::empty());
            assert(decode_chunks(e) == decode_chunk(e.take(4)) + decode_chunks(e.skip(4)));
            assert(decode_chunks(e) =~= d);
        } else if d.len() == 2 {
            let b = d[1];
            lemma_base64_symbol(((a % 4) * 16 + b / 16) as nat);
            lemma_base64_symbol(((b % 16) * 4) as nat);
            assert(e.take(4) =~= e);
            assert(e.skip(4) =~= Seq::<u8>::empty());
            let t0 = digit_or_zero(e[0]);
            let t1 = digit_or_zero(e[1]);
            let t2 = digit_or_zero(e[2]);
            assert(((t0 * 4 + t1 / 16) as u8) == a) by (nonlinear_arith)
                requires t0 == a / 4, t1 == (a % 4) * 16 + b / 16, b < 256;
            assert((((t1 % 16) * 16 + t2 / 4) as u8) == b) by (nonlinear_arith)
                requires t1 == (a % 4) * 16 + b / 16, t2 == (b % 16) * 4, a < 256, b < 256;
            assert(base64_digit(e[3]) is None);
            assert(chunk_extent(e) == 3);
            assert(decode_chunk(e) =~= seq![a, b]);
            assert(decode_chunks(e.skip(4)) =~= Seq::<u8>::empty());
            assert(decode_chunks(e) == decode_chunk(e.take(4)) + decode_chunks(e.skip(4)));
            assert(decode_chunks(e) =~= d);
        } else {
            let b = d[1];
            let c = d[2];
            lemma_base64_symbol(((a % 4) * 16 + b / 16) as nat);
            lemma_base64_symbol(((b % 16) * 4 + c / 64) as nat);
            lemma_base64_symbol((c % 64) as nat);
            let g = e.take(4);
            assert(e.skip(4) =~= base64_encode_bytes(d.skip(3)));
            lemma_base64_decode_encode(d.skip(3));
            let t0 = digit_or_zero(g[0]);
            let t1 = digit_or_zero(g[1]);
            let t2 = digit_or_zero(g[2]);
            let t3 = digit_or_zero(g[3]);
            assert(((t0 * 4 + t1 / 16) as u8) == a) by (nonlinear_arith)
                requires t0 == a / 4, t1 == (a % 4) * 16 + b / 16, b < 256;
            assert((((t1 % 16) * 16 + t2 / 4) as u8) == b) by (nonlinear_arith)
                requires t1 == (a % 4) * 16 + b / 16, t2 == (b % 16) * 4 + c / 64, a < 256, b < 256, c < 256;
            assert((((t2 % 4) * 64 + t3) as u8) == c) by (nonlinear_arith)
                requires t2 == (b % 16) * 4 + c / 64, t3 == c % 64, b < 256, c < 256;
            assert(decode_chunk(g) =~= d.take(3));
            assert(d =~= d.take(3) + d.skip(3));
        }
    }
}

/// The length of an encoding, and its `=` padding: two for a last group
/// of one byte, one for a last group of two.
proof fn lemma_base64_encode_tail(d: Seq<u8>)
    ensures
        base64_encode_bytes(d).len() == 4 * ((d.len() + 2) / 3),
        d.len() % 3 == 1 ==> base64_encode_bytes(d)[base64_encode_bytes(d).len() - 1] == 61u8
            && base64_encode_bytes(d)[base64_encode_bytes(d).len() - 2] == 61u8,
        d.len() % 3 == 2 ==> base64_encode_bytes(d)[base64_encode_bytes(d).len() - 1] == 61u8,
    decreases d.len(),
{
    let n = d.len();
    let e = base64_encode_bytes(d);
    if n >= 3 {
        let rest = d.skip(3);
        lemma_base64_encode_tail(rest);
        let r = base64_encode_bytes(rest);
        assert(e =~= e.take(4) + r);
        assert(rest.len() == n - 3);
        assert((n + 2) / 3 == (n - 1) / 3 + 1) by (nonlinear_arith)
            requires n >= 3;
        assert(rest.len() % 3 == n % 3) by (nonlinear_arith)
            requires rest.len() == n - 3, n >= 3;
        if n % 3 != 0 {
            assert(r.len() >= 4) by (nonlinear_arith)
                requires r.len() == 4 * ((rest.len() + 2) / 3), rest.len() % 3 != 0;
            assert(e[e.len() - 1] == r[r.len() - 1]);
            assert(e[e.len() - 2] == r[r.len() - 2]);
        }
    }
}

/// The base64 text of `d` without its `=` padding.
pub open spec fn base64_unpadded(d: Seq<u8>) -> Seq<char> {
    base64_encode(d).take(base64_encode(d).len() - (3 - d.len() % 3) % 3)
}

/// ASCII bytes read as characters encode back to themselves.
proof fn lemma_ascii_bytes_encode(b: Seq<u8>)
    requires
        forall|i: int| 0 <= i < b.len() ==> #[trigger] b[i] < 128,
    ensures
        encode_utf8(b.map_values(|x: u8| x as char)) == b,
{
    let c = b.map_values(|x: u8| x as char);
    assert(is_ascii_chars(c));
    vstd::utf8::is_ascii_chars_encode_utf8(c);
    assert(encode_utf8(c) =~= b);
}

/// Decoding undoes encoding: the base64 text of a string's UTF-8 bytes
/// decodes to the string.
pub proof fn law_base64_round_trip(s: Seq<char>)
    ensures
        decode_base64_spec(base64_encode(encode_utf8(s))) == Some(s),
{
    let d = encode_utf8(s);
    let e = base64_encode(d);
    let eb = base64_encode_bytes(d);
    lemma_base64_encode_bytes_shape(d);
    assert forall|i: int| 0 <= i < e.len() implies !is_whitespace(#[trigger] e[i]) by {
        assert(32 < eb[i] < 128);
    }
    lemma_remove_whitespace_none(e);
    lemma_ascii_bytes_encode(eb);
    assert(base64_padded(e) =~= eb);
    lemma_base64_decode_encode(d);
    vstd::utf8::encode_utf8_valid_utf8(s);
    vstd::utf8::encode_utf8_decode_utf8(s);
}

/// The unpadded base64 text of a string's UTF-8 bytes, with whitespace
/// put anywhere in it, decodes to the string.
pub proof fn law_base64_unpadded_round_trip(s: Seq<char>, t: Seq<char>)
    requires
        remove_whitespace(t) == base64_unpadded(encode_utf8(s)),
    ensures
        decode_base64_spec(t) == Some(s),
{
    let d = encode_utf8(s);
    let eb = base64_encode_bytes(d);
    let e = base64_encode(d);
    let p = ((3 - d.len() % 3) % 3) as nat;
    let u = base64_unpadded(d);
    lemma_base64_encode_bytes_shape(d);
    lemma_base64_encode_tail(d);
    law_base64_ignores_whitespace(t);
    assert forall|i: int| 0 <= i < u.len() implies !is_whitespace(#[trigger] u[i]) by {
        assert(u[i] == e[i]);
        assert(32 < eb[i] < 128);
    }
    law_base64_padding_optional(u);
    lemma_ascii_bytes_encode(eb.take(u.len() as int));
    assert(u =~= eb.take(u.len() as int).map_values(|x: u8| x as char));
    assert(encode_utf8(u).len() == u.len());
    assert(((4 - u.len() % 4) % 4) as nat == p) by {
        assert(e.len() % 4 == 0);
    }
    assert(u + Seq::new(p, |i: int| '=') =~= e) by {
        assert forall|i: int| u.len() <= i < e.len() implies e[i] == '=' by {
            assert(eb[i] == 61u8);
        }
    }
    law_base64_round_trip(s);
}


// ── Proxy nodes ────────────────────────────────────────────────────────────

/// A parsed proxy node extracted from a subscription.
#[derive(Debug)]
pub struct ProxyNode {
    /// Node name from the subscription.
    pub name: String,
    /// Proxy type (ss, vmess, vless, trojan, etc.).
    pub proxy_type: String,
    /// Server address.
    pub server: String,
    /// Server port.
    pub port: u16,
    /// Raw text of this proxy entry.
    pub raw: String,
}

/// A proxy node with its texts as character sequences.
pub struct ProxyNodeView {
    pub name: Seq<char>,
    pub proxy_type: Seq<char>,
    pub server: Seq<char>,
    pub port: u16,
    pub raw: Seq<char>,
}

impl View for ProxyNode {
    type V = ProxyNodeView;

    open spec fn view(&self) -> ProxyNodeView {
        ProxyNodeView {
            name: self.name@,
            proxy_type: self.proxy_type@,
            server: self.server@,
            port: self.port,
            raw: self.raw@,
        }
    }
}

/// The views of a list of nodes.
pub open spec fn node_views(nodes: Seq<ProxyNode>) -> Seq<ProxyNodeView> {
    nodes.map_values(|n: ProxyNode| n@)
}

/// The text, or a default when there is none.
pub open spec fn text_or(o: Option<Seq<char>>, d: Seq<char>) -> Seq<char> {
    match o {
        Some(t) => t,
        None => d,
    }
}

/// The node a YAML proxy entry describes, with `raw` the entry's YAML text
/// if it could be emitted. A port beyond `u16` keeps its low 16 bits, as the
/// `as u16` conversion does.
pub open spec fn node_of(item: YamlValue, raw: Option<Seq<char>>) -> ProxyNodeView {
    ProxyNodeView {
        name: text_or(yaml_str_at(item, "name"@), "unknown"@),
        proxy_type: text_or(yaml_str_at(item, "type"@), "unknown"@),
        server: text_or(yaml_str_at(item, "server"@), ""@),
        port: (match yaml_u64_at(item, "port"@) {
            Some(n) => n,
            None => 0u64,
        }) as u16,
        raw: text_or(raw, ""@),
    }
}

/// The nodes of a YAML `proxies` list, each with its emitted YAML text.
pub open spec fn yaml_nodes(items: Seq<YamlValue>) -> Seq<ProxyNodeView> {
    items.map_values(|it: YamlValue| node_of(it, yaml_emit(it)))
}

/// The `proxies` list of a parsed document, when it has one.
pub open spec fn proxies_list(doc: YamlValue) -> Option<Seq<YamlValue>> {
    match yaml_get(doc, "proxies"@) {
        Some(p) => yaml_as_sequence(p),
        None => None,
    }
}

/// The nodes of a YAML subscription: `None` when the text is not YAML or
/// has no `proxies` list.
pub open spec fn yaml_proxies_of(text: Seq<char>) -> Option<Seq<ProxyNodeView>> {
    match yaml_parse(text) {
        Some(doc) => match proxies_list(doc) {
            Some(items) => Some(yaml_nodes(items)),
            None => None,
        },
        None => None,
    }
}

/// The node a YAML proxy entry describes, given the entry's emitted text.
pub fn node_from_entry(item: &Yaml, raw: Option<String>) -> (n: ProxyNode)
    ensures
        n@ == node_of(item@, match raw { Some(t) => Some(t@), None => None }),
{
    let name = match item.str_at("name") {
        Some(s) => owned(s),
        None => owned("unknown"),
    };
    let proxy_type = match item.str_at("type") {
        Some(s) => owned(s),
        None => owned("unknown"),
    };
    let server = match item.str_at("server") {
        Some(s) => owned(s),
        None => owned(""),
    };
    let port_value: u64 = match item.u64_at("port") {
        Some(p) => p,
        None => 0,
    };
    let port = port_value as u16;
    let raw_text = match raw {
        Some(t) => t,
        None => owned(""),
    };
    ProxyNode { name, proxy_type, server, port, raw: raw_text }
}

/// The nodes of a parsed subscription document.
pub fn nodes_from_document(doc: &Yaml) -> (r: Result<Vec<ProxyNode>, AppError>)
    requires
        tags_nonempty(doc@),
    ensures
        r is Ok <==> proxies_list(doc@) is Some,
        r matches Ok(nodes) ==> node_views(nodes@) == yaml_nodes(proxies_list(doc@)->0),
        r matches Err(e) ==> e@ == ErrorView::Other("no 'proxies' key found in YAML"@),
{
    let proxies = match doc.get("proxies") {
        Some(p) => p,
        None => {
            return Err(AppError::Other(owned("no 'proxies' key found in YAML")));
        },
    };
    proof {
        lemma_get_tags_nonempty(doc@, "proxies"@);
        lemma_sequence_tags_nonempty(proxies@);
    }
    let items = match proxies.as_sequence() {
        Some(items) => items,
        None => {
            return Err(AppError::Other(owned("no 'proxies' key found in YAML")));
        },
    };
    let ghost list = proxies_list(doc@)->0;
    assert(list == items@.map_values(|x: Yaml| x@));
    let mut nodes: Vec<ProxyNode> = Vec::new();
    let n = items.len();
    let mut i: usize = 0;
    while i < n
        invariant
            n == items@.len(),
            i <= n,
            list == items@.map_values(|x: Yaml| x@),
            forall|j: int| 0 <= j < list.len() ==> tags_nonempty(#[trigger] list[j]),
            node_views(nodes@) == yaml_nodes(list.take(i as int)),
        decreases n - i,
    {
        let item = &items[i];
        assert(list[i as int] == item@);
        let raw = emit_yaml(item);
        let ghost rv = match &raw {
            Some(t) => Some(t@),
            None => None,
        };
        assert(rv == yaml_emit(item@));
        let node = node_from_entry(item, raw);
        let ghost old_nodes = nodes@;
        nodes.push(node);
        proof {
            assert(node_views(nodes@) =~= node_views(old_nodes).push(node@));
            assert(yaml_nodes(list.take(i + 1)) =~= yaml_nodes(list.take(i as int)).push(
                node_of(list[i as int], yaml_emit(list[i as int])),
            ));
        }
        i = i + 1;
    }
    assert(list.take(i as int) =~= list);
    Ok(nodes)
}

/// Parse YAML subscription content (a `proxies:` list).
pub fn parse_yaml_proxies(content: &str) -> (r: Result<Vec<ProxyNode>, AppError>)
    ensures
        r is Ok <==> yaml_proxies_of(content@) is Some,
        r matches Ok(nodes) ==> Some(node_views(nodes@)) == yaml_proxies_of(content@),
        r matches Err(e) ==> (yaml_parse(content@) is None ==> e@ == ErrorView::Other("YAML parse failed"@))
            && (yaml_parse(content@) is Some ==> e@ == ErrorView::Other("no 'proxies' key found in YAML"@)),
{
    match parse_yaml(content) {
        Ok(doc) => nodes_from_document(&doc),
        Err(_) => Err(AppError::Other(owned("YAML parse failed"))),
    }
}

/// The lines of a text, split at `\n`.
pub open spec fn split_lines(s: Seq<char>) -> Seq<Seq<char>>
    decreases s.len(),
{
    if s.len() == 0 {
        seq![seq![]]
    } else {
        let rest = split_lines(s.drop_last());
        if s.last() == '\n' {
            rest.push(seq![])
        } else {
            rest.update(rest.len() - 1, rest.last().push(s.last()))
        }
    }
}

/// The node a proxy URI line describes, by its scheme.
pub open spec fn uri_node(line: Seq<char>) -> Option<ProxyNodeView> {
    if starts_with(line, "ss://"@) {
        Some(ProxyNodeView { name: "ss-node"@, proxy_type: "ss"@, server: seq![], port: 0, raw: line })
    } else if starts_with(line, "vmess://"@) {
        Some(ProxyNodeView { name: "vmess-node"@, proxy_type: "vmess"@, server: seq![], port: 0, raw: line })
    } else if starts_with(line, "vless://"@) {
        Some(ProxyNodeView { name: "vless-node"@, proxy_type: "vless"@, server: seq![], port: 0, raw: line })
    } else if starts_with(line, "trojan://"@) {
        Some(ProxyNodeView { name: "trojan-node"@, proxy_type: "trojan"@, server: seq![], port: 0, raw: line })
    } else {
        None
    }
}

/// The nodes of a list of lines: each trimmed line that is a proxy URI.
/// (Blank lines, among them the one after a final newline, give none.)
pub open spec fn uri_nodes(lines: Seq<Seq<char>>) -> Seq<ProxyNodeView>
    decreases lines.len(),
{
    if lines.len() == 0 {
        seq![]
    } else {
        let rest = uri_nodes(lines.drop_last());
        match uri_node(trim(lines.last())) {
            Some(n) => rest.push(n),
            None => rest,
        }
    }
}

/// The node a trimmed proxy URI line describes.
fn uri_node_exec(line: &str) -> (r: Option<ProxyNode>)
    ensures
        r matches Some(n) ==> uri_node(line@) == Some(n@),
        r is None <==> uri_node(line@) is None,
{
    if crate::text::str_starts_with(line, "ss://") {
        Some(ProxyNode { name: owned("ss-node"), proxy_type: owned("ss"), server: String::new(), port: 0, raw: owned(line) })
    } else if crate::text::str_starts_with(line, "vmess://") {
        Some(ProxyNode { name: owned("vmess-node"), proxy_type: owned("vmess"), server: String::new(), port: 0, raw: owned(line) })
    } else if crate::text::str_starts_with(line, "vless://") {
        Some(ProxyNode { name: owned("vless-node"), proxy_type: owned("vless"), server: String::new(), port: 0, raw: owned(line) })
    } else if crate::text::str_starts_with(line, "trojan://") {
        Some(ProxyNode { name: owned("trojan-node"), proxy_type: owned("trojan"), server: String::new(), port: 0, raw: owned(line) })
    } else {
        None
    }
}

/// Parse a newline-separated list of proxy URIs (`ss://`, `vmess://`,
/// `vless://`, `trojan://`); other lines are skipped.
pub fn parse_uri_list(content: &str) -> (r: Result<Vec<ProxyNode>, AppError>)
    ensures
        r matches Ok(nodes) && node_views(nodes@) == uri_nodes(split_lines(content@)),
{
    let c = chars_of(content);
    let n = c.len();
    let mut nodes: Vec<ProxyNode> = Vec::new();
    let mut start: usize = 0;
    let mut i: usize = 0;
    assert(content@.take(0) =~= Seq::<char>::empty());
    assert(content@.subrange(0, 0) =~= Seq::<char>::empty());
    assert(split_lines(content@.take(0)).drop_last() =~= Seq::<Seq<char>>::empty());
    assert(split_lines(content@.take(0)) =~= split_lines(content@.take(0)).drop_last().push(content@.subrange(0, 0)));
    while i < n
        invariant
            n == c@.len(),
            c@ == content@,
            start <= i <= n,
            split_lines(content@.take(i as int)) == split_lines(content@.take(start as int)).drop_last()
                .push(content@.subrange(start as int, i as int)),
            node_views(nodes@) == uri_nodes(split_lines(content@.take(start as int)).drop_last()),
            start == 0 || content@[start - 1] == '\n',
        decreases n - i,
    {
        proof {
            assert(content@.take(i + 1).drop_last() =~= content@.take(i as int));
            assert(content@.take(i + 1).last() == c@[i as int]);
        }
        if c[i] == '\n' {
            let mut line: Vec<char> = Vec::new();
            push_range(&mut line, c.as_slice(), start, i);
            let t = trim_exec(line.as_slice());
            let ts = string_from_chars(t.as_slice());
            let ghost lines_before = split_lines(content@.take(start as int)).drop_last();
            match uri_node_exec(ts.as_str()) {
                Some(node) => { nodes.push(node); },
                None => {},
            }
            proof {
                let full = lines_before.push(content@.subrange(start as int, i as int));
                assert(full.drop_last() =~= lines_before);
                assert(full.last() == line@);
                assert(split_lines(content@.take(i + 1)) == full.push(seq![]));
                assert(split_lines(content@.take(i + 1)).drop_last() =~= full);
                assert(node_views(nodes@) =~= uri_nodes(full));
                assert(content@.subrange(i + 1, i + 1) =~= Seq::<char>::empty());
                assert(full.push(seq![]).drop_last() =~= full);
            }
            start = i + 1;
        } else {
            proof {
                let lines_before = split_lines(content@.take(start as int)).drop_last();
                let cur = content@.subrange(start as int, i as int);
                let rest = lines_before.push(cur);
                assert(cur.push(c@[i as int]) =~= content@.subrange(start as int, i + 1));
                assert(rest.update(rest.len() - 1, rest.last().push(c@[i as int])) =~= lines_before.push(
                    content@.subrange(start as int, i + 1)));
            }
        }
        i = i + 1;
    }
    // The last line.
    let mut line: Vec<char> = Vec::new();
    push_range(&mut line, c.as_slice(), start, n);
    let t = trim_exec(line.as_slice());
    let ts = string_from_chars(t.as_slice());
    let ghost lines_before = split_lines(content@.take(start as int)).drop_last();
    match uri_node_exec(ts.as_str()) {
        Some(node) => { nodes.push(node); },
        None => {},
    }
    proof {
        assert(content@.take(n as int) =~= content@);
        let full = lines_before.push(content@.subrange(start as int, n as int));
        assert(full.drop_last() =~= lines_before);
        assert(node_views(nodes@) =~= uri_nodes(full));
    }
    Ok(nodes)
}

/// What parsing a subscription body gives: its proxies as YAML; else, when
/// it is base64, the proxies of the decoded YAML or else the decoded proxy
/// URI lines; else nothing.
pub open spec fn subscription_nodes(raw: Seq<char>) -> Option<Seq<ProxyNodeView>> {
    let t = trim(raw);
    match yaml_proxies_of(t) {
        Some(nodes) => Some(nodes),
        None => match decode_base64_spec(t) {
            Some(decoded) => match yaml_proxies_of(decoded) {
                Some(nodes) => Some(nodes),
                None => Some(uri_nodes(split_lines(decoded))),
            },
            None => None,
        },
    }
}

/// Parse a subscription response body into proxy nodes: YAML first, then
/// base64-decoded YAML, then base64-decoded proxy URI lines.
pub fn parse_subscription(raw: &str) -> (r: Result<Vec<ProxyNode>, AppError>)
    ensures
        r is Ok <==> subscription_nodes(raw@) is Some,
        r matches Ok(nodes) ==> Some(node_views(nodes@)) == subscription_nodes(raw@),
        r matches Err(e) ==> e@ == ErrorView::Other(
            "unable to parse subscription: not valid YAML or base64-encoded content"@),
{
    let c = chars_of(raw);
    let t = trim_exec(c.as_slice());
    let trimmed = string_from_chars(t.as_slice());
    if let Ok(nodes) = parse_yaml_proxies(trimmed.as_str()) {
        return Ok(nodes);
    }
    if let Ok(decoded) = decode_base64(trimmed.as_str()) {
        if let Ok(nodes) = parse_yaml_proxies(decoded.as_str()) {
            return Ok(nodes);
        }
        return parse_uri_list(decoded.as_str());
    }
    Err(AppError::Other(owned("unable to parse subscription: not valid YAML or base64-encoded content")))
}


// ── Subscription metadata ──────────────────────────────────────────────────

/// A point in time: whole seconds since the Unix epoch and nanoseconds
/// within the second.
#[derive(Debug, Clone, Copy, PartialEq, Eq, Structural)]
pub struct Timestamp {
    pub secs: i64,
    pub nanos: u32,
}

/// The default of a subscription's `enabled` flag when the store omits it.
pub fn default_true() -> (r: bool)
    ensures
        r,
{
    true
}

/// Metadata for a single subscription.
#[derive(Debug)]
pub struct Subscription {
    /// Unique identifier (derived from the URL's hash).
    pub id: String,
    /// User-visible name.
    pub name: String,
    /// Subscription URL.
    pub url: String,
    /// Optional update interval in seconds.
    pub interval: Option<u64>,
    /// Last successful update time (UTC).
    pub last_update: Option<Timestamp>,
    /// Whether this subscription is currently active / enabled.
    pub enabled: bool,
}

/// A subscription with its texts as character sequences.
pub struct SubscriptionView {
    pub id: Seq<char>,
    pub name: Seq<char>,
    pub url: Seq<char>,
    pub interval: Option<u64>,
    pub last_update: Option<Timestamp>,
    pub enabled: bool,
}

impl View for Subscription {
    type V = SubscriptionView;

    open spec fn view(&self) -> SubscriptionView {
        SubscriptionView {
            id: self.id@,
            name: self.name@,
            url: self.url@,
            interval: self.interval,
            last_update: self.last_update,
            enabled: self.enabled,
        }
    }
}

/// The persisted subscription store.
#[derive(Debug)]
pub struct SubscriptionStore {
    pub subscriptions: Vec<Subscription>,
}

impl SubscriptionStore {
    /// An empty store.
    pub fn new() -> (s: Self)
        ensures
            s.subscriptions@.len() == 0,
    {
        SubscriptionStore { subscriptions: Vec::new() }
    }
}

/// The views of a list of subscriptions.
pub open spec fn sub_views(s: Seq<Subscription>) -> Seq<SubscriptionView> {
    s.map_values(|x: Subscription| x@)
}

/// The hash `DefaultHasher::new()` gives a URL (as `str`'s `Hash` feeds it).
pub uninterp spec fn url_hash(url: Seq<char>) -> u64;

/// `std::collections::hash_map::DefaultHasher::new()`, fed the URL by its
/// `Hash` impl, then `finish`. The hasher starts from fixed keys, so the
/// result is a function of the URL alone; it is named, not restated.
#[verifier::external_body]
fn hash_url(url: &str) -> (h: u64)
    ensures
        h == url_hash(url@),
{
    let mut hasher = std::collections::hash_map::DefaultHasher::new();
    url.hash(&mut hasher);
    hasher.finish()
}

/// A lowercase hexadecimal digit.
pub open spec fn hex_digit(d: nat) -> char {
    if d < 10 { (48 + d) as char } else { (87 + d) as char }
}

/// The last `width` hexadecimal digits of `n`, zero-padded (`{:0width$x}`
/// for a number below `16^width`).
pub open spec fn hex_fixed(n: nat, width: nat) -> Seq<char>
    decreases width,
{
    if width == 0 {
        seq![]
    } else {
        hex_fixed(n / 16, (width - 1) as nat).push(hex_digit(n % 16))
    }
}

/// The identifier of a URL: its hash as 16 lowercase hex digits.
pub open spec fn id_text(url: Seq<char>) -> Seq<char> {
    hex_fixed(url_hash(url) as nat, 16)
}

/// Appends the last `width` hex digits of `n`.
fn push_hex(out: &mut Vec<char>, n: u64, width: usize)
    ensures
        final(out)@ == old(out)@ + hex_fixed(n as nat, width as nat),
    decreases width,
{
    if width > 0 {
        push_hex(out, n / 16, width - 1);
        let d = (n % 16) as u8;
        let c = if d < 10 { (48u8 + d) as char } else { (87u8 + d) as char };
        out.push(c);
    }
}

/// The identifier text of a hash: 16 lowercase hex digits (`{:016x}`).
pub fn id_from_hash(h: u64) -> (r: String)
    ensures
        r@ == hex_fixed(h as nat, 16),
{
    let mut out: Vec<char> = Vec::new();
    push_hex(&mut out, h, 16);
    assert(out@ =~= hex_fixed(h as nat, 16));
    string_from_chars(out.as_slice())
}

/// Generate a short ID from a URL for use as a subscription identifier.
pub fn generate_id(url: &str) -> (r: String)
    ensures
        r@ == id_text(url@),
{
    id_from_hash(hash_url(url))
}

/// Some subscription has the URL.
pub open spec fn has_url(subs: Seq<SubscriptionView>, url: Seq<char>) -> bool {
    exists|i: int| 0 <= i < subs.len() && (#[trigger] subs[i]).url == url
}

/// `i` is the first subscription with the id.
pub open spec fn is_first_with_id(subs: Seq<SubscriptionView>, id: Seq<char>, i: int) -> bool {
    0 <= i < subs.len() && subs[i].id == id && forall|j: int| 0 <= j < i ==> (#[trigger] subs[j]).id != id
}

/// No subscription has the id.
pub open spec fn no_id(subs: Seq<SubscriptionView>, id: Seq<char>) -> bool {
    forall|j: int| 0 <= j < subs.len() ==> (#[trigger] subs[j]).id != id
}

/// The subscription that adding `url` creates.
pub open spec fn new_subscription(name: Seq<char>, url: Seq<char>, interval: Option<u64>) -> SubscriptionView {
    SubscriptionView { id: id_text(url), name, url, interval, last_update: None, enabled: true }
}

/// The subscriptions without those with the id, in order.
pub open spec fn without_id(subs: Seq<SubscriptionView>, id: Seq<char>) -> Seq<SubscriptionView>
    decreases subs.len(),
{
    if subs.len() == 0 {
        seq![]
    } else if subs.last().id == id {
        without_id(subs.drop_last(), id)
    } else {
        without_id(subs.drop_last(), id).push(subs.last())
    }
}

/// A subscription after `update`.
pub open spec fn updated(
    s: SubscriptionView,
    name: Option<Seq<char>>,
    url: Option<Seq<char>>,
    interval: Option<Option<u64>>,
) -> SubscriptionView {
    SubscriptionView {
        name: match name { Some(n) => n, None => s.name },
        url: match url { Some(u) => u, None => s.url },
        interval: match interval { Some(i) => i, None => s.interval },
        ..s
    }
}

/// The text of an optional `String`.
pub open spec fn opt_view(o: Option<String>) -> Option<Seq<char>> {
    match o {
        Some(s) => Some(s@),
        None => None,
    }
}

/// Manages proxy subscriptions in memory; the caller loads and saves the
/// store file and fetches subscription URLs.
#[derive(Debug)]
pub struct SubscriptionManager {
    store_path: String,
    store: SubscriptionStore,
}

impl SubscriptionManager {
    /// The subscriptions, in order.
    pub closed spec fn subs(&self) -> Seq<SubscriptionView> {
        sub_views(self.store.subscriptions@)
    }

    /// The store file's path.
    pub closed spec fn path(&self) -> Seq<char> {
        self.store_path@
    }

    /// A manager for the store at `store_path`, holding `store` (the
    /// store read from that file, or an empty one when there is none).
    pub fn new(store_path: &str, store: SubscriptionStore) -> (m: Self)
        ensures
            m.path() == store_path@,
            m.subs() == sub_views(store.subscriptions@),
    {
        SubscriptionManager { store_path: owned(store_path), store }
    }

    /// The store file's path.
    pub fn store_path(&self) -> (r: &str)
        ensures
            r@ == self.path(),
    {
        self.store_path.as_str()
    }

    /// The store, for saving.
    pub fn store(&self) -> (r: &SubscriptionStore)
        ensures
            sub_views(r.subscriptions@) == self.subs(),
    {
        &self.store
    }

    /// The first subscription with the id.
    fn find_index(&self, id: &str) -> (r: Option<usize>)
        ensures
            r matches Some(i) ==> is_first_with_id(self.subs(), id@, i as int),
            r is None ==> no_id(self.subs(), id@),
    {
        let n = self.store.subscriptions.len();
        let mut i: usize = 0;
        while i < n
            invariant
                n == self.store.subscriptions@.len(),
                i <= n,
                forall|j: int| 0 <= j < i ==> (#[trigger] self.subs()[j]).id != id@,
            decreases n - i,
        {
            assert(self.subs()[i as int] == self.store.subscriptions@[i as int]@);
            if crate::text::str_eq(self.store.subscriptions[i].id.as_str(), id) {
                return Some(i);
            }
            i = i + 1;
        }
        None
    }

    /// Add a new subscription; returns its id. A URL already present is
    /// refused.
    pub fn add(&mut self, name: String, url: String, interval: Option<u64>) -> (r: Result<String, AppError>)
        ensures
            r is Err <==> has_url(old(self).subs(), url@),
            r matches Ok(id) ==> id@ == id_text(url@) && final(self).subs() == old(self).subs().push(
                new_subscription(name@, url@, interval),
            ),
            r matches Err(e) ==> e@ == ErrorView::Other("subscription with this URL already exists"@)
                && final(self).subs() == old(self).subs(),
            final(self).path() == old(self).path(),
    {
        let n = self.store.subscriptions.len();
        let mut i: usize = 0;
        while i < n
            invariant
                n == self.store.subscriptions@.len(),
                i <= n,
                forall|j: int| 0 <= j < i ==> (#[trigger] self.subs()[j]).url != url@,
            decreases n - i,
        {
            assert(self.subs()[i as int] == self.store.subscriptions@[i as int]@);
            if crate::text::str_eq(self.store.subscriptions[i].url.as_str(), url.as_str()) {
                return Err(AppError::Other(owned("subscription with this URL already exists")));
            }
            i = i + 1;
        }
        let id = generate_id(url.as_str());
        let ret = owned(id.as_str());
        let sub = Subscription { id, name, url, interval, last_update: None, enabled: true };
        let ghost before = self.store.subscriptions@;
        self.store.subscriptions.push(sub);
        assert(sub_views(self.store.subscriptions@) =~= sub_views(before).push(sub@));
        Ok(ret)
    }

    /// Remove every subscription with the id; an id that no subscription
    /// has is an error.
    pub fn remove(&mut self, id: &str) -> (r: Result<(), AppError>)
        ensures
            r is Err <==> no_id(old(self).subs(), id@),
            final(self).subs() == without_id(old(self).subs(), id@),
            r matches Err(e) ==> e@ == ErrorView::Other("subscription not found: "@ + id@),
            final(self).path() == old(self).path(),
    {
        let ghost orig = self.store.subscriptions@;
        let mut subs = Vec::new();
        std::mem::swap(&mut subs, &mut self.store.subscriptions);
        let n = subs.len();
        let mut rev = crate::sorting::reversed(subs);
        let mut kept: Vec<Subscription> = Vec::new();
        let mut k: usize = 0;
        let mut removed = false;
        assert(orig.take(0) =~= Seq::<Subscription>::empty());
        assert(orig.skip(0) =~= orig);
        while k < n
            invariant
                n == orig.len(),
                k <= n,
                rev@ == orig.skip(k as int).reverse(),
                sub_views(kept@) == without_id(sub_views(orig.take(k as int)), id@),
                removed <==> !no_id(sub_views(orig.take(k as int)), id@),
            decreases n - k,
        {
            let ghost rv = rev@;
            let s = rev.pop().unwrap();
            proof {
                assert(rv.last() == orig[k as int]);
                assert(rev@ =~= orig.skip(k + 1).reverse());
                assert(sub_views(orig.take(k + 1)).drop_last() =~= sub_views(orig.take(k as int)));
                assert(sub_views(orig.take(k + 1)).last() == s@);
            }
            if crate::text::str_eq(s.id.as_str(), id) {
                removed = true;
                proof {
                    let t = sub_views(orig.take(k + 1));
                    assert(t[k as int].id == id@);
                }
            } else {
                let ghost kb = kept@;
                kept.push(s);
                proof {
                    assert(sub_views(kept@) =~= sub_views(kb).push(s@));
                    let t = sub_views(orig.take(k + 1));
                    if removed {
                        let j = choose|j: int| 0 <= j < sub_views(orig.take(k as int)).len()
                            && (#[trigger] sub_views(orig.take(k as int))[j]).id == id@;
                        assert(t[j] == sub_views(orig.take(k as int))[j]);
                    } else {
                        assert forall|j: int| 0 <= j < t.len() implies (#[trigger] t[j]).id != id@ by {
                            if j < k {
                                assert(t[j] == sub_views(orig.take(k as int))[j]);
                            }
                        }
                    }
                }
            }
            proof {
                let t = sub_views(orig.take(k + 1));
                let t0 = sub_views(orig.take(k as int));
                if removed && !(t[k as int].id == id@) {
                    let j = choose|j: int| 0 <= j < t0.len() && (#[trigger] t0[j]).id == id@;
                    assert(t[j] == t0[j]);
                }
                if !removed {
                    assert forall|j: int| 0 <= j < t.len() implies (#[trigger] t[j]).id != id@ by {
                        if j < k {
                            assert(t[j] == t0[j]);
                        }
                    }
                }
            }
            k = k + 1;
        }
        assert(orig.take(n as int) =~= orig);
        self.store.subscriptions = kept;
        if removed {
            Ok(())
        } else {
            Err(AppError::Other(concat("subscription not found: ", id)))
        }
    }

    /// Update the name, URL, or interval of the first subscription with
    /// the id.
    pub fn update(
        &mut self,
        id: &str,
        name: Option<String>,
        url: Option<String>,
        interval: Option<Option<u64>>,
    ) -> (r: Result<(), AppError>)
        ensures
            r is Err <==> no_id(old(self).subs(), id@),
            r matches Err(e) ==> e@ == ErrorView::Other("subscription not found"@)
                && final(self).subs() == old(self).subs(),
            r is Ok ==> exists|i: int| is_first_with_id(old(self).subs(), id@, i)
                && final(self).subs() == old(self).subs().update(i, updated(old(self).subs()[i], opt_view(name), opt_view(url), interval)),
            final(self).path() == old(self).path(),
    {
        match self.find_index(id) {
            None => Err(AppError::Other(owned("subscription not found"))),
            Some(i) => {
                let ghost before = self.store.subscriptions@;
                let mut sub = self.store.subscriptions.remove(i);
                if let Some(n) = name {
                    sub.name = n;
                }
                if let Some(u) = url {
                    sub.url = u;
                }
                if let Some(iv) = interval {
                    sub.interval = iv;
                }
                self.store.subscriptions.insert(i, sub);
                proof {
                    assert(self.store.subscriptions@ =~= before.update(i as int, sub));
                    assert(sub_views(self.store.subscriptions@) =~= sub_views(before).update(i as int, sub@));
                }
                Ok(())
            },
        }
    }

    /// Get the first subscription with the id.
    pub fn get(&self, id: &str) -> (r: Option<&Subscription>)
        ensures
            r matches Some(s) ==> exists|i: int| is_first_with_id(self.subs(), id@, i) && self.subs()[i] == s@,
            r is None <==> no_id(self.subs(), id@),
    {
        match self.find_index(id) {
            Some(i) => Some(&self.store.subscriptions[i]),
            None => None,
        }
    }

    /// List all subscriptions.
    pub fn list(&self) -> (r: &[Subscription])
        ensures
            sub_views(r@) == self.subs(),
    {
        self.store.subscriptions.as_slice()
    }

    /// Replaces one field set of the subscription at `i`.
    fn set_flags(&mut self, i: usize, enabled: Option<bool>, stamp: Option<Timestamp>)
        requires
            i < old(self).subs().len(),
        ensures
            final(self).path() == old(self).path(),
            final(self).subs() == old(self).subs().update(i as int, SubscriptionView {
                enabled: match enabled { Some(e) => e, None => old(self).subs()[i as int].enabled },
                last_update: match stamp { Some(t) => Some(t), None => old(self).subs()[i as int].last_update },
                ..old(self).subs()[i as int]
            }),
    {
        let ghost before = self.store.subscriptions@;
        let mut sub = self.store.subscriptions.remove(i);
        if let Some(e) = enabled {
            sub.enabled = e;
        }
        if let Some(t) = stamp {
            sub.last_update = Some(t);
        }
        self.store.subscriptions.insert(i, sub);
        proof {
            assert(self.store.subscriptions@ =~= before.update(i as int, sub));
            assert(sub_views(self.store.subscriptions@) =~= sub_views(before).update(i as int, sub@));
        }
    }

    /// Enable or disable the first subscription with the id.
    pub fn set_enabled(&mut self, id: &str, enabled: bool) -> (r: Result<(), AppError>)
        ensures
            r is Err <==> no_id(old(self).subs(), id@),
            r matches Err(e) ==> e@ == ErrorView::Other("subscription not found"@)
                && final(self).subs() == old(self).subs(),
            r is Ok ==> exists|i: int| is_first_with_id(old(self).subs(), id@, i)
                && final(self).subs() == old(self).subs().update(i, SubscriptionView { enabled, ..old(self).subs()[i] }),
            final(self).path() == old(self).path(),
    {
        match self.find_index(id) {
            None => Err(AppError::Other(owned("subscription not found"))),
            Some(i) => {
                self.set_flags(i, Some(enabled), None);
                Ok(())
            },
        }
    }

    /// The URL to fetch for a subscription.
    pub fn fetch_url(&self, id: &str) -> (r: Result<String, AppError>)
        ensures
            r is Err <==> no_id(self.subs(), id@),
            r matches Ok(u) ==> exists|i: int| is_first_with_id(self.subs(), id@, i) && self.subs()[i].url == u@,
            r matches Err(e) ==> e@ == ErrorView::Other("subscription not found"@),
    {
        match self.find_index(id) {
            None => Err(AppError::Other(owned("subscription not found"))),
            Some(i) => {
                assert(self.subs()[i as int] == self.store.subscriptions@[i as int]@);
                Ok(owned(self.store.subscriptions[i].url.as_str()))
            },
        }
    }

    /// Records a successful fetch of the first subscription with the id.
    pub fn mark_updated(&mut self, id: &str, now: Timestamp) -> (r: Result<(), AppError>)
        ensures
            r is Err <==> no_id(old(self).subs(), id@),
            r matches Err(e) ==> e@ == ErrorView::Other("subscription not found"@)
                && final(self).subs() == old(self).subs(),
            r is Ok ==> exists|i: int| is_first_with_id(old(self).subs(), id@, i)
                && final(self).subs() == old(self).subs().update(i, SubscriptionView { last_update: Some(now), ..old(self).subs()[i] }),
            final(self).path() == old(self).path(),
    {
        match self.find_index(id) {
            None => Err(AppError::Other(owned("subscription not found"))),
            Some(i) => {
                self.set_flags(i, None, Some(now));
                Ok(())
            },
        }
    }

    /// The ids of the enabled subscriptions, in order.
    pub fn enabled_ids(&self) -> (r: Vec<String>)
        ensures
            r@.map_values(|s: String| s@) == enabled_ids_of(self.subs()),
    {
        let n = self.store.subscriptions.len();
        let mut r: Vec<String> = Vec::new();
        let mut i: usize = 0;
        while i < n
            invariant
                n == self.store.subscriptions@.len(),
                i <= n,
                r@.map_values(|s: String| s@) == enabled_ids_of(self.subs().take(i as int)),
            decreases n - i,
        {
            let s = &self.store.subscriptions[i];
            proof {
                assert(self.subs().take(i + 1).drop_last() =~= self.subs().take(i as int));
                assert(self.subs().take(i + 1).last() == s@);
            }
            let ghost rb = r@;
            if s.enabled {
                r.push(owned(s.id.as_str()));
                assert(r@.map_values(|s: String| s@) =~= rb.map_values(|s: String| s@).push(s.id@));
            }
            i = i + 1;
        }
        assert(self.subs().take(n as int) =~= self.subs());
        r
    }
}

/// The ids of the enabled subscriptions, in order.
pub open spec fn enabled_ids_of(subs: Seq<SubscriptionView>) -> Seq<Seq<char>>
    decreases subs.len(),
{
    if subs.len() == 0 {
        seq![]
    } else if subs.last().enabled {
        enabled_ids_of(subs.drop_last()).push(subs.last().id)
    } else {
        enabled_ids_of(subs.drop_last())
    }
}


/// Removing an id that no subscription has changes nothing.
proof fn lemma_without_absent_id(subs: Seq<SubscriptionView>, id: Seq<char>)
    requires
        no_id(subs, id),
    ensures
        without_id(subs, id) == subs,
    decreases subs.len(),
{
    if subs.len() > 0 {
        assert(subs.last() == subs[subs.len() - 1]);
        lemma_without_absent_id(subs.drop_last(), id);
        assert(subs.drop_last().push(subs.last()) =~= subs);
    }
}

/// After removing an id, no subscription has it.
pub proof fn law_remove_leaves_no_id(subs: Seq<SubscriptionView>, id: Seq<char>)
    ensures
        no_id(without_id(subs, id), id),
    decreases subs.len(),
{
    if subs.len() > 0 {
        law_remove_leaves_no_id(subs.drop_last(), id);
        let w = without_id(subs.drop_last(), id);
        if subs.last().id != id {
            assert forall|j: int| 0 <= j < w.push(subs.last()).len() implies (#[trigger] w.push(subs.last())[j]).id != id by {
                if j < w.len() {
                    assert(w.push(subs.last())[j] == w[j]);
                }
            }
        }
    }
}

/// Removing the id of a subscription just added, when no other had that
/// id, gives back the subscriptions from before the add.
pub proof fn law_remove_undoes_add(subs: Seq<SubscriptionView>, name: Seq<char>, url: Seq<char>, interval: Option<u64>)
    requires
        no_id(subs, id_text(url)),
    ensures
        without_id(subs.push(new_subscription(name, url, interval)), id_text(url)) == subs,
{
    let added = subs.push(new_subscription(name, url, interval));
    assert(added.drop_last() =~= subs);
    lemma_without_absent_id(subs, id_text(url));
}

/// A subscription just added, when no other had its id, is the one found
/// under that id.
pub proof fn law_get_finds_added(subs: Seq<SubscriptionView>, name: Seq<char>, url: Seq<char>, interval: Option<u64>)
    requires
        no_id(subs, id_text(url)),
    ensures
        is_first_with_id(subs.push(new_subscription(name, url, interval)), id_text(url), subs.len() as int),
        subs.push(new_subscription(name, url, interval))[subs.len() as int] == new_subscription(name, url, interval),
{
    let added = subs.push(new_subscription(name, url, interval));
    assert forall|j: int| 0 <= j < subs.len() implies (#[trigger] added[j]).id != id_text(url) by {
        assert(added[j] == subs[j]);
    }
}

/// Once a URL is added, adding it again is refused.
pub proof fn law_added_url_is_refused(subs: Seq<SubscriptionView>, name: Seq<char>, url: Seq<char>, interval: Option<u64>)
    ensures
        has_url(subs.push(new_subscription(name, url, interval)), url),
{
    let added = subs.push(new_subscription(name, url, interval));
    assert(added[subs.len() as int].url == url);
}

/// A new subscription is enabled, has never been updated, and its id is
/// that of its URL.
pub proof fn law_new_subscription_defaults(name: Seq<char>, url: Seq<char>, interval: Option<u64>)
    ensures
        new_subscription(name, url, interval).enabled,
        new_subscription(name, url, interval).last_update is None,
        new_subscription(name, url, interval).id == id_text(url),
        id_text(url).len() == 16,
{
    lemma_hex_fixed_len(url_hash(url) as nat, 16);
}

/// `hex_fixed` has exactly `width` digits.
proof fn lemma_hex_fixed_len(n: nat, width: nat)
    ensures
        hex_fixed(n, width).len() == width,
    decreases width,
{
    if width > 0 {
        lemma_hex_fixed_len(n / 16, (width - 1) as nat);
    }
}

/// A proxy URI line gives a node named after its scheme: the name is the
/// type followed by `-node`, the line starts with the type and `://`, and
/// the node keeps the line; each of the four schemes gives its own type.
pub proof fn law_uri_node_named_by_scheme(line: Seq<char>)
    ensures
        uri_node(line) matches Some(n) ==> n.name == n.proxy_type + "-node"@
            && starts_with(line, n.proxy_type + "://"@) && n.raw == line,
        starts_with(line, "ss://"@) ==> (uri_node(line) matches Some(n) && n.proxy_type == "ss"@),
        starts_with(line, "vmess://"@) ==> (uri_node(line) matches Some(n) && n.proxy_type == "vmess"@),
        starts_with(line, "vless://"@) ==> (uri_node(line) matches Some(n) && n.proxy_type == "vless"@),
        starts_with(line, "trojan://"@) ==> (uri_node(line) matches Some(n) && n.proxy_type == "trojan"@),
        uri_node(line) is None <==> !starts_with(line, "ss://"@) && !starts_with(line, "vmess://"@)
            && !starts_with(line, "vless://"@) && !starts_with(line, "trojan://"@),
{
    reveal_strlit("ss://");
    reveal_strlit("vmess://");
    reveal_strlit("vless://");
    reveal_strlit("trojan://");
    reveal_strlit("ss");
    reveal_strlit("vmess");
    reveal_strlit("vless");
    reveal_strlit("trojan");
    reveal_strlit("://");
    reveal_strlit("-node");
    reveal_strlit("ss-node");
    reveal_strlit("vmess-node");
    reveal_strlit("vless-node");
    reveal_strlit("trojan-node");
    assert("ss"@ + "-node"@ =~= "ss-node"@);
    assert("vmess"@ + "-node"@ =~= "vmess-node"@);
    assert("vless"@ + "-node"@ =~= "vless-node"@);
    assert("trojan"@ + "-node"@ =~= "trojan-node"@);
    assert("ss"@ + "://"@ =~= "ss://"@);
    assert("vmess"@ + "://"@ =~= "vmess://"@);
    assert("vless"@ + "://"@ =~= "vless://"@);
    assert("trojan"@ + "://"@ =~= "trojan://"@);
    if starts_with(line, "vmess://"@) {
        assert(line.subrange(0, 8)[0] == line[0]);
    }
    if starts_with(line, "vless://"@) {
        assert(line.subrange(0, 8)[0] == line[0] && line.subrange(0, 8)[1] == line[1]);
    }
    if starts_with(line, "trojan://"@) {
        assert(line.subrange(0, 9)[0] == line[0]);
    }
}

} // verus!
