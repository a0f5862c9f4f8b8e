//! The reversible encoding under which the secret is persisted: base64
//! (standard alphabet, with padding) of its UTF-8 bytes. It obfuscates; it
//! does not protect.
use vstd::prelude::*;
use vstd::utf8::{decode_utf8, encode_scalar, encode_utf8, encode_utf8_decode_utf8, encode_utf8_valid_utf8, valid_utf8};

verus! {

/// The base64 digit for a six-bit value.
pub open spec fn digit(v: u8) -> char {
    if v < 26 {
        ((v + 65) as u8) as char
    } else if v < 52 {
        ((v + 71) as u8) as char
    } else if v < 62 {
        ((v - 4) as u8) as char
    } else if v == 62 {
        '+'
    } else {
        '/'
    }
}

/// The six-bit value of a base64 digit.
pub open spec fn digit_value(c: char) -> Option<u8> {
    let u = c as u32;
    if 65 <= u <= 90 {
        Some((u - 65) as u8)
    } else if 97 <= u <= 122 {
        Some((u - 71) as u8)
    } else if 48 <= u <= 57 {
        Some((u + 4) as u8)
    } else if c == '+' {
        Some(62u8)
    } else if c == '/' {
        Some(63u8)
    } else {
        None
    }
}

/// The four digits for three bytes.
pub open spec fn quad(b0: u8, b1: u8, b2: u8) -> Seq<char> {
    seq![
        digit(b0 >> 2),
        digit(((b0 & 3) << 4) | (b1 >> 4)),
        digit(((b1 & 15) << 2) | (b2 >> 6)),
        digit(b2 & 63),
    ]
}

/// The base64 text of a byte sequence.
pub open spec fn b64_encode(b: Seq<u8>) -> Seq<char>
    decreases b.len(),
{
    if b.len() == 0 {
        Seq::empty()
    } else if b.len() == 1 {
        seq![digit(b[0] >> 2), digit((b[0] & 3) << 4), '=', '=']
    } else if b.len() == 2 {
        seq![digit(b[0] >> 2), digit(((b[0] & 3) << 4) | (b[1] >> 4)), digit((b[1] & 15) << 2), '=']
    } else {
        quad(b[0], b[1], b[2]) + b64_encode(b.subrange(3, b.len() as int))
    }
}

/// The three bytes of four digit values.
pub open spec fn triple(v0: u8, v1: u8, v2: u8, v3: u8) -> Seq<u8> {
    seq![(v0 << 2) | (v1 >> 4), ((v1 & 15) << 4) | (v2 >> 2), ((v2 & 3) << 6) | v3]
}

/// The bytes of a group of four digits with no padding.
pub open spec fn decode_full(q: Seq<char>) -> Option<Seq<u8>> {
    if digit_value(q[0]) is Some && digit_value(q[1]) is Some && digit_value(q[2]) is Some
        && digit_value(q[3]) is Some {
        Some(
            triple(
                digit_value(q[0])->Some_0,
                digit_value(q[1])->Some_0,
                digit_value(q[2])->Some_0,
                digit_value(q[3])->Some_0,
            ),
        )
    } else {
        None
    }
}

/// The bytes of the last group of four, which may end in padding.
pub open spec fn decode_last(q: Seq<char>) -> Option<Seq<u8>> {
    if q[2] == '=' && q[3] == '=' {
        if digit_value(q[0]) is Some && digit_value(q[1]) is Some {
            Some(triple(digit_value(q[0])->Some_0, digit_value(q[1])->Some_0, 0, 0).subrange(0, 1))
        } else {
            None
        }
    } else if q[3] == '=' {
        if digit_value(q[0]) is Some && digit_value(q[1]) is Some && digit_value(q[2]) is Some {
            Some(
                triple(
                    digit_value(q[0])->Some_0,
                    digit_value(q[1])->Some_0,
                    digit_value(q[2])->Some_0,
                    0,
                ).subrange(0, 2),
            )
        } else {
            None
        }
    } else {
        decode_full(q)
    }
}

/// The bytes of a base64 text; `None` where it is not well-formed.
pub open spec fn b64_decode(s: Seq<char>) -> Option<Seq<u8>>
    decreases s.len(),
{
    if s.len() == 0 {
        Some(Seq::empty())
    } else if s.len() < 4 {
        None
    } else if s.len() == 4 {
        decode_last(s)
    } else {
        match decode_full(s.subrange(0, 4)) {
            Some(head) => match b64_decode(s.subrange(4, s.len() as int)) {
                Some(rest) => Some(head + rest),
                None => None,
            },
            None => None,
        }
    }
}

proof fn lemma_digit(v: u8)
    requires
        v < 64,
    ensures
        digit_value(digit(v)) == Some(v),
        digit(v) != '=',
{
}

proof fn lemma_triple_bits(b0: u8, b1: u8, b2: u8)
    by (bit_vector)
    ensures
        b0 >> 2 < 64,
        ((b0 & 3) << 4) | (b1 >> 4) < 64,
        ((b1 & 15) << 2) | (b2 >> 6) < 64,
        b2 & 63 < 64,
        ((b0 >> 2) << 2) | ((((b0 & 3) << 4) | (b1 >> 4)) >> 4) == b0,
        (((((b0 & 3) << 4) | (b1 >> 4)) & 15) << 4) | ((((b1 & 15) << 2) | (b2 >> 6)) >> 2) == b1,
        (((((b1 & 15) << 2) | (b2 >> 6)) & 3) << 6) | (b2 & 63) == b2,
        (b0 & 3) << 4 < 64,
        (b1 & 15) << 2 < 64,
        ((b0 >> 2) << 2) | (((b0 & 3) << 4) >> 4) == b0,
        (((((b0 & 3) << 4) | (b1 >> 4)) & 15) << 4) | (((b1 & 15) << 2) >> 2) == b1,
{
}

/// Decoding the encoding of any bytes gives them back.
pub proof fn lemma_b64_round_trip(b: Seq<u8>)
    ensures
        b64_decode(b64_encode(b)) == Some(b),
    decreases b.len(),
{
    if b.len() == 0 {
    } else if b.len() == 1 {
        lemma_triple_bits(b[0], 0, 0);
        lemma_digit(b[0] >> 2);
        lemma_digit((b[0] & 3) << 4);
        let s = b64_encode(b);
        assert(decode_last(s) == Some(b)) by {
            assert(triple(b[0] >> 2, (b[0] & 3) << 4, 0, 0).subrange(0, 1) =~= b);
        }
    } else if b.len() == 2 {
        lemma_triple_bits(b[0], b[1], 0);
        lemma_digit(b[0] >> 2);
        lemma_digit(((b[0] & 3) << 4) | (b[1] >> 4));
        lemma_digit((b[1] & 15) << 2);
        let s = b64_encode(b);
        assert(decode_last(s) == Some(b)) by {
            assert(triple(b[0] >> 2, ((b[0] & 3) << 4) | (b[1] >> 4), (b[1] & 15) << 2, 0).subrange(
                0,
                2,
            ) =~= b);
        }
    } else {
        let rest = b.subrange(3, b.len() as int);
        lemma_b64_round_trip(rest);
        lemma_triple_bits(b[0], b[1], b[2]);
        lemma_digit(b[0] >> 2);
        lemma_digit(((b[0] & 3) << 4) | (b[1] >> 4));
        lemma_digit(((b[1] & 15) << 2) | (b[2] >> 6));
        lemma_digit(b[2] & 63);
        let s = b64_encode(b);
        let q = quad(b[0], b[1], b[2]);
        assert(s == q + b64_encode(rest));
        assert(s.subrange(0, 4) =~= q);
        assert(s.subrange(4, s.len() as int) =~= b64_encode(rest));
        assert(decode_full(q) == Some(b.subrange(0, 3))) by {
            assert(triple(
                b[0] >> 2,
                ((b[0] & 3) << 4) | (b[1] >> 4),
                ((b[1] & 15) << 2) | (b[2] >> 6),
                b[2] & 63,
            ) =~= b.subrange(0, 3));
        }
        if rest.len() == 0 {
            assert(s.len() == 4);
            assert(s =~= q);
            assert(q[3] != '=');
            assert(b.subrange(0, 3) =~= b);
        } else {
            lemma_encode_len(rest);
            assert(b.subrange(0, 3) + rest =~= b);
        }
    }
}

/// The encoding of bytes is four digits for each started group of three.
pub proof fn lemma_encode_len(b: Seq<u8>)
    ensures
        b64_encode(b).len() == 4 * ((b.len() + 2) / 3),
    decreases b.len(),
{
    if b.len() >= 3 {
        lemma_encode_len(b.subrange(3, b.len() as int));
    }
}

/// `std` documents `String::push` as appending the character.
pub assume_specification[ String::push ](s: &mut String, ch: char)
    ensures
        final(s)@ == old(s)@.push(ch),
;

/// Returns the base64 digit for a six-bit value.
fn digit_of(v: u8) -> (r: char)
    requires
        v < 64,
    ensures
        r == digit(v),
{
    if v < 26 {
        (v + 65) as char
    } else if v < 52 {
        (v + 71) as char
    } else if v < 62 {
        (v - 4) as char
    } else if v == 62 {
        '+'
    } else {
        '/'
    }
}

/// Returns the six-bit value of a base64 digit.
fn value_of(c: char) -> (r: Option<u8>)
    ensures
        r == digit_value(c),
{
    let u = c as u32;
    if 65 <= u && u <= 90 {
        Some((u - 65) as u8)
    } else if 97 <= u && u <= 122 {
        Some((u - 71) as u8)
    } else if 48 <= u && u <= 57 {
        Some((u + 4) as u8)
    } else if c == '+' {
        Some(62)
    } else if c == '/' {
        Some(63)
    } else {
        None
    }
}

/// Returns the base64 text of a byte sequence.
pub fn encode_base64(b: &[u8]) -> (r: String)
    ensures
        r@ == b64_encode(b@),
{
    let n = b.len();
    let mut out = String::new();
    let mut i: usize = 0;
    assert(b@.subrange(0, n as int) =~= b@);
    while n - i >= 3
        invariant
            n == b@.len(),
            i <= n,
            out@ + b64_encode(b@.subrange(i as int, n as int)) == b64_encode(b@),
        decreases n - i,
    {
        let b0 = b[i];
        let b1 = b[i + 1];
        let b2 = b[i + 2];
        proof {
            lemma_triple_bits(b0, b1, b2);
            let rest = b@.subrange(i as int, n as int);
            assert(rest.subrange(3, rest.len() as int) =~= b@.subrange(i + 3, n as int));
        }
        let ghost before = out@;
        out.push(digit_of(b0 >> 2));
        out.push(digit_of(((b0 & 3) << 4) | (b1 >> 4)));
        out.push(digit_of(((b1 & 15) << 2) | (b2 >> 6)));
        out.push(digit_of(b2 & 63));
        assert(out@ =~= before + quad(b0, b1, b2));
        i = i + 3;
    }
    let ghost before = out@;
    let ghost rest = b@.subrange(i as int, n as int);
    if n - i == 1 {
        let b0 = b[i];
        proof {
            lemma_triple_bits(b0, 0, 0);
        }
        out.push(digit_of(b0 >> 2));
        out.push(digit_of((b0 & 3) << 4));
        out.push('=');
        out.push('=');
        assert(out@ =~= before + b64_encode(rest));
    } else if n - i == 2 {
        let b0 = b[i];
        let b1 = b[i + 1];
        proof {
            lemma_triple_bits(b0, b1, 0);
        }
        out.push(digit_of(b0 >> 2));
        out.push(digit_of(((b0 & 3) << 4) | (b1 >> 4)));
        out.push(digit_of((b1 & 15) << 2));
        out.push('=');
        assert(out@ =~= before + b64_encode(rest));
    } else {
        assert(out@ =~= before + b64_encode(rest));
    }
    out
}

/// Some `head + rest` where `r` is `Some(rest)`.
pub open spec fn prepend(head: Seq<u8>, r: Option<Seq<u8>>) -> Option<Seq<u8>> {
    match r {
        Some(rest) => Some(head + rest),
        None => None,
    }
}

/// The bytes of an optional vector.
pub open spec fn opt_bytes(v: Option<Vec<u8>>) -> Option<Seq<u8>> {
    match v {
        Some(x) => Some(x@),
        None => None,
    }
}

/// The bytes of one group of four digits; the last group may end in padding.
pub open spec fn group_bytes(q: Seq<char>, last: bool) -> Option<Seq<u8>> {
    if last {
        decode_last(q)
    } else {
        decode_full(q)
    }
}

/// Appends the bytes of one group of four digits to `out`; false, with
/// `out` unchanged, where the group is not well-formed.
fn push_group(c0: char, c1: char, c2: char, c3: char, last: bool, out: &mut Vec<u8>) -> (ok: bool)
    ensures
        ok == group_bytes(seq![c0, c1, c2, c3], last) is Some,
        ok ==> final(out)@ == old(out)@ + group_bytes(seq![c0, c1, c2, c3], last)->Some_0,
        !ok ==> final(out)@ == old(out)@,
{
    let ghost q = seq![c0, c1, c2, c3];
    assert(q[0] == c0 && q[1] == c1 && q[2] == c2 && q[3] == c3);
    let v0 = value_of(c0);
    let v1 = value_of(c1);
    let v2 = value_of(c2);
    let v3 = value_of(c3);
    let ghost before = out@;
    if last && c2 == '=' && c3 == '=' {
        match (v0, v1) {
            (Some(x0), Some(x1)) => {
                out.push((x0 << 2) | (x1 >> 4));
                assert(out@ =~= before + triple(x0, x1, 0, 0).subrange(0, 1));
                true
            },
            _ => false,
        }
    } else if last && c3 == '=' {
        match (v0, v1, v2) {
            (Some(x0), Some(x1), Some(x2)) => {
                out.push((x0 << 2) | (x1 >> 4));
                out.push(((x1 & 15) << 4) | (x2 >> 2));
                assert(out@ =~= before + triple(x0, x1, x2, 0).subrange(0, 2));
                true
            },
            _ => false,
        }
    } else {
        match (v0, v1, v2, v3) {
            (Some(x0), Some(x1), Some(x2), Some(x3)) => {
                out.push((x0 << 2) | (x1 >> 4));
                out.push(((x1 & 15) << 4) | (x2 >> 2));
                out.push(((x2 & 3) << 6) | x3);
                assert(out@ =~= before + triple(x0, x1, x2, x3));
                true
            },
            _ => false,
        }
    }
}

/// Returns the bytes of a base64 text, or `None` where it is not well-formed.
pub fn decode_base64(s: &str) -> (r: Option<Vec<u8>>)
    ensures
        opt_bytes(r) == b64_decode(s@),
{
    let n = s.unicode_len();
    let mut out: Vec<u8> = Vec::new();
    let mut i: usize = 0;
    assert(s@.subrange(0, n as int) =~= s@);
    while i < n
        invariant
            n == s@.len(),
            i <= n,
            b64_decode(s@) == prepend(out@, b64_decode(s@.subrange(i as int, n as int))),
        decreases n - i,
    {
        let ghost rest = s@.subrange(i as int, n as int);
        if n - i < 4 {
            return None;
        }
        let last = n - i == 4;
        let c0 = s.get_char(i);
        let c1 = s.get_char(i + 1);
        let c2 = s.get_char(i + 2);
        let c3 = s.get_char(i + 3);
        let ghost q = seq![c0, c1, c2, c3];
        assert(rest.subrange(0, 4) =~= q);
        let ghost before = out@;
        let ok = push_group(c0, c1, c2, c3, last, &mut out);
        if !ok {
            return None;
        }
        proof {
            let tail = s@.subrange(i + 4, n as int);
            assert(rest.subrange(4, rest.len() as int) =~= tail);
            if last {
                assert(rest =~= q);
                assert(tail.len() == 0);
                assert(out@ + Seq::<u8>::empty() =~= out@);
            } else {
                let h = group_bytes(q, false)->Some_0;
                assert(before + (h + Seq::<u8>::empty()) =~= out@ + Seq::<u8>::empty());
                match b64_decode(tail) {
                    Some(t) => {
                        assert(before + (h + t) =~= out@ + t);
                    },
                    None => {},
                }
            }
        }
        i = i + 4;
    }
    assert(out@ + Seq::<u8>::empty() =~= out@);
    Some(out)
}

/// Relies on `String::from_utf8`: it succeeds exactly on valid UTF-8, and
/// the string then holds those bytes.
#[verifier::external_body]
pub(crate) fn string_from_utf8(bytes: Vec<u8>) -> (r: Option<String>)
    ensures
        r is Some <==> valid_utf8(bytes@),
        r matches Some(s) ==> encode_utf8(s@) == bytes@,
{
    String::from_utf8(bytes).ok()
}

/// The persisted form of a secret.
pub open spec fn encoded_secret(secret: Seq<char>) -> Seq<char> {
    b64_encode(encode_utf8(secret))
}

/// The secret a persisted form stands for; `None` where it is corrupted.
pub open spec fn decoded_secret(encoded: Seq<char>) -> Option<Seq<char>> {
    match b64_decode(encoded) {
        Some(b) => if valid_utf8(b) {
            Some(decode_utf8(b))
        } else {
            None
        },
        None => None,
    }
}

/// The characters of an optional string.
pub open spec fn opt_chars(s: Option<String>) -> Option<Seq<char>> {
    match s {
        Some(x) => Some(x@),
        None => None,
    }
}

/// Returns the persisted form of a secret.
pub fn encode_secret(secret: &str) -> (r: String)
    ensures
        r@ == encoded_secret(secret@),
{
    encode_base64(secret.as_bytes())
}

/// Returns the secret a persisted form stands for, or `None` where the form
/// is not base64 of UTF-8 text.
pub fn decode_secret(encoded: &str) -> (r: Option<String>)
    ensures
        opt_chars(r) == decoded_secret(encoded@),
{
    match decode_base64(encoded) {
        Some(bytes) => {
            let r = string_from_utf8(bytes);
            proof {
                if r is Some {
                    encode_utf8_decode_utf8(r->Some_0@);
                }
            }
            r
        },
        None => None,
    }
}

/// A character sequence never has fewer UTF-8 bytes than characters.
proof fn lemma_utf8_len(c: Seq<char>)
    ensures
        encode_utf8(c).len() >= c.len(),
    decreases c.len(),
{
    if c.len() > 0 {
        lemma_utf8_len(c.drop_first());
        assert(encode_scalar(c[0] as u32).len() >= 1);
    }
}

/// Decoding the persisted form of a secret gives the secret back, and the
/// persisted form of a non-empty secret differs from it.
pub proof fn lemma_secret_round_trip(secret: Seq<char>)
    ensures
        decoded_secret(encoded_secret(secret)) == Some(secret),
        secret.len() > 0 ==> encoded_secret(secret) != secret,
        secret.len() > 0 ==> encoded_secret(secret).len() > 0,
{
    let b = encode_utf8(secret);
    lemma_b64_round_trip(b);
    encode_utf8_valid_utf8(secret);
    encode_utf8_decode_utf8(secret);
    lemma_encode_len(b);
    lemma_utf8_len(secret);
    if secret.len() > 0 {
        assert(4 * ((b.len() + 2) / 3) > b.len()) by (nonlinear_arith)
            requires
                b.len() >= 1,
        ;
    }
}

} // verus!
