//! The base64 encoding used by the token format (standard alphabet, `=` padding).
use vstd::prelude::*;
use vstd::utf8::*;
use crate::text::{chars_of, owned, push_chars, push_str, string_of};

verus! {

// ---------------------------------------------------------------------------
// Alphabet
// ---------------------------------------------------------------------------

/// The character of a 6-bit value in the standard base64 alphabet.
pub open spec fn b64_char(v: u8) -> char {
    if v < 26 {
        (65 + v) as char
    } else if v < 52 {
        (97 + (v - 26)) as char
    } else if v < 62 {
        (48 + (v - 52)) as char
    } else if v == 62 {
        '+'
    } else {
        '/'
    }
}

/// The 6-bit value of a base64 alphabet character, if it is one.
pub open spec fn b64_value(c: char) -> Option<u8> {
    if 'A' <= c && c <= 'Z' {
        Some((c as int - 65) as u8)
    } else if 'a' <= c && c <= 'z' {
        Some((c as int - 97 + 26) as u8)
    } else if '0' <= c && c <= '9' {
        Some((c as int - 48 + 52) as u8)
    } else if c == '+' {
        Some(62u8)
    } else if c == '/' {
        Some(63u8)
    } else {
        None
    }
}

/// Maps a 6-bit value to its base64 character.
pub fn to_base64_char(val: u8) -> (c: char)
    requires
        val < 64,
    ensures
        c == b64_char(val),
{
    if val < 26 {
        (65u8 + val) as char
    } else if val < 52 {
        (97u8 + (val - 26)) as char
    } else if val < 62 {
        (48u8 + (val - 52)) as char
    } else if val == 62 {
        '+'
    } else {
        '/'
    }
}

/// The message of the error for a character outside the alphabet.
pub open spec fn invalid_char_message(c: char) -> Seq<char> {
    "Invalid base64 character: "@.push(c)
}

/// Maps a base64 character to its 6-bit value; any other character is an error.
pub fn from_base64_char(c: char) -> (r: Result<u8, String>)
    ensures
        r matches Ok(v) ==> b64_value(c) == Some(v),
        r matches Err(e) ==> b64_value(c) is None && e@ == invalid_char_message(c),
{
    if 'A' <= c && c <= 'Z' {
        Ok(((c as u32) - 65) as u8)
    } else if 'a' <= c && c <= 'z' {
        Ok(((c as u32) - 97 + 26) as u8)
    } else if '0' <= c && c <= '9' {
        Ok(((c as u32) - 48 + 52) as u8)
    } else if c == '+' {
        Ok(62)
    } else if c == '/' {
        Ok(63)
    } else {
        let mut e = owned("Invalid base64 character: ");
        let mut one: Vec<char> = Vec::new();
        one.push(c);
        push_chars(&mut e, one.as_slice());
        assert(one@ =~= seq![c]);
        assert("Invalid base64 character: "@ + seq![c] =~= "Invalid base64 character: "@.push(c));
        Err(e)
    }
}

// ---------------------------------------------------------------------------
// Bit groups
// ---------------------------------------------------------------------------

pub open spec fn e1(a: u8) -> u8 {
    (a >> 2u8) & 0x3Fu8
}

pub open spec fn e2(a: u8, b: u8) -> u8 {
    ((a & 0x03u8) << 4u8) | ((b >> 4u8) & 0x0Fu8)
}

pub open spec fn e3(b: u8, c: u8) -> u8 {
    ((b & 0x0Fu8) << 2u8) | ((c >> 6u8) & 0x03u8)
}

pub open spec fn e4(c: u8) -> u8 {
    c & 0x3Fu8
}

pub open spec fn d1(w: u8, x: u8) -> u8 {
    (w << 2u8) | (x >> 4u8)
}

pub open spec fn d2(x: u8, y: u8) -> u8 {
    ((x & 0x0Fu8) << 4u8) | (y >> 2u8)
}

pub open spec fn d3(y: u8, z: u8) -> u8 {
    ((y & 0x03u8) << 6u8) | z
}

pub proof fn lemma_bits(a: u8, b: u8, c: u8)
    ensures
        e1(a) < 64,
        e2(a, b) < 64,
        e3(b, c) < 64,
        e4(c) < 64,
        d1(e1(a), e2(a, b)) == a,
        d2(e2(a, b), e3(b, c)) == b,
        d3(e3(b, c), e4(c)) == c,
{
    assert(((a >> 2u8) & 0x3Fu8) < 64) by (bit_vector);
    assert((((a & 0x03u8) << 4u8) | ((b >> 4u8) & 0x0Fu8)) < 64) by (bit_vector);
    assert((((b & 0x0Fu8) << 2u8) | ((c >> 6u8) & 0x03u8)) < 64) by (bit_vector);
    assert((c & 0x3Fu8) < 64) by (bit_vector);
    assert(((((a >> 2u8) & 0x3Fu8) << 2u8) | ((((a & 0x03u8) << 4u8) | ((b >> 4u8) & 0x0Fu8))
        >> 4u8)) == a) by (bit_vector);
    assert((((((a & 0x03u8) << 4u8) | ((b >> 4u8) & 0x0Fu8)) & 0x0Fu8) << 4u8) | ((((b
        & 0x0Fu8) << 2u8) | ((c >> 6u8) & 0x03u8)) >> 2u8) == b) by (bit_vector);
    assert((((((b & 0x0Fu8) << 2u8) | ((c >> 6u8) & 0x03u8)) & 0x03u8) << 6u8) | (c & 0x3Fu8)
        == c) by (bit_vector);
}

// ---------------------------------------------------------------------------
// Encoding
// ---------------------------------------------------------------------------

/// The four output characters of the chunk starting at `b[0]` (`=` where the chunk is short).
pub open spec fn enc_chunk(b: Seq<u8>) -> Seq<char> {
    let x0 = b[0];
    let x1 = if b.len() > 1 { b[1] } else { 0u8 };
    let x2 = if b.len() > 2 { b[2] } else { 0u8 };
    seq![
        b64_char(e1(x0)),
        b64_char(e2(x0, x1)),
        if b.len() > 1 { b64_char(e3(x1, x2)) } else { '=' },
        if b.len() > 2 { b64_char(e4(x2)) } else { '=' },
    ]
}

/// The base64 text of a byte sequence, chunk by chunk of three bytes.
pub open spec fn b64_encode_spec(b: Seq<u8>) -> Seq<char>
    decreases b.len(),
{
    if b.len() == 0 {
        seq![]
    } else if b.len() <= 3 {
        enc_chunk(b)
    } else {
        enc_chunk(b) + b64_encode_spec(b.skip(3))
    }
}

/// The base64 text of the UTF-8 bytes of a string.
pub open spec fn b64_text(s: Seq<char>) -> Seq<char> {
    b64_encode_spec(encode_utf8(s))
}

/// Base64-encodes the UTF-8 bytes of `input`.
pub fn base64_encode(input: &str) -> (r: String)
    ensures
        r@ == b64_text(input@),
{
    let bytes = input.as_bytes();
    let ghost b = bytes@;
    let n = bytes.len();
    let mut out: Vec<char> = Vec::new();
    let mut i: usize = 0;
    assert(b.subrange(0, n as int) =~= b);
    while i < n
        invariant
            n == b.len(),
            bytes@ == b,
            i <= n,
            b64_encode_spec(b) == out@ + b64_encode_spec(b.subrange(i as int, n as int)),
        decreases n - i,
    {
        let ghost rest = b.subrange(i as int, n as int);
        let x0 = bytes[i];
        let x1: u8 = if n - i > 1 { bytes[i + 1] } else { 0 };
        let x2: u8 = if n - i > 2 { bytes[i + 2] } else { 0 };
        let len = if n - i >= 3 { 3 } else { n - i };
        proof {
            lemma_bits(x0, x1, x2);
        }
        let c1 = to_base64_char((x0 >> 2) & 0x3F);
        let c2 = to_base64_char(((x0 & 0x03) << 4) | ((x1 >> 4) & 0x0F));
        out.push(c1);
        out.push(c2);
        if len > 1 {
            out.push(to_base64_char(((x1 & 0x0F) << 2) | ((x2 >> 6) & 0x03)));
        } else {
            out.push('=');
        }
        if len > 2 {
            out.push(to_base64_char(x2 & 0x3F));
        } else {
            out.push('=');
        }
        proof {
            assert(enc_chunk(rest) =~= out@.subrange(out@.len() - 4, out@.len() as int));
            if rest.len() > 3 {
                assert(rest.skip(3) =~= b.subrange(i + 3, n as int));
            } else {
                assert(b.subrange(i + len, n as int) =~= Seq::<u8>::empty());
            }
        }
        i = i + len;
    }
    string_of(out.as_slice())
}

// ---------------------------------------------------------------------------
// Decoding
// ---------------------------------------------------------------------------

/// `s` without its trailing `=` characters (`trim_end_matches('=')`).
pub open spec fn strip_pad(s: Seq<char>) -> Seq<char>
    decreases s.len(),
{
    if s.len() > 0 && s.last() == '=' {
        strip_pad(s.drop_last())
    } else {
        s
    }
}

/// The first character of `t` outside the alphabet, if any.
pub open spec fn first_invalid(t: Seq<char>) -> Option<char>
    decreases t.len(),
{
    if t.len() == 0 {
        None
    } else if b64_value(t[0]) is None {
        Some(t[0])
    } else {
        first_invalid(t.drop_first())
    }
}

/// The 6-bit values of alphabet characters.
pub open spec fn b64_values(t: Seq<char>) -> Seq<u8> {
    t.map_values(|c: char| b64_value(c).unwrap())
}

/// The bytes of the chunk of (up to) four 6-bit values starting at `v[0]`.
pub open spec fn dec_chunk(v: Seq<u8>) -> Seq<u8> {
    let y0 = v[0];
    let y1 = if v.len() > 1 { v[1] } else { 0u8 };
    let y2 = if v.len() > 2 { v[2] } else { 0u8 };
    let y3 = if v.len() > 3 { v[3] } else { 0u8 };
    if v.len() > 3 {
        seq![d1(y0, y1), d2(y1, y2), d3(y2, y3)]
    } else if v.len() > 2 {
        seq![d1(y0, y1), d2(y1, y2)]
    } else {
        seq![d1(y0, y1)]
    }
}

/// The bytes of a sequence of 6-bit values, chunk by chunk of four values.
pub open spec fn b64_join(v: Seq<u8>) -> Seq<u8>
    decreases v.len(),
{
    if v.len() == 0 {
        seq![]
    } else if v.len() <= 4 {
        dec_chunk(v)
    } else {
        dec_chunk(v) + b64_join(v.skip(4))
    }
}

/// The bytes that the base64 text `s` stands for, or the first character outside the
/// alphabet.
pub open spec fn b64_decode_bytes(s: Seq<char>) -> Result<Seq<u8>, char> {
    let t = strip_pad(s);
    match first_invalid(t) {
        Some(c) => Err(c),
        None => Ok(b64_join(b64_values(t))),
    }
}

proof fn lemma_strip_pad_take(s: Seq<char>, end: int)
    requires
        0 <= end <= s.len(),
        forall|i: int| end <= i < s.len() ==> s[i] == '=',
    ensures
        strip_pad(s) == strip_pad(s.take(end)),
    decreases s.len() - end,
{
    if end < s.len() {
        assert(s.drop_last().take(end) =~= s.take(end));
        lemma_strip_pad_take(s.drop_last(), end);
    } else {
        assert(s.take(end) =~= s);
    }
}

proof fn lemma_first_invalid_skip(t: Seq<char>, i: int)
    requires
        0 <= i < t.len(),
        b64_value(t[i]) is Some,
    ensures
        first_invalid(t.skip(i)) == first_invalid(t.skip(i + 1)),
{
    assert(t.skip(i).drop_first() =~= t.skip(i + 1));
}

/// Decodes base64 text (trailing `=` ignored) into the UTF-8 string it stands for.
pub fn base64_decode(input: &str) -> (r: Result<String, String>)
    ensures
        match b64_decode_bytes(input@) {
            Err(c) => r matches Err(e) && e@ == invalid_char_message(c),
            Ok(bytes) => {
                &&& (r is Ok <==> valid_utf8(bytes))
                &&& (r matches Ok(s) ==> s@ == decode_utf8(bytes))
                &&& (r matches Err(e) ==> "UTF-8 error: "@.is_prefix_of(e@))
            },
        },
{
    let chars = chars_of(input);
    let mut end = chars.len();
    while end > 0 && chars[end - 1] == '='
        invariant
            end <= chars@.len(),
            forall|i: int| end <= i < chars@.len() ==> chars@[i] == '=',
        decreases end,
    {
        end = end - 1;
    }
    let ghost t = chars@.take(end as int);
    proof {
        lemma_strip_pad_take(chars@, end as int);
        assert(!(t.len() > 0 && t.last() == '='));
        assert(strip_pad(t) == t);
    }
    let mut vals: Vec<u8> = Vec::new();
    let mut i: usize = 0;
    assert(t.skip(0) =~= t);
    while i < end
        invariant
            i <= end <= chars@.len(),
            t == chars@.take(end as int),
            strip_pad(input@) == t,
            first_invalid(t) == first_invalid(t.skip(i as int)),
            vals@ == b64_values(t.take(i as int)),
            forall|k: int| 0 <= k < vals@.len() ==> vals@[k] < 64,
        decreases end - i,
    {
        match from_base64_char(chars[i]) {
            Ok(v) => {
                proof {
                    lemma_first_invalid_skip(t, i as int);
                }
                vals.push(v);
                assert(b64_values(t.take(i + 1)) =~= b64_values(t.take(i as int)).push(v));
            },
            Err(e) => {
                assert(first_invalid(t.skip(i as int)) == Some(chars@[i as int]));
                return Err(e);
            },
        }
        i = i + 1;
    }
    proof {
        assert(t.skip(end as int) =~= Seq::<char>::empty());
        assert(t.take(end as int) =~= t);
    }
    let ghost v = vals@;
    let n = vals.len();
    let mut bytes: Vec<u8> = Vec::new();
    let mut j: usize = 0;
    assert(v.subrange(0, n as int) =~= v);
    while j < n
        invariant
            n == v.len(),
            vals@ == v,
            j <= n,
            b64_join(v) == bytes@ + b64_join(v.subrange(j as int, n as int)),
        decreases n - j,
    {
        let ghost rest = v.subrange(j as int, n as int);
        let y0 = vals[j];
        let y1: u8 = if n - j > 1 { vals[j + 1] } else { 0 };
        let y2: u8 = if n - j > 2 { vals[j + 2] } else { 0 };
        let y3: u8 = if n - j > 3 { vals[j + 3] } else { 0 };
        let len = if n - j >= 4 { 4 } else { n - j };
        bytes.push((y0 << 2) | (y1 >> 4));
        if len > 2 {
            bytes.push(((y1 & 0x0F) << 4) | (y2 >> 2));
        }
        if len > 3 {
            bytes.push(((y2 & 0x03) << 6) | y3);
        }
        proof {
            let k = dec_chunk(rest).len();
            assert(dec_chunk(rest) =~= bytes@.subrange(bytes@.len() - k, bytes@.len() as int));
            if rest.len() > 4 {
                assert(rest.skip(4) =~= v.subrange(j + 4, n as int));
            } else {
                assert(v.subrange(j + len, n as int) =~= Seq::<u8>::empty());
            }
        }
        j = j + len;
    }
    match string_from_utf8(bytes) {
        Ok(s) => Ok(s),
        Err(e) => {
            let mut m = owned("UTF-8 error: ");
            push_str(&mut m, e.as_str());
            Err(m)
        },
    }
}

/// `String::from_utf8`: the string whose UTF-8 encoding the bytes are, or the
/// rendered error when they are not valid UTF-8. The text of that error is not stated.
#[verifier::external_body]
pub(crate) fn string_from_utf8(bytes: Vec<u8>) -> (r: Result<String, String>)
    ensures
        r is Ok <==> valid_utf8(bytes@),
        r matches Ok(s) ==> s@ == decode_utf8(bytes@),
{
    String::from_utf8(bytes).map_err(|e| e.to_string())
}


// ---------------------------------------------------------------------------
// Decoding what was encoded gives the bytes back
// ---------------------------------------------------------------------------

/// The 6-bit values that the encoding of `b` writes, without padding.
pub open spec fn sextets(b: Seq<u8>) -> Seq<u8>
    decreases b.len(),
{
    if b.len() == 0 {
        seq![]
    } else if b.len() == 1 {
        seq![e1(b[0]), e2(b[0], 0u8)]
    } else if b.len() == 2 {
        seq![e1(b[0]), e2(b[0], b[1]), e3(b[1], 0u8)]
    } else if b.len() == 3 {
        seq![e1(b[0]), e2(b[0], b[1]), e3(b[1], b[2]), e4(b[2])]
    } else {
        seq![e1(b[0]), e2(b[0], b[1]), e3(b[1], b[2]), e4(b[2])] + sextets(b.skip(3))
    }
}

/// The padding that ends the encoding of `n` bytes.
pub open spec fn padding(n: nat) -> Seq<char> {
    if n % 3 == 1 {
        seq!['=', '=']
    } else if n % 3 == 2 {
        seq!['=']
    } else {
        seq![]
    }
}

pub open spec fn alphabet_chars(v: Seq<u8>) -> Seq<char> {
    v.map_values(|x: u8| b64_char(x))
}

proof fn lemma_char_value(v: u8)
    requires
        v < 64,
    ensures
        b64_value(b64_char(v)) == Some(v),
        b64_char(v) != '=',
{
}

proof fn lemma_sextets_small(b: Seq<u8>)
    ensures
        forall|i: int| 0 <= i < sextets(b).len() ==> #[trigger] sextets(b)[i] < 64,
    decreases b.len(),
{
    if b.len() >= 1 {
        let x1 = if b.len() > 1 { b[1] } else { 0u8 };
        let x2 = if b.len() > 2 { b[2] } else { 0u8 };
        lemma_bits(b[0], x1, x2);
    }
    if b.len() > 3 {
        lemma_sextets_small(b.skip(3));
        assert forall|i: int| 0 <= i < sextets(b).len() implies #[trigger] sextets(b)[i] < 64 by {
            if i >= 4 {
                assert(sextets(b)[i] == sextets(b.skip(3))[i - 4]);
            }
        }
    }
}

proof fn lemma_encode_shape(b: Seq<u8>)
    ensures
        b64_encode_spec(b) == alphabet_chars(sextets(b)) + padding(b.len()),
    decreases b.len(),
{
    if b.len() == 0 {
        assert(alphabet_chars(sextets(b)) + padding(b.len()) =~= Seq::<char>::empty());
    } else if b.len() <= 3 {
        assert(b64_encode_spec(b) =~= alphabet_chars(sextets(b)) + padding(b.len()));
    } else {
        lemma_encode_shape(b.skip(3));
        let head = seq![e1(b[0]), e2(b[0], b[1]), e3(b[1], b[2]), e4(b[2])];
        assert(sextets(b) == head + sextets(b.skip(3)));
        assert(alphabet_chars(head + sextets(b.skip(3))) =~= alphabet_chars(head)
            + alphabet_chars(sextets(b.skip(3))));
        assert(enc_chunk(b) =~= alphabet_chars(head));
        assert(padding(b.skip(3).len()) == padding(b.len()));
        assert(b64_encode_spec(b) =~= alphabet_chars(sextets(b)) + padding(b.len()));
    }
}

proof fn lemma_strip_padding(c: Seq<char>, n: nat)
    requires
        forall|i: int| 0 <= i < c.len() ==> c[i] != '=',
    ensures
        strip_pad(c + padding(n)) == c,
{
    let p = padding(n);
    if c.len() > 0 {
        assert(c.last() != '=');
    }
    assert(strip_pad(c) == c);
    if p.len() == 2 {
        assert((c + p).drop_last() =~= c + seq!['=']);
        assert((c + seq!['=']).drop_last() =~= c);
        assert(strip_pad(c + seq!['=']) == strip_pad(c));
        assert(strip_pad(c + p) == strip_pad(c + seq!['=']));
    } else if p.len() == 1 {
        assert((c + p).drop_last() =~= c);
        assert(strip_pad(c + p) == strip_pad(c));
    } else {
        assert(c + p =~= c);
    }
}

proof fn lemma_alphabet_values(v: Seq<u8>)
    requires
        forall|i: int| 0 <= i < v.len() ==> #[trigger] v[i] < 64,
    ensures
        first_invalid(alphabet_chars(v)) is None,
        b64_values(alphabet_chars(v)) == v,
        forall|i: int| 0 <= i < alphabet_chars(v).len() ==> alphabet_chars(v)[i] != '=',
    decreases v.len(),
{
    if v.len() > 0 {
        lemma_char_value(v[0]);
        lemma_alphabet_values(v.drop_first());
        assert(alphabet_chars(v).drop_first() =~= alphabet_chars(v.drop_first()));
        assert forall|i: int| 0 <= i < alphabet_chars(v).len() implies alphabet_chars(v)[i]
            != '=' by {
            lemma_char_value(v[i]);
        }
        assert forall|i: int| 0 <= i < v.len() implies #[trigger] b64_values(alphabet_chars(v))[i]
            == v[i] by {
            lemma_char_value(v[i]);
        }
        assert(b64_values(alphabet_chars(v)) =~= v);
    }
}

proof fn lemma_join_sextets(b: Seq<u8>)
    ensures
        b64_join(sextets(b)) == b,
    decreases b.len(),
{
    if b.len() == 0 {
    } else {
        let x1 = if b.len() > 1 { b[1] } else { 0u8 };
        let x2 = if b.len() > 2 { b[2] } else { 0u8 };
        lemma_bits(b[0], x1, x2);
        if b.len() <= 3 {
            assert(b64_join(sextets(b)) =~= b);
        } else {
            lemma_join_sextets(b.skip(3));
            let head = seq![e1(b[0]), e2(b[0], b[1]), e3(b[1], b[2]), e4(b[2])];
            let v = sextets(b);
            assert(v == head + sextets(b.skip(3)));
            assert(v.skip(4) =~= sextets(b.skip(3)));
            assert(dec_chunk(v) =~= b.take(3));
            assert(b.take(3) + b.skip(3) =~= b);
        }
    }
}

/// Decoding the base64 text of a string gives back exactly the UTF-8 bytes of the
/// string, and those bytes decode to the string itself: `base64_decode` returns
/// `Ok(s)` on what `base64_encode(s)` returned.
pub proof fn base64_roundtrip(s: Seq<char>)
    ensures
        b64_decode_bytes(b64_text(s)) == Ok::<Seq<u8>, char>(encode_utf8(s)),
        valid_utf8(encode_utf8(s)),
        decode_utf8(encode_utf8(s)) == s,
{
    let b = encode_utf8(s);
    lemma_encode_shape(b);
    lemma_sextets_small(b);
    lemma_alphabet_values(sextets(b));
    lemma_strip_padding(alphabet_chars(sextets(b)), b.len());
    lemma_join_sextets(b);
    encode_utf8_valid_utf8(s);
    encode_utf8_decode_utf8(s);
}

/// Every character of a base64 text is from the alphabet or is `=`.
pub proof fn lemma_b64_text_chars(s: Seq<char>)
    ensures
        forall|i: int| 0 <= i < b64_text(s).len() ==> (b64_value(#[trigger] b64_text(s)[i]) is Some
            || b64_text(s)[i] == '='),
{
    let b = encode_utf8(s);
    lemma_encode_shape(b);
    lemma_sextets_small(b);
    let a = alphabet_chars(sextets(b));
    assert forall|i: int| 0 <= i < b64_text(s).len() implies (b64_value(#[trigger] b64_text(s)[i])
        is Some || b64_text(s)[i] == '=') by {
        if i < a.len() {
            lemma_char_value(sextets(b)[i]);
        }
    }
}

} // verus!
