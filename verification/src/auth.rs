//! Authentication: the compact token format `base64(header).base64(claims).signature`.
//!
//! The signature is a djb2 hash of the first two parts, written in lowercase hexadecimal.
//! Token generation and validation read the clock; the functions that do the rest take
//! the clock reading as an argument and are exact.
use vstd::prelude::*;
use vstd::utf8::*;
use vstd::wrapping::u64_specs;
use crate::base64::{b64_decode_bytes, b64_text, base64_decode, base64_encode, invalid_char_message};
use crate::clock::unix_time_millis;
use crate::security::{SecurityError, SecurityResult};
use crate::text::{
    split_spec, split_from, split_char,
    occurs_at,
    chars_of, decimal, find_chars, find_char, find_char_from, find_from, find_spec, hex, owned,
    push_char, push_hex, push_signed_decimal, push_str, signed_decimal, string_of_range,
    str_eq, lemma_find_char_from,
};

verus! {

/// JWT claims structure.
#[derive(Debug, Clone)]
pub struct Claims {
    pub sub: String,
    pub exp: i64,
    pub iat: i64,
}

/// A token split into its parts.
#[derive(Debug)]
pub struct Token {
    pub header: String,
    pub payload: Claims,
    pub signature: String,
}

// ---------------------------------------------------------------------------
// Signature
// ---------------------------------------------------------------------------

/// The djb2 hash (seed 5381, `h * 33 + byte`, wrapping) of a byte sequence.
pub open spec fn djb2(b: Seq<u8>) -> u64
    decreases b.len(),
{
    if b.len() == 0 {
        5381
    } else {
        u64_specs::wrapping_add(u64_specs::wrapping_mul(djb2(b.drop_last()), 33), b.last() as u64)
    }
}

/// The signature of a text: the lowercase hexadecimal djb2 hash of its UTF-8 bytes.
pub open spec fn signature_of(data: Seq<char>) -> Seq<char> {
    hex(djb2(encode_utf8(data)) as nat)
}

/// Computes the signature of `data`.
pub fn simple_sign(data: &str) -> (r: String)
    ensures
        r@ == signature_of(data@),
{
    let bytes = data.as_bytes();
    let mut hash: u64 = 5381;
    let mut i: usize = 0;
    while i < bytes.len()
        invariant
            i <= bytes@.len(),
            bytes@ == encode_utf8(data@),
            hash == djb2(bytes@.take(i as int)),
        decreases bytes@.len() - i,
    {
        assert(bytes@.take(i + 1).drop_last() =~= bytes@.take(i as int));
        hash = hash.wrapping_mul(33).wrapping_add(bytes[i] as u64);
        i = i + 1;
    }
    assert(bytes@.take(bytes@.len() as int) =~= bytes@);
    let mut s = String::new();
    push_hex(&mut s, hash);
    assert(Seq::<char>::empty() + hex(hash as nat) =~= hex(hash as nat));
    s
}

// ---------------------------------------------------------------------------
// Reading fields of the claims text
// ---------------------------------------------------------------------------

/// The text that precedes a string field's value: `"field":"`.
pub open spec fn field_pattern(field: Seq<char>) -> Seq<char> {
    seq!['"'] + field + seq!['"', ':', '"']
}

/// The text that precedes a number field's value: `"field":`.
pub open spec fn number_pattern(field: Seq<char>) -> Seq<char> {
    seq!['"'] + field + seq!['"', ':']
}

/// The value of the first string field `field` of `json`: the text from after its
/// pattern up to the next `"`.
pub open spec fn extract_field_spec(json: Seq<char>, field: Seq<char>) -> Option<Seq<char>> {
    match find_spec(json, field_pattern(field)) {
        None => None,
        Some(i) => {
            let start = i + field_pattern(field).len();
            match find_char_from(json, '"', start) {
                None => None,
                Some(e) => Some(json.subrange(start, e)),
            }
        },
    }
}

pub open spec fn is_digit(c: char) -> bool {
    '0' <= c && c <= '9'
}

/// The first position at or after `from` holding a character other than an ASCII digit.
pub open spec fn first_non_digit_from(v: Seq<char>, from: int) -> Option<int>
    decreases v.len() - from,
{
    if from < 0 || from >= v.len() {
        None
    } else if !is_digit(v[from]) {
        Some(from)
    } else {
        first_non_digit_from(v, from + 1)
    }
}

/// The number that a string of ASCII digits writes in decimal.
pub open spec fn digits_value(s: Seq<char>) -> nat
    decreases s.len(),
{
    if s.len() == 0 {
        0
    } else {
        digits_value(s.drop_last()) * 10 + ((s.last() as int - 48) as nat)
    }
}

/// What `str::parse::<i64>` gives for a string of ASCII digits.
pub open spec fn parse_digits(s: Seq<char>) -> Option<i64> {
    if s.len() == 0 || digits_value(s) > i64::MAX {
        None
    } else {
        Some(digits_value(s) as i64)
    }
}

/// The value of the first number field `field` of `json`: the digits after its pattern,
/// which must be followed by some other character.
pub open spec fn extract_number_spec(json: Seq<char>, field: Seq<char>) -> Option<i64> {
    match find_spec(json, number_pattern(field)) {
        None => None,
        Some(i) => {
            let start = i + number_pattern(field).len();
            match first_non_digit_from(json, start) {
                None => None,
                Some(e) => parse_digits(json.subrange(start, e)),
            }
        },
    }
}

fn pattern_chars(field: &str, tail: &str) -> (v: Vec<char>)
    ensures
        v@ == seq!['"'] + field@ + tail@,
{
    let mut p = owned("\"");
    push_str(&mut p, field);
    push_str(&mut p, tail);
    proof {
        reveal_strlit("\"");
    }
    assert("\""@ =~= seq!['"']);
    chars_of(p.as_str())
}

/// Reads the string field `field` of a flat JSON object.
pub fn extract_json_field(json: &str, field: &str) -> (r: Option<String>)
    ensures
        r matches Some(s) ==> extract_field_spec(json@, field@) == Some(s@),
        r is None ==> extract_field_spec(json@, field@) is None,
{
    proof {
        reveal_strlit("\":\"");
    }
    let pat = pattern_chars(field, "\":\"");
    assert(pat@ =~= field_pattern(field@));
    let v = chars_of(json);
    match find_chars(&v, &pat, 0) {
        None => None,
        Some(i) => {
            proof {
                crate::text::lemma_find_from(v@, pat@, 0);
            }
            assert(v@.len() == v.len());
            let start = i + pat.len();
            match find_char(&v, '"', start) {
                None => None,
                Some(e) => {
                    proof {
                        lemma_find_char_from(v@, '"', start as int);
                    }
                    Some(string_of_range(&v, start, e))
                },
            }
        },
    }
}

proof fn lemma_digits_value_grows(s: Seq<char>, k: int)
    requires
        0 <= k <= s.len(),
        forall|i: int| 0 <= i < s.len() ==> is_digit(#[trigger] s[i]),
    ensures
        digits_value(s.take(k)) <= digits_value(s),
    decreases s.len() - k,
{
    if k < s.len() {
        assert(s.drop_last().take(k) =~= s.take(k));
        lemma_digits_value_grows(s.drop_last(), k);
    } else {
        assert(s.take(k) =~= s);
    }
}

/// Reads the number field `field` of a flat JSON object.
pub fn extract_json_number(json: &str, field: &str) -> (r: Option<i64>)
    ensures
        r == extract_number_spec(json@, field@),
{
    proof {
        reveal_strlit("\":");
    }
    let pat = pattern_chars(field, "\":");
    assert(pat@ =~= number_pattern(field@));
    let v = chars_of(json);
    match find_chars(&v, &pat, 0) {
        None => None,
        Some(i) => {
            proof {
                crate::text::lemma_find_from(v@, pat@, 0);
            }
            assert(v@.len() == v.len());
            let start = i + pat.len();
            let mut e = start;
            while e < v.len() && '0' <= v[e] && v[e] <= '9'
                invariant
                    start <= e,
                    first_non_digit_from(v@, start as int) == first_non_digit_from(v@, e as int),
                    forall|j: int| start <= j < e ==> is_digit(#[trigger] v@[j]),
                decreases v@.len() - e,
            {
                e = e + 1;
            }
            if e >= v.len() {
                return None;
            }
            let ghost digits = v@.subrange(start as int, e as int);
            assert forall|j: int| 0 <= j < digits.len() implies is_digit(#[trigger] digits[j]) by {
                assert(digits[j] == v@[start + j]);
            }
            if e == start {
                return None;
            }
            assert(first_non_digit_from(v@, e as int) == Some(e as int));
            let mut acc: u64 = 0;
            let mut k: usize = start;
            while k < e
                invariant
                    start <= k <= e < v@.len(),
                    v@ == json@,
                    first_non_digit_from(v@, start as int) == Some(e as int),
                    find_spec(json@, number_pattern(field@)) == Some(i as int),
                    start == i + number_pattern(field@).len(),
                    digits == v@.subrange(start as int, e as int),
                    forall|j: int| 0 <= j < digits.len() ==> is_digit(#[trigger] digits[j]),
                    acc == digits_value(digits.take(k - start)),
                    acc <= i64::MAX,
                decreases e - k,
            {
                assert(digits.take(k - start + 1).drop_last() =~= digits.take(k - start));
                assert(digits[k - start] == v@[k as int]);
                let d = (v[k] as u32 - 48) as u64;
                assert(digits_value(digits.take(k - start + 1)) == acc * 10 + d) by {
                    assert(digits.take(k - start + 1).last() == v@[k as int]);
                }
                if acc > (9223372036854775807u64 - d) / 10 {
                    proof {
                        assert(acc * 10 + d > 9223372036854775807u64) by (nonlinear_arith)
                            requires
                                acc > (9223372036854775807u64 - d) / 10,
                                d <= 9,
                        ;
                        lemma_digits_value_grows(digits, k - start + 1);
                    }
                    return None;
                }
                acc = acc * 10 + d;
                k = k + 1;
            }
            assert(digits.take(e - start) =~= digits);
            Some(acc as i64)
        },
    }
}

/// Why reading claims from a text failed.
pub open spec fn missing_field_message(field: Seq<char>) -> Seq<char> {
    "Missing '"@ + field + "' field"@
}

/// The claims that the text `json` holds, or which field is missing.
pub open spec fn claims_of(json: Seq<char>) -> Result<(Seq<char>, i64, i64), Seq<char>> {
    match extract_field_spec(json, "sub"@) {
        None => Err("sub"@),
        Some(sub) => match extract_number_spec(json, "iat"@) {
            None => Err("iat"@),
            Some(iat) => match extract_number_spec(json, "exp"@) {
                None => Err("exp"@),
                Some(exp) => Ok((sub, iat, exp)),
            },
        },
    }
}

fn missing(field: &str) -> (e: SecurityError)
    ensures
        e matches SecurityError::InvalidToken(m) && m@ == missing_field_message(field@),
{
    let mut m = owned("Missing '");
    push_str(&mut m, field);
    push_str(&mut m, "' field");
    SecurityError::InvalidToken(m)
}

/// Reads the claims `sub`, `iat` and `exp` from the claims text.
pub fn parse_claims(json: &str) -> (r: SecurityResult<Claims>)
    ensures
        match claims_of(json@) {
            Ok((sub, iat, exp)) => r matches Ok(c) && c.sub@ == sub && c.iat == iat && c.exp
                == exp,
            Err(field) => r matches Err(SecurityError::InvalidToken(m)) && m@
                == missing_field_message(field),
        },
{
    let sub = match extract_json_field(json, "sub") {
        Some(s) => s,
        None => return Err(missing("sub")),
    };
    let iat = match extract_json_number(json, "iat") {
        Some(n) => n,
        None => return Err(missing("iat")),
    };
    let exp = match extract_json_number(json, "exp") {
        Some(n) => n,
        None => return Err(missing("exp")),
    };
    Ok(Claims { sub, iat, exp })
}


// ---------------------------------------------------------------------------
// Tokens
// ---------------------------------------------------------------------------

/// The header text of every token.
pub open spec fn header_json() -> Seq<char> {
    "{\"alg\":\"HS256\",\"typ\":\"JWT\"}"@
}

/// The claims text of a token.
#[verifier::opaque]
pub open spec fn payload_json(sub: Seq<char>, iat: i64, exp: i64) -> Seq<char> {
    "{\"sub\":\""@ + sub + "\",\"iat\":"@ + signed_decimal(iat as int) + ",\"exp\":"@
        + signed_decimal(exp as int) + "}"@
}

/// The token for the given claims: header, claims and signature, joined by `.`.
pub open spec fn token_spec(sub: Seq<char>, iat: i64, exp: i64) -> Seq<char> {
    let h = b64_text(header_json());
    let p = b64_text(payload_json(sub, iat, exp));
    h + seq!['.'] + p + seq!['.'] + signature_of(h + seq!['.'] + p)
}

/// Writes the token for the claims `sub`, `iat` and `exp`.
pub fn encode_token(sub: &str, iat: i64, exp: i64) -> (r: String)
    ensures
        r@ == token_spec(sub@, iat, exp),
{
    let header = base64_encode("{\"alg\":\"HS256\",\"typ\":\"JWT\"}");
    let mut claims_text = owned("{\"sub\":\"");
    push_str(&mut claims_text, sub);
    push_str(&mut claims_text, "\",\"iat\":");
    push_signed_decimal(&mut claims_text, iat);
    push_str(&mut claims_text, ",\"exp\":");
    push_signed_decimal(&mut claims_text, exp);
    push_str(&mut claims_text, "}");
    proof {
        reveal(payload_json);
    }
    assert(claims_text@ =~= payload_json(sub@, iat, exp));
    let payload = base64_encode(claims_text.as_str());
    let mut signing_input = owned(header.as_str());
    push_char(&mut signing_input, '.');
    push_str(&mut signing_input, payload.as_str());
    assert(signing_input@ =~= b64_text(header_json()) + seq!['.'] + b64_text(
        payload_json(sub@, iat, exp),
    ));
    let signature = simple_sign(signing_input.as_str());
    let mut token = signing_input;
    push_char(&mut token, '.');
    push_str(&mut token, signature.as_str());
    assert(token@ =~= token_spec(sub@, iat, exp));
    token
}

fn invalid_token(msg: &str) -> (e: SecurityError)
    ensures
        e matches SecurityError::InvalidToken(m) && m@ == msg@,
{
    SecurityError::InvalidToken(owned(msg))
}

fn prefixed_invalid_token(prefix: &str, detail: &str) -> (e: SecurityError)
    ensures
        e matches SecurityError::InvalidToken(m) && m@ == prefix@ + detail@,
{
    let mut m = owned(prefix);
    push_str(&mut m, detail);
    SecurityError::InvalidToken(m)
}

/// What generating a token for `user_id` gives, for a lifetime of `duration_ms`
/// milliseconds and the clock reading `now`: an error for a zero lifetime or a clock error;
/// else the token whose issue time is the reading and whose expiry is the issue time plus
/// the lifetime, both taken as `i64` (wrapping).
pub open spec fn generated(user_id: Seq<char>, duration_ms: u128, now: Result<u128, String>, r: SecurityResult<String>) -> bool {
    if duration_ms == 0 {
        r matches Err(SecurityError::InvalidToken(m)) && m@ == "Duration must be greater than zero"@
    } else {
        match now {
            Err(e) => r matches Err(SecurityError::InvalidToken(m)) && m@ == "System time error: "@
                + e@,
            Ok(t) => r matches Ok(tok) && tok@ == token_spec(
                user_id,
                t as i64,
                i64_wrapping_add(t as i64, duration_ms as i64),
            ),
        }
    }
}

/// Generates a token for `user_id`, given the requested lifetime in milliseconds and
/// the clock reading (milliseconds since the Unix epoch, or the clock's error); see
/// `generated`.
pub fn generate_jwt_from(user_id: &str, duration_ms: u128, now: Result<u128, String>) -> (r:
    SecurityResult<String>)
    ensures
        generated(user_id@, duration_ms, now, r),
{
    if duration_ms == 0 {
        return Err(invalid_token("Duration must be greater than zero"));
    }
    let t = match now {
        Ok(t) => t,
        Err(e) => return Err(prefixed_invalid_token("System time error: ", e.as_str())),
    };
    let iat = t as i64;
    let exp = iat.wrapping_add(duration_ms as i64);
    Ok(encode_token(user_id, iat, exp))
}

/// `i64::wrapping_add`.
pub open spec fn i64_wrapping_add(a: i64, b: i64) -> i64 {
    vstd::wrapping::i64_specs::wrapping_add(a, b)
}

/// Generates a token for `user_id` that expires `duration_ms` milliseconds from now: a
/// zero lifetime is refused before the clock is read; otherwise the token is issued at
/// the system clock's reading (see `generated`).
pub fn generate_jwt(user_id: &str, duration_ms: u128) -> (r: SecurityResult<String>)
    ensures
        exists|now: Result<u128, String>| generated(user_id@, duration_ms, now, r),
        duration_ms == 0 ==> (r matches Err(SecurityError::InvalidToken(m)) && m@
            == "Duration must be greater than zero"@),
        duration_ms > 0 ==> (r is Ok || (r matches Err(SecurityError::InvalidToken(m))
            && "System time error: "@.is_prefix_of(m@))),
{
    if duration_ms == 0 {
        let r = Err(invalid_token("Duration must be greater than zero"));
        assert(generated(user_id@, duration_ms, Ok::<u128, String>(0), r));
        return r;
    }
    let now = unix_time_millis();
    let ghost now0 = now;
    let r = generate_jwt_from(user_id, duration_ms, now);
    proof {
        if now0 is Err {
            let e = now0->Err_0;
            assert(("System time error: "@ + e@).take("System time error: "@.len() as int)
                =~= "System time error: "@);
        }
    }
    r
}

/// What validating `token` against the clock reading `now` gives: three `.`-separated
/// parts, a matching signature, claims text that decodes and holds `sub`, `iat` and `exp`,
/// and an expiry not before `now`; each failure with its message.
pub open spec fn validated(token: Seq<char>, now: Result<u128, String>, r: SecurityResult<Claims>) -> bool {
    let parts = split_spec(token, '.');
    if parts.len() != 3 {
        r matches Err(SecurityError::InvalidToken(m)) && m@ == "Invalid token format"@
    } else if parts[2] != signature_of(parts[0] + seq!['.'] + parts[1]) {
        r matches Err(SecurityError::InvalidToken(m)) && m@ == "Invalid signature"@
    } else {
        match b64_decode_bytes(parts[1]) {
            Err(c) => r matches Err(SecurityError::InvalidToken(m)) && m@
                == "Invalid payload encoding: "@ + invalid_char_message(c),
            Ok(bytes) => if !valid_utf8(bytes) {
                r matches Err(SecurityError::InvalidToken(m))
                    && "Invalid payload encoding: UTF-8 error: "@.is_prefix_of(m@)
            } else {
                match claims_of(decode_utf8(bytes)) {
                    Err(f) => r matches Err(SecurityError::InvalidToken(m)) && m@
                        == missing_field_message(f),
                    Ok((sub, iat, exp)) => match now {
                        Err(e) => r matches Err(SecurityError::InvalidToken(m)) && m@
                            == "System time error: "@ + e@,
                        Ok(t) => if exp < #[verifier::truncate] (t as i64) {
                            r matches Err(SecurityError::InvalidToken(m)) && m@
                                == "Token expired"@
                        } else {
                            r matches Ok(c) && c.sub@ == sub && c.iat == iat && c.exp
                                == exp
                        },
                    },
                }
            },
        }
    }
}

/// Validates a token against the clock reading `now` (milliseconds since the Unix epoch,
/// or the clock's error): three `.`-separated parts, a matching signature, claims text
/// that decodes and holds `sub`, `iat` and `exp`, and an expiry not before `now`.
pub fn validate_jwt_from(token: &str, now: Result<u128, String>) -> (r: SecurityResult<Claims>)
    ensures
        validated(token@, now, r),
{
    let parts = split_char(token, '.');
    proof {
        assert(parts@.map_values(|p: String| p@).len() == parts@.len());
    }
    if parts.len() != 3 {
        return Err(invalid_token("Invalid token format"));
    }
    let ghost views = parts@.map_values(|p: String| p@);
    assert(views[0] == parts@[0]@ && views[1] == parts@[1]@ && views[2] == parts@[2]@);
    let mut signing_input = owned(parts[0].as_str());
    push_char(&mut signing_input, '.');
    push_str(&mut signing_input, parts[1].as_str());
    assert(signing_input@ =~= views[0] + seq!['.'] + views[1]);
    let expected = simple_sign(signing_input.as_str());
    proof {
        reveal_strlit("Invalid payload encoding: ");
        reveal_strlit("UTF-8 error: ");
        reveal_strlit("Invalid payload encoding: UTF-8 error: ");
    }
    if !str_eq(parts[2].as_str(), expected.as_str()) {
        return Err(invalid_token("Invalid signature"));
    }
    let payload_json = match base64_decode(parts[1].as_str()) {
        Ok(j) => j,
        Err(e) => {
            proof {
                let pre = "Invalid payload encoding: "@;
                let u = "UTF-8 error: "@;
                assert(pre + u =~= "Invalid payload encoding: UTF-8 error: "@);
                if u.is_prefix_of(e@) {
                    assert((pre + e@).take((pre + u).len() as int) =~= pre + u);
                }
            }
            return Err(prefixed_invalid_token("Invalid payload encoding: ", e.as_str()));
        },
    };
    let claims = parse_claims(payload_json.as_str())?;
    let t = match now {
        Ok(t) => t,
        Err(e) => return Err(prefixed_invalid_token("System time error: ", e.as_str())),
    };
    if claims.exp < #[verifier::truncate] (t as i64) {
        return Err(invalid_token("Token expired"));
    }
    Ok(claims)
}

/// Validates a token against the system clock.
pub fn validate_jwt(token: &str) -> (r: SecurityResult<Claims>)
    ensures
        exists|now: Result<u128, String>| validated(token@, now, r),
{
    let now = unix_time_millis();
    validate_jwt_from(token, now)
}

// ---------------------------------------------------------------------------
// A token that was generated validates to its own claims
// ---------------------------------------------------------------------------

proof fn lemma_find_from_at(h: Seq<char>, p: Seq<char>, from: int, k: int)
    requires
        0 <= from <= k,
        occurs_at(h, p, k),
        forall|j: int| from <= j < k ==> !occurs_at(h, p, j),
    ensures
        find_from(h, p, from) == Some(k),
    decreases k - from,
{
    if from < k {
        lemma_find_from_at(h, p, from + 1, k);
    }
}

proof fn lemma_find_char_at(v: Seq<char>, c: char, from: int, k: int)
    requires
        0 <= from <= k < v.len(),
        v[k] == c,
        forall|j: int| from <= j < k ==> v[j] != c,
    ensures
        find_char_from(v, c, from) == Some(k),
    decreases k - from,
{
    if from < k {
        lemma_find_char_at(v, c, from + 1, k);
    }
}

proof fn lemma_first_non_digit_at(v: Seq<char>, from: int, k: int)
    requires
        0 <= from <= k < v.len(),
        !is_digit(v[k]),
        forall|j: int| from <= j < k ==> is_digit(v[j]),
    ensures
        first_non_digit_from(v, from) == Some(k),
    decreases k - from,
{
    if from < k {
        lemma_first_non_digit_at(v, from + 1, k);
    }
}

proof fn lemma_decimal(n: nat)
    ensures
        decimal(n).len() >= 1,
        forall|i: int| 0 <= i < decimal(n).len() ==> is_digit(#[trigger] decimal(n)[i]),
        digits_value(decimal(n)) == n,
    decreases n,
{
    let c = crate::text::digit_char(n % 10);
    assert(c as int == 48 + n % 10);
    if n < 10 {
        assert(decimal(n).drop_last() =~= Seq::<char>::empty());
        assert(decimal(n).last() == c);
        assert(digits_value(Seq::<char>::empty()) == 0);
        assert(digits_value(decimal(n)) == digits_value(decimal(n).drop_last()) * 10 + (n % 10));
    } else {
        lemma_decimal(n / 10);
        let d = decimal(n / 10);
        assert(decimal(n).drop_last() =~= d);
        assert(decimal(n).last() == c);
        assert(digits_value(decimal(n)) == digits_value(d) * 10 + (n % 10));
        assert forall|i: int| 0 <= i < decimal(n).len() implies is_digit(#[trigger] decimal(n)[i]) by {
            if i < d.len() {
                assert(decimal(n)[i] == d[i]);
            }
        }
    }
}

proof fn lemma_hex_chars(n: nat)
    ensures
        forall|i: int| 0 <= i < hex(n).len() ==> #[trigger] hex(n)[i] != '.',
    decreases n,
{
    if n >= 16 {
        lemma_hex_chars(n / 16);
        assert forall|i: int| 0 <= i < hex(n).len() implies #[trigger] hex(n)[i] != '.' by {
            if i < hex(n / 16).len() {
                assert(hex(n)[i] == hex(n / 16)[i]);
            }
        }
    }
}

proof fn lemma_split3(a: Seq<char>, b: Seq<char>, c: Seq<char>)
    requires
        forall|i: int| 0 <= i < a.len() ==> a[i] != '.',
        forall|i: int| 0 <= i < b.len() ==> b[i] != '.',
        forall|i: int| 0 <= i < c.len() ==> c[i] != '.',
    ensures
        split_spec(a + seq!['.'] + b + seq!['.'] + c, '.') == seq![a, b, c],
{
    let t = a + seq!['.'] + b + seq!['.'] + c;
    let k1 = a.len() as int;
    let k2 = k1 + 1 + b.len();
    lemma_find_char_at(t, '.', 0, k1);
    lemma_find_char_at(t, '.', k1 + 1, k2);
    lemma_find_char_from(t, '.', k2 + 1);
    assert forall|j: int| k2 + 1 <= j < t.len() implies t[j] != '.' by {
        assert(t[j] == c[j - k2 - 1]);
    }
    assert(t.subrange(0, k1) =~= a);
    assert(t.subrange(k1 + 1, k2) =~= b);
    assert(t.subrange(k2 + 1, t.len() as int) =~= c);
    assert(split_from(t, '.', k2 + 1) == seq![c]);
    assert(split_from(t, '.', k1 + 1) =~= seq![b, c]);
    assert(split_from(t, '.', 0) =~= seq![a, b, c]);
}

proof fn lemma_no_dot_b64(s: Seq<char>)
    ensures
        forall|i: int| 0 <= i < b64_text(s).len() ==> #[trigger] b64_text(s)[i] != '.',
{
    crate::base64::lemma_b64_text_chars(s);
}

/// The quote positions of the claims text and the characters around them.
proof fn lemma_claims_text(sub: Seq<char>, iat: i64, exp: i64)
    requires
        !sub.contains('"'),
        0 <= iat,
        0 <= exp,
    ensures
        ({
            let j = payload_json(sub, iat, exp);
            let n = sub.len() as int;
            let d1 = decimal(iat as nat);
            let d2 = decimal(exp as nat);
            let m1 = d1.len() as int;
            let m2 = d2.len() as int;
            &&& j.len() == 24 + n + m1 + m2
            &&& j[0] == '{' && j[1] == '"' && j[2] == 's' && j[3] == 'u' && j[4] == 'b'
            &&& j[5] == '"' && j[6] == ':' && j[7] == '"'
            &&& (forall|i: int| 0 <= i < n ==> j[8 + i] == #[trigger] sub[i])
            &&& j[8 + n] == '"' && j[9 + n] == ',' && j[10 + n] == '"' && j[11 + n] == 'i'
            &&& j[12 + n] == 'a' && j[13 + n] == 't' && j[14 + n] == '"' && j[15 + n] == ':'
            &&& (forall|i: int| 0 <= i < m1 ==> j[16 + n + i] == #[trigger] d1[i])
            &&& j[16 + n + m1] == ',' && j[17 + n + m1] == '"' && j[18 + n + m1] == 'e'
            &&& j[19 + n + m1] == 'x' && j[20 + n + m1] == 'p' && j[21 + n + m1] == '"'
            &&& j[22 + n + m1] == ':'
            &&& (forall|i: int| 0 <= i < m2 ==> j[23 + n + m1 + i] == #[trigger] d2[i])
            &&& j[23 + n + m1 + m2] == '}'
            &&& j.subrange(8, 8 + n) == sub
            &&& j.subrange(16 + n, 16 + n + m1) == d1
            &&& j.subrange(23 + n + m1, 23 + n + m1 + m2) == d2
        }),
{
    reveal(payload_json);
    reveal_strlit("{\"sub\":\"");
    reveal_strlit("\",\"iat\":");
    reveal_strlit(",\"exp\":");
    reveal_strlit("}");
    let j = payload_json(sub, iat, exp);
    let n = sub.len() as int;
    let d1 = decimal(iat as nat);
    let d2 = decimal(exp as nat);
    let m1 = d1.len() as int;
    assert(signed_decimal(iat as int) == d1);
    assert(signed_decimal(exp as int) == d2);
    assert(j.subrange(8, 8 + n) =~= sub);
    assert(j.subrange(16 + n, 16 + n + m1) =~= d1);
    assert(j.subrange(23 + n + m1, 23 + n + m1 + d2.len()) =~= d2);
}

#[verifier::rlimit(40)]
proof fn lemma_sub_of_payload(sub: Seq<char>, iat: i64, exp: i64)
    requires
        !sub.contains('"'),
        0 <= iat,
        0 <= exp,
    ensures
        extract_field_spec(payload_json(sub, iat, exp), "sub"@) == Some(sub),
{
    lemma_claims_text(sub, iat, exp);
    lemma_decimal(iat as nat);
    lemma_decimal(exp as nat);
    let j = payload_json(sub, iat, exp);
    let n = sub.len() as int;
    let d1 = decimal(iat as nat);
    let d2 = decimal(exp as nat);
    let m1 = d1.len() as int;
    let m2 = d2.len() as int;
    assert forall|i: int| 0 <= i < n implies sub[i] != '"' by {
        if sub[i] == '"' {
            assert(sub.contains('"'));
        }
    }
    reveal_strlit("sub");
    reveal_strlit("iat");
    reveal_strlit("exp");
    // The subject.
    let p1 = field_pattern("sub"@);
    assert(p1 =~= seq!['"', 's', 'u', 'b', '"', ':', '"']);
    assert(occurs_at(j, p1, 1)) by {
        assert(j.subrange(1, 8) =~= p1);
    }
    assert(!occurs_at(j, p1, 0)) by {
        assert(j.subrange(0, 7)[0] == j[0]);
    }
    lemma_find_from_at(j, p1, 0, 1);
    assert forall|k: int| 8 <= k < 8 + n implies j[k] != '"' by {
        assert(j[k] == sub[k - 8]);
    }
    lemma_find_char_at(j, '"', 8, 8 + n);
    assert(extract_field_spec(j, "sub"@) == Some(sub));
}

#[verifier::rlimit(40)]
proof fn lemma_iat_of_payload(sub: Seq<char>, iat: i64, exp: i64)
    requires
        !sub.contains('"'),
        0 <= iat,
        0 <= exp,
    ensures
        extract_number_spec(payload_json(sub, iat, exp), "iat"@) == Some(iat),
{
    lemma_claims_text(sub, iat, exp);
    lemma_decimal(iat as nat);
    lemma_decimal(exp as nat);
    let j = payload_json(sub, iat, exp);
    let n = sub.len() as int;
    let d1 = decimal(iat as nat);
    let d2 = decimal(exp as nat);
    let m1 = d1.len() as int;
    let m2 = d2.len() as int;
    assert forall|i: int| 0 <= i < n implies sub[i] != '"' by {
        if sub[i] == '"' {
            assert(sub.contains('"'));
        }
    }
    reveal_strlit("iat");
    let p2 = number_pattern("iat"@);
    assert(p2 =~= seq!['"', 'i', 'a', 't', '"', ':']);
    assert(occurs_at(j, p2, 10 + n)) by {
        assert(j.subrange(10 + n, 16 + n) =~= p2);
    }
    assert forall|k: int| 0 <= k < 10 + n implies !occurs_at(j, p2, k) by {
        if occurs_at(j, p2, k) {
            let w = j.subrange(k, k + 6);
            assert(w[0] == j[k] && w[1] == j[k + 1] && w[2] == j[k + 2] && w[3] == j[k + 3]);
            assert(w[4] == j[k + 4] && w[5] == j[k + 5]);
            if 8 <= k < 8 + n {
                assert(j[k] == sub[k - 8]);
            } else if k == 7 {
                if n >= 4 {
                    assert(j[11] == sub[3]);
                } else if n >= 1 {
                    assert(j[8] == sub[0]);
                    if n >= 2 {
                        assert(j[9] == sub[1]);
                    }
                    if n >= 3 {
                        assert(j[10] == sub[2]);
                    }
                }
            }
        }
    }
    lemma_find_from_at(j, p2, 0, 10 + n);
    assert forall|k: int| 16 + n <= k < 16 + n + m1 implies is_digit(j[k]) by {
        assert(j[k] == d1[k - 16 - n]);
    }
    lemma_first_non_digit_at(j, 16 + n, 16 + n + m1);
    assert(parse_digits(d1) == Some(iat));
    assert(extract_number_spec(j, "iat"@) == Some(iat));
}

#[verifier::rlimit(40)]
proof fn lemma_exp_of_payload(sub: Seq<char>, iat: i64, exp: i64)
    requires
        !sub.contains('"'),
        0 <= iat,
        0 <= exp,
    ensures
        extract_number_spec(payload_json(sub, iat, exp), "exp"@) == Some(exp),
{
    lemma_claims_text(sub, iat, exp);
    lemma_decimal(iat as nat);
    lemma_decimal(exp as nat);
    let j = payload_json(sub, iat, exp);
    let n = sub.len() as int;
    let d1 = decimal(iat as nat);
    let d2 = decimal(exp as nat);
    let m1 = d1.len() as int;
    let m2 = d2.len() as int;
    assert forall|i: int| 0 <= i < n implies sub[i] != '"' by {
        if sub[i] == '"' {
            assert(sub.contains('"'));
        }
    }
    reveal_strlit("exp");
    let p3 = number_pattern("exp"@);
    assert(p3 =~= seq!['"', 'e', 'x', 'p', '"', ':']);
    assert(occurs_at(j, p3, 17 + n + m1)) by {
        assert(j.subrange(17 + n + m1, 23 + n + m1) =~= p3);
    }
    assert forall|k: int| 0 <= k < 17 + n + m1 implies !occurs_at(j, p3, k) by {
        if occurs_at(j, p3, k) {
            let w = j.subrange(k, k + 6);
            assert(w[0] == j[k] && w[1] == j[k + 1] && w[2] == j[k + 2] && w[3] == j[k + 3]);
            assert(w[4] == j[k + 4] && w[5] == j[k + 5]);
            if 8 <= k < 8 + n {
                assert(j[k] == sub[k - 8]);
            } else if 16 + n <= k < 16 + n + m1 {
                assert(j[k] == d1[k - 16 - n]);
            } else if k == 7 {
                if n >= 4 {
                    assert(j[11] == sub[3]);
                } else if n >= 1 {
                    assert(j[8] == sub[0]);
                    if n >= 2 {
                        assert(j[9] == sub[1]);
                    }
                    if n >= 3 {
                        assert(j[10] == sub[2]);
                    }
                }
            }
        }
    }
    lemma_find_from_at(j, p3, 0, 17 + n + m1);
    assert forall|k: int| 23 + n + m1 <= k < 23 + n + m1 + m2 implies is_digit(j[k]) by {
        assert(j[k] == d2[k - 23 - n - m1]);
    }
    lemma_first_non_digit_at(j, 23 + n + m1, 23 + n + m1 + m2);
    assert(parse_digits(d2) == Some(exp));
    assert(extract_number_spec(j, "exp"@) == Some(exp));
}

proof fn lemma_claims_of_payload(sub: Seq<char>, iat: i64, exp: i64)
    requires
        !sub.contains('"'),
        0 <= iat,
        0 <= exp,
    ensures
        claims_of(payload_json(sub, iat, exp)) == Ok::<(Seq<char>, i64, i64), Seq<char>>(
            (sub, iat, exp),
        ),
{
    lemma_sub_of_payload(sub, iat, exp);
    lemma_iat_of_payload(sub, iat, exp);
    lemma_exp_of_payload(sub, iat, exp);
}

/// A generated token validates to its own claims. For a subject without `"` and
/// non-negative issue and expiry times, the token that `encode_token` writes has three
/// parts and a matching signature, its claims text decodes back exactly, and reading the
/// claims gives the same subject, issue time and expiry: `validate_jwt_from` returns
/// these claims at any clock reading up to the expiry.
pub proof fn token_roundtrip(sub: Seq<char>, iat: i64, exp: i64)
    requires
        !sub.contains('"'),
        0 <= iat,
        0 <= exp,
    ensures
        ({
            let parts = split_spec(token_spec(sub, iat, exp), '.');
            let j = payload_json(sub, iat, exp);
            &&& parts.len() == 3
            &&& parts[2] == signature_of(parts[0] + seq!['.'] + parts[1])
            &&& b64_decode_bytes(parts[1]) == Ok::<Seq<u8>, char>(encode_utf8(j))
            &&& valid_utf8(encode_utf8(j))
            &&& decode_utf8(encode_utf8(j)) == j
            &&& claims_of(j) == Ok::<(Seq<char>, i64, i64), Seq<char>>((sub, iat, exp))
        }),
{
    let j = payload_json(sub, iat, exp);
    let h = b64_text(header_json());
    let p = b64_text(j);
    let g = signature_of(h + seq!['.'] + p);
    lemma_no_dot_b64(header_json());
    lemma_no_dot_b64(j);
    lemma_hex_chars(djb2(encode_utf8(h + seq!['.'] + p)) as nat);
    lemma_split3(h, p, g);
    crate::base64::base64_roundtrip(j);
    lemma_claims_of_payload(sub, iat, exp);
}

/// A generated token validates to its own claims: for a subject without `"` and a clock
/// reading whose issue time and expiry are not negative as `i64`, validating the token at
/// any time up to its expiry gives back the subject, issue time and expiry, and validating
/// it later reports it expired.
pub proof fn generated_token_validates(
    sub: Seq<char>,
    duration_ms: u128,
    t: u128,
    generated_r: SecurityResult<String>,
    later: u128,
    validated_r: SecurityResult<Claims>,
)
    requires
        !sub.contains('"'),
        duration_ms > 0,
        #[verifier::truncate] (t as i64) >= 0,
        i64_wrapping_add(#[verifier::truncate] (t as i64), #[verifier::truncate] (duration_ms as i64)) >= 0,
        generated(sub, duration_ms, Ok(t), generated_r),
        generated_r matches Ok(tok) && validated(tok@, Ok(later), validated_r),
    ensures
        ({
            let iat = #[verifier::truncate] (t as i64);
            let exp = i64_wrapping_add(iat, #[verifier::truncate] (duration_ms as i64));
            if exp < #[verifier::truncate] (later as i64) {
                validated_r matches Err(SecurityError::InvalidToken(m)) && m@ == "Token expired"@
            } else {
                validated_r matches Ok(c) && c.sub@ == sub && c.iat == iat && c.exp == exp
            }
        }),
{
    let iat = #[verifier::truncate] (t as i64);
    let exp = i64_wrapping_add(iat, #[verifier::truncate] (duration_ms as i64));
    token_roundtrip(sub, iat, exp);
}

} // verus!
