//! Signature authentication: HMAC-SHA256 over the raw request body,
//! carried in a `sha256=<hex>` header.

use vstd::prelude::*;
use vstd::string::*;
use vstd::utf8::encode_utf8;

verus! {

/// How a request failed authentication: the header was missing or not of
/// the `sha256=<hex>` shape, or the tag did not match the body.
#[derive(Debug, Clone, Copy, PartialEq, Eq, Structural)]
pub enum AuthError {
    Malformed,
    SignatureMismatch,
}

/// An ASCII hexadecimal digit, either case.
pub open spec fn is_hex_digit(c: char) -> bool {
    ('0' as u32 <= c as u32 && c as u32 <= '9' as u32) || ('a' as u32 <= c as u32 && c as u32
        <= 'f' as u32) || ('A' as u32 <= c as u32 && c as u32 <= 'F' as u32)
}

/// The value of one hexadecimal digit.
pub open spec fn hex_val(c: char) -> int {
    if '0' as u32 <= c as u32 && c as u32 <= '9' as u32 {
        c as u32 - '0' as u32
    } else if 'a' as u32 <= c as u32 && c as u32 <= 'f' as u32 {
        c as u32 - 'a' as u32 + 10
    } else {
        c as u32 - 'A' as u32 + 10
    }
}

/// Text that decodes as hex: even length, hexadecimal digits throughout.
pub open spec fn is_hex_seq(s: Seq<char>) -> bool {
    s.len() % 2 == 0 && forall|i: int| 0 <= i < s.len() ==> is_hex_digit(#[trigger] s[i])
}

/// The byte a pair of hex digits denotes, high digit first.
pub open spec fn spec_hex_byte(hi: char, lo: char) -> u8 {
    (hex_val(hi) * 16 + hex_val(lo)) as u8
}

/// The bytes a hex text denotes, one per digit pair.
pub open spec fn spec_hex_decode(s: Seq<char>) -> Seq<u8> {
    Seq::new((s.len() / 2) as nat, |i: int| spec_hex_byte(s[2 * i], s[2 * i + 1]))
}

/// The lowercase hex digit character for a value below sixteen.
pub open spec fn spec_hex_digit_char(d: int) -> char {
    if d == 0 {
        '0'
    } else if d == 1 {
        '1'
    } else if d == 2 {
        '2'
    } else if d == 3 {
        '3'
    } else if d == 4 {
        '4'
    } else if d == 5 {
        '5'
    } else if d == 6 {
        '6'
    } else if d == 7 {
        '7'
    } else if d == 8 {
        '8'
    } else if d == 9 {
        '9'
    } else if d == 10 {
        'a'
    } else if d == 11 {
        'b'
    } else if d == 12 {
        'c'
    } else if d == 13 {
        'd'
    } else if d == 14 {
        'e'
    } else {
        'f'
    }
}

/// The lowercase hex rendering of a byte sequence.
pub open spec fn spec_hex_encode(b: Seq<u8>) -> Seq<char> {
    Seq::new(
        2 * b.len(),
        |i: int|
            if i % 2 == 0 {
                spec_hex_digit_char(b[i / 2] as int / 16)
            } else {
                spec_hex_digit_char(b[i / 2] as int % 16)
            },
    )
}

/// Relies on `hex::decode`: it succeeds exactly on even-length, all
/// hex-digit input, and yields one byte per digit pair, high digit first.
#[verifier::external_body]
fn hex_decode(s: &str) -> (r: Option<Vec<u8>>)
    ensures
        r is Some <==> is_hex_seq(s@),
        r matches Some(v) ==> v@ == spec_hex_decode(s@),
{
    match hex::decode(s) {
        Ok(v) => Some(v),
        Err(_) => None,
    }
}

/// The HMAC-SHA256 tag of a message under a key, as ring computes it.
pub uninterp spec fn hmac_sha256_of(key: Seq<u8>, data: Seq<u8>) -> Seq<u8>;

/// Relies on ring's `hmac::Key::new` and `hmac::verify` with `HMAC_SHA256`:
/// verification computes the HMAC-SHA256 tag of `data` under `key` and
/// accepts exactly when it equals `tag`. The length bound keeps `data`
/// within SHA-256's input limit, under which ring reports no overlong
/// input.
#[verifier::external_body]
fn hmac_sha256_verify(key: &[u8], data: &[u8], tag: &[u8]) -> (r: bool)
    requires
        data@.len() < 0x1000000000000000,
    ensures
        r == (tag@ == hmac_sha256_of(key@, data@)),
{
    let k = ring::hmac::Key::new(ring::hmac::HMAC_SHA256, key);
    ring::hmac::verify(&k, data, tag).is_ok()
}

/// The view of an optional borrowed string.
pub open spec fn opt_str_view(o: Option<&String>) -> Option<Seq<char>> {
    match o {
        Some(s) => Some(s@),
        None => None,
    }
}

/// The view of an optional owned string.
pub open spec fn opt_string_view(o: Option<String>) -> Option<Seq<char>> {
    match o {
        Some(s) => Some(s@),
        None => None,
    }
}

/// What signature validation decides. Without a secret every request
/// passes. With one, the header must exist, carry the `sha256=` prefix and
/// decode as hex — else the request is malformed — and the decoded tag
/// must be the HMAC-SHA256 of the raw body under the secret's bytes.
pub open spec fn spec_validate(
    secret: Option<Seq<char>>,
    body: Seq<u8>,
    header: Option<Seq<char>>,
) -> Result<(), AuthError> {
    match secret {
        None => Ok(()),
        Some(sec) => match header {
            None => Err(AuthError::Malformed),
            Some(h) => if h.len() < 7 || h.take(7) != "sha256="@ {
                Err(AuthError::Malformed)
            } else if !is_hex_seq(h.skip(7)) {
                Err(AuthError::Malformed)
            } else if spec_hex_decode(h.skip(7)) == hmac_sha256_of(encode_utf8(sec), body) {
                Ok(())
            } else {
                Err(AuthError::SignatureMismatch)
            },
        },
    }
}

/// Validates a request's signature header against a hook's secret and the
/// exact raw body bytes.
pub fn validate_signature(secret: Option<&String>, body: &Vec<u8>, header: Option<&String>) -> (r:
    Result<(), AuthError>)
    requires
        body@.len() < 0x1000000000000000,
    ensures
        r == spec_validate(opt_str_view(secret), body@, opt_str_view(header)),
{
    let sec = match secret {
        Some(s) => s,
        None => {
            return Ok(());
        },
    };
    let h = match header {
        Some(h) => h,
        None => {
            return Err(AuthError::Malformed);
        },
    };
    let hlen = h.as_str().unicode_len();
    if hlen < 7 {
        return Err(AuthError::Malformed);
    }
    let prefix = h.as_str().substring_char(0, 7).to_owned();
    let expected = String::from_str("sha256=");
    proof {
        assert(prefix@ =~= h@.take(7));
    }
    if !prefix.eq(&expected) {
        return Err(AuthError::Malformed);
    }
    let rest = h.as_str().substring_char(7, hlen).to_owned();
    proof {
        assert(rest@ =~= h@.skip(7));
    }
    let decoded = match hex_decode(rest.as_str()) {
        Some(v) => v,
        None => {
            return Err(AuthError::Malformed);
        },
    };
    if hmac_sha256_verify(sec.as_str().as_bytes(), body.as_slice(), decoded.as_slice()) {
        Ok(())
    } else {
        Err(AuthError::SignatureMismatch)
    }
}

proof fn lemma_hex_digit_char_val(d: int)
    requires
        0 <= d < 16,
    ensures
        is_hex_digit(spec_hex_digit_char(d)),
        hex_val(spec_hex_digit_char(d)) == d,
{
}

/// Hex encoding round-trips: the lowercase rendering of any bytes is valid
/// hex text and decodes back to exactly those bytes.
pub proof fn lemma_hex_encode_decode(b: Seq<u8>)
    ensures
        is_hex_seq(spec_hex_encode(b)),
        spec_hex_decode(spec_hex_encode(b)) == b,
{
    let e = spec_hex_encode(b);
    assert forall|i: int| 0 <= i < e.len() implies is_hex_digit(#[trigger] e[i]) by {
        if i % 2 == 0 {
            lemma_hex_digit_char_val(b[i / 2] as int / 16);
        } else {
            lemma_hex_digit_char_val(b[i / 2] as int % 16);
        }
    }
    assert(spec_hex_decode(e) =~= b) by {
        assert forall|i: int| 0 <= i < b.len() implies spec_hex_decode(e)[i] == b[i] by {
            assert(e[2 * i] == spec_hex_digit_char(b[i] as int / 16));
            assert(e[2 * i + 1] == spec_hex_digit_char(b[i] as int % 16));
            lemma_hex_digit_char_val(b[i] as int / 16);
            lemma_hex_digit_char_val(b[i] as int % 16);
            assert(b[i] as int / 16 * 16 + b[i] as int % 16 == b[i] as int);
        }
    }
}

/// A target without a secret accepts every request, whatever the header
/// says or whether it is there at all.
pub proof fn lemma_no_secret_accepts(body: Seq<u8>, header: Option<Seq<char>>)
    ensures
        spec_validate(None, body, header) == Ok::<(), AuthError>(()),
{
}

/// A request whose header carries, after `sha256=`, the hex rendering of
/// the HMAC-SHA256 tag computed over the exact raw body under the hook's
/// secret is accepted.
pub proof fn lemma_correct_signature_accepted(secret: Seq<char>, body: Seq<u8>)
    ensures
        spec_validate(
            Some(secret),
            body,
            Some("sha256="@ + spec_hex_encode(hmac_sha256_of(encode_utf8(secret), body))),
        ) == Ok::<(), AuthError>(()),
{
    reveal_strlit("sha256=");
    let tag = hmac_sha256_of(encode_utf8(secret), body);
    let h = "sha256="@ + spec_hex_encode(tag);
    assert(h.take(7) =~= "sha256="@);
    assert(h.skip(7) =~= spec_hex_encode(tag));
    lemma_hex_encode_decode(tag);
}

/// A well-formed signature over any tag but the body's own is rejected as
/// a mismatch: mutating the signature — or standing by a tag computed over
/// different body bytes — fails validation.
pub proof fn lemma_wrong_signature_rejected(secret: Seq<char>, body: Seq<u8>, sig: Seq<u8>)
    requires
        sig != hmac_sha256_of(encode_utf8(secret), body),
    ensures
        spec_validate(Some(secret), body, Some("sha256="@ + spec_hex_encode(sig))) == Err::<
            (),
            AuthError,
        >(AuthError::SignatureMismatch),
{
    reveal_strlit("sha256=");
    let h = "sha256="@ + spec_hex_encode(sig);
    assert(h.take(7) =~= "sha256="@);
    assert(h.skip(7) =~= spec_hex_encode(sig));
    lemma_hex_encode_decode(sig);
}

} // verus!
