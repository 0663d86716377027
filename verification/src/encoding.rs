//! How texts and bytes are written into URLs, cookies and tokens.

use crate::text;
use vstd::prelude::*;
use vstd::string::*;
use vstd::utf8;

verus! {

/// The upper-case hexadecimal digit of `d`.
pub open spec fn hex_digit(d: int) -> char {
    if d < 10 {
        (('0' as int) + d) as char
    } else {
        (('A' as int) + d - 10) as char
    }
}

/// A byte as `%` and two hexadecimal digits.
pub open spec fn percent(b: u8) -> Seq<char> {
    seq!['%', hex_digit(b as int / 16), hex_digit(b as int % 16)]
}

/// Bytes written out, where `write` says how each of them is written.
pub open spec fn written(bytes: Seq<u8>, write: spec_fn(u8) -> Seq<char>) -> Seq<char>
    decreases bytes.len(),
{
    if bytes.len() == 0 {
        Seq::empty()
    } else {
        written(bytes.drop_last(), write) + write(bytes.last())
    }
}

/// ASCII letters and digits.
pub open spec fn is_alphanumeric(b: u8) -> bool {
    48 <= b <= 57 || 65 <= b <= 90 || 97 <= b <= 122
}

/// How a byte is written inside a component of a URL: letters, digits and
/// `- . _ ~` stand for themselves.
pub open spec fn url_byte(b: u8) -> Seq<char> {
    if is_alphanumeric(b) || b == 45 || b == 46 || b == 95 || b == 126 {
        seq![b as char]
    } else {
        percent(b)
    }
}

/// A text as a component of a URL.
pub open spec fn url_encoded(s: Seq<char>) -> Seq<char> {
    written(utf8::encode_utf8(s), |b: u8| url_byte(b))
}

/// `urlencoding::encode`: percent-encodes every byte of the UTF-8 form except
/// letters, digits, `-`, `.`, `_` and `~`.
#[verifier::external_body]
pub(crate) fn url_encode(s: &str) -> (r: String)
    ensures
        r@ == url_encoded(s@),
{
    urlencoding::encode(s).into_owned()
}

/// How a byte is written inside a form: letters, digits and `* - . _` stand for
/// themselves, and a space becomes `+`.
pub open spec fn form_byte(b: u8) -> Seq<char> {
    if is_alphanumeric(b) || b == 42 || b == 45 || b == 46 || b == 95 {
        seq![b as char]
    } else if b == 32 {
        seq!['+']
    } else {
        percent(b)
    }
}

/// A text as a name or a value in a form.
pub open spec fn form_encoded(s: Seq<char>) -> Seq<char> {
    written(utf8::encode_utf8(s), |b: u8| form_byte(b))
}

/// A field of a form.
pub open spec fn form_field(name: Seq<char>, value: Seq<char>) -> Seq<char> {
    form_encoded(name) + "="@ + form_encoded(value)
}

/// The fields of a form.
pub open spec fn form_fields(pairs: Seq<(&str, &str)>) -> Seq<Seq<char>> {
    pairs.map_values(|p: (&str, &str)| form_field(p.0@, p.1@))
}

/// `serde_urlencoded::to_string` on pairs of strings: each name and value in the
/// encoding of forms with `=` between them, and `&` between the pairs. It fails on
/// no pair of strings.
#[verifier::external_body]
pub(crate) fn encode_form(pairs: &[(&str, &str)]) -> (r: String)
    ensures
        r@ == text::joined(form_fields(pairs@), "&"@),
{
    serde_urlencoded::to_string(pairs).expect("pairs of strings always serialize")
}

/// How a byte is written inside a cookie: visible ASCII stands for itself but for
/// a few characters with a meaning in headers or URLs.
pub open spec fn cookie_byte(b: u8) -> Seq<char> {
    if 33 <= b <= 126 && b != 34 && b != 35 && b != 37 && b != 40 && b != 41 && b != 44 && b != 47
        && b != 58 && b != 59 && b != 60 && b != 61 && b != 62 && b != 63 && b != 64 && b != 91
        && b != 92 && b != 93 && b != 94 && b != 96 && b != 123 && b != 124 && b != 125 {
        seq![b as char]
    } else {
        percent(b)
    }
}

/// A text as the name or the value of a cookie.
pub open spec fn cookie_encoded(s: Seq<char>) -> Seq<char> {
    written(utf8::encode_utf8(s), |b: u8| cookie_byte(b))
}

/// `cookie::Cookie::build` and `Cookie::encoded`: a cookie without attributes, its
/// name and its value percent-encoded with `=` between them.
#[verifier::external_body]
pub(crate) fn encode_cookie(name: &str, value: &str) -> (r: String)
    ensures
        r@ == cookie_encoded(name@) + "="@ + cookie_encoded(value@),
{
    axum_extra::extract::cookie::Cookie::build((name.to_string(), value.to_string()))
        .build()
        .encoded()
        .to_string()
}

/// The digit of base 64 in the alphabet for URLs.
pub open spec fn base64_digit(d: int) -> char {
    if d < 26 {
        (('A' as int) + d) as char
    } else if d < 52 {
        (('a' as int) + d - 26) as char
    } else if d < 62 {
        (('0' as int) + d - 52) as char
    } else if d == 62 {
        '-'
    } else {
        '_'
    }
}

/// Bytes in base 64, in the alphabet for URLs and without padding: six bits a
/// character, zero bits behind the last.
pub open spec fn base64url(bytes: Seq<u8>) -> Seq<char>
    decreases bytes.len(),
{
    if bytes.len() == 0 {
        Seq::empty()
    } else if bytes.len() == 1 {
        seq![base64_digit(bytes[0] as int / 4), base64_digit(bytes[0] as int % 4 * 16)]
    } else if bytes.len() == 2 {
        seq![
            base64_digit(bytes[0] as int / 4),
            base64_digit(bytes[0] as int % 4 * 16 + bytes[1] as int / 16),
            base64_digit(bytes[1] as int % 16 * 4),
        ]
    } else {
        seq![
            base64_digit(bytes[0] as int / 4),
            base64_digit(bytes[0] as int % 4 * 16 + bytes[1] as int / 16),
            base64_digit(bytes[1] as int % 16 * 4 + bytes[2] as int / 64),
            base64_digit(bytes[2] as int % 64),
        ] + base64url(bytes.skip(3))
    }
}

/// `base64::engine::general_purpose::URL_SAFE_NO_PAD.encode`: base 64 in the
/// alphabet for URLs, without padding.
#[verifier::external_body]
pub(crate) fn base64_encode(bytes: &[u8]) -> (r: String)
    ensures
        r@ == base64url(bytes@),
{
    base64::Engine::encode(&base64::engine::general_purpose::URL_SAFE_NO_PAD, bytes)
}

/// What `sha2::Sha256::digest` returns.
pub uninterp spec fn sha256(data: Seq<u8>) -> Seq<u8>;

/// `sha2::Sha256::digest`: the SHA-256 hash of the bytes, which is 32 bytes long.
#[verifier::external_body]
pub(crate) fn sha256_digest(data: &[u8]) -> (r: Vec<u8>)
    ensures
        r@ == sha256(data@),
        r@.len() == 32,
{
    <sha2::Sha256 as sha2::Digest>::digest(data).to_vec()
}

/// The characters of base 64 in the alphabet for URLs.
pub open spec fn is_base64url(c: char) -> bool {
    'A' <= c <= 'Z' || 'a' <= c <= 'z' || '0' <= c <= '9' || c == '-' || c == '_'
}

/// Base 64 takes four characters for three bytes, rounded up, and only characters
/// that stand for themselves in a URL.
pub proof fn law_base64url_shape(bytes: Seq<u8>)
    ensures
        base64url(bytes).len() == (bytes.len() * 4 + 2) / 3,
        forall|i: int| 0 <= i < base64url(bytes).len() ==> is_base64url(
            #[trigger] base64url(bytes)[i],
        ),
    decreases bytes.len(),
{
    if bytes.len() > 2 {
        law_base64url_shape(bytes.skip(3));
        let rest = base64url(bytes.skip(3));
        let all = base64url(bytes);
        assert forall|i: int| 0 <= i < all.len() implies is_base64url(#[trigger] all[i]) by {
            if i >= 4 {
                assert(all[i] == rest[i - 4]);
            }
        }
    }
}

} // verus!
