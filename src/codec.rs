//! Calls into the encoding and cryptography crates, with what each promises.

use base64::engine::general_purpose::STANDARD as BASE64_STANDARD;
use base64::Engine;
use hmac::{Hmac, Mac};
use sha2::Sha256;
use vstd::prelude::*;
use vstd::utf8::encode_utf8;

verus! {

/// The base64 digit for a 6-bit value: `A`-`Z`, `a`-`z`, `0`-`9`, `+`, `/`.
pub open spec fn base64_char(v: nat) -> char {
    if v < 26 {
        ((65 + v) as u8) as char
    } else if v < 52 {
        ((71 + v) as u8) as char
    } else if v < 62 {
        ((v - 4) as u8) as char
    } else if v == 62 {
        '+'
    } else {
        '/'
    }
}

/// Standard base64 (RFC 4648 alphabet, with `=` padding) of a byte
/// sequence: each group of three bytes becomes four digits; a final group of
/// one or two bytes is zero-filled and padded to four characters with `=`.
pub open spec fn base64_of(bytes: Seq<u8>) -> Seq<char>
    decreases bytes.len(),
{
    if bytes.len() == 0 {
        seq![]
    } else if bytes.len() == 1 {
        let b0 = bytes[0] as nat;
        seq![base64_char(b0 / 4), base64_char((b0 % 4) * 16), '=', '=']
    } else if bytes.len() == 2 {
        let b0 = bytes[0] as nat;
        let b1 = bytes[1] as nat;
        seq![
            base64_char(b0 / 4),
            base64_char((b0 % 4) * 16 + b1 / 16),
            base64_char((b1 % 16) * 4),
            '=',
        ]
    } else {
        let b0 = bytes[0] as nat;
        let b1 = bytes[1] as nat;
        let b2 = bytes[2] as nat;
        seq![
            base64_char(b0 / 4),
            base64_char((b0 % 4) * 16 + b1 / 16),
            base64_char((b1 % 16) * 4 + b2 / 64),
            base64_char(b2 % 64),
        ] + base64_of(bytes.subrange(3, bytes.len() as int))
    }
}

/// HMAC-SHA256 of a message under a key.
pub uninterp spec fn hmac_sha256_of(key: Seq<u8>, message: Seq<u8>) -> Seq<u8>;

/// The RFC 1123 text of a time given in seconds since the epoch, in UTC.
pub uninterp spec fn rfc1123_date_of(unix_secs: int) -> Seq<char>;

/// Seconds since the epoch of the last second of the year 9999.
pub const MAX_FOUR_DIGIT_YEAR_SECS: i64 = 253402300799;

/// The strftime pattern of an RFC 1123 date in UTC.
pub open spec fn rfc1123_pattern() -> Seq<char> {
    "%a, %d %b %Y %H:%M:%S GMT"@
}

/// Bytes that percent-encoding leaves as they are: ASCII letters, digits, `-`, `.`, `_`, `~`.
pub open spec fn is_unreserved(b: u8) -> bool {
    (48 <= b <= 57) || (65 <= b <= 90) || (97 <= b <= 122) || b == 45 || b == 46 || b == 95
        || b == 126
}

/// Upper-case hexadecimal digit of a value below 16.
pub open spec fn hex_digit(d: u8) -> char {
    if d < 10 {
        ((48 + d) as u8) as char
    } else {
        ((55 + d) as u8) as char
    }
}

/// Percent-encoding of a byte sequence: unreserved bytes stay, every other
/// byte becomes `%` and two upper-case hex digits.
pub open spec fn percent_encode(bytes: Seq<u8>) -> Seq<char>
    decreases bytes.len(),
{
    if bytes.len() == 0 {
        seq![]
    } else {
        let b = bytes[0];
        let head = if is_unreserved(b) {
            seq![b as char]
        } else {
            seq!['%', hex_digit(b / 16), hex_digit(b % 16)]
        };
        head + percent_encode(bytes.drop_first())
    }
}

/// URL encoding of a string: percent-encoding of its UTF-8 bytes.
pub open spec fn url_encoded(s: Seq<char>) -> Seq<char> {
    percent_encode(encode_utf8(s))
}

/// Relies on base64's `STANDARD` engine `encode`: the padded standard encoding
/// of the input. It panics only when the output length overflows `usize`,
/// which no slice (at most `isize::MAX` bytes) reaches.
#[verifier::external_body]
pub(crate) fn base64_encode(bytes: &[u8]) -> (r: String)
    ensures
        r@ == base64_of(bytes@),
{
    BASE64_STANDARD.encode(bytes)
}

/// Relies on hmac's `Hmac<Sha256>`: `new_from_slice`, `update` and
/// `finalize` compute HMAC-SHA256. `new_from_slice` accepts a key of any
/// length (a short key is zero-padded, a long one hashed), so the result is
/// always present.
#[verifier::external_body]
pub(crate) fn hmac_sha256(key: &[u8], message: &[u8]) -> (r: Option<Vec<u8>>)
    ensures
        r is Some,
        r->Some_0@ == hmac_sha256_of(key@, message@),
{
    let mut mac = match <Hmac<Sha256> as Mac>::new_from_slice(key) {
        Ok(m) => m,
        Err(_) => return None,
    };
    mac.update(message);
    Some(mac.finalize().into_bytes().to_vec())
}

/// Relies on urlencoding's `encode`: every byte of the UTF-8 text except
/// ASCII alphanumerics and `-`, `_`, `.`, `~` becomes `%XX` (upper-case hex).
#[verifier::external_body]
pub(crate) fn url_encode(s: &str) -> (r: String)
    ensures
        r@ == url_encoded(s@),
{
    urlencoding::encode(s).into_owned()
}

/// Relies on chrono's `DateTime::from_timestamp` (seconds since the epoch,
/// UTC; `None` when out of its range, which spans far more than years 1970 to
/// 9999) and `format` with the given strftime pattern. Only the RFC 1123
/// pattern is admitted: an invalid pattern makes `to_string` panic. The
/// pattern ends in the literal " GMT".
#[verifier::external_body]
pub(crate) fn format_rfc1123_at(unix_secs: i64, pattern: &str) -> (r: Option<String>)
    requires
        pattern@ == rfc1123_pattern(),
    ensures
        0 <= unix_secs <= MAX_FOUR_DIGIT_YEAR_SECS ==> r is Some,
        r is Some ==> r->Some_0@ == rfc1123_date_of(unix_secs as int),
        r is Some ==> r->Some_0@.len() >= 4,
        r is Some ==> r->Some_0@.subrange(r->Some_0@.len() - 4, r->Some_0@.len() as int)
            == " GMT"@,
{
    match chrono::DateTime::from_timestamp(unix_secs, 0) {
        Some(t) => Some(t.format(pattern).to_string()),
        None => None,
    }
}

} // verus!
