//! Digests, encodings and version numbers.
use base64::Engine;
use crate::text;
use sha2::Digest;
use vstd::prelude::*;

verus! {

// ---------------------------------------------------------------------------------------------
// Hexadecimal text
// ---------------------------------------------------------------------------------------------

/// The digit that stands for a value below sixteen.
pub open spec fn hex_char(n: int) -> char {
    if n < 10 {
        (n + 48) as char
    } else {
        (n + 87) as char
    }
}

/// Two digits for each byte, the high half first.
pub open spec fn hex_text(bytes: Seq<u8>) -> Seq<char> {
    Seq::new(
        2 * bytes.len(),
        |i: int|
            if i % 2 == 0 {
                hex_char(bytes[i / 2] as int / 16)
            } else {
                hex_char(bytes[i / 2] as int % 16)
            },
    )
}

/// The value of a hexadecimal digit, in either case.
pub open spec fn hex_value(c: char) -> int {
    if text::is_digit(c) {
        c as int - 48
    } else if 'a' <= c <= 'f' {
        c as int - 87
    } else {
        c as int - 55
    }
}

/// The bytes that a hexadecimal text stands for, where it is one.
pub open spec fn hex_bytes(s: Seq<char>) -> Option<Seq<u8>> {
    if s.len() % 2 == 0 && forall|i: int| 0 <= i < s.len() ==> text::is_hex_digit(#[trigger] s[i]) {
        Some(
            Seq::new(
                s.len() / 2,
                |i: int| (16 * hex_value(s[2 * i]) + hex_value(s[2 * i + 1])) as u8,
            ),
        )
    } else {
        None
    }
}

/// What `hex` says of a text that is not hexadecimal.
pub uninterp spec fn hex_complaint(s: Seq<char>) -> Seq<char>;

/// `hex::encode`: two lower-case digits for each byte.
#[verifier::external_body]
fn hex_encode(bytes: &[u8]) -> (r: String)
    ensures
        r@ == hex_text(bytes@),
{
    hex::encode(bytes)
}

/// `hex::decode`: the bytes of a text of hexadecimal digits, an even number of them and in either
/// case; of any other text what is wrong with it.
#[verifier::external_body]
fn hex_decode(s: &str) -> (r: Result<Vec<u8>, String>)
    ensures
        match r {
            Ok(bytes) => hex_bytes(s@) == Some(bytes@),
            Err(e) => hex_bytes(s@) is None && e@ == hex_complaint(s@),
        },
{
    hex::decode(s).map_err(|e| e.to_string())
}

/// The hexadecimal text of some bytes.
pub fn to_hex(bytes: &[u8]) -> (r: String)
    ensures
        r@ == hex_text(bytes@),
{
    hex_encode(bytes)
}

/// The bytes of a hexadecimal text, or what is wrong with it.
pub fn from_hex(s: &str) -> (r: Result<Vec<u8>, String>)
    ensures
        match r {
            Ok(bytes) => hex_bytes(s@) == Some(bytes@),
            Err(e) => hex_bytes(s@) is None && e@ == hex_complaint(s@),
        },
{
    hex_decode(s)
}

proof fn hex_char_facts(n: int)
    requires
        0 <= n < 16,
    ensures
        text::is_hex_digit(hex_char(n)),
        hex_value(hex_char(n)) == n,
        text::lower(hex_char(n)) == hex_char(n),
{
}

/// Reading back a hexadecimal text gives the bytes that it was written from.
pub proof fn hex_round_trip(bytes: Seq<u8>)
    ensures
        hex_bytes(hex_text(bytes)) == Some(bytes),
{
    let s = hex_text(bytes);
    assert forall|i: int| 0 <= i < s.len() implies text::is_hex_digit(#[trigger] s[i]) by {
        hex_char_facts(bytes[i / 2] as int / 16);
        hex_char_facts(bytes[i / 2] as int % 16);
    }
    assert forall|i: int| 0 <= i < bytes.len() implies 16 * hex_value(#[trigger] s[2 * i])
        + hex_value(s[2 * i + 1]) == bytes[i] by {
        hex_char_facts(bytes[i] as int / 16);
        hex_char_facts(bytes[i] as int % 16);
        assert((2 * i) / 2 == i && (2 * i + 1) / 2 == i);
    }
    assert(hex_bytes(s)->0 =~= bytes);
}

/// A hexadecimal text holds no capital letter.
pub proof fn hex_text_is_lower(bytes: Seq<u8>)
    ensures
        text::lower_text(hex_text(bytes)) == hex_text(bytes),
{
    let s = hex_text(bytes);
    assert forall|i: int| 0 <= i < s.len() implies text::lower(#[trigger] s[i]) == s[i] by {
        hex_char_facts(bytes[i / 2] as int / 16);
        hex_char_facts(bytes[i / 2] as int % 16);
    }
    assert(text::lower_text(s) =~= s);
}

// ---------------------------------------------------------------------------------------------
// Digests
// ---------------------------------------------------------------------------------------------

/// The SHA-256 digest of some bytes.
pub uninterp spec fn sha256(bytes: Seq<u8>) -> Seq<u8>;

/// The MD5 digest of some bytes.
pub uninterp spec fn md5(bytes: Seq<u8>) -> Seq<u8>;

/// `sha2::Sha256::digest`: thirty-two bytes that depend on the input alone.
#[verifier::external_body]
fn sha256_digest(bytes: &[u8]) -> (r: Vec<u8>)
    ensures
        r@ == sha256(bytes@),
        r@.len() == 32,
{
    sha2::Sha256::digest(bytes).to_vec()
}

/// `md5::compute`: sixteen bytes that depend on the input alone.
#[verifier::external_body]
fn md5_digest(bytes: &[u8]) -> (r: Vec<u8>)
    ensures
        r@ == md5(bytes@),
        r@.len() == 16,
{
    md5::compute(bytes).0.to_vec()
}

/// The SHA-256 digest of some bytes, in hexadecimal.
pub fn sha256_hex(bytes: &[u8]) -> (r: String)
    ensures
        r@ == hex_text(sha256(bytes@)),
        r@.len() == 64,
{
    to_hex(sha256_digest(bytes).as_slice())
}

/// The MD5 digest of some bytes, in hexadecimal.
pub fn md5_hex(bytes: &[u8]) -> (r: String)
    ensures
        r@ == hex_text(md5(bytes@)),
        r@.len() == 32,
{
    to_hex(md5_digest(bytes).as_slice())
}

// ---------------------------------------------------------------------------------------------
// Base64
// ---------------------------------------------------------------------------------------------

/// The bytes behind a base64 text in the standard alphabet with padding, where it is one.
pub uninterp spec fn base64_standard(s: Seq<char>) -> Option<Seq<u8>>;

/// The bytes behind a base64 text in the URL alphabet without padding, where it is one.
pub uninterp spec fn base64_url_bare(s: Seq<char>) -> Option<Seq<u8>>;

/// The bytes behind a base64 text in the URL alphabet with padding, where it is one.
pub uninterp spec fn base64_url_padded(s: Seq<char>) -> Option<Seq<u8>>;

/// What an optional list of bytes holds.
pub open spec fn opt_bytes(o: Option<Vec<u8>>) -> Option<Seq<u8>> {
    match o {
        Some(v) => Some(v@),
        None => None,
    }
}

/// `base64`'s engine `STANDARD`, its `decode`: the outcome depends on the text alone.
#[verifier::external_body]
pub(crate) fn decode_standard(s: &str) -> (r: Option<Vec<u8>>)
    ensures
        opt_bytes(r) == base64_standard(s@),
{
    base64::engine::general_purpose::STANDARD.decode(s).ok()
}

/// `base64`'s engine `URL_SAFE_NO_PAD`, its `decode`: the outcome depends on the text alone.
#[verifier::external_body]
pub(crate) fn decode_url_bare(s: &str) -> (r: Option<Vec<u8>>)
    ensures
        opt_bytes(r) == base64_url_bare(s@),
{
    base64::engine::general_purpose::URL_SAFE_NO_PAD.decode(s).ok()
}

/// `base64`'s engine `URL_SAFE`, its `decode`: the outcome depends on the text alone.
#[verifier::external_body]
pub(crate) fn decode_url_padded(s: &str) -> (r: Option<Vec<u8>>)
    ensures
        opt_bytes(r) == base64_url_padded(s@),
{
    base64::engine::general_purpose::URL_SAFE.decode(s).ok()
}

// ---------------------------------------------------------------------------------------------
// Bytes as text
// ---------------------------------------------------------------------------------------------

/// The text that some bytes stand for, with a replacement character for what is not UTF-8.
pub uninterp spec fn lossy(bytes: Seq<u8>) -> Seq<char>;

/// `String::from_utf8_lossy`: bytes that are UTF-8 give the text that they encode; the others are
/// replaced, by a rule that depends on the bytes alone.
#[verifier::external_body]
pub(crate) fn text_from_bytes(bytes: &[u8]) -> (r: String)
    ensures
        r@ == lossy(bytes@),
        vstd::utf8::valid_utf8(bytes@) ==> r@ == vstd::utf8::decode_utf8(bytes@),
{
    String::from_utf8_lossy(bytes).to_string()
}

} // verus!
