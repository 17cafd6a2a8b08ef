//! Encodings and randomness through outside crates: SHA-256 (`sha2`), URL-safe base64
//! without padding (`base64`), random bytes (`rand`), percent-encoding (`urlencoding`)
//! and URL query parsing (`url`).

use vstd::prelude::*;
use base64::Engine;
use rand::RngCore;
use sha2::Digest;

verus! {

/// The SHA-256 digest of `data`.
pub uninterp spec fn sha256_digest(data: Seq<u8>) -> Seq<u8>;

/// A digit of URL-safe base64 for a six-bit value: `A`-`Z`, `a`-`z`, `0`-`9`, `-`, `_`.
pub open spec fn b64_digit(v: int) -> char {
    if v < 26 {
        (65 + v) as char
    } else if v < 52 {
        (71 + v) as char
    } else if v < 62 {
        (v - 4) as char
    } else if v == 62 {
        '-'
    } else {
        '_'
    }
}

/// URL-safe base64 of `data`, without `=` padding: each group of three bytes becomes four
/// digits of six bits each, most significant first; a last one or two bytes become two or
/// three digits, their bits padded with zeros.
pub open spec fn base64_url(data: Seq<u8>) -> Seq<char>
    decreases data.len(),
{
    if data.len() == 0 {
        Seq::empty()
    } else if data.len() == 1 {
        let b0 = data[0] as int;
        seq![b64_digit(b0 / 4), b64_digit((b0 % 4) * 16)]
    } else if data.len() == 2 {
        let (b0, b1) = (data[0] as int, data[1] as int);
        seq![b64_digit(b0 / 4), b64_digit((b0 % 4) * 16 + b1 / 16), b64_digit((b1 % 16) * 4)]
    } else {
        let (b0, b1, b2) = (data[0] as int, data[1] as int, data[2] as int);
        seq![b64_digit(b0 / 4), b64_digit((b0 % 4) * 16 + b1 / 16), b64_digit((b1 % 16) * 4 + b2 / 64), b64_digit(b2 % 64)]
            + base64_url(data.skip(3))
    }
}

/// A character of the URL-safe base64 alphabet: an ASCII letter or digit, `-` or `_`.
pub open spec fn b64_url_char(c: char) -> bool {
    ('A' <= c <= 'Z') || ('a' <= c <= 'z') || ('0' <= c <= '9') || c == '-' || c == '_'
}

/// Every character of the unpadded URL-safe base64 of `data` is in its alphabet: no `+`,
/// `/` or `=` appears, so the text can stand in a URL as it is.
pub proof fn lemma_base64_url_alphabet(data: Seq<u8>)
    ensures
        forall|i: int| 0 <= i < base64_url(data).len() ==> b64_url_char(#[trigger] base64_url(data)[i]),
    decreases data.len(),
{
    assert forall|v: int| 0 <= v < 64 implies b64_url_char(#[trigger] b64_digit(v)) by {}
    if data.len() >= 3 {
        lemma_base64_url_alphabet(data.skip(3));
        let b0 = data[0] as int;
        let b1 = data[1] as int;
        let b2 = data[2] as int;
        assert(0 <= (b0 % 4) * 16 + b1 / 16 < 64);
        assert(0 <= (b1 % 16) * 4 + b2 / 64 < 64);
        let head = seq![b64_digit(b0 / 4), b64_digit((b0 % 4) * 16 + b1 / 16), b64_digit((b1 % 16) * 4 + b2 / 64), b64_digit(b2 % 64)];
        let rest = base64_url(data.skip(3));
        assert(base64_url(data) == head + rest);
        assert forall|i: int| 0 <= i < base64_url(data).len() implies b64_url_char(#[trigger] base64_url(data)[i]) by {
            if i >= 4 {
                assert(base64_url(data)[i] == rest[i - 4]);
            }
        }
    } else if data.len() == 2 {
        let b0 = data[0] as int;
        let b1 = data[1] as int;
        assert(0 <= (b0 % 4) * 16 + b1 / 16 < 64);
        assert(0 <= (b1 % 16) * 4 < 64);
    } else if data.len() == 1 {
        let b0 = data[0] as int;
        assert(0 <= (b0 % 4) * 16 < 64);
    }
}

/// The unpadded base64 of `data` is [`base64_len`] characters long.
pub proof fn lemma_base64_len(data: Seq<u8>)
    ensures
        base64_url(data).len() == base64_len(data.len()),
    decreases data.len(),
{
    if data.len() >= 3 {
        lemma_base64_len(data.skip(3));
    }
}

/// The length of the unpadded base64 of `n` bytes: four characters per three bytes, and
/// two or three for a last one or two.
pub open spec fn base64_len(n: nat) -> nat {
    4 * (n / 3) + if n % 3 == 0 { 0 } else { n % 3 + 1 }
}

/// A byte that percent-encoding leaves as it is: an ASCII letter or digit, `-`, `.`, `_`
/// or `~`.
pub open spec fn url_safe_byte(b: u8) -> bool {
    (48 <= b <= 57) || (65 <= b <= 90) || (97 <= b <= 122) || b == 45 || b == 46 || b == 95 || b == 126
}

/// An uppercase hexadecimal digit.
pub open spec fn hex_upper(d: u8) -> char {
    if d < 10 { (48 + d) as char } else { (55 + d) as char }
}

/// One byte percent-encoded: itself where safe, else `%` and its two uppercase hex digits.
pub open spec fn percent_byte(b: u8) -> Seq<char> {
    if url_safe_byte(b) {
        seq![b as char]
    } else {
        seq!['%', hex_upper(b / 16), hex_upper(b % 16)]
    }
}

/// Each byte of `bs` percent-encoded, in order.
pub open spec fn percent_encoded_bytes(bs: Seq<u8>) -> Seq<char>
    decreases bs.len(),
{
    if bs.len() == 0 {
        Seq::empty()
    } else {
        percent_encoded_bytes(bs.drop_last()) + percent_byte(bs.last())
    }
}

/// Percent-encoding of the UTF-8 bytes of `s`: every byte but ASCII letters, digits
/// and `-`, `_`, `.`, `~` is written as `%XX`.
pub open spec fn percent_encoded(s: Seq<char>) -> Seq<char> {
    percent_encoded_bytes(vstd::utf8::encode_utf8(s))
}

/// The result of parsing `url` as an absolute URL: its query's key/value pairs, in
/// order and form-decoded, or the parse error's message.
pub uninterp spec fn url_query_pairs(url: Seq<char>) -> Result<Seq<(Seq<char>, Seq<char>)>, Seq<char>>;

/// `sha2::Sha256::digest`: the contract claims the result is the named digest of `data`,
/// 32 bytes long.
#[verifier::external_body]
pub fn sha256(data: &[u8]) -> (r: Vec<u8>)
    ensures
        r@ == sha256_digest(data@),
        r@.len() == 32,
{
    sha2::Sha256::digest(data).to_vec()
}

/// `base64::engine::general_purpose::URL_SAFE_NO_PAD.encode`: the contract claims the
/// result is the encoding of `data` that [`base64_url`] states.
#[verifier::external_body]
pub fn b64(data: &[u8]) -> (r: String)
    ensures
        r@ == base64_url(data@),
{
    base64::engine::general_purpose::URL_SAFE_NO_PAD.encode(data)
}

/// `rand::thread_rng().fill_bytes`: `n` random bytes. The contract claims only the length;
/// the bytes themselves are chance.
#[verifier::external_body]
pub fn random_bytes(n: usize) -> (r: Vec<u8>)
    ensures
        r@.len() == n,
{
    let mut buf = vec![0u8; n];
    rand::thread_rng().fill_bytes(&mut buf);
    buf
}

/// `urlencoding::encode`: the contract claims the result is the percent-encoding of `s`
/// that [`percent_encoded`] states.
#[verifier::external_body]
pub fn url_encode(s: &str) -> (r: String)
    ensures
        r@ == percent_encoded(s@),
{
    urlencoding::encode(s).into_owned()
}

/// `url::Url::parse`, then the parsed URL's `query_pairs`, each pair taken as owned strings
/// (on failure, the error's message). The contract claims the result is the named parse of
/// `url`.
#[verifier::external_body]
pub fn callback_query(url: &str) -> (r: Result<Vec<(String, String)>, String>)
    ensures
        match r {
            Ok(pairs) => url_query_pairs(url@) == Ok::<_, Seq<char>>(pairs.deep_view()),
            Err(e) => url_query_pairs(url@) == Err::<Seq<(Seq<char>, Seq<char>)>, _>(e@),
        },
{
    match url::Url::parse(url) {
        Ok(u) => Ok(u.query_pairs().map(|(k, v)| (k.into_owned(), v.into_owned())).collect()),
        Err(e) => Err(e.to_string()),
    }
}

/// `n` random bytes in URL-safe base64.
pub fn random_b64(n: usize) -> (r: String)
    ensures
        exists|bytes: Seq<u8>| bytes.len() == n && r@ == base64_url(bytes),
        r@.len() == base64_len(n as nat),
{
    let bytes = random_bytes(n);
    let r = b64(bytes.as_slice());
    proof {
        lemma_base64_len(bytes@);
    }
    assert(bytes@.len() == n && r@ == base64_url(bytes@));
    r
}

/// The PKCE S256 challenge of a code verifier: base64url(SHA-256(UTF-8 bytes of it)).
pub open spec fn pkce_challenge_of(verifier: Seq<char>) -> Seq<char> {
    base64_url(sha256_digest(vstd::utf8::encode_utf8(verifier)))
}

/// The PKCE S256 challenge of `verifier`.
pub fn pkce_challenge(verifier: &str) -> (r: String)
    ensures
        r@ == pkce_challenge_of(verifier@),
{
    let digest = sha256(verifier.as_bytes());
    b64(digest.as_slice())
}

} // verus!
