//! Byte-level encodings and the keyed digest used to authenticate webhooks.

use base64::engine::general_purpose::URL_SAFE;
use base64::Engine;
use hmac::Hmac;
use hmac::Mac;
use sha2::Sha256;
use vstd::prelude::*;
use vstd::utf8::*;

verus! {

#[verifier::external_type_specification]
#[verifier::external_body]
pub struct ExDecodeError(base64::DecodeError);

#[verifier::external_type_specification]
#[verifier::external_body]
pub struct ExFromUtf8Error(std::string::FromUtf8Error);

#[verifier::external_type_specification]
#[verifier::external_body]
pub struct ExInvalidLength(hmac::digest::InvalidLength);

/// The bytes that URL-safe, padded base64 `text` stands for, or `None` where
/// the `base64` crate rejects the text.
pub uninterp spec fn base64_url_decoded(text: Seq<char>) -> Option<Seq<u8>>;

/// The HMAC-SHA256 tag of `message` under `key`, or `None` where the `hmac`
/// crate rejects the key.
pub uninterp spec fn hmac_sha256(key: Seq<u8>, message: Seq<u8>) -> Option<Seq<u8>>;

/// The lower-case hexadecimal digit for a value below sixteen.
pub open spec fn hex_digit(value: int) -> char {
    seq!['0', '1', '2', '3', '4', '5', '6', '7', '8', '9', 'a', 'b', 'c', 'd', 'e', 'f'][value]
}

/// Two lower-case hexadecimal digits per byte, high digit first.
pub open spec fn hex_text(bytes: Seq<u8>) -> Seq<char>
    decreases bytes.len(),
{
    if bytes.len() == 0 {
        Seq::empty()
    } else {
        hex_text(bytes.drop_last()).push(hex_digit(bytes.last() as int / 16)).push(
            hex_digit(bytes.last() as int % 16),
        )
    }
}

pub proof fn lemma_hex_text_len(bytes: Seq<u8>)
    ensures
        hex_text(bytes).len() == 2 * bytes.len(),
    decreases bytes.len(),
{
    if bytes.len() > 0 {
        lemma_hex_text_len(bytes.drop_last());
    }
}

/// Different byte strings never share a hexadecimal form.
pub proof fn lemma_hex_text_injective(a: Seq<u8>, b: Seq<u8>)
    requires
        hex_text(a) == hex_text(b),
    ensures
        a == b,
    decreases a.len(),
{
    lemma_hex_text_len(a);
    lemma_hex_text_len(b);
    if a.len() == 0 {
        assert(a =~= b);
    } else {
        let a0 = a.drop_last();
        let b0 = b.drop_last();
        let ta = hex_text(a0);
        let tb = hex_text(b0);
        lemma_hex_text_len(a0);
        lemma_hex_text_len(b0);
        let ha = hex_digit(a.last() as int / 16);
        let la = hex_digit(a.last() as int % 16);
        let hb = hex_digit(b.last() as int / 16);
        let lb = hex_digit(b.last() as int % 16);
        let full_a = ta.push(ha).push(la);
        let full_b = tb.push(hb).push(lb);
        assert(full_a[full_a.len() - 1] == la);
        assert(full_a[full_a.len() - 2] == ha);
        assert(full_b[full_b.len() - 1] == lb);
        assert(full_b[full_b.len() - 2] == hb);
        assert(ha == hb && la == lb);
        assert(a.last() == b.last());
        assert(ta =~= full_a.take(ta.len() as int));
        assert(tb =~= full_b.take(tb.len() as int));
        lemma_hex_text_injective(a0, b0);
        assert(a =~= a0.push(a.last()));
        assert(b =~= b0.push(b.last()));
    }
}

/// `base64::Engine::decode` on the `URL_SAFE` engine. Which texts decode, and
/// to what, is taken on trust to depend on the text alone.
#[verifier::external_body]
pub(crate) fn base64_url_decode(text: &str) -> (r: Result<Vec<u8>, base64::DecodeError>)
    ensures
        match r {
            Ok(bytes) => base64_url_decoded(text@) == Some(bytes@),
            Err(_) => base64_url_decoded(text@) is None,
        },
{
    URL_SAFE.decode(text)
}

/// `String::from_utf8`: succeeds exactly on well-formed UTF-8 and then holds
/// the decoded characters.
#[verifier::external_body]
pub(crate) fn utf8_to_string(bytes: Vec<u8>) -> (r: Result<String, std::string::FromUtf8Error>)
    ensures
        match r {
            Ok(text) => valid_utf8(bytes@) && text@ == decode_utf8(bytes@),
            Err(_) => !valid_utf8(bytes@),
        },
{
    String::from_utf8(bytes)
}

/// `hmac::Mac::new_from_slice`, `update` and `finalize` on `Hmac<Sha256>`:
/// the authentication tag of `message` under `key`. The digest is not
/// verified; the tag is taken on trust to depend on key and message alone.
#[verifier::external_body]
pub(crate) fn hmac_sha256_tag(key: &[u8], message: &[u8]) -> (r: Result<
    Vec<u8>,
    hmac::digest::InvalidLength,
>)
    ensures
        match r {
            Ok(tag) => hmac_sha256(key@, message@) == Some(tag@),
            Err(_) => hmac_sha256(key@, message@) is None,
        },
{
    let mut mac = Hmac::<Sha256>::new_from_slice(key)?;
    mac.update(message);
    Ok(mac.finalize().into_bytes().to_vec())
}

/// `hex::encode`: two lower-case hexadecimal digits for each byte.
#[verifier::external_body]
pub(crate) fn hex_encode(bytes: &[u8]) -> (r: String)
    ensures
        r@ == hex_text(bytes@),
{
    hex::encode(bytes)
}

/// A hexadecimal form holds nothing but the sixteen digits.
pub proof fn lemma_hex_text_digits(bytes: Seq<u8>, i: int)
    requires
        0 <= i < hex_text(bytes).len(),
    ensures
        exists|d: int| 0 <= d < 16 && hex_text(bytes)[i] == hex_digit(d),
    decreases bytes.len(),
{
    lemma_hex_text_len(bytes);
    if bytes.len() > 0 {
        let front = bytes.drop_last();
        lemma_hex_text_len(front);
        if i < hex_text(front).len() {
            lemma_hex_text_digits(front, i);
            let d = choose|d: int| 0 <= d < 16 && hex_text(front)[i] == hex_digit(d);
            assert(hex_text(bytes)[i] == hex_digit(d));
        } else if i == hex_text(front).len() {
            assert(hex_text(bytes)[i] == hex_digit(bytes.last() as int / 16));
        } else {
            assert(hex_text(bytes)[i] == hex_digit(bytes.last() as int % 16));
        }
    }
}

} // verus!
