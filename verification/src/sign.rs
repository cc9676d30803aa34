//! The signature that authenticates one request: an HMAC-SHA256 over the
//! request's timestamp, method, path and body, keyed by the account's secret.

use vstd::prelude::*;
use vstd::string::StringExecFns;
use vstd::string::StringSliceAdditionalSpecFns;
use vstd::utf8::{encode_scalar, encode_utf8};
use crypto::mac::Mac;
use crate::error::Error;
use crate::request::Method;
use crate::text::{decimal, decimal_text, lemma_decimal_is_injective, lemma_decimal_length};

verus! {

/// Trusted: `base64::DecodeError`, the failure value of the base64 decoder.
/// It is only ever told apart from success; nothing is claimed of its contents.
#[verifier::external_type_specification]
#[verifier::external_body]
pub struct ExBase64DecodeError(base64::DecodeError);

/// The bytes that a base64 text in the standard alphabet stands for; `None`
/// where the text is not valid base64.
pub uninterp spec fn base64_decoded(text: Seq<char>) -> Option<Seq<u8>>;

/// The base64 text, in the standard alphabet and with padding, of a run of bytes.
pub uninterp spec fn base64_encoded(bytes: Seq<u8>) -> Seq<char>;

/// The HMAC-SHA256 code of a message under a key.
pub uninterp spec fn hmac_sha256(key: Seq<u8>, message: Seq<u8>) -> Seq<u8>;

/// Whether an input of `len` bytes is within what the MAC can take. It hashes
/// one block of 64 bytes ahead of the message and counts the bits of all that
/// it hashes in 64 bits; and the lengths that are computed on the way have to
/// fit the machine's word.
pub open spec fn hashable(len: nat) -> bool {
    len + 64 < 0x2000_0000_0000_0000 && len + 64 <= usize::MAX
}

/// Trusted: `base64::decode`. Its answer depends on the text alone: the
/// decoded bytes, or a failure where the text is not valid base64. The
/// decoder sizes its buffer at six bytes for every eight of input, rounded
/// up, and only ever shortens it, so the result is no longer than that. The
/// length sum that it computes first must not overflow.
#[verifier::external_body]
pub(crate) fn base64_decode(text: &str) -> (r: Result<Vec<u8>, base64::DecodeError>)
    requires
        text.spec_bytes().len() + 7 <= usize::MAX,
    ensures
        match r {
            Ok(bytes) => base64_decoded(text@) == Some(bytes@)
                && bytes@.len() <= (text.spec_bytes().len() + 7) / 8 * 6,
            Err(_) => base64_decoded(text@) is None,
        },
{
    base64::decode(text)
}

/// Trusted: `base64::encode`. The text it returns depends on the bytes
/// alone. The length of that text, four characters for every three bytes,
/// rounded up, must not overflow.
#[verifier::external_body]
pub(crate) fn base64_encode(bytes: &[u8]) -> (text: String)
    requires
        bytes@.len() / 3 * 4 + 4 <= usize::MAX,
    ensures
        text@ == base64_encoded(bytes@),
{
    base64::encode(bytes)
}

/// Trusted: `crypto::hmac::Hmac` over `crypto::sha2::Sha256`, fed the key at
/// `new` and the whole message by one `input`, and read by `result`. The code
/// depends on key and message alone and is 32 bytes long. The digest stops
/// on an input whose length in bits does not fit in 64 bits; the key is
/// hashed on its own where it is longer than a block, the message after one
/// block of 64 bytes.
#[verifier::external_body]
pub(crate) fn hmac_sha256_code(key: &[u8], message: &[u8]) -> (code: Vec<u8>)
    requires
        key@.len() < 0x2000_0000_0000_0000,
        message@.len() + 64 < 0x2000_0000_0000_0000,
    ensures
        code@ == hmac_sha256(key@, message@),
        code@.len() == 32,
{
    let mut hmac = crypto::hmac::Hmac::new(crypto::sha2::Sha256::new(), key);
    hmac.input(message);
    hmac.result().code().to_vec()
}

/// The text that is signed: the timestamp in decimal, the method's name in
/// capitals, the path with its query string, and the body, with nothing
/// between them.
pub open spec fn signing_message(timestamp: int, method: Method, path: Seq<char>, body: Seq<char>)
    -> Seq<char> {
    decimal(timestamp) + method.name() + path + body
}

/// How signing a message under a secret ends.
pub ghost enum Signing {
    /// The signature, as base64 text.
    Signed(Seq<char>),
    /// The secret is not valid base64.
    InvalidSecretKey,
    /// The secret or the message is longer than the MAC can take.
    Oversized,
}

/// The signature of a message under a secret: the base64 text of the MAC of
/// the message's UTF-8 bytes, keyed by the bytes that the secret stands for.
/// Lengths are looked at first, then the secret is decoded.
pub open spec fn signing(secret: Seq<char>, message: Seq<char>) -> Signing {
    if !hashable(encode_utf8(secret).len()) || !hashable(encode_utf8(message).len()) {
        Signing::Oversized
    } else {
        match base64_decoded(secret) {
            Some(key) => Signing::Signed(base64_encoded(hmac_sha256(key, encode_utf8(message)))),
            None => Signing::InvalidSecretKey,
        }
    }
}

/// `r` is what signing `message` under `secret` returns.
pub open spec fn is_signed(secret: Seq<char>, message: Seq<char>, r: Result<String, Error>)
    -> bool {
    match signing(secret, message) {
        Signing::Signed(signature) => r matches Ok(s) && s@ == signature,
        Signing::InvalidSecretKey => r matches Err(Error::InvalidSecretKey),
        Signing::Oversized => r matches Err(Error::Oversized),
    }
}

/// The UTF-8 encoding of a text takes at least one byte and at most four for
/// each character.
pub proof fn lemma_utf8_length(text: Seq<char>)
    ensures
        text.len() <= encode_utf8(text).len() <= 4 * text.len(),
    decreases text.len(),
{
    if text.len() > 0 {
        lemma_utf8_length(text.drop_first());
        let first = encode_scalar(text[0] as u32);
        assert(1 <= first.len() <= 4);
    }
}

/// A secret and a message of ordinary length are never refused as
/// oversized: it is enough that four times their length is within what the
/// MAC can take.
pub proof fn lemma_short_texts_are_not_oversized(secret: Seq<char>, message: Seq<char>)
    requires
        hashable(4 * secret.len()),
        hashable(4 * message.len()),
    ensures
        !(signing(secret, message) is Oversized),
{
    lemma_utf8_length(secret);
    lemma_utf8_length(message);
}

/// A request of ordinary length is never refused as oversized, whatever the
/// time: it is enough that four times the length of the secret, and four
/// times the length of path and body and 26 more, are within what the MAC
/// can take.
pub proof fn lemma_ordinary_requests_are_not_oversized(
    secret: Seq<char>,
    timestamp: i64,
    method: Method,
    path: Seq<char>,
    body: Seq<char>,
)
    requires
        hashable(4 * secret.len()),
        hashable(4 * (path.len() + body.len() + 26)),
    ensures
        !(signing(secret, signing_message(timestamp as int, method, path, body)) is Oversized),
{
    reveal_strlit("GET");
    reveal_strlit("POST");
    reveal_strlit("DELETE");
    lemma_decimal_length(timestamp);
    let message = signing_message(timestamp as int, method, path, body);
    assert(message.len() <= path.len() + body.len() + 26);
    lemma_short_texts_are_not_oversized(secret, message);
}

/// Whether the MAC can take an input of `len` bytes.
pub fn is_hashable(len: usize) -> (r: bool)
    ensures
        r == hashable(len as nat),
{
    len <= usize::MAX - 64 && (len as u64) < 0x2000_0000_0000_0000u64 - 64
}

/// Assembles the text that is signed.
pub fn build_message(timestamp: i64, method: Method, path: &str, body: &str) -> (message: String)
    ensures
        message@ == signing_message(timestamp as int, method, path@, body@),
{
    let mut message = decimal_text(timestamp);
    message.append(method.as_str());
    message.append(path);
    message.append(body);
    message
}

/// Signs a message with the secret.
pub fn sign_message(secret: &str, message: &str) -> (r: Result<String, Error>)
    ensures
        is_signed(secret@, message@, r),
{
    let text = message.as_bytes();
    if !is_hashable(secret.as_bytes().len()) || !is_hashable(text.len()) {
        return Err(Error::Oversized);
    }
    match base64_decode(secret) {
        Ok(key) => {
            let code = hmac_sha256_code(key.as_slice(), text);
            Ok(base64_encode(code.as_slice()))
        },
        Err(e) => Err(Error::from(e)),
    }
}

/// Signs one request: the signature of its signing message under the secret.
pub fn sign(secret: &str, timestamp: i64, method: Method, path: &str, body: &str) -> (r: Result<
    String,
    Error,
>)
    ensures
        is_signed(secret@, signing_message(timestamp as int, method, path@, body@), r),
{
    let message = build_message(timestamp, method, path, body);
    sign_message(secret, message.as_str())
}

/// Signing is a function of its inputs: two runs on the same secret and
/// message end the same way, with the same signature or the same refusal.
pub proof fn lemma_sign_is_deterministic(
    secret: Seq<char>,
    message: Seq<char>,
    first: Result<String, Error>,
    second: Result<String, Error>,
)
    requires
        is_signed(secret, message, first),
        is_signed(secret, message, second),
    ensures
        first is Ok <==> second is Ok,
        first is Ok ==> first->Ok_0@ == second->Ok_0@,
        first is Err ==> first->Err_0 == second->Err_0,
{
}

/// The signed text tells requests apart that differ in one input: where two
/// requests agree in all but one of timestamp, method, path and body, their
/// signed texts differ.
pub proof fn lemma_message_changes_with_one_input(
    timestamp: int,
    method: Method,
    path: Seq<char>,
    body: Seq<char>,
    other_timestamp: int,
    other_method: Method,
    other_path: Seq<char>,
    other_body: Seq<char>,
)
    requires
        (timestamp, method, path, body) != (other_timestamp, other_method, other_path, other_body),
        ({
            ||| method == other_method && path == other_path && body == other_body
            ||| timestamp == other_timestamp && path == other_path && body == other_body
            ||| timestamp == other_timestamp && method == other_method && body == other_body
            ||| timestamp == other_timestamp && method == other_method && path == other_path
        }),
    ensures
        signing_message(timestamp, method, path, body) != signing_message(
            other_timestamp,
            other_method,
            other_path,
            other_body,
        ),
{
    let one = signing_message(timestamp, method, path, body);
    let two = signing_message(other_timestamp, other_method, other_path, other_body);
    if one == two {
        let head = decimal(timestamp) + method.name();
        assert(one.len() == decimal(timestamp).len() + method.name().len() + path.len()
            + body.len());
        assert(two.len() == decimal(other_timestamp).len() + other_method.name().len()
            + other_path.len() + other_body.len());
        if timestamp != other_timestamp {
            let n = decimal(timestamp).len() as int;
            assert(decimal(other_timestamp).len() == n);
            assert(one.subrange(0, n) =~= decimal(timestamp));
            assert(two.subrange(0, n) =~= decimal(other_timestamp));
            lemma_decimal_is_injective(timestamp, other_timestamp);
        } else if method != other_method {
            reveal_strlit("GET");
            reveal_strlit("POST");
            reveal_strlit("DELETE");
            assert(method.name().len() != other_method.name().len());
        } else if path != other_path {
            let from = head.len() as int;
            assert(path.len() == other_path.len());
            assert(one.subrange(from, from + path.len()) =~= path);
            assert(two.subrange(from, from + path.len()) =~= other_path);
        } else {
            let from = (head + path).len() as int;
            assert(one.subrange(from, one.len() as int) =~= body);
            assert(two.subrange(from, two.len() as int) =~= other_body);
        }
    }
}

} // verus!
