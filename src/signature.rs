use vstd::prelude::*;

use ring::rand::SecureRandom;

use crate::auth::Auth;
use crate::canonical::{canonical_message, canonical_text, identity_bytes, signed_message};

verus! {

/// Bytes of key material in a signing key.
pub const KEY_LEN: usize = 32;

/// Messages are signed only below this length in bytes, well inside what
/// HMAC-SHA256 accepts.
pub const MAX_SIGNED_LEN: u64 = 0x1000_0000_0000_0000;

#[verifier::external_type_specification]
#[verifier::external_body]
pub struct ExDecodeError(base64::DecodeError);

#[verifier::external_type_specification]
#[verifier::external_body]
pub struct ExUnspecified(ring::error::Unspecified);

/// The standard base64 text of `bytes`, with padding.
pub uninterp spec fn base64_of(bytes: Seq<u8>) -> Seq<char>;

/// The bytes that base64 text decodes to, or `None` when it is not base64.
pub uninterp spec fn base64_decoded(text: Seq<char>) -> Option<Seq<u8>>;

/// The HMAC-SHA256 tag of `data` under the key `key`.
pub uninterp spec fn hmac_sha256(key: Seq<u8>, data: Seq<u8>) -> Seq<u8>;

/// Relies on `base64::encode`: the standard base64 text of the bytes.
#[verifier::external_body]
fn base64_encode(bytes: &[u8]) -> (r: String)
    ensures
        r@ == base64_of(bytes@),
{
    base64::encode(bytes)
}

/// Relies on `base64::decode`: the decoded bytes, or an error; and text that
/// `base64::encode` made from some bytes decodes back to exactly those bytes.
#[verifier::external_body]
fn base64_decode(text: &str) -> (r: Result<Vec<u8>, base64::DecodeError>)
    ensures
        r is Ok <==> base64_decoded(text@) is Some,
        r matches Ok(b) ==> base64_decoded(text@) == Some(b@),
        forall|b: Seq<u8>| #[trigger] base64_of(b) == text@ ==> (r is Ok && r->Ok_0@ == b),
{
    base64::decode(text)
}

/// Relies on ring's `hmac::sign` with `hmac::Key::new(HMAC_SHA256, key)`:
/// the HMAC-SHA256 tag of `data`.
#[verifier::external_body]
fn hmac_sign(key: &[u8], data: &[u8]) -> (r: Vec<u8>)
    requires
        key@.len() == KEY_LEN,
        data@.len() < MAX_SIGNED_LEN,
    ensures
        r@ == hmac_sha256(key@, data@),
{
    let key = ring::hmac::Key::new(ring::hmac::HMAC_SHA256, key);
    ring::hmac::sign(&key, data).as_ref().to_vec()
}

/// Relies on ring's `hmac::verify` with `hmac::Key::new(HMAC_SHA256, key)`:
/// it succeeds exactly when `tag` is the HMAC-SHA256 tag of `data`, and
/// compares in constant time.
#[verifier::external_body]
fn hmac_verify(key: &[u8], data: &[u8], tag: &[u8]) -> (r: Result<(), ring::error::Unspecified>)
    requires
        key@.len() == KEY_LEN,
        data@.len() < MAX_SIGNED_LEN,
    ensures
        r is Ok <==> tag@ == hmac_sha256(key@, data@),
{
    let key = ring::hmac::Key::new(ring::hmac::HMAC_SHA256, key);
    ring::hmac::verify(&key, data, tag)
}

/// Relies on ring's `SystemRandom::fill`: it fills the buffer from the
/// operating system's secure random source, or fails; the length stays.
#[verifier::external_body]
fn fill_secure_random(buf: &mut Vec<u8>) -> (r: Result<(), ring::error::Unspecified>)
    ensures
        final(buf)@.len() == old(buf)@.len(),
{
    ring::rand::SystemRandom::new().fill(buf.as_mut_slice())
}

/// Relies on `SystemTime::now` and `UNIX_EPOCH`: milliseconds since the
/// epoch, or zero when the clock stands before it.
#[verifier::external_body]
pub fn get_timestamp() -> (r: u128) {
    match std::time::SystemTime::now().duration_since(std::time::UNIX_EPOCH) {
        Ok(d) => d.as_millis(),
        Err(_) => 0,
    }
}

/// The symmetric key that signs and verifies challenges.
pub struct SigningKey {
    secret: Vec<u8>,
}

impl View for SigningKey {
    type V = Seq<u8>;

    closed spec fn view(&self) -> Seq<u8> {
        self.secret@
    }
}

impl SigningKey {
    pub closed spec fn wf(&self) -> bool {
        self.secret@.len() == KEY_LEN
    }

    /// A key made of the given bytes; `None` unless there are `KEY_LEN` of them.
    pub fn from_bytes(secret: Vec<u8>) -> (r: Option<SigningKey>)
        ensures
            r is Some <==> secret@.len() == KEY_LEN,
            r matches Some(k) ==> k.wf() && k@ == secret@,
    {
        if secret.len() == KEY_LEN {
            Some(SigningKey { secret })
        } else {
            None
        }
    }

    /// A fresh key from the operating system's secure random source, or
    /// `None` when that source fails.
    pub fn generate() -> (r: Option<SigningKey>)
        ensures
            r matches Some(k) ==> k.wf(),
    {
        let mut secret: Vec<u8> = Vec::new();
        for _i in 0..KEY_LEN
            invariant
                secret@.len() == _i,
        {
            secret.push(0u8);
        }
        match fill_secure_random(&mut secret) {
            Ok(()) => Some(SigningKey { secret }),
            Err(_) => None,
        }
    }
}

/// The transport text of a signature: the base64 form of the HMAC-SHA256 tag.
pub open spec fn tag_text(key: Seq<u8>, message: Seq<u8>) -> Seq<char> {
    base64_of(hmac_sha256(key, message))
}

/// Whether `tag` is accepted as the signature of `message` under `key`: it
/// is the text that `sign` makes, or any other base64 text of the same
/// HMAC-SHA256 tag (decoding also takes text without padding).
pub open spec fn tag_accepted(key: Seq<u8>, message: Seq<u8>, tag: Seq<char>) -> bool {
    &&& message.len() < MAX_SIGNED_LEN
    &&& tag == tag_text(key, message) || base64_decoded(tag) == Some(hmac_sha256(key, message))
}

/// The signature of `message` under `key`, as base64 text.
pub fn sign(key: &SigningKey, message: &[u8]) -> (r: String)
    requires
        key.wf(),
        message@.len() < MAX_SIGNED_LEN,
    ensures
        r@ == tag_text(key@, message@),
{
    let tag = hmac_sign(key.secret.as_slice(), message);
    base64_encode(tag.as_slice())
}

/// Whether `tag` is the signature of `message` under `key`. Text that is not
/// base64 is rejected like any other wrong signature; the tags themselves
/// are compared in constant time.
pub fn verify(key: &SigningKey, message: &[u8], tag: &str) -> (r: bool)
    requires
        key.wf(),
    ensures
        r == tag_accepted(key@, message@, tag@),
{
    if message.len() as u64 >= MAX_SIGNED_LEN {
        return false;
    }
    match base64_decode(tag) {
        Ok(bytes) => {
            let checked = hmac_verify(key.secret.as_slice(), message, bytes.as_slice());
            proof {
                if tag@ == tag_text(key@, message@) {
                    assert(base64_of(hmac_sha256(key@, message@)) == tag@);
                }
            }
            checked.is_ok()
        },
        Err(_) => {
            proof {
                if tag@ == tag_text(key@, message@) {
                    assert(base64_of(hmac_sha256(key@, message@)) == tag@);
                }
            }
            false
        },
    }
}

/// A signature made by `sign` is accepted by `verify`.
pub proof fn lemma_sign_then_verify(key: Seq<u8>, message: Seq<u8>)
    requires
        message.len() < MAX_SIGNED_LEN,
    ensures
        tag_accepted(key, message, tag_text(key, message)),
{
}

/// A tag other than the signature, which does not decode to the HMAC-SHA256
/// tag of the message either, is rejected; so is any message whose tag
/// differs from the one signed.
pub proof fn lemma_altered_tag_rejected(key: Seq<u8>, message: Seq<u8>, tag: Seq<char>)
    requires
        tag != tag_text(key, message),
        base64_decoded(tag) != Some(hmac_sha256(key, message)),
    ensures
        !tag_accepted(key, message, tag),
{
}


/// The signature of a challenge: of the solver's identity, the puzzle id, the
/// issue time and the canonical plaintext of `msg`. `None` only when those
/// bytes would reach `MAX_SIGNED_LEN`.
pub fn generate_sig(key: &SigningKey, auth: &Option<Auth>, msg_id: i32, timestamp: u128, msg: String) -> (r: Option<String>)
    requires
        key.wf(),
    ensures
        ({
            let data = signed_message(identity_bytes(*auth), msg_id, timestamp, canonical_text(msg@));
            &&& r is Some <==> data.len() < MAX_SIGNED_LEN
            &&& r matches Some(s) ==> s@ == tag_text(key@, data)
        }),
{
    let data = canonical_message(auth, msg_id, timestamp, msg.as_str());
    if data.len() as u64 >= MAX_SIGNED_LEN {
        None
    } else {
        Some(sign(key, data.as_slice()))
    }
}

/// Whether `sig` signs the challenge made of the solver's identity, the
/// puzzle id, the issue time and the canonical plaintext of the guess `msg`.
pub fn verify_solution(
    key: &SigningKey,
    auth: &Option<Auth>,
    msg_id: i32,
    timestamp: u128,
    msg: String,
    sig: String,
) -> (r: bool)
    requires
        key.wf(),
    ensures
        ({
            let data = signed_message(identity_bytes(*auth), msg_id, timestamp, canonical_text(msg@));
            r == tag_accepted(key@, data, sig@)
        }),
{
    let data = canonical_message(auth, msg_id, timestamp, msg.as_str());
    verify(key, data.as_slice(), sig.as_str())
}

} // verus!
