//! Bytes as text, and digests of bytes.

use base64::Engine;
use sha2::Digest;
use vstd::prelude::*;

verus! {

// ---------------------------------------------------------------------------
// Base64
// ---------------------------------------------------------------------------

/// What `base64::Engine::encode` of the engine `STANDARD` gives for the bytes.
pub uninterp spec fn base64_text(bytes: Seq<u8>) -> Seq<char>;

/// What `base64::Engine::decode` of the engine `STANDARD` gives for the text:
/// the bytes, or the text of the error.
pub uninterp spec fn base64_bytes(text: Seq<char>) -> Result<Seq<u8>, Seq<char>>;

/// Whether the text is Base64 of these bytes to the decoder.
pub open spec fn decodes_to(text: Seq<char>, bytes: Seq<u8>) -> bool {
    base64_bytes(text) matches Ok(b) && b == bytes
}

/// Calls `base64::Engine::encode` of the engine `STANDARD`. The result depends
/// on the bytes alone, and the same engine's `decode` gives the bytes back.
#[verifier::external_body]
pub(crate) fn base64_encode(bytes: &Vec<u8>) -> (text: String)
    ensures
        text@ == base64_text(bytes@),
        decodes_to(text@, bytes@),
{
    base64::engine::general_purpose::STANDARD.encode(bytes)
}

/// Calls `base64::Engine::decode` of the engine `STANDARD`. The result depends
/// on the text alone. An error is handed on as its text.
#[verifier::external_body]
pub(crate) fn base64_decode(text: &str) -> (r: Result<Vec<u8>, String>)
    ensures
        match r {
            Ok(bytes) => base64_bytes(text@) matches Ok(b) && b == bytes@,
            Err(e) => base64_bytes(text@) matches Err(m) && m == e@,
        },
{
    match base64::engine::general_purpose::STANDARD.decode(text) {
        Ok(bytes) => Ok(bytes),
        Err(e) => Err(e.to_string()),
    }
}

// ---------------------------------------------------------------------------
// UTF-8
// ---------------------------------------------------------------------------

/// What `String::from_utf8_lossy` gives for the bytes.
pub uninterp spec fn lossy_text(bytes: Seq<u8>) -> Seq<char>;

/// Calls `String::from_utf8_lossy`. The result depends on the bytes alone; bytes
/// that are UTF-8 are read as such.
#[verifier::external_body]
fn utf8_lossy(bytes: &Vec<u8>) -> (text: String)
    ensures
        text@ == lossy_text(bytes@),
        vstd::utf8::valid_utf8(bytes@) ==> text@ == vstd::utf8::decode_utf8(bytes@),
{
    String::from_utf8_lossy(bytes).into_owned()
}

/// The text that bytes hold: what they say where they are UTF-8, else the best that
/// can be made of them.
pub open spec fn text_in_bytes(bytes: Seq<u8>) -> Seq<char> {
    if vstd::utf8::valid_utf8(bytes) {
        vstd::utf8::decode_utf8(bytes)
    } else {
        lossy_text(bytes)
    }
}

/// The text that bytes hold.
pub fn bytes_to_text(bytes: &Vec<u8>) -> (text: String)
    ensures
        text@ == text_in_bytes(bytes@),
{
    utf8_lossy(bytes)
}

/// Calls `String::from_utf8`: the text that the bytes hold, if they are UTF-8.
#[verifier::external_body]
pub(crate) fn utf8_text(bytes: Vec<u8>) -> (r: Option<String>)
    ensures
        r is Some == vstd::utf8::valid_utf8(bytes@),
        r matches Some(text) ==> text@ == vstd::utf8::decode_utf8(bytes@),
{
    String::from_utf8(bytes).ok()
}

/// What `str::to_lowercase` gives for the text.
pub uninterp spec fn lowercase(text: Seq<char>) -> Seq<char>;

/// Calls `str::to_lowercase`. The result depends on the text alone.
#[verifier::external_body]
pub(crate) fn to_lowercase(text: &str) -> (r: String)
    ensures
        r@ == lowercase(text@),
{
    text.to_lowercase()
}

// ---------------------------------------------------------------------------
// SHA-256
// ---------------------------------------------------------------------------

/// The SHA-256 digest of the bytes, as `sha2::Sha256` computes it.
pub uninterp spec fn sha256(bytes: Seq<u8>) -> Seq<u8>;

/// A `sha2::Sha256` that takes in data piece by piece.
#[verifier::external_body]
pub struct ContentHasher {
    inner: sha2::Sha256,
}

/// The bytes that a hasher has taken in so far.
pub uninterp spec fn taken_in(hasher: ContentHasher) -> Seq<u8>;

impl ContentHasher {
    /// Calls `sha2::Digest::new`: a hasher that has taken in nothing.
    #[verifier::external_body]
    pub(crate) fn new() -> (hasher: ContentHasher)
        ensures
            taken_in(hasher) =~= seq![],
    {
        ContentHasher { inner: sha2::Sha256::new() }
    }

    /// Calls `sha2::Digest::update`: the data is taken in after what was.
    #[verifier::external_body]
    pub(crate) fn update(&mut self, data: &Vec<u8>)
        ensures
            taken_in(*final(self)) == taken_in(*old(self)) + data@,
    {
        self.inner.update(data);
    }

    /// Calls `sha2::Digest::finalize`: the digest of what was taken in, which is
    /// 32 bytes long.
    #[verifier::external_body]
    pub(crate) fn finalize(self) -> (digest: Vec<u8>)
        ensures
            digest@ == sha256(taken_in(self)),
            digest@.len() == 32,
    {
        self.inner.finalize().to_vec()
    }
}

/// The SHA-256 digest of the bytes in hexadecimal.
pub open spec fn sha256_hex(bytes: Seq<u8>) -> Seq<char> {
    crate::number::hex(sha256(bytes))
}

/// The SHA-256 digest of the bytes in hexadecimal.
pub fn sha256_of(bytes: &Vec<u8>) -> (text: String)
    ensures
        text@ == sha256_hex(bytes@),
        text@.len() == 64,
{
    let mut hasher = ContentHasher::new();
    hasher.update(bytes);
    assert(taken_in(hasher) =~= bytes@);
    let digest = hasher.finalize();
    proof {
        crate::number::law_hex_length(digest@);
    }
    crate::number::to_hex(&digest)
}

// ---------------------------------------------------------------------------
// JSON
// ---------------------------------------------------------------------------

/// What `serde_json::from_slice` and a look at the member `key` give for the
/// bytes: the text of the error where they are no JSON; else the text that the
/// member holds, where the value is an object with a text under that key.
pub uninterp spec fn json_text_member(body: Seq<u8>, key: Seq<char>) -> Result<
    Option<Seq<char>>,
    Seq<char>,
>;

/// Calls `serde_json::from_slice`, indexes the value by `key` and calls
/// `serde_json::Value::as_str`. The result depends on the bytes and the key
/// alone. An error is handed on as its text.
#[verifier::external_body]
pub(crate) fn json_member(body: &Vec<u8>, key: &str) -> (r: Result<Option<String>, String>)
    ensures
        match r {
            Ok(Some(text)) => json_text_member(body@, key@) matches Ok(Some(t)) && t == text@,
            Ok(None) => json_text_member(body@, key@) matches Ok(None),
            Err(e) => json_text_member(body@, key@) matches Err(m) && m == e@,
        },
{
    match serde_json::from_slice::<serde_json::Value>(body) {
        Ok(value) => Ok(value[key].as_str().map(|s| s.to_string())),
        Err(e) => Err(e.to_string()),
    }
}

} // verus!
