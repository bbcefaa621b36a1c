//! The calls into outside crates that the library makes, each behind a trusted
//! item whose contract states what the outside crate's source and documentation
//! show of it. Nothing in this file is proved; everything else rests on it.

use vstd::prelude::*;

use chacha20poly1305::aead::{Aead, KeyInit};
use ed25519_dalek::Signer;
use rand::RngCore;
use sha2::Digest;

use crate::wire::{hex_lower, varint, wire_bytes, wire_str};

verus! {

/// The largest plaintext, in bytes, that XChaCha20-Poly1305 accepts: the
/// cipher refuses a buffer of 64 * (2^32 - 1) bytes or more.
pub open spec fn aead_max_plaintext() -> nat {
    274877906880
}

/// The bytes of an optional byte vector.
pub open spec fn bytes_opt(o: Option<Vec<u8>>) -> Option<Seq<u8>> {
    match o {
        Some(v) => Some(v@),
        None => None,
    }
}

/// The 32 bytes that HKDF-SHA256 (no salt) expands from `ikm` under `info`.
pub uninterp spec fn hkdf_sha256_32(ikm: Seq<u8>, info: Seq<u8>) -> [u8; 32];

/// The XChaCha20-Poly1305 ciphertext (with its 16-byte tag) of `pt` under `key` and `nonce`.
pub uninterp spec fn xchacha_seal(key: Seq<u8>, nonce: Seq<u8>, pt: Seq<u8>) -> Seq<u8>;

/// The plaintext that XChaCha20-Poly1305 recovers from `ct`, or `None` when it is refused.
pub uninterp spec fn xchacha_open(key: Seq<u8>, nonce: Seq<u8>, ct: Seq<u8>) -> Option<Seq<u8>>;

/// The X25519 public key of a 32-byte secret.
pub uninterp spec fn x25519_public(secret: Seq<u8>) -> Seq<u8>;

/// The X25519 shared secret of a 32-byte secret and a 32-byte public key.
pub uninterp spec fn x25519_shared(secret: Seq<u8>, public: Seq<u8>) -> Seq<u8>;

/// The Ed25519 verifying-key bytes of a 32-byte signing key.
pub uninterp spec fn ed25519_public(secret: Seq<u8>) -> Seq<u8>;

/// The (deterministic) Ed25519 signature of `msg` by a 32-byte signing key.
pub uninterp spec fn ed25519_signature(secret: Seq<u8>, msg: Seq<u8>) -> [u8; 64];

/// Whether 32 bytes decode as an Ed25519 verifying key.
pub uninterp spec fn ed25519_key_decodes(public: Seq<u8>) -> bool;

/// Whether Ed25519 strict verification accepts `sig` over `msg` for `public`.
pub uninterp spec fn ed25519_verifies_strict(public: Seq<u8>, msg: Seq<u8>, sig: Seq<u8>) -> bool;

/// The SHA-512 digest of `data`.
pub uninterp spec fn sha512_digest(data: Seq<u8>) -> Seq<u8>;

/// `n` fresh bytes from the operating system's random generator (`rand::rngs::OsRng`).
/// Nothing is claimed of the bytes; the generator panics if the OS source fails.
#[verifier::external_body]
pub fn random_bytes<const N: usize>() -> [u8; N] {
    let mut out = [0u8; N];
    rand::rngs::OsRng.fill_bytes(&mut out);
    out
}

/// Derive 32 bytes from input keying material and a label: `hkdf::Hkdf::<Sha256>::new(None, ikm)`
/// then `expand(info, ..)` into 32 bytes, which HKDF always allows. The result is named
/// `hkdf_sha256_32`, a function of the two arguments alone.
#[verifier::external_body]
pub fn derive32(ikm: &[u8], info: &[u8]) -> (out: [u8; 32])
    ensures
        out == hkdf_sha256_32(ikm@, info@),
{
    let hk = hkdf::Hkdf::<sha2::Sha256>::new(None, ikm);
    let mut out = [0u8; 32];
    hk.expand(info, &mut out).expect("32 is a valid HKDF length");
    out
}

/// `XChaCha20Poly1305::encrypt`: the ciphertext is named `xchacha_seal` of the key, nonce and
/// plaintext, and is 16 bytes (the tag) longer than the plaintext. The cipher refuses
/// plaintexts of `aead_max_plaintext()` bytes or more, which `requires` leaves out.
#[verifier::external_body]
pub(crate) fn xchacha_encrypt(key: &[u8; 32], nonce: &[u8; 24], pt: &[u8]) -> (ct: Vec<u8>)
    requires
        pt@.len() < aead_max_plaintext(),
    ensures
        ct@ == xchacha_seal(key@, nonce@, pt@),
        ct@.len() == pt@.len() + 16,
{
    let cipher = chacha20poly1305::XChaCha20Poly1305::new(chacha20poly1305::Key::from_slice(key));
    cipher
        .encrypt(chacha20poly1305::XNonce::from_slice(nonce), pt)
        .expect("plaintext length was checked")
}

/// `XChaCha20Poly1305::decrypt`: the result is named `xchacha_open` of the key, nonce and
/// ciphertext. As the AEAD guarantees, a ciphertext that `xchacha_seal` produced under the same
/// key and nonce opens to its plaintext. That a tampered ciphertext is refused holds only with
/// overwhelming probability and is not stated.
#[verifier::external_body]
pub(crate) fn xchacha_decrypt(key: &[u8; 32], nonce: &[u8; 24], ct: &[u8]) -> (pt: Option<Vec<u8>>)
    ensures
        bytes_opt(pt) == xchacha_open(key@, nonce@, ct@),
        forall|p: Seq<u8>|
            p.len() < aead_max_plaintext() && ct@ == #[trigger] xchacha_seal(key@, nonce@, p)
                ==> bytes_opt(pt) == Some(p),
{
    let cipher = chacha20poly1305::XChaCha20Poly1305::new(chacha20poly1305::Key::from_slice(key));
    cipher.decrypt(chacha20poly1305::XNonce::from_slice(nonce), ct).ok()
}

/// `x25519_dalek::PublicKey::from(&StaticSecret::from(secret))`, named `x25519_public`.
#[verifier::external_body]
pub(crate) fn x25519_base(secret: &[u8; 32]) -> (public: [u8; 32])
    ensures
        public@ == x25519_public(secret@),
{
    x25519_dalek::PublicKey::from(&x25519_dalek::StaticSecret::from(*secret)).to_bytes()
}

/// `StaticSecret::from(secret).diffie_hellman(&PublicKey::from(public))`, named `x25519_shared`.
/// Diffie-Hellman agreement: when `public` is the public key of some secret `b`, the result is
/// what `b` computes against the public key of `secret` (both are the clamped scalars' product
/// times the base point).
#[verifier::external_body]
pub(crate) fn x25519_dh(secret: &[u8; 32], public: &[u8; 32]) -> (shared: [u8; 32])
    ensures
        shared@ == x25519_shared(secret@, public@),
        forall|b: Seq<u8>|
            b.len() == 32 && public@ == #[trigger] x25519_public(b) ==> shared@ == x25519_shared(
                b,
                x25519_public(secret@),
            ),
{
    let sk = x25519_dalek::StaticSecret::from(*secret);
    sk.diffie_hellman(&x25519_dalek::PublicKey::from(*public)).to_bytes()
}

/// `ed25519_dalek::SigningKey::from_bytes(secret).verifying_key().to_bytes()`, named `ed25519_public`.
/// The bytes are the compression of a curve point (the secret scalar times the base point), so
/// `VerifyingKey::from_bytes` decompresses them again: the key decodes.
#[verifier::external_body]
pub(crate) fn ed25519_verifying_key(secret: &[u8; 32]) -> (public: [u8; 32])
    ensures
        public@ == ed25519_public(secret@),
        ed25519_key_decodes(public@),
{
    ed25519_dalek::SigningKey::from_bytes(secret).verifying_key().to_bytes()
}

/// `Signer::sign` of `ed25519_dalek::SigningKey::from_bytes(secret)` over `msg` (RFC 8032
/// signing, deterministic), named `ed25519_signature`. That strict verification accepts the
/// result is not stated: it fails in the negligible case where the signature's `R` is the identity.
#[verifier::external_body]
pub(crate) fn ed25519_sign(secret: &[u8; 32], msg: &[u8]) -> (sig: [u8; 64])
    ensures
        sig == ed25519_signature(secret@, msg@),
{
    ed25519_dalek::SigningKey::from_bytes(secret).sign(msg).to_bytes()
}

/// Whether `ed25519_dalek::VerifyingKey::from_bytes(public)` succeeds, named `ed25519_key_decodes`.
#[verifier::external_body]
pub(crate) fn ed25519_key_valid(public: &[u8; 32]) -> (ok: bool)
    ensures
        ok == ed25519_key_decodes(public@),
{
    ed25519_dalek::VerifyingKey::from_bytes(public).is_ok()
}

/// `VerifyingKey::verify_strict(msg, &Signature::from_bytes(sig))` on the key that `public`
/// decodes to (which `requires` makes sure exists), named `ed25519_verifies_strict`.
#[verifier::external_body]
pub(crate) fn ed25519_verify(public: &[u8; 32], msg: &[u8], sig: &[u8; 64]) -> (ok: bool)
    requires
        ed25519_key_decodes(public@),
    ensures
        ok == ed25519_verifies_strict(public@, msg@, sig@),
{
    let vk = ed25519_dalek::VerifyingKey::from_bytes(public).expect("checked by the caller");
    vk.verify_strict(msg, &ed25519_dalek::Signature::from_bytes(sig)).is_ok()
}

/// `sha2::Sha512::digest(data)`, named `sha512_digest`.
#[verifier::external_body]
pub(crate) fn sha512(data: &[u8]) -> (digest: [u8; 64])
    ensures
        digest@ == sha512_digest(data@),
{
    sha2::Sha512::digest(data).into()
}

/// `hex::encode(data)`, which its documentation gives as the lower-case hex text of the bytes.
#[verifier::external_body]
pub(crate) fn hex_encode(data: &[u8]) -> (s: String)
    ensures
        s@ == hex_lower(data@),
{
    hex::encode(data)
}

/// `String::push`: the text grows by one character.
#[verifier::external_body]
pub(crate) fn string_push(s: &mut String, c: char)
    ensures
        final(s)@ == old(s)@.push(c),
{
    s.push(c)
}

/// `postcard::to_allocvec(&(content, nonce))` for a byte string and a 24-byte array: the
/// length-prefixed bytes, then the 24 bytes raw. Serializing into a growable vector never fails.
#[verifier::external_body]
pub(crate) fn postcard_bytes_and_nonce(content: &[u8], nonce: &[u8; 24]) -> (out: Vec<u8>)
    ensures
        out@ == wire_bytes(content@) + nonce@,
{
    postcard::to_allocvec(&(content, nonce)).expect("serializing into a vector never fails")
}

/// `postcard::to_allocvec(&(owner, name, bio, version))` for a 32-byte array, two texts and a
/// `u64`: the array raw, each text length-prefixed, then the version as a varint.
#[verifier::external_body]
pub(crate) fn postcard_key_texts_version(owner: &[u8; 32], name: &str, bio: &str, version: u64) -> (out: Vec<u8>)
    ensures
        out@ == owner@ + wire_str(name@) + wire_str(bio@) + varint(version as nat),
{
    postcard::to_allocvec(&(owner, name, bio, version)).expect("serializing into a vector never fails")
}

/// `postcard::to_allocvec(&(post_id, author, (tag, text)))` for a 16-byte and a 32-byte array,
/// a `u32` and a text: both arrays raw, the tag as a varint, then the length-prefixed text.
#[verifier::external_body]
pub(crate) fn postcard_ids_tag_text(post_id: &[u8; 16], author: &[u8; 32], tag: u32, text: &str) -> (out: Vec<u8>)
    ensures
        out@ == post_id@ + author@ + varint(tag as nat) + wire_str(text@),
{
    postcard::to_allocvec(&(post_id, author, (tag, text))).expect("serializing into a vector never fails")
}

/// `postcard::to_allocvec(&(a, b))` for two 32-byte arrays: the 64 bytes, raw.
#[verifier::external_body]
pub(crate) fn postcard_key_pair(a: &[u8; 32], b: &[u8; 32]) -> (out: Vec<u8>)
    ensures
        out@ == a@ + b@,
{
    postcard::to_allocvec(&(a, b)).expect("serializing into a vector never fails")
}

/// `postcard::from_bytes::<([u8; 32], [u8; 32])>(bytes)`: it reads the first 64 bytes as the
/// two arrays and ignores what follows, and fails when fewer than 64 bytes are given.
#[verifier::external_body]
pub(crate) fn postcard_parse_key_pair(bytes: &[u8]) -> (out: Option<([u8; 32], [u8; 32])>)
    ensures
        out is Some <==> bytes@.len() >= 64,
        out matches Some(p) ==> p.0@ == bytes@.subrange(0, 32) && p.1@ == bytes@.subrange(32, 64),
{
    postcard::from_bytes::<([u8; 32], [u8; 32])>(bytes).ok()
}

} // verus!
