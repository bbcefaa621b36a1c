//! Authenticated encryption, and sealing a secret to a recipient's X25519 public key.

use vstd::prelude::*;

use crate::bytes::concat3;
use crate::identity::DhPublicKey;
use crate::labels::{seal_label, SEAL};
use crate::primitives::{
    aead_max_plaintext, derive32, hkdf_sha256_32, random_bytes, x25519_base, x25519_dh,
    x25519_public, x25519_shared, xchacha_decrypt, xchacha_encrypt, xchacha_open, xchacha_seal,
};
use crate::Error;

verus! {

/// Encrypt `plaintext` under `key` with a fresh random nonce; returns the nonce and the
/// ciphertext, which is the XChaCha20-Poly1305 sealing of the plaintext under that nonce.
pub fn aead_encrypt(key: &[u8; 32], plaintext: &[u8]) -> (r: ([u8; 24], Vec<u8>))
    requires
        plaintext@.len() < aead_max_plaintext(),
    ensures
        r.1@ == xchacha_seal(key@, r.0@, plaintext@),
        r.1@.len() == plaintext@.len() + 16,
{
    let nonce: [u8; 24] = random_bytes::<24>();
    let ct = xchacha_encrypt(key, &nonce, plaintext);
    (nonce, ct)
}

/// What decrypting `ct` under `key` and `nonce` gives: the plaintext, or [`Error::Aead`]
/// when the cipher refuses it (wrong key, wrong nonce or tampered ciphertext).
pub open spec fn aead_decrypt_spec(key: Seq<u8>, nonce: Seq<u8>, ct: Seq<u8>) -> Result<Seq<u8>, Error> {
    match xchacha_open(key, nonce, ct) {
        Some(p) => Ok(p),
        None => Err(Error::Aead),
    }
}

/// The bytes of a byte-vector result.
pub open spec fn bytes_result(r: Result<Vec<u8>, Error>) -> Result<Seq<u8>, Error> {
    match r {
        Ok(v) => Ok(v@),
        Err(e) => Err(e),
    }
}

/// Decrypt `ciphertext` under `key` and `nonce`. A ciphertext that [`aead_encrypt`] produced under
/// the same key and nonce decrypts to its plaintext.
pub fn aead_decrypt(key: &[u8; 32], nonce: &[u8; 24], ciphertext: &[u8]) -> (r: Result<Vec<u8>, Error>)
    ensures
        bytes_result(r) == aead_decrypt_spec(key@, nonce@, ciphertext@),
        forall|p: Seq<u8>|
            p.len() < aead_max_plaintext() && ciphertext@ == #[trigger] xchacha_seal(key@, nonce@, p)
                ==> bytes_result(r) == Ok::<Seq<u8>, Error>(p),
{
    match xchacha_decrypt(key, nonce, ciphertext) {
        Some(p) => Ok(p),
        None => Err(Error::Aead),
    }
}

/// A secret encrypted to a recipient's X25519 public key with an ephemeral key pair.
#[derive(Clone, Debug)]
pub struct SealedBox {
    pub ephemeral_pub: [u8; 32],
    pub nonce: [u8; 24],
    pub ct: Vec<u8>,
}

/// The derivation label of a sealed box's wrapping key: the seal label, the ephemeral public key,
/// then the recipient's public key.
pub open spec fn seal_info(ephemeral_pub: Seq<u8>, recipient_pub: Seq<u8>) -> Seq<u8> {
    seal_label() + ephemeral_pub + recipient_pub
}

/// The key that wraps a sealed box, derived from the shared secret and both public keys.
pub open spec fn wrap_key(shared: Seq<u8>, ephemeral_pub: Seq<u8>, recipient_pub: Seq<u8>) -> Seq<u8> {
    hkdf_sha256_32(shared, seal_info(ephemeral_pub, recipient_pub))@
}

/// `sealed` holds `secret` for `recipient_pub`, made with the ephemeral secret `eph`.
pub open spec fn sealed_with(sealed: SealedBox, eph: Seq<u8>, recipient_pub: Seq<u8>, secret: Seq<u8>) -> bool {
    &&& eph.len() == 32
    &&& sealed.ephemeral_pub@ == x25519_public(eph)
    &&& sealed.ct@ == xchacha_seal(
        wrap_key(x25519_shared(eph, recipient_pub), sealed.ephemeral_pub@, recipient_pub),
        sealed.nonce@,
        secret,
    )
}

/// `sealed` holds `secret` for the holder of the X25519 key whose public key is `recipient_pub`.
pub open spec fn sealed_to(sealed: SealedBox, recipient_pub: Seq<u8>, secret: Seq<u8>) -> bool {
    exists|eph: Seq<u8>| #[trigger] sealed_with(sealed, eph, recipient_pub, secret)
}

/// What opening `sealed` with the X25519 secret `recipient_secret` gives.
pub open spec fn open_spec(recipient_secret: Seq<u8>, sealed: SealedBox) -> Result<Seq<u8>, Error> {
    aead_decrypt_spec(
        wrap_key(
            x25519_shared(recipient_secret, sealed.ephemeral_pub@),
            sealed.ephemeral_pub@,
            x25519_public(recipient_secret),
        ),
        sealed.nonce@,
        sealed.ct@,
    )
}

/// The seal label, the ephemeral public key and the recipient's public key, concatenated.
fn seal_info_bytes(ephemeral_pub: &[u8; 32], recipient_pub: &[u8; 32]) -> (info: Vec<u8>)
    ensures
        info@ == seal_info(ephemeral_pub@, recipient_pub@),
{
    concat3(SEAL.as_bytes(), ephemeral_pub.as_slice(), recipient_pub.as_slice())
}

impl SealedBox {
    /// Seal `secret` to `recipient_dh_pub`: a fresh ephemeral X25519 key agrees a secret with the
    /// recipient, a wrapping key is derived from it and both public keys, and the secret is
    /// encrypted under that key.
    pub fn seal(recipient_dh_pub: &DhPublicKey, secret: &[u8]) -> (sealed: SealedBox)
        requires
            secret@.len() < aead_max_plaintext(),
        ensures
            sealed_to(sealed, recipient_dh_pub@, secret@),
    {
        let eph: [u8; 32] = random_bytes::<32>();
        let e_pub = x25519_base(&eph);
        let r_pub = recipient_dh_pub.to_bytes();
        let shared = x25519_dh(&eph, &r_pub);
        let info = seal_info_bytes(&e_pub, &r_pub);
        let key = derive32(shared.as_slice(), info.as_slice());
        let (nonce, ct) = aead_encrypt(&key, secret);
        let sealed = SealedBox { ephemeral_pub: e_pub, nonce, ct };
        assert(sealed_with(sealed, eph@, recipient_dh_pub@, secret@));
        sealed
    }

    /// Open a sealed box with the recipient's X25519 secret. A box that [`SealedBox::seal`] made
    /// for the public key of `recipient_dh_secret` opens to the sealed secret.
    pub fn open(recipient_dh_secret: &[u8; 32], sealed: &SealedBox) -> (r: Result<Vec<u8>, Error>)
        ensures
            bytes_result(r) == open_spec(recipient_dh_secret@, *sealed),
            forall|secret: Seq<u8>|
                secret.len() < aead_max_plaintext() && #[trigger] sealed_to(
                    *sealed,
                    x25519_public(recipient_dh_secret@),
                    secret,
                ) ==> bytes_result(r) == Ok::<Seq<u8>, Error>(secret),
    {
        let shared = x25519_dh(recipient_dh_secret, &sealed.ephemeral_pub);
        let my_pub = x25519_base(recipient_dh_secret);
        let info = seal_info_bytes(&sealed.ephemeral_pub, &my_pub);
        let key = derive32(shared.as_slice(), info.as_slice());
        let r = aead_decrypt(&key, &sealed.nonce, sealed.ct.as_slice());
        assert forall|secret: Seq<u8>|
            secret.len() < aead_max_plaintext() && #[trigger] sealed_to(
                *sealed,
                x25519_public(recipient_dh_secret@),
                secret,
            ) implies bytes_result(r) == Ok::<Seq<u8>, Error>(secret) by {
            let rp = x25519_public(recipient_dh_secret@);
            let eph = choose|eph: Seq<u8>| #[trigger] sealed_with(*sealed, eph, rp, secret);
            assert(sealed.ephemeral_pub@ == x25519_public(eph));
            assert(shared@ == x25519_shared(eph, rp));
            assert(sealed.ct@ == xchacha_seal(key@, sealed.nonce@, secret));
        }
        r
    }
}

} // verus!
