//! Letters and envelopes: a message encrypted once under a random content key and signed by
//! its author, with the content key sealed separately to each recipient.

use vstd::prelude::*;

use crate::crypto::{aead_decrypt, aead_decrypt_spec, aead_encrypt, bytes_result, open_spec, sealed_to, SealedBox};
use crate::identity::{dh_pub_of, dh_secret_of, is_public_of, sign_pub_of, signing_secret_of, Identity, PublicIdentity};
use crate::primitives::{
    aead_max_plaintext, ed25519_key_decodes, ed25519_key_valid, ed25519_sign, ed25519_signature,
    ed25519_verifies_strict, ed25519_verify, postcard_bytes_and_nonce, random_bytes, sha512,
    sha512_digest, xchacha_seal,
};
use crate::signing::{array32, Signature};
use crate::wire::wire_bytes;
use crate::Error;

verus! {

/// The identifier of a letter: the SHA-512 digest of its signing bytes.
#[derive(Debug, Clone, Copy, PartialEq, Eq)]
pub struct LetterId([u8; 64]);

impl View for LetterId {
    type V = Seq<u8>;

    closed spec fn view(&self) -> Seq<u8> {
        self.0@
    }
}

impl LetterId {
    /// The identifier's bytes.
    pub fn as_bytes(&self) -> (bytes: &[u8])
        ensures
            bytes@ == self@,
            bytes@.len() == 64,
    {
        self.0.as_slice()
    }

    /// The identifier with the given bytes.
    pub fn from_bytes(bytes: [u8; 64]) -> (id: LetterId)
        ensures
            id@ == bytes@,
    {
        LetterId(bytes)
    }

    /// Whether two identifiers are the same.
    pub fn same_as(&self, other: &LetterId) -> (eq: bool)
        ensures
            eq == (self@ == other@),
    {
        crate::bytes::bytes_eq(self.0.as_slice(), other.0.as_slice())
    }
}

/// An encrypted message with its author's signature.
#[derive(Clone, Debug)]
pub struct Letter {
    pub content_ct: Vec<u8>,
    pub content_nonce: [u8; 24],
    pub sig: Signature,
}

/// A letter together with its content key, sealed to one recipient.
#[derive(Clone, Debug)]
pub struct Envelope {
    pub letter: Letter,
    pub sealed_content_key: SealedBox,
}

/// The bytes a letter's signature covers: the ciphertext (length-prefixed) and the nonce; the
/// signature does not cover itself.
pub open spec fn letter_signing_bytes(letter: Letter) -> Seq<u8> {
    wire_bytes(letter.content_ct@) + letter.content_nonce@
}

/// Two letters with the same contents.
pub open spec fn same_letter(a: Letter, b: Letter) -> bool {
    a.content_ct@ == b.content_ct@ && a.content_nonce@ == b.content_nonce@ && a.sig@ == b.sig@
}

impl Letter {
    /// The bytes the letter's signature covers.
    pub fn signing_bytes(&self) -> (bytes: Vec<u8>)
        ensures
            bytes@ == letter_signing_bytes(*self),
    {
        postcard_bytes_and_nonce(self.content_ct.as_slice(), &self.content_nonce)
    }

    /// The SHA-512 digest of the signing bytes.
    pub fn signing_hash_bytes(&self) -> (digest: [u8; 64])
        ensures
            digest@ == sha512_digest(letter_signing_bytes(*self)),
    {
        let bytes = self.signing_bytes();
        sha512(bytes.as_slice())
    }

    /// The letter's identifier: the digest of its signing bytes.
    pub fn id(&self) -> (id: LetterId)
        ensures
            id@ == sha512_digest(letter_signing_bytes(*self)),
    {
        LetterId(self.signing_hash_bytes())
    }

    /// Sign the letter's signing bytes with the Ed25519 signing key `key`.
    pub fn sign_with(&self, key: &[u8; 32]) -> (sig: Signature)
        ensures
            sig@ == ed25519_signature(key@, letter_signing_bytes(*self))@,
    {
        let bytes = self.signing_bytes();
        Signature::from_bytes(ed25519_sign(key, bytes.as_slice()))
    }

    /// A copy of the letter.
    pub fn duplicate(&self) -> (copy: Letter)
        ensures
            same_letter(copy, *self),
    {
        let ct = self.content_ct.clone();
        assert(ct@ =~= self.content_ct@);
        Letter { content_ct: ct, content_nonce: self.content_nonce, sig: self.sig }
    }
}

/// `env` carries `payload` from the identity with seed `author_seed` to the holder of the X25519
/// key whose public key is `recipient_pub`: its content key is sealed to that recipient, the
/// ciphertext encrypts the payload under the content key, and the signature is the author's over
/// the letter's signing bytes.
pub open spec fn envelope_of(env: Envelope, author_seed: Seq<u8>, payload: Seq<u8>, recipient_pub: Seq<u8>) -> bool {
    &&& exists|k: Seq<u8>|
        #![trigger sealed_to(env.sealed_content_key, recipient_pub, k)]
        k.len() == 32 && sealed_to(env.sealed_content_key, recipient_pub, k)
            && env.letter.content_ct@ == xchacha_seal(k, env.letter.content_nonce@, payload)
    &&& env.letter.sig@ == ed25519_signature(
        signing_secret_of(author_seed),
        letter_signing_bytes(env.letter),
    )@
}

/// What opening `env` as the identity with seed `recipient_seed`, from the author whose verifying
/// key is `author_sign_pub`, gives: the content key is unsealed (else [`Error::Aead`]), the author's
/// key must decode (else [`Error::BadKey`]) and the signature verify (else [`Error::Signature`]), the
/// content key must have 32 bytes (else [`Error::BadKey`]), and the ciphertext is decrypted.
pub open spec fn open_envelope_spec(env: Envelope, recipient_seed: Seq<u8>, author_sign_pub: Seq<u8>) -> Result<Seq<u8>, Error> {
    match open_spec(dh_secret_of(recipient_seed), env.sealed_content_key) {
        Err(e) => Err(e),
        Ok(k) => if !ed25519_key_decodes(author_sign_pub) {
            Err(Error::BadKey)
        } else if !ed25519_verifies_strict(author_sign_pub, letter_signing_bytes(env.letter), env.letter.sig@) {
            Err(Error::Signature)
        } else if k.len() != 32 {
            Err(Error::BadKey)
        } else {
            aead_decrypt_spec(k, env.letter.content_nonce@, env.letter.content_ct@)
        },
    }
}

/// Ed25519 accepts the signature that the identity with seed `seed` makes over `msg`, and that
/// identity's verifying key decodes.
pub open spec fn author_signature_checks(seed: Seq<u8>, msg: Seq<u8>) -> bool {
    &&& ed25519_key_decodes(sign_pub_of(seed))
    &&& ed25519_verifies_strict(sign_pub_of(seed), msg, ed25519_signature(signing_secret_of(seed), msg)@)
}

impl Envelope {
    /// Open the envelope as `recipient`, checking that `author_pub` signed it, and return the
    /// payload. An envelope that `author` sealed with [`Envelope::seal_envelope`] to `recipient`'s
    /// public identity opens to the sealed payload, as long as Ed25519 accepts the author's signature.
    pub fn open_envelope(&self, recipient: &Identity, author_pub: &PublicIdentity) -> (r: Result<Vec<u8>, Error>)
        ensures
            bytes_result(r) == open_envelope_spec(*self, recipient.master_seed@, author_pub.sign_pub@),
            forall|author_seed: Seq<u8>, payload: Seq<u8>|
                #![trigger envelope_of(*self, author_seed, payload, dh_pub_of(recipient.master_seed@))]
                envelope_of(*self, author_seed, payload, dh_pub_of(recipient.master_seed@))
                    && is_public_of(*author_pub, author_seed)
                    && payload.len() < aead_max_plaintext()
                    && author_signature_checks(author_seed, letter_signing_bytes(self.letter))
                    ==> bytes_result(r) == Ok::<Seq<u8>, Error>(payload),
    {
        let content_key = match SealedBox::open(&recipient.dh_secret(), &self.sealed_content_key) {
            Ok(k) => k,
            Err(e) => {
                return Err(e);
            },
        };
        let author_key = author_pub.sign_pub.to_bytes();
        if !ed25519_key_valid(&author_key) {
            return Err(Error::BadKey);
        }
        let signing_bytes = self.letter.signing_bytes();
        let sig = self.letter.sig.to_bytes();
        if !ed25519_verify(&author_key, signing_bytes.as_slice(), &sig) {
            return Err(Error::Signature);
        }
        if content_key.len() != 32 {
            return Err(Error::BadKey);
        }
        let key = array32(content_key.as_slice());
        let r = aead_decrypt(&key, &self.letter.content_nonce, self.letter.content_ct.as_slice());
        assert forall|author_seed: Seq<u8>, payload: Seq<u8>|
            #![trigger envelope_of(*self, author_seed, payload, dh_pub_of(recipient.master_seed@))]
            envelope_of(*self, author_seed, payload, dh_pub_of(recipient.master_seed@))
                && is_public_of(*author_pub, author_seed)
                && payload.len() < aead_max_plaintext()
                && author_signature_checks(author_seed, letter_signing_bytes(self.letter))
                implies bytes_result(r) == Ok::<Seq<u8>, Error>(payload) by {
            let rp = dh_pub_of(recipient.master_seed@);
            let k = choose|k: Seq<u8>|
                #![trigger sealed_to(self.sealed_content_key, rp, k)]
                k.len() == 32 && sealed_to(self.sealed_content_key, rp, k)
                    && self.letter.content_ct@ == xchacha_seal(k, self.letter.content_nonce@, payload);
            assert(content_key@ == k);
        }
        r
    }

    /// Seal `payload` from `author` to each of `recipients`: the payload is encrypted once under a
    /// fresh content key and signed by the author, and each envelope carries that letter with the
    /// content key sealed to one recipient, in the order of `recipients`.
    pub fn seal_envelope(author: &Identity, payload: &[u8], recipients: &[PublicIdentity]) -> (envelopes: Vec<Envelope>)
        requires
            payload@.len() < aead_max_plaintext(),
        ensures
            envelopes@.len() == recipients@.len(),
            forall|i: int|
                0 <= i < envelopes@.len() ==> #[trigger] envelope_of(
                    envelopes@[i],
                    author.master_seed@,
                    payload@,
                    recipients@[i].dh_pub@,
                ),
            forall|i: int, j: int|
                0 <= i < envelopes@.len() && 0 <= j < envelopes@.len() ==> same_letter(
                    #[trigger] envelopes@[i].letter,
                    #[trigger] envelopes@[j].letter,
                ),
    {
        let content_key: [u8; 32] = random_bytes::<32>();
        let (body_nonce, body_ct) = aead_encrypt(&content_key, payload);
        let mut letter = Letter { content_ct: body_ct, content_nonce: body_nonce, sig: Signature::invalid() };
        let sig = letter.sign_with(&author.signing_key());
        letter.sig = sig;
        let mut envelopes: Vec<Envelope> = Vec::new();
        let mut i: usize = 0;
        while i < recipients.len()
            invariant
                i <= recipients@.len(),
                envelopes@.len() == i,
                letter.content_ct@ == xchacha_seal(content_key@, letter.content_nonce@, payload@),
                letter.sig@ == ed25519_signature(signing_secret_of(author.master_seed@), letter_signing_bytes(letter))@,
                forall|j: int|
                    0 <= j < i ==> same_letter(#[trigger] envelopes@[j].letter, letter)
                        && sealed_to(envelopes@[j].sealed_content_key, recipients@[j].dh_pub@, content_key@),
            decreases recipients@.len() - i,
        {
            let sealed = SealedBox::seal(&recipients[i].dh_pub, content_key.as_slice());
            envelopes.push(Envelope { letter: letter.duplicate(), sealed_content_key: sealed });
            i = i + 1;
        }
        assert forall|i: int|
            0 <= i < envelopes@.len() implies #[trigger] envelope_of(
                envelopes@[i],
                author.master_seed@,
                payload@,
                recipients@[i].dh_pub@,
            ) by {
            assert(same_letter(envelopes@[i].letter, letter));
            assert(letter_signing_bytes(envelopes@[i].letter) == letter_signing_bytes(letter));
            assert(sealed_to(envelopes@[i].sealed_content_key, recipients@[i].dh_pub@, content_key@));
        }
        envelopes
    }
}

impl LetterId {
    /// The identifier with the given bytes, in specifications.
    pub closed spec fn spec_new(v: [u8; 64]) -> LetterId {
        LetterId(v)
    }

    /// The identifier made from some bytes has those bytes.
    pub proof fn lemma_spec_new(v: [u8; 64])
        ensures
            LetterId::spec_new(v)@ == v@,
    {
    }
}

impl From<[u8; 64]> for LetterId {
    fn from(bytes: [u8; 64]) -> (id: LetterId) {
        LetterId(bytes)
    }
}

impl vstd::std_specs::convert::FromSpecImpl<[u8; 64]> for LetterId {
    open spec fn obeys_from_spec() -> bool {
        true
    }

    open spec fn from_spec(v: [u8; 64]) -> LetterId {
        LetterId::spec_new(v)
    }
}

} // verus!
