//! Profiles: a display name and bio, versioned and signed by their owner.

use vstd::prelude::*;

use crate::identity::{sign_pub_of, signing_secret_of, Identity, SigningPublicKey};
use crate::primitives::{
    ed25519_key_decodes, ed25519_key_valid, ed25519_sign, ed25519_signature, ed25519_verifies_strict,
    ed25519_verify, postcard_key_texts_version,
};
use crate::signing::Signature;
use crate::wire::{varint, wire_str};
use crate::Error;

verus! {

/// A user's profile.
#[derive(Clone, Debug, PartialEq)]
pub struct Profile {
    pub owner: SigningPublicKey,
    pub display_name: String,
    pub bio: String,
    pub version: u64,
    pub sig: Signature,
}

/// The bytes a profile's signature covers: owner, display name, bio and version, without the
/// signature itself.
pub open spec fn profile_signing_bytes(p: Profile) -> Seq<u8> {
    p.owner@ + wire_str(p.display_name@) + wire_str(p.bio@) + varint(p.version as nat)
}

/// What verifying a profile gives: [`Error::BadKey`] when the owner's key does not decode,
/// [`Error::Signature`] when the signature does not verify over the signing bytes, else success.
pub open spec fn verify_profile_spec(p: Profile) -> Result<(), Error> {
    if !ed25519_key_decodes(p.owner@) {
        Err(Error::BadKey)
    } else if !ed25519_verifies_strict(p.owner@, profile_signing_bytes(p), p.sig@) {
        Err(Error::Signature)
    } else {
        Ok(())
    }
}

impl Profile {
    /// The bytes the profile's signature covers.
    pub fn signing_bytes(&self) -> (bytes: Vec<u8>)
        ensures
            bytes@ == profile_signing_bytes(*self),
    {
        let owner = self.owner.to_bytes();
        postcard_key_texts_version(&owner, self.display_name.as_str(), self.bio.as_str(), self.version)
    }

    /// Sign the profile's signing bytes with the Ed25519 signing key `key`.
    pub fn sign_with(&self, key: &[u8; 32]) -> (sig: Signature)
        ensures
            sig@ == ed25519_signature(key@, profile_signing_bytes(*self))@,
    {
        let bytes = self.signing_bytes();
        Signature::from_bytes(ed25519_sign(key, bytes.as_slice()))
    }
}

/// A profile of `me` with the given name, bio and version, signed by `me`.
pub fn create_profile(me: &Identity, display_name: &str, bio: &str, version: u64) -> (p: Profile)
    ensures
        p.owner@ == sign_pub_of(me.master_seed@),
        p.display_name@ == display_name@,
        p.bio@ == bio@,
        p.version == version,
        p.sig@ == ed25519_signature(signing_secret_of(me.master_seed@), profile_signing_bytes(p))@,
{
    let mut profile = Profile {
        owner: me.public().sign_pub,
        display_name: display_name.to_string(),
        bio: bio.to_string(),
        version,
        sig: Signature::invalid(),
    };
    let sig = profile.sign_with(&me.signing_key());
    profile.sig = sig;
    profile
}

/// Check that a profile is signed by its owner. A profile that [`create_profile`] made passes, as
/// long as Ed25519 accepts its owner's signature.
pub fn verify_profile(p: &Profile) -> (r: Result<(), Error>)
    ensures
        r == verify_profile_spec(*p),
{
    let owner = p.owner.to_bytes();
    if !ed25519_key_valid(&owner) {
        return Err(Error::BadKey);
    }
    let bytes = p.signing_bytes();
    if !ed25519_verify(&owner, bytes.as_slice(), &p.sig.to_bytes()) {
        return Err(Error::Signature);
    }
    Ok(())
}

/// A profile that its owner signed verifies, as long as Ed25519 accepts the owner's signature.
pub proof fn lemma_created_profile_verifies(p: Profile, seed: Seq<u8>)
    requires
        p.owner@ == sign_pub_of(seed),
        p.sig@ == ed25519_signature(signing_secret_of(seed), profile_signing_bytes(p))@,
        ed25519_key_decodes(sign_pub_of(seed)),
        ed25519_verifies_strict(
            sign_pub_of(seed),
            profile_signing_bytes(p),
            ed25519_signature(signing_secret_of(seed), profile_signing_bytes(p))@,
        ),
    ensures
        verify_profile_spec(p) == Ok::<(), Error>(()),
{
}

} // verus!
