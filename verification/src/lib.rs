use vstd::prelude::*;

pub mod bytes;
pub mod config;
pub mod crypto;
pub mod deep_link;
pub mod envelope;
pub mod friend;
pub mod identity;
pub mod labels;
pub mod landing;
pub mod mailbox;
pub mod primitives;
pub mod message;
pub mod profile;
pub mod relay;
pub mod response;
pub mod signing;
pub mod stored;
pub mod sync;
pub mod time;
pub mod wire;

verus! {

/// Errors returned by the cryptographic operations of the library.
#[derive(Debug, Clone, Copy, PartialEq, Eq, Structural)]
pub enum Error {
    /// AEAD open failed: wrong key or tampered ciphertext.
    Aead,
    /// A signature did not verify.
    Signature,
    /// (De)serialization failed.
    Serialize,
    /// A key or public value was malformed.
    BadKey,
}

} // verus!
