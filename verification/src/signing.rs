//! Ed25519 signatures as 64 plain bytes.

use vstd::prelude::*;

verus! {

/// An Ed25519 signature.
#[derive(Clone, Copy, Debug, PartialEq, Eq)]
pub struct Signature {
    inner: [u8; 64],
}

impl View for Signature {
    type V = Seq<u8>;

    closed spec fn view(&self) -> Seq<u8> {
        self.inner@
    }
}

impl Signature {
    /// A placeholder signature of 64 zero bytes, which signs nothing.
    pub fn invalid() -> (sig: Signature)
        ensures
            sig@ == Seq::new(64, |i: int| 0u8),
    {
        let sig = Signature { inner: [0u8; 64] };
        assert(sig@ =~= Seq::new(64, |i: int| 0u8));
        sig
    }

    /// The signature with the given bytes.
    pub fn from_bytes(bytes: [u8; 64]) -> (sig: Signature)
        ensures
            sig@ == bytes@,
    {
        Signature { inner: bytes }
    }

    /// The signature's bytes.
    pub fn to_bytes(&self) -> (bytes: [u8; 64])
        ensures
            bytes@ == self@,
    {
        self.inner
    }

    /// A signature always has 64 bytes.
    pub proof fn lemma_len(&self)
        ensures
            self@.len() == 64,
    {
    }
}

impl Signature {
    /// The signature with the given bytes, in specifications.
    pub closed spec fn spec_new(v: [u8; 64]) -> Signature {
        Signature { inner: v }
    }

    /// The signature made from some bytes has those bytes.
    pub proof fn lemma_spec_new(v: [u8; 64])
        ensures
            Signature::spec_new(v)@ == v@,
    {
    }
}

impl From<[u8; 64]> for Signature {
    fn from(bytes: [u8; 64]) -> (sig: Signature) {
        Signature { inner: bytes }
    }
}

impl vstd::std_specs::convert::FromSpecImpl<[u8; 64]> for Signature {
    open spec fn obeys_from_spec() -> bool {
        true
    }

    open spec fn from_spec(v: [u8; 64]) -> Signature {
        Signature::spec_new(v)
    }
}

/// Copy a 32-byte slice into an array.
pub fn array32(bytes: &[u8]) -> (out: [u8; 32])
    requires
        bytes@.len() == 32,
    ensures
        out@ == bytes@,
{
    let mut out = [0u8; 32];
    let mut i: usize = 0;
    while i < 32
        invariant
            i <= 32,
            bytes@.len() == 32,
            forall|j: int| 0 <= j < i ==> out@[j] == bytes@[j],
        decreases 32 - i,
    {
        out[i] = bytes[i];
        i = i + 1;
    }
    assert(out@ =~= bytes@);
    out
}

/// Copy a 64-byte slice into an array.
pub fn array64(bytes: &[u8]) -> (out: [u8; 64])
    requires
        bytes@.len() == 64,
    ensures
        out@ == bytes@,
{
    let mut out = [0u8; 64];
    let mut i: usize = 0;
    while i < 64
        invariant
            i <= 64,
            bytes@.len() == 64,
            forall|j: int| 0 <= j < i ==> out@[j] == bytes@[j],
        decreases 64 - i,
    {
        out[i] = bytes[i];
        i = i + 1;
    }
    assert(out@ =~= bytes@);
    out
}

} // verus!
