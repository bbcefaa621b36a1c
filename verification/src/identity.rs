//! Identities: a master seed, the two key pairs derived from it, and the public half that
//! friends exchange (e.g. through a QR code).

use vstd::prelude::*;

use crate::bytes::bytes_eq;
use crate::labels::{identity_ed25519_label, identity_x25519_label, IDENTITY_ED25519, IDENTITY_X25519};
use crate::primitives::{
    derive32, ed25519_public, ed25519_verifying_key, hkdf_sha256_32, postcard_key_pair,
    postcard_parse_key_pair, random_bytes, string_push, x25519_base, x25519_public,
};
use crate::wire::{hex_digit, hex_lower, lemma_hex_lower_prefix, lemma_hex_lower_len};
use crate::Error;

verus! {

/// The 32 secret bytes from which an identity's keys are derived.
#[derive(Debug, Clone, Copy, PartialEq, Eq)]
pub struct MasterSeed([u8; 32]);

impl View for MasterSeed {
    type V = Seq<u8>;

    closed spec fn view(&self) -> Seq<u8> {
        self.0@
    }
}

impl MasterSeed {
    /// A fresh seed from the operating system's random generator.
    pub fn random() -> (seed: MasterSeed)
        ensures
            seed@.len() == 32,
    {
        MasterSeed(random_bytes::<32>())
    }

    /// The seed's bytes.
    pub fn to_bytes(&self) -> (bytes: [u8; 32])
        ensures
            bytes@ == self@,
    {
        self.0
    }

    /// The seed with the given bytes.
    pub fn from_bytes(bytes: [u8; 32]) -> (seed: MasterSeed)
        ensures
            seed@ == bytes@,
    {
        MasterSeed(bytes)
    }

    /// A seed always has 32 bytes.
    pub proof fn lemma_len(&self)
        ensures
            self@.len() == 32,
    {
    }
}

/// An Ed25519 verifying key.
#[derive(Debug, Clone, Copy, PartialEq, Eq)]
pub struct SigningPublicKey([u8; 32]);

impl View for SigningPublicKey {
    type V = Seq<u8>;

    closed spec fn view(&self) -> Seq<u8> {
        self.0@
    }
}

/// The hex digit of a value below 16.
fn hex_char(d: u8) -> (c: char)
    requires
        d < 16,
    ensures
        c == hex_digit(d as int),
{
    if d < 10 {
        (48u8 + d) as char
    } else {
        (87u8 + d) as char
    }
}

/// The lower-case hex text of the first `n` bytes of `bytes`.
fn hex_prefix(bytes: &[u8; 32], n: usize) -> (s: String)
    requires
        n <= 32,
    ensures
        s@ == hex_lower(bytes@.take(n as int)),
{
    let mut s = String::new();
    let mut i: usize = 0;
    while i < n
        invariant
            i <= n <= 32,
            bytes@.len() == 32,
            s@ == hex_lower(bytes@.take(i as int)),
        decreases n - i,
    {
        let b = bytes[i];
        string_push(&mut s, hex_char(b / 16));
        string_push(&mut s, hex_char(b % 16));
        assert(bytes@.take(i + 1).drop_last() == bytes@.take(i as int));
        i = i + 1;
    }
    s
}

impl SigningPublicKey {
    /// The key with the given bytes.
    pub fn from_bytes(bytes: [u8; 32]) -> (key: SigningPublicKey)
        ensures
            key@ == bytes@,
    {
        SigningPublicKey(bytes)
    }

    /// The key's bytes, borrowed.
    pub fn to_byte_slice(&self) -> (bytes: &[u8])
        ensures
            bytes@ == self@,
    {
        self.0.as_slice()
    }

    /// The key as 64 lower-case hex digits.
    pub fn to_hex(&self) -> (s: String)
        ensures
            s@ == hex_lower(self@),
            s@.len() == 64,
    {
        assert(self.0@.take(32) == self.0@);
        proof {
            lemma_hex_lower_len(self.0@);
        }
        hex_prefix(&self.0, 32)
    }

    /// The first eight bytes of the key as 16 lower-case hex digits: the first 16 digits of
    /// [`SigningPublicKey::to_hex`].
    pub fn to_short_hex(&self) -> (s: String)
        ensures
            s@ == hex_lower(self@.take(8)),
            s@ == hex_lower(self@).take(16),
    {
        proof {
            lemma_hex_lower_prefix(self.0@, 8);
        }
        hex_prefix(&self.0, 8)
    }

    /// The key's bytes.
    pub fn to_bytes(&self) -> (bytes: [u8; 32])
        ensures
            bytes@ == self@,
    {
        self.0
    }

    /// A key always has 32 bytes.
    pub proof fn lemma_len(&self)
        ensures
            self@.len() == 32,
    {
    }
}

/// Whether `a` comes strictly before `b` in lexicographic byte order: at the first position where
/// they differ, `a` has the smaller byte.
pub open spec fn lex_lt(a: Seq<u8>, b: Seq<u8>) -> bool {
    exists|i: int|
        0 <= i < a.len() && i < b.len() && #[trigger] a.take(i) == b.take(i) && a[i] < b[i]
}

/// Lexicographic order on byte strings (the order that `derive(PartialOrd)` gives an array).
pub open spec fn lex_le(a: Seq<u8>, b: Seq<u8>) -> bool {
    a == b || lex_lt(a, b)
}

/// On byte strings of one length, lexicographic order is total and antisymmetric.
pub proof fn lemma_lex_total(a: Seq<u8>, b: Seq<u8>)
    requires
        a.len() == b.len(),
    ensures
        lex_le(a, b) || lex_le(b, a),
        lex_le(a, b) && lex_le(b, a) ==> a == b,
        !(lex_lt(a, b) && lex_lt(b, a)),
        lex_lt(a, b) ==> a != b,
{
    if a != b {
        // the first position where they differ decides
        let d = choose|i: int| 0 <= i < a.len() && a[i] != b[i];
        assert(exists|i: int| 0 <= i < a.len() && a[i] != b[i]) by {
            if forall|i: int| 0 <= i < a.len() ==> a[i] == b[i] {
                assert(a =~= b);
            }
        }
        let first = first_difference(a, b, d);
        assert(a.take(first) == b.take(first));
        if a[first] < b[first] {
            assert(lex_lt(a, b));
        } else {
            assert(b.take(first) == a.take(first));
            assert(lex_lt(b, a));
        }
    }
    if lex_lt(a, b) && lex_lt(b, a) {
        let i = choose|i: int|
            0 <= i < a.len() && i < b.len() && #[trigger] a.take(i) == b.take(i) && a[i] < b[i];
        let j = choose|j: int|
            0 <= j < b.len() && j < a.len() && #[trigger] b.take(j) == a.take(j) && b[j] < a[j];
        if i < j {
            assert(b.take(j)[i] == a.take(j)[i]);
        } else if j < i {
            assert(a.take(i)[j] == b.take(i)[j]);
        }
    }
    if lex_lt(a, b) {
        let i = choose|i: int|
            0 <= i < a.len() && i < b.len() && #[trigger] a.take(i) == b.take(i) && a[i] < b[i];
        assert(a[i] != b[i]);
    }
}

/// The first position at or before `d` where two equal-length byte strings differ.
proof fn first_difference(a: Seq<u8>, b: Seq<u8>, d: int) -> (first: int)
    requires
        a.len() == b.len(),
        0 <= d < a.len(),
        a[d] != b[d],
    ensures
        0 <= first <= d,
        a[first] != b[first],
        a.take(first) == b.take(first),
    decreases d,
{
    if a.take(d) == b.take(d) {
        d
    } else {
        let e = choose|i: int| 0 <= i < d && a[i] != b[i];
        assert(exists|i: int| 0 <= i < d && a[i] != b[i]) by {
            if forall|i: int| 0 <= i < d ==> a[i] == b[i] {
                assert(a.take(d) =~= b.take(d));
            }
        }
        first_difference(a, b, e)
    }
}

/// An X25519 public key.
#[derive(Debug, Clone, Copy, PartialEq, Eq, PartialOrd)]
pub struct DhPublicKey([u8; 32]);

impl View for DhPublicKey {
    type V = Seq<u8>;

    closed spec fn view(&self) -> Seq<u8> {
        self.0@
    }
}

impl DhPublicKey {
    /// The key with the given bytes.
    pub fn from_bytes(bytes: [u8; 32]) -> (key: DhPublicKey)
        ensures
            key@ == bytes@,
    {
        DhPublicKey(bytes)
    }

    /// The key's bytes.
    pub fn to_bytes(&self) -> (bytes: [u8; 32])
        ensures
            bytes@ == self@,
    {
        self.0
    }

    /// A key always has 32 bytes.
    pub proof fn lemma_len(&self)
        ensures
            self@.len() == 32,
    {
    }

    /// Whether `self` comes no later than `other` in lexicographic byte order (`self <= other`).
    pub fn le(&self, other: &DhPublicKey) -> (r: bool)
        ensures
            r == lex_le(self@, other@),
    {
        let mut i: usize = 0;
        while i < 32
            invariant
                i <= 32,
                self.0@.len() == 32,
                other.0@.len() == 32,
                self.0@.take(i as int) == other.0@.take(i as int),
            decreases 32 - i,
        {
            if self.0[i] != other.0[i] {
                if self.0[i] < other.0[i] {
                    assert(lex_lt(self@, other@));
                    return true;
                } else {
                    proof {
                        lemma_lex_total(self@, other@);
                        assert(other.0@.take(i as int) == self.0@.take(i as int));
                        assert(lex_lt(other@, self@));
                    }
                    return false;
                }
            }
            assert(self.0@.take(i + 1) == self.0@.take(i as int).push(self.0@[i as int]));
            assert(other.0@.take(i + 1) == other.0@.take(i as int).push(other.0@[i as int]));
            i = i + 1;
        }
        assert(self.0@ == self.0@.take(32));
        assert(other.0@ == other.0@.take(32));
        true
    }
}

/// The label bytes of the Ed25519 key derivation, as a vector.
fn identity_ed25519_info() -> (info: &'static [u8])
    ensures
        info@ == identity_ed25519_label(),
{
    IDENTITY_ED25519.as_bytes()
}

/// The label bytes of the X25519 key derivation.
fn identity_x25519_info() -> (info: &'static [u8])
    ensures
        info@ == identity_x25519_label(),
{
    IDENTITY_X25519.as_bytes()
}

/// The Ed25519 signing key derived from a seed.
pub open spec fn signing_secret_of(seed: Seq<u8>) -> Seq<u8> {
    hkdf_sha256_32(seed, identity_ed25519_label())@
}

/// The X25519 secret derived from a seed.
pub open spec fn dh_secret_of(seed: Seq<u8>) -> Seq<u8> {
    hkdf_sha256_32(seed, identity_x25519_label())@
}

/// The Ed25519 verifying key of a seed's identity.
pub open spec fn sign_pub_of(seed: Seq<u8>) -> Seq<u8> {
    ed25519_public(signing_secret_of(seed))
}

/// The X25519 public key of a seed's identity.
pub open spec fn dh_pub_of(seed: Seq<u8>) -> Seq<u8> {
    x25519_public(dh_secret_of(seed))
}

/// A full identity; everything else is derived from the master seed.
#[derive(Clone, Copy)]
pub struct Identity {
    pub master_seed: MasterSeed,
}

/// The public half of an identity.
#[derive(Clone, Copy, Debug, PartialEq, Eq)]
pub struct PublicIdentity {
    pub sign_pub: SigningPublicKey,
    pub dh_pub: DhPublicKey,
}

/// Whether `p` is the public half of the identity with master seed `seed`.
pub open spec fn is_public_of(p: PublicIdentity, seed: Seq<u8>) -> bool {
    p.sign_pub@ == sign_pub_of(seed) && p.dh_pub@ == dh_pub_of(seed)
}

impl Identity {
    /// A new identity with a fresh random seed.
    pub fn generate() -> (id: Identity)
        ensures
            id.master_seed@.len() == 32,
    {
        Identity { master_seed: MasterSeed::random() }
    }

    /// The identity with the given seed.
    pub fn from_seed(master_seed: MasterSeed) -> (id: Identity)
        ensures
            id.master_seed == master_seed,
    {
        Identity { master_seed }
    }

    /// The public half: the Ed25519 verifying key and X25519 public key derived from the seed.
    /// It depends on the seed alone.
    pub fn public(&self) -> (p: PublicIdentity)
        ensures
            is_public_of(p, self.master_seed@),
    {
        let sign_pub = SigningPublicKey(ed25519_verifying_key(&self.signing_key()));
        let dh_pub = DhPublicKey(x25519_base(&self.dh_secret()));
        PublicIdentity { sign_pub, dh_pub }
    }

    /// The Ed25519 signing key bytes derived from the seed.
    pub fn signing_key(&self) -> (key: [u8; 32])
        ensures
            key@ == signing_secret_of(self.master_seed@),
    {
        derive32(self.master_seed.0.as_slice(), identity_ed25519_info())
    }

    /// The X25519 secret bytes derived from the seed.
    pub fn dh_secret(&self) -> (key: [u8; 32])
        ensures
            key@ == dh_secret_of(self.master_seed@),
    {
        derive32(self.master_seed.0.as_slice(), identity_x25519_info())
    }
}

/// The wire bytes of a public identity: the two keys, raw.
pub open spec fn public_identity_bytes(p: PublicIdentity) -> Seq<u8> {
    p.sign_pub@ + p.dh_pub@
}

/// What decoding `bytes` as a public identity gives: the two keys from the first 64 bytes
/// (anything after them is ignored), or a serialization error when there are fewer.
pub open spec fn parse_public_identity(bytes: Seq<u8>) -> Option<(Seq<u8>, Seq<u8>)> {
    if bytes.len() >= 64 {
        Some((bytes.subrange(0, 32), bytes.subrange(32, 64)))
    } else {
        None
    }
}

impl PublicIdentity {
    /// The identity's wire bytes (what goes into a QR code).
    pub fn to_bytes(&self) -> (bytes: Vec<u8>)
        ensures
            bytes@ == public_identity_bytes(*self),
    {
        postcard_key_pair(&self.sign_pub.0, &self.dh_pub.0)
    }

    /// Decode a public identity from its wire bytes.
    pub fn from_wire(bytes: &[u8]) -> (r: Result<PublicIdentity, Error>)
        ensures
            match parse_public_identity(bytes@) {
                Some((s, d)) => r matches Ok(p) && p.sign_pub@ == s && p.dh_pub@ == d,
                None => r == Err::<PublicIdentity, Error>(Error::Serialize),
            },
    {
        match postcard_parse_key_pair(bytes) {
            Some((s, d)) => Ok(PublicIdentity { sign_pub: SigningPublicKey(s), dh_pub: DhPublicKey(d) }),
            None => Err(Error::Serialize),
        }
    }

    /// Whether two public identities are the same.
    pub fn same_as(&self, other: &PublicIdentity) -> (eq: bool)
        ensures
            eq == (self.sign_pub@ == other.sign_pub@ && self.dh_pub@ == other.dh_pub@),
    {
        bytes_eq(self.sign_pub.0.as_slice(), other.sign_pub.0.as_slice())
            && bytes_eq(self.dh_pub.0.as_slice(), other.dh_pub.0.as_slice())
    }
}

/// A public identity survives the trip through its wire bytes (e.g. through a QR code).
pub proof fn lemma_public_identity_round_trip(p: PublicIdentity)
    ensures
        parse_public_identity(public_identity_bytes(p)) == Some((p.sign_pub@, p.dh_pub@)),
{
    p.sign_pub.lemma_len();
    p.dh_pub.lemma_len();
    let b = public_identity_bytes(p);
    assert(b.subrange(0, 32) =~= p.sign_pub@);
    assert(b.subrange(32, 64) =~= p.dh_pub@);
}


impl From<[u8; 32]> for MasterSeed {
    fn from(bytes: [u8; 32]) -> (seed: MasterSeed) {
        MasterSeed(bytes)
    }
}

impl vstd::std_specs::convert::FromSpecImpl<[u8; 32]> for MasterSeed {
    open spec fn obeys_from_spec() -> bool {
        true
    }

    open spec fn from_spec(v: [u8; 32]) -> MasterSeed {
        MasterSeed::spec_new(v)
    }
}

impl From<[u8; 32]> for SigningPublicKey {
    fn from(bytes: [u8; 32]) -> (key: SigningPublicKey) {
        SigningPublicKey(bytes)
    }
}

impl vstd::std_specs::convert::FromSpecImpl<[u8; 32]> for SigningPublicKey {
    open spec fn obeys_from_spec() -> bool {
        true
    }

    open spec fn from_spec(v: [u8; 32]) -> SigningPublicKey {
        SigningPublicKey::spec_new(v)
    }
}

impl From<[u8; 32]> for DhPublicKey {
    fn from(bytes: [u8; 32]) -> (key: DhPublicKey) {
        DhPublicKey(bytes)
    }
}

impl vstd::std_specs::convert::FromSpecImpl<[u8; 32]> for DhPublicKey {
    open spec fn obeys_from_spec() -> bool {
        true
    }

    open spec fn from_spec(v: [u8; 32]) -> DhPublicKey {
        DhPublicKey::spec_new(v)
    }
}

impl MasterSeed {
    /// The seed with the given bytes, in specifications.
    pub closed spec fn spec_new(v: [u8; 32]) -> MasterSeed {
        MasterSeed(v)
    }

    /// The seed made from some bytes has those bytes.
    pub proof fn lemma_spec_new(v: [u8; 32])
        ensures
            MasterSeed::spec_new(v)@ == v@,
    {
    }
}

impl SigningPublicKey {
    /// The key with the given bytes, in specifications.
    pub closed spec fn spec_new(v: [u8; 32]) -> SigningPublicKey {
        SigningPublicKey(v)
    }

    /// The key made from some bytes has those bytes.
    pub proof fn lemma_spec_new(v: [u8; 32])
        ensures
            SigningPublicKey::spec_new(v)@ == v@,
    {
    }
}

impl DhPublicKey {
    /// The key with the given bytes, in specifications.
    pub closed spec fn spec_new(v: [u8; 32]) -> DhPublicKey {
        DhPublicKey(v)
    }

    /// The key made from some bytes has those bytes.
    pub proof fn lemma_spec_new(v: [u8; 32])
        ensures
            DhPublicKey::spec_new(v)@ == v@,
    {
    }
}

/// The public identity whose keys have the given bytes.
pub open spec fn public_identity_with(s: Seq<u8>, d: Seq<u8>) -> PublicIdentity {
    choose|p: PublicIdentity| p.sign_pub@ == s && p.dh_pub@ == d
}

/// Two public identities with the same key bytes are the same.
pub proof fn lemma_public_identity_ext(p: PublicIdentity, q: PublicIdentity)
    requires
        p.sign_pub@ == q.sign_pub@,
        p.dh_pub@ == q.dh_pub@,
    ensures
        p == q,
{
    assert(p.sign_pub.0 =~= q.sign_pub.0);
    assert(p.dh_pub.0 =~= q.dh_pub.0);
}

/// A seed determines its public identity: identities restored from the same seed have the same
/// public half.
pub proof fn lemma_seed_determines_public(p: PublicIdentity, q: PublicIdentity, seed: Seq<u8>)
    requires
        is_public_of(p, seed),
        is_public_of(q, seed),
    ensures
        p == q,
{
    lemma_public_identity_ext(p, q);
}

impl<'a> TryFrom<&'a [u8]> for PublicIdentity {
    type Error = Error;

    fn try_from(value: &'a [u8]) -> (r: Result<PublicIdentity, Error>) {
        let r = PublicIdentity::from_wire(value);
        proof {
            if let Ok(p) = r {
                let q = public_identity_with(value@.subrange(0, 32), value@.subrange(32, 64));
                lemma_public_identity_ext(p, q);
            }
        }
        r
    }
}

impl<'a> vstd::std_specs::convert::TryFromSpecImpl<&'a [u8]> for PublicIdentity {
    open spec fn obeys_try_from_spec() -> bool {
        true
    }

    open spec fn try_from_spec(v: &'a [u8]) -> Result<PublicIdentity, Error> {
        if v@.len() >= 64 {
            Ok(public_identity_with(v@.subrange(0, 32), v@.subrange(32, 64)))
        } else {
            Err(Error::Serialize)
        }
    }
}
} // verus!
