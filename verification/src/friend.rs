//! Befriending: two identities agree on a pairwise root from which their mailboxes are derived.

use vstd::prelude::*;

use crate::bytes::concat3;
use crate::identity::{dh_pub_of, dh_secret_of, lemma_lex_total, lex_le, Identity, PublicIdentity};
use crate::labels::{pairwise_label, PAIRWISE};
use crate::primitives::{derive32, hkdf_sha256_32, x25519_dh, x25519_public, x25519_shared};

verus! {

/// A friend: their public identity, the nickname given to them, and the root shared with them.
#[derive(Clone, PartialEq)]
pub struct Friend {
    pub public: PublicIdentity,
    pub nickname: String,
    pub pairwise_root: [u8; 32],
}

/// The two public keys in lexicographic order, the smaller first.
pub open spec fn ordered_pair(a: Seq<u8>, b: Seq<u8>) -> (Seq<u8>, Seq<u8>) {
    if lex_le(a, b) {
        (a, b)
    } else {
        (b, a)
    }
}

/// The derivation label of a pairwise root: the pairwise label, then both X25519 public keys
/// with the lexicographically smaller one first.
pub open spec fn pairwise_info(a: Seq<u8>, b: Seq<u8>) -> Seq<u8> {
    pairwise_label() + ordered_pair(a, b).0 + ordered_pair(a, b).1
}

/// The pairwise root that the holder of X25519 secret `my_secret` derives with the holder of the
/// public key `their_pub`.
pub open spec fn pairwise_root_spec(my_secret: Seq<u8>, their_pub: Seq<u8>) -> Seq<u8> {
    hkdf_sha256_32(x25519_shared(my_secret, their_pub), pairwise_info(x25519_public(my_secret), their_pub))@
}

/// The pairwise label of two keys does not depend on which side computes it.
pub proof fn lemma_pairwise_info_symmetric(a: Seq<u8>, b: Seq<u8>)
    requires
        a.len() == b.len(),
    ensures
        pairwise_info(a, b) == pairwise_info(b, a),
{
    lemma_lex_total(a, b);
}

/// Befriend `their` under `nickname`: agree an X25519 secret with them and derive the pairwise
/// root from it, bound to both public keys in a fixed order. Both sides derive the same root:
/// when `their` is the public identity of the seed `b`, the root is the one that `b` derives
/// with `me`'s public key.
pub fn add_friend(me: &Identity, their: &PublicIdentity, nickname: &str) -> (f: Friend)
    ensures
        f.public == *their,
        f.nickname@ == nickname@,
        f.pairwise_root@ == pairwise_root_spec(dh_secret_of(me.master_seed@), their.dh_pub@),
        forall|b: Seq<u8>|
            their.dh_pub@ == #[trigger] dh_pub_of(b) ==> f.pairwise_root@ == pairwise_root_spec(
                dh_secret_of(b),
                dh_pub_of(me.master_seed@),
            ),
{
    let their_pub = their.dh_pub.to_bytes();
    let shared = x25519_dh(&me.dh_secret(), &their_pub);
    let me_pub = me.public();
    let (lo, hi) = if me_pub.dh_pub.le(&their.dh_pub) {
        (me_pub.dh_pub, their.dh_pub)
    } else {
        (their.dh_pub, me_pub.dh_pub)
    };
    let info = concat3(PAIRWISE.as_bytes(), lo.to_bytes().as_slice(), hi.to_bytes().as_slice());
    let pairwise_root = derive32(shared.as_slice(), info.as_slice());
    proof {
        let mine = dh_pub_of(me.master_seed@);
        me_pub.dh_pub.lemma_len();
        their.dh_pub.lemma_len();
        assert forall|b: Seq<u8>|
            their.dh_pub@ == #[trigger] dh_pub_of(b) implies pairwise_root@ == pairwise_root_spec(
                dh_secret_of(b),
                mine,
            ) by {
            assert(dh_secret_of(b).len() == 32);
            assert(shared@ == x25519_shared(dh_secret_of(b), mine));
            lemma_pairwise_info_symmetric(mine, their.dh_pub@);
        }
    }
    Friend { public: *their, nickname: nickname.to_string(), pairwise_root }
}

} // verus!
