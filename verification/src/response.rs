//! Responses (comments and reactions) to a post. A responder signs a response and seals it to the
//! post's owner; the owner checks it, vouches for it with their own signature, and rebroadcasts it
//! to their friends, who check the owner's vouch.

use vstd::prelude::*;

use crate::envelope::LetterId;
use crate::identity::{sign_pub_of, signing_secret_of, Identity};
use crate::primitives::{
    ed25519_key_decodes, ed25519_key_valid, ed25519_sign, ed25519_signature, ed25519_verifies_strict,
    ed25519_verify, postcard_ids_tag_text,
};
use crate::signing::array64;
use crate::wire::{lemma_varint_prefix, lemma_wire_str_prefix, varint, wire_str};
use crate::Error;

verus! {

/// The identifier of a post that a response refers to.
#[derive(Clone, Copy, Debug, PartialEq, Eq)]
pub struct PostId(pub [u8; 16]);

impl PostId {
    /// The identifier by which a response names the post that the letter `id` carries: the first
    /// 16 bytes of the letter's identifier.
    pub fn of_letter(id: &LetterId) -> (p: PostId)
        ensures
            p.0@ == id@.take(16),
    {
        let bytes = id.as_bytes();
        let mut out = [0u8; 16];
        let mut i: usize = 0;
        while i < 16
            invariant
                i <= 16,
                bytes@ == id@,
                bytes@.len() == 64,
                forall|j: int| 0 <= j < i ==> out@[j] == bytes@[j],
            decreases 16 - i,
        {
            out[i] = bytes[i];
            i = i + 1;
        }
        assert(out@ =~= id@.take(16));
        PostId(out)
    }
}

/// What a response says.
#[derive(Clone, Debug)]
pub enum ResponseBody {
    Comment { text: String },
    Reaction { emoji: String },
}

/// The wire tag of a response body: 0 for a comment, 1 for a reaction.
pub open spec fn body_tag(b: ResponseBody) -> nat {
    match b {
        ResponseBody::Comment { .. } => 0,
        ResponseBody::Reaction { .. } => 1,
    }
}

/// The text of a response body (the comment, or the emoji).
pub open spec fn body_text(b: ResponseBody) -> Seq<char> {
    match b {
        ResponseBody::Comment { text } => text@,
        ResponseBody::Reaction { emoji } => emoji@,
    }
}

/// A response to a post, signed by its author.
#[derive(Clone, Debug)]
pub struct Response {
    pub post_id: PostId,
    pub author: [u8; 32],
    pub body: ResponseBody,
    pub sig: Vec<u8>,
}

/// A response together with the post owner's signature over it.
#[derive(Clone, Debug)]
pub struct ResponseRebroadcast {
    pub inner: Response,
    pub vouch_sig: Vec<u8>,
}

/// The bytes a response's signatures cover: post id, author, then the body's tag and text.
pub open spec fn response_signing_bytes(r: Response) -> Seq<u8> {
    r.post_id.0@ + r.author@ + varint(body_tag(r.body)) + wire_str(body_text(r.body))
}

/// Two responses have the same signing bytes exactly when they answer the same post, have the
/// same author, and say the same thing (same kind, same text); the signature field plays no
/// part, so a signature covers every other field of its response.
pub proof fn lemma_response_signing_bytes_injective(r1: Response, r2: Response)
    ensures
        response_signing_bytes(r1) == response_signing_bytes(r2) <==> (r1.post_id == r2.post_id
            && r1.author == r2.author && body_tag(r1.body) == body_tag(r2.body) && body_text(r1.body)
            == body_text(r2.body)),
{
    let b1 = response_signing_bytes(r1);
    let b2 = response_signing_bytes(r2);
    if b1 == b2 {
        let rest1 = varint(body_tag(r1.body)) + wire_str(body_text(r1.body));
        let rest2 = varint(body_tag(r2.body)) + wire_str(body_text(r2.body));
        assert(b1 =~= r1.post_id.0@ + r1.author@ + rest1);
        assert(b2 =~= r2.post_id.0@ + r2.author@ + rest2);
        assert(r1.post_id.0@ =~= b1.take(16));
        assert(r2.post_id.0@ =~= b2.take(16));
        assert(r1.author@ =~= b1.subrange(16, 48));
        assert(r2.author@ =~= b2.subrange(16, 48));
        assert(rest1 =~= b1.skip(48));
        assert(rest2 =~= b2.skip(48));
        assert(r1.post_id.0 =~= r2.post_id.0);
        assert(r1.author =~= r2.author);
        lemma_varint_prefix(body_tag(r1.body), body_tag(r2.body), wire_str(body_text(r1.body)), wire_str(body_text(r2.body)));
        assert(wire_str(body_text(r1.body)) + Seq::<u8>::empty() =~= wire_str(body_text(r1.body)));
        assert(wire_str(body_text(r2.body)) + Seq::<u8>::empty() =~= wire_str(body_text(r2.body)));
        lemma_wire_str_prefix(body_text(r1.body), body_text(r2.body), Seq::<u8>::empty(), Seq::<u8>::empty());
    }
}

/// Whether Ed25519 strict verification accepts `sig` (which must have 64 bytes) by `public` over `msg`.
pub open spec fn signed_by(public: Seq<u8>, msg: Seq<u8>, sig: Seq<u8>) -> bool {
    sig.len() == 64 && ed25519_verifies_strict(public, msg, sig)
}

/// What vouching for `response` as the identity with seed `owner_seed` gives: [`Error::BadKey`]
/// when the author's key does not decode, [`Error::Signature`] when the author's signature is not
/// 64 bytes or does not verify, else the response with the owner's signature over it.
pub open spec fn vouch_spec(owner_seed: Seq<u8>, response: Response) -> Result<Seq<u8>, Error> {
    if !ed25519_key_decodes(response.author@) {
        Err(Error::BadKey)
    } else if !signed_by(response.author@, response_signing_bytes(response), response.sig@) {
        Err(Error::Signature)
    } else {
        Ok(ed25519_signature(signing_secret_of(owner_seed), response_signing_bytes(response))@)
    }
}

/// What checking a rebroadcast against the owner key `owner_sign_pub` gives: [`Error::BadKey`]
/// when that key does not decode, [`Error::Signature`] when the vouch is not 64 bytes or does not
/// verify over the inner response, else success.
pub open spec fn rebroadcast_check_spec(owner_sign_pub: Seq<u8>, rb: ResponseRebroadcast) -> Result<(), Error> {
    if !ed25519_key_decodes(owner_sign_pub) {
        Err(Error::BadKey)
    } else if !signed_by(owner_sign_pub, response_signing_bytes(rb.inner), rb.vouch_sig@) {
        Err(Error::Signature)
    } else {
        Ok(())
    }
}

impl ResponseBody {
    /// A copy of the body.
    pub fn duplicate(&self) -> (copy: ResponseBody)
        ensures
            body_tag(copy) == body_tag(*self),
            body_text(copy) == body_text(*self),
    {
        match self {
            ResponseBody::Comment { text } => ResponseBody::Comment { text: text.clone() },
            ResponseBody::Reaction { emoji } => ResponseBody::Reaction { emoji: emoji.clone() },
        }
    }
}

impl Response {
    /// The bytes the response's signatures cover.
    pub fn signing_bytes(&self) -> (bytes: Vec<u8>)
        ensures
            bytes@ == response_signing_bytes(*self),
    {
        match &self.body {
            ResponseBody::Comment { text } => postcard_ids_tag_text(&self.post_id.0, &self.author, 0, text.as_str()),
            ResponseBody::Reaction { emoji } => postcard_ids_tag_text(&self.post_id.0, &self.author, 1, emoji.as_str()),
        }
    }

    /// A copy of the response.
    pub fn duplicate(&self) -> (copy: Response)
        ensures
            copy.post_id == self.post_id,
            copy.author == self.author,
            body_tag(copy.body) == body_tag(self.body),
            body_text(copy.body) == body_text(self.body),
            copy.sig@ == self.sig@,
    {
        let sig = self.sig.clone();
        assert(sig@ =~= self.sig@);
        Response { post_id: self.post_id, author: self.author, body: self.body.duplicate(), sig }
    }
}

/// A response by `responder` to the post `post_id`, signed by the responder.
pub fn create_response(responder: &Identity, post_id: PostId, body: ResponseBody) -> (r: Response)
    ensures
        r.post_id == post_id,
        r.author@ == sign_pub_of(responder.master_seed@),
        r.body == body,
        r.sig@ == ed25519_signature(signing_secret_of(responder.master_seed@), response_signing_bytes(r))@,
        r.sig@.len() == 64,
{
    let mut response = Response {
        post_id,
        author: responder.public().sign_pub.to_bytes(),
        body,
        sig: Vec::new(),
    };
    let bytes = response.signing_bytes();
    let sig = ed25519_sign(&responder.signing_key(), bytes.as_slice());
    let mut sig_vec: Vec<u8> = Vec::new();
    crate::bytes::extend(&mut sig_vec, sig.as_slice());
    response.sig = sig_vec;
    response
}

/// Check the author's signature on a response received by the post's owner, and vouch for it with
/// the owner's signature; the response is kept as it is.
pub fn vouch_for(owner: &Identity, response: Response) -> (r: Result<ResponseRebroadcast, Error>)
    ensures
        match vouch_spec(owner.master_seed@, response) {
            Ok(v) => r matches Ok(rb) && rb.inner == response && rb.vouch_sig@ == v,
            Err(e) => r matches Err(e2) && e2 == e,
        },
{
    if !ed25519_key_valid(&response.author) {
        return Err(Error::BadKey);
    }
    if response.sig.len() != 64 {
        return Err(Error::Signature);
    }
    let sig = array64(response.sig.as_slice());
    let bytes = response.signing_bytes();
    if !ed25519_verify(&response.author, bytes.as_slice(), &sig) {
        return Err(Error::Signature);
    }
    let vouch = ed25519_sign(&owner.signing_key(), bytes.as_slice());
    let mut vouch_sig: Vec<u8> = Vec::new();
    crate::bytes::extend(&mut vouch_sig, vouch.as_slice());
    Ok(ResponseRebroadcast { inner: response, vouch_sig })
}

/// Check that a rebroadcast was vouched for by the owner whose verifying key is `owner_sign_pub`.
pub fn verify_rebroadcast(owner_sign_pub: &[u8; 32], rb: &ResponseRebroadcast) -> (r: Result<(), Error>)
    ensures
        r == rebroadcast_check_spec(owner_sign_pub@, *rb),
{
    if !ed25519_key_valid(owner_sign_pub) {
        return Err(Error::BadKey);
    }
    if rb.vouch_sig.len() != 64 {
        return Err(Error::Signature);
    }
    let sig = array64(rb.vouch_sig.as_slice());
    let bytes = rb.inner.signing_bytes();
    if !ed25519_verify(owner_sign_pub, bytes.as_slice(), &sig) {
        return Err(Error::Signature);
    }
    Ok(())
}

/// Ed25519 accepts the signature of the identity with seed `seed` over `msg`, and its verifying
/// key decodes.
pub open spec fn signature_checks(seed: Seq<u8>, msg: Seq<u8>) -> bool {
    &&& ed25519_key_decodes(sign_pub_of(seed))
    &&& ed25519_verifies_strict(sign_pub_of(seed), msg, ed25519_signature(signing_secret_of(seed), msg)@)
}

/// The trust path of a response: a response that its responder signed is vouched for by the post's
/// owner, and the owner's vouch then checks out against the owner's verifying key (as long as
/// Ed25519 accepts both signatures).
pub proof fn lemma_vouched_response_checks(responder_seed: Seq<u8>, owner_seed: Seq<u8>, response: Response, rb: ResponseRebroadcast)
    requires
        response.author@ == sign_pub_of(responder_seed),
        response.sig@ == ed25519_signature(signing_secret_of(responder_seed), response_signing_bytes(response))@,
        signature_checks(responder_seed, response_signing_bytes(response)),
        signature_checks(owner_seed, response_signing_bytes(response)),
        rb.inner == response,
        rb.vouch_sig@ == ed25519_signature(signing_secret_of(owner_seed), response_signing_bytes(response))@,
    ensures
        vouch_spec(owner_seed, response) == Ok::<Seq<u8>, Error>(rb.vouch_sig@),
        rebroadcast_check_spec(sign_pub_of(owner_seed), rb) == Ok::<(), Error>(()),
{
}

} // verus!
