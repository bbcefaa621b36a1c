//! What the client keeps in storage: the stored forms of posts, responses and relay settings,
//! and the table rows of the browser store.

use vstd::prelude::*;

use crate::envelope::{letter_signing_bytes, Letter, LetterId};
use crate::friend::Friend;
use crate::identity::{DhPublicKey, Identity, MasterSeed, PublicIdentity, SigningPublicKey};
use crate::message::{Media, MessageMeta, PostContent};
use crate::primitives::sha512_digest;
use crate::profile::Profile;
use crate::response::{body_tag, body_text, Response, ResponseBody};
use crate::signing::Signature;

verus! {

/// Errors of a storage back end.
#[derive(Debug, Clone, PartialEq, Eq)]
pub enum StorageError {
    /// A query failed; the text describes why.
    QueryError(String),
    /// A stored response kind was neither 0 (reaction) nor 1 (comment).
    InvalidResponseKind(u8),
}

/// The kind of a stored response.
#[derive(Debug, Clone, Copy, PartialEq, Eq, Structural)]
pub enum ResponseKind {
    Reaction,
    Comment,
}

/// The stored number of a response kind: 0 for a reaction, 1 for a comment.
pub open spec fn kind_number(kind: ResponseKind) -> u8 {
    match kind {
        ResponseKind::Reaction => 0,
        ResponseKind::Comment => 1,
    }
}

/// What reading a stored number as a response kind gives.
pub open spec fn kind_from_number(v: u8) -> Result<ResponseKind, StorageError> {
    if v == 0 {
        Ok(ResponseKind::Reaction)
    } else if v == 1 {
        Ok(ResponseKind::Comment)
    } else {
        Err(StorageError::InvalidResponseKind(v))
    }
}

impl ResponseKind {
    /// The stored number of the kind.
    pub fn to_u8(&self) -> (v: u8)
        ensures
            v == kind_number(*self),
    {
        match self {
            ResponseKind::Reaction => 0,
            ResponseKind::Comment => 1,
        }
    }

    /// Read a stored number as a response kind; any number but 0 and 1 is an error.
    pub fn try_from_u8(v: u8) -> (r: Result<ResponseKind, StorageError>)
        ensures
            r == kind_from_number(v),
    {
        match v {
            0 => Ok(ResponseKind::Reaction),
            1 => Ok(ResponseKind::Comment),
            v => Err(StorageError::InvalidResponseKind(v)),
        }
    }
}

impl TryFrom<u8> for ResponseKind {
    type Error = StorageError;

    /// Read a stored number as a response kind; any number but 0 and 1 is an error.
    fn try_from(value: u8) -> (r: Result<ResponseKind, StorageError>) {
        ResponseKind::try_from_u8(value)
    }
}

impl vstd::std_specs::convert::TryFromSpecImpl<u8> for ResponseKind {
    open spec fn obeys_try_from_spec() -> bool {
        true
    }

    open spec fn try_from_spec(v: u8) -> Result<ResponseKind, StorageError> {
        kind_from_number(v)
    }
}

impl<'a> From<&'a ResponseKind> for u8 {
    /// The stored number of a response kind.
    fn from(kind: &'a ResponseKind) -> (v: u8) {
        kind.to_u8()
    }
}

impl<'a> vstd::std_specs::convert::FromSpecImpl<&'a ResponseKind> for u8 {
    open spec fn obeys_from_spec() -> bool {
        true
    }

    open spec fn from_spec(kind: &'a ResponseKind) -> u8 {
        kind_number(*kind)
    }
}

/// A response kind survives being stored as a number and read back, and every number that reads
/// back as a kind is that kind's number.
pub proof fn lemma_kind_round_trip(kind: ResponseKind, v: u8)
    ensures
        kind_from_number(kind_number(kind)) == Ok::<ResponseKind, StorageError>(kind),
        kind_from_number(v) matches Ok(k) ==> kind_number(k) == v,
{
}

/// A response as stored: its author, kind and text.
#[derive(Debug, Clone)]
pub struct StoredResponse {
    pub author: SigningPublicKey,
    pub kind: ResponseKind,
    pub content: String,
}

/// The stored kind of a response body.
pub open spec fn body_kind(b: ResponseBody) -> ResponseKind {
    if body_tag(b) == 0 {
        ResponseKind::Comment
    } else {
        ResponseKind::Reaction
    }
}

/// A response is stored under the kind of its body: a reaction as a reaction (number 0), a
/// comment as a comment (number 1), with its emoji or text as the stored content.
pub proof fn lemma_stored_kind_follows_body(b: ResponseBody)
    ensures
        (b is Reaction) <==> body_kind(b) == ResponseKind::Reaction,
        (b is Comment) <==> body_kind(b) == ResponseKind::Comment,
        b matches ResponseBody::Reaction { emoji } ==> kind_number(body_kind(b)) == 0 && body_text(b) == emoji@,
        b matches ResponseBody::Comment { text } ==> kind_number(body_kind(b)) == 1 && body_text(b) == text@,
{
}

impl StoredResponse {
    /// The stored form of a response: its author, its kind, and its comment text or emoji.
    pub fn from_response(value: Response) -> (s: StoredResponse)
        ensures
            s.author@ == value.author@,
            s.kind == body_kind(value.body),
            s.content@ == body_text(value.body),
            value.body is Reaction ==> s.kind == ResponseKind::Reaction,
            value.body is Comment ==> s.kind == ResponseKind::Comment,
    {
        let (kind, content) = match value.body {
            ResponseBody::Comment { text } => (ResponseKind::Comment, text),
            ResponseBody::Reaction { emoji } => (ResponseKind::Reaction, emoji),
        };
        StoredResponse { author: SigningPublicKey::from_bytes(value.author), kind, content }
    }
}

/// A post as stored: its letter's identifier, its author, and its decrypted content.
#[derive(Debug, Clone)]
pub struct StoredPost {
    pub id: LetterId,
    pub author: SigningPublicKey,
    pub body: String,
    pub created_at: u64,
    pub media: Vec<Media>,
}

/// The relay the client talks to.
#[derive(Debug, Clone, PartialEq)]
pub struct RelayConfig {
    pub url: String,
}

/// Path to the client's database file.
pub fn db_path() -> (p: String)
    ensures
        p@ == "./onlyfriends.db"@,
{
    String::from_str("./onlyfriends.db")
}

/// A mailbox cursor row of the browser store: how far the mailbox of one friend, direction and
/// epoch has been read.
#[derive(Debug, Clone)]
pub struct WebCursor {
    friend: SigningPublicKey,
    direction: u8,
    epoch: u64,
    pub last_index: usize,
}

impl WebCursor {
    /// A cursor row.
    pub fn new(friend: SigningPublicKey, direction: u8, epoch: u64, last_index: usize) -> (c: WebCursor)
        ensures
            c.row() == (friend@, direction, epoch, last_index),
    {
        WebCursor { friend, direction, epoch, last_index }
    }

    /// The row: its key (friend, direction and epoch) and the index read up to.
    pub closed spec fn row(&self) -> (Seq<u8>, u8, u64, usize) {
        (self.friend@, self.direction, self.epoch, self.last_index)
    }
}

/// A friend row of the browser store.
#[derive(Debug, Clone)]
pub struct WebFriend {
    pub sign_pub: SigningPublicKey,
    pub dh_pub: DhPublicKey,
    pub nickname: String,
    pub pairwise_root: [u8; 32],
}

impl WebFriend {
    /// The row of a friend.
    pub fn from_friend(friend: Friend) -> (w: WebFriend)
        ensures
            w.sign_pub == friend.public.sign_pub,
            w.dh_pub == friend.public.dh_pub,
            w.nickname == friend.nickname,
            w.pairwise_root == friend.pairwise_root,
    {
        WebFriend {
            sign_pub: friend.public.sign_pub,
            dh_pub: friend.public.dh_pub,
            nickname: friend.nickname,
            pairwise_root: friend.pairwise_root,
        }
    }

    /// The friend of a row.
    pub fn into_friend(self) -> (f: Friend)
        ensures
            f.public.sign_pub == self.sign_pub,
            f.public.dh_pub == self.dh_pub,
            f.nickname == self.nickname,
            f.pairwise_root == self.pairwise_root,
    {
        Friend {
            public: PublicIdentity { sign_pub: self.sign_pub, dh_pub: self.dh_pub },
            nickname: self.nickname,
            pairwise_root: self.pairwise_root,
        }
    }
}

/// The identity row of the browser store; there is only ever one, with key 0.
#[derive(Debug, Clone)]
pub struct WebIdentity {
    pub id: u32,
    pub master_seed: MasterSeed,
}

impl WebIdentity {
    /// The row of a seed.
    pub fn from_seed(seed: MasterSeed) -> (w: WebIdentity)
        ensures
            w.id == 0,
            w.master_seed == seed,
    {
        WebIdentity { id: 0, master_seed: seed }
    }

    /// The identity of a row.
    pub fn into_identity(self) -> (id: Identity)
        ensures
            id.master_seed == self.master_seed,
    {
        Identity::from_seed(self.master_seed)
    }
}

/// A post row of the browser store.
#[derive(Debug, Clone)]
pub struct WebPost {
    post_id: LetterId,
    author: SigningPublicKey,
    body: String,
    created_at: u64,
    media: Vec<Media>,
}

impl WebPost {
    /// The row of a post by `author`, received in `letter` with metadata `meta`: keyed by the
    /// letter's identifier, stamped with the message's creation time.
    pub fn new(author: SigningPublicKey, letter: &Letter, meta: &MessageMeta, post: PostContent) -> (w: WebPost)
        ensures
            w.stored_view() == (
                sha512_digest(letter_signing_bytes(*letter)),
                author@,
                post.body@,
                meta.created_at,
            ),
            w.media() == post.media,
    {
        WebPost { post_id: letter.id(), author, body: post.body, created_at: meta.created_at, media: post.media }
    }

    /// The row's identifier, author, text and creation time.
    pub closed spec fn stored_view(&self) -> (Seq<u8>, Seq<u8>, Seq<char>, u64) {
        (self.post_id@, self.author@, self.body@, self.created_at)
    }

    /// The row's media.
    pub closed spec fn media(&self) -> Vec<Media> {
        self.media
    }

    /// The stored post of a row.
    pub fn into_stored(self) -> (p: StoredPost)
        ensures
            (p.id@, p.author@, p.body@, p.created_at) == self.stored_view(),
            p.media == self.media(),
    {
        StoredPost {
            id: self.post_id,
            author: self.author,
            body: self.body,
            created_at: self.created_at,
            media: self.media,
        }
    }
}

/// A profile row of the browser store.
#[derive(Debug, Clone)]
pub struct WebProfile {
    pub owner: SigningPublicKey,
    pub display_name: String,
    pub bio: String,
    pub version: u64,
    pub sig: Signature,
}

impl WebProfile {
    /// The row of a profile.
    pub fn from_profile(profile: Profile) -> (w: WebProfile)
        ensures
            w.owner == profile.owner,
            w.display_name == profile.display_name,
            w.bio == profile.bio,
            w.version == profile.version,
            w.sig == profile.sig,
    {
        WebProfile {
            owner: profile.owner,
            display_name: profile.display_name,
            bio: profile.bio,
            version: profile.version,
            sig: profile.sig,
        }
    }

    /// The profile of a row.
    pub fn into_profile(self) -> (p: Profile)
        ensures
            p.owner == self.owner,
            p.display_name == self.display_name,
            p.bio == self.bio,
            p.version == self.version,
            p.sig == self.sig,
    {
        Profile {
            owner: self.owner,
            display_name: self.display_name,
            bio: self.bio,
            version: self.version,
            sig: self.sig,
        }
    }
}

/// The relay-settings row of the browser store; there is only ever one, with key 0.
#[derive(Debug, Clone)]
pub struct WebRelayConfig {
    pub id: u32,
    pub url: String,
}

impl WebRelayConfig {
    /// The row of the relay settings.
    pub fn from_config(config: RelayConfig) -> (w: WebRelayConfig)
        ensures
            w.id == 0,
            w.url == config.url,
    {
        WebRelayConfig { id: 0, url: config.url }
    }

    /// The relay settings of a row.
    pub fn into_config(self) -> (c: RelayConfig)
        ensures
            c.url == self.url,
    {
        RelayConfig { url: self.url }
    }
}

/// A response row of the browser store, keyed by letter, author and kind.
#[derive(Debug, Clone)]
pub struct WebResponse {
    letter_id: LetterId,
    author: SigningPublicKey,
    kind: ResponseKind,
    content: String,
}

impl WebResponse {
    /// The row of a response to the letter `letter_id`.
    pub fn new(letter_id: LetterId, response: StoredResponse) -> (w: WebResponse)
        ensures
            w.row() == (letter_id, response.author, response.kind, response.content),
    {
        WebResponse { letter_id, author: response.author, kind: response.kind, content: response.content }
    }

    /// The row's letter, author, kind and text.
    pub closed spec fn row(&self) -> (LetterId, SigningPublicKey, ResponseKind, String) {
        (self.letter_id, self.author, self.kind, self.content)
    }

    /// The stored response of a row.
    pub fn into_stored(self) -> (r: StoredResponse)
        ensures
            (self.row().1, self.row().2, self.row().3) == (r.author, r.kind, r.content),
    {
        StoredResponse { author: self.author, kind: self.kind, content: self.content }
    }
}

} // verus!
