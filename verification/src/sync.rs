//! The decisions an account makes while sending and syncing: where to post and read, which
//! profiles to accept, how far mailboxes have been read, and how the feed is assembled.

use vstd::prelude::*;

use crate::envelope::{letter_signing_bytes, Envelope, LetterId};
use crate::primitives::{ed25519_signature, hkdf_sha256_32, sha512_digest};
use crate::friend::Friend;
use crate::identity::{sign_pub_of, signing_secret_of, Identity, PublicIdentity, SigningPublicKey};
use crate::labels::mailbox_label;
use crate::mailbox::{
    be_bytes, direction_spec, lemma_mailbox_info_injective, mailbox_address, mailbox_address_spec, mailbox_info,
    my_direction,
};
use crate::wire::hex_lower;
use crate::message::{MessageContent, PostContent};
use crate::profile::{verify_profile, verify_profile_spec, Profile};
use crate::response::{
    create_response, rebroadcast_check_spec, response_signing_bytes, verify_rebroadcast, vouch_for, vouch_spec, PostId,
    Response, ResponseBody, ResponseRebroadcast,
};
use crate::stored::{ResponseKind, StoredPost, StoredResponse};

verus! {

/// What one sync found.
#[derive(Debug)]
pub struct SyncResult {
    pub new_posts: Vec<PostContent>,
    pub updated_profiles: Vec<Profile>,
    pub new_responses: Vec<Response>,
}

impl SyncResult {
    /// A result that found nothing.
    pub fn new() -> (r: SyncResult)
        ensures
            r.new_posts@.len() == 0,
            r.updated_profiles@.len() == 0,
            r.new_responses@.len() == 0,
    {
        SyncResult { new_posts: Vec::new(), updated_profiles: Vec::new(), new_responses: Vec::new() }
    }

    /// Add what `other` found after what `self` found.
    pub fn merge(&mut self, other: SyncResult)
        ensures
            final(self).new_posts@ == old(self).new_posts@ + other.new_posts@,
            final(self).updated_profiles@ == old(self).updated_profiles@ + other.updated_profiles@,
            final(self).new_responses@ == old(self).new_responses@ + other.new_responses@,
    {
        let mut other = other;
        self.new_posts.append(&mut other.new_posts);
        self.updated_profiles.append(&mut other.updated_profiles);
        self.new_responses.append(&mut other.new_responses);
    }
}

impl Default for SyncResult {
    fn default() -> (r: SyncResult)
        ensures
            r.new_posts@.len() == 0,
            r.updated_profiles@.len() == 0,
            r.new_responses@.len() == 0,
    {
        SyncResult::new()
    }
}

/// The mailbox that `me` writes to `friend` in, in `epoch`.
pub open spec fn outbox_spec(me: PublicIdentity, friend: Friend, epoch: u64) -> Seq<char> {
    mailbox_address_spec(friend.pairwise_root@, direction_spec(me, friend.public), epoch)
}

/// The mailbox that `me` reads from `friend` in, in `epoch`.
pub open spec fn inbox_spec(me: PublicIdentity, friend: Friend, epoch: u64) -> Seq<char> {
    mailbox_address_spec(friend.pairwise_root@, direction_spec(friend.public, me), epoch)
}

/// The address `me` posts to `friend` at in `epoch`.
pub fn outbox_address(me: &PublicIdentity, friend: &Friend, epoch: u64) -> (addr: String)
    ensures
        addr@ == outbox_spec(*me, *friend, epoch),
{
    mailbox_address(&friend.pairwise_root, my_direction(me, &friend.public), epoch)
}

/// The address `me` reads `friend`'s letters from in `epoch`.
pub fn inbox_address(me: &PublicIdentity, friend: &Friend, epoch: u64) -> (addr: String)
    ensures
        addr@ == inbox_spec(*me, *friend, epoch),
{
    mailbox_address(&friend.pairwise_root, my_direction(&friend.public, me), epoch)
}

/// The mailboxes rotate with the epoch: the address `me` posts to, and the one `me` reads from,
/// in epoch `e` is the hex of the 32 bytes derived from the pairwise root under the mailbox label,
/// the direction byte and `e` in big-endian order; and two different epochs always derive under
/// different labels.
pub proof fn lemma_boxes_rotate_with_epoch(me: PublicIdentity, friend: Friend, e1: u64, e2: u64)
    ensures
        outbox_spec(me, friend, e1) == hex_lower(
            hkdf_sha256_32(
                friend.pairwise_root@,
                mailbox_label() + seq![direction_spec(me, friend.public)] + be_bytes(e1),
            )@,
        ),
        inbox_spec(me, friend, e1) == hex_lower(
            hkdf_sha256_32(
                friend.pairwise_root@,
                mailbox_label() + seq![direction_spec(friend.public, me)] + be_bytes(e1),
            )@,
        ),
        e1 != e2 ==> mailbox_info(direction_spec(me, friend.public), e1) != mailbox_info(
            direction_spec(me, friend.public),
            e2,
        ),
        e1 != e2 ==> mailbox_info(direction_spec(friend.public, me), e1) != mailbox_info(
            direction_spec(friend.public, me),
            e2,
        ),
{
    if e1 != e2 {
        if mailbox_info(direction_spec(me, friend.public), e1) == mailbox_info(direction_spec(me, friend.public), e2) {
            lemma_mailbox_info_injective(direction_spec(me, friend.public), e1, direction_spec(me, friend.public), e2);
        }
        if mailbox_info(direction_spec(friend.public, me), e1) == mailbox_info(direction_spec(friend.public, me), e2) {
            lemma_mailbox_info_injective(direction_spec(friend.public, me), e1, direction_spec(friend.public, me), e2);
        }
    }
}

/// Friends who hold the same pairwise root meet in the same mailbox: what `a` posts to `b` in an
/// epoch is what `b` reads from `a` in that epoch.
pub proof fn lemma_outbox_is_inbox(a: PublicIdentity, a_side: Friend, b: PublicIdentity, b_side: Friend, epoch: u64)
    requires
        a_side.public == b,
        b_side.public == a,
        a_side.pairwise_root@ == b_side.pairwise_root@,
    ensures
        outbox_spec(a, a_side, epoch) == inbox_spec(b, b_side, epoch),
{
}

/// How many epochs before the current one a sync still reads.
pub const MAILBOX_LOOKBACK_EPOCHS: u64 = 7;

/// The epochs a sync reads, first and last (inclusive): the current one and the seven before it,
/// as far back as epoch 0.
pub fn read_window(current: u64) -> (w: (u64, u64))
    ensures
        w.1 == current,
        w.0 == if current >= MAILBOX_LOOKBACK_EPOCHS { current - MAILBOX_LOOKBACK_EPOCHS } else { 0 },
{
    (current.saturating_sub(MAILBOX_LOOKBACK_EPOCHS), current)
}

/// The cursor after reading `fetched` letters from index `after` on: unchanged (`None`) when none
/// were fetched, else just past the last one read.
pub fn next_cursor(after: usize, fetched: usize) -> (c: Option<usize>)
    requires
        after + fetched <= usize::MAX,
    ensures
        fetched == 0 ==> c is None,
        fetched > 0 ==> c == Some((after + fetched) as usize),
{
    if fetched == 0 {
        None
    } else {
        Some(after + fetched)
    }
}

/// Whether a received profile is newer than the one stored for its owner (any profile is, when
/// none is stored).
pub open spec fn is_newer_spec(existing: Option<u64>, incoming: u64) -> bool {
    match existing {
        None => true,
        Some(v) => incoming > v,
    }
}

/// Whether `incoming` is newer than the stored profile `existing`.
pub fn profile_is_newer(existing: Option<&Profile>, incoming: &Profile) -> (r: bool)
    ensures
        r == is_newer_spec(stored_version(existing), incoming.version),
{
    match existing {
        None => true,
        Some(old) => incoming.version > old.version,
    }
}

/// The version of a stored profile, if there is one.
pub open spec fn stored_version(existing: Option<&Profile>) -> Option<u64> {
    match existing {
        Some(p) => Some(p.version),
        None => None,
    }
}

/// Whether a sync accepts `incoming` over the stored profile `existing`: its owner signed it and
/// it is newer.
pub open spec fn profile_accepted(existing: Option<&Profile>, incoming: Profile) -> bool {
    verify_profile_spec(incoming) is Ok && is_newer_spec(stored_version(existing), incoming.version)
}

/// Whether a sync accepts a received profile: its owner signed it and it is newer than the one
/// stored.
pub fn accept_profile(existing: Option<&Profile>, incoming: &Profile) -> (r: bool)
    ensures
        r == profile_accepted(existing, *incoming),
{
    verify_profile(incoming).is_ok() && profile_is_newer(existing, incoming)
}

/// What a sync does with one message read from a friend's mailbox.
#[derive(Debug)]
pub enum MailboxAction {
    /// Store the post, and report it when the store did not hold it yet.
    SavePost(PostContent),
    /// Store the profile and report it as updated.
    SaveProfile(Profile),
    /// Seal this vouched response to every friend, then store and report its response.
    Rebroadcast(ResponseRebroadcast),
    /// Store and report the response of this rebroadcast.
    SaveResponse(ResponseRebroadcast),
    /// Drop the message.
    Ignore,
}

/// What the account `me` does with the message `content` that the friend `sender` sent, given
/// the profile stored for the owner of `content` when it is a profile:
/// - a post is saved;
/// - a profile is saved when its owner signed it and it is newer than the stored one;
/// - a response to one of my posts is vouched for and rebroadcast when its author's signature
///   checks;
/// - a rebroadcast is saved when the vouch of its sender (the post's owner) checks.
/// Anything else is dropped.
pub fn decide_message(
    me: &Identity,
    sender: &PublicIdentity,
    content: MessageContent,
    stored_profile: Option<&Profile>,
) -> (a: MailboxAction)
    ensures
        match content {
            MessageContent::Post(p) => a == MailboxAction::SavePost(p),
            MessageContent::Profile(p) => if profile_accepted(stored_profile, p) {
                a == MailboxAction::SaveProfile(p)
            } else {
                a is Ignore
            },
            MessageContent::Response(r) => match vouch_spec(me.master_seed@, r) {
                Ok(v) => a matches MailboxAction::Rebroadcast(rb) && rb.inner == r && rb.vouch_sig@ == v,
                Err(_) => a is Ignore,
            },
            MessageContent::ResponseRebroadcast(rb) => if rebroadcast_check_spec(sender.sign_pub@, rb) is Ok {
                a == MailboxAction::SaveResponse(rb)
            } else {
                a is Ignore
            },
        },
{
    match content {
        MessageContent::Post(p) => MailboxAction::SavePost(p),
        MessageContent::Profile(p) => {
            if accept_profile(stored_profile, &p) {
                MailboxAction::SaveProfile(p)
            } else {
                MailboxAction::Ignore
            }
        },
        MessageContent::Response(r) => match vouch_for(me, r) {
            Ok(rb) => MailboxAction::Rebroadcast(rb),
            Err(_) => MailboxAction::Ignore,
        },
        MessageContent::ResponseRebroadcast(rb) => {
            let owner = sender.sign_pub.to_bytes();
            if verify_rebroadcast(&owner, &rb).is_ok() {
                MailboxAction::SaveResponse(rb)
            } else {
                MailboxAction::Ignore
            }
        },
    }
}

/// Last writer wins, and re-syncing changes nothing: a profile is never newer than itself or than
/// a later version, and each accepted profile raises the stored version.
pub proof fn lemma_profile_versions(stored: u64, incoming: u64)
    ensures
        !is_newer_spec(Some(incoming), incoming),
        is_newer_spec(Some(stored), incoming) ==> incoming > stored,
        is_newer_spec(Some(stored), incoming) ==> !is_newer_spec(Some(incoming), stored),
{
}

/// The version of my next profile: one past the stored one, or 0 when there is none.
pub fn next_profile_version(old: Option<u64>) -> (v: u64)
    requires
        old != Some(u64::MAX),
    ensures
        v == match old {
            Some(o) => o + 1,
            None => 0,
        },
        is_newer_spec(old, v),
{
    match old {
        Some(o) => o + 1,
        None => 0,
    }
}

/// Who a post is sealed to: every friend, in order, then myself (so that a sealed copy exists to
/// keep even with no friends).
pub fn post_recipients(me: &PublicIdentity, friends: &[Friend]) -> (r: Vec<PublicIdentity>)
    ensures
        r@.len() == friends@.len() + 1,
        forall|i: int| 0 <= i < friends@.len() ==> #[trigger] r@[i] == friends@[i].public,
        r@[friends@.len() as int] == *me,
{
    let mut r: Vec<PublicIdentity> = Vec::new();
    let mut i: usize = 0;
    while i < friends.len()
        invariant
            i <= friends@.len(),
            r@.len() == i,
            forall|j: int| 0 <= j < i ==> #[trigger] r@[j] == friends@[j].public,
        decreases friends@.len() - i,
    {
        r.push(friends[i].public);
        i = i + 1;
    }
    r.push(*me);
    r
}

/// The letter identifier that sending a post reports: that of the letter it was sealed in (the
/// first envelope's), or `None` when there is no friend to send it to.
pub fn sent_post_id(friends: &[Friend], envelopes: &[Envelope]) -> (id: Option<LetterId>)
    ensures
        friends@.len() == 0 || envelopes@.len() == 0 ==> id is None,
        friends@.len() > 0 && envelopes@.len() > 0 ==> (id matches Some(i) && i@ == sha512_digest(
            letter_signing_bytes(envelopes@[0].letter),
        )),
{
    if friends.len() == 0 || envelopes.len() == 0 {
        None
    } else {
        Some(envelopes[0].letter.id())
    }
}

/// A response of `me` to the post that the letter `letter_id` carries, and the friend it goes to:
/// the post's author, as looking them up among the friends found them (`owner`). Responding to
/// a post by someone who is not a friend (`owner` is `None`) is refused.
pub fn response_to_post(me: &Identity, owner: Option<Friend>, letter_id: &LetterId, body: ResponseBody) -> (r:
    Option<(Friend, Response)>)
    ensures
        owner is None ==> r is None,
        owner matches Some(f) ==> (r matches Some(p) && p.0 == f && p.1.post_id.0@ == letter_id@.take(16)
            && p.1.author@ == sign_pub_of(me.master_seed@) && p.1.body == body && p.1.sig@
            == ed25519_signature(signing_secret_of(me.master_seed@), response_signing_bytes(p.1))@),
{
    match owner {
        None => None,
        Some(f) => {
            let response = create_response(me, PostId::of_letter(letter_id), body);
            Some((f, response))
        },
    }
}

/// A reaction in the feed.
#[derive(Debug, Clone, PartialEq)]
pub struct FeedReaction {
    pub author: SigningPublicKey,
    pub emoji: String,
}

/// A comment in the feed.
#[derive(Debug, Clone, PartialEq)]
pub struct FeedComment {
    pub author: SigningPublicKey,
    pub text: String,
}

/// A post in the feed, with its reactions and comments.
#[derive(Debug, Clone, PartialEq)]
pub struct FeedPost {
    pub id: LetterId,
    pub author: SigningPublicKey,
    pub created_at: u64,
    pub content: PostContent,
    pub reactions: Vec<FeedReaction>,
    pub comments: Vec<FeedComment>,
}

/// The author and text of the responses of one kind (reactions when `reactions`, comments
/// otherwise), in their order.
pub open spec fn responses_of_kind(rs: Seq<StoredResponse>, reactions: bool) -> Seq<(SigningPublicKey, Seq<char>)>
    decreases rs.len(),
{
    if rs.len() == 0 {
        seq![]
    } else {
        let rest = responses_of_kind(rs.drop_last(), reactions);
        if (rs.last().kind == ResponseKind::Reaction) == reactions {
            rest.push((rs.last().author, rs.last().content@))
        } else {
            rest
        }
    }
}

/// A feed post from a stored post and its responses: the reactions and the comments each keep
/// their order.
pub fn build_feed_post(post: StoredPost, responses: Vec<StoredResponse>) -> (f: FeedPost)
    ensures
        f.id == post.id,
        f.author == post.author,
        f.created_at == post.created_at,
        f.content.body == post.body,
        f.content.created_at == post.created_at,
        f.content.media == post.media,
        f.reactions@.map_values(|r: FeedReaction| (r.author, r.emoji@)) == responses_of_kind(responses@, true),
        f.comments@.map_values(|c: FeedComment| (c.author, c.text@)) == responses_of_kind(responses@, false),
{
    let mut reactions: Vec<FeedReaction> = Vec::new();
    let mut comments: Vec<FeedComment> = Vec::new();
    let ghost rs = responses@;
    let mut responses = responses;
    let n = responses.len();
    let mut i: usize = 0;
    while i < n
        invariant
            n == rs.len(),
            i <= n,
            responses@ == rs.skip(i as int),
            reactions@.map_values(|r: FeedReaction| (r.author, r.emoji@)) == responses_of_kind(rs.take(i as int), true),
            comments@.map_values(|c: FeedComment| (c.author, c.text@)) == responses_of_kind(rs.take(i as int), false),
        decreases n - i,
    {
        let r = responses.remove(0);
        assert(r == rs[i as int]);
        assert(rs.take(i + 1).drop_last() == rs.take(i as int));
        assert(rs.take(i + 1).last() == rs[i as int]);
        let ghost before_r = reactions@;
        let ghost before_c = comments@;
        let is_reaction = r.kind == ResponseKind::Reaction;
        if is_reaction {
            reactions.push(FeedReaction { author: r.author, emoji: r.content });
            assert(reactions@.map_values(|x: FeedReaction| (x.author, x.emoji@)) =~= responses_of_kind(rs.take(i + 1), true));
            assert(comments@.map_values(|x: FeedComment| (x.author, x.text@)) =~= responses_of_kind(rs.take(i + 1), false));
        } else {
            comments.push(FeedComment { author: r.author, text: r.content });
            assert(reactions@.map_values(|x: FeedReaction| (x.author, x.emoji@)) =~= responses_of_kind(rs.take(i + 1), true));
            assert(comments@.map_values(|x: FeedComment| (x.author, x.text@)) =~= responses_of_kind(rs.take(i + 1), false));
        }
        assert(responses@ =~= rs.skip(i + 1));
        i = i + 1;
    }
    assert(rs.take(n as int) == rs);
    FeedPost {
        id: post.id,
        author: post.author,
        created_at: post.created_at,
        content: PostContent { body: post.body, created_at: post.created_at, media: post.media },
        reactions,
        comments,
    }
}

} // verus!
