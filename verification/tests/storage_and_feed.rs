use onlyfriends::envelope::{Envelope, LetterId};
use onlyfriends::friend::add_friend;
use onlyfriends::identity::{Identity, MasterSeed, SigningPublicKey};
use onlyfriends::message::{Message, MessageContent, MessageMeta, PostContent};
use onlyfriends::profile::create_profile;
use onlyfriends::response::{create_response, PostId, ResponseBody};
use onlyfriends::stored::{db_path, RelayConfig, ResponseKind, StorageError, StoredPost, StoredResponse, WebCursor, WebFriend, WebIdentity, WebPost, WebProfile, WebRelayConfig, WebResponse};
use onlyfriends::sync::{accept_profile, build_feed_post, next_cursor, next_profile_version, post_recipients, profile_is_newer, SyncResult};

#[test]
fn response_kinds_round_trip() {
    assert_eq!(ResponseKind::Reaction.to_u8(), 0);
    assert_eq!(ResponseKind::Comment.to_u8(), 1);
    assert_eq!(ResponseKind::try_from_u8(0), Ok(ResponseKind::Reaction));
    assert_eq!(ResponseKind::try_from_u8(1), Ok(ResponseKind::Comment));
    assert_eq!(ResponseKind::try_from_u8(7), Err(StorageError::InvalidResponseKind(7)));
}

#[test]
fn stored_response_from_a_response() {
    let carl = Identity::generate();
    let r = create_response(&carl, PostId([0u8; 16]), ResponseBody::Comment { text: "nice".into() });
    let s = StoredResponse::from_response(r.clone());
    assert_eq!(s.kind, ResponseKind::Comment);
    assert_eq!(s.content, "nice");
    assert_eq!(s.author, carl.public().sign_pub);
}

#[test]
fn web_rows_round_trip() {
    let (a, b) = (Identity::generate(), Identity::generate());
    let f = add_friend(&a, &b.public(), "B");
    let back = WebFriend::from_friend(f.clone()).into_friend();
    assert!(back == f);
    let seed = MasterSeed::from_bytes([4u8; 32]);
    let row = WebIdentity::from_seed(seed);
    assert_eq!(row.id, 0);
    assert_eq!(row.into_identity().master_seed, seed);
    let p = create_profile(&a, "A", "bio", 1);
    assert_eq!(WebProfile::from_profile(p.clone()).into_profile(), p);
    let c = WebRelayConfig::from_config(RelayConfig { url: "http://x".into() });
    assert_eq!(c.id, 0);
    assert_eq!(c.into_config(), RelayConfig { url: "http://x".into() });
    let cursor = WebCursor::new(a.public().sign_pub, 1, 5, 9);
    assert_eq!(cursor.last_index, 9);
    let wr = WebResponse::new(LetterId::from_bytes([1u8; 64]), StoredResponse { author: a.public().sign_pub, kind: ResponseKind::Reaction, content: "x".into() });
    let sr = wr.into_stored();
    assert_eq!(sr.kind, ResponseKind::Reaction);
    assert_eq!(sr.content, "x");
    assert_eq!(db_path(), "./onlyfriends.db");
}

#[test]
fn web_post_is_keyed_by_the_letter_id() {
    let a = Identity::generate();
    let envs = Envelope::seal_envelope(&a, b"post", &[a.public()]);
    let post = PostContent::from_body("post".into(), 42);
    let meta = MessageMeta { created_at: 43 };
    let stored = WebPost::new(a.public().sign_pub, &envs[0].letter, &meta, post).into_stored();
    assert_eq!(stored.id, envs[0].letter.id());
    assert_eq!(stored.created_at, 43);
    assert_eq!(stored.body, "post");
}

#[test]
fn feed_splits_reactions_and_comments_in_order() {
    let author = SigningPublicKey::from_bytes([1u8; 32]);
    let other = SigningPublicKey::from_bytes([2u8; 32]);
    let post = StoredPost { id: LetterId::from_bytes([0u8; 64]), author, body: "hi".into(), created_at: 5, media: vec![] };
    let responses = vec![
        StoredResponse { author: other, kind: ResponseKind::Comment, content: "first".into() },
        StoredResponse { author: other, kind: ResponseKind::Reaction, content: "👍".into() },
        StoredResponse { author, kind: ResponseKind::Comment, content: "second".into() },
    ];
    let f = build_feed_post(post, responses);
    assert_eq!(f.content.body, "hi");
    assert_eq!(f.created_at, 5);
    assert_eq!(f.reactions.len(), 1);
    assert_eq!(f.reactions[0].emoji, "👍");
    assert_eq!(f.comments.iter().map(|c| c.text.as_str()).collect::<Vec<_>>(), vec!["first", "second"]);
}

#[test]
fn profile_acceptance_is_last_writer_wins() {
    let a = Identity::generate();
    let v1 = create_profile(&a, "Alice", "hi", 0);
    let v2 = create_profile(&a, "Alice B.", "updated", 1);
    assert!(accept_profile(None, &v1));
    assert!(accept_profile(Some(&v1), &v2));
    assert!(!accept_profile(Some(&v2), &v1));
    assert!(!accept_profile(Some(&v2), &v2)); // re-sync finds nothing new
    assert!(profile_is_newer(None, &v1));
    let mut forged = v2.clone();
    forged.version = 9;
    assert!(!accept_profile(Some(&v1), &forged));
    assert_eq!(next_profile_version(None), 0);
    assert_eq!(next_profile_version(Some(4)), 5);
}

#[test]
fn cursors_and_recipients() {
    assert_eq!(next_cursor(3, 0), None);
    assert_eq!(next_cursor(3, 2), Some(5));
    let me = Identity::generate();
    let (b, c) = (Identity::generate(), Identity::generate());
    let friends = vec![add_friend(&me, &b.public(), "B"), add_friend(&me, &c.public(), "C")];
    let r = post_recipients(&me.public(), &friends);
    assert_eq!(r, vec![b.public(), c.public(), me.public()]);
}

#[test]
fn sync_results_merge_in_order() {
    let mut a = SyncResult::new();
    a.new_posts.push(PostContent::from_body("one".into(), 1));
    let mut b = SyncResult::default();
    b.new_posts.push(PostContent::from_body("two".into(), 2));
    a.merge(b);
    assert_eq!(a.new_posts.iter().map(|p| p.body.as_str()).collect::<Vec<_>>(), vec!["one", "two"]);
    assert!(a.updated_profiles.is_empty() && a.new_responses.is_empty());
}

#[test]
fn messages_are_stamped() {
    let m = Message::new(MessageContent::Post(PostContent::from_body("x".into(), 7)), 8);
    assert_eq!(m.meta.created_at, 8);
    assert!(matches!(m.content, MessageContent::Post(ref p) if p.body == "x"));
}
