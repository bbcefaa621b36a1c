use onlyfriends::envelope::Envelope;
use onlyfriends::friend::add_friend;
use onlyfriends::stored::{ResponseKind, StorageError};
use onlyfriends::sync::{post_recipients, response_to_post, sent_post_id};
use onlyfriends::config::{relay_url_from_text, RELAY_PATH};
use onlyfriends::envelope::LetterId;
use onlyfriends::identity::Identity;
use onlyfriends::mailbox::epoch_now;
use onlyfriends::message::{MessageContent, PostContent};
use onlyfriends::profile::create_profile;
use onlyfriends::response::{create_response, vouch_for, PostId, ResponseBody};
use onlyfriends::sync::{decide_message, MailboxAction};
use onlyfriends::time::{day_of, days_since_epoch, seconds_since_epoch, NormalTime, SECONDS_PER_DAY};

#[test]
fn a_post_is_saved() {
    let (me, bob) = (Identity::generate(), Identity::generate());
    let post = PostContent::from_body("hi".into(), 5);
    match decide_message(&me, &bob.public(), MessageContent::Post(post.clone()), None) {
        MailboxAction::SavePost(p) => assert_eq!(p, post),
        other => panic!("unexpected {:?}", other),
    }
}

#[test]
fn only_newer_signed_profiles_are_saved() {
    let (me, bob) = (Identity::generate(), Identity::generate());
    let v1 = create_profile(&bob, "Bob", "bio", 1);
    let v2 = create_profile(&bob, "Bob", "new bio", 2);
    assert!(matches!(
        decide_message(&me, &bob.public(), MessageContent::Profile(v1.clone()), None),
        MailboxAction::SaveProfile(_)
    ));
    assert!(matches!(
        decide_message(&me, &bob.public(), MessageContent::Profile(v2.clone()), Some(&v1)),
        MailboxAction::SaveProfile(_)
    ));
    assert!(matches!(
        decide_message(&me, &bob.public(), MessageContent::Profile(v1.clone()), Some(&v2)),
        MailboxAction::Ignore
    ));
    assert!(matches!(
        decide_message(&me, &bob.public(), MessageContent::Profile(v2.clone()), Some(&v2)),
        MailboxAction::Ignore
    ));
    let mut forged = v2.clone();
    forged.bio = "forged".into();
    assert!(matches!(
        decide_message(&me, &bob.public(), MessageContent::Profile(forged), Some(&v1)),
        MailboxAction::Ignore
    ));
}

#[test]
fn a_response_is_vouched_and_a_forged_one_dropped() {
    let (me, carl) = (Identity::generate(), Identity::generate());
    let r = create_response(&carl, PostId([3u8; 16]), ResponseBody::Comment { text: "yes".into() });
    match decide_message(&me, &carl.public(), MessageContent::Response(r.clone()), None) {
        MailboxAction::Rebroadcast(rb) => {
            assert_eq!(rb.inner.sig, r.sig);
            assert_eq!(rb.vouch_sig, vouch_for(&me, r.clone()).unwrap().vouch_sig);
        }
        other => panic!("unexpected {:?}", other),
    }
    let mut forged = r.clone();
    forged.body = ResponseBody::Comment { text: "no".into() };
    assert!(matches!(
        decide_message(&me, &carl.public(), MessageContent::Response(forged), None),
        MailboxAction::Ignore
    ));
}

#[test]
fn a_rebroadcast_is_saved_only_with_its_senders_vouch() {
    let (me, alice, carl) = (Identity::generate(), Identity::generate(), Identity::generate());
    let r = create_response(&carl, PostId([3u8; 16]), ResponseBody::Reaction { emoji: "+".into() });
    let rb = vouch_for(&alice, r).unwrap();
    assert!(matches!(
        decide_message(&me, &alice.public(), MessageContent::ResponseRebroadcast(rb.clone()), None),
        MailboxAction::SaveResponse(_)
    ));
    assert!(matches!(
        decide_message(&me, &carl.public(), MessageContent::ResponseRebroadcast(rb), None),
        MailboxAction::Ignore
    ));
}

#[test]
fn days_are_whole_days_of_seconds() {
    assert_eq!(SECONDS_PER_DAY, 86400);
    assert_eq!(day_of(0), 0);
    assert_eq!(day_of(86399), 0);
    assert_eq!(day_of(86400), 1);
    assert_eq!(day_of(1_700_000_000), 19675);
}

#[test]
fn the_clock_reads_after_2023() {
    let secs = seconds_since_epoch();
    assert!(secs > 1_700_000_000);
    assert!(NormalTime::epoch_secs() >= secs);
    let day = days_since_epoch();
    assert!(day >= secs / 86400);
    assert!(epoch_now(3600) >= secs / 3600);
}

#[test]
fn relay_url_is_trimmed() {
    assert_eq!(RELAY_PATH, "./onlyfriends-relay.txt");
    assert_eq!(relay_url_from_text("  http://r:3000\n"), Some("http://r:3000".to_string()));
    assert_eq!(relay_url_from_text(" \n\t"), None);
    assert_eq!(relay_url_from_text(""), None);
}

#[test]
fn a_post_is_named_by_the_head_of_its_letter_id() {
    let mut bytes = [0u8; 64];
    for (i, b) in bytes.iter_mut().enumerate() {
        *b = i as u8;
    }
    let id = PostId::of_letter(&LetterId::from_bytes(bytes));
    assert_eq!(id.0, [0, 1, 2, 3, 4, 5, 6, 7, 8, 9, 10, 11, 12, 13, 14, 15]);
}

#[test]
fn a_post_reports_its_letter_only_when_sent_to_friends() {
    let (me, bob) = (Identity::generate(), Identity::generate());
    let friends = vec![add_friend(&me, &bob.public(), "Bob")];
    let recipients = post_recipients(&me.public(), &friends);
    let envelopes = Envelope::seal_envelope(&me, b"post", &recipients);
    assert_eq!(sent_post_id(&friends, &envelopes), Some(envelopes[0].letter.id()));
    let alone = Envelope::seal_envelope(&me, b"post", &post_recipients(&me.public(), &[]));
    assert_eq!(alone.len(), 1);
    assert_eq!(sent_post_id(&[], &alone), None);
}

#[test]
fn response_kinds_convert_through_the_std_traits() {
    assert_eq!(ResponseKind::try_from(0u8), Ok(ResponseKind::Reaction));
    assert_eq!(ResponseKind::try_from(1u8), Ok(ResponseKind::Comment));
    assert_eq!(ResponseKind::try_from(2u8), Err(StorageError::InvalidResponseKind(2)));
    assert_eq!(u8::from(&ResponseKind::Reaction), 0);
    assert_eq!(u8::from(&ResponseKind::Comment), 1);
}

#[test]
fn signing_bytes_ignore_the_signature_and_tell_bodies_apart() {
    let carl = Identity::generate();
    let r = create_response(&carl, PostId([3u8; 16]), ResponseBody::Comment { text: "a".into() });
    let mut unsigned = r.clone();
    unsigned.sig = vec![];
    assert_eq!(r.signing_bytes(), unsigned.signing_bytes());
    let reaction = create_response(&carl, PostId([3u8; 16]), ResponseBody::Reaction { emoji: "a".into() });
    assert_ne!(r.signing_bytes(), reaction.signing_bytes());
}

#[test]
fn responding_to_a_strangers_post_is_refused() {
    let (me, bob) = (Identity::generate(), Identity::generate());
    let letter = LetterId::from_bytes([9u8; 64]);
    let body = ResponseBody::Reaction { emoji: "+".into() };
    assert!(response_to_post(&me, None, &letter, body.clone()).is_none());
    let friend = add_friend(&me, &bob.public(), "Bob");
    let (to, r) = response_to_post(&me, Some(friend.clone()), &letter, body).unwrap();
    assert!(to == friend);
    assert_eq!(r.post_id.0, [9u8; 16]);
    assert_eq!(r.author, me.public().sign_pub.to_bytes());
    assert_eq!(r.sig.len(), 64);
}
