use onlyfriends::crypto::SealedBox;
use onlyfriends::identity::Identity;
use onlyfriends::profile::{create_profile, verify_profile};
use onlyfriends::response::{create_response, verify_rebroadcast, vouch_for, PostId, ResponseBody};
use onlyfriends::Error;

#[test]
fn full_reaction_round_trip() {
    // Carl reacts to Alice's post; Alice vouches; Bob checks Alice's vouch.
    let alice = Identity::generate();
    let carl = Identity::generate();

    let post_id = PostId([1u8; 16]);

    let inner = create_response(&carl, post_id, ResponseBody::Reaction { emoji: "👍".to_string() });

    let rb = vouch_for(&alice, inner).unwrap();
    assert_eq!(rb.inner.post_id, post_id);
    assert_eq!(rb.inner.author, carl.public().sign_pub.to_bytes());
    match &rb.inner.body {
        ResponseBody::Reaction { emoji } => assert_eq!(emoji, "👍"),
        _ => panic!("expected a reaction"),
    }

    assert!(verify_rebroadcast(&alice.public().sign_pub.to_bytes(), &rb).is_ok());
    assert_eq!(rb.inner.author, carl.public().sign_pub.to_bytes());
    match rb.inner.body {
        ResponseBody::Reaction { emoji } => assert_eq!(emoji, "👍"),
        _ => panic!("expected a reaction"),
    }
}

#[test]
fn only_the_owner_can_open_the_response() {
    let alice = Identity::generate();
    let carl = Identity::generate();
    let mallory = Identity::generate();

    let inner = create_response(&carl, PostId([1u8; 16]), ResponseBody::Reaction { emoji: "x".into() });
    let sealed_to_alice = SealedBox::seal(&alice.public().dh_pub, &inner.signing_bytes());

    assert!(SealedBox::open(&mallory.dh_secret(), &sealed_to_alice).is_err());
    assert_eq!(SealedBox::open(&alice.dh_secret(), &sealed_to_alice).unwrap(), inner.signing_bytes());
}

#[test]
fn forged_responder_signature_is_rejected() {
    let alice = Identity::generate();
    let carl = Identity::generate();

    let mut inner = create_response(&carl, PostId([1u8; 16]), ResponseBody::Reaction { emoji: "👍".into() });
    // Change the body after signing: the signature no longer covers these bytes.
    inner.body = ResponseBody::Reaction { emoji: "😈".into() };

    assert_eq!(vouch_for(&alice, inner).unwrap_err(), Error::Signature);
}

#[test]
fn rebroadcast_verified_against_wrong_owner_is_rejected() {
    let alice = Identity::generate();
    let carl = Identity::generate();
    let impostor = Identity::generate();

    let inner = create_response(&carl, PostId([1u8; 16]), ResponseBody::Reaction { emoji: "👍".into() });
    let rb = vouch_for(&alice, inner).unwrap();

    assert!(verify_rebroadcast(&alice.public().sign_pub.to_bytes(), &rb).is_ok());
    assert!(verify_rebroadcast(&impostor.public().sign_pub.to_bytes(), &rb).is_err());
}

#[test]
fn comment_body_survives_round_trip() {
    let alice = Identity::generate();
    let carl = Identity::generate();

    let inner = create_response(&carl, PostId([2u8; 16]), ResponseBody::Comment { text: "cool comment".to_string() });
    let rb = vouch_for(&alice, inner).unwrap();
    assert!(verify_rebroadcast(&alice.public().sign_pub.to_bytes(), &rb).is_ok());

    match rb.inner.body {
        ResponseBody::Comment { text } => assert_eq!(text, "cool comment".to_string()),
        _ => panic!("expected a comment"),
    }
}

#[test]
fn short_signatures_are_signature_errors() {
    let alice = Identity::generate();
    let carl = Identity::generate();
    let mut inner = create_response(&carl, PostId([3u8; 16]), ResponseBody::Comment { text: "hi".into() });
    inner.sig.truncate(10);
    assert_eq!(vouch_for(&alice, inner).unwrap_err(), Error::Signature);
}

#[test]
fn response_signing_bytes_layout() {
    let carl = Identity::generate();
    let r = create_response(&carl, PostId([5u8; 16]), ResponseBody::Reaction { emoji: "ok".into() });
    let b = r.signing_bytes();
    assert_eq!(&b[..16], &[5u8; 16]);
    assert_eq!(&b[16..48], &r.author[..]);
    assert_eq!(b[48], 1); // reaction tag
    assert_eq!(b[49], 2); // text length
    assert_eq!(&b[50..], b"ok");
    assert_eq!(r.sig.len(), 64);
}

#[test]
fn profiles_verify_and_tampering_is_caught() {
    let alice = Identity::generate();
    let p = create_profile(&alice, "Alice", "hi from alice", 3);
    assert_eq!(p.owner, alice.public().sign_pub);
    assert_eq!(p.version, 3);
    assert!(verify_profile(&p).is_ok());
    let mut forged = p.clone();
    forged.bio = "changed".to_string();
    assert_eq!(verify_profile(&forged), Err(Error::Signature));
    let mut v = p.clone();
    v.version = 4;
    assert_eq!(verify_profile(&v), Err(Error::Signature));
}

#[test]
fn profile_signing_bytes_layout() {
    let alice = Identity::generate();
    let p = create_profile(&alice, "Al", "b", 300);
    let b = p.signing_bytes();
    assert_eq!(&b[..32], &p.owner.to_bytes()[..]);
    assert_eq!(&b[32..35], &[2, b'A', b'l']);
    assert_eq!(&b[35..37], &[1, b'b']);
    assert_eq!(&b[37..], &[0xac, 0x02]); // 300 as a varint
}
