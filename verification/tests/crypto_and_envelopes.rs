use onlyfriends::crypto::{aead_decrypt, aead_encrypt, SealedBox};
use onlyfriends::envelope::Envelope;
use onlyfriends::friend::add_friend;
use onlyfriends::identity::{DhPublicKey, Identity, MasterSeed, PublicIdentity};
use onlyfriends::primitives::{derive32, random_bytes};
use onlyfriends::Error;

#[test]
fn aead_round_trips_and_rejects_tampering() {
    let key: [u8; 32] = random_bytes();
    let (nonce, mut ct) = aead_encrypt(&key, b"hello");
    assert_eq!(aead_decrypt(&key, &nonce, &ct).unwrap(), b"hello");
    ct[0] ^= 0xff; // flip a byte
    assert!(aead_decrypt(&key, &nonce, &ct).is_err()); // tamper detected
}

#[test]
fn seal_open_round_trip() {
    let sk: [u8; 32] = random_bytes();
    let pk = Identity::from_seed(MasterSeed::from_bytes(sk)).public().dh_pub;
    let dh_secret = Identity::from_seed(MasterSeed::from_bytes(sk)).dh_secret();
    let secret = b"a content key goes here, 32 byte";
    let sealed = SealedBox::seal(&pk, secret);
    assert_eq!(SealedBox::open(&dh_secret, &sealed).unwrap(), secret);
}

#[test]
fn sealed_box_refuses_the_wrong_secret() {
    let alice = Identity::generate();
    let mallory = Identity::generate();
    let sealed = SealedBox::seal(&alice.public().dh_pub, b"for alice only");
    assert_eq!(SealedBox::open(&mallory.dh_secret(), &sealed), Err(Error::Aead));
    assert_eq!(SealedBox::open(&alice.dh_secret(), &sealed).unwrap(), b"for alice only");
}

#[test]
fn aead_ciphertext_is_sixteen_bytes_longer() {
    let key = [9u8; 32];
    let (_, ct) = aead_encrypt(&key, b"");
    assert_eq!(ct.len(), 16);
    let (nonce, ct) = aead_encrypt(&key, b"0123456789");
    assert_eq!(ct.len(), 26);
    assert_eq!(aead_decrypt(&[8u8; 32], &nonce, &ct), Err(Error::Aead));
}

#[test]
fn derive32_depends_on_both_inputs() {
    let a = derive32(b"ikm", b"label-a");
    assert_eq!(a, derive32(b"ikm", b"label-a"));
    assert_ne!(a, derive32(b"ikm", b"label-b"));
    assert_ne!(a, derive32(b"other", b"label-a"));
}

#[test]
fn alice_posts_bob_reads() {
    let alice = Identity::generate();
    let bob = Identity::generate();

    let alice_id = PublicIdentity::from_wire(&alice.public().to_bytes()[..]).unwrap(); // like from qr
    let bob_id = bob.public();

    let a = add_friend(&alice, &bob_id, "Bob");
    let b = add_friend(&bob, &alice_id, "Alice");
    assert_eq!(a.pairwise_root, b.pairwise_root);

    let post = "Hello bob 📸".as_bytes();
    let envelopes = Envelope::seal_envelope(&alice, post, &[bob_id]);
    let opened = envelopes[0].open_envelope(&bob, &alice_id).unwrap();

    assert_eq!(String::from_utf8(opened).unwrap(), "Hello bob 📸")
}

#[test]
fn stranger_and_tampering_are_rejected() {
    let alice = Identity::generate();
    let bob = Identity::generate();
    let mallory = Identity::generate();

    let post = "secret".as_bytes();
    let mut envelopes = Envelope::seal_envelope(&alice, post, &[bob.public()]);
    assert!(envelopes[0].open_envelope(&mallory, &alice.public()).is_err()); // not a recipient
    envelopes[0].letter.content_ct[0] ^= 0xff;
    assert!(envelopes[0].open_envelope(&bob, &alice.public()).is_err()); // tampered
}

#[test]
fn one_letter_for_every_recipient() {
    let alice = Identity::generate();
    let (bob, carl) = (Identity::generate(), Identity::generate());
    let envelopes = Envelope::seal_envelope(&alice, b"to both", &[bob.public(), carl.public()]);
    assert_eq!(envelopes.len(), 2);
    assert_eq!(envelopes[0].letter.id(), envelopes[1].letter.id());
    assert_eq!(envelopes[0].open_envelope(&bob, &alice.public()).unwrap(), b"to both");
    assert_eq!(envelopes[1].open_envelope(&carl, &alice.public()).unwrap(), b"to both");
    // each envelope's key is sealed to its own recipient only
    assert_eq!(envelopes[0].open_envelope(&carl, &alice.public()), Err(Error::Aead));
    assert!(Envelope::seal_envelope(&alice, b"nobody", &[]).is_empty());
}

#[test]
fn wrong_author_is_a_signature_error() {
    let alice = Identity::generate();
    let bob = Identity::generate();
    let impostor = Identity::generate();
    let envelopes = Envelope::seal_envelope(&alice, b"signed", &[bob.public()]);
    assert_eq!(envelopes[0].open_envelope(&bob, &impostor.public()), Err(Error::Signature));
}

#[test]
fn letter_signing_bytes_are_length_prefixed_ciphertext_and_nonce() {
    let alice = Identity::generate();
    let envelopes = Envelope::seal_envelope(&alice, b"abc", &[alice.public()]);
    let letter = &envelopes[0].letter;
    let bytes = letter.signing_bytes();
    // 3 bytes of plaintext + 16 bytes of tag = 19, one varint byte
    assert_eq!(bytes[0], 19);
    assert_eq!(&bytes[1..20], &letter.content_ct[..]);
    assert_eq!(&bytes[20..], &letter.content_nonce[..]);
    assert_eq!(letter.id().as_bytes().len(), 64);
}

#[test]
fn dh_key_order_is_lexicographic() {
    let a = DhPublicKey::from_bytes([1u8; 32]);
    let mut hi = [1u8; 32];
    hi[31] = 2;
    let b = DhPublicKey::from_bytes(hi);
    assert!(a.le(&b));
    assert!(!b.le(&a));
    assert!(a.le(&a));
}
