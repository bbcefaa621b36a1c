use onlyfriends::friend::add_friend;
use onlyfriends::identity::{Identity, MasterSeed, PublicIdentity, SigningPublicKey};
use onlyfriends::mailbox::my_direction;

#[test]
fn same_seed_same_identity() {
    let seed = MasterSeed::random();
    assert_eq!(Identity::from_seed(seed).public(), Identity::from_seed(seed).public())
}

#[test]
fn id_survives_qr_round_trip() {
    let id = Identity::generate().public();
    assert_eq!(PublicIdentity::try_from(&id.to_bytes()[..]).unwrap(), id)
}

#[test]
fn both_sides_derive_the_same_root() {
    let (a, b) = (Identity::generate(), Identity::generate());
    let a_sees_b = add_friend(&a, &b.public(), "B");
    let b_sees_a = add_friend(&b, &a.public(), "A");
    assert_eq!(a_sees_b.pairwise_root, b_sees_a.pairwise_root);
}

#[test]
fn public_identity_bytes_are_the_two_keys() {
    let id = Identity::from_seed(MasterSeed::from_bytes([3u8; 32])).public();
    let bytes = id.to_bytes();
    assert_eq!(bytes.len(), 64);
    assert_eq!(&bytes[..32], &id.sign_pub.to_bytes()[..]);
    assert_eq!(&bytes[32..], &id.dh_pub.to_bytes()[..]);
}

#[test]
fn short_wire_bytes_are_refused_and_trailing_bytes_ignored() {
    let id = Identity::generate().public();
    let bytes = id.to_bytes();
    assert_eq!(PublicIdentity::from_wire(&bytes[..63]), Err(onlyfriends::Error::Serialize));
    let mut longer = bytes.clone();
    longer.push(7);
    assert_eq!(PublicIdentity::from_wire(&longer).unwrap(), id);
}

#[test]
fn different_seeds_give_different_identities() {
    let a = Identity::from_seed(MasterSeed::from_bytes([1u8; 32])).public();
    let b = Identity::from_seed(MasterSeed::from_bytes([2u8; 32])).public();
    assert_ne!(a, b);
    assert_ne!(Identity::from_seed(MasterSeed::from_bytes([1u8; 32])).signing_key(), [1u8; 32]);
}

#[test]
fn hex_of_signing_key() {
    let mut bytes = [0u8; 32];
    bytes[0] = 0xab;
    bytes[1] = 0x01;
    bytes[31] = 0xff;
    let key = SigningPublicKey::from_bytes(bytes);
    let hex = key.to_hex();
    assert_eq!(hex.len(), 64);
    assert!(hex.starts_with("ab01000000"));
    assert!(hex.ends_with("ff"));
    assert_eq!(key.to_short_hex(), "ab01000000000000");
    assert_eq!(key.to_short_hex(), hex[..16]);
}

#[test]
fn directions_of_a_pair_differ() {
    let a = Identity::generate().public();
    let b = Identity::generate().public();
    assert_ne!(my_direction(&a, &b), my_direction(&b, &a));
    assert_eq!(my_direction(&a, &a), 0);
}

#[test]
fn friend_keeps_public_and_nickname() {
    let (a, b) = (Identity::generate(), Identity::generate());
    let f = add_friend(&a, &b.public(), "Bob");
    assert_eq!(f.public, b.public());
    assert_eq!(f.nickname, "Bob");
}
