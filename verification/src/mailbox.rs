//! Mailboxes on the relay: each direction of a friendship has one address per epoch, derived from
//! the pairwise root.

use vstd::prelude::*;

use crate::bytes::concat3;
use crate::identity::{lemma_lex_total, lex_le, PublicIdentity};
use crate::labels::{mailbox_label, MAILBOX};
use crate::primitives::{derive32, hex_encode, hkdf_sha256_32};
use crate::time::seconds_since_epoch;
use crate::wire::hex_lower;
use vstd::arithmetic::div_mod::lemma_div_is_ordered;

verus! {

/// The epoch (of `seconds_per_epoch` seconds each) that the Unix time `now_secs` falls in.
pub fn epoch_at(now_secs: u64, seconds_per_epoch: u64) -> (epoch: u64)
    requires
        seconds_per_epoch > 0,
    ensures
        epoch == now_secs / seconds_per_epoch,
{
    now_secs / seconds_per_epoch
}

/// The epoch (of `seconds_per_epoch` seconds each) that the clock's current reading falls in.
pub fn epoch_now(seconds_per_epoch: u64) -> (epoch: u64)
    requires
        seconds_per_epoch > 0,
    ensures
        epoch <= u64::MAX / seconds_per_epoch,
{
    let now = seconds_since_epoch();
    proof {
        lemma_div_is_ordered(now as int, u64::MAX as int, seconds_per_epoch as int);
    }
    epoch_at(now, seconds_per_epoch)
}

/// The eight big-endian bytes of a `u64`.
pub open spec fn be_bytes(n: u64) -> Seq<u8> {
    seq![
        (n / 0x100000000000000) as u8,
        ((n / 0x1000000000000) % 256) as u8,
        ((n / 0x10000000000) % 256) as u8,
        ((n / 0x100000000) % 256) as u8,
        ((n / 0x1000000) % 256) as u8,
        ((n / 0x10000) % 256) as u8,
        ((n / 0x100) % 256) as u8,
        (n % 256) as u8,
    ]
}

/// `u64::to_be_bytes`, as a vector.
fn to_be_bytes(n: u64) -> (b: Vec<u8>)
    ensures
        b@ == be_bytes(n),
{
    let v: Vec<u8> = vec![
        (n / 0x100000000000000) as u8,
        ((n / 0x1000000000000) % 256) as u8,
        ((n / 0x10000000000) % 256) as u8,
        ((n / 0x100000000) % 256) as u8,
        ((n / 0x1000000) % 256) as u8,
        ((n / 0x10000) % 256) as u8,
        ((n / 0x100) % 256) as u8,
        (n % 256) as u8,
    ];
    assert(v@ =~= be_bytes(n));
    v
}

/// Different numbers have different big-endian bytes.
pub proof fn lemma_be_bytes_injective(a: u64, b: u64)
    requires
        be_bytes(a) == be_bytes(b),
    ensures
        a == b,
{
    let (x, y) = (be_bytes(a), be_bytes(b));
    assert(x[0] == y[0] && x[1] == y[1] && x[2] == y[2] && x[3] == y[3]);
    assert(x[4] == y[4] && x[5] == y[5] && x[6] == y[6] && x[7] == y[7]);
    assert(a == b) by (bit_vector)
        requires
            a / 0x100000000000000u64 == b / 0x100000000000000u64,
            (a / 0x1000000000000u64) % 256u64 == (b / 0x1000000000000u64) % 256u64,
            (a / 0x10000000000u64) % 256u64 == (b / 0x10000000000u64) % 256u64,
            (a / 0x100000000u64) % 256u64 == (b / 0x100000000u64) % 256u64,
            (a / 0x1000000u64) % 256u64 == (b / 0x1000000u64) % 256u64,
            (a / 0x10000u64) % 256u64 == (b / 0x10000u64) % 256u64,
            (a / 0x100u64) % 256u64 == (b / 0x100u64) % 256u64,
            a % 256u64 == b % 256u64,
    ;
}

/// The derivation label of a mailbox address: the mailbox label, the direction byte, then the
/// epoch in big-endian order.
pub open spec fn mailbox_info(direction: u8, epoch: u64) -> Seq<u8> {
    mailbox_label() + seq![direction] + be_bytes(epoch)
}

/// The address of the mailbox for one direction of a friendship in one epoch: the lower-case hex
/// of 32 bytes derived from the pairwise root.
pub open spec fn mailbox_address_spec(pairwise_root: Seq<u8>, direction: u8, epoch: u64) -> Seq<char> {
    hex_lower(hkdf_sha256_32(pairwise_root, mailbox_info(direction, epoch))@)
}

/// The mailbox address for `direction` in `epoch` under `pairwise_root`. It depends on these three
/// alone.
pub fn mailbox_address(pairwise_root: &[u8; 32], direction: u8, epoch: u64) -> (addr: String)
    ensures
        addr@ == mailbox_address_spec(pairwise_root@, direction, epoch),
{
    let dir = [direction];
    let be = to_be_bytes(epoch);
    let info = concat3(MAILBOX.as_bytes(), dir.as_slice(), be.as_slice());
    assert(dir@ == seq![direction]);
    let addr_bytes = derive32(pairwise_root.as_slice(), info.as_slice());
    hex_encode(addr_bytes.as_slice())
}

/// Each direction and epoch has a derivation label of its own: mailboxes of one friendship in
/// different directions or epochs are derived under different labels.
pub proof fn lemma_mailbox_info_injective(d1: u8, e1: u64, d2: u8, e2: u64)
    requires
        mailbox_info(d1, e1) == mailbox_info(d2, e2),
    ensures
        d1 == d2,
        e1 == e2,
{
    let n = mailbox_label().len() as int;
    assert(mailbox_info(d1, e1)[n] == d1);
    assert(mailbox_info(d2, e2)[n] == d2);
    assert(mailbox_info(d1, e1).skip(n + 1) =~= be_bytes(e1));
    assert(mailbox_info(d2, e2).skip(n + 1) =~= be_bytes(e2));
    lemma_be_bytes_injective(e1, e2);
}

/// The direction of the mailbox that `sender` writes to `recipient` in: 0 when the sender's X25519
/// public key comes first in lexicographic order, 1 otherwise.
pub open spec fn direction_spec(sender: PublicIdentity, recipient: PublicIdentity) -> u8 {
    if lex_le(sender.dh_pub@, recipient.dh_pub@) {
        0
    } else {
        1
    }
}

/// The direction of the mailbox that `sender_pub` writes to `recipient_pub` in.
pub fn my_direction(sender_pub: &PublicIdentity, recipient_pub: &PublicIdentity) -> (d: u8)
    ensures
        d == direction_spec(*sender_pub, *recipient_pub),
{
    if sender_pub.dh_pub.le(&recipient_pub.dh_pub) {
        0
    } else {
        1
    }
}

/// The two directions of a friendship between different keys are different: each side writes to
/// a mailbox that only the other reads.
pub proof fn lemma_directions_differ(a: PublicIdentity, b: PublicIdentity)
    requires
        a.dh_pub@ != b.dh_pub@,
    ensures
        direction_spec(a, b) != direction_spec(b, a),
        direction_spec(a, b) + direction_spec(b, a) == 1,
{
    a.dh_pub.lemma_len();
    b.dh_pub.lemma_len();
    lemma_lex_total(a.dh_pub@, b.dh_pub@);
}

} // verus!
