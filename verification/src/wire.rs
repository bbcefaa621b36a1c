//! The byte-level shapes that the library signs, hashes and addresses by.
//!
//! Everything here is a specification: the postcard wire format of the few
//! plain tuples that the library serializes (a varint length before each byte
//! string or text, fixed-size arrays written raw, fields one after another),
//! and the lower-case hex text of a byte string.

use vstd::prelude::*;

verus! {

/// The variable-length (LEB128) encoding of an unsigned integer in the wire format:
/// seven bits per byte, least significant group first, high bit set on every byte but the last.
pub open spec fn varint(n: nat) -> Seq<u8>
    decreases n,
{
    if n < 128 {
        seq![n as u8]
    } else {
        seq![(n % 128 + 128) as u8] + varint(n / 128)
    }
}

/// A varint has at least one byte, and its first byte is below 128 exactly when the number is.
pub proof fn lemma_varint_first(n: nat)
    ensures
        varint(n).len() >= 1,
        varint(n)[0] < 128 <==> n < 128,
        n < 128 ==> varint(n) == seq![n as u8],
        n >= 128 ==> varint(n)[0] == n % 128 + 128,
        n >= 128 ==> varint(n).drop_first() == varint(n / 128),
    decreases n,
{
    if n >= 128 {
        assert((seq![(n % 128 + 128) as u8] + varint(n / 128)).drop_first() =~= varint(n / 128));
    }
}

/// A varint is never the start of another: a varint followed by anything gives back its number
/// and what follows it.
pub proof fn lemma_varint_prefix(a: nat, b: nat, x: Seq<u8>, y: Seq<u8>)
    requires
        varint(a) + x == varint(b) + y,
    ensures
        a == b,
        x == y,
    decreases a,
{
    lemma_varint_first(a);
    lemma_varint_first(b);
    let s = varint(a) + x;
    assert(s[0] == varint(a)[0]);
    assert(s[0] == varint(b)[0]);
    if a < 128 {
        assert(x =~= s.drop_first());
        assert(y =~= (varint(b) + y).drop_first());
    } else {
        assert(s.drop_first() =~= varint(a / 128) + x);
        assert((varint(b) + y).drop_first() =~= varint(b / 128) + y);
        lemma_varint_prefix(a / 128, b / 128, x, y);
    }
}

/// Texts with the same wire bytes, followed by anything, are the same text followed by the same
/// bytes.
pub proof fn lemma_wire_str_prefix(s: Seq<char>, t: Seq<char>, x: Seq<u8>, y: Seq<u8>)
    requires
        wire_str(s) + x == wire_str(t) + y,
    ensures
        s == t,
        x == y,
{
    let es = vstd::utf8::encode_utf8(s);
    let et = vstd::utf8::encode_utf8(t);
    assert(wire_str(s) + x =~= varint(es.len()) + (es + x));
    assert(wire_str(t) + y =~= varint(et.len()) + (et + y));
    lemma_varint_prefix(es.len(), et.len(), es + x, et + y);
    assert(es =~= (es + x).take(es.len() as int));
    assert(et =~= (et + y).take(et.len() as int));
    assert(x =~= (es + x).skip(es.len() as int));
    assert(y =~= (et + y).skip(et.len() as int));
    vstd::utf8::encode_utf8_decode_utf8(s);
    vstd::utf8::encode_utf8_decode_utf8(t);
}

/// A byte string in the wire format: its length as a varint, then the bytes.
pub open spec fn wire_bytes(b: Seq<u8>) -> Seq<u8> {
    varint(b.len()) + b
}

/// A text in the wire format: the length of its UTF-8 encoding as a varint, then that encoding.
pub open spec fn wire_str(s: Seq<char>) -> Seq<u8> {
    wire_bytes(vstd::utf8::encode_utf8(s))
}

/// The lower-case hex digit for a value below 16.
pub open spec fn hex_digit(d: int) -> char {
    if d < 10 {
        (48 + d) as char
    } else {
        (87 + d) as char
    }
}

/// The lower-case hex text of a byte string: two digits per byte, high nibble first.
pub open spec fn hex_lower(b: Seq<u8>) -> Seq<char>
    decreases b.len(),
{
    if b.len() == 0 {
        seq![]
    } else {
        hex_lower(b.drop_last()) + seq![hex_digit(b.last() as int / 16), hex_digit(b.last() as int % 16)]
    }
}

/// Every byte string has a hex text of twice its length.
pub proof fn lemma_hex_lower_len(b: Seq<u8>)
    ensures
        hex_lower(b).len() == 2 * b.len(),
    decreases b.len(),
{
    if b.len() > 0 {
        lemma_hex_lower_len(b.drop_last());
    }
}

/// The hex text of a prefix is the prefix of the hex text.
pub proof fn lemma_hex_lower_prefix(b: Seq<u8>, n: int)
    requires
        0 <= n <= b.len(),
    ensures
        hex_lower(b.take(n)) == hex_lower(b).take(2 * n),
    decreases b.len(),
{
    lemma_hex_lower_len(b);
    lemma_hex_lower_len(b.take(n));
    if n < b.len() {
        assert(b.drop_last().take(n) == b.take(n));
        lemma_hex_lower_prefix(b.drop_last(), n);
        lemma_hex_lower_len(b.drop_last());
        assert(hex_lower(b).take(2 * n) == hex_lower(b.drop_last()).take(2 * n));
    } else {
        assert(b.take(n) == b);
    }
}

} // verus!
