//! Domain-separation labels: every key the library derives is bound to one of these.

use vstd::prelude::*;
use vstd::string::StringSliceAdditionalSpecFns;

verus! {

/// Label of the key that wraps a sealed box.
pub const SEAL: &'static str = "onlyfriends/v1/seal";

/// Label of the Ed25519 signing key derived from a master seed.
pub const IDENTITY_ED25519: &'static str = "onlyfriends/v1/identity/ed25519";

/// Label of the X25519 key-agreement key derived from a master seed.
pub const IDENTITY_X25519: &'static str = "onlyfriends/v1/identity/x25519";

/// Label of the pairwise root that two friends share.
pub const PAIRWISE: &'static str = "onlyfriends/v1/pairwise";

/// Label of the mailbox addresses derived from a pairwise root.
pub const MAILBOX: &'static str = "onlyfriends/v1/mailbox";

} // verus!

verus! {

/// The bytes of [`SEAL`].
pub open spec fn seal_label() -> Seq<u8> {
    SEAL.spec_bytes()
}

/// The bytes of [`IDENTITY_ED25519`].
pub open spec fn identity_ed25519_label() -> Seq<u8> {
    IDENTITY_ED25519.spec_bytes()
}

/// The bytes of [`IDENTITY_X25519`].
pub open spec fn identity_x25519_label() -> Seq<u8> {
    IDENTITY_X25519.spec_bytes()
}

/// The bytes of [`PAIRWISE`].
pub open spec fn pairwise_label() -> Seq<u8> {
    PAIRWISE.spec_bytes()
}

/// The bytes of [`MAILBOX`].
pub open spec fn mailbox_label() -> Seq<u8> {
    MAILBOX.spec_bytes()
}

} // verus!
