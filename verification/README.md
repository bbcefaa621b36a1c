# onlyfriends

A private social network between friends: posts, profiles, comments and reactions are
encrypted end to end and exchanged through an untrusted relay that only stores opaque letters
in mailboxes.

- `src/` is the library, verified with Verus: identities and keys, sealed boxes and envelopes,
  the pairwise root of a friendship and the mailbox addresses derived from it, profiles and
  responses with their signatures, the "add friend" links, the relay's mailbox store, and the
  decisions an account makes while sending and syncing. The calls into the cryptographic and
  encoding crates are gathered in `src/primitives.rs`, each behind a trusted contract.
- The relay's mailboxes are a `Vec` of mailboxes whose addresses are all different (a type
  invariant), not a `HashMap` keyed by address: with a `String` key, Verus proves next to nothing
  about what such a map holds, and the mailbox laws (what a read gives back after a post, what
  cleaning keeps) need exactly that. Letters are stamped in nanoseconds on the relay's clock.
- `app/` is the program around it: the relay's HTTP server, the relay client, SQLite storage,
  the account that drives storage and the relay, and the serde forms of the wire types.
- `tests/` exercises the library with the real outside crates linked.
