//! The relay's mailbox store: letters are posted to a mailbox address, fetched from an index on,
//! and dropped once they are older than the maximum age.

use vstd::prelude::*;

verus! {

/// The view of a stored letter: when it was uploaded (nanoseconds on the relay's clock) and its
/// bytes.
pub type EntryView = (u64, Seq<u8>);

/// The view of a mailbox: its address and its letters, oldest first.
pub type MailboxView = (Seq<char>, Seq<EntryView>);

/// A stored letter.
pub struct MailboxEntry {
    pub uploaded_at: u64,
    pub blob: Vec<u8>,
}

impl View for MailboxEntry {
    type V = EntryView;

    open spec fn view(&self) -> EntryView {
        (self.uploaded_at, self.blob@)
    }
}

/// A mailbox: an address and the letters posted to it, oldest first.
pub struct Mailbox {
    pub addr: String,
    pub entries: Vec<MailboxEntry>,
}

/// The views of a list of letters.
pub open spec fn entries_view(entries: Seq<MailboxEntry>) -> Seq<EntryView> {
    entries.map_values(|e: MailboxEntry| e@)
}

impl View for Mailbox {
    type V = MailboxView;

    open spec fn view(&self) -> MailboxView {
        (self.addr@, entries_view(self.entries@))
    }
}

/// All mailboxes of the relay.
pub struct MailboxStore {
    mailboxes: Vec<Mailbox>,
}

impl View for MailboxStore {
    type V = Seq<MailboxView>;

    closed spec fn view(&self) -> Seq<MailboxView> {
        boxes_view(self.mailboxes@)
    }
}

/// The views of a list of mailboxes.
pub open spec fn boxes_view(boxes: Seq<Mailbox>) -> Seq<MailboxView> {
    boxes.map_values(|m: Mailbox| m@)
}

/// No address appears twice.
pub open spec fn distinct_addrs(v: Seq<MailboxView>) -> bool {
    forall|i: int, j: int| 0 <= i < v.len() && 0 <= j < v.len() && i != j ==> #[trigger] v[i].0 != #[trigger] v[j].0
}

/// The position of the mailbox with address `a`, if there is one (the first, though there is at
/// most one).
pub open spec fn find_addr(v: Seq<MailboxView>, a: Seq<char>) -> Option<int>
    decreases v.len(),
{
    if v.len() == 0 {
        None
    } else if v[0].0 == a {
        Some(0)
    } else {
        match find_addr(v.drop_first(), a) {
            Some(i) => Some(i + 1),
            None => None,
        }
    }
}

/// `find_addr` finds the first mailbox with the address, or none when no mailbox has it.
pub proof fn lemma_find_addr(v: Seq<MailboxView>, a: Seq<char>)
    ensures
        match find_addr(v, a) {
            Some(i) => 0 <= i < v.len() && v[i].0 == a && forall|j: int| 0 <= j < i ==> #[trigger] v[j].0 != a,
            None => forall|j: int| 0 <= j < v.len() ==> #[trigger] v[j].0 != a,
        },
    decreases v.len(),
{
    if v.len() > 0 && v[0].0 != a {
        lemma_find_addr(v.drop_first(), a);
        match find_addr(v.drop_first(), a) {
            Some(i) => {
                assert forall|j: int| 0 <= j < i + 1 implies #[trigger] v[j].0 != a by {
                    if j > 0 {
                        assert(v[j] == v.drop_first()[j - 1]);
                    }
                }
            },
            None => {
                assert forall|j: int| 0 <= j < v.len() implies #[trigger] v[j].0 != a by {
                    if j > 0 {
                        assert(v[j] == v.drop_first()[j - 1]);
                    }
                }
            },
        }
    }
}

/// When the mailbox at `i` has address `a` and none before it does, `find_addr` finds `i`.
pub proof fn lemma_find_addr_at(v: Seq<MailboxView>, a: Seq<char>, i: int)
    requires
        0 <= i < v.len(),
        v[i].0 == a,
        forall|j: int| 0 <= j < i ==> #[trigger] v[j].0 != a,
    ensures
        find_addr(v, a) == Some(i),
{
    lemma_find_addr(v, a);
    match find_addr(v, a) {
        Some(k) => {
            if k < i {
                assert(v[k].0 != a);
            }
            if k > i {
                assert(v[i].0 != a);
            }
        },
        None => {
            assert(v[i].0 != a);
        },
    }
}

/// The letters of the mailbox with address `a` (none when there is no such mailbox).
pub open spec fn letters_at(v: Seq<MailboxView>, a: Seq<char>) -> Seq<EntryView> {
    match find_addr(v, a) {
        Some(i) => v[i].1,
        None => seq![],
    }
}

/// The store after `e` is posted to `a`: appended to that mailbox, or in a new mailbox at the end.
pub open spec fn post_spec(v: Seq<MailboxView>, a: Seq<char>, e: EntryView) -> Seq<MailboxView> {
    match find_addr(v, a) {
        Some(i) => v.update(i, (a, v[i].1.push(e))),
        None => v.push((a, seq![e])),
    }
}

/// The bytes of the letters of `a` from index `after` on; none when `after` is past the end.
pub open spec fn get_spec(v: Seq<MailboxView>, a: Seq<char>, after: int) -> Seq<Seq<u8>> {
    let letters = letters_at(v, a);
    if 0 <= after <= letters.len() {
        letters.skip(after).map_values(|e: EntryView| e.1)
    } else {
        seq![]
    }
}

/// Nanoseconds in a second.
pub const NANOS_PER_SEC: u64 = 1_000_000_000;

/// Whether a letter uploaded at `uploaded_at` is at most `max_age` seconds old at `now` (both
/// times in nanoseconds).
pub open spec fn is_fresh(e: EntryView, now: u64, max_age: u64) -> bool {
    (if now >= e.0 { now - e.0 } else { 0 }) <= max_age * NANOS_PER_SEC
}

/// The fresh letters of a list, in their order.
pub open spec fn keep_fresh(es: Seq<EntryView>, now: u64, max_age: u64) -> Seq<EntryView>
    decreases es.len(),
{
    if es.len() == 0 {
        seq![]
    } else if is_fresh(es.last(), now, max_age) {
        keep_fresh(es.drop_last(), now, max_age).push(es.last())
    } else {
        keep_fresh(es.drop_last(), now, max_age)
    }
}

/// The store after cleaning: each mailbox keeps its fresh letters, and mailboxes left empty go.
pub open spec fn clean_spec(v: Seq<MailboxView>, now: u64, max_age: u64) -> Seq<MailboxView>
    decreases v.len(),
{
    if v.len() == 0 {
        seq![]
    } else {
        let rest = clean_spec(v.drop_last(), now, max_age);
        let kept = keep_fresh(v.last().1, now, max_age);
        if kept.len() > 0 {
            rest.push((v.last().0, kept))
        } else {
            rest
        }
    }
}

/// The number of letters in the store.
pub open spec fn total_letters(v: Seq<MailboxView>) -> nat
    decreases v.len(),
{
    if v.len() == 0 {
        0
    } else {
        total_letters(v.drop_last()) + v.last().1.len()
    }
}

/// How often, in seconds, the relay cleans its store.
pub const CLEANUP_INTERVAL_SECS: u64 = 1800;

/// The longest single sleep, in milliseconds, while waiting out an interval; waking this often
/// keeps the wait accurate across system suspend.
pub const MAX_SLEEP_INTERVAL_MS: u64 = 300000;

/// One step of waiting out `duration_ms` milliseconds of which `elapsed_ms` have passed: `None`
/// when the wait is over, else how long to sleep next (the rest, but at most
/// [`MAX_SLEEP_INTERVAL_MS`]).
pub fn sleep_step(elapsed_ms: u64, duration_ms: u64) -> (r: Option<u64>)
    ensures
        elapsed_ms >= duration_ms ==> r is None,
        elapsed_ms < duration_ms ==> r == Some(
            if duration_ms - elapsed_ms < MAX_SLEEP_INTERVAL_MS { (duration_ms - elapsed_ms) as u64 } else { MAX_SLEEP_INTERVAL_MS },
        ),
{
    if elapsed_ms >= duration_ms {
        None
    } else {
        let rest = duration_ms - elapsed_ms;
        if rest < MAX_SLEEP_INTERVAL_MS {
            Some(rest)
        } else {
            Some(MAX_SLEEP_INTERVAL_MS)
        }
    }
}

/// The position of the mailbox with address `addr` in `boxes`.
fn position_in(boxes: &Vec<Mailbox>, addr: &str) -> (r: Option<usize>)
    ensures
        match find_addr(boxes_view(boxes@), addr@) {
            Some(i) => r == Some(i as usize),
            None => r is None,
        },
        r matches Some(i) ==> i < boxes@.len() && boxes_view(boxes@)[i as int].0 == addr@,
        boxes_view(boxes@).len() == boxes@.len(),
        forall|j: int| 0 <= j < boxes@.len() ==> #[trigger] boxes_view(boxes@)[j] == boxes@[j]@,
{
    let ghost v = boxes_view(boxes@);
    let key = String::from_str(addr);
    assert(forall|j: int| 0 <= j < v.len() ==> #[trigger] v[j] == boxes@[j]@);
    let mut i: usize = 0;
    while i < boxes.len()
        invariant
            v == boxes_view(boxes@),
            i <= v.len(),
            v.len() == boxes@.len(),
            forall|j: int| 0 <= j < i ==> #[trigger] v[j].0 != addr@,
            key@ == addr@,
            forall|j: int| 0 <= j < v.len() ==> #[trigger] v[j] == boxes@[j]@,
        decreases v.len() - i,
    {
        assert(v[i as int] == boxes@[i as int]@);
        if boxes[i].addr == key {
            assert(v[i as int].0 == addr@);
            proof {
                lemma_find_addr_at(v, addr@, i as int);
            }
            return Some(i);
        }
        i = i + 1;
    }
    proof {
        lemma_find_addr(v, addr@);
        if find_addr(v, addr@) is Some {
            let k = find_addr(v, addr@)->Some_0;
            assert(v[k].0 != addr@);
        }
    }
    None
}

impl MailboxStore {
    /// No address appears twice.
    #[verifier::type_invariant]
    spec fn wf(self) -> bool {
        distinct_addrs(self@)
    }

    /// An empty store.
    pub fn new() -> (s: MailboxStore)
        ensures
            s@ == Seq::<MailboxView>::empty(),
    {
        let mailboxes: Vec<Mailbox> = Vec::new();
        assert(boxes_view(mailboxes@) =~= Seq::<MailboxView>::empty());
        MailboxStore { mailboxes }
    }

    /// The number of mailboxes.
    pub fn mailbox_count(&self) -> (n: usize)
        ensures
            n == self@.len(),
    {
        self.mailboxes.len()
    }

    /// Post `blob` to the mailbox at `addr`, stamped with the time `now` (in nanoseconds).
    pub fn post(&mut self, addr: String, blob: Vec<u8>, now: u64)
        ensures
            final(self)@ == post_spec(old(self)@, addr@, (now, blob@)),
            distinct_addrs(final(self)@),
    {
        proof {
            use_type_invariant(&*self);
        }
        let ghost a = addr@;
        let ghost e: EntryView = (now, blob@);
        let ghost before = self@;
        let mut boxes: Vec<Mailbox> = Vec::new();
        std::mem::swap(&mut boxes, &mut self.mailboxes);
        assert(boxes_view(boxes@) == before);
        let entry = MailboxEntry { uploaded_at: now, blob };
        match position_in(&boxes, addr.as_str()) {
            Some(i) => {
                let ghost old_boxes = boxes@;
                boxes[i].entries.push(entry);
                proof {
                    lemma_find_addr(before, a);
                    assert(boxes@[i as int].entries@ == old_boxes[i as int].entries@.push(entry));
                    assert(entries_view(boxes@[i as int].entries@) =~= before[i as int].1.push(e));
                    assert(boxes_view(boxes@) =~= before.update(i as int, (a, before[i as int].1.push(e))));
                }
            },
            None => {
                let mut entries: Vec<MailboxEntry> = Vec::new();
                entries.push(entry);
                boxes.push(Mailbox { addr, entries });
                proof {
                    lemma_find_addr(before, a);
                    assert(entries_view(entries@) =~= seq![e]);
                    assert(boxes_view(boxes@) =~= before.push((a, seq![e])));
                }
            },
        }
        proof {
            lemma_post_distinct(before, a, e);
        }
        self.mailboxes = boxes;
    }

    /// The letters of the mailbox at `addr` from index `after` on, oldest first; none when there
    /// is no such mailbox or `after` is past its end.
    pub fn get(&self, addr: &str, after: usize) -> (blobs: Vec<Vec<u8>>)
        ensures
            blobs@.map_values(|b: Vec<u8>| b@) == get_spec(self@, addr@, after as int),
    {
        let mut blobs: Vec<Vec<u8>> = Vec::new();
        match position_in(&self.mailboxes, addr) {
            None => {
                assert(blobs@.map_values(|b: Vec<u8>| b@) =~= get_spec(self@, addr@, after as int));
                blobs
            },
            Some(i) => {
                let entries = &self.mailboxes[i].entries;
                let ghost letters = self@[i as int].1;
                proof {
                    lemma_find_addr(self@, addr@);
                }
                assert(letters_at(self@, addr@) == letters);
                assert(letters == entries_view(entries@));
                assert(letters.len() == entries@.len());
                if after > entries.len() {
                    assert(blobs@.map_values(|b: Vec<u8>| b@) =~= get_spec(self@, addr@, after as int));
                    return blobs;
                }
                let mut k: usize = after;
                while k < entries.len()
                    invariant
                        after <= k <= entries@.len(),
                        letters == entries_view(entries@),
                        letters.len() == entries@.len(),
                        blobs@.len() == k - after,
                        forall|j: int| 0 <= j < blobs@.len() ==> #[trigger] blobs@[j]@ == letters[after + j].1,
                    decreases entries@.len() - k,
                {
                    let b = entries[k].blob.clone();
                    assert(b@ =~= entries@[k as int].blob@);
                    assert(letters[k as int] == entries@[k as int]@);
                    blobs.push(b);
                    k = k + 1;
                }
                let ghost expected = get_spec(self@, addr@, after as int);
                assert(expected == letters.skip(after as int).map_values(|e: EntryView| e.1));
                assert(blobs@.map_values(|b: Vec<u8>| b@) =~= expected);
                blobs
            },
        }
    }

    /// Drop every letter older than `max_age` seconds at `now` (in nanoseconds), and every mailbox
    /// left empty.
    /// Returns how many letters and how many mailboxes were dropped (the letter count saturating at
    /// `usize::MAX`).
    pub fn cleanup(&mut self, now: u64, max_age: u64) -> (removed: (usize, usize))
        ensures
            distinct_addrs(final(self)@),
            final(self)@ == clean_spec(old(self)@, now, max_age),
            removed.1 == old(self)@.len() - final(self)@.len(),
            removed.0 == if total_letters(old(self)@) - total_letters(final(self)@) <= usize::MAX {
                total_letters(old(self)@) - total_letters(final(self)@)
            } else {
                usize::MAX as int
            },
    {
        proof {
            use_type_invariant(&*self);
        }
        let ghost v = self@;
        let n = self.mailboxes.len();
        let mut kept_boxes: Vec<Mailbox> = Vec::new();
        let mut removed_entries: usize = 0;
        let mut i: usize = 0;
        assert(forall|j: int| 0 <= j < v.len() ==> #[trigger] v[j] == self.mailboxes@[j]@);
        while i < n
            invariant
                n == self.mailboxes@.len(),
                v == self@,
                v.len() == n,
                i <= n,
                forall|j: int| 0 <= j < v.len() ==> #[trigger] v[j] == self.mailboxes@[j]@,
                kept_boxes@.map_values(|m: Mailbox| m@) == clean_spec(v.take(i as int), now, max_age),
                removed_entries == if total_letters(v.take(i as int)) - total_letters(clean_spec(v.take(i as int), now, max_age)) <= usize::MAX {
                    total_letters(v.take(i as int)) - total_letters(clean_spec(v.take(i as int), now, max_age))
                } else {
                    usize::MAX as int
                },
                total_letters(clean_spec(v.take(i as int), now, max_age)) <= total_letters(v.take(i as int)),
            decreases n - i,
        {
            let mb = &self.mailboxes[i];
            let ghost es = v[i as int].1;
            assert(es == entries_view(mb.entries@));
            let mut kept: Vec<MailboxEntry> = Vec::new();
            let mut j: usize = 0;
            while j < mb.entries.len()
                invariant
                    j <= mb.entries@.len(),
                    es == entries_view(mb.entries@),
                    es.len() == mb.entries@.len(),
                    entries_view(kept@) == keep_fresh(es.take(j as int), now, max_age),
                decreases mb.entries@.len() - j,
            {
                let e = &mb.entries[j];
                let age: u64 = if now >= e.uploaded_at { now - e.uploaded_at } else { 0 };
                assert(es.take(j + 1).drop_last() == es.take(j as int));
                assert(es.take(j + 1).last() == e@);
                if (age as u128) <= (max_age as u128) * (NANOS_PER_SEC as u128) {
                    let blob = e.blob.clone();
                    assert(blob@ =~= e.blob@);
                    kept.push(MailboxEntry { uploaded_at: e.uploaded_at, blob });
                    assert(entries_view(kept@) =~= keep_fresh(es.take(j as int), now, max_age).push(e@));
                }
                j = j + 1;
            }
            assert(es.take(es.len() as int) == es);
            proof {
                lemma_keep_fresh_len(es, now, max_age);
            }
            let ghost w = v.take(i as int);
            let ghost w2 = v.take(i + 1);
            assert(w2.drop_last() == w);
            assert(w2.last() == v[i as int]);
            let dropped = mb.entries.len() - kept.len();
            removed_entries = removed_entries.saturating_add(dropped);
            if kept.len() > 0 {
                let addr = mb.addr.clone();
                kept_boxes.push(Mailbox { addr, entries: kept });
                proof {
                    lemma_total_push(clean_spec(w, now, max_age), (v[i as int].0, keep_fresh(es, now, max_age)));
                }
                assert(kept_boxes@.map_values(|m: Mailbox| m@) =~= clean_spec(w2, now, max_age));
            } else {
                assert(kept_boxes@.map_values(|m: Mailbox| m@) =~= clean_spec(w2, now, max_age));
            }
            proof {
                lemma_total_push(w, v[i as int]);
            }
            i = i + 1;
        }
        assert(v.take(n as int) == v);
        proof {
            lemma_clean_addrs(v, now, max_age);
        }
        self.mailboxes = kept_boxes;
        let removed_boxes = n - self.mailboxes.len();
        (removed_entries, removed_boxes)
    }
}


/// Cleaning a list of letters keeps exactly its fresh letters, in their order: it is the list
/// filtered by freshness.
pub proof fn lemma_keep_fresh_is_filter(es: Seq<EntryView>, now: u64, max_age: u64)
    ensures
        keep_fresh(es, now, max_age) == es.filter(|e: EntryView| is_fresh(e, now, max_age)),
    decreases es.len(),
{
    let f = |e: EntryView| is_fresh(e, now, max_age);
    reveal(Seq::filter);
    if es.len() == 0 {
        assert(es.filter(f) == es);
        assert(keep_fresh(es, now, max_age) =~= es);
    } else {
        lemma_keep_fresh_is_filter(es.drop_last(), now, max_age);
        assert(es.drop_last().filter(f) == keep_fresh(es.drop_last(), now, max_age));
        if f(es.last()) {
            assert(es.filter(f) == es.drop_last().filter(f).push(es.last()));
        } else {
            assert(es.filter(f) == es.drop_last().filter(f));
        }
    }
}

/// Cleaning leaves a list whose letters are all fresh exactly as it was, order included.
pub proof fn lemma_keep_fresh_all_kept(es: Seq<EntryView>, now: u64, max_age: u64)
    requires
        forall|i: int| 0 <= i < es.len() ==> is_fresh(#[trigger] es[i], now, max_age),
    ensures
        keep_fresh(es, now, max_age) == es,
    decreases es.len(),
{
    if es.len() > 0 {
        let d = es.drop_last();
        assert forall|i: int| 0 <= i < d.len() implies is_fresh(#[trigger] d[i], now, max_age) by {
            assert(d[i] == es[i]);
        }
        lemma_keep_fresh_all_kept(d, now, max_age);
        assert(is_fresh(es[es.len() - 1], now, max_age));
        assert(d.push(es.last()) =~= es);
    }
}

/// A mailbox whose letters are all fresh comes out of cleaning with the same letters in the same
/// order, so reads by index (cursors) still find the same letters.
pub proof fn lemma_clean_keeps_fresh_mailbox(v: Seq<MailboxView>, now: u64, max_age: u64, a: Seq<char>)
    requires
        distinct_addrs(v),
        forall|i: int| 0 <= i < letters_at(v, a).len() ==> is_fresh(#[trigger] letters_at(v, a)[i], now, max_age),
    ensures
        letters_at(clean_spec(v, now, max_age), a) == letters_at(v, a),
        forall|after: int| get_spec(clean_spec(v, now, max_age), a, after) == #[trigger] get_spec(v, a, after),
{
    lemma_clean_letters(v, now, max_age, a);
    lemma_keep_fresh_all_kept(letters_at(v, a), now, max_age);
}

/// Cleaning never adds letters to a list.
pub proof fn lemma_keep_fresh_len(es: Seq<EntryView>, now: u64, max_age: u64)
    ensures
        keep_fresh(es, now, max_age).len() <= es.len(),
    decreases es.len(),
{
    if es.len() > 0 {
        lemma_keep_fresh_len(es.drop_last(), now, max_age);
    }
}

/// Every letter that cleaning keeps is fresh.
pub proof fn lemma_keep_fresh_all_fresh(es: Seq<EntryView>, now: u64, max_age: u64)
    ensures
        forall|k: int|
            0 <= k < keep_fresh(es, now, max_age).len() ==> is_fresh(
                #[trigger] keep_fresh(es, now, max_age)[k],
                now,
                max_age,
            ),
    decreases es.len(),
{
    if es.len() > 0 {
        lemma_keep_fresh_all_fresh(es.drop_last(), now, max_age);
        let prev = keep_fresh(es.drop_last(), now, max_age);
        let cur = keep_fresh(es, now, max_age);
        assert forall|k: int| 0 <= k < cur.len() implies is_fresh(#[trigger] cur[k], now, max_age) by {
            if is_fresh(es.last(), now, max_age) {
                assert(cur == prev.push(es.last()));
                if k < prev.len() {
                    assert(cur[k] == prev[k]);
                }
            } else {
                assert(cur == prev);
            }
        }
    }
}

/// Cleaning keeps each mailbox's address, drops mailboxes and never adds any: every mailbox after
/// cleaning has the address of one before, and no address appears twice afterwards when none did
/// before.
pub proof fn lemma_clean_addrs(v: Seq<MailboxView>, now: u64, max_age: u64)
    ensures
        clean_spec(v, now, max_age).len() <= v.len(),
        forall|k: int|
            0 <= k < clean_spec(v, now, max_age).len() ==> exists|j: int|
                0 <= j < v.len() && #[trigger] clean_spec(v, now, max_age)[k].0 == v[j].0,
        distinct_addrs(v) ==> distinct_addrs(clean_spec(v, now, max_age)),
    decreases v.len(),
{
    if v.len() > 0 {
        let w = v.drop_last();
        lemma_clean_addrs(w, now, max_age);
        let rest = clean_spec(w, now, max_age);
        let c = clean_spec(v, now, max_age);
        assert forall|k: int| 0 <= k < c.len() implies exists|j: int|
            0 <= j < v.len() && #[trigger] c[k].0 == v[j].0 by {
            if k < rest.len() {
                assert(c[k] == rest[k]);
                let j = choose|j: int| 0 <= j < w.len() && #[trigger] rest[k].0 == w[j].0;
                assert(v[j] == w[j]);
            } else {
                assert(c[k].0 == v[v.len() - 1].0);
            }
        }
        if distinct_addrs(v) {
            assert(distinct_addrs(w)) by {
                assert forall|a: int, b: int| 0 <= a < w.len() && 0 <= b < w.len() && a != b implies #[trigger] w[a].0
                    != #[trigger] w[b].0 by {
                    assert(w[a] == v[a] && w[b] == v[b]);
                }
            }
            assert forall|a: int, b: int| 0 <= a < c.len() && 0 <= b < c.len() && a != b implies #[trigger] c[a].0
                != #[trigger] c[b].0 by {
                if a < rest.len() && b < rest.len() {
                    assert(c[a] == rest[a] && c[b] == rest[b]);
                } else if a < rest.len() {
                    let j = choose|j: int| 0 <= j < w.len() && #[trigger] rest[a].0 == w[j].0;
                    assert(c[a] == rest[a]);
                    assert(v[j] == w[j]);
                    assert(v[j].0 != v[v.len() - 1].0);
                } else {
                    let j = choose|j: int| 0 <= j < w.len() && #[trigger] rest[b].0 == w[j].0;
                    assert(c[b] == rest[b]);
                    assert(v[j] == w[j]);
                    assert(v[j].0 != v[v.len() - 1].0);
                }
            }
        }
    }
}

/// The letters at `a` after a mailbox is appended whose address no earlier mailbox has.
pub proof fn lemma_letters_at_push(v: Seq<MailboxView>, m: MailboxView, a: Seq<char>)
    requires
        forall|j: int| 0 <= j < v.len() ==> #[trigger] v[j].0 != m.0,
    ensures
        letters_at(v.push(m), a) == if m.0 == a { m.1 } else { letters_at(v, a) },
{
    let w = v.push(m);
    lemma_find_addr(v, a);
    lemma_find_addr(w, a);
    if m.0 == a {
        assert forall|j: int| 0 <= j < v.len() implies #[trigger] w[j].0 != a by {
            assert(w[j] == v[j]);
        }
        lemma_find_addr_at(w, a, v.len() as int);
    } else {
        match find_addr(v, a) {
            Some(i) => {
                assert forall|j: int| 0 <= j < i implies #[trigger] w[j].0 != a by {
                    assert(w[j] == v[j]);
                }
                assert(w[i] == v[i]);
                lemma_find_addr_at(w, a, i);
            },
            None => {
                match find_addr(w, a) {
                    Some(k) => {
                        if k < v.len() {
                            assert(w[k] == v[k]);
                        }
                    },
                    None => {},
                }
            },
        }
    }
}

/// What cleaning leaves at an address: exactly the fresh letters that were there, in their order.
pub proof fn lemma_clean_letters(v: Seq<MailboxView>, now: u64, max_age: u64, a: Seq<char>)
    requires
        distinct_addrs(v),
    ensures
        letters_at(clean_spec(v, now, max_age), a) == keep_fresh(letters_at(v, a), now, max_age),
    decreases v.len(),
{
    if v.len() == 0 {
        assert(keep_fresh(seq![], now, max_age) == Seq::<EntryView>::empty());
    } else {
        let w = v.drop_last();
        let m = v.last();
        assert(distinct_addrs(w)) by {
            assert forall|x: int, y: int| 0 <= x < w.len() && 0 <= y < w.len() && x != y implies #[trigger] w[x].0
                != #[trigger] w[y].0 by {
                assert(w[x] == v[x] && w[y] == v[y]);
            }
        }
        assert forall|j: int| 0 <= j < w.len() implies #[trigger] w[j].0 != m.0 by {
            assert(w[j] == v[j]);
        }
        assert(v == w.push(m));
        lemma_letters_at_push(w, m, a);
        lemma_clean_letters(w, now, max_age, a);
        lemma_clean_addrs(w, now, max_age);
        let rest = clean_spec(w, now, max_age);
        let kept = keep_fresh(m.1, now, max_age);
        assert forall|k: int| 0 <= k < rest.len() implies #[trigger] rest[k].0 != m.0 by {
            let j = choose|j: int| 0 <= j < w.len() && #[trigger] rest[k].0 == w[j].0;
        }
        if kept.len() > 0 {
            lemma_letters_at_push(rest, (m.0, kept), a);
        }
        if m.0 == a {
            lemma_find_addr(w, a);
            lemma_find_addr(rest, a);
            assert(letters_at(w, a) == Seq::<EntryView>::empty());
            assert(keep_fresh(Seq::<EntryView>::empty(), now, max_age) == Seq::<EntryView>::empty());
            assert(letters_at(rest, a) == Seq::<EntryView>::empty());
        }
    }
}

/// Posting never puts an address in the store twice.
pub proof fn lemma_post_distinct(v: Seq<MailboxView>, a: Seq<char>, e: EntryView)
    requires
        distinct_addrs(v),
    ensures
        distinct_addrs(post_spec(v, a, e)),
{
    lemma_find_addr(v, a);
    let w = post_spec(v, a, e);
    match find_addr(v, a) {
        Some(i) => {
            assert forall|j: int, k: int| 0 <= j < w.len() && 0 <= k < w.len() && j != k implies #[trigger] w[j].0 != #[trigger] w[k].0 by {
                assert(w[j].0 == v[j].0);
                assert(w[k].0 == v[k].0);
            }
        },
        None => {
            assert forall|j: int, k: int| 0 <= j < w.len() && 0 <= k < w.len() && j != k implies #[trigger] w[j].0 != #[trigger] w[k].0 by {
                if j < v.len() && k < v.len() {
                    assert(w[j] == v[j] && w[k] == v[k]);
                } else if j < v.len() {
                    assert(w[j] == v[j]);
                } else {
                    assert(w[k] == v[k]);
                }
            }
        },
    }
}

/// A letter posted to a mailbox is what a read from the mailbox's previous length on gives back,
/// and a post leaves every other mailbox as it was.
pub proof fn lemma_post_then_get(v: Seq<MailboxView>, a: Seq<char>, e: EntryView, b: Seq<char>)
    requires
        distinct_addrs(v),
    ensures
        letters_at(post_spec(v, a, e), a) == letters_at(v, a).push(e),
        get_spec(post_spec(v, a, e), a, letters_at(v, a).len() as int) == seq![e.1],
        b != a ==> letters_at(post_spec(v, a, e), b) == letters_at(v, b),
{
    let w = post_spec(v, a, e);
    lemma_find_addr(v, a);
    lemma_find_addr(v, b);
    match find_addr(v, a) {
        Some(i) => {
            assert forall|j: int| 0 <= j < i implies #[trigger] w[j].0 != a by {
                assert(w[j] == v[j]);
            }
            lemma_find_addr_at(w, a, i);
            if b != a {
                match find_addr(v, b) {
                    Some(k) => {
                        assert forall|j: int| 0 <= j < k implies #[trigger] w[j].0 != b by {
                            if j != i {
                                assert(w[j] == v[j]);
                            }
                        }
                        assert(k != i);
                        assert(w[k] == v[k]);
                        lemma_find_addr_at(w, b, k);
                    },
                    None => {
                        lemma_find_addr(w, b);
                        match find_addr(w, b) {
                            Some(k) => {
                                if k != i {
                                    assert(w[k] == v[k]);
                                }
                            },
                            None => {},
                        }
                    },
                }
            }
        },
        None => {
            lemma_letters_at_push(v, (a, seq![e]), a);
            lemma_letters_at_push(v, (a, seq![e]), b);
            assert(letters_at(v, a) == Seq::<EntryView>::empty());
        },
    }
    let letters = letters_at(w, a);
    assert(letters.skip(letters.len() - 1) =~= seq![e]);
    assert(letters.skip(letters.len() - 1).map_values(|x: EntryView| x.1) =~= seq![e.1]);
}

/// The number of letters in a list of mailboxes grows by the letters of an appended one.
proof fn lemma_total_push(v: Seq<MailboxView>, m: MailboxView)
    ensures
        total_letters(v.push(m)) == total_letters(v) + m.1.len(),
{
    assert(v.push(m).drop_last() == v);
}
} // verus!
