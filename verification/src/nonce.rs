//! The nonce store: a per-identity, monotonically increasing replay
//! counter.  An entry is created lazily at zero on first use and mutated
//! only by the read-and-increment operation; a check consumes exactly one
//! nonce, whether or not the signatures it goes on to verify are accepted.

use vstd::prelude::*;

use crate::public_types::NonceKey;

verus! {

/// The counter table, keyed by the numeric identity of a [`NonceKey`].
#[derive(Clone, Debug)]
pub struct NonceStore {
    pub entries: Vec<(u64, u64)>,
}

/// The counter an identity currently holds in a store state: the value at
/// its first entry, or zero for an identity the store has not seen.
pub open spec fn nonce_of(entries: Seq<(u64, u64)>, key: u64) -> u64
    decreases entries.len(),
{
    if entries.len() == 0 {
        0
    } else if entries[0].0 == key {
        entries[0].1
    } else {
        nonce_of(entries.skip(1), key)
    }
}

impl View for NonceStore {
    type V = Seq<(u64, u64)>;

    open spec fn view(&self) -> Seq<(u64, u64)> {
        self.entries@
    }
}

/// The first entry of an identity decides its counter.
proof fn lemma_nonce_of_first_match(s: Seq<(u64, u64)>, i: int, key: u64)
    requires
        0 <= i < s.len(),
        s[i].0 == key,
        forall|j: int| 0 <= j < i ==> s[j].0 != key,
    ensures
        nonce_of(s, key) == s[i].1,
    decreases i,
{
    if i == 0 {
    } else {
        assert(s.skip(1)[i - 1] == s[i]);
        assert(forall|j: int| 0 <= j < i - 1 ==> s.skip(1)[j] == s[j + 1]);
        lemma_nonce_of_first_match(s.skip(1), i - 1, key);
    }
}

/// An identity with no entry holds counter zero.
proof fn lemma_nonce_of_absent(s: Seq<(u64, u64)>, key: u64)
    requires
        forall|j: int| 0 <= j < s.len() ==> s[j].0 != key,
    ensures
        nonce_of(s, key) == 0,
    decreases s.len(),
{
    if s.len() != 0 {
        assert(forall|j: int| 0 <= j < s.skip(1).len() ==> s.skip(1)[j] == s[j + 1]);
        lemma_nonce_of_absent(s.skip(1), key);
    }
}

/// Overwriting an identity's first entry sets its counter and leaves every
/// other identity's counter alone.
proof fn lemma_nonce_of_update(s: Seq<(u64, u64)>, i: int, key: u64, w: u64)
    requires
        0 <= i < s.len(),
        s[i].0 == key,
        forall|j: int| 0 <= j < i ==> s[j].0 != key,
    ensures
        nonce_of(s.update(i, (key, w)), key) == w,
        forall|k: u64| k != key ==> nonce_of(s.update(i, (key, w)), k) == nonce_of(s, k),
    decreases i,
{
    let t = s.update(i, (key, w));
    if i == 0 {
        assert(t.skip(1) =~= s.skip(1));
        assert forall|k: u64| k != key implies nonce_of(t, k) == nonce_of(s, k) by {
            assert(nonce_of(t, k) == nonce_of(t.skip(1), k));
            assert(nonce_of(s, k) == nonce_of(s.skip(1), k));
        }
    } else {
        assert(t.skip(1) =~= s.skip(1).update(i - 1, (key, w)));
        assert(s.skip(1)[i - 1] == s[i]);
        assert(forall|j: int| 0 <= j < i - 1 ==> s.skip(1)[j] == s[j + 1]);
        lemma_nonce_of_update(s.skip(1), i - 1, key, w);
        assert(t[0] == s[0]);
        assert forall|k: u64| k != key implies nonce_of(t, k) == nonce_of(s, k) by {
            if s[0].0 == k {
                assert(nonce_of(t, k) == t[0].1);
                assert(nonce_of(s, k) == s[0].1);
            } else {
                assert(nonce_of(t, k) == nonce_of(t.skip(1), k));
                assert(nonce_of(s, k) == nonce_of(s.skip(1), k));
            }
        }
    }
}

/// Appending an entry for a fresh identity sets its counter and leaves
/// every other identity's counter alone.
proof fn lemma_nonce_of_push(s: Seq<(u64, u64)>, key: u64, w: u64)
    requires
        forall|j: int| 0 <= j < s.len() ==> s[j].0 != key,
    ensures
        nonce_of(s.push((key, w)), key) == w,
        forall|k: u64| k != key ==> nonce_of(s.push((key, w)), k) == nonce_of(s, k),
    decreases s.len(),
{
    let t = s.push((key, w));
    if s.len() == 0 {
        assert(t.skip(1) =~= Seq::<(u64, u64)>::empty());
        assert forall|k: u64| k != key implies nonce_of(t, k) == nonce_of(s, k) by {
            assert(nonce_of(t, k) == nonce_of(t.skip(1), k));
        }
    } else {
        assert(t.skip(1) =~= s.skip(1).push((key, w)));
        assert(forall|j: int| 0 <= j < s.skip(1).len() ==> s.skip(1)[j] == s[j + 1]);
        lemma_nonce_of_push(s.skip(1), key, w);
        assert(t[0] == s[0]);
        assert forall|k: u64| k != key implies nonce_of(t, k) == nonce_of(s, k) by {
            if s[0].0 == k {
                assert(nonce_of(t, k) == t[0].1);
                assert(nonce_of(s, k) == s[0].1);
            } else {
                assert(nonce_of(t, k) == nonce_of(t.skip(1), k));
                assert(nonce_of(s, k) == nonce_of(s.skip(1), k));
            }
        }
    }
}

impl NonceStore {
    /// An empty store: every identity holds counter zero.
    pub fn new() -> (r: NonceStore)
        ensures
            forall|k: u64| nonce_of(r@, k) == 0,
            r@.len() == 0,
    {
        NonceStore { entries: Vec::new() }
    }
}

/// Reads an identity's current counter without consuming it.
pub fn current_nonce(store: &NonceStore, key: &NonceKey) -> (r: u64)
    ensures
        r == nonce_of(store@, key.id),
{
    let mut i: usize = 0;
    while i < store.entries.len()
        invariant
            i <= store.entries.len(),
            forall|j: int| 0 <= j < i ==> store.entries@[j].0 != key.id,
        decreases store.entries.len() - i,
    {
        if store.entries[i].0 == key.id {
            proof {
                lemma_nonce_of_first_match(store.entries@, i as int, key.id);
            }
            return store.entries[i].1;
        }
        i = i + 1;
    }
    proof {
        lemma_nonce_of_absent(store.entries@, key.id);
    }
    0
}

/// Returns the identity's current counter and atomically advances the
/// stored counter past it.  Each authorization check calls this exactly
/// once, before any signature is examined; a later rejection does not roll
/// the counter back.
pub fn read_and_increment_nonce(store: &mut NonceStore, key: &NonceKey) -> (r: u64)
    requires
        nonce_of(old(store)@, key.id) < u64::MAX,
    ensures
        r == nonce_of(old(store)@, key.id),
        nonce_of(final(store)@, key.id) == r + 1,
        forall|k: u64| k != key.id ==> nonce_of(final(store)@, k) == nonce_of(old(store)@, k),
{
    let mut i: usize = 0;
    while i < store.entries.len()
        invariant
            store@ == old(store)@,
            nonce_of(old(store)@, key.id) < u64::MAX,
            i <= store.entries.len(),
            forall|j: int| 0 <= j < i ==> store.entries@[j].0 != key.id,
        decreases store.entries.len() - i,
    {
        if store.entries[i].0 == key.id {
            let n = store.entries[i].1;
            proof {
                assert(store.entries@ == old(store)@);
                lemma_nonce_of_first_match(store.entries@, i as int, key.id);
                assert(n == nonce_of(old(store)@, key.id));
                assert(n < u64::MAX);
                lemma_nonce_of_update(store.entries@, i as int, key.id, (n + 1) as u64);
            }
            store.entries[i] = (key.id, n + 1);
            return n;
        }
        i = i + 1;
    }
    proof {
        lemma_nonce_of_absent(store.entries@, key.id);
        lemma_nonce_of_push(store.entries@, key.id, 1);
    }
    store.entries.push((key.id, 1));
    0
}

} // verus!
