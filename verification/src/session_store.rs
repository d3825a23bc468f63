//! The session store: an opaque key, the text kept under it, and the second
//! at which the entry expires. It keeps session tokens with the customer they
//! belong to, and verification tokens with the email address they verify.
//!
//! The time to live is set on every write and never read back.

use vstd::prelude::*;
use crate::storage::{SessionWrite, StoreRead};
use crate::text::same_text;

verus! {

/// One entry of the store.
#[derive(Clone, Debug, PartialEq, Eq)]
pub struct SessionEntry {
    pub key: String,
    pub value: String,
    /// The first second at which the entry is gone.
    pub expires_at: u64,
}

/// What is kept under a key: the text, and the first second at which it is
/// gone.
pub type Kept = (Seq<char>, u64);

/// A session store kept in memory.
#[derive(Clone, Debug)]
pub struct SessionStore {
    entries: Vec<SessionEntry>,
}

/// What the first entry with the given key holds, if there is one.
pub open spec fn first_kept(entries: Seq<SessionEntry>, key: Seq<char>) -> Option<Kept>
    decreases entries.len(),
{
    if entries.len() == 0 {
        None
    } else if entries[0].key@ == key {
        Some((entries[0].value@, entries[0].expires_at))
    } else {
        first_kept(entries.subrange(1, entries.len() as int), key)
    }
}

/// The second at which an entry written at `now` with `ttl` seconds to live
/// expires; the last second there is, if the sum is beyond it.
pub open spec fn expiry(now: u64, ttl: u64) -> u64 {
    if now + ttl > u64::MAX {
        u64::MAX
    } else {
        (now + ttl) as u64
    }
}

/// What a read at the second `now` gives for what is kept under a key.
pub open spec fn read_at(kept: Option<Kept>, now: u64) -> Option<Seq<char>> {
    match kept {
        Some((value, expires_at)) => if now < expires_at {
            Some(value)
        } else {
            None
        },
        None => None,
    }
}

proof fn lemma_first_kept_skips(entries: Seq<SessionEntry>, key: Seq<char>, i: int)
    requires
        0 <= i <= entries.len(),
        forall|j: int| 0 <= j < i ==> (#[trigger] entries[j]).key@ != key,
    ensures
        first_kept(entries, key) == first_kept(entries.subrange(i, entries.len() as int), key),
    decreases i,
{
    if i == 0 {
        assert(entries.subrange(0, entries.len() as int) =~= entries);
    } else {
        let rest = entries.subrange(1, entries.len() as int);
        assert forall|j: int| 0 <= j < i - 1 implies (#[trigger] rest[j]).key@ != key by {
            assert(rest[j] == entries[j + 1]);
        }
        lemma_first_kept_skips(rest, key, i - 1);
        assert(rest.subrange(i - 1, rest.len() as int) =~= entries.subrange(
            i,
            entries.len() as int,
        ));
    }
}

proof fn lemma_first_kept_push(entries: Seq<SessionEntry>, entry: SessionEntry, key: Seq<char>)
    ensures
        first_kept(entries.push(entry), key) == (if first_kept(entries, key) is Some {
            first_kept(entries, key)
        } else if entry.key@ == key {
            Some((entry.value@, entry.expires_at))
        } else {
            None
        }),
    decreases entries.len(),
{
    let pushed = entries.push(entry);
    if entries.len() == 0 {
        assert(pushed[0] == entry);
        assert(pushed.subrange(1, pushed.len() as int) =~= Seq::<SessionEntry>::empty());
        assert(first_kept(Seq::<SessionEntry>::empty(), key) is None);
    } else {
        let rest = entries.subrange(1, entries.len() as int);
        assert(pushed[0] == entries[0]);
        assert(pushed.subrange(1, pushed.len() as int) =~= rest.push(entry));
        lemma_first_kept_push(rest, entry, key);
    }
}

proof fn lemma_first_kept_update(
    entries: Seq<SessionEntry>,
    i: int,
    entry: SessionEntry,
    key: Seq<char>,
)
    requires
        0 <= i < entries.len(),
        entry.key@ == entries[i].key@,
        forall|j: int| 0 <= j < i ==> (#[trigger] entries[j]).key@ != entry.key@,
    ensures
        first_kept(entries.update(i, entry), key) == (if key == entry.key@ {
            Some((entry.value@, entry.expires_at))
        } else {
            first_kept(entries, key)
        }),
    decreases i,
{
    let after = entries.update(i, entry);
    let rest = entries.subrange(1, entries.len() as int);
    if i == 0 {
        assert(after.subrange(1, after.len() as int) =~= rest);
    } else {
        assert(after.subrange(1, after.len() as int) =~= rest.update(i - 1, entry));
        assert forall|j: int| 0 <= j < i - 1 implies (#[trigger] rest[j]).key@ != entry.key@ by {
            assert(rest[j] == entries[j + 1]);
        }
        lemma_first_kept_update(rest, i - 1, entry, key);
    }
}

proof fn lemma_first_kept_absent(entries: Seq<SessionEntry>, key: Seq<char>)
    requires
        forall|j: int| 0 <= j < entries.len() ==> (#[trigger] entries[j]).key@ != key,
    ensures
        first_kept(entries, key) is None,
    decreases entries.len(),
{
    if entries.len() > 0 {
        let rest = entries.subrange(1, entries.len() as int);
        assert forall|j: int| 0 <= j < rest.len() implies (#[trigger] rest[j]).key@ != key by {
            assert(rest[j] == entries[j + 1]);
        }
        lemma_first_kept_absent(rest, key);
    }
}

impl View for SessionStore {
    type V = Map<Seq<char>, Kept>;

    closed spec fn view(&self) -> Map<Seq<char>, Kept> {
        Map::new(
            |key: Seq<char>| first_kept(self.entries@, key) is Some,
            |key: Seq<char>| first_kept(self.entries@, key).unwrap(),
        )
    }
}

impl SessionStore {
    /// What a read of a key at the second `now` gives.
    pub open spec fn live(&self, key: Seq<char>, now: u64) -> Option<Seq<char>> {
        if self@.contains_key(key) {
            read_at(Some(self@[key]), now)
        } else {
            None
        }
    }

    /// A store that holds nothing.
    pub fn new() -> (store: SessionStore)
        ensures
            store@ == Map::<Seq<char>, Kept>::empty(),
    {
        let store = SessionStore { entries: Vec::new() };
        assert(store@ =~= Map::<Seq<char>, Kept>::empty());
        store
    }

    /// The place of the first entry with the given key.
    fn position(&self, key: &str) -> (r: Option<usize>)
        ensures
            match r {
                Some(i) => i < self.entries@.len() && self.entries@[i as int].key@ == key@
                    && forall|j: int| 0 <= j < i ==> (#[trigger] self.entries@[j]).key@ != key@,
                None => forall|j: int|
                    0 <= j < self.entries@.len() ==> (#[trigger] self.entries@[j]).key@ != key@,
            },
    {
        let mut i: usize = 0;
        while i < self.entries.len()
            invariant
                i <= self.entries.len(),
                forall|j: int| 0 <= j < i ==> (#[trigger] self.entries@[j]).key@ != key@,
            decreases self.entries.len() - i,
        {
            if same_text(self.entries[i].key.as_str(), key) {
                return Some(i);
            }
            i += 1;
        }
        None
    }

    /// Keeps a text under a key for `ttl` seconds from `now`. What the key
    /// held before is replaced; every other key is left alone.
    pub fn put(&mut self, key: &str, value: &str, ttl: u64, now: u64)
        ensures
            final(self)@ == old(self)@.insert(key@, (value@, expiry(now, ttl))),
    {
        let expires_at = match now.checked_add(ttl) {
            Some(at) => at,
            None => u64::MAX,
        };
        let entry = SessionEntry { key: key.to_string(), value: value.to_string(), expires_at };
        let ghost before = self.entries@;
        match self.position(key) {
            Some(i) => {
                self.entries.set(i, entry);
                proof {
                    assert forall|k: Seq<char>|
                        first_kept(self.entries@, k) == (if k == key@ {
                            Some((value@, expires_at))
                        } else {
                            first_kept(before, k)
                        }) by {
                        lemma_first_kept_update(before, i as int, entry, k);
                    }
                }
            },
            None => {
                self.entries.push(entry);
                proof {
                    lemma_first_kept_absent(before, key@);
                    assert forall|k: Seq<char>|
                        first_kept(self.entries@, k) == (if k == key@ {
                            Some((value@, expires_at))
                        } else {
                            first_kept(before, k)
                        }) by {
                        lemma_first_kept_push(before, entry, k);
                    }
                }
            },
        }
        assert(self@ =~= old(self)@.insert(key@, (value@, expiry(now, ttl))));
    }

    /// Performs a write that a handler asked for.
    pub fn write(&mut self, write: &SessionWrite, now: u64)
        ensures
            final(self)@ == old(self)@.insert(write.token@, (write.value@, expiry(now, write.ttl))),
    {
        self.put(write.token.as_str(), write.value.as_str(), write.ttl, now);
    }

    /// Reads a key at the second `now`: the text kept under it, or the news
    /// that the key is not there, which is also the news for a key whose
    /// entry has expired.
    pub fn get(&self, key: &str, now: u64) -> (r: StoreRead)
        ensures
            match r {
                StoreRead::Found(value) => self.live(key@, now) == Some(value@),
                StoreRead::Missing => self.live(key@, now) is None,
                _ => false,
            },
    {
        match self.position(key) {
            Some(i) => {
                proof {
                    lemma_first_kept_skips(self.entries@, key@, i as int);
                }
                if now < self.entries[i].expires_at {
                    StoreRead::Found(self.entries[i].value.clone())
                } else {
                    StoreRead::Missing
                }
            },
            None => {
                proof {
                    lemma_first_kept_absent(self.entries@, key@);
                }
                StoreRead::Missing
            },
        }
    }

    /// Gives a key that is still there `ttl` seconds from `now` to live, and
    /// tells whether it was there. A key that is gone stays gone.
    pub fn renew(&mut self, key: &str, ttl: u64, now: u64) -> (renewed: bool)
        ensures
            renewed == old(self).live(key@, now) is Some,
            renewed ==> final(self)@ == old(self)@.insert(
                key@,
                (old(self).live(key@, now).unwrap(), expiry(now, ttl)),
            ),
            !renewed ==> final(self)@ == old(self)@,
    {
        match self.get(key, now) {
            StoreRead::Found(value) => {
                self.put(key, value.as_str(), ttl, now);
                true
            },
            _ => false,
        }
    }

    /// Forgets a key. Every other key is left alone.
    pub fn delete(&mut self, key: &str)
        ensures
            final(self)@ == old(self)@.remove(key@),
    {
        let ghost before = self.entries@;
        let mut kept: Vec<SessionEntry> = Vec::new();
        let mut rest: Vec<SessionEntry> = Vec::new();
        core::mem::swap(&mut self.entries, &mut rest);
        while rest.len() > 0
            invariant
                forall|k: Seq<char>|
                    k != key@ ==> first_kept(kept@ + rest@, k) == first_kept(before, k),
                forall|j: int| 0 <= j < kept@.len() ==> (#[trigger] kept@[j]).key@ != key@,
            decreases rest.len(),
        {
            let ghost old_kept = kept@;
            let ghost old_rest = rest@;
            let entry = rest.remove(0);
            if !same_text(entry.key.as_str(), key) {
                kept.push(entry);
                assert(kept@ + rest@ =~= old_kept + old_rest);
            } else {
                proof {
                    assert forall|k: Seq<char>| k != key@ implies first_kept(kept@ + rest@, k)
                        == first_kept(before, k) by {
                        lemma_first_kept_drop(old_kept, entry, rest@, k);
                        assert(old_kept + old_rest =~= old_kept.push(entry) + rest@);
                    }
                }
            }
        }
        self.entries = kept;
        proof {
            assert(kept@ + rest@ =~= kept@);
            lemma_first_kept_absent(kept@, key@);
            assert(self@ =~= old(self)@.remove(key@));
        }
    }
}

proof fn lemma_first_kept_drop(
    left: Seq<SessionEntry>,
    entry: SessionEntry,
    right: Seq<SessionEntry>,
    key: Seq<char>,
)
    requires
        entry.key@ != key,
    ensures
        first_kept(left.push(entry) + right, key) == first_kept(left + right, key),
    decreases left.len(),
{
    if left.len() == 0 {
        let all = left.push(entry) + right;
        assert(all.subrange(1, all.len() as int) =~= right);
        assert(left + right =~= right);
    } else {
        let with = left.push(entry) + right;
        let without = left + right;
        let tail = left.subrange(1, left.len() as int);
        assert(with.subrange(1, with.len() as int) =~= tail.push(entry) + right);
        assert(without.subrange(1, without.len() as int) =~= tail + right);
        lemma_first_kept_drop(tail, entry, right, key);
    }
}

} // verus!
