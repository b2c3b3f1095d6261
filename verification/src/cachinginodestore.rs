//! A cache of the most recently used inodes in front of an inode store.
//!
//! The cache writes back: an inode that is put stays in the cache alone
//! until the cache, being full, drops it for another inode. Only then is it
//! put into the store behind the cache.

use crate::error::IoError;
use crate::inode::{Ino, Inode};
use crate::inodestore::InodeStore;
use lru::LruCache;
use std::num::NonZeroUsize;
use vstd::prelude::*;

verus! {

/// `lru::LruCache`, the cache of the `lru` crate. Nothing of its inside is
/// known here: what it holds is spoken of through `lru_entries` and
/// `lru_capacity`.
#[verifier::external_type_specification]
#[verifier::external_body]
#[verifier::reject_recursive_types(K)]
#[verifier::reject_recursive_types(V)]
#[verifier::reject_recursive_types(S)]
pub struct ExLruCache<K, V, S>(LruCache<K, V, S>);

/// `lru::DefaultHasher`, the hasher with which an `lru::LruCache` finds its
/// keys where none is named. Nothing of it is known or used here.
#[verifier::external_type_specification]
#[verifier::external_body]
pub struct ExDefaultHasher(lru::DefaultHasher);

/// The largest capacity that a cache is made with here. The table of a
/// cache is made for its whole capacity at once, and the making panics where
/// the table would not fit into the address space; a table of this capacity
/// fits with room to spare.
pub const MAX_CAPACITY: usize = usize::MAX / 128;

/// The entries of a cache, each a key with its value, from the most
/// recently used to the least recently used.
pub uninterp spec fn lru_entries(cache: LruCache<u64, Inode>) -> Seq<(u64, Inode)>;

/// The number of entries that a cache was made to hold at most.
pub uninterp spec fn lru_capacity(cache: LruCache<u64, Inode>) -> nat;

/// The place of the first entry with key `key` in `entries`, and the length
/// of `entries` where there is none.
pub open spec fn position(entries: Seq<(u64, Inode)>, key: u64) -> int
    decreases entries.len(),
{
    if entries.len() == 0 || entries[0].0 == key {
        0
    } else {
        1 + position(entries.skip(1), key)
    }
}

/// Whether `entries` has an entry with key `key`.
pub open spec fn holds(entries: Seq<(u64, Inode)>, key: u64) -> bool {
    position(entries, key) < entries.len()
}

/// The entries of a cache of `capacity` entries after `value` is pushed under
/// `key`, and what the push hands back.
///
/// The new entry becomes the most recently used one. An entry with the same
/// key is replaced and handed back. Where there is none and the cache is
/// full, the least recently used entry is dropped and handed back.
pub open spec fn pushed(entries: Seq<(u64, Inode)>, capacity: nat, key: u64, value: Inode) -> (
    Seq<(u64, Inode)>,
    Option<(u64, Inode)>,
) {
    let at = position(entries, key);
    if at < entries.len() {
        (seq![(key, value)] + entries.remove(at), Some((key, entries[at].1)))
    } else if entries.len() == capacity {
        (seq![(key, value)] + entries.drop_last(), Some(entries.last()))
    } else {
        (seq![(key, value)] + entries, None)
    }
}

/// The entries of a cache after the entry with key `key` is used: it
/// becomes the most recently used one, and nothing changes where there is no
/// such entry.
pub open spec fn touched(entries: Seq<(u64, Inode)>, key: u64) -> Seq<(u64, Inode)> {
    let at = position(entries, key);
    if at < entries.len() {
        seq![entries[at]] + entries.remove(at)
    } else {
        entries
    }
}

/// Whether `entries` can be the entries of a cache of `capacity` entries
/// that holds inodes under their numbers: no more than `capacity` entries,
/// no key twice, and each inode under its own number.
pub open spec fn well_formed(entries: Seq<(u64, Inode)>, capacity: nat) -> bool {
    &&& 0 < capacity
    &&& entries.len() <= capacity
    &&& forall|i: int, j: int|
        0 <= i < j < entries.len() ==> entries[i].0 != entries[j].0
    &&& forall|i: int| 0 <= i < entries.len() ==> (#[trigger] entries[i]).1.ino.0 == entries[i].0
}

/// `position` finds the first entry with the key.
pub proof fn lemma_position(entries: Seq<(u64, Inode)>, key: u64)
    ensures
        0 <= position(entries, key) <= entries.len(),
        holds(entries, key) ==> entries[position(entries, key)].0 == key,
        forall|i: int| 0 <= i < position(entries, key) ==> (#[trigger] entries[i]).0 != key,
    decreases entries.len(),
{
    if entries.len() != 0 && entries[0].0 != key {
        let rest = entries.skip(1);
        lemma_position(rest, key);
        assert forall|i: int| 0 <= i < position(entries, key) implies (#[trigger] entries[i]).0
            != key by {
            if i > 0 {
                assert(rest[i - 1] == entries[i]);
            }
        }
    }
}

/// An entry with the key is where `position` says, where no key comes
/// twice.
pub proof fn lemma_position_of(entries: Seq<(u64, Inode)>, at: int)
    requires
        0 <= at < entries.len(),
        forall|i: int, j: int| 0 <= i < j < entries.len() ==> entries[i].0 != entries[j].0,
    ensures
        position(entries, entries[at].0) == at,
{
    lemma_position(entries, entries[at].0);
}

/// A push keeps the entries well formed, where the inode is pushed under
/// its own number.
pub proof fn lemma_pushed_well_formed(
    entries: Seq<(u64, Inode)>,
    capacity: nat,
    key: u64,
    value: Inode,
)
    requires
        well_formed(entries, capacity),
        value.ino.0 == key,
    ensures
        well_formed(pushed(entries, capacity, key, value).0, capacity),
{
    lemma_position(entries, key);
    let after = pushed(entries, capacity, key, value).0;
    assert forall|i: int, j: int| 0 <= i < j < after.len() implies after[i].0 != after[j].0 by {}
    assert forall|i: int| 0 <= i < after.len() implies (#[trigger] after[i]).1.ino.0
        == after[i].0 by {}
}

/// Using an entry keeps the entries well formed.
pub proof fn lemma_touched_well_formed(entries: Seq<(u64, Inode)>, capacity: nat, key: u64)
    requires
        well_formed(entries, capacity),
    ensures
        well_formed(touched(entries, key), capacity),
        forall|other: u64| holds(touched(entries, key), other) == holds(entries, other),
        forall|other: u64|
            holds(entries, other) ==> touched(entries, key)[position(
                touched(entries, key),
                other,
            )] == entries[position(entries, other)],
{
    lemma_position(entries, key);
    let at = position(entries, key);
    let after = touched(entries, key);
    if at < entries.len() {
        lemma_pushed_well_formed(entries, capacity, key, entries[at].1);
        assert forall|other: u64| holds(after, other) == holds(entries, other) && (holds(
            entries,
            other,
        ) ==> after[position(after, other)] == entries[position(entries, other)]) by {
            lemma_position(entries, other);
            lemma_position(after, other);
            let before_at = position(entries, other);
            let after_at = position(after, other);
            if before_at < entries.len() {
                let moved = if before_at == at {
                    0
                } else if before_at < at {
                    before_at + 1
                } else {
                    before_at
                };
                lemma_position_of(after, moved);
            }
            if after_at < after.len() {
                let origin = if after_at == 0 {
                    at
                } else if after_at - 1 < at {
                    after_at - 1
                } else {
                    after_at
                };
                lemma_position_of(entries, origin);
            }
        }
    }
}

/// Write-back with room for one inode: a first inode is pushed into the
/// empty cache and nothing is handed back. Pushing an inode with another
/// number then drops the first inode and hands it back, and the cache holds
/// it no longer. Pushing an inode with the same number hands the first
/// inode back under that same number, and the cache holds the second.
pub proof fn lemma_capacity_one(first: Inode, second: Inode)
    ensures
        pushed(Seq::empty(), 1, first.ino.0, first) == (
            seq![(first.ino.0, first)],
            None::<(u64, Inode)>,
        ),
        pushed(seq![(first.ino.0, first)], 1, second.ino.0, second).0 == seq![
            (second.ino.0, second),
        ],
        pushed(seq![(first.ino.0, first)], 1, second.ino.0, second).1 == Some(
            (first.ino.0, first),
        ),
        second.ino != first.ino ==> !holds(
            pushed(seq![(first.ino.0, first)], 1, second.ino.0, second).0,
            first.ino.0,
        ),
{
    let empty = Seq::<(u64, Inode)>::empty();
    let one = seq![(first.ino.0, first)];
    assert(position(one.skip(1), second.ino.0) == 0);
    let two = seq![(second.ino.0, second)];
    assert(position(two.skip(1), first.ino.0) == 0);
}

/// `lru::LruCache::new` with `capacity` as a `NonZeroUsize`: an empty cache
/// that holds at most `capacity` entries. `requires` rules out the capacity
/// zero, which is no `NonZeroUsize`, and the capacities on which the making
/// of the cache's table panics.
#[verifier::external_body]
fn lru_new(capacity: usize) -> (cache: LruCache<u64, Inode>)
    requires
        0 < capacity <= MAX_CAPACITY,
    ensures
        lru_entries(cache) == Seq::<(u64, Inode)>::empty(),
        lru_capacity(cache) == capacity,
{
    LruCache::new(NonZeroUsize::new(capacity).unwrap())
}

/// `lru::LruCache::push`: puts `value` under `key` as the most recently used
/// entry. It hands back the entry that had the same key, or else, where the
/// cache was full, the least recently used entry, which it drops. The
/// capacity stays what it is. With keys that are numbers the call does not
/// unwind.
#[verifier::external_body]
fn lru_push(cache: &mut LruCache<u64, Inode>, key: u64, value: Inode) -> (popped: Option<
    (u64, Inode),
>)
    ensures
        lru_capacity(*final(cache)) == lru_capacity(*old(cache)),
        lru_entries(*final(cache)) == pushed(
            lru_entries(*old(cache)),
            lru_capacity(*old(cache)),
            key,
            value,
        ).0,
        popped == pushed(lru_entries(*old(cache)), lru_capacity(*old(cache)), key, value).1,
    no_unwind
{
    cache.push(key, value)
}

/// `lru::LruCache::get`, and a copy of the inode that it refers to: the
/// value under `key`, which becomes the most recently used entry, or `None`
/// where the cache has no such entry. The capacity stays what it is. With
/// keys that are numbers the call does not unwind.
#[verifier::external_body]
fn lru_get(cache: &mut LruCache<u64, Inode>, key: u64) -> (found: Option<Inode>)
    ensures
        lru_capacity(*final(cache)) == lru_capacity(*old(cache)),
        lru_entries(*final(cache)) == touched(lru_entries(*old(cache)), key),
        found == if holds(lru_entries(*old(cache)), key) {
            Some(lru_entries(*old(cache))[position(lru_entries(*old(cache)), key)].1)
        } else {
            None
        },
    no_unwind
{
    cache.get(&key).cloned()
}

/// The inodes that were used last, each under its number: a cache whose
/// entries are well formed at all times.
struct RecentInodes {
    cache: LruCache<u64, Inode>,
}

impl RecentInodes {
    #[verifier::type_invariant]
    closed spec fn cache_is_well_formed(&self) -> bool {
        well_formed(lru_entries(self.cache), lru_capacity(self.cache))
    }

    closed spec fn entries(&self) -> Seq<(u64, Inode)> {
        lru_entries(self.cache)
    }

    closed spec fn capacity(&self) -> nat {
        lru_capacity(self.cache)
    }

    fn new(capacity: usize) -> (recent: RecentInodes)
        requires
            0 < capacity <= MAX_CAPACITY,
        ensures
            recent.entries() == Seq::<(u64, Inode)>::empty(),
            recent.capacity() == capacity,
    {
        RecentInodes { cache: lru_new(capacity) }
    }

    /// Pushes `inode` under its number.
    fn push(&mut self, inode: Inode) -> (popped: Option<(u64, Inode)>)
        ensures
            well_formed(old(self).entries(), old(self).capacity()),
            well_formed(final(self).entries(), final(self).capacity()),
            final(self).capacity() == old(self).capacity(),
            final(self).entries() == pushed(
                old(self).entries(),
                old(self).capacity(),
                inode.ino.0,
                inode,
            ).0,
            popped == pushed(old(self).entries(), old(self).capacity(), inode.ino.0, inode).1,
    {
        proof {
            use_type_invariant(&*self);
            lemma_pushed_well_formed(
                lru_entries(self.cache),
                lru_capacity(self.cache),
                inode.ino.0,
                inode,
            );
        }
        lru_push(&mut self.cache, inode.ino.0, inode)
    }

    /// Gets the inode numbered `ino`, which becomes the most recently used
    /// one.
    fn get(&mut self, ino: Ino) -> (found: Option<Inode>)
        ensures
            well_formed(old(self).entries(), old(self).capacity()),
            well_formed(final(self).entries(), final(self).capacity()),
            final(self).capacity() == old(self).capacity(),
            final(self).entries() == touched(old(self).entries(), ino.0),
            found == if holds(old(self).entries(), ino.0) {
                Some(old(self).entries()[position(old(self).entries(), ino.0)].1)
            } else {
                None
            },
            found matches Some(inode) ==> inode.ino == ino,
    {
        proof {
            use_type_invariant(&*self);
            lemma_touched_well_formed(lru_entries(self.cache), lru_capacity(self.cache), ino.0);
            lemma_position(lru_entries(self.cache), ino.0);
        }
        lru_get(&mut self.cache, ino.0)
    }
}

/// The inode that is to be put into the store behind the cache after inode
/// `ino` was pushed and the cache handed `popped` back: the inode that the
/// cache dropped for want of room. An inode that `popped` holds under the
/// number `ino` is the one that the push replaced: the pushed inode is newer,
/// and it is not written back.
pub fn write_back(popped: Option<(u64, Inode)>, ino: Ino) -> (dropped: Option<Inode>)
    ensures
        dropped == match popped {
            Some((number, inode)) if number != ino.0 => Some(inode),
            _ => None,
        },
{
    match popped {
        None => None,
        Some((number, inode)) => if number == ino.0 {
            None
        } else {
            Some(inode)
        },
    }
}

/// An inode store with a cache of the most recently used inodes in front of
/// it.
pub struct CachingInodeStore<S: InodeStore> {
    backend: S,
    recent: RecentInodes,
}

/// The inodes of a caching store: those in the cache, as the store behind
/// it keeps them, and, for the numbers that the cache does not hold, those
/// of the store behind it.
pub open spec fn overlay<S: InodeStore>(entries: Seq<(u64, Inode)>, behind: Map<Ino, Inode>) -> Map<
    Ino,
    Inode,
> {
    Map::new(
        |ino: Ino| holds(entries, ino.0) || behind.contains_key(ino),
        |ino: Ino|
            if holds(entries, ino.0) {
                S::kept(entries[position(entries, ino.0)].1)
            } else {
                behind[ino]
            },
    )
}

impl<S: InodeStore> CachingInodeStore<S> {
    /// The store behind the cache.
    pub closed spec fn backend(&self) -> S {
        self.backend
    }

    /// The entries of the cache, each the number of an inode with the inode,
    /// from the most recently used to the least recently used.
    pub closed spec fn cached(&self) -> Seq<(u64, Inode)> {
        self.recent.entries()
    }

    /// The number of inodes that the cache holds at most.
    pub closed spec fn capacity(&self) -> nat {
        self.recent.capacity()
    }

    /// A store that keeps up to `capacity` inodes in its cache, in front of
    /// `backend`.
    pub fn new(backend: S, capacity: usize) -> (store: CachingInodeStore<S>)
        requires
            0 < capacity <= MAX_CAPACITY,
        ensures
            store.backend() == backend,
            store.cached() == Seq::<(u64, Inode)>::empty(),
            store.capacity() == capacity,
            store.inodes() == backend.inodes(),
    {
        CachingInodeStore { backend: backend, recent: RecentInodes::new(capacity) }
    }

    /// The store behind the cache, without what the cache alone holds.
    pub fn into_backend(self) -> (backend: S)
        ensures
            backend == self.backend(),
    {
        self.backend
    }
}

impl<S: InodeStore> InodeStore for CachingInodeStore<S> {
    open spec fn kept(inode: Inode) -> Inode {
        S::kept(inode)
    }

    open spec fn inodes(&self) -> Map<Ino, Inode> {
        overlay::<S>(self.cached(), self.backend().inodes())
    }

    /// A caching store fails only as the store behind it fails.
    open spec fn infallible() -> bool {
        S::infallible()
    }

    /// A caching store takes an inode where the store behind it takes the
    /// inode that the cache drops for it, and always where it drops none.
    open spec fn accepts(&self, inode: Inode) -> bool {
        match pushed(self.cached(), self.capacity(), inode.ino.0, inode).1 {
            Some((number, dropped)) if number != inode.ino.0 => self.backend().accepts(dropped),
            _ => true,
        }
    }

    /// A caching store answers for the numbers that its cache holds, and,
    /// while the cache has room, for those that the store behind it answers
    /// for: the inode is then taken into the cache and none is dropped.
    open spec fn answers(&self, ino: Ino) -> bool {
        ||| holds(self.cached(), ino.0)
        ||| self.backend().answers(ino) && self.cached().len() < self.capacity()
    }

    /// Puts `inode` into the cache. Where the cache hands back an inode with
    /// another number, which it dropped for want of room, that inode is put
    /// into the store behind the cache, and the outcome is that of this
    /// put. Otherwise the store behind the cache is not touched, and the
    /// put succeeds.
    fn put(&mut self, inode: &Inode) -> (put: Result<(), IoError>)
        ensures
            final(self).capacity() == old(self).capacity(),
            final(self).cached() == pushed(
                old(self).cached(),
                old(self).capacity(),
                inode.ino.0,
                *inode,
            ).0,
            well_formed(final(self).cached(), final(self).capacity()),
            match pushed(old(self).cached(), old(self).capacity(), inode.ino.0, *inode).1 {
                Some((number, dropped)) if number != inode.ino.0 => {
                    put is Ok ==> final(self).backend().inodes() == old(
                        self,
                    ).backend().inodes().insert(dropped.ino, S::kept(dropped))
                },
                _ => put is Ok && final(self).backend() == old(self).backend(),
            },
    {
        let popped = self.recent.push(inode.clone());
        proof {
            lemma_put_overlay::<S>(
                old(self).cached(),
                old(self).capacity(),
                self.backend.inodes(),
                *inode,
            );
        }
        match write_back(popped, inode.ino) {
            None => Ok(()),
            Some(dropped) => self.backend.put(&dropped),
        }
    }

    /// Gets the inode numbered `ino` from the cache, or, where the cache
    /// does not hold it, from the store behind the cache, and then puts it
    /// into the cache.
    fn get(&mut self, ino: Ino) -> (got: Result<Option<Inode>, IoError>)
        ensures
            final(self).capacity() == old(self).capacity(),
            well_formed(final(self).cached(), final(self).capacity()),
            holds(old(self).cached(), ino.0) ==> {
                &&& got == Ok::<Option<Inode>, IoError>(
                    Some(old(self).cached()[position(old(self).cached(), ino.0)].1),
                )
                &&& final(self).cached() == touched(old(self).cached(), ino.0)
                &&& final(self).backend() == old(self).backend()
            },
            !holds(old(self).cached(), ino.0) ==> {
                &&& got matches Ok(Some(inode)) ==> {
                    &&& S::kept(inode) == old(self).backend().inodes()[ino]
                    &&& final(self).cached() == pushed(
                        old(self).cached(),
                        old(self).capacity(),
                        ino.0,
                        inode,
                    ).0
                }
                &&& got matches Ok(None) ==> final(self).cached() == old(self).cached()
            },
    {
        let found = self.recent.get(ino);
        proof {
            lemma_touched_well_formed(old(self).cached(), old(self).capacity(), ino.0);
            lemma_position(old(self).cached(), ino.0);
        }
        match found {
            Some(inode) => {
                Ok(Some(inode))
            },
            None => match self.backend.get(ino)? {
                Some(inode) => {
                    self.put(&inode)?;
                    Ok(Some(inode))
                },
                None => Ok(None),
            },
        }
    }
}

/// What a put does to the inodes of a caching store: the inode that is put
/// takes the place of the one under its number, and an inode that the cache
/// drops and the store behind it takes over stays what it was.
pub proof fn lemma_put_overlay<S: InodeStore>(
    entries: Seq<(u64, Inode)>,
    capacity: nat,
    behind: Map<Ino, Inode>,
    inode: Inode,
)
    requires
        well_formed(entries, capacity),
    ensures
        match pushed(entries, capacity, inode.ino.0, inode).1 {
            Some((number, dropped)) if number != inode.ino.0 => overlay::<S>(
                pushed(entries, capacity, inode.ino.0, inode).0,
                behind.insert(dropped.ino, S::kept(dropped)),
            ) == overlay::<S>(entries, behind).insert(inode.ino, S::kept(inode)),
            _ => overlay::<S>(pushed(entries, capacity, inode.ino.0, inode).0, behind)
                == overlay::<S>(entries, behind).insert(inode.ino, S::kept(inode)),
        },
{
    let key = inode.ino.0;
    let after = pushed(entries, capacity, key, inode).0;
    let popped = pushed(entries, capacity, key, inode).1;
    lemma_position(entries, key);
    lemma_pushed_well_formed(entries, capacity, key, inode);
    let at = position(entries, key);
    let behind_after = match popped {
        Some((number, dropped)) if number != key => behind.insert(dropped.ino, S::kept(dropped)),
        _ => behind,
    };
    let wanted = overlay::<S>(entries, behind).insert(inode.ino, S::kept(inode));
    let got = overlay::<S>(after, behind_after);
    lemma_position_of(after, 0);
    assert forall|ino: Ino| #[trigger]
        wanted.contains_key(ino) == got.contains_key(ino) && (wanted.contains_key(ino)
            ==> wanted[ino] == got[ino]) by {
        lemma_position(entries, ino.0);
        lemma_position(after, ino.0);
        let before_at = position(entries, ino.0);
        if ino.0 != key && before_at < entries.len() {
            if at < entries.len() {
                let moved = if before_at < at {
                    before_at + 1
                } else {
                    before_at
                };
                lemma_position_of(after, moved);
            } else if entries.len() < capacity || before_at < entries.len() - 1 {
                lemma_position_of(after, before_at + 1);
            }
        }
    }
    assert(wanted =~= got);
}

} // verus!
