//! Where inodes are kept: put under their number and got back by it.

use crate::error::IoError;
use crate::inode::{Ino, Inode};
use std::collections::HashMap;
use vstd::prelude::*;

verus! {

/// A store of inodes, each under its number.
///
/// A verified store says in `kept` and `inodes` what it holds, and its
/// `put` and `get` are proved against that. The bodies given here are for a
/// store that is written without proof, which has nothing to say; nothing
/// that is proved of a store in general rests on them.
pub trait InodeStore {
    /// What the store keeps of an inode that is put into it. A store that
    /// keeps every field keeps the inode itself.
    open spec fn kept(inode: Inode) -> Inode {
        inode
    }

    /// The inodes in the store, as the store keeps them.
    open spec fn inodes(&self) -> Map<Ino, Inode> {
        Map::empty()
    }

    /// Whether stores of this type never fail: every put and every get of
    /// theirs succeeds.
    open spec fn infallible() -> bool {
        false
    }

    /// Whether the store, as it is, takes `inode`: a put of it succeeds.
    open spec fn accepts(&self, inode: Inode) -> bool {
        false
    }

    /// Whether the store, as it is, answers for the number `ino`: a get of
    /// it succeeds.
    open spec fn answers(&self, ino: Ino) -> bool {
        false
    }

    /// Puts `inode` under its number, in place of what was there. After a
    /// put that succeeds the store holds what it keeps of `inode`, and every
    /// other inode as before. The put succeeds where the store takes the
    /// inode, and always where stores of this type never fail.
    fn put(&mut self, inode: &Inode) -> (put: Result<(), IoError>)
        ensures
            put is Ok ==> final(self).inodes() == old(self).inodes().insert(
                inode.ino,
                Self::kept(*inode),
            ),
            Self::infallible() || old(self).accepts(*inode) ==> put is Ok,
    ;

    /// Gets the inode numbered `ino`, or `None` where the store has none. A
    /// get that succeeds leaves the store's inodes as they were, and what it
    /// returns has the number `ino` and is kept by the store as the inode
    /// that the store holds. The get succeeds where the store answers for
    /// the number, and always where stores of this type never fail.
    fn get(&mut self, ino: Ino) -> (got: Result<Option<Inode>, IoError>)
        ensures
            got is Ok ==> final(self).inodes() == old(self).inodes(),
            got matches Ok(Some(inode)) ==> {
                &&& inode.ino == ino
                &&& old(self).inodes().contains_key(ino)
                &&& Self::kept(inode) == old(self).inodes()[ino]
            },
            got matches Ok(None) ==> !old(self).inodes().contains_key(ino),
            Self::infallible() || old(self).answers(ino) ==> got is Ok,
    ;
}

/// An inode store held in memory. It keeps each inode as it is, under its
/// number, and never fails.
pub struct MemoryStore {
    entries: HashMap<u64, Inode>,
}

impl MemoryStore {
    /// Every inode stands under its own number.
    #[verifier::type_invariant]
    closed spec fn numbered(&self) -> bool {
        forall|number: u64|
            self.entries@.contains_key(number) ==> (#[trigger] self.entries@[number]).ino.0
                == number
    }

    /// A store without inodes.
    pub fn new() -> (store: MemoryStore)
        ensures
            store.inodes() == Map::<Ino, Inode>::empty(),
    {
        MemoryStore { entries: HashMap::new() }
    }

    /// The number of inodes in the store.
    pub fn len(&self) -> (count: usize)
        ensures
            self.inodes().dom().finite(),
            count == self.inodes().dom().len(),
    {
        proof {
            let keys = self.entries@.dom();
            let numbers = keys.map(|key: u64| Ino(key));
            assert(self.inodes().dom() =~= numbers) by {
                assert forall|ino: Ino| self.inodes().dom().contains(ino) implies numbers.contains(
                    ino,
                ) by {}
            }
            vstd::set_lib::lemma_map_size(keys, numbers, |key: u64| Ino(key));
        }
        self.entries.len()
    }
}

impl InodeStore for MemoryStore {
    open spec fn kept(inode: Inode) -> Inode {
        inode
    }

    closed spec fn inodes(&self) -> Map<Ino, Inode> {
        Map::new(
            |ino: Ino| self.entries@.contains_key(ino.0),
            |ino: Ino| self.entries@[ino.0],
        )
    }

    open spec fn infallible() -> bool {
        true
    }

    open spec fn accepts(&self, inode: Inode) -> bool {
        true
    }

    open spec fn answers(&self, ino: Ino) -> bool {
        true
    }

    fn put(&mut self, inode: &Inode) -> (put: Result<(), IoError>) {
        proof {
            use_type_invariant(&*self);
        }
        // The entries are taken out for the insertion and put back after it,
        // so that what the store holds stands under its number at all times.
        let mut entries = HashMap::new();
        core::mem::swap(&mut self.entries, &mut entries);
        let _ = entries.insert(inode.ino.0, inode.clone());
        core::mem::swap(&mut self.entries, &mut entries);
        Ok(())
    }

    fn get(&mut self, ino: Ino) -> (got: Result<Option<Inode>, IoError>)
        ensures
            *final(self) == *old(self),
    {
        proof {
            use_type_invariant(&*self);
        }
        match self.entries.get(&ino.0) {
            Some(inode) => Ok(Some(inode.clone())),
            None => Ok(None),
        }
    }
}

} // verus!
