//! Inodes: the per-file record that holds a file's size and the pointers to
//! its blocks.

use crate::block::{Block, BlockListIndex, DIRECT_BLOCKS_COUNT};
use crate::byte::Byte;
use crate::text::{decimal, decimal_string};
use vstd::prelude::*;
use vstd::std_specs::convert::FromSpecImpl;

verus! {

/// The number of an inode.
#[derive(Clone, Copy, PartialEq, Eq, Debug, Hash, Structural)]
pub struct Ino(pub u64);

impl Ino {
    pub fn new(value: u64) -> (ino: Ino)
        ensures
            ino == Ino(value),
    {
        Ino(value)
    }

    /// The number in decimal digits.
    pub fn to_string(&self) -> (text: String)
        ensures
            text@ == decimal(self.0 as nat),
    {
        decimal_string(self.0)
    }
}

impl From<Ino> for Byte {
    fn from(ino: Ino) -> (byte: Byte) {
        Byte::new(ino.0)
    }
}

impl FromSpecImpl<Ino> for Byte {
    open spec fn obeys_from_spec() -> bool {
        true
    }

    open spec fn from_spec(ino: Ino) -> Byte {
        Byte(ino.0)
    }
}

/// A file's record: its number, its size in bytes, twelve direct block
/// pointers, and the pointers to its singly, doubly and triply indirect
/// blocks. A pointer that is `None` stands for a part of the file that has no
/// block yet.
#[derive(PartialEq, Eq, Debug)]
pub struct Inode {
    pub ino: Ino,
    pub size: Byte,
    pub direct_blocks: [Option<Block>; DIRECT_BLOCKS_COUNT],
    pub singly_indirect_block: Option<Block>,
    pub doubly_indirect_block: Option<Block>,
    pub triply_indirect_block: Option<Block>,
}

impl Clone for Inode {
    fn clone(&self) -> (copy: Inode)
        ensures
            copy == *self,
    {
        Inode {
            ino: self.ino,
            size: self.size,
            direct_blocks: self.direct_blocks,
            singly_indirect_block: self.singly_indirect_block,
            doubly_indirect_block: self.doubly_indirect_block,
            triply_indirect_block: self.triply_indirect_block,
        }
    }
}

impl Inode {
    /// Whether this inode has no pointer set and size zero.
    pub open spec fn is_empty(self) -> bool {
        &&& self.size == Byte(0)
        &&& forall|i: int| 0 <= i < DIRECT_BLOCKS_COUNT ==> self.direct_blocks@[i] == None::<Block>
        &&& self.singly_indirect_block == None::<Block>
        &&& self.doubly_indirect_block == None::<Block>
        &&& self.triply_indirect_block == None::<Block>
    }

    /// This inode with `block` in slot `index` of its direct pointers.
    pub open spec fn with_direct_block(self, index: int, block: Option<Block>) -> Inode {
        Inode {
            direct_blocks: vstd::array::spec_array_update(self.direct_blocks, index, block),
            ..self
        }
    }

    pub fn new(ino: Ino) -> (inode: Inode)
        ensures
            inode.ino == ino,
            inode.is_empty(),
    {
        Inode {
            ino: ino,
            size: Byte::new(0),
            direct_blocks: [None, None, None, None, None, None, None, None, None, None, None, None],
            singly_indirect_block: None,
            doubly_indirect_block: None,
            triply_indirect_block: None,
        }
    }

    /// Puts `block` in slot `index` of the direct pointers.
    pub fn set_direct_block(&mut self, index: BlockListIndex, block: Option<Block>)
        requires
            index.0 < DIRECT_BLOCKS_COUNT,
        ensures
            *final(self) == old(self).with_direct_block(index.0 as int, block),
            final(self).direct_blocks@ == old(self).direct_blocks@.update(index.0 as int, block),
    {
        index.set_direct_block(&mut self.direct_blocks, block);
        assert(self.direct_blocks =~= vstd::array::spec_array_update(
            old(self).direct_blocks,
            index.0 as int,
            block,
        ));
    }
}

} // verus!
