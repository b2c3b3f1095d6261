//! Where the pointers of indirect blocks are kept: the slots of each
//! indirect block, read and written one at a time.

use crate::block::{
    encodable, lemma_pointer_round_trip, Block, BlockListIndex, BLOCK_POINTERS_PER_BLOCK,
    BLOCK_POINTER_SIZE, BLOCK_SIZE,
};
use crate::byte::Byte;
use crate::encode::{pointer_at, pointer_bytes, read_u64, write_u64};
use crate::error::IoError;
use crate::io::readat::{ReadAt, Volume};
use crate::io::writeat::WriteAt;
use std::collections::HashMap;
use vstd::prelude::*;

verus! {

/// What a slot holds according to `table`: its entry, and `None` where the
/// table has no entry for it.
pub open spec fn lookup(table: Map<int, Option<Block>>, slot: int) -> Option<Block> {
    if table.contains_key(slot) {
        table[slot]
    } else {
        None
    }
}

/// What an indirect map holds, as readers and writers of it speak of it.
///
/// A verified map says in `slot` and `table` what it holds, and its reads
/// and writes are proved against that. The bodies given here are for a map
/// that is written without proof, which has nothing to say; nothing that is
/// proved of a map in general rests on them.
pub trait IndirectTable {
    /// The place of slot `index` of indirect block `indirect_block`. Two
    /// slots with the same place are one slot: what is written to one is
    /// read from the other.
    open spec fn slot(indirect_block: Block, index: BlockListIndex) -> int {
        memory_slot(indirect_block, index)
    }

    /// What each place holds.
    open spec fn table(&self) -> Map<int, Option<Block>> {
        Map::empty()
    }

    /// Whether slot `index` of indirect block `indirect_block` is one that
    /// the map does not fail on: a read of the slot succeeds, and so does a
    /// write of a block that has a pointer value.
    open spec fn reliable(&self, indirect_block: Block, index: BlockListIndex) -> bool {
        false
    }
}

/// The place of a slot in a map that has a place for every pair of a block
/// and an index: the block's number in the upper 64 bits and the index in the
/// lower.
pub open spec fn memory_slot(indirect_block: Block, index: BlockListIndex) -> int {
    indirect_block.0 * 0x1_0000_0000_0000_0000 + index.0
}

/// An indirect map whose slots can be read.
pub trait IndirectReader: IndirectTable {
    /// Reads slot `index` of indirect block `indirect_block`. A read that
    /// succeeds returns what the table holds at the slot's place.
    fn read_indirect(&self, indirect_block: Block, index: BlockListIndex) -> (read: Result<
        Option<Block>,
        IoError,
    >)
        ensures
            read matches Ok(target) ==> target == lookup(
                self.table(),
                Self::slot(indirect_block, index),
            ),
            self.reliable(indirect_block, index) ==> read is Ok,
    ;
}

/// An indirect map whose slots can be written.
pub trait IndirectWriter: IndirectTable {
    /// Writes `block` to slot `index` of indirect block `indirect_block`. A
    /// write that succeeds changes the slot's place and no other. A write
    /// to a reliable slot succeeds, where the block has a pointer value.
    /// Whatever comes of the write, every slot stays as reliable as it was.
    fn write_indirect(
        &mut self,
        indirect_block: Block,
        index: BlockListIndex,
        block: Option<Block>,
    ) -> (written: Result<(), IoError>)
        ensures
            written is Ok ==> final(self).table() == old(self).table().insert(
                Self::slot(indirect_block, index),
                block,
            ),
            old(self).reliable(indirect_block, index) && encodable(block) ==> written is Ok,
            forall|any: Block, slot: BlockListIndex| #[trigger]
                final(self).reliable(any, slot) == old(self).reliable(any, slot),
    ;
}

/// An indirect map that can be read and written.
pub trait IndirectManager: IndirectReader + IndirectWriter {

}

/// An indirect map held in memory. It has a slot for every pair of a block
/// and an index, never fails, and reads `None` from a slot that was never
/// written.
pub struct MemoryTable {
    entries: HashMap<u128, Option<Block>>,
}

/// Different slots have different keys in a memory table.
pub proof fn lemma_memory_slot_injective(
    block: Block,
    index: BlockListIndex,
    other_block: Block,
    other_index: BlockListIndex,
)
    requires
        memory_slot(block, index) == memory_slot(other_block, other_index),
    ensures
        block == other_block,
        index == other_index,
{
}

impl MemoryTable {
    /// A table in which no slot was written.
    pub fn new() -> (table: MemoryTable)
        ensures
            table.table() == Map::<int, Option<Block>>::empty(),
    {
        MemoryTable { entries: HashMap::new() }
    }

    /// The number of slots that were written, whatever was written to them.
    pub fn len(&self) -> (count: usize)
        ensures
            self.table().dom().finite(),
            count == self.table().dom().len(),
    {
        proof {
            self.lemma_table_size();
        }
        self.entries.len()
    }

    /// The key under which the table holds a slot: the number of its place.
    fn key(indirect_block: Block, index: BlockListIndex) -> (key: u128)
        ensures
            key == memory_slot(indirect_block, index),
    {
        indirect_block.0 as u128 * 0x1_0000_0000_0000_0000u128 + index.0 as u128
    }

    /// The table has as many places as it has entries.
    proof fn lemma_table_size(&self)
        ensures
            self.table().dom().finite(),
            self.table().dom().len() == self.entries@.len(),
    {
        let keys = self.entries@.dom();
        let places = keys.map(|key: u128| key as int);
        assert(self.table().dom() =~= places) by {
            assert forall|place: int| self.table().dom().contains(place) implies places.contains(
                place,
            ) by {}
        }
        vstd::set_lib::lemma_map_size(keys, places, |key: u128| key as int);
    }
}

impl IndirectTable for MemoryTable {
    open spec fn slot(indirect_block: Block, index: BlockListIndex) -> int {
        memory_slot(indirect_block, index)
    }

    closed spec fn table(&self) -> Map<int, Option<Block>> {
        Map::new(
            |place: int| 0 <= place <= u128::MAX && self.entries@.contains_key(place as u128),
            |place: int| self.entries@[place as u128],
        )
    }

    open spec fn reliable(&self, indirect_block: Block, index: BlockListIndex) -> bool {
        true
    }
}

impl IndirectReader for MemoryTable {
    fn read_indirect(&self, indirect_block: Block, index: BlockListIndex) -> (read: Result<
        Option<Block>,
        IoError,
    >) {
        match self.entries.get(&Self::key(indirect_block, index)) {
            Some(target) => Ok(*target),
            None => Ok(None),
        }
    }
}

impl IndirectWriter for MemoryTable {
    fn write_indirect(
        &mut self,
        indirect_block: Block,
        index: BlockListIndex,
        block: Option<Block>,
    ) -> (written: Result<(), IoError>)
        ensures
            written is Ok,
    {
        self.entries.insert(Self::key(indirect_block, index), block);
        Ok(())
    }
}

impl IndirectManager for MemoryTable {

}

/// The indirect map that lies on a volume: every block of the volume is an
/// array of `BLOCK_POINTERS_PER_BLOCK` pointers, and slot `index` of block
/// `block` is the pointer at byte `block * BLOCK_SIZE + index *
/// BLOCK_POINTER_SIZE`.
///
/// An index past the last slot of a block names a slot of a block further
/// on: slot `BLOCK_POINTERS_PER_BLOCK` of a block is slot 0 of the next.
#[derive(Clone, Copy)]
pub struct Wrapper<T> {
    pub inner: T,
}

impl<T> Wrapper<T> {
    pub fn new(inner: T) -> (wrapper: Wrapper<T>)
        ensures
            wrapper.inner == inner,
    {
        Self { inner }
    }
}

/// The number of a pointer on a volume, counted in pointers from the start of
/// the volume.
pub open spec fn volume_slot(indirect_block: Block, index: BlockListIndex) -> int {
    indirect_block.0 * BLOCK_POINTERS_PER_BLOCK + index.0
}

/// The pointers that the bytes of a volume hold, by their number: one for
/// every eight bytes that lie within the volume.
pub open spec fn volume_table(bytes: Seq<u8>) -> Map<int, Option<Block>> {
    Map::new(
        |place: int| 0 <= place && BLOCK_POINTER_SIZE * place + BLOCK_POINTER_SIZE <= bytes.len(),
        |place: int| pointer_at(bytes, BLOCK_POINTER_SIZE * place),
    )
}

impl<V: Volume> IndirectTable for Wrapper<V> {
    open spec fn slot(indirect_block: Block, index: BlockListIndex) -> int {
        volume_slot(indirect_block, index)
    }

    open spec fn table(&self) -> Map<int, Option<Block>> {
        volume_table(self.inner.bytes())
    }

    /// A slot is reliable where the volume is dependable and holds the
    /// slot's pointer, at a place that a `u64` holds.
    open spec fn reliable(&self, indirect_block: Block, index: BlockListIndex) -> bool {
        &&& self.inner.dependable()
        &&& BLOCK_POINTER_SIZE * volume_slot(indirect_block, index) + BLOCK_POINTER_SIZE
            <= self.inner.bytes().len()
        &&& BLOCK_POINTER_SIZE * volume_slot(indirect_block, index) <= u64::MAX
    }
}

impl<V: ReadAt> IndirectReader for Wrapper<V> {
    /// Reads the pointer of the slot from the volume. A slot whose place no
    /// `u64` holds lies past the end of every volume: the read fails with
    /// `UnexpectedEof`. Otherwise the outcome is that of the volume's read.
    fn read_indirect(&self, indirect: Block, index: BlockListIndex) -> (read: Result<
        Option<Block>,
        IoError,
    >)
        ensures
            read is Ok ==> self.table().contains_key(Self::slot(indirect, index)),
            BLOCK_POINTER_SIZE * volume_slot(indirect, index) > u64::MAX ==> read == Err::<
                Option<Block>,
                IoError,
            >(IoError::UnexpectedEof),
    {
        let mut buf = [0u8; 8];
        match offset(indirect, index) {
            Some(place) => match self.inner.read_at(place, &mut buf) {
                Ok(_) => {
                    assert(buf@.subrange(0, 8) =~= self.inner.bytes().subrange(
                        place.0 as int,
                        place.0 + 8,
                    ));
                    Ok(Block::decode(read_u64(&buf, 0)))
                },
                Err(error) => Err(error),
            },
            None => Err(IoError::UnexpectedEof),
        }
    }
}

impl<V: WriteAt> IndirectWriter for Wrapper<V> {
    /// Writes the pointer of the slot to the volume. A block that has no
    /// pointer value is refused with `InvalidInput`, and a slot whose place
    /// no `u64` holds lies past the end of every volume: the write fails
    /// with `UnexpectedEof`. Otherwise the outcome is that of the volume's
    /// write.
    fn write_indirect(
        &mut self,
        indirect_block: Block,
        index: BlockListIndex,
        block: Option<Block>,
    ) -> (written: Result<(), IoError>)
        ensures
            written is Ok ==> encodable(block) && old(self).table().contains_key(
                Self::slot(indirect_block, index),
            ),
            !encodable(block) ==> written == Err::<(), IoError>(IoError::InvalidInput)
                && *final(self) == *old(self),
            encodable(block) && BLOCK_POINTER_SIZE * volume_slot(indirect_block, index) > u64::MAX
                ==> written == Err::<(), IoError>(IoError::UnexpectedEof) && *final(self) == *old(
                self,
            ),
    {
        let value = match block {
            Some(target) if target.0 == u64::MAX => {
                return Err(IoError::InvalidInput);
            },
            _ => Block::encode(block),
        };
        let mut buf = [0u8; 8];
        write_u64(&mut buf, 0, value);
        match offset(indirect_block, index) {
            Some(place) => {
                let written = self.inner.write_at(place, &buf);
                proof {
                    if written is Ok {
                        vstd::bytes::lemma_auto_spec_u64_to_from_le_bytes();
                        lemma_pointer_round_trip(block);
                        let before = old(self).inner.bytes();
                        let after = self.inner.bytes();
                        let slot = volume_slot(indirect_block, index);
                        assert(after.subrange(place.0 as int, place.0 + 8) =~= pointer_bytes(
                            block,
                        ));
                        assert forall|other: int|
                            volume_table(before).contains_key(other) && other
                                != slot implies after.subrange(8 * other, 8 * other + 8)
                            =~= before.subrange(8 * other, 8 * other + 8) by {}
                        assert forall|other: int|
                            volume_table(before).contains_key(
                                other,
                            ) implies #[trigger] volume_table(after)[other] == old(
                            self,
                        ).table().insert(slot, block)[other] by {}
                    }
                }
                written
            },
            None => Err(IoError::UnexpectedEof),
        }
    }
}

impl<V: ReadAt + WriteAt> IndirectManager for Wrapper<V> {

}

/// The byte at which slot `index` of block `indirect_block` starts on a
/// volume, where a `u64` holds it.
fn offset(indirect_block: Block, index: BlockListIndex) -> (place: Option<Byte>)
    ensures
        match place {
            Some(place) => place.0 == BLOCK_POINTER_SIZE * volume_slot(indirect_block, index),
            None => BLOCK_POINTER_SIZE * volume_slot(indirect_block, index) > u64::MAX,
        },
{
    let index: u64 = u64::from(index);
    match indirect_block.0.checked_mul(BLOCK_SIZE) {
        Some(offset_of_block) => match index.checked_mul(BLOCK_POINTER_SIZE) {
            Some(offset_in_block) => match offset_of_block.checked_add(offset_in_block) {
                Some(place) => Some(Byte::new(place)),
                None => None,
            },
            None => None,
        },
        None => None,
    }
}

} // verus!
