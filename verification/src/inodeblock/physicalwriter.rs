//! Setting the physical block of a logical block of an inode, with the
//! indirect blocks on the way allocated when they are first needed.

use crate::bitmap::{
    after_allocate, after_allocations, first_free, lemma_first_free_properties, Bitmap,
};
use crate::block::{
    classify, encodable, lemma_classify_bounds, lemma_classify_injective, Block, BlockListIndex,
    Indirection, BLOCK_SIZE, DOUBLY_INDIRECT_MAX, TRIPLY_INDIRECT_MAX,
};
use crate::byte::Byte;
use crate::error::{IndirectionError, IoError, Operation};
use crate::indirectmanager::{
    lookup, IndirectReader, IndirectTable, IndirectWriter, MemoryTable, Wrapper,
};
use crate::inode::Inode;
use crate::inodeblock::physicalreader::{resolve, top_pointer};
use crate::inodestore::InodeStore;
use crate::io::readat::Volume;
use vstd::prelude::*;

verus! {

/// What a write works on: the inode, what the indirect map holds, and the
/// slots of the block bitmap.
pub struct Mapping {
    pub inode: Inode,
    pub table: Map<int, Option<Block>>,
    pub bits: Seq<bool>,
}

/// The indirect block used at one level of a path, whether it was allocated
/// for this write, and the slots of the block bitmap after that.
pub struct Level {
    pub block: Block,
    pub fresh: bool,
    pub bits: Seq<bool>,
}

/// The indirect block at a level of a path: the one that `existing` names,
/// or, where it names none, the first free block of the bitmap, which is then
/// taken. `None` where a block is needed and none is free.
pub open spec fn descend(existing: Option<Block>, bits: Seq<bool>) -> Option<Level> {
    match existing {
        Some(block) => Some(Level { block, fresh: false, bits }),
        None => if first_free(bits) < bits.len() {
            Some(
                Level {
                    block: Block(first_free(bits) as u64),
                    fresh: true,
                    bits: after_allocate(bits),
                },
            )
        } else {
            None
        },
    }
}

/// What slot `index` of the indirect block of `level` holds: nothing where
/// the block was allocated for this write, and what `table` holds otherwise.
pub open spec fn child<M: IndirectTable>(
    table: Map<int, Option<Block>>,
    level: Level,
    index: BlockListIndex,
) -> Option<Block> {
    if level.fresh {
        None
    } else {
        lookup(table, M::slot(level.block, index))
    }
}

/// `table` with `parent`'s slot `index` pointing to the block of `level`,
/// where that block was allocated for this write.
pub open spec fn link<M: IndirectTable>(
    table: Map<int, Option<Block>>,
    parent: Level,
    index: BlockListIndex,
    level: Level,
) -> Map<int, Option<Block>> {
    if level.fresh {
        table.insert(M::slot(parent.block, index), Some(level.block))
    } else {
        table
    }
}

/// The number of blocks that a level allocated: one or none.
pub open spec fn fresh_blocks(level: Level) -> nat {
    if level.fresh {
        1
    } else {
        0
    }
}

/// `inode` with its size raised by one block for each indirect block that a
/// write allocated.
pub open spec fn grown(inode: Inode, allocated: nat) -> Inode {
    Inode { size: Byte((inode.size.0 + BLOCK_SIZE * allocated) as u64), ..inode }
}

/// The number of indirect blocks that the levels of a path allocated. A path
/// has at most three levels.
pub open spec fn allocated(path: Seq<Level>) -> nat {
    (if path.len() > 0 {
        fresh_blocks(path[0])
    } else {
        0
    }) + (if path.len() > 1 {
        fresh_blocks(path[1])
    } else {
        0
    }) + (if path.len() > 2 {
        fresh_blocks(path[2])
    } else {
        0
    })
}

/// The indirect blocks on the path of `inode_block`, from the one that the
/// inode points to down to the one that holds the block's pointer, as a
/// write finds or allocates them. Empty for a direct block, and `None` where
/// the block is out of range or a block is needed and none is free.
pub open spec fn levels<M: IndirectTable>(before: Mapping, inode_block: Block) -> Option<
    Seq<Level>,
> {
    match classify(inode_block) {
        Indirection::Direct { .. } => Some(Seq::empty()),
        Indirection::SinglyIndirect { .. } => match descend(
            before.inode.singly_indirect_block,
            before.bits,
        ) {
            Some(single) => Some(seq![single]),
            None => None,
        },
        Indirection::DoublyIndirect { doubly_indirect_index, .. } => match descend(
            before.inode.doubly_indirect_block,
            before.bits,
        ) {
            Some(double) => match descend(
                child::<M>(before.table, double, doubly_indirect_index),
                double.bits,
            ) {
                Some(single) => Some(seq![double, single]),
                None => None,
            },
            None => None,
        },
        Indirection::TriplyIndirect {
            triply_indirect_index,
            doubly_indirect_index,
            ..
        } => match descend(before.inode.triply_indirect_block, before.bits) {
            Some(triple) => match descend(
                child::<M>(before.table, triple, triply_indirect_index),
                triple.bits,
            ) {
                Some(double) => match descend(
                    child::<M>(before.table, double, doubly_indirect_index),
                    double.bits,
                ) {
                    Some(single) => Some(seq![triple, double, single]),
                    None => None,
                },
                None => None,
            },
            None => None,
        },
        Indirection::OutOfRange => None,
    }
}

/// The outcome of setting the physical block of `inode_block` to
/// `physical_block`, where it can be done.
///
/// A direct block changes the inode's pointer and nothing else. Otherwise
/// the pointer is written to its slot in the last indirect block of the
/// path, then each indirect block that was allocated for this write is
/// entered in its parent, from the bottom up, and at last in the inode,
/// whose size grows by one block for each.
pub open spec fn write_mapping<M: IndirectTable>(
    before: Mapping,
    inode_block: Block,
    physical_block: Option<Block>,
) -> Option<Mapping> {
    match levels::<M>(before, inode_block) {
        None => None,
        Some(path) => Some(
            match classify(inode_block) {
                Indirection::Direct { direct_index } => Mapping {
                    inode: before.inode.with_direct_block(direct_index.0 as int, physical_block),
                    ..before
                },
                Indirection::SinglyIndirect { singly_indirect_index } => Mapping {
                    inode: grown(
                        if path[0].fresh {
                            Inode { singly_indirect_block: Some(path[0].block), ..before.inode }
                        } else {
                            before.inode
                        },
                        allocated(path),
                    ),
                    table: before.table.insert(
                        M::slot(path[0].block, singly_indirect_index),
                        physical_block,
                    ),
                    bits: path[0].bits,
                },
                Indirection::DoublyIndirect {
                    doubly_indirect_index,
                    singly_indirect_index,
                } => Mapping {
                    inode: grown(
                        if path[0].fresh {
                            Inode { doubly_indirect_block: Some(path[0].block), ..before.inode }
                        } else {
                            before.inode
                        },
                        allocated(path),
                    ),
                    table: link::<M>(
                        before.table.insert(
                            M::slot(path[1].block, singly_indirect_index),
                            physical_block,
                        ),
                        path[0],
                        doubly_indirect_index,
                        path[1],
                    ),
                    bits: path[1].bits,
                },
                Indirection::TriplyIndirect {
                    triply_indirect_index,
                    doubly_indirect_index,
                    singly_indirect_index,
                } => Mapping {
                    inode: grown(
                        if path[0].fresh {
                            Inode { triply_indirect_block: Some(path[0].block), ..before.inode }
                        } else {
                            before.inode
                        },
                        allocated(path),
                    ),
                    table: link::<M>(
                        link::<M>(
                            before.table.insert(
                                M::slot(path[2].block, singly_indirect_index),
                                physical_block,
                            ),
                            path[1],
                            doubly_indirect_index,
                            path[2],
                        ),
                        path[0],
                        triply_indirect_index,
                        path[1],
                    ),
                    bits: path[2].bits,
                },
                Indirection::OutOfRange => before,
            },
        ),
    }
}

/// Whether a write to `inode_block` puts the inode into the inode store: a
/// direct block always does, any other where an indirect block is
/// allocated.
pub open spec fn puts_inode<M: IndirectTable>(before: Mapping, inode_block: Block) -> bool {
    levels::<M>(before, inode_block) matches Some(path) && (classify(inode_block) is Direct
        || allocated(path) > 0)
}

/// Whether `error` is a failure of a store or a lack of free blocks that came
/// up in `operation`.
pub open spec fn is_failure_in(error: IndirectionError, operation: Operation) -> bool {
    &&& error matches IndirectionError::Annotated(within, inner)
    &&& within == operation
    &&& (*inner is Io || *inner is OutOfBlocks)
}

/// The number of indirect blocks that a write to `inode_block` allocates:
/// none where the write cannot be done.
pub open spec fn blocks_allocated<M: IndirectTable>(before: Mapping, inode_block: Block) -> nat {
    match levels::<M>(before, inode_block) {
        Some(path) => allocated(path),
        None => 0,
    }
}

/// The places in the indirect map that a write to `inode_block` goes
/// through, from the indirect block that the inode points to down to the
/// slot of the block's own pointer.
pub open spec fn write_places<M: IndirectTable>(before: Mapping, inode_block: Block) -> Seq<int> {
    match (levels::<M>(before, inode_block), classify(inode_block)) {
        (Some(path), Indirection::SinglyIndirect { singly_indirect_index }) => seq![
            M::slot(path[0].block, singly_indirect_index),
        ],
        (
            Some(path),
            Indirection::DoublyIndirect { doubly_indirect_index, singly_indirect_index },
        ) => seq![
            M::slot(path[0].block, doubly_indirect_index),
            M::slot(path[1].block, singly_indirect_index),
        ],
        (
            Some(path),
            Indirection::TriplyIndirect {
                triply_indirect_index,
                doubly_indirect_index,
                singly_indirect_index,
            },
        ) => seq![
            M::slot(path[0].block, triply_indirect_index),
            M::slot(path[1].block, doubly_indirect_index),
            M::slot(path[2].block, singly_indirect_index),
        ],
        _ => Seq::empty(),
    }
}

/// Whether the indirect map does not fail on the slots that a write to
/// `inode_block` goes through.
pub open spec fn path_reliable<M: IndirectTable>(
    map: M,
    before: Mapping,
    inode_block: Block,
) -> bool {
    match (levels::<M>(before, inode_block), classify(inode_block)) {
        (Some(path), Indirection::SinglyIndirect { singly_indirect_index }) => map.reliable(
            path[0].block,
            singly_indirect_index,
        ),
        (
            Some(path),
            Indirection::DoublyIndirect { doubly_indirect_index, singly_indirect_index },
        ) => {
            &&& map.reliable(path[0].block, doubly_indirect_index)
            &&& map.reliable(path[1].block, singly_indirect_index)
        },
        (
            Some(path),
            Indirection::TriplyIndirect {
                triply_indirect_index,
                doubly_indirect_index,
                singly_indirect_index,
            },
        ) => {
            &&& map.reliable(path[0].block, triply_indirect_index)
            &&& map.reliable(path[1].block, doubly_indirect_index)
            &&& map.reliable(path[2].block, singly_indirect_index)
        },
        _ => true,
    }
}

/// Whether nothing stands in the way of a write to `inode_block`: the write
/// has an outcome, the indirect map does not fail on the slots of the path,
/// the physical block has a pointer value where it goes into an indirect
/// block, and the inode store takes the new inode where it is put.
pub open spec fn write_is_clear<M: IndirectTable, S: InodeStore>(
    map: M,
    store: S,
    before: Mapping,
    inode_block: Block,
    physical_block: Option<Block>,
) -> bool {
    &&& write_mapping::<M>(before, inode_block, physical_block) matches Some(after)
    &&& path_reliable(map, before, inode_block)
    &&& classify(inode_block) is Direct || encodable(physical_block)
    &&& puts_inode::<M>(before, inode_block) ==> S::infallible() || store.accepts(after.inode)
}

/// Size accounting: a write allocates at most three indirect blocks, takes
/// them from the bitmap one after the other, and raises the inode's size by
/// one block for each of them and by nothing else. The size never shrinks,
/// and the inode keeps its number.
pub proof fn lemma_size_accounting<M: IndirectTable>(
    before: Mapping,
    inode_block: Block,
    physical_block: Option<Block>,
)
    requires
        before.inode.size.0 + BLOCK_SIZE * blocks_allocated::<M>(before, inode_block) <= u64::MAX,
        write_mapping::<M>(before, inode_block, physical_block) is Some,
    ensures
        blocks_allocated::<M>(before, inode_block) <= 3,
        write_mapping::<M>(before, inode_block, physical_block)->0.inode.size.0
            == before.inode.size.0 + BLOCK_SIZE * blocks_allocated::<M>(before, inode_block),
        write_mapping::<M>(before, inode_block, physical_block)->0.inode.size.0
            >= before.inode.size.0,
        write_mapping::<M>(before, inode_block, physical_block)->0.inode.ino == before.inode.ino,
        write_mapping::<M>(before, inode_block, physical_block)->0.bits
            == after_allocations(before.bits, blocks_allocated::<M>(before, inode_block)),
{
    reveal_with_fuel(after_allocations, 4);
}

/// Write, then read: after a write that went through places of the indirect
/// map that differ from one another, the logical block resolves to the
/// physical block that was written.
pub proof fn lemma_write_then_read<M: IndirectTable>(
    before: Mapping,
    inode_block: Block,
    physical_block: Option<Block>,
)
    requires
        write_mapping::<M>(before, inode_block, physical_block) is Some,
        write_places::<M>(before, inode_block).no_duplicates(),
    ensures
        resolve::<M>(
            write_mapping::<M>(before, inode_block, physical_block)->0.table,
            write_mapping::<M>(before, inode_block, physical_block)->0.inode,
            inode_block,
        ) == physical_block,
{
    lemma_classify_bounds(inode_block);
}

/// The indirect blocks that a write allocates differ from one another.
pub proof fn lemma_fresh_blocks_differ(bits: Seq<bool>)
    requires
        bits.len() <= u64::MAX,
    ensures
        descend(None, bits) matches Some(first) ==> {
            &&& first.block.0 == first_free(bits)
            &&& first.block.0 < bits.len()
            &&& !bits[first.block.0 as int]
            &&& first.bits[first.block.0 as int]
            &&& first.bits.len() == bits.len()
            &&& forall|taken: int| 0 <= taken < bits.len() && bits[taken] ==> first.bits[taken]
            &&& descend(None, first.bits) matches Some(second) ==> second.block != first.block
        },
{
    lemma_first_free_properties(bits);
    lemma_first_free_properties(after_allocate(bits));
}

/// A write takes blocks and frees none: every block that was taken stays
/// taken, and every indirect block that the write allocated was free before
/// and is taken after.
pub proof fn lemma_write_takes_blocks<M: IndirectTable>(
    before: Mapping,
    inode_block: Block,
    physical_block: Option<Block>,
)
    requires
        before.bits.len() <= u64::MAX,
        write_mapping::<M>(before, inode_block, physical_block) is Some,
    ensures
        write_mapping::<M>(before, inode_block, physical_block)->0.bits.len() == before.bits.len(),
        forall|taken: int|
            0 <= taken < before.bits.len() && before.bits[taken] ==> write_mapping::<M>(
                before,
                inode_block,
                physical_block,
            )->0.bits[taken],
        forall|level: int|
            0 <= level < levels::<M>(before, inode_block)->0.len() && (#[trigger] levels::<M>(
                before,
                inode_block,
            )->0[level]).fresh ==> {
                &&& levels::<M>(before, inode_block)->0[level].block.0 < before.bits.len()
                &&& !before.bits[levels::<M>(before, inode_block)->0[level].block.0 as int]
                &&& write_mapping::<M>(before, inode_block, physical_block)->0.bits[levels::<M>(
                    before,
                    inode_block,
                )->0[level].block.0 as int]
            },
{
    let path = levels::<M>(before, inode_block)->0;
    lemma_fresh_blocks_differ(before.bits);
    if path.len() > 0 {
        lemma_fresh_blocks_differ(path[0].bits);
    }
    if path.len() > 1 {
        lemma_fresh_blocks_differ(path[1].bits);
    }
}

/// Write, then read, on an inode without blocks and a memory table: whatever
/// the table held and whichever blocks are free, after a write the logical
/// block resolves to the physical block that was written.
pub proof fn lemma_memory_write_then_read(
    before: Mapping,
    inode_block: Block,
    physical_block: Option<Block>,
)
    requires
        before.inode.is_empty(),
        before.bits.len() <= u64::MAX,
        write_mapping::<MemoryTable>(before, inode_block, physical_block) is Some,
    ensures
        resolve::<MemoryTable>(
            write_mapping::<MemoryTable>(before, inode_block, physical_block)->0.table,
            write_mapping::<MemoryTable>(before, inode_block, physical_block)->0.inode,
            inode_block,
        ) == physical_block,
{
    let path = levels::<MemoryTable>(before, inode_block)->0;
    lemma_fresh_blocks_differ(before.bits);
    if path.len() > 1 {
        lemma_fresh_blocks_differ(path[0].bits);
    }
    if path.len() > 2 {
        lemma_fresh_blocks_differ(path[1].bits);
    }
    lemma_write_then_read::<MemoryTable>(before, inode_block, physical_block);
}

/// Holes stay holes: after one write on an inode without blocks and an
/// empty memory table, every other logical block still has no physical
/// block.
pub proof fn lemma_memory_unwritten_blocks_are_holes(
    before: Mapping,
    inode_block: Block,
    physical_block: Option<Block>,
    other_block: Block,
)
    requires
        before.inode.is_empty(),
        before.table == Map::<int, Option<Block>>::empty(),
        before.bits.len() <= u64::MAX,
        write_mapping::<MemoryTable>(before, inode_block, physical_block) is Some,
        other_block != inode_block,
    ensures
        resolve::<MemoryTable>(
            write_mapping::<MemoryTable>(before, inode_block, physical_block)->0.table,
            write_mapping::<MemoryTable>(before, inode_block, physical_block)->0.inode,
            other_block,
        ) == None::<Block>,
{
    lemma_classify_bounds(inode_block);
    lemma_classify_bounds(other_block);
    if classify(other_block) == classify(inode_block) {
        lemma_classify_injective(inode_block, other_block);
    }
    let path = levels::<MemoryTable>(before, inode_block)->0;
    lemma_fresh_blocks_differ(before.bits);
    if path.len() > 1 {
        lemma_fresh_blocks_differ(path[0].bits);
    }
    if path.len() > 2 {
        lemma_fresh_blocks_differ(path[1].bits);
    }
}

/// Write, then read, on an inode without blocks and an indirect map on a
/// volume: after a write the logical block resolves to the physical block
/// that was written, but for the last doubly and the last triply indirect
/// block.
///
/// The path of those two goes through slot `BLOCK_POINTERS_PER_BLOCK` of its
/// first indirect block, which on a volume is slot 0 of the block after it.
/// Where that block is the next one of the path, the write of its parent's
/// pointer lands on what was written there before.
pub proof fn lemma_volume_write_then_read<V: Volume>(
    before: Mapping,
    inode_block: Block,
    physical_block: Option<Block>,
)
    requires
        before.inode.is_empty(),
        before.bits.len() <= u64::MAX,
        write_mapping::<Wrapper<V>>(before, inode_block, physical_block) is Some,
        inode_block.0 != DOUBLY_INDIRECT_MAX,
        inode_block.0 != TRIPLY_INDIRECT_MAX,
    ensures
        resolve::<Wrapper<V>>(
            write_mapping::<Wrapper<V>>(before, inode_block, physical_block)->0.table,
            write_mapping::<Wrapper<V>>(before, inode_block, physical_block)->0.inode,
            inode_block,
        ) == physical_block,
{
    lemma_classify_bounds(inode_block);
    let path = levels::<Wrapper<V>>(before, inode_block)->0;
    lemma_fresh_blocks_differ(before.bits);
    if path.len() > 1 {
        lemma_fresh_blocks_differ(path[0].bits);
    }
    if path.len() > 2 {
        lemma_fresh_blocks_differ(path[1].bits);
    }
    lemma_write_then_read::<Wrapper<V>>(before, inode_block, physical_block);
}

/// Sets the physical blocks of an inode's logical blocks. It owns the
/// indirect map, the inode store and the bitmap of free blocks that it works
/// with.
pub struct PhysicalWriter<M, S> {
    pub indirect_manager: M,
    pub inode_store: S,
    pub block_allocator: Bitmap<Block>,
}

impl<M: IndirectReader + IndirectWriter, S: InodeStore> PhysicalWriter<M, S> {
    pub fn new(indirect_manager: M, inode_store: S, allocator: Bitmap<Block>) -> (writer:
        PhysicalWriter<M, S>)
        ensures
            writer.indirect_manager == indirect_manager,
            writer.inode_store == inode_store,
            writer.block_allocator == allocator,
    {
        PhysicalWriter {
            indirect_manager: indirect_manager,
            inode_store: inode_store,
            block_allocator: allocator,
        }
    }

    /// What a write to `inode` works on.
    pub open spec fn mapping(&self, inode: Inode) -> Mapping {
        Mapping { inode, table: self.indirect_manager.table(), bits: self.block_allocator@ }
    }

    /// Sets the physical block of logical block `inode_block` of `inode` to
    /// `physical_block`.
    ///
    /// On success the inode, the indirect map and the bitmap are as
    /// `write_mapping` says, and the inode store has been handed the new
    /// inode exactly where `puts_inode` holds; otherwise the store is as it
    /// was. On failure the inode is as it was. A block past the last one
    /// that an inode can hold gives `OutOfRange` and leaves everything as it
    /// was. Every other failure comes with this operation around it: a
    /// failure of the indirect map or of the inode store, or `OutOfBlocks`
    /// where an indirect block is needed and none is free. The write fails
    /// wherever `write_mapping` gives no outcome, and it succeeds wherever
    /// `write_is_clear` holds. Where the inode has no
    /// pointer yet for the block's range and no outcome is given, the write
    /// fails with `OutOfBlocks` and has touched neither the indirect map nor
    /// the inode store.
    ///
    /// The size of the inode leaves room for the blocks that the write
    /// allocates: it is a `u64`.
    pub fn write_physical(
        &mut self,
        inode: &mut Inode,
        inode_block: Block,
        physical_block: Option<Block>,
    ) -> (written: Result<(), IndirectionError>)
        requires
            old(inode).size.0 + BLOCK_SIZE * blocks_allocated::<M>(
                old(self).mapping(*old(inode)),
                inode_block,
            ) <= u64::MAX,
        ensures
            written is Ok ==> write_mapping::<M>(
                old(self).mapping(*old(inode)),
                inode_block,
                physical_block,
            ) == Some(final(self).mapping(*final(inode))),
            written is Ok ==> if puts_inode::<M>(old(self).mapping(*old(inode)), inode_block) {
                final(self).inode_store.inodes() == old(self).inode_store.inodes().insert(
                    old(inode).ino,
                    S::kept(*final(inode)),
                )
            } else {
                final(self).inode_store == old(self).inode_store
            },
            written is Err ==> *final(inode) == *old(inode),
            write_is_clear(
                old(self).indirect_manager,
                old(self).inode_store,
                old(self).mapping(*old(inode)),
                inode_block,
                physical_block,
            ) ==> written is Ok,
            classify(inode_block) is OutOfRange <==> written == Err::<(), IndirectionError>(
                IndirectionError::OutOfRange,
            ),
            classify(inode_block) is OutOfRange ==> *final(self) == *old(self),
            written matches Err(error) ==> classify(inode_block) is OutOfRange || is_failure_in(
                error,
                Operation::WritePhysical { ino: old(inode).ino, inode_block },
            ),
            written matches Err(IndirectionError::Annotated(_, inner)) && *inner is OutOfBlocks
                ==> levels::<M>(old(self).mapping(*old(inode)), inode_block) is None,
            !(classify(inode_block) is OutOfRange) && top_pointer(*old(inode), inode_block) is None
                && levels::<M>(old(self).mapping(*old(inode)), inode_block) is None ==> {
                &&& written == Err::<(), IndirectionError>(
                    IndirectionError::OutOfBlocks.within(
                        Operation::WritePhysical { ino: old(inode).ino, inode_block },
                    ),
                )
                &&& final(self).indirect_manager == old(self).indirect_manager
                &&& final(self).inode_store == old(self).inode_store
            },
    {
        let operation = Operation::WritePhysical { ino: inode.ino, inode_block };
        proof {
            lemma_classify_bounds(inode_block);
        }
        match Indirection::from(inode_block) {
            Indirection::Direct { direct_index } => {
                let mut updated = inode.clone();
                updated.set_direct_block(direct_index, physical_block);
                self.update_inode(inode, updated, operation)
            },
            Indirection::SinglyIndirect { singly_indirect_index } => {
                let single = self.level(inode.singly_indirect_block, operation)?;
                self.store(single.0, singly_indirect_index, physical_block, operation)?;
                if single.1 {
                    let mut updated = inode.clone();
                    updated.singly_indirect_block = Some(single.0);
                    updated.size = Byte::new(updated.size.0 + BLOCK_SIZE);
                    self.update_inode(inode, updated, operation)?;
                }
                Ok(())
            },
            Indirection::DoublyIndirect { doubly_indirect_index, singly_indirect_index } => {
                let double = self.level(inode.doubly_indirect_block, operation)?;
                let existing = self.load(double, doubly_indirect_index, operation)?;
                let single = self.level(existing, operation)?;
                self.store(single.0, singly_indirect_index, physical_block, operation)?;
                if single.1 {
                    self.store(double.0, doubly_indirect_index, Some(single.0), operation)?;
                    let mut updated = inode.clone();
                    let mut allocated_size = BLOCK_SIZE;
                    if double.1 {
                        updated.doubly_indirect_block = Some(double.0);
                        allocated_size = BLOCK_SIZE * 2;
                    }
                    updated.size = Byte::new(updated.size.0 + allocated_size);
                    self.update_inode(inode, updated, operation)?;
                }
                Ok(())
            },
            Indirection::TriplyIndirect {
                triply_indirect_index,
                doubly_indirect_index,
                singly_indirect_index,
            } => {
                let triple = self.level(inode.triply_indirect_block, operation)?;
                let existing = self.load(triple, triply_indirect_index, operation)?;
                let double = self.level(existing, operation)?;
                let existing = self.load(double, doubly_indirect_index, operation)?;
                let single = self.level(existing, operation)?;
                self.store(single.0, singly_indirect_index, physical_block, operation)?;
                if single.1 {
                    self.store(double.0, doubly_indirect_index, Some(single.0), operation)?;
                    let mut allocated_size = BLOCK_SIZE;
                    if double.1 {
                        self.store(triple.0, triply_indirect_index, Some(double.0), operation)?;
                        allocated_size = BLOCK_SIZE * 2;
                    }
                    let mut updated = inode.clone();
                    if triple.1 {
                        updated.triply_indirect_block = Some(triple.0);
                        allocated_size = BLOCK_SIZE * 3;
                    }
                    updated.size = Byte::new(updated.size.0 + allocated_size);
                    self.update_inode(inode, updated, operation)?;
                }
                Ok(())
            },
            Indirection::OutOfRange => Err(IndirectionError::OutOfRange),
        }
    }

    /// Puts `updated` into the inode store and, where that succeeds, makes
    /// it the caller's inode: the caller's inode and the stored one do not
    /// part.
    fn update_inode(&mut self, inode: &mut Inode, updated: Inode, operation: Operation) -> (put:
        Result<(), IndirectionError>)
        ensures
            final(self).indirect_manager == old(self).indirect_manager,
            final(self).block_allocator == old(self).block_allocator,
            S::infallible() || old(self).inode_store.accepts(updated) ==> put is Ok,
            match put {
                Ok(_) => {
                    &&& *final(inode) == updated
                    &&& final(self).inode_store.inodes() == old(self).inode_store.inodes().insert(
                        updated.ino,
                        S::kept(updated),
                    )
                },
                Err(error) => {
                    &&& *final(inode) == *old(inode)
                    &&& is_failure_in(error, operation)
                    &&& !(error matches IndirectionError::Annotated(_, inner) && *inner
                        is OutOfBlocks)
                },
            },
    {
        let put = self.inode_store.put(&updated);
        commit(inode, updated, put, operation)
    }

    /// The indirect block at a level of a path and whether it was allocated
    /// just now: the block that `existing` names, or, where it names none,
    /// the first free block.
    fn level(&mut self, existing: Option<Block>, operation: Operation) -> (found: Result<
        (Block, bool),
        IndirectionError,
    >)
        ensures
            final(self).indirect_manager == old(self).indirect_manager,
            final(self).inode_store == old(self).inode_store,
            match descend(existing, old(self).block_allocator@) {
                Some(level) => found == Ok::<(Block, bool), IndirectionError>(
                    (level.block, level.fresh),
                ) && final(self).block_allocator@ == level.bits,
                None => found == Err::<(Block, bool), IndirectionError>(
                    IndirectionError::OutOfBlocks.within(operation),
                ),
            },
            existing is Some ==> final(self).block_allocator == old(self).block_allocator,
            found matches Ok(level) ==> (level.1 ==> level.0.0 < u64::MAX),
    {
        match existing {
            Some(block) => Ok((block, false)),
            None => match allocate_block(self) {
                Ok(block) => Ok((block, true)),
                Err(error) => Err(error.annotate(operation)),
            },
        }
    }

    /// What slot `index` of the indirect block of a level holds: nothing
    /// where the block was allocated just now.
    fn load(&self, level: (Block, bool), index: BlockListIndex, operation: Operation) -> (loaded:
        Result<Option<Block>, IndirectionError>)
        ensures
            level.1 || self.indirect_manager.reliable(level.0, index) ==> loaded is Ok,
            match loaded {
                Ok(target) => target == if level.1 {
                    None
                } else {
                    lookup(self.indirect_manager.table(), M::slot(level.0, index))
                },
                Err(error) => {
                    &&& is_failure_in(error, operation)
                    &&& !(error matches IndirectionError::Annotated(_, inner) && *inner
                        is OutOfBlocks)
                },
            },
    {
        if level.1 {
            Ok(None)
        } else {
            match self.indirect_manager.read_indirect(level.0, index) {
                Ok(target) => Ok(target),
                Err(error) => Err(IndirectionError::from(error).annotate(operation)),
            }
        }
    }

    /// Writes `target` to slot `index` of indirect block `block`.
    fn store(
        &mut self,
        block: Block,
        index: BlockListIndex,
        target: Option<Block>,
        operation: Operation,
    ) -> (stored: Result<(), IndirectionError>)
        ensures
            final(self).inode_store == old(self).inode_store,
            final(self).block_allocator == old(self).block_allocator,
            old(self).indirect_manager.reliable(block, index) && encodable(target)
                ==> stored is Ok,
            forall|any: Block, slot: BlockListIndex| #[trigger]
                final(self).indirect_manager.reliable(any, slot) == old(
                    self,
                ).indirect_manager.reliable(any, slot),
            match stored {
                Ok(_) => final(self).indirect_manager.table() == old(
                    self,
                ).indirect_manager.table().insert(M::slot(block, index), target),
                Err(error) => {
                    &&& is_failure_in(error, operation)
                    &&& !(error matches IndirectionError::Annotated(_, inner) && *inner
                        is OutOfBlocks)
                },
            },
    {
        match self.indirect_manager.write_indirect(block, index, target) {
            Ok(_) => Ok(()),
            Err(error) => Err(IndirectionError::from(error).annotate(operation)),
        }
    }
}

/// The end of an update of an inode, once the inode store has answered the
/// put of `updated`: where the put succeeded, `updated` becomes the caller's
/// inode, and where it failed, the caller's inode stays as it is and the
/// failure is returned as it came up in `operation`. So the caller's inode
/// moves on exactly when the stored one does.
pub fn commit(
    inode: &mut Inode,
    updated: Inode,
    put: Result<(), IoError>,
    operation: Operation,
) -> (committed: Result<(), IndirectionError>)
    ensures
        match put {
            Ok(_) => committed is Ok && *final(inode) == updated,
            Err(error) => {
                &&& committed == Err::<(), IndirectionError>(
                    IndirectionError::Io(error).within(operation),
                )
                &&& *final(inode) == *old(inode)
            },
        },
{
    match put {
        Ok(_) => {
            *inode = updated;
            Ok(())
        },
        Err(error) => Err(IndirectionError::from(error).annotate(operation)),
    }
}

/// Takes the first free block of the writer's bitmap, or fails with
/// `OutOfBlocks` where none is free.
pub fn allocate_block<M, S>(c: &mut PhysicalWriter<M, S>) -> (allocated: Result<
    Block,
    IndirectionError,
>)
    ensures
        final(c).indirect_manager == old(c).indirect_manager,
        final(c).inode_store == old(c).inode_store,
        final(c).block_allocator@ == after_allocate(old(c).block_allocator@),
        old(c).block_allocator@.len() <= u64::MAX,
        match allocated {
            Ok(block) => {
                &&& first_free(old(c).block_allocator@) < old(c).block_allocator@.len()
                &&& block == Block(first_free(old(c).block_allocator@) as u64)
            },
            Err(error) => {
                &&& error == IndirectionError::OutOfBlocks
                &&& first_free(old(c).block_allocator@) >= old(c).block_allocator@.len()
            },
        },
{
    match c.block_allocator.allocate() {
        Some(block) => Ok(block),
        None => Err(IndirectionError::OutOfBlocks),
    }
}

/// A source of free blocks.
pub trait Allocator {
    fn allocate(&self) -> Option<Block>;
}

} // verus!
