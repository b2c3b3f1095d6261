//! From an inode and one of its logical blocks to the physical block that
//! holds it.

use crate::block::{classify, Block, BlockListIndex, Indirection};
use crate::error::{IndirectionError, IoError, Operation};
use crate::indirectmanager::{lookup, IndirectReader, IndirectTable};
use crate::inode::Inode;
use vstd::prelude::*;

verus! {

/// One step down from an indirect block: what `table` holds in slot `index`
/// of `block`, and `None` where there is no block to look into.
pub open spec fn follow<R: IndirectTable>(
    table: Map<int, Option<Block>>,
    block: Option<Block>,
    index: BlockListIndex,
) -> Option<Block> {
    match block {
        None => None,
        Some(block) => lookup(table, R::slot(block, index)),
    }
}

/// The physical block of logical block `inode_block` of `inode`: the end of
/// the block's path through the inode's pointers and `table`, and `None`
/// where a pointer on the path is `None` or the block is out of range.
pub open spec fn resolve<R: IndirectTable>(
    table: Map<int, Option<Block>>,
    inode: Inode,
    inode_block: Block,
) -> Option<Block> {
    match classify(inode_block) {
        Indirection::Direct { direct_index } => inode.direct_blocks@[direct_index.0 as int],
        Indirection::SinglyIndirect { singly_indirect_index } => follow::<R>(
            table,
            inode.singly_indirect_block,
            singly_indirect_index,
        ),
        Indirection::DoublyIndirect { doubly_indirect_index, singly_indirect_index } => follow::<R>(
            table,
            follow::<R>(table, inode.doubly_indirect_block, doubly_indirect_index),
            singly_indirect_index,
        ),
        Indirection::TriplyIndirect {
            triply_indirect_index,
            doubly_indirect_index,
            singly_indirect_index,
        } => follow::<R>(
            table,
            follow::<R>(
                table,
                follow::<R>(table, inode.triply_indirect_block, triply_indirect_index),
                doubly_indirect_index,
            ),
            singly_indirect_index,
        ),
        Indirection::OutOfRange => None,
    }
}

/// The pointer of `inode` from which the path of `inode_block` starts, where
/// the path goes through indirect blocks.
pub open spec fn top_pointer(inode: Inode, inode_block: Block) -> Option<Block> {
    match classify(inode_block) {
        Indirection::SinglyIndirect { .. } => inode.singly_indirect_block,
        Indirection::DoublyIndirect { .. } => inode.doubly_indirect_block,
        Indirection::TriplyIndirect { .. } => inode.triply_indirect_block,
        _ => None,
    }
}

/// Whether the indirect map does not fail on slot `index` of `block`, where
/// there is a block to look into.
pub open spec fn step_reliable<R: IndirectTable>(
    reader: R,
    block: Option<Block>,
    index: BlockListIndex,
) -> bool {
    block matches Some(block) ==> reader.reliable(block, index)
}

/// Whether the indirect map does not fail on any slot that the search for
/// the physical block of `inode_block` looks into: the slots on the block's
/// path, down to the first that holds no block.
pub open spec fn chain_reliable<R: IndirectTable>(
    reader: R,
    inode: Inode,
    inode_block: Block,
) -> bool {
    match classify(inode_block) {
        Indirection::SinglyIndirect { singly_indirect_index } => step_reliable(
            reader,
            inode.singly_indirect_block,
            singly_indirect_index,
        ),
        Indirection::DoublyIndirect { doubly_indirect_index, singly_indirect_index } => {
            &&& step_reliable(reader, inode.doubly_indirect_block, doubly_indirect_index)
            &&& step_reliable(
                reader,
                follow::<R>(reader.table(), inode.doubly_indirect_block, doubly_indirect_index),
                singly_indirect_index,
            )
        },
        Indirection::TriplyIndirect {
            triply_indirect_index,
            doubly_indirect_index,
            singly_indirect_index,
        } => {
            &&& step_reliable(reader, inode.triply_indirect_block, triply_indirect_index)
            &&& step_reliable(
                reader,
                follow::<R>(reader.table(), inode.triply_indirect_block, triply_indirect_index),
                doubly_indirect_index,
            )
            &&& step_reliable(
                reader,
                follow::<R>(
                    reader.table(),
                    follow::<R>(
                        reader.table(),
                        inode.triply_indirect_block,
                        triply_indirect_index,
                    ),
                    doubly_indirect_index,
                ),
                singly_indirect_index,
            )
        },
        _ => true,
    }
}

/// Whether `error` is a failure of the indirect map that came up in
/// `operation`.
pub open spec fn is_io_failure_in(error: IndirectionError, operation: Operation) -> bool {
    &&& error matches IndirectionError::Annotated(within, inner)
    &&& within == operation
    &&& *inner is Io
}

/// A logical block of an empty inode has no physical block, whatever the
/// indirect map holds.
pub proof fn lemma_empty_inode_has_no_blocks<R: IndirectTable>(
    table: Map<int, Option<Block>>,
    inode: Inode,
    inode_block: Block,
)
    requires
        inode.is_empty(),
    ensures
        resolve::<R>(table, inode, inode_block) == None::<Block>,
{
    crate::block::lemma_classify_bounds(inode_block);
}

/// Finds physical blocks through an indirect map.
pub struct PhysicalReader<R> {
    pub indirect_reader: R,
}

impl<R: IndirectReader> PhysicalReader<R> {
    pub fn new(indirect_reader: R) -> (reader: PhysicalReader<R>)
        ensures
            reader.indirect_reader == indirect_reader,
    {
        Self { indirect_reader }
    }

    /// The physical block of logical block `inode_block` of `inode`, `None`
    /// where the block has none.
    ///
    /// A block past the last one that an inode can hold gives `OutOfRange`.
    /// A failure of the indirect map is returned with this operation
    /// around it. Nothing else fails, and where the indirect map does not
    /// fail on the slots that the search looks into, if any, nothing fails
    /// at all.
    pub fn read_physical(&self, inode: &Inode, inode_block: Block) -> (read: Result<
        Option<Block>,
        IndirectionError,
    >)
        ensures
            classify(inode_block) is OutOfRange <==> read == Err::<Option<Block>, IndirectionError>(
                IndirectionError::OutOfRange,
            ),
            read matches Ok(physical_block) ==> physical_block == resolve::<R>(
                self.indirect_reader.table(),
                *inode,
                inode_block,
            ),
            read matches Err(error) ==> classify(inode_block) is OutOfRange || is_io_failure_in(
                error,
                Operation::ReadPhysical { ino: inode.ino, inode_block },
            ),
            !(classify(inode_block) is OutOfRange) && chain_reliable(
                self.indirect_reader,
                *inode,
                inode_block,
            ) ==> read is Ok,
    {
        proof {
            crate::block::lemma_classify_bounds(inode_block);
        }
        let found = match Indirection::from(inode_block) {
            Indirection::Direct { direct_index } => {
                return Ok(direct_index.get_direct_block(&inode.direct_blocks));
            },
            Indirection::SinglyIndirect { singly_indirect_index } => self.get_singly_indirect(
                inode.singly_indirect_block,
                singly_indirect_index,
            ),
            Indirection::DoublyIndirect {
                doubly_indirect_index,
                singly_indirect_index,
            } => self.get_doubly_indirect(
                inode.doubly_indirect_block,
                doubly_indirect_index,
                singly_indirect_index,
            ),
            Indirection::TriplyIndirect {
                triply_indirect_index,
                doubly_indirect_index,
                singly_indirect_index,
            } => self.get_triply_indirect(
                inode.triply_indirect_block,
                triply_indirect_index,
                doubly_indirect_index,
                singly_indirect_index,
            ),
            Indirection::OutOfRange => {
                return Err(IndirectionError::OutOfRange);
            },
        };
        match found {
            Ok(physical_block) => Ok(physical_block),
            Err(error) => Err(
                IndirectionError::from(error).annotate(
                    Operation::ReadPhysical { ino: inode.ino, inode_block },
                ),
            ),
        }
    }

    fn get_singly_indirect(&self, block: Option<Block>, index: BlockListIndex) -> (read: Result<
        Option<Block>,
        IoError,
    >)
        ensures
            read matches Ok(target) ==> target == follow::<R>(
                self.indirect_reader.table(),
                block,
                index,
            ),
            step_reliable(self.indirect_reader, block, index) ==> read is Ok,
    {
        match block {
            None => Ok(None),
            Some(b) => self.indirect_reader.read_indirect(b, index),
        }
    }

    fn get_doubly_indirect(
        &self,
        block: Option<Block>,
        doubly_indirect_index: BlockListIndex,
        singly_indirect_index: BlockListIndex,
    ) -> (read: Result<Option<Block>, IoError>)
        ensures
            read matches Ok(target) ==> target == follow::<R>(
                self.indirect_reader.table(),
                follow::<R>(self.indirect_reader.table(), block, doubly_indirect_index),
                singly_indirect_index,
            ),
            step_reliable(self.indirect_reader, block, doubly_indirect_index) && step_reliable(
                self.indirect_reader,
                follow::<R>(self.indirect_reader.table(), block, doubly_indirect_index),
                singly_indirect_index,
            ) ==> read is Ok,
    {
        let block = match block {
            None => None,
            Some(b) => self.indirect_reader.read_indirect(b, doubly_indirect_index)?,
        };
        self.get_singly_indirect(block, singly_indirect_index)
    }

    fn get_triply_indirect(
        &self,
        block: Option<Block>,
        triply_indirect_index: BlockListIndex,
        doubly_indirect_index: BlockListIndex,
        singly_indirect_index: BlockListIndex,
    ) -> (read: Result<Option<Block>, IoError>)
        ensures
            read matches Ok(target) ==> target == follow::<R>(
                self.indirect_reader.table(),
                follow::<R>(
                    self.indirect_reader.table(),
                    follow::<R>(self.indirect_reader.table(), block, triply_indirect_index),
                    doubly_indirect_index,
                ),
                singly_indirect_index,
            ),
            step_reliable(self.indirect_reader, block, triply_indirect_index) && step_reliable(
                self.indirect_reader,
                follow::<R>(self.indirect_reader.table(), block, triply_indirect_index),
                doubly_indirect_index,
            ) && step_reliable(
                self.indirect_reader,
                follow::<R>(
                    self.indirect_reader.table(),
                    follow::<R>(self.indirect_reader.table(), block, triply_indirect_index),
                    doubly_indirect_index,
                ),
                singly_indirect_index,
            ) ==> read is Ok,
    {
        let block = match block {
            None => None,
            Some(b) => self.indirect_reader.read_indirect(b, triply_indirect_index)?,
        };
        self.get_doubly_indirect(block, doubly_indirect_index, singly_indirect_index)
    }
}

} // verus!
