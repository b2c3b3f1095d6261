//! Reading and writing the bytes of one logical block of an inode.

use crate::block::{classify, Block, BLOCK_SIZE};
use crate::byte::Byte;
use crate::error::{IndirectionError, IoError, Operation};
use crate::indirectmanager::IndirectReader;
use crate::inode::Inode;
use crate::inodeblock::physicalreader::{
    chain_reliable, is_io_failure_in, resolve, PhysicalReader,
};
use crate::io::readat::{ReadAt, Volume};
use crate::io::writeat::{splice, WriteAt};
use vstd::prelude::*;

verus! {

/// What holds the data of inodes, as readers and writers of it speak of it.
///
/// A verified holder says in `data` and `physical` what it holds, and its
/// reads and writes are proved against that. The bodies given here are for a
/// holder that is written without proof, which has nothing to say; nothing
/// that is proved of a holder in general rests on them.
pub trait InodeBlocks {
    /// The bytes of the volume that holds the data.
    open spec fn data(&self) -> Seq<u8> {
        Seq::empty()
    }

    /// The physical block that holds logical block `inode_block` of `inode`,
    /// if it has one.
    open spec fn physical(&self, inode: Inode, inode_block: Block) -> Option<Block> {
        None
    }

    /// Whether nothing fails on the way to logical block `inode_block` of
    /// `inode`: the search for its physical block succeeds, and so does a
    /// transfer of at least one byte that lies within the volume.
    open spec fn reachable(&self, inode: Inode, inode_block: Block) -> bool {
        false
    }
}

/// Whether a transfer of `length` bytes at `offset` in logical block
/// `inode_block` of `inode` is one that can be made: the block has a
/// physical block, there is at least one byte to transfer, and the bytes
/// lie within the volume, from a place that a `u64` holds.
pub open spec fn within_data<M: InodeBlocks + ?Sized>(
    manager: &M,
    inode: Inode,
    inode_block: Block,
    offset: Byte,
    length: nat,
) -> bool {
    &&& manager.physical(inode, inode_block) matches Some(physical_block)
    &&& length >= 1
    &&& data_place(physical_block, offset) <= u64::MAX
    &&& data_place(physical_block, offset) + length <= manager.data().len()
}

/// The place on the data volume of the byte at `offset` in physical block
/// `physical_block`.
pub open spec fn data_place(physical_block: Block, offset: Byte) -> int {
    physical_block.0 * BLOCK_SIZE + offset.0
}

/// Reads from the logical blocks of inodes.
pub trait Reader: InodeBlocks {
    /// Fills `buf` with the bytes that start at `offset` in logical block
    /// `inode_block` of `inode`. The bytes asked for end within the block.
    ///
    /// A read that succeeds has found the block's physical block and filled
    /// all of `buf` from it. A read of a reachable block succeeds where the
    /// transfer is one that can be made.
    fn read_inode_block(
        &self,
        inode: &Inode,
        inode_block: Block,
        offset: Byte,
        buf: &mut [u8],
    ) -> (read: Result<(), IndirectionError>)
        requires
            offset.0 + old(buf)@.len() <= BLOCK_SIZE,
        ensures
            final(buf)@.len() == old(buf)@.len(),
            read is Ok ==> self.physical(*inode, inode_block) is Some,
            read is Ok ==> data_place(self.physical(*inode, inode_block)->0, offset) + old(
                buf,
            )@.len() <= self.data().len(),
            read is Ok ==> final(buf)@ == self.data().subrange(
                data_place(self.physical(*inode, inode_block)->0, offset),
                data_place(self.physical(*inode, inode_block)->0, offset) + old(buf)@.len(),
            ),
            self.reachable(*inode, inode_block) && within_data(
                self,
                *inode,
                inode_block,
                offset,
                old(buf)@.len(),
            ) ==> read is Ok,
    ;
}

/// Writes to the logical blocks of inodes.
pub trait Writer: InodeBlocks {
    /// Writes the bytes of `buf` from `offset` on in logical block
    /// `inode_block` of `inode`.
    ///
    /// A write that succeeds has found the block's physical block, written
    /// all of `buf` there and changed no other byte, and has left every
    /// logical block where it was. A write to a reachable block succeeds
    /// where the transfer is one that can be made. Whatever comes of the
    /// write, every block stays as reachable as it was.
    fn write_inode_block(
        &mut self,
        inode: &Inode,
        inode_block: Block,
        offset: Byte,
        buf: &[u8],
    ) -> (written: Result<(), IndirectionError>)
        ensures
            written is Ok ==> old(self).physical(*inode, inode_block) is Some,
            written is Ok ==> data_place(old(self).physical(*inode, inode_block)->0, offset)
                + buf@.len() <= old(self).data().len(),
            written is Ok ==> final(self).data() == splice(
                old(self).data(),
                data_place(old(self).physical(*inode, inode_block)->0, offset),
                buf@,
            ),
            written is Ok ==> forall|any: Inode, block: Block| #[trigger]
                final(self).physical(any, block) == old(self).physical(any, block),
            old(self).reachable(*inode, inode_block) && within_data(
                &*old(self),
                *inode,
                inode_block,
                offset,
                buf@.len(),
            ) ==> written is Ok,
            forall|any: Inode, block: Block| #[trigger]
                final(self).reachable(any, block) == old(self).reachable(any, block),
    ;
}

/// The place on the data volume of the byte at `offset` in physical block
/// `physical_block`, where a `u64` holds it.
pub fn absolute_offset(physical_block: Block, offset: Byte) -> (place: Option<Byte>)
    ensures
        match place {
            Some(place) => place.0 == data_place(physical_block, offset),
            None => data_place(physical_block, offset) > u64::MAX,
        },
{
    match physical_block.0.checked_mul(BLOCK_SIZE) {
        Some(start) => match start.checked_add(offset.0) {
            Some(place) => Some(Byte::new(place)),
            None => None,
        },
        None => None,
    }
}

/// Whether a transfer at `offset` in a block with the physical block `found`
/// has no place to go to: the block has no physical block, or the place is
/// one that no `u64` holds.
pub open spec fn block_place_fails(found: Option<Block>, offset: Byte) -> bool {
    found matches Some(physical_block) ==> data_place(physical_block, offset) > u64::MAX
}

/// Where on the data volume a transfer at `offset` in a block starts, once
/// the block's physical block was looked for and `found`: in the physical
/// block, at the offset. A block without a physical block has no bytes, and
/// a place that no `u64` holds lies past the end of every volume: the
/// transfer then ends with `UnexpectedEof`.
pub fn block_place(found: Option<Block>, offset: Byte) -> (place: Result<Byte, IoError>)
    ensures
        place == match found {
            Some(physical_block) if data_place(physical_block, offset) <= u64::MAX => Ok::<
                Byte,
                IoError,
            >(Byte(data_place(physical_block, offset) as u64)),
            _ => Err::<Byte, IoError>(IoError::UnexpectedEof),
        },
{
    match found {
        Some(physical_block) => match absolute_offset(physical_block, offset) {
            Some(place) => Ok(place),
            None => Err(IoError::UnexpectedEof),
        },
        None => Err(IoError::UnexpectedEof),
    }
}

/// Reads and writes the logical blocks of inodes on a volume, each where
/// its inode's pointers and an indirect map place it.
pub struct Manager<R: IndirectReader, V> {
    pub physical_reader: PhysicalReader<R>,
    pub volume: V,
}

impl<R: IndirectReader, V> Manager<R, V> {
    pub fn new(physical_reader: PhysicalReader<R>, volume: V) -> (manager: Manager<R, V>)
        ensures
            manager.physical_reader == physical_reader,
            manager.volume == volume,
    {
        Manager { physical_reader, volume }
    }
}

impl<R: IndirectReader, V: Volume> InodeBlocks for Manager<R, V> {
    open spec fn data(&self) -> Seq<u8> {
        self.volume.bytes()
    }

    open spec fn physical(&self, inode: Inode, inode_block: Block) -> Option<Block> {
        resolve::<R>(self.physical_reader.indirect_reader.table(), inode, inode_block)
    }

    /// A block is reachable where the indirect map does not fail on the
    /// slots of its path and the volume is dependable.
    open spec fn reachable(&self, inode: Inode, inode_block: Block) -> bool {
        &&& chain_reliable(self.physical_reader.indirect_reader, inode, inode_block)
        &&& self.volume.dependable()
    }
}

impl<R: IndirectReader, V: ReadAt> Reader for Manager<R, V> {
    /// The read fails as the search for the physical block fails, with that
    /// error; with `UnexpectedEof` where the block has no physical block or
    /// its place is one that no `u64` holds; and as the volume's read fails,
    /// with that error.
    fn read_inode_block(
        &self,
        inode: &Inode,
        inode_block: Block,
        offset: Byte,
        buf: &mut [u8],
    ) -> (read: Result<(), IndirectionError>)
        ensures
            classify(inode_block) is OutOfRange <==> read == Err::<(), IndirectionError>(
                IndirectionError::OutOfRange,
            ),
            read matches Err(error) ==> {
                ||| error == IndirectionError::OutOfRange
                ||| error is Io
                ||| is_io_failure_in(error, Operation::ReadPhysical { ino: inode.ino, inode_block })
            },
            !(classify(inode_block) is OutOfRange) && chain_reliable(
                self.physical_reader.indirect_reader,
                *inode,
                inode_block,
            ) && block_place_fails(self.physical(*inode, inode_block), offset) ==> {
                &&& read == Err::<(), IndirectionError>(
                    IndirectionError::Io(IoError::UnexpectedEof),
                )
                &&& final(buf)@ == old(buf)@
            },
    {
        let found = self.physical_reader.read_physical(inode, inode_block)?;
        match block_place(found, offset) {
            Ok(place) => match self.volume.read_at(place, buf) {
                Ok(_) => Ok(()),
                Err(error) => Err(IndirectionError::from(error)),
            },
            Err(error) => Err(IndirectionError::from(error)),
        }
    }
}

impl<R: IndirectReader, V: WriteAt> Writer for Manager<R, V> {
    /// The write fails as the search for the physical block fails, with
    /// that error. Every other failure comes with this operation around it:
    /// `UnexpectedEof` where the block has no physical block or its place is
    /// one that no `u64` holds, and the error of the volume's write.
    fn write_inode_block(
        &mut self,
        inode: &Inode,
        inode_block: Block,
        offset: Byte,
        buf: &[u8],
    ) -> (written: Result<(), IndirectionError>)
        ensures
            final(self).physical_reader == old(self).physical_reader,
            classify(inode_block) is OutOfRange <==> written == Err::<(), IndirectionError>(
                IndirectionError::OutOfRange,
            ),
            !(classify(inode_block) is OutOfRange) && chain_reliable(
                old(self).physical_reader.indirect_reader,
                *inode,
                inode_block,
            ) && block_place_fails(old(self).physical(*inode, inode_block), offset) ==> {
                &&& written == Err::<(), IndirectionError>(
                    IndirectionError::Io(IoError::UnexpectedEof).within(
                        Operation::WriteInodeBlock {
                            length: buf@.len() as usize,
                            ino: inode.ino,
                            inode_block,
                            offset,
                        },
                    ),
                )
                &&& *final(self) == *old(self)
            },
            written matches Err(error) ==> {
                ||| error == IndirectionError::OutOfRange
                ||| is_io_failure_in(error, Operation::ReadPhysical { ino: inode.ino, inode_block })
                ||| is_io_failure_in(
                    error,
                    Operation::WriteInodeBlock {
                        length: buf@.len() as usize,
                        ino: inode.ino,
                        inode_block,
                        offset,
                    },
                )
            },
    {
        let operation = Operation::WriteInodeBlock {
            length: buf.len(),
            ino: inode.ino,
            inode_block,
            offset,
        };
        let found = self.physical_reader.read_physical(inode, inode_block)?;
        let failure = match block_place(found, offset) {
            Ok(place) => match self.volume.write_at(place, buf) {
                Ok(_) => {
                    return Ok(());
                },
                Err(error) => error,
            },
            Err(error) => error,
        };
        Err(IndirectionError::from(failure).annotate(operation))
    }
}

} // verus!
