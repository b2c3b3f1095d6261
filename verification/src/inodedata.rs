//! Reading and writing the bytes of an inode, across its blocks.

use crate::block::{Block, BLOCK_SIZE};
use crate::byte::Byte;
use crate::error::{IndirectionError, Operation};
use crate::inode::Inode;
use crate::inodeblock::manager::{data_place, InodeBlocks, Reader, Writer};
use crate::inodeblock::physicalwriter::commit;
use crate::inodestore::InodeStore;
use crate::io::writeat::splice;
use vstd::prelude::*;

verus! {

/// The number of bytes of the next chunk: what is left to transfer, but no
/// more than what lies between `position` and the end of its block.
pub open spec fn chunk_length(position: int, remaining: int) -> int {
    if remaining <= BLOCK_SIZE - position % (BLOCK_SIZE as int) {
        remaining
    } else {
        BLOCK_SIZE - position % (BLOCK_SIZE as int)
    }
}

/// The logical block that holds the byte at `position` of an inode's data.
pub open spec fn block_of(position: int) -> Block {
    Block((position / (BLOCK_SIZE as int)) as u64)
}

/// Where in its block the byte at `position` of an inode's data lies.
pub open spec fn offset_in_block(position: int) -> Byte {
    Byte((position % (BLOCK_SIZE as int)) as u64)
}

/// The bytes of the data volume after `bytes` are written to the data of
/// `inode` from `position` on, chunk by chunk: each chunk goes to the
/// physical block of its logical block. `None` where a chunk's block has no
/// physical block or the chunk does not lie within the volume.
pub open spec fn data_written<M: InodeBlocks>(
    manager: M,
    data: Seq<u8>,
    inode: Inode,
    position: int,
    bytes: Seq<u8>,
) -> Option<Seq<u8>>
    decreases bytes.len(),
{
    if bytes.len() == 0 {
        Some(data)
    } else {
        let length = chunk_length(position, bytes.len() as int);
        match manager.physical(inode, block_of(position)) {
            Some(physical_block) => {
                let place = data_place(physical_block, offset_in_block(position));
                if place + length <= data.len() {
                    data_written(
                        manager,
                        splice(data, place, bytes.take(length)),
                        inode,
                        position + length,
                        bytes.skip(length),
                    )
                } else {
                    None
                }
            },
            None => None,
        }
    }
}

/// The place on the data volume of the byte at `position` of the data of
/// `inode`, where the position's logical block has a physical block.
pub open spec fn place_of<M: InodeBlocks>(manager: M, inode: Inode, position: int) -> Option<int> {
    match manager.physical(inode, block_of(position)) {
        Some(physical_block) => Some(data_place(physical_block, offset_in_block(position))),
        None => None,
    }
}

/// Whether `byte` is the byte at `position` of the data of `inode` on a
/// volume of the bytes `data`: the byte at that place in the physical block
/// of the position's logical block.
pub open spec fn is_data_byte<M: InodeBlocks>(
    manager: M,
    data: Seq<u8>,
    inode: Inode,
    position: int,
    byte: u8,
) -> bool {
    &&& place_of(manager, inode, position) matches Some(place)
    &&& place < data.len()
    &&& byte == data[place]
}

/// Whether every block of the data of `inode` that holds one of the
/// `length` bytes from `position` on is reachable.
pub open spec fn blocks_reachable<M: InodeBlocks>(
    manager: M,
    inode: Inode,
    position: int,
    length: int,
) -> bool {
    forall|block: Block|
        position / (BLOCK_SIZE as int) <= block.0 && block.0 * BLOCK_SIZE < position + length
            ==> #[trigger] manager.reachable(inode, block)
}

/// Whether each of the `length` bytes of the data of `inode` from
/// `position` on has a place, and the place lies within the volume.
pub open spec fn data_within<M: InodeBlocks>(
    manager: M,
    inode: Inode,
    position: int,
    length: int,
) -> bool {
    forall|i: int|
        0 <= i < length ==> {
            let place = #[trigger] place_of(manager, inode, position + i);
            place is Some && place->0 < manager.data().len()
        }
}

/// Whether the blocks of the data of `inode` that hold the `length` bytes
/// from `position` on lie in physical blocks that differ from one another.
pub open spec fn blocks_apart<M: InodeBlocks>(
    manager: M,
    inode: Inode,
    position: int,
    length: int,
) -> bool {
    forall|one: int, other: int|
        position <= one < position + length && position <= other < position + length
            && block_of(one) != block_of(other) ==> manager.physical(inode, #[trigger] block_of(one))
            != manager.physical(inode, #[trigger] block_of(other))
}

/// A write changes the bytes that it writes and no others: a place of the
/// volume that is the place of none of the written bytes holds what it
/// held, and the volume keeps its length.
pub proof fn lemma_data_written_elsewhere<M: InodeBlocks>(
    manager: M,
    data: Seq<u8>,
    inode: Inode,
    position: int,
    bytes: Seq<u8>,
    place: int,
)
    requires
        0 <= position,
        data_written(manager, data, inode, position, bytes) is Some,
        0 <= place < data.len(),
        forall|i: int|
            0 <= i < bytes.len() ==> #[trigger] place_of(manager, inode, position + i) != Some(
                place,
            ),
    ensures
        data_written(manager, data, inode, position, bytes)->0.len() == data.len(),
        data_written(manager, data, inode, position, bytes)->0[place] == data[place],
    decreases bytes.len(),
{
    if bytes.len() > 0 {
        let length = chunk_length(position, bytes.len() as int);
        let physical_block = manager.physical(inode, block_of(position))->0;
        let start = data_place(physical_block, offset_in_block(position));
        let patched = splice(data, start, bytes.take(length));
        assert forall|i: int| 0 <= i < bytes.skip(length).len() implies #[trigger] place_of(
            manager,
            inode,
            position + length + i,
        ) != Some(place) by {
            assert(place_of(manager, inode, position + (length + i)) != Some(place));
        }
        lemma_data_written_elsewhere(
            manager,
            patched,
            inode,
            position + length,
            bytes.skip(length),
            place,
        );
        if start <= place < start + length {
            let i = place - start;
            assert(place_of(manager, inode, position + i) == Some(place));
        }
    }
}

/// Write, then read, for the bytes of an inode: after a write, each of the
/// written bytes is the byte at its position of the data, where the blocks
/// that were written to lie in physical blocks that differ from one
/// another.
pub proof fn lemma_written_data_is_read<M: InodeBlocks>(
    manager: M,
    data: Seq<u8>,
    inode: Inode,
    position: int,
    bytes: Seq<u8>,
    i: int,
)
    requires
        0 <= position,
        position + bytes.len() <= u64::MAX,
        data_written(manager, data, inode, position, bytes) is Some,
        blocks_apart(manager, inode, position, bytes.len() as int),
        0 <= i < bytes.len(),
    ensures
        is_data_byte(
            manager,
            data_written(manager, data, inode, position, bytes)->0,
            inode,
            position + i,
            bytes[i],
        ),
    decreases bytes.len(),
{
    let length = chunk_length(position, bytes.len() as int);
    let physical_block = manager.physical(inode, block_of(position))->0;
    let start = data_place(physical_block, offset_in_block(position));
    let patched = splice(data, start, bytes.take(length));
    let rest = bytes.skip(length);
    if i < length {
        let place = start + i;
        assert forall|j: int| 0 <= j < rest.len() implies #[trigger] place_of(
            manager,
            inode,
            position + length + j,
        ) != Some(place) by {}
        lemma_data_written_elsewhere(manager, patched, inode, position + length, rest, place);
    } else {
        assert forall|one: int, other: int|
            position + length <= one < position + length + rest.len() && position + length
                <= other < position + length + rest.len() && block_of(one) != block_of(
                other,
            ) implies manager.physical(inode, #[trigger] block_of(one)) != manager.physical(
            inode,
            #[trigger] block_of(other),
        ) by {}
        lemma_written_data_is_read(manager, patched, inode, position + length, rest, i - length);
    }
}

/// The number of bytes that a read of `length` bytes at `offset` transfers
/// from data of `size` bytes: those that lie before the end of the data.
pub open spec fn readable(size: Byte, offset: Byte, length: nat) -> nat {
    if offset.0 >= size.0 {
        0
    } else if length <= size.0 - offset.0 {
        length
    } else {
        (size.0 - offset.0) as nat
    }
}

/// `inode` with size `size`.
pub open spec fn resized(inode: Inode, size: int) -> Inode {
    Inode { size: Byte(size as u64), ..inode }
}

/// Whether nothing stands in the way of a write of `bytes` to the data of
/// `inode` from `offset` on: every chunk has a place within the volume, in
/// a block that is reachable, and the inode store takes the grown inode
/// where the data grows.
pub open spec fn write_is_clear<M: InodeBlocks, S: InodeStore>(
    manager: M,
    store: S,
    inode: Inode,
    offset: Byte,
    bytes: Seq<u8>,
) -> bool {
    &&& manager.data().len() <= u64::MAX
    &&& data_written(manager, manager.data(), inode, offset.0 as int, bytes) is Some
    &&& blocks_reachable(manager, inode, offset.0 as int, bytes.len() as int)
    &&& inode.size.0 < offset.0 + bytes.len() ==> S::infallible() || store.accepts(
        resized(inode, offset.0 + bytes.len()),
    )
}

/// Reads and writes the bytes of inodes. It owns the block manager that
/// holds the data and the inode store in which it records a grown size.
pub struct InodeDataManager<S: InodeStore, M: Reader + Writer> {
    pub block_manager: M,
    pub inode_store: S,
}

impl<S: InodeStore, M: Reader + Writer> InodeDataManager<S, M> {
    pub fn new(block_manager: M, inode_store: S) -> (manager: InodeDataManager<S, M>)
        ensures
            manager.block_manager == block_manager,
            manager.inode_store == inode_store,
    {
        InodeDataManager { block_manager, inode_store }
    }

    /// Reads the data of `inode` from `offset` on into `buffer`, up to the
    /// end of the buffer or of the data, and returns the number of bytes
    /// read.
    ///
    /// On success the first bytes of `buffer`, as many as were read, are
    /// those of the data, and the rest of `buffer` is as it was. The read
    /// fails as a read of one of the blocks fails, with that error. A read
    /// of no bytes succeeds, and so does a read of bytes that all have a
    /// place within the volume, in blocks that are reachable.
    pub fn read_inode_data(&mut self, inode: &Inode, offset: Byte, buffer: &mut [u8]) -> (read:
        Result<Byte, IndirectionError>)
        ensures
            *final(self) == *old(self),
            final(buffer)@.len() == old(buffer)@.len(),
            read matches Ok(count) ==> {
                &&& count.0 == readable(inode.size, offset, old(buffer)@.len())
                &&& forall|i: int|
                    0 <= i < count.0 ==> is_data_byte(
                        old(self).block_manager,
                        old(self).block_manager.data(),
                        *inode,
                        offset.0 + i,
                        #[trigger] final(buffer)@[i],
                    )
                &&& forall|i: int|
                    count.0 <= i < old(buffer)@.len() ==> final(buffer)@[i] == old(buffer)@[i]
            },
            readable(inode.size, offset, old(buffer)@.len()) == 0 ==> read is Ok,
            old(self).block_manager.data().len() <= u64::MAX && blocks_reachable(
                old(self).block_manager,
                *inode,
                offset.0 as int,
                readable(inode.size, offset, old(buffer)@.len()) as int,
            ) && data_within(
                old(self).block_manager,
                *inode,
                offset.0 as int,
                readable(inode.size, offset, old(buffer)@.len()) as int,
            ) ==> read is Ok,
    {
        let size = buffer.len();
        let max_length: u64 = if offset.0 >= inode.size.0 {
            0
        } else if size as u64 <= inode.size.0 - offset.0 {
            size as u64
        } else {
            inode.size.0 - offset.0
        };
        let mut chunk_begin: u64 = 0;
        while chunk_begin < max_length
            invariant
                *self == *old(self),
                buffer@.len() == old(buffer)@.len(),
                chunk_begin <= max_length,
                max_length == readable(inode.size, offset, old(buffer)@.len()),
                max_length <= buffer@.len() == size,
                offset.0 + max_length <= u64::MAX,
                forall|i: int|
                    0 <= i < chunk_begin ==> is_data_byte(
                        self.block_manager,
                        self.block_manager.data(),
                        *inode,
                        offset.0 + i,
                        #[trigger] buffer@[i],
                    ),
                forall|i: int| chunk_begin <= i < buffer@.len() ==> buffer@[i] == old(buffer)@[i],
            decreases max_length - chunk_begin,
        {
            let position = offset.0 + chunk_begin;
            let chunk_block = Block::new(position / BLOCK_SIZE);
            let chunk_offset = Byte::new(position % BLOCK_SIZE);
            let chunk_length = if max_length - chunk_begin <= BLOCK_SIZE - chunk_offset.0 {
                max_length - chunk_begin
            } else {
                BLOCK_SIZE - chunk_offset.0
            };
            proof {
                if data_within(self.block_manager, *inode, offset.0 as int, max_length as int) {
                    let first = place_of(self.block_manager, *inode, offset.0 + chunk_begin);
                    let last = place_of(
                        self.block_manager,
                        *inode,
                        offset.0 + (chunk_begin + chunk_length - 1),
                    );
                    assert(first is Some && last is Some);
                    assert(last->0 == first->0 + chunk_length - 1);
                }
            }
            let (_, rest) = buffer.split_at_mut(chunk_begin as usize);
            let (chunk, _) = rest.split_at_mut(chunk_length as usize);
            self.block_manager.read_inode_block(inode, chunk_block, chunk_offset, chunk)?;
            assert forall|i: int|
                chunk_begin <= i < chunk_begin + chunk_length implies is_data_byte(
                self.block_manager,
                self.block_manager.data(),
                *inode,
                offset.0 + i,
                #[trigger] buffer@[i],
            ) by {}
            chunk_begin = chunk_begin + chunk_length;
        }
        Ok(Byte::new(chunk_begin))
    }

    /// Writes `buffer` to the data of `inode` from `offset` on, and returns
    /// the number of bytes written. Every block that the bytes go to has a
    /// physical block already.
    ///
    /// On success all of `buffer` is written, chunk by chunk as
    /// `data_written` says. Where the data then ends past the inode's size,
    /// the size becomes that end, and the inode is put into the inode
    /// store; otherwise inode and store are as they were. On failure the
    /// inode is as it was. The write fails as a write of one of the blocks
    /// fails, with that error, and as the put fails, with its error in that
    /// operation. It succeeds wherever `write_is_clear` holds.
    pub fn write_inode_data(&mut self, inode: &mut Inode, offset: Byte, buffer: &[u8]) -> (written:
        Result<Byte, IndirectionError>)
        requires
            offset.0 + buffer@.len() <= u64::MAX,
        ensures
            written matches Ok(count) ==> {
                &&& count.0 == buffer@.len()
                &&& data_written(
                    old(self).block_manager,
                    old(self).block_manager.data(),
                    *old(inode),
                    offset.0 as int,
                    buffer@,
                ) == Some(final(self).block_manager.data())
                &&& forall|any: Inode, block: Block| #[trigger]
                    final(self).block_manager.physical(any, block) == old(
                        self,
                    ).block_manager.physical(any, block)
                &&& if old(inode).size.0 < offset.0 + buffer@.len() {
                    &&& *final(inode) == resized(*old(inode), offset.0 + buffer@.len())
                    &&& final(self).inode_store.inodes() == old(self).inode_store.inodes().insert(
                        old(inode).ino,
                        S::kept(*final(inode)),
                    )
                } else {
                    &&& *final(inode) == *old(inode)
                    &&& final(self).inode_store == old(self).inode_store
                }
            },
            written matches Err(error) ==> *final(inode) == *old(inode),
            buffer@.len() == 0 && offset.0 <= old(inode).size.0 ==> written is Ok,
            write_is_clear(
                old(self).block_manager,
                old(self).inode_store,
                *old(inode),
                offset,
                buffer@,
            ) ==> written is Ok,
    {
        let size = buffer.len();
        let length = size as u64;
        let mut chunk_begin: u64 = 0;
        assert(buffer@.skip(0) =~= buffer@);
        while chunk_begin < length
            invariant
                chunk_begin <= length,
                length == buffer@.len() == size,
                offset.0 + length <= u64::MAX,
                *inode == *old(inode),
                self.inode_store == old(self).inode_store,
                forall|any: Inode, block: Block| #[trigger]
                    self.block_manager.physical(any, block) == old(self).block_manager.physical(
                        any,
                        block,
                    ),
                forall|any: Inode, block: Block| #[trigger]
                    self.block_manager.reachable(any, block) == old(self).block_manager.reachable(
                        any,
                        block,
                    ),
                data_written(
                    old(self).block_manager,
                    old(self).block_manager.data(),
                    *inode,
                    offset.0 as int,
                    buffer@,
                ) is Some ==> self.block_manager.data().len() == old(
                    self,
                ).block_manager.data().len(),
                data_written(
                    old(self).block_manager,
                    self.block_manager.data(),
                    *inode,
                    offset.0 + chunk_begin,
                    buffer@.skip(chunk_begin as int),
                ) == data_written(
                    old(self).block_manager,
                    old(self).block_manager.data(),
                    *inode,
                    offset.0 as int,
                    buffer@,
                ),
            decreases length - chunk_begin,
        {
            let position = offset.0 + chunk_begin;
            let chunk_block = Block::new(position / BLOCK_SIZE);
            let chunk_offset = Byte::new(position % BLOCK_SIZE);
            let chunk_length = if length - chunk_begin <= BLOCK_SIZE - chunk_offset.0 {
                length - chunk_begin
            } else {
                BLOCK_SIZE - chunk_offset.0
            };
            let chunk = &buffer[chunk_begin as usize..(chunk_begin + chunk_length) as usize];
            proof {
                let rest = buffer@.skip(chunk_begin as int);
                assert(chunk@ =~= rest.take(chunk_length as int));
                assert(buffer@.skip(chunk_begin + chunk_length) =~= rest.skip(chunk_length as int));
            }
            self.block_manager.write_inode_block(inode, chunk_block, chunk_offset, chunk)?;
            chunk_begin = chunk_begin + chunk_length;
        }
        if inode.size.0 < offset.0 + chunk_begin {
            let mut grown = inode.clone();
            grown.size = Byte::new(offset.0 + chunk_begin);
            let put = self.inode_store.put(&grown);
            let operation = Operation::PutInode { ino: inode.ino };
            commit(inode, grown, put, operation)?;
        }
        Ok(Byte::new(chunk_begin))
    }
}

} // verus!
