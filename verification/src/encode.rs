//! The frame of an inode on a volume: 1024 bytes, every pointer in eight
//! bytes, little-endian.
//!
//! | bytes      | field                              |
//! |------------|------------------------------------|
//! | 0 .. 96    | the twelve direct pointers         |
//! | 96 .. 104  | the singly indirect pointer        |
//! | 104 .. 112 | the doubly indirect pointer        |
//! | 112 .. 120 | the triply indirect pointer        |
//! | 120 ..     | reserved                           |
//!
//! The size has no bytes of its own. It is written to bytes 0 .. 8, where
//! the first direct pointer is written after it, and it is read from there:
//! a decoded inode has the value of its first direct pointer as its size.

use crate::block::{decode_pointer, encodable, encode_pointer, Block, DIRECT_BLOCKS_COUNT};
use crate::byte::Byte;
use crate::inode::{Ino, Inode};
use byteorder::{ByteOrder, LittleEndian};
use vstd::bytes::{spec_u64_from_le_bytes, spec_u64_to_le_bytes};
use vstd::prelude::*;

verus! {

/// The size of an inode's frame in bytes.
pub const INODE_SIZE: usize = 1024;

/// Where the singly indirect pointer starts in a frame.
pub const SINGLY_INDIRECT_START: usize = 96;

/// Where the doubly indirect pointer starts in a frame.
pub const DOUBLY_INDIRECT_START: usize = 104;

/// Where the triply indirect pointer starts in a frame.
pub const TRIPLY_INDIRECT_START: usize = 112;

/// `byteorder::LittleEndian::read_u64` on the part of `buf` that starts at
/// `at`: the value of the eight bytes from `at` on, the first of them its
/// lowest-order byte. The outside function panics on fewer than eight bytes,
/// which `requires` rules out.
#[verifier::external_body]
pub(crate) fn read_u64(buf: &[u8], at: usize) -> (value: u64)
    requires
        at + 8 <= buf@.len(),
    ensures
        value == spec_u64_from_le_bytes(buf@.subrange(at as int, at + 8)),
{
    LittleEndian::read_u64(&buf[at..])
}

/// `byteorder::LittleEndian::write_u64` on the part of `buf` that starts at
/// `at`: the eight bytes from `at` on become those of `value`, its
/// lowest-order byte first, and no other byte changes. The outside function
/// panics on fewer than eight bytes, which `requires` rules out.
#[verifier::external_body]
pub(crate) fn write_u64(buf: &mut [u8], at: usize, value: u64)
    requires
        at + 8 <= old(buf)@.len(),
    ensures
        final(buf)@ == old(buf)@.subrange(0, at as int) + spec_u64_to_le_bytes(value) + old(
            buf,
        )@.subrange(at + 8, old(buf)@.len() as int),
{
    LittleEndian::write_u64(&mut buf[at..], value)
}

/// The eight bytes of the pointer field for `block`.
pub open spec fn pointer_bytes(block: Option<Block>) -> Seq<u8> {
    spec_u64_to_le_bytes(encode_pointer(block) as u64)
}

/// The optional block that the pointer field at `at` in `frame` stands for.
pub open spec fn pointer_at(frame: Seq<u8>, at: int) -> Option<Block> {
    decode_pointer(spec_u64_from_le_bytes(frame.subrange(at, at + 8)))
}

impl Inode {
    /// Whether every pointer of the inode has a pointer value.
    pub open spec fn encodable(self) -> bool {
        &&& forall|i: int| 0 <= i < DIRECT_BLOCKS_COUNT ==> encodable(self.direct_blocks@[i])
        &&& encodable(self.singly_indirect_block)
        &&& encodable(self.doubly_indirect_block)
        &&& encodable(self.triply_indirect_block)
    }

    /// What a frame keeps of the inode: everything but the size, in whose
    /// place the value of the first direct pointer stands.
    pub open spec fn framed(self) -> Inode {
        Inode { size: Byte(encode_pointer(self.direct_blocks@[0]) as u64), ..self }
    }

    /// Whether every pointer of the inode has a pointer value.
    pub fn is_encodable(&self) -> (encodable: bool)
        ensures
            encodable == self.encodable(),
    {
        let mut i: usize = 0;
        while i < DIRECT_BLOCKS_COUNT
            invariant
                i <= DIRECT_BLOCKS_COUNT,
                forall|j: int| 0 <= j < i ==> encodable(self.direct_blocks@[j]),
            decreases DIRECT_BLOCKS_COUNT - i,
        {
            if !block_is_encodable(self.direct_blocks[i]) {
                return false;
            }
            i = i + 1;
        }
        block_is_encodable(self.singly_indirect_block) && block_is_encodable(
            self.doubly_indirect_block,
        ) && block_is_encodable(self.triply_indirect_block)
    }
}

/// Whether `block` has a pointer value.
fn block_is_encodable(block: Option<Block>) -> (fits: bool)
    ensures
        fits == encodable(block),
{
    match block {
        None => true,
        Some(block) => block.0 < u64::MAX,
    }
}

/// The frame of `inode`, written over `frame`: the pointers of `inode` in
/// their places, and the reserved bytes as they are in `frame`.
pub open spec fn encoded(inode: Inode, frame: Seq<u8>) -> Seq<u8> {
    Seq::new(
        frame.len(),
        |i: int|
            if i < SINGLY_INDIRECT_START {
                pointer_bytes(inode.direct_blocks@[i / 8])[i % 8]
            } else if i < DOUBLY_INDIRECT_START {
                pointer_bytes(inode.singly_indirect_block)[i - SINGLY_INDIRECT_START]
            } else if i < TRIPLY_INDIRECT_START {
                pointer_bytes(inode.doubly_indirect_block)[i - DOUBLY_INDIRECT_START]
            } else if i < TRIPLY_INDIRECT_START + 8 {
                pointer_bytes(inode.triply_indirect_block)[i - TRIPLY_INDIRECT_START]
            } else {
                frame[i]
            },
    )
}

/// Whether `inode` is what `frame` holds, read as the inode numbered `ino`.
pub open spec fn is_decoded(inode: Inode, frame: Seq<u8>, ino: Ino) -> bool {
    &&& inode.ino == ino
    &&& inode.size.0 == spec_u64_from_le_bytes(frame.subrange(0, 8))
    &&& forall|i: int|
        0 <= i < DIRECT_BLOCKS_COUNT ==> inode.direct_blocks@[i] == pointer_at(frame, 8 * i)
    &&& inode.singly_indirect_block == pointer_at(frame, SINGLY_INDIRECT_START as int)
    &&& inode.doubly_indirect_block == pointer_at(frame, DOUBLY_INDIRECT_START as int)
    &&& inode.triply_indirect_block == pointer_at(frame, TRIPLY_INDIRECT_START as int)
}

/// The inode that `frame` holds, read as the inode numbered `ino`.
pub open spec fn decoded(frame: Seq<u8>, ino: Ino) -> Inode {
    choose|inode: Inode| is_decoded(inode, frame, ino)
}

/// Writes the frame of `inode` into `buf`. The reserved bytes of `buf` stay
/// as they are.
pub fn encode_inode(inode: &Inode, buf: &mut [u8; INODE_SIZE])
    requires
        inode.encodable(),
    ensures
        final(buf)@ == encoded(*inode, old(buf)@),
{
    proof {
        vstd::bytes::lemma_auto_spec_u64_to_from_le_bytes();
    }
    write_u64(buf, 0, inode.size.to_u64());
    let mut i: usize = 0;
    while i < DIRECT_BLOCKS_COUNT
        invariant
            i <= DIRECT_BLOCKS_COUNT,
            inode.encodable(),
            forall|value: u64| #[trigger] spec_u64_to_le_bytes(value).len() == 8,
            forall|j: int|
                0 <= j < 8 * i ==> buf@[j] == pointer_bytes(inode.direct_blocks@[j / 8])[j % 8],
            forall|j: int| 8 * i <= j < INODE_SIZE && 8 <= j ==> buf@[j] == old(buf)@[j],
        decreases DIRECT_BLOCKS_COUNT - i,
    {
        write_u64(buf, i * 8, Block::encode(inode.direct_blocks[i]));
        i = i + 1;
    }
    write_u64(buf, SINGLY_INDIRECT_START, Block::encode(inode.singly_indirect_block));
    write_u64(buf, DOUBLY_INDIRECT_START, Block::encode(inode.doubly_indirect_block));
    write_u64(buf, TRIPLY_INDIRECT_START, Block::encode(inode.triply_indirect_block));
}

/// Reads the inode numbered `ino` from its frame `buf`.
pub fn decode_inode(buf: &[u8; INODE_SIZE], ino: Ino) -> (inode: Inode)
    ensures
        is_decoded(inode, buf@, ino),
        inode == decoded(buf@, ino),
        inode.encodable(),
{
    let mut inode = Inode::new(ino);
    inode.size = Byte::new(read_u64(buf, 0));
    let mut i: usize = 0;
    while i < DIRECT_BLOCKS_COUNT
        invariant
            i <= DIRECT_BLOCKS_COUNT,
            inode.ino == ino,
            inode.size.0 == spec_u64_from_le_bytes(buf@.subrange(0, 8)),
            inode.singly_indirect_block is None,
            inode.doubly_indirect_block is None,
            inode.triply_indirect_block is None,
            forall|j: int| 0 <= j < i ==> inode.direct_blocks@[j] == pointer_at(buf@, 8 * j),
            forall|j: int| 0 <= j < DIRECT_BLOCKS_COUNT ==> encodable(inode.direct_blocks@[j]),
        decreases DIRECT_BLOCKS_COUNT - i,
    {
        inode.direct_blocks[i] = Block::decode(read_u64(buf, i * 8));
        i = i + 1;
    }
    inode.singly_indirect_block = Block::decode(read_u64(buf, SINGLY_INDIRECT_START));
    inode.doubly_indirect_block = Block::decode(read_u64(buf, DOUBLY_INDIRECT_START));
    inode.triply_indirect_block = Block::decode(read_u64(buf, TRIPLY_INDIRECT_START));
    proof {
        lemma_decoded_is_unique(inode, decoded(buf@, ino), buf@, ino);
    }
    inode
}

/// A frame holds one inode: two inodes read from the same frame under the
/// same number are equal.
pub proof fn lemma_decoded_is_unique(inode: Inode, other: Inode, frame: Seq<u8>, ino: Ino)
    requires
        is_decoded(inode, frame, ino),
    ensures
        is_decoded(decoded(frame, ino), frame, ino),
        is_decoded(other, frame, ino) ==> other == inode,
{
    if is_decoded(other, frame, ino) {
        assert(other.direct_blocks =~= inode.direct_blocks);
    }
}

/// What a frame gives back: for an inode whose pointers all have a pointer
/// value, decoding its frame gives the inode with the value of its first
/// direct pointer as its size, and every other field as it was. It is the
/// inode itself where its size is that value.
pub proof fn lemma_encoding_round_trip(inode: Inode, frame: Seq<u8>)
    requires
        inode.encodable(),
        frame.len() == INODE_SIZE,
    ensures
        is_decoded(inode.framed(), encoded(inode, frame), inode.ino),
        decoded(encoded(inode, frame), inode.ino) == inode.framed(),
        inode.size.0 == encode_pointer(inode.direct_blocks@[0]) ==> decoded(
            encoded(inode, frame),
            inode.ino,
        ) == inode,
{
    vstd::bytes::lemma_auto_spec_u64_to_from_le_bytes();
    let image = encoded(inode, frame);
    assert forall|i: int| 0 <= i < DIRECT_BLOCKS_COUNT implies image.subrange(8 * i, 8 * i + 8)
        =~= pointer_bytes(inode.direct_blocks@[i]) by {
        assert forall|j: int| 0 <= j < 8 implies image[8 * i + j] == pointer_bytes(
            inode.direct_blocks@[i],
        )[j] by {}
    }
    assert(image.subrange(SINGLY_INDIRECT_START as int, SINGLY_INDIRECT_START + 8)
        =~= pointer_bytes(inode.singly_indirect_block));
    assert(image.subrange(DOUBLY_INDIRECT_START as int, DOUBLY_INDIRECT_START + 8)
        =~= pointer_bytes(inode.doubly_indirect_block));
    assert(image.subrange(TRIPLY_INDIRECT_START as int, TRIPLY_INDIRECT_START + 8)
        =~= pointer_bytes(inode.triply_indirect_block));
    lemma_decoded_is_unique(inode.framed(), decoded(image, inode.ino), image, inode.ino);
}

} // verus!
