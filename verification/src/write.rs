//! Inodes on a volume: inode `k` has its frame at byte `k * 1024`.

use crate::block::Block;
use crate::byte::Byte;
use crate::encode::{decode_inode, decoded, encode_inode, encoded, is_decoded, INODE_SIZE};
use crate::error::IoError;
use crate::inode::{Ino, Inode};
use crate::io::readat::ReadAt;
use crate::io::writeat::{splice, WriteAt};
use vstd::bytes::spec_u64_to_le_bytes;
use vstd::prelude::*;

verus! {

/// A frame of zero bytes.
pub open spec fn blank_frame() -> Seq<u8> {
    Seq::new(INODE_SIZE as nat, |i: int| 0u8)
}

/// The frame that is written for `inode`: its pointers, and zero in the
/// reserved bytes.
pub open spec fn frame_of(inode: Inode) -> Seq<u8> {
    encoded(inode, blank_frame())
}

/// The frame of inode `ino` in the bytes of a volume.
pub open spec fn frame_at(bytes: Seq<u8>, ino: Ino) -> Seq<u8> {
    bytes.subrange(ino.0 * INODE_SIZE, ino.0 * INODE_SIZE + INODE_SIZE)
}

/// Whether the frame of inode `ino` lies within a volume of `length` bytes.
pub open spec fn has_frame(length: nat, ino: Ino) -> bool {
    ino.0 * INODE_SIZE + INODE_SIZE <= length
}

/// A frame of zero bytes holds an inode without blocks and of size zero: on
/// a volume of zero bytes every inode is there, and empty.
pub proof fn lemma_blank_frame_is_empty(inode: Inode, frame: Seq<u8>, ino: Ino)
    requires
        frame.len() == INODE_SIZE,
        forall|i: int| 0 <= i < frame.len() ==> frame[i] == 0u8,
        is_decoded(inode, frame, ino),
    ensures
        inode.is_empty(),
{
    let zeros = Seq::new(8, |i: int| 0u8);
    vstd::bytes::lemma_auto_spec_u64_to_from_le_bytes();
    vstd::bytes::spec_u64_to_le_bytes_to_open(0);
    assert(0u64 & 0xff == 0 && (0u64 >> 8) & 0xff == 0 && (0u64 >> 16) & 0xff == 0 && (0u64 >> 24)
        & 0xff == 0 && (0u64 >> 32) & 0xff == 0 && (0u64 >> 40) & 0xff == 0 && (0u64 >> 48) & 0xff
        == 0 && (0u64 >> 56) & 0xff == 0) by (bit_vector);
    assert(spec_u64_to_le_bytes(0) =~= zeros);
    assert forall|i: int| 0 <= i < 12 implies inode.direct_blocks@[i] == None::<Block> by {
        assert(frame.subrange(8 * i, 8 * i + 8) =~= zeros);
    }
    assert(frame.subrange(0, 8) =~= zeros);
    assert(frame.subrange(96, 104) =~= zeros);
    assert(frame.subrange(104, 112) =~= zeros);
    assert(frame.subrange(112, 120) =~= zeros);
}

/// Writes the frame of `inode` to its place on the volume `w`.
///
/// An inode with a pointer that has no pointer value is refused with
/// `InvalidInput`, and an inode whose place no `u64` holds with
/// `UnexpectedEof`; the volume is then as it was. Otherwise the outcome is
/// that of the volume's write: on a dependable volume the write succeeds
/// where the frame lies within the volume.
pub fn write_inode<W: WriteAt>(w: &mut W, inode: &Inode) -> (written: Result<(), IoError>)
    ensures
        written is Ok ==> inode.encodable() && has_frame(old(w).bytes().len(), inode.ino),
        written is Ok ==> final(w).bytes() == splice(
            old(w).bytes(),
            inode.ino.0 * INODE_SIZE,
            frame_of(*inode),
        ),
        !inode.encodable() ==> written == Err::<(), IoError>(IoError::InvalidInput) && *final(w)
            == *old(w),
        inode.encodable() && inode.ino.0 * INODE_SIZE > u64::MAX ==> written == Err::<(), IoError>(
            IoError::UnexpectedEof,
        ) && *final(w) == *old(w),
        old(w).dependable() && inode.encodable() && has_frame(old(w).bytes().len(), inode.ino)
            && inode.ino.0 * INODE_SIZE <= u64::MAX ==> written is Ok,
        final(w).dependable() == old(w).dependable(),
        final(w).bytes().len() == old(w).bytes().len(),
{
    if !inode.is_encodable() {
        return Err(IoError::InvalidInput);
    }
    let mut buf: [u8; INODE_SIZE] = [0; INODE_SIZE];
    encode_inode(inode, &mut buf);
    match inode.ino.0.checked_mul(INODE_SIZE as u64) {
        Some(offset) => w.write_at(Byte::new(offset), &buf),
        None => Err(IoError::UnexpectedEof),
    }
}

/// Reads inode `ino` from its frame on the volume `r`.
///
/// An inode whose place no `u64` holds is refused with `UnexpectedEof`.
/// Otherwise the outcome is that of the volume's read: on a dependable
/// volume the read succeeds where the frame lies within the volume.
pub fn read_inode<R: ReadAt>(r: &mut R, ino: Ino) -> (read: Result<Inode, IoError>)
    ensures
        *final(r) == *old(r),
        read matches Ok(inode) ==> {
            &&& has_frame(old(r).bytes().len(), ino)
            &&& is_decoded(inode, frame_at(old(r).bytes(), ino), ino)
            &&& inode == decoded(frame_at(old(r).bytes(), ino), ino)
            &&& inode.encodable()
        },
        ino.0 * INODE_SIZE > u64::MAX ==> read == Err::<Inode, IoError>(IoError::UnexpectedEof),
        old(r).dependable() && has_frame(old(r).bytes().len(), ino) && ino.0 * INODE_SIZE
            <= u64::MAX ==> read is Ok,
{
    let mut buf: [u8; INODE_SIZE] = [0; INODE_SIZE];
    match ino.0.checked_mul(INODE_SIZE as u64) {
        Some(offset) => match r.read_at(Byte::new(offset), &mut buf) {
            Ok(_) => Ok(decode_inode(&buf, ino)),
            Err(error) => Err(error),
        },
        None => Err(IoError::UnexpectedEof),
    }
}

} // verus!
