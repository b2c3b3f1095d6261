//! An inode store on a volume.

use crate::block::lemma_pointer_value_round_trip;
use crate::encode::{decoded, is_decoded, lemma_encoding_round_trip, INODE_SIZE};
use crate::error::IoError;
use crate::inode::{Ino, Inode};
use crate::inodestore::InodeStore;
use crate::io::readat::ReadAt;
use crate::io::writeat::WriteAt;
use crate::write::{blank_frame, frame_at, frame_of, has_frame, read_inode, write_inode};
use vstd::bytes::spec_u64_from_le_bytes;
use vstd::prelude::*;

verus! {

/// The inode store that keeps inode `k` in the frame at byte `k * 1024` of
/// a volume. It holds an inode for every frame that lies within the volume,
/// whether one was put there or not: a frame of zero bytes is an inode
/// without blocks.
pub struct VolumeInodeStore<V> {
    pub volume: V,
}

impl<V> VolumeInodeStore<V> {
    pub fn new(volume: V) -> (store: VolumeInodeStore<V>)
        ensures
            store.volume == volume,
    {
        VolumeInodeStore { volume }
    }
}

/// The inodes that the frames of a volume's bytes hold.
pub open spec fn framed_inodes(bytes: Seq<u8>) -> Map<Ino, Inode> {
    Map::new(
        |ino: Ino| has_frame(bytes.len(), ino),
        |ino: Ino| decoded(frame_at(bytes, ino), ino),
    )
}

/// An inode that was read from a frame is kept by a frame as it is.
pub proof fn lemma_decoded_is_kept(inode: Inode, frame: Seq<u8>, ino: Ino)
    requires
        is_decoded(inode, frame, ino),
    ensures
        inode.framed() == inode,
{
    lemma_pointer_value_round_trip(spec_u64_from_le_bytes(frame.subrange(0, 8)));
}

impl<V: ReadAt + WriteAt> InodeStore for VolumeInodeStore<V> {
    /// A frame keeps everything of an inode but its size.
    open spec fn kept(inode: Inode) -> Inode {
        inode.framed()
    }

    open spec fn inodes(&self) -> Map<Ino, Inode> {
        framed_inodes(self.volume.bytes())
    }

    /// A put or a get past the end of the volume fails.
    open spec fn infallible() -> bool {
        false
    }

    /// The store takes an inode whose pointers all have a pointer value and
    /// whose frame lies within the volume, where the volume is dependable.
    open spec fn accepts(&self, inode: Inode) -> bool {
        inode.encodable() && self.answers(inode.ino)
    }

    /// The store answers for a number whose frame lies within the volume, at
    /// a place that a `u64` holds, where the volume is dependable.
    open spec fn answers(&self, ino: Ino) -> bool {
        &&& self.volume.dependable()
        &&& has_frame(self.volume.bytes().len(), ino)
        &&& ino.0 * INODE_SIZE <= u64::MAX
    }

    /// Writes the frame of the inode. An inode with a pointer that has no
    /// pointer value is refused with `InvalidInput`, and one whose place no
    /// `u64` holds with `UnexpectedEof`; the store is then as it was.
    /// Otherwise the put fails as the volume's write fails; on a dependable
    /// volume it succeeds for every frame that lies within the volume.
    fn put(&mut self, inode: &Inode) -> (put: Result<(), IoError>)
        ensures
            put is Ok ==> inode.encodable() && has_frame(old(self).volume.bytes().len(), inode.ino),
            !inode.encodable() ==> put == Err::<(), IoError>(IoError::InvalidInput) && *final(self)
                == *old(self),
            inode.encodable() && inode.ino.0 * INODE_SIZE > u64::MAX ==> put == Err::<(), IoError>(
                IoError::UnexpectedEof,
            ) && *final(self) == *old(self),
            final(self).volume.dependable() == old(self).volume.dependable(),
            final(self).volume.bytes().len() == old(self).volume.bytes().len(),
    {
        let put = write_inode(&mut self.volume, inode);
        proof {
            if put is Ok {
                let before = old(self).volume.bytes();
                let after = self.volume.bytes();
                lemma_encoding_round_trip(*inode, blank_frame());
                assert(frame_at(after, inode.ino) =~= frame_of(*inode));
                assert forall|other: Ino|
                    has_frame(before.len(), other) && other != inode.ino implies frame_at(
                    after,
                    other,
                ) =~= frame_at(before, other) by {}
            }
        }
        put
    }

    /// Reads the inode from its frame. What comes back is the inode that
    /// the frame holds, never `None`: a frame that nothing was put into
    /// holds an inode all the same. The get fails with `UnexpectedEof`
    /// where no `u64` holds the frame's place, and else as the volume's read
    /// fails; on a dependable volume it succeeds for every frame that lies
    /// within the volume, at a place that a `u64` holds.
    fn get(&mut self, ino: Ino) -> (got: Result<Option<Inode>, IoError>)
        ensures
            *final(self) == *old(self),
            got matches Ok(found) ==> {
                &&& has_frame(old(self).volume.bytes().len(), ino)
                &&& found == Some(decoded(frame_at(old(self).volume.bytes(), ino), ino))
                &&& is_decoded(found->0, frame_at(old(self).volume.bytes(), ino), ino)
                &&& found->0.encodable()
            },
            ino.0 * INODE_SIZE > u64::MAX ==> got == Err::<Option<Inode>, IoError>(
                IoError::UnexpectedEof,
            ),
    {
        match read_inode(&mut self.volume, ino) {
            Ok(inode) => {
                proof {
                    lemma_decoded_is_kept(inode, frame_at(self.volume.bytes(), ino), ino);
                }
                Ok(Some(inode))
            },
            Err(error) => Err(error),
        }
    }
}

} // verus!
