//! Reading from a volume.

use crate::byte::Byte;
use crate::error::IoError;
use vstd::prelude::*;

verus! {

/// What a volume holds, as readers and writers of it speak of it.
///
/// A verified volume says in `bytes` what it holds, and its reads and writes
/// are proved against that. The body given here is for a volume that is
/// written without proof, which has nothing to say; nothing that is proved
/// of a volume in general rests on it.
pub trait Volume {
    /// The bytes of the volume, from its first to its last.
    open spec fn bytes(&self) -> Seq<u8> {
        Seq::empty()
    }

    /// Whether the volume fails no transfer that it can make: a read or a
    /// write of at least one byte that lies within the volume succeeds.
    open spec fn dependable(&self) -> bool {
        false
    }
}

/// A volume that can be read.
pub trait ReadAt: Volume {
    /// Fills `b` with the bytes of the volume that start at `offset`. A read
    /// that succeeds has filled all of `b`, from within the volume, and on a
    /// dependable volume a read of at least one byte from within the volume
    /// succeeds.
    fn read_at(&self, offset: Byte, b: &mut [u8]) -> (read: Result<(), IoError>)
        ensures
            final(b)@.len() == old(b)@.len(),
            read is Ok ==> offset.0 + old(b)@.len() <= self.bytes().len(),
            read is Ok ==> final(b)@ == self.bytes().subrange(
                offset.0 as int,
                offset.0 + old(b)@.len(),
            ),
            self.dependable() && old(b)@.len() >= 1 && offset.0 + old(b)@.len()
                <= self.bytes().len() ==> read is Ok,
    ;
}

impl Volume for Vec<u8> {
    open spec fn bytes(&self) -> Seq<u8> {
        self@
    }

    open spec fn dependable(&self) -> bool {
        true
    }
}

impl ReadAt for Vec<u8> {
    /// Reads from a volume held in memory. The read succeeds where `b` has
    /// room for at least one byte and the bytes asked for lie within the
    /// volume. Otherwise it fails with `UnexpectedEof` and leaves `b` as it
    /// was.
    fn read_at(&self, offset: Byte, b: &mut [u8]) -> (read: Result<(), IoError>)
        ensures
            read is Ok <==> old(b)@.len() >= 1 && offset.0 + old(b)@.len() <= self@.len(),
            read matches Err(error) ==> error == IoError::UnexpectedEof && final(b)@ == old(b)@,
    {
        let size = b.len();
        if size < 1 || offset.0 > self.len() as u64 || size as u64 > self.len() as u64 - offset.0 {
            return Err(IoError::UnexpectedEof);
        }
        let start = offset.0 as usize;
        let mut i: usize = 0;
        while i < size
            invariant
                size == b@.len(),
                b@.len() == old(b)@.len(),
                i <= size,
                start + size <= self@.len() <= usize::MAX,
                forall|j: int| 0 <= j < i ==> b@[j] == self@[start + j],
            decreases size - i,
        {
            b[i] = self[start + i];
            i = i + 1;
        }
        Ok(())
    }
}

} // verus!
