//! Writing to a volume.

use crate::byte::Byte;
use crate::error::IoError;
use crate::io::readat::Volume;
use vstd::prelude::*;

verus! {

/// `bytes` with `patch` laid over it from position `at` on.
pub open spec fn splice(bytes: Seq<u8>, at: int, patch: Seq<u8>) -> Seq<u8> {
    Seq::new(
        bytes.len(),
        |i: int|
            if at <= i < at + patch.len() {
                patch[i - at]
            } else {
                bytes[i]
            },
    )
}

/// A volume that can be written.
pub trait WriteAt: Volume {
    /// Writes the bytes of `b` to the volume, from `offset` on. A write that
    /// succeeds has written all of `b`, within the volume, and has changed
    /// no other byte. On a dependable volume a write of at least one byte
    /// that lies within the volume succeeds. Whatever comes of the write,
    /// the volume keeps its length and stays as dependable as it was.
    fn write_at(&mut self, offset: Byte, b: &[u8]) -> (written: Result<(), IoError>)
        ensures
            written is Ok ==> offset.0 + b@.len() <= old(self).bytes().len(),
            written is Ok ==> final(self).bytes() == splice(
                old(self).bytes(),
                offset.0 as int,
                b@,
            ),
            old(self).dependable() && b@.len() >= 1 && offset.0 + b@.len() <= old(
                self,
            ).bytes().len() ==> written is Ok,
            final(self).bytes().len() == old(self).bytes().len(),
            final(self).dependable() == old(self).dependable(),
    ;
}

impl WriteAt for Vec<u8> {
    /// Writes to a volume held in memory. The write succeeds where `b` holds
    /// at least one byte and the bytes to write lie within the volume.
    /// Otherwise it fails with `UnexpectedEof` and leaves the volume as it
    /// was.
    fn write_at(&mut self, offset: Byte, b: &[u8]) -> (written: Result<(), IoError>)
        ensures
            written is Ok <==> b@.len() >= 1 && offset.0 + b@.len() <= old(self)@.len(),
            written matches Err(error) ==> error == IoError::UnexpectedEof && final(self)@ == old(
                self,
            )@,
    {
        let size = b.len();
        if size < 1 || offset.0 > self.len() as u64 || size as u64 > self.len() as u64 - offset.0 {
            return Err(IoError::UnexpectedEof);
        }
        let start = offset.0 as usize;
        let mut i: usize = 0;
        while i < size
            invariant
                size == b@.len(),
                self@.len() == old(self)@.len(),
                i <= size,
                start + size <= self@.len() <= usize::MAX,
                forall|j: int| 0 <= j < i ==> self@[start + j] == b@[j],
                forall|j: int|
                    0 <= j < self@.len() && !(start <= j < start + i) ==> self@[j] == old(self)@[j],
            decreases size - i,
        {
            self[start + i] = b[i];
            i = i + 1;
        }
        Ok(())
    }
}

} // verus!
