//! A part of a volume, seen as a volume of its own.

use crate::byte::Byte;
use crate::error::IoError;
use crate::io::readat::{ReadAt, Volume};
use crate::io::writeat::{splice, WriteAt};
use vstd::prelude::*;

verus! {

/// The part of `backend` that starts at `offset`: every read and write goes
/// to `backend`, `offset` bytes further on.
pub struct OffsetVolume<B> {
    pub backend: B,
    pub offset: Byte,
}

impl<B> OffsetVolume<B> {
    pub fn new(backend: B, offset: Byte) -> (volume: OffsetVolume<B>)
        ensures
            volume.backend == backend,
            volume.offset == offset,
    {
        OffsetVolume { backend, offset }
    }
}

impl<B: Volume> Volume for OffsetVolume<B> {
    /// The bytes of the backend from `offset` on, and none where the backend
    /// ends before `offset`.
    open spec fn bytes(&self) -> Seq<u8> {
        if self.offset.0 <= self.backend.bytes().len() {
            self.backend.bytes().skip(self.offset.0 as int)
        } else {
            Seq::empty()
        }
    }

    /// A part of a dependable backend is dependable, where a `u64` holds
    /// every place of the backend.
    open spec fn dependable(&self) -> bool {
        self.backend.dependable() && self.backend.bytes().len() <= u64::MAX
    }
}

impl<B: ReadAt> ReadAt for OffsetVolume<B> {
    /// Reads from the backend at `offset` past this volume's own offset. An
    /// offset that no `u64` holds lies past the end of every backend: the
    /// read fails with `UnexpectedEof`.
    fn read_at(&self, offset: Byte, buf: &mut [u8]) -> (read: Result<(), IoError>)
        ensures
            offset.0 + self.offset.0 > u64::MAX ==> read == Err::<(), IoError>(
                IoError::UnexpectedEof,
            ) && final(buf)@ == old(buf)@,
    {
        match offset.0.checked_add(self.offset.0) {
            Some(shifted) => self.backend.read_at(Byte::new(shifted), buf),
            None => Err(IoError::UnexpectedEof),
        }
    }
}

impl<B: WriteAt> WriteAt for OffsetVolume<B> {
    /// Writes to the backend at `offset` past this volume's own offset. An
    /// offset that no `u64` holds lies past the end of every backend: the
    /// write fails with `UnexpectedEof`. A write that succeeds has written
    /// to the backend at the shifted offset, so that the bytes of the
    /// backend before this volume's offset are as they were.
    fn write_at(&mut self, offset: Byte, buf: &[u8]) -> (written: Result<(), IoError>)
        ensures
            final(self).offset == old(self).offset,
            offset.0 + old(self).offset.0 > u64::MAX ==> written == Err::<(), IoError>(
                IoError::UnexpectedEof,
            ) && *final(self) == *old(self),
            written is Ok ==> final(self).backend.bytes() == splice(
                old(self).backend.bytes(),
                offset.0 + old(self).offset.0,
                buf@,
            ),
    {
        match offset.0.checked_add(self.offset.0) {
            Some(shifted) => self.backend.write_at(Byte::new(shifted), buf),
            None => Err(IoError::UnexpectedEof),
        }
    }
}

} // verus!
