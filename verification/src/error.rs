//! The errors of the library.

use crate::block::Block;
use crate::byte::Byte;
use crate::inode::Ino;
use crate::text::{concat, decimal, decimal_string};
use vstd::prelude::*;
use vstd::std_specs::convert::FromSpecImpl;

verus! {

/// Why a volume, an indirect map or an inode store could not do what was
/// asked of it.
#[derive(Debug, Clone, Copy, PartialEq, Eq, Structural)]
pub enum IoError {
    /// The bytes asked for reach past the end of the volume, or there are
    /// none to transfer.
    UnexpectedEof,
    /// A value cannot be written in the volume's format.
    InvalidInput,
    /// What was read is not in the volume's format.
    InvalidData,
    /// The store has no such entry.
    NotFound,
    /// The store refused access.
    PermissionDenied,
    /// Any other failure of the store.
    Other,
}

/// The operation in which an error came up.
#[derive(Debug, Clone, Copy, PartialEq, Eq, Structural)]
pub enum Operation {
    /// Finding the physical block of logical block `inode_block` of inode
    /// `ino`.
    ReadPhysical { ino: Ino, inode_block: Block },
    /// Setting the physical block of logical block `inode_block` of inode
    /// `ino`.
    WritePhysical { ino: Ino, inode_block: Block },
    /// Writing `length` bytes at `offset` in logical block `inode_block` of
    /// inode `ino`.
    WriteInodeBlock { length: usize, ino: Ino, inode_block: Block, offset: Byte },
    /// Putting inode `ino` into the inode store.
    PutInode { ino: Ino },
}

impl Operation {
    /// The operation in words.
    pub open spec fn description(self) -> Seq<char> {
        match self {
            Operation::ReadPhysical { ino, inode_block } => {
                "reading physical block from inode `"@ + decimal(ino.0 as nat) + "` block `"@
                    + decimal(inode_block.0 as nat) + "`"@
            },
            Operation::WritePhysical { ino, inode_block } => {
                "writing physical block to inode `"@ + decimal(ino.0 as nat) + "` block `"@
                    + decimal(inode_block.0 as nat) + "`"@
            },
            Operation::WriteInodeBlock { length, ino, inode_block, offset } => {
                "writing `"@ + decimal(length as nat) + "` bytes to inode `"@ + decimal(
                    ino.0 as nat,
                ) + "` block `"@ + decimal(inode_block.0 as nat) + "` at offset `"@ + decimal(
                    offset.0 as nat,
                ) + "`"@
            },
            Operation::PutInode { ino } => {
                "putting inode `"@ + decimal(ino.0 as nat) + "` into inode store"@
            },
        }
    }

    /// The operation in words.
    pub fn describe(&self) -> (text: String)
        ensures
            text@ == self.description(),
    {
        match self {
            Operation::ReadPhysical { ino, inode_block } => {
                let text = concat("reading physical block from inode `", ino.to_string().as_str());
                let text = concat(text.as_str(), "` block `");
                let text = concat(text.as_str(), inode_block.to_string().as_str());
                concat(text.as_str(), "`")
            },
            Operation::WritePhysical { ino, inode_block } => {
                let text = concat("writing physical block to inode `", ino.to_string().as_str());
                let text = concat(text.as_str(), "` block `");
                let text = concat(text.as_str(), inode_block.to_string().as_str());
                concat(text.as_str(), "`")
            },
            Operation::WriteInodeBlock { length, ino, inode_block, offset } => {
                let text = concat("writing `", decimal_string(*length as u64).as_str());
                let text = concat(text.as_str(), "` bytes to inode `");
                let text = concat(text.as_str(), ino.to_string().as_str());
                let text = concat(text.as_str(), "` block `");
                let text = concat(text.as_str(), inode_block.to_string().as_str());
                let text = concat(text.as_str(), "` at offset `");
                let text = concat(text.as_str(), offset.to_string().as_str());
                concat(text.as_str(), "`")
            },
            Operation::PutInode { ino } => {
                let text = concat("putting inode `", ino.to_string().as_str());
                concat(text.as_str(), "` into inode store")
            },
        }
    }
}

/// An error in finding, setting or using the blocks of an inode.
#[derive(Debug, PartialEq, Eq)]
pub enum IndirectionError {
    /// A volume, an indirect map or an inode store failed.
    Io(IoError),
    /// No block is free.
    OutOfBlocks,
    /// The logical block lies past the last block that an inode can hold.
    OutOfRange,
    /// An error together with the operation in which it came up.
    Annotated(Operation, Box<IndirectionError>),
}

impl From<IoError> for IndirectionError {
    fn from(error: IoError) -> (wrapped: IndirectionError) {
        IndirectionError::Io(error)
    }
}

impl FromSpecImpl<IoError> for IndirectionError {
    open spec fn obeys_from_spec() -> bool {
        true
    }

    open spec fn from_spec(error: IoError) -> IndirectionError {
        IndirectionError::Io(error)
    }
}

impl IndirectionError {
    /// `self` as it came up in `operation`.
    pub open spec fn within(self, operation: Operation) -> IndirectionError {
        IndirectionError::Annotated(operation, Box::new(self))
    }

    /// The error in words: an annotated error as the operation in words, a
    /// colon, and the error within.
    pub open spec fn message(self) -> Seq<char>
        decreases self,
    {
        match self {
            IndirectionError::Io(_) => "io error"@,
            IndirectionError::OutOfBlocks => "out of free blocks"@,
            IndirectionError::OutOfRange => {
                "block exceeds the maximum number of blocks in an inode"@
            },
            IndirectionError::Annotated(operation, inner) => operation.description() + ": "@
                + inner.message(),
        }
    }

    /// The error in words.
    pub fn to_string(&self) -> (text: String)
        ensures
            text@ == self.message(),
        decreases self,
    {
        match self {
            IndirectionError::Io(_) => "io error".to_owned(),
            IndirectionError::OutOfBlocks => "out of free blocks".to_owned(),
            IndirectionError::OutOfRange => {
                "block exceeds the maximum number of blocks in an inode".to_owned()
            },
            IndirectionError::Annotated(operation, inner) => {
                let text = concat(operation.describe().as_str(), ": ");
                concat(text.as_str(), inner.to_string().as_str())
            },
        }
    }

    /// Wraps the error with the operation in which it came up.
    pub fn annotate(self, operation: Operation) -> (annotated: IndirectionError)
        ensures
            annotated == self.within(operation),
    {
        IndirectionError::Annotated(operation, Box::new(self))
    }
}

} // verus!
