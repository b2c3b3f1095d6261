//! The blocks of an inode: finding the physical block of a logical block,
//! setting it, and reading and writing the bytes of a block.

pub mod manager;
pub mod physicalreader;
pub mod physicalwriter;
pub mod tree;

pub use crate::error::IndirectionError;
pub use manager::{Manager, Reader, Writer};
pub use physicalreader::PhysicalReader;
pub use physicalwriter::PhysicalWriter;
