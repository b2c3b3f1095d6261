//! Volumes: flat arrays of bytes that are read and written at an offset.

pub mod offsetvolume;
pub mod readat;
pub mod writeat;

pub use offsetvolume::OffsetVolume;
pub use readat::{ReadAt, Volume};
pub use writeat::WriteAt;
