//! The storage core of a block-based file system in the manner of early
//! Unix: a file is an inode, and an inode maps the blocks of its file to the
//! blocks of a volume through twelve direct pointers and a singly, a doubly
//! and a triply indirect block.
//!
//! The layers, from the bottom up:
//!
//! - [`byte`] and [`block`]: byte counts, block numbers, and the path of a
//!   logical block through the pointers ([`block::classify`]);
//! - [`bitmap`]: the allocator of free blocks;
//! - [`io`]: volumes, read and written at an offset;
//! - [`indirectmanager`]: the slots of the indirect blocks, in memory or on
//!   a volume;
//! - [`inode`], [`encode`], [`write`]: inodes and their frames on a volume;
//! - [`inodestore`], [`volumeinodestore`], [`cachinginodestore`]: where
//!   inodes are kept;
//! - [`inodeblock`]: from a logical block to its physical block, for reading
//!   ([`inodeblock::PhysicalReader`]) and for writing, with indirect blocks
//!   allocated when first needed ([`inodeblock::PhysicalWriter`]), and the
//!   bytes of one block ([`inodeblock::Manager`]);
//! - [`inodedata`]: the bytes of an inode, across its blocks.
//!
//! The functions are verified against their contracts; the few that only
//! call into the crates `byteorder` and `lru` say what they take on trust.
//! What the contracts say of several functions together is proved in the
//! `lemma_` functions beside them: that allocations come out in order, that
//! a frame gives back what was written into it, that a block that was
//! written is the block that is read, that blocks that were never written
//! have no physical block, however many others were written
//! ([`inodeblock::tree`]), that an inode grows by one block for each
//! indirect block of its own, and that a cache hands an inode to the store
//! behind it only when it drops it.

pub mod bitmap;
pub mod block;
pub mod byte;
pub mod cachinginodestore;
pub mod encode;
pub mod error;
pub mod indirectmanager;
pub mod inode;
pub mod inodeblock;
pub mod inodedata;
pub mod inodestore;
pub mod io;
pub mod text;
pub mod volumeinodestore;
pub mod write;
