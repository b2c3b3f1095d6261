use rustfs::block::Block;
use rustfs::byte::Byte;
use rustfs::inode::{Ino, Inode};
use rustfs::inodestore::{InodeStore, MemoryStore};

#[test]
fn a_new_inode_has_no_blocks() {
    let inode = Inode::new(Ino::new(9));
    assert_eq!(Ino::new(9), inode.ino);
    assert_eq!(Byte::new(0), inode.size);
    assert_eq!([None; 12], inode.direct_blocks);
    assert_eq!(None, inode.singly_indirect_block);
    assert_eq!(None, inode.doubly_indirect_block);
    assert_eq!(None, inode.triply_indirect_block);
    assert_eq!(Byte::new(9), Byte::from(inode.ino));
}

#[test]
fn setting_a_direct_block() {
    let mut inode = Inode::new(Ino::new(9));
    inode.set_direct_block(rustfs::block::BlockListIndex::new(4), Some(Block::new(77)));
    let mut wanted = Inode::new(Ino::new(9));
    wanted.direct_blocks[4] = Some(Block::new(77));
    assert_eq!(wanted, inode);
    inode.set_direct_block(rustfs::block::BlockListIndex::new(4), None);
    assert_eq!(Inode::new(Ino::new(9)), inode);
}

#[test]
fn a_store_in_memory() {
    let mut store = MemoryStore::new();
    assert_eq!(0, store.len());
    assert_eq!(Ok(None), store.get(Ino::new(1)));
    let mut inode = Inode::new(Ino::new(1));
    inode.size = Byte::new(55);
    inode.direct_blocks[2] = Some(Block::new(u64::MAX));
    assert_eq!(Ok(()), store.put(&inode));
    assert_eq!(Ok(Some(inode.clone())), store.get(Ino::new(1)));
    assert_eq!(Ok(None), store.get(Ino::new(0)));
    assert_eq!(Ok(None), store.get(Ino::new(2)));
    assert_eq!(1, store.len());
    inode.size = Byte::new(56);
    assert_eq!(Ok(()), store.put(&inode));
    assert_eq!(Ok(Some(inode.clone())), store.get(Ino::new(1)));
    assert_eq!(1, store.len());
    assert_eq!(Ok(()), store.put(&Inode::new(Ino::new(u64::MAX))));
    assert_eq!(2, store.len());
    assert_eq!(Ok(Some(Inode::new(Ino::new(u64::MAX)))), store.get(Ino::new(u64::MAX)));
    assert_eq!(Ok(Some(inode)), store.get(Ino::new(1)));
}
