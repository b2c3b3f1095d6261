use rustfs::block::Block;
use rustfs::byte::Byte;
use rustfs::encode::{
    decode_inode, encode_inode, DOUBLY_INDIRECT_START, INODE_SIZE, SINGLY_INDIRECT_START,
    TRIPLY_INDIRECT_START,
};
use rustfs::error::IoError;
use rustfs::inode::{Ino, Inode};
use rustfs::inodestore::InodeStore;
use rustfs::io::OffsetVolume;
use rustfs::volumeinodestore::VolumeInodeStore;
use rustfs::write::{read_inode, write_inode};

fn sample() -> Inode {
    let mut inode = Inode::new(Ino::new(3));
    for (i, block) in inode.direct_blocks.iter_mut().enumerate() {
        if i % 3 != 1 {
            *block = Some(Block::new(1000 + i as u64));
        }
    }
    inode.singly_indirect_block = Some(Block::new(0x0102_0304_0506_0708));
    inode.doubly_indirect_block = None;
    inode.triply_indirect_block = Some(Block::new(u64::MAX - 1));
    // the size that a frame keeps: the value of the first direct pointer
    inode.size = Byte::new(1001);
    inode
}

#[test]
fn a_frame_has_its_fields_at_their_places() {
    let inode = sample();
    let mut buf = [0xAAu8; INODE_SIZE];
    encode_inode(&inode, &mut buf);

    assert_eq!(96, SINGLY_INDIRECT_START);
    assert_eq!(104, DOUBLY_INDIRECT_START);
    assert_eq!(112, TRIPLY_INDIRECT_START);
    // direct pointer 0 holds block 1000: the value 1001, lowest byte first
    assert_eq!([0xE9, 0x03, 0, 0, 0, 0, 0, 0], buf[0..8]);
    // direct pointer 1 holds no block
    assert_eq!([0u8; 8], buf[8..16]);
    // direct pointer 11 holds block 1011
    assert_eq!([0xF4, 0x03, 0, 0, 0, 0, 0, 0], buf[88..96]);
    assert_eq!([0x09, 0x07, 0x06, 0x05, 0x04, 0x03, 0x02, 0x01], buf[96..104]);
    assert_eq!([0u8; 8], buf[104..112]);
    assert_eq!([0xFFu8; 8], buf[112..120]);
    // the reserved bytes are left alone
    assert!(buf[120..].iter().all(|byte| *byte == 0xAA));
}

#[test]
fn decoding_a_frame_gives_the_inode_back() {
    let inode = sample();
    let mut buf = [0u8; INODE_SIZE];
    encode_inode(&inode, &mut buf);
    assert_eq!(inode, decode_inode(&buf, Ino::new(3)));
    assert_eq!(Ino::new(8), decode_inode(&buf, Ino::new(8)).ino);
}

#[test]
fn a_frame_keeps_the_first_direct_pointer_as_the_size() {
    let mut inode = sample();
    inode.size = Byte::new(123_456);
    let mut buf = [0u8; INODE_SIZE];
    encode_inode(&inode, &mut buf);
    let decoded = decode_inode(&buf, Ino::new(3));
    assert_eq!(Byte::new(1001), decoded.size);
    inode.size = Byte::new(1001);
    assert_eq!(inode, decoded);

    let mut empty = Inode::new(Ino::new(0));
    empty.size = Byte::new(5);
    encode_inode(&empty, &mut buf);
    assert_eq!(Inode::new(Ino::new(0)), decode_inode(&buf, Ino::new(0)));
}

#[test]
fn a_frame_of_zeros_is_an_inode_without_blocks() {
    let buf = [0u8; INODE_SIZE];
    assert_eq!(Inode::new(Ino::new(17)), decode_inode(&buf, Ino::new(17)));
}

#[test]
fn encodable_inodes() {
    let mut inode = sample();
    assert!(inode.is_encodable());
    inode.direct_blocks[7] = Some(Block::new(u64::MAX));
    assert!(!inode.is_encodable());
    inode.direct_blocks[7] = None;
    inode.doubly_indirect_block = Some(Block::new(u64::MAX));
    assert!(!inode.is_encodable());
    assert!(Inode::new(Ino::new(0)).is_encodable());
}

#[test]
fn inodes_lie_one_frame_after_the_other() {
    let mut volume = vec![0u8; 4 * INODE_SIZE];
    let inode = sample();
    assert_eq!(Ok(()), write_inode(&mut volume, &inode));
    assert!(volume[..3 * INODE_SIZE].iter().all(|byte| *byte == 0));
    assert_eq!([0xE9, 0x03], volume[3 * INODE_SIZE..3 * INODE_SIZE + 2]);
    assert_eq!(Ok(inode), read_inode(&mut volume, Ino::new(3)));
    assert_eq!(Ok(Inode::new(Ino::new(2))), read_inode(&mut volume, Ino::new(2)));
    assert_eq!(Err(IoError::UnexpectedEof), read_inode(&mut volume, Ino::new(4)));
    assert_eq!(Err(IoError::UnexpectedEof), read_inode(&mut volume, Ino::new(u64::MAX)));
}

#[test]
fn inodes_that_cannot_be_written() {
    let mut volume = vec![0u8; 4 * INODE_SIZE];
    let mut inode = Inode::new(Ino::new(4));
    assert_eq!(Err(IoError::UnexpectedEof), write_inode(&mut volume, &inode));
    inode.ino = Ino::new(u64::MAX);
    assert_eq!(Err(IoError::UnexpectedEof), write_inode(&mut volume, &inode));
    inode.ino = Ino::new(0);
    inode.singly_indirect_block = Some(Block::new(u64::MAX));
    assert_eq!(Err(IoError::InvalidInput), write_inode(&mut volume, &inode));
    assert_eq!(vec![0u8; 4 * INODE_SIZE], volume);
}

#[test]
fn a_store_on_a_volume() {
    let mut store = VolumeInodeStore::new(vec![0u8; 4 * INODE_SIZE]);
    let inode = sample();
    assert_eq!(Ok(Some(Inode::new(Ino::new(3)))), store.get(Ino::new(3)));
    assert_eq!(Ok(()), store.put(&inode));
    assert_eq!(Ok(Some(inode.clone())), store.get(Ino::new(3)));
    assert_eq!(Ok(Some(Inode::new(Ino::new(0)))), store.get(Ino::new(0)));
    assert_eq!(Err(IoError::UnexpectedEof), store.get(Ino::new(4)));
    let mut far = Inode::new(Ino::new(4));
    assert_eq!(Err(IoError::UnexpectedEof), store.put(&far));
    far.ino = Ino::new(1);
    far.direct_blocks[0] = Some(Block::new(u64::MAX));
    assert_eq!(Err(IoError::InvalidInput), store.put(&far));
    assert_eq!(Ok(Some(Inode::new(Ino::new(1)))), store.get(Ino::new(1)));
    assert_eq!(Ok(()), store.put(&Inode::new(Ino::new(3))));
    assert_eq!(vec![0u8; 4 * INODE_SIZE], store.volume);
}

#[test]
fn a_store_on_a_part_of_a_volume() {
    let region = OffsetVolume::new(vec![0u8; 3 * INODE_SIZE + 100], Byte::new(100));
    let mut store = VolumeInodeStore::new(region);
    let inode = {
        let mut inode = sample();
        inode.ino = Ino::new(1);
        inode
    };
    assert_eq!(Ok(()), store.put(&inode));
    assert_eq!(Ok(Some(inode)), store.get(Ino::new(1)));
    assert_eq!([0xE9, 0x03], store.volume.backend[100 + INODE_SIZE..100 + INODE_SIZE + 2]);
    assert!(store.volume.backend[..100 + INODE_SIZE].iter().all(|byte| *byte == 0));
    assert_eq!(Err(IoError::UnexpectedEof), store.get(Ino::new(3)));
}
