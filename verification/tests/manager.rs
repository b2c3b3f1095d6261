use rustfs::block::{Block, BLOCK_SIZE, TRIPLY_INDIRECT_MAX};
use rustfs::byte::Byte;
use rustfs::error::{IndirectionError, IoError, Operation};
use rustfs::indirectmanager::MemoryTable;
use rustfs::inode::{Ino, Inode};
use rustfs::inodeblock::manager::{absolute_offset, block_place};
use rustfs::inodeblock::{Manager, PhysicalReader, Reader, Writer};

#[test]
fn test_write() -> Result<(), IndirectionError> {
    let volume = vec![0 as u8; 1024];
    let mut manager = Manager::new(PhysicalReader::new(MemoryTable::new()), volume);
    let inode = Inode {
        ino: Ino::new(0),
        size: Byte::new(BLOCK_SIZE),
        direct_blocks: [
            Some(Block::new(0)),
            None,
            None,
            None,
            None,
            None,
            None,
            None,
            None,
            None,
            None,
            None,
        ],
        singly_indirect_block: None,
        doubly_indirect_block: None,
        triply_indirect_block: None,
    };
    manager.write_inode_block(&inode, Block::new(0), Byte::new(0), &[1, 1, 1, 1, 1])?;

    let mut buf = [0; BLOCK_SIZE as usize];
    manager.read_inode_block(&inode, Block::new(0), Byte::new(0), &mut buf)?;

    let mut wanted = [0 as u8; BLOCK_SIZE as usize];
    wanted[..5].copy_from_slice(&[1, 1, 1, 1, 1]);

    assert_eq!(wanted, buf);

    Ok(())
}

#[test]
fn a_block_is_written_at_its_offset() {
    let volume = vec![0u8; 4096];
    let mut manager = Manager::new(PhysicalReader::new(MemoryTable::new()), volume);
    let mut inode = Inode::new(Ino::new(0));
    inode.direct_blocks[3] = Some(Block::new(2));
    manager.write_inode_block(&inode, Block::new(3), Byte::new(10), &[7, 8, 9]).unwrap();
    assert_eq!([0, 7, 8, 9, 0], manager.volume[2048 + 9..2048 + 14]);
    assert_eq!(7 + 8 + 9, manager.volume.iter().map(|byte| *byte as u64).sum::<u64>());
    let mut buf = [0u8; 2];
    manager.read_inode_block(&inode, Block::new(3), Byte::new(11), &mut buf).unwrap();
    assert_eq!([8, 9], buf);
}

#[test]
fn a_hole_has_no_bytes() {
    let volume = vec![0u8; 4096];
    let mut manager = Manager::new(PhysicalReader::new(MemoryTable::new()), volume);
    let inode = Inode::new(Ino::new(5));
    let mut buf = [3u8; 4];
    assert_eq!(
        Err(IndirectionError::Io(IoError::UnexpectedEof)),
        manager.read_inode_block(&inode, Block::new(0), Byte::new(0), &mut buf)
    );
    assert_eq!([3u8; 4], buf);
    assert_eq!(
        Err(IndirectionError::Annotated(
            Operation::WriteInodeBlock {
                length: 4,
                ino: Ino::new(5),
                inode_block: Block::new(0),
                offset: Byte::new(1),
            },
            Box::new(IndirectionError::Io(IoError::UnexpectedEof)),
        )),
        manager.write_inode_block(&inode, Block::new(0), Byte::new(1), &buf)
    );
    assert_eq!(vec![0u8; 4096], manager.volume);
}

#[test]
fn a_block_past_the_volume_has_no_bytes() {
    let volume = vec![0u8; 1024];
    let mut manager = Manager::new(PhysicalReader::new(MemoryTable::new()), volume);
    let mut inode = Inode::new(Ino::new(5));
    inode.direct_blocks[0] = Some(Block::new(1));
    inode.direct_blocks[1] = Some(Block::new(u64::MAX));
    let mut buf = [3u8; 4];
    for block in [0, 1] {
        assert_eq!(
            Err(IndirectionError::Io(IoError::UnexpectedEof)),
            manager.read_inode_block(&inode, Block::new(block), Byte::new(0), &mut buf)
        );
        assert!(manager.write_inode_block(&inode, Block::new(block), Byte::new(0), &buf).is_err());
    }
}

#[test]
fn blocks_out_of_range_are_refused() {
    let volume = vec![0u8; 1024];
    let mut manager = Manager::new(PhysicalReader::new(MemoryTable::new()), volume);
    let inode = Inode::new(Ino::new(5));
    let mut buf = [3u8; 4];
    let block = Block::new(TRIPLY_INDIRECT_MAX + 1);
    assert_eq!(
        Err(IndirectionError::OutOfRange),
        manager.read_inode_block(&inode, block, Byte::new(0), &mut buf)
    );
    assert_eq!(
        Err(IndirectionError::OutOfRange),
        manager.write_inode_block(&inode, block, Byte::new(0), &buf)
    );
}

#[test]
fn absolute_offsets() {
    assert_eq!(Some(Byte::new(0)), absolute_offset(Block::new(0), Byte::new(0)));
    assert_eq!(Some(Byte::new(3 * 1024 + 17)), absolute_offset(Block::new(3), Byte::new(17)));
    assert_eq!(None, absolute_offset(Block::new(u64::MAX), Byte::new(0)));
    assert_eq!(None, absolute_offset(Block::new(u64::MAX / 1024), Byte::new(1024)));
}

#[test]
fn where_a_transfer_goes() {
    assert_eq!(Ok(Byte::new(0)), block_place(Some(Block::new(0)), Byte::new(0)));
    assert_eq!(Ok(Byte::new(5 * 1024 + 9)), block_place(Some(Block::new(5)), Byte::new(9)));
    assert_eq!(Err(IoError::UnexpectedEof), block_place(None, Byte::new(9)));
    assert_eq!(Err(IoError::UnexpectedEof), block_place(Some(Block::new(u64::MAX)), Byte::new(0)));
    assert_eq!(
        Err(IoError::UnexpectedEof),
        block_place(Some(Block::new(u64::MAX / 1024)), Byte::new(1024))
    );
}

#[test]
fn a_block_that_was_written_is_read() {
    let volume = vec![0u8; 3 * 1024];
    let mut manager = Manager::new(PhysicalReader::new(MemoryTable::new()), volume);
    let mut inode = Inode::new(Ino::new(0));
    inode.direct_blocks[7] = Some(Block::new(2));
    assert_eq!(Ok(()), manager.write_inode_block(&inode, Block::new(7), Byte::new(1020), &[5, 6, 7, 8]));
    let mut buf = [0u8; 6];
    assert_eq!(Ok(()), manager.read_inode_block(&inode, Block::new(7), Byte::new(1018), &mut buf));
    assert_eq!([0, 0, 5, 6, 7, 8], buf);
    // one byte more would lie past the end of the volume
    assert!(manager.write_inode_block(&inode, Block::new(7), Byte::new(1021), &[5, 6, 7, 8]).is_err());
}
