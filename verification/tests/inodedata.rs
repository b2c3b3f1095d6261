use rustfs::block::Block;
use rustfs::byte::Byte;
use rustfs::error::{IndirectionError, IoError};
use rustfs::indirectmanager::MemoryTable;
use rustfs::inode::{Ino, Inode};
use rustfs::inodeblock::{Manager, PhysicalReader};
use rustfs::inodedata::InodeDataManager;
use rustfs::inodestore::{InodeStore, MemoryStore};

#[test]
fn test() -> Result<(), IndirectionError> {
    let mut inode = Inode::new(Ino::new(0));
    inode.direct_blocks[0] = Some(Block::new(0));

    let volume = vec![0 as u8; 1024 * 1024];
    let physical_reader = PhysicalReader::new(MemoryTable::new());
    let block_manager = Manager::new(physical_reader, volume);
    let mut inode_store = MemoryStore::new();
    inode_store.put(&inode)?;
    let mut data_manager = InodeDataManager::new(block_manager, inode_store);

    {
        let buffer = [1, 1, 1, 1];
        data_manager.write_inode_data(&mut inode, Byte::new(0), &buffer)?;

        // make sure the inode's size was updated
        assert_eq!(Byte::from(buffer.len()), inode.size);

        // make sure the inode store's entry was updated
        assert_eq!(data_manager.inode_store.get(inode.ino)?, Some(inode.clone()));
    }

    {
        let mut buffer = [0; 4];
        data_manager.read_inode_data(&inode, Byte::new(0), &mut buffer)?;
        assert_eq!([1, 1, 1, 1], buffer);
    }
    Ok(())
}

fn data_manager(
    volume_size: usize,
) -> InodeDataManager<MemoryStore, Manager<MemoryTable, Vec<u8>>> {
    InodeDataManager::new(
        Manager::new(PhysicalReader::new(MemoryTable::new()), vec![0u8; volume_size]),
        MemoryStore::new(),
    )
}

#[test]
fn a_write_across_two_blocks() {
    let mut inode = Inode::new(Ino::new(0));
    inode.direct_blocks[0] = Some(Block::new(0));
    inode.direct_blocks[1] = Some(Block::new(1));
    let mut data_manager = data_manager(4096);

    let written = data_manager.write_inode_data(&mut inode, Byte::new(1022), &[1, 1, 1, 1]);

    assert_eq!(Ok(Byte::new(4)), written);
    assert_eq!(Byte::new(1026), inode.size);
    let volume = &data_manager.block_manager.volume;
    assert_eq!([0, 1, 1], volume[1021..1024]);
    assert_eq!([1, 1, 0], volume[1024..1027]);
    assert_eq!(4, volume.iter().filter(|byte| **byte == 1).count());
    assert_eq!(Ok(Some(inode.clone())), data_manager.inode_store.get(Ino::new(0)));
}

#[test]
fn chunks_go_to_their_own_blocks() {
    let mut inode = Inode::new(Ino::new(0));
    inode.direct_blocks[0] = Some(Block::new(3));
    inode.direct_blocks[1] = Some(Block::new(1));
    inode.direct_blocks[2] = Some(Block::new(0));
    let mut data_manager = data_manager(4096);
    let buffer: Vec<u8> = (0..2100u32).map(|i| (i % 251) as u8 + 1).collect();

    assert_eq!(
        Ok(Byte::new(2100)),
        data_manager.write_inode_data(&mut inode, Byte::new(500), &buffer)
    );

    assert_eq!(Byte::new(2600), inode.size);
    let volume = &data_manager.block_manager.volume;
    assert_eq!(buffer[..524], volume[3 * 1024 + 500..4 * 1024]);
    assert_eq!(buffer[524..1548], volume[1024..2048]);
    assert_eq!(buffer[1548..], volume[..552]);
    assert_eq!(vec![0u8; 500], volume[3 * 1024..3 * 1024 + 500]);

    let mut read = vec![0u8; 2100];
    assert_eq!(
        Ok(Byte::new(2100)),
        data_manager.read_inode_data(&inode, Byte::new(500), &mut read)
    );
    assert_eq!(buffer, read);
}

#[test]
fn a_read_ends_with_the_data() {
    let mut inode = Inode::new(Ino::new(0));
    inode.direct_blocks[0] = Some(Block::new(0));
    inode.direct_blocks[1] = Some(Block::new(1));
    let mut data_manager = data_manager(4096);
    data_manager.write_inode_data(&mut inode, Byte::new(1020), &[1, 2, 3, 4, 5, 6]).unwrap();
    assert_eq!(Byte::new(1026), inode.size);

    let mut buffer = [9u8; 8];
    assert_eq!(Ok(Byte::new(4)), data_manager.read_inode_data(&inode, Byte::new(1022), &mut buffer));
    assert_eq!([3, 4, 5, 6, 9, 9, 9, 9], buffer);

    let mut buffer = [9u8; 8];
    assert_eq!(Ok(Byte::new(0)), data_manager.read_inode_data(&inode, Byte::new(1026), &mut buffer));
    assert_eq!(Ok(Byte::new(0)), data_manager.read_inode_data(&inode, Byte::new(5000), &mut buffer));
    assert_eq!([9u8; 8], buffer);

    let mut nothing = [0u8; 0];
    assert_eq!(Ok(Byte::new(0)), data_manager.read_inode_data(&inode, Byte::new(0), &mut nothing));
}

#[test]
fn a_write_within_the_data_leaves_the_size() {
    let mut inode = Inode::new(Ino::new(0));
    inode.direct_blocks[0] = Some(Block::new(0));
    inode.size = Byte::new(100);
    let mut data_manager = data_manager(4096);
    assert_eq!(Ok(Byte::new(3)), data_manager.write_inode_data(&mut inode, Byte::new(10), &[1, 2, 3]));
    assert_eq!(Byte::new(100), inode.size);
    assert_eq!(0, data_manager.inode_store.len());
    assert_eq!(Ok(Byte::new(3)), data_manager.write_inode_data(&mut inode, Byte::new(97), &[1, 2, 3]));
    assert_eq!(Byte::new(100), inode.size);
    assert_eq!(0, data_manager.inode_store.len());
    assert_eq!(Ok(Byte::new(3)), data_manager.write_inode_data(&mut inode, Byte::new(98), &[1, 2, 3]));
    assert_eq!(Byte::new(101), inode.size);
    assert_eq!(1, data_manager.inode_store.len());
}

#[test]
fn a_write_to_a_hole_fails_and_leaves_the_inode() {
    let mut inode = Inode::new(Ino::new(0));
    inode.direct_blocks[0] = Some(Block::new(0));
    let mut data_manager = data_manager(4096);
    let written = data_manager.write_inode_data(&mut inode, Byte::new(1022), &[1, 1, 1, 1]);
    assert!(matches!(written, Err(IndirectionError::Annotated(_, _))));
    assert_eq!(Byte::new(0), inode.size);
    assert_eq!(0, data_manager.inode_store.len());
    // the first chunk was written before the second one failed
    assert_eq!([1, 1], data_manager.block_manager.volume[1022..1024]);
}

#[test]
fn a_read_from_a_hole_fails() {
    let mut inode = Inode::new(Ino::new(0));
    inode.size = Byte::new(10);
    let mut data_manager = data_manager(4096);
    let mut buffer = [0u8; 4];
    assert_eq!(
        Err(IndirectionError::Io(IoError::UnexpectedEof)),
        data_manager.read_inode_data(&inode, Byte::new(0), &mut buffer)
    );
}
