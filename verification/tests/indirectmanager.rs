use rustfs::block::{Block, BlockListIndex};
use rustfs::error::IoError;
use rustfs::indirectmanager::{IndirectReader, IndirectWriter, MemoryTable, Wrapper};
use rustfs::io::OffsetVolume;
use rustfs::byte::Byte;

#[test]
fn a_table_in_memory() {
    let mut table = MemoryTable::new();
    assert_eq!(0, table.len());
    assert_eq!(Ok(None), table.read_indirect(Block::new(1), BlockListIndex::new(2)));
    assert_eq!(
        Ok(()),
        table.write_indirect(Block::new(1), BlockListIndex::new(2), Some(Block::new(3)))
    );
    assert_eq!(Ok(Some(Block::new(3))), table.read_indirect(Block::new(1), BlockListIndex::new(2)));
    assert_eq!(Ok(None), table.read_indirect(Block::new(2), BlockListIndex::new(1)));
    assert_eq!(Ok(None), table.read_indirect(Block::new(1), BlockListIndex::new(3)));
    assert_eq!(Ok(None), table.read_indirect(Block::new(0), BlockListIndex::new(130)));
    assert_eq!(1, table.len());
    table.write_indirect(Block::new(1), BlockListIndex::new(2), None).unwrap();
    assert_eq!(Ok(None), table.read_indirect(Block::new(1), BlockListIndex::new(2)));
    assert_eq!(1, table.len());
    table
        .write_indirect(Block::new(u64::MAX), BlockListIndex::new(usize::MAX), Some(Block::new(u64::MAX)))
        .unwrap();
    assert_eq!(
        Ok(Some(Block::new(u64::MAX))),
        table.read_indirect(Block::new(u64::MAX), BlockListIndex::new(usize::MAX))
    );
    assert_eq!(2, table.len());
}

#[test]
fn a_table_in_memory_keeps_slots_apart() {
    let mut table = MemoryTable::new();
    // slot 128 of block 0 is not slot 0 of block 1
    table.write_indirect(Block::new(0), BlockListIndex::new(128), Some(Block::new(7))).unwrap();
    table.write_indirect(Block::new(1), BlockListIndex::new(0), Some(Block::new(8))).unwrap();
    assert_eq!(Ok(Some(Block::new(7))), table.read_indirect(Block::new(0), BlockListIndex::new(128)));
    assert_eq!(Ok(Some(Block::new(8))), table.read_indirect(Block::new(1), BlockListIndex::new(0)));
    assert_eq!(2, table.len());
}

#[test]
fn a_table_on_a_volume() {
    let mut table = Wrapper::new(vec![0u8; 3 * 1024]);
    assert_eq!(Ok(None), table.read_indirect(Block::new(2), BlockListIndex::new(127)));
    assert_eq!(
        Ok(()),
        table.write_indirect(Block::new(2), BlockListIndex::new(5), Some(Block::new(0x0A0B)))
    );
    // the pointer of block 0x0A0B is 0x0A0C, lowest byte first
    assert_eq!([0x0C, 0x0A, 0, 0, 0, 0, 0, 0], table.inner[2 * 1024 + 40..2 * 1024 + 48]);
    assert_eq!(0x0C + 0x0A, table.inner.iter().map(|byte| *byte as u64).sum::<u64>());
    assert_eq!(
        Ok(Some(Block::new(0x0A0B))),
        table.read_indirect(Block::new(2), BlockListIndex::new(5))
    );
    assert_eq!(Ok(None), table.read_indirect(Block::new(2), BlockListIndex::new(4)));
    assert_eq!(Ok(None), table.read_indirect(Block::new(2), BlockListIndex::new(6)));
    assert_eq!(Ok(()), table.write_indirect(Block::new(2), BlockListIndex::new(5), None));
    assert_eq!(vec![0u8; 3 * 1024], table.inner);
    assert_eq!(
        Ok(()),
        table.write_indirect(Block::new(0), BlockListIndex::new(0), Some(Block::new(0)))
    );
    assert_eq!([1, 0, 0, 0, 0, 0, 0, 0], table.inner[..8]);
    assert_eq!(Ok(Some(Block::new(0))), table.read_indirect(Block::new(0), BlockListIndex::new(0)));
}

#[test]
fn a_table_on_a_volume_runs_on_into_the_next_block() {
    let mut table = Wrapper::new(vec![0u8; 3 * 1024]);
    table.write_indirect(Block::new(0), BlockListIndex::new(128), Some(Block::new(7))).unwrap();
    assert_eq!(Ok(Some(Block::new(7))), table.read_indirect(Block::new(1), BlockListIndex::new(0)));
    assert_eq!([8, 0, 0, 0, 0, 0, 0, 0], table.inner[1024..1032]);
}

#[test]
fn a_table_on_a_volume_ends_with_the_volume() {
    let mut table = Wrapper::new(vec![0u8; 3 * 1024]);
    assert_eq!(Ok(None), table.read_indirect(Block::new(2), BlockListIndex::new(127)));
    assert_eq!(
        Err(IoError::UnexpectedEof),
        table.read_indirect(Block::new(2), BlockListIndex::new(128))
    );
    assert_eq!(Err(IoError::UnexpectedEof), table.read_indirect(Block::new(3), BlockListIndex::new(0)));
    assert_eq!(
        Err(IoError::UnexpectedEof),
        table.read_indirect(Block::new(u64::MAX), BlockListIndex::new(0))
    );
    assert_eq!(
        Err(IoError::UnexpectedEof),
        table.read_indirect(Block::new(0), BlockListIndex::new(usize::MAX))
    );
    assert_eq!(
        Err(IoError::UnexpectedEof),
        table.write_indirect(Block::new(3), BlockListIndex::new(0), None)
    );
    assert_eq!(
        Err(IoError::UnexpectedEof),
        table.write_indirect(Block::new(u64::MAX / 1024), BlockListIndex::new(128), None)
    );
    assert_eq!(
        Err(IoError::InvalidInput),
        table.write_indirect(Block::new(0), BlockListIndex::new(0), Some(Block::new(u64::MAX)))
    );
    assert_eq!(vec![0u8; 3 * 1024], table.inner);
}

#[test]
fn a_table_on_a_part_of_a_volume() {
    let mut table = Wrapper::new(OffsetVolume::new(vec![0u8; 2048], Byte::new(1024)));
    table.write_indirect(Block::new(0), BlockListIndex::new(1), Some(Block::new(2))).unwrap();
    assert_eq!([3, 0, 0, 0, 0, 0, 0, 0], table.inner.backend[1032..1040]);
    assert_eq!(Ok(Some(Block::new(2))), table.read_indirect(Block::new(0), BlockListIndex::new(1)));
    assert_eq!(Err(IoError::UnexpectedEof), table.read_indirect(Block::new(1), BlockListIndex::new(0)));
}
