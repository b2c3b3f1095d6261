use rustfs::block::{
    Block, BlockListIndex, Indirection, BLOCK_POINTERS_PER_BLOCK, BLOCK_POINTER_SIZE, BLOCK_SIZE,
    DIRECT_BLOCKS_COUNT, DIRECT_BLOCKS_MAX, DOUBLY_INDIRECT_COUNT, DOUBLY_INDIRECT_MAX,
    SINGLY_INDIRECT_COUNT, SINGLY_INDIRECT_MAX, TRIPLY_INDIRECT_COUNT, TRIPLY_INDIRECT_MAX,
};
use rustfs::byte::{Byte, BYTE_POINTER_SIZE};

#[test]
fn test_indirection_from_block_doubly_indirect() {
    assert_eq!(
        Indirection::DoublyIndirect {
            doubly_indirect_index: BlockListIndex(0),
            singly_indirect_index: BlockListIndex(42),
        },
        Indirection::from(Block::new(SINGLY_INDIRECT_MAX) + Block(42)),
    );
}

#[test]
fn test_indirection_from_block_triply_indirect() {
    assert_eq!(
        Indirection::TriplyIndirect {
            triply_indirect_index: BlockListIndex(0),
            doubly_indirect_index: BlockListIndex(0),
            singly_indirect_index: BlockListIndex(42)
        },
        Indirection::from(Block::new(DOUBLY_INDIRECT_MAX) + Block(42)),
    );
}

#[test]
fn constants_follow_from_the_block_size() {
    assert_eq!(1024, BLOCK_SIZE);
    assert_eq!(8, BLOCK_POINTER_SIZE);
    assert_eq!(8, BYTE_POINTER_SIZE);
    assert_eq!(12, DIRECT_BLOCKS_COUNT);
    assert_eq!(BLOCK_SIZE / BLOCK_POINTER_SIZE, BLOCK_POINTERS_PER_BLOCK);
    assert_eq!(DIRECT_BLOCKS_COUNT as u64 - 1, DIRECT_BLOCKS_MAX);
    assert_eq!(BLOCK_POINTERS_PER_BLOCK, SINGLY_INDIRECT_COUNT);
    assert_eq!(SINGLY_INDIRECT_COUNT + DIRECT_BLOCKS_MAX, SINGLY_INDIRECT_MAX);
    assert_eq!(SINGLY_INDIRECT_COUNT * BLOCK_POINTERS_PER_BLOCK, DOUBLY_INDIRECT_COUNT);
    assert_eq!(DOUBLY_INDIRECT_COUNT + SINGLY_INDIRECT_MAX, DOUBLY_INDIRECT_MAX);
    assert_eq!(DOUBLY_INDIRECT_COUNT * BLOCK_POINTERS_PER_BLOCK, TRIPLY_INDIRECT_COUNT);
    assert_eq!(TRIPLY_INDIRECT_COUNT + DOUBLY_INDIRECT_MAX, TRIPLY_INDIRECT_MAX);
    assert_eq!(2113675, TRIPLY_INDIRECT_MAX);
}

#[test]
fn classification_at_the_boundaries() {
    let p = BLOCK_POINTERS_PER_BLOCK;
    assert_eq!(Indirection::Direct { direct_index: BlockListIndex(0) }, Indirection::from(Block(0)));
    assert_eq!(
        Indirection::Direct { direct_index: BlockListIndex(11) },
        Indirection::from(Block(11))
    );
    assert_eq!(
        Indirection::SinglyIndirect { singly_indirect_index: BlockListIndex(1) },
        Indirection::from(Block(12))
    );
    assert_eq!(
        Indirection::SinglyIndirect { singly_indirect_index: BlockListIndex(128) },
        Indirection::from(Block(12 + p - 1))
    );
    assert_eq!(
        Indirection::DoublyIndirect {
            doubly_indirect_index: BlockListIndex(0),
            singly_indirect_index: BlockListIndex(1),
        },
        Indirection::from(Block(12 + p))
    );
    assert_eq!(
        Indirection::DoublyIndirect {
            doubly_indirect_index: BlockListIndex(128),
            singly_indirect_index: BlockListIndex(0),
        },
        Indirection::from(Block(12 + p + p * p - 1))
    );
    assert_eq!(
        Indirection::TriplyIndirect {
            triply_indirect_index: BlockListIndex(0),
            doubly_indirect_index: BlockListIndex(0),
            singly_indirect_index: BlockListIndex(1),
        },
        Indirection::from(Block(12 + p + p * p))
    );
    assert_eq!(
        Indirection::TriplyIndirect {
            triply_indirect_index: BlockListIndex(128),
            doubly_indirect_index: BlockListIndex(0),
            singly_indirect_index: BlockListIndex(0),
        },
        Indirection::from(Block(12 + p + p * p + p * p * p - 1))
    );
    assert_eq!(Indirection::OutOfRange, Indirection::from(Block(12 + p + p * p + p * p * p)));
    assert_eq!(Indirection::OutOfRange, Indirection::from(Block(u64::MAX)));
}

#[test]
fn classification_inside_the_ranges() {
    assert_eq!(
        Indirection::SinglyIndirect { singly_indirect_index: BlockListIndex(42) },
        Indirection::from(Block(53))
    );
    assert_eq!(
        Indirection::DoublyIndirect {
            doubly_indirect_index: BlockListIndex(3),
            singly_indirect_index: BlockListIndex(7),
        },
        Indirection::from(Block(SINGLY_INDIRECT_MAX + 3 * 128 + 7))
    );
    assert_eq!(
        Indirection::TriplyIndirect {
            triply_indirect_index: BlockListIndex(5),
            doubly_indirect_index: BlockListIndex(9),
            singly_indirect_index: BlockListIndex(100),
        },
        Indirection::from(Block(DOUBLY_INDIRECT_MAX + 5 * 16384 + 9 * 128 + 100))
    );
}

#[test]
fn pointer_values_round_trip() {
    assert_eq!(0, Block::encode(None));
    assert_eq!(1, Block::encode(Some(Block::new(0))));
    assert_eq!(43, Block::encode(Some(Block::new(42))));
    assert_eq!(u64::MAX, Block::encode(Some(Block::new(u64::MAX - 1))));
    assert_eq!(None, Block::decode(0));
    assert_eq!(Some(Block::new(0)), Block::decode(1));
    assert_eq!(Some(Block::new(u64::MAX - 1)), Block::decode(u64::MAX));
    for value in [0u64, 1, 2, 127, 128, 1 << 40, u64::MAX - 1] {
        assert_eq!(Some(Block::new(value)), Block::decode(Block::encode(Some(Block::new(value)))));
    }
}

#[test]
fn block_arithmetic() {
    assert_eq!(Block::new(7), Block::new(3) + Block::new(4));
    assert_eq!(Block::new(3), Block::new(7) - Block::new(4));
    assert_eq!(Block::new(12), Block::new(3) * Block::new(4));
    assert_eq!(Block::new(3), Block::new(13) / Block::new(4));
    assert_eq!(Block::new(1), Block::new(13) % Block::new(4));
    assert_eq!(Block::new(9), Block::from(9u64));
    assert_eq!(9u64, u64::from(Block::new(9)));
    assert_eq!(9u64, Block::new(9).to_u64());
    assert_eq!(9usize, Block::new(9).to_usize());
    assert!(Block::new(3) < Block::new(4));
}

#[test]
fn index_arithmetic() {
    assert_eq!(BlockListIndex::new(7), BlockListIndex::new(3) + BlockListIndex::new(4));
    assert_eq!(BlockListIndex::new(3), BlockListIndex::new(7) - BlockListIndex::new(4));
    assert_eq!(BlockListIndex::new(12), BlockListIndex::new(3) * BlockListIndex::new(4));
    assert_eq!(BlockListIndex::new(3), BlockListIndex::new(13) / BlockListIndex::new(4));
    assert_eq!(BlockListIndex::new(1), BlockListIndex::new(13) % BlockListIndex::new(4));
    assert_eq!(13u64, u64::from(BlockListIndex::new(13)));
}

#[test]
fn index_into_direct_blocks() {
    let mut direct_blocks: [Option<Block>; DIRECT_BLOCKS_COUNT] = [None; DIRECT_BLOCKS_COUNT];
    BlockListIndex::new(11).set_direct_block(&mut direct_blocks, Some(Block::new(5)));
    assert_eq!(Some(Block::new(5)), BlockListIndex::new(11).get_direct_block(&direct_blocks));
    assert_eq!(None, BlockListIndex::new(0).get_direct_block(&direct_blocks));
    BlockListIndex::new(11).set_direct_block(&mut direct_blocks, None);
    assert_eq!([None; DIRECT_BLOCKS_COUNT], direct_blocks);
}

#[test]
fn byte_arithmetic() {
    assert_eq!(Byte::new(7), Byte::new(3) + Byte::new(4));
    assert_eq!(Byte::new(3), Byte::new(7) - Byte::new(4));
    assert_eq!(Byte::new(12), Byte::new(3) * Byte::new(4));
    assert_eq!(Byte::new(12), Byte::multiply(Byte::new(3), Byte::new(4)));
    assert_eq!(Byte::new(3), Byte::new(13) / Byte::new(4));
    assert_eq!(Byte::new(1), Byte::new(13) % Byte::new(4));
    assert_eq!(Byte::new(2048), Byte::new(BLOCK_SIZE) * Byte::new(2));
    let mut byte = Byte::new(41);
    byte.increment();
    assert_eq!(Byte::new(42), byte);
    assert_eq!(42u64, byte.to_u64());
    assert_eq!(42usize, byte.to_usize());
    assert_eq!(42u64, u64::from(byte));
    assert_eq!(42usize, usize::from(byte));
    assert_eq!(byte, Byte::from(42u64));
    assert_eq!(byte, Byte::from(42usize));
    assert!(Byte::new(3) < Byte::new(4));
}
