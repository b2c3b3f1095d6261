use rustfs::block::Block;
use rustfs::byte::Byte;
use rustfs::error::{IndirectionError, IoError, Operation};
use rustfs::inode::Ino;
use rustfs::text::decimal_string;

#[test]
fn numbers_in_decimal_digits() {
    assert_eq!("0", decimal_string(0));
    assert_eq!("7", decimal_string(7));
    assert_eq!("10", decimal_string(10));
    assert_eq!("1024", decimal_string(1024));
    assert_eq!("9007199254740993", decimal_string(9007199254740993));
    assert_eq!("18446744073709551615", decimal_string(u64::MAX));
    assert_eq!("42", Byte::new(42).to_string());
    assert_eq!("2113675", Block::new(2113675).to_string());
    assert_eq!("100", Ino::new(100).to_string());
}

#[test]
fn operations_in_words() {
    assert_eq!(
        "reading physical block from inode `3` block `140`",
        Operation::ReadPhysical { ino: Ino::new(3), inode_block: Block::new(140) }.describe()
    );
    assert_eq!(
        "writing physical block to inode `0` block `16524`",
        Operation::WritePhysical { ino: Ino::new(0), inode_block: Block::new(16524) }.describe()
    );
    assert_eq!(
        "writing `5` bytes to inode `12` block `1` at offset `1019`",
        Operation::WriteInodeBlock {
            length: 5,
            ino: Ino::new(12),
            inode_block: Block::new(1),
            offset: Byte::new(1019),
        }
        .describe()
    );
    assert_eq!("putting inode `8` into inode store", Operation::PutInode { ino: Ino::new(8) }.describe());
}

#[test]
fn errors_in_words() {
    assert_eq!("io error", IndirectionError::Io(IoError::UnexpectedEof).to_string());
    assert_eq!("io error", IndirectionError::from(IoError::Other).to_string());
    assert_eq!("out of free blocks", IndirectionError::OutOfBlocks.to_string());
    assert_eq!(
        "block exceeds the maximum number of blocks in an inode",
        IndirectionError::OutOfRange.to_string()
    );
    let annotated = IndirectionError::OutOfBlocks
        .annotate(Operation::WritePhysical { ino: Ino::new(1), inode_block: Block::new(53) });
    assert_eq!(
        "writing physical block to inode `1` block `53`: out of free blocks",
        annotated.to_string()
    );
    let twice = annotated.annotate(Operation::PutInode { ino: Ino::new(1) });
    assert_eq!(
        "putting inode `1` into inode store: writing physical block to inode `1` block `53`: out of free blocks",
        twice.to_string()
    );
}
