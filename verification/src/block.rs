//! Block numbers, slots in a pointer array, and the path that a logical block
//! of a file takes through the inode's direct and indirect pointers.

use crate::text::{decimal, decimal_string};
use vstd::prelude::*;
use vstd::std_specs::convert::FromSpecImpl;
use vstd::std_specs::ops::{AddSpecImpl, DivSpecImpl, MulSpecImpl, RemSpecImpl, SubSpecImpl};

verus! {

/// The number of block pointers held in the inode itself.
pub const DIRECT_BLOCKS_COUNT: usize = 12;

/// The size of a block in bytes.
pub const BLOCK_SIZE: u64 = 1024;

/// The size of a block pointer on a volume, in bytes.
pub const BLOCK_POINTER_SIZE: u64 = 8;

/// The number of block pointers that fit in one block.
pub const BLOCK_POINTERS_PER_BLOCK: u64 = 128;

/// The last logical block reached through a direct pointer.
pub const DIRECT_BLOCKS_MAX: u64 = 11;

/// The number of logical blocks reached through the singly indirect block.
pub const SINGLY_INDIRECT_COUNT: u64 = 128;

/// The last logical block reached through the singly indirect block.
pub const SINGLY_INDIRECT_MAX: u64 = 139;

/// The number of logical blocks reached through the doubly indirect block.
pub const DOUBLY_INDIRECT_COUNT: u64 = 16384;

/// The last logical block reached through the doubly indirect block.
pub const DOUBLY_INDIRECT_MAX: u64 = 16523;

/// The number of logical blocks reached through the triply indirect block.
pub const TRIPLY_INDIRECT_COUNT: u64 = 2097152;

/// The last logical block reached through the triply indirect block, and so
/// the last logical block of a file.
pub const TRIPLY_INDIRECT_MAX: u64 = 2113675;

/// The number of a block: on a volume (a physical block) or within a file (a
/// logical block).
#[derive(Debug, Clone, Copy, PartialEq, PartialOrd, Eq, Hash, Structural)]
pub struct Block(pub u64);

/// What an 8-byte pointer field holds for an optional block: zero for none,
/// and the block's number plus one otherwise.
pub open spec fn encode_pointer(block: Option<Block>) -> int {
    match block {
        None => 0,
        Some(block) => block.0 + 1,
    }
}

/// The optional block that a pointer field's value stands for.
pub open spec fn decode_pointer(u: u64) -> Option<Block> {
    if u == 0 {
        None
    } else {
        Some(Block((u - 1) as u64))
    }
}

/// Whether an optional block has a pointer value: every one but the block
/// with the largest number, whose value would not fit the field.
pub open spec fn encodable(block: Option<Block>) -> bool {
    block matches Some(b) ==> b.0 < u64::MAX
}

impl Block {
    pub fn new(value: u64) -> (block: Block)
        ensures
            block == Block(value),
    {
        Block(value)
    }

    /// The number as a `usize`. On a machine whose `usize` is narrower than
    /// 64 bits the upper bits are cut off, as the cast does.
    pub fn to_usize(self) -> (value: usize)
        ensures
            value == self.0 as usize,
            self.0 <= usize::MAX ==> value == self.0,
    {
        #[verifier::truncate]
        (self.0 as usize)
    }

    pub fn to_u64(self) -> (value: u64)
        ensures
            value == self.0,
    {
        self.0
    }

    /// The number in decimal digits.
    pub fn to_string(&self) -> (text: String)
        ensures
            text@ == decimal(self.0 as nat),
    {
        decimal_string(self.0)
    }

    /// The value of the pointer field for `block`.
    pub fn encode(block: Option<Block>) -> (u: u64)
        requires
            encodable(block),
        ensures
            u == encode_pointer(block),
    {
        match block {
            None => 0,
            Some(block) => block.to_u64() + 1,
        }
    }

    /// The optional block that the pointer field's value `u` stands for.
    pub fn decode(u: u64) -> (block: Option<Block>)
        ensures
            block == decode_pointer(u),
            encodable(block),
    {
        if u == 0 {
            None
        } else {
            Some(Block::new(u - 1))
        }
    }
}

/// Decoding a block's pointer value gives the block back, and the value zero
/// decodes to no block.
pub proof fn lemma_pointer_round_trip(block: Option<Block>)
    requires
        encodable(block),
    ensures
        decode_pointer(encode_pointer(block) as u64) == block,
        decode_pointer(0) == None::<Block>,
{
}

/// Encoding a decoded pointer value gives the value back.
pub proof fn lemma_pointer_value_round_trip(u: u64)
    ensures
        encodable(decode_pointer(u)),
        encode_pointer(decode_pointer(u)) == u,
{
}

impl From<u64> for Block {
    fn from(u: u64) -> (block: Block) {
        Block(u)
    }
}

impl FromSpecImpl<u64> for Block {
    open spec fn obeys_from_spec() -> bool {
        true
    }

    open spec fn from_spec(u: u64) -> Block {
        Block(u)
    }
}

impl From<Block> for u64 {
    fn from(b: Block) -> (value: u64) {
        b.0
    }
}

impl FromSpecImpl<Block> for u64 {
    open spec fn obeys_from_spec() -> bool {
        true
    }

    open spec fn from_spec(b: Block) -> u64 {
        b.0
    }
}

impl core::ops::Add for Block {
    type Output = Block;

    fn add(self, other: Block) -> (sum: Block) {
        Block(self.0 + other.0)
    }
}

impl AddSpecImpl for Block {
    open spec fn obeys_add_spec() -> bool {
        true
    }

    open spec fn add_req(self, other: Block) -> bool {
        self.0 + other.0 <= u64::MAX
    }

    open spec fn add_spec(self, other: Block) -> Block {
        Block((self.0 + other.0) as u64)
    }
}

impl core::ops::Sub for Block {
    type Output = Block;

    fn sub(self, other: Block) -> (difference: Block) {
        Block(self.0 - other.0)
    }
}

impl SubSpecImpl for Block {
    open spec fn obeys_sub_spec() -> bool {
        true
    }

    open spec fn sub_req(self, other: Block) -> bool {
        other.0 <= self.0
    }

    open spec fn sub_spec(self, other: Block) -> Block {
        Block((self.0 - other.0) as u64)
    }
}

impl core::ops::Mul for Block {
    type Output = Block;

    fn mul(self, other: Block) -> (product: Block) {
        Block(self.0 * other.0)
    }
}

impl MulSpecImpl for Block {
    open spec fn obeys_mul_spec() -> bool {
        true
    }

    open spec fn mul_req(self, other: Block) -> bool {
        self.0 * other.0 <= u64::MAX
    }

    open spec fn mul_spec(self, other: Block) -> Block {
        Block((self.0 * other.0) as u64)
    }
}

impl core::ops::Div for Block {
    type Output = Block;

    fn div(self, other: Block) -> (quotient: Block) {
        Block(self.0 / other.0)
    }
}

impl DivSpecImpl for Block {
    open spec fn obeys_div_spec() -> bool {
        true
    }

    open spec fn div_req(self, other: Block) -> bool {
        other.0 != 0
    }

    open spec fn div_spec(self, other: Block) -> Block {
        Block(self.0 / other.0)
    }
}

impl core::ops::Rem for Block {
    type Output = Block;

    fn rem(self, other: Block) -> (remainder: Block) {
        Block(self.0 % other.0)
    }
}

impl RemSpecImpl for Block {
    open spec fn obeys_rem_spec() -> bool {
        true
    }

    open spec fn rem_req(self, other: Block) -> bool {
        other.0 != 0
    }

    open spec fn rem_spec(self, other: Block) -> Block {
        Block(self.0 % other.0)
    }
}

/// The number of a slot in an array of block pointers: the inode's direct
/// pointers, or the pointers held in an indirect block.
#[derive(Debug, Clone, Copy, PartialEq, PartialOrd, Eq, Hash, Structural)]
pub struct BlockListIndex(pub usize);

impl BlockListIndex {
    pub fn new(value: usize) -> (index: BlockListIndex)
        ensures
            index == BlockListIndex(value),
    {
        BlockListIndex(value)
    }

    /// Puts `block` in this slot of an inode's direct pointers.
    pub fn set_direct_block(
        self,
        direct_blocks: &mut [Option<Block>; DIRECT_BLOCKS_COUNT],
        block: Option<Block>,
    )
        requires
            self.0 < DIRECT_BLOCKS_COUNT,
        ensures
            final(direct_blocks)@ == old(direct_blocks)@.update(self.0 as int, block),
    {
        direct_blocks[self.0] = block;
    }

    /// What this slot of an inode's direct pointers holds.
    pub fn get_direct_block(
        self,
        direct_blocks: &[Option<Block>; DIRECT_BLOCKS_COUNT],
    ) -> (block: Option<Block>)
        requires
            self.0 < DIRECT_BLOCKS_COUNT,
        ensures
            block == direct_blocks@[self.0 as int],
    {
        direct_blocks[self.0]
    }
}

impl From<BlockListIndex> for u64 {
    fn from(index: BlockListIndex) -> (value: u64) {
        index.0 as u64
    }
}

impl FromSpecImpl<BlockListIndex> for u64 {
    open spec fn obeys_from_spec() -> bool {
        true
    }

    open spec fn from_spec(index: BlockListIndex) -> u64 {
        index.0 as u64
    }
}

impl core::ops::Add for BlockListIndex {
    type Output = BlockListIndex;

    fn add(self, other: BlockListIndex) -> (sum: BlockListIndex) {
        BlockListIndex(self.0 + other.0)
    }
}

impl AddSpecImpl for BlockListIndex {
    open spec fn obeys_add_spec() -> bool {
        true
    }

    open spec fn add_req(self, other: BlockListIndex) -> bool {
        self.0 + other.0 <= usize::MAX
    }

    open spec fn add_spec(self, other: BlockListIndex) -> BlockListIndex {
        BlockListIndex((self.0 + other.0) as usize)
    }
}

impl core::ops::Sub for BlockListIndex {
    type Output = BlockListIndex;

    fn sub(self, other: BlockListIndex) -> (difference: BlockListIndex) {
        BlockListIndex(self.0 - other.0)
    }
}

impl SubSpecImpl for BlockListIndex {
    open spec fn obeys_sub_spec() -> bool {
        true
    }

    open spec fn sub_req(self, other: BlockListIndex) -> bool {
        other.0 <= self.0
    }

    open spec fn sub_spec(self, other: BlockListIndex) -> BlockListIndex {
        BlockListIndex((self.0 - other.0) as usize)
    }
}

impl core::ops::Mul for BlockListIndex {
    type Output = BlockListIndex;

    fn mul(self, other: BlockListIndex) -> (product: BlockListIndex) {
        BlockListIndex(self.0 * other.0)
    }
}

impl MulSpecImpl for BlockListIndex {
    open spec fn obeys_mul_spec() -> bool {
        true
    }

    open spec fn mul_req(self, other: BlockListIndex) -> bool {
        self.0 * other.0 <= usize::MAX
    }

    open spec fn mul_spec(self, other: BlockListIndex) -> BlockListIndex {
        BlockListIndex((self.0 * other.0) as usize)
    }
}

impl core::ops::Div for BlockListIndex {
    type Output = BlockListIndex;

    fn div(self, other: BlockListIndex) -> (quotient: BlockListIndex) {
        BlockListIndex(self.0 / other.0)
    }
}

impl DivSpecImpl for BlockListIndex {
    open spec fn obeys_div_spec() -> bool {
        true
    }

    open spec fn div_req(self, other: BlockListIndex) -> bool {
        other.0 != 0
    }

    open spec fn div_spec(self, other: BlockListIndex) -> BlockListIndex {
        BlockListIndex(self.0 / other.0)
    }
}

impl core::ops::Rem for BlockListIndex {
    type Output = BlockListIndex;

    fn rem(self, other: BlockListIndex) -> (remainder: BlockListIndex) {
        BlockListIndex(self.0 % other.0)
    }
}

impl RemSpecImpl for BlockListIndex {
    open spec fn obeys_rem_spec() -> bool {
        true
    }

    open spec fn rem_req(self, other: BlockListIndex) -> bool {
        other.0 != 0
    }

    open spec fn rem_spec(self, other: BlockListIndex) -> BlockListIndex {
        BlockListIndex(self.0 % other.0)
    }
}

/// The path from an inode to the pointer of one of its logical blocks: which
/// pointer of the inode it starts from, and which slot is taken in each
/// indirect block on the way.
#[derive(Debug, PartialEq, Eq, Clone, Copy, Structural)]
pub enum Indirection {
    Direct { direct_index: BlockListIndex },
    SinglyIndirect { singly_indirect_index: BlockListIndex },
    DoublyIndirect { doubly_indirect_index: BlockListIndex, singly_indirect_index: BlockListIndex },
    TriplyIndirect {
        triply_indirect_index: BlockListIndex,
        doubly_indirect_index: BlockListIndex,
        singly_indirect_index: BlockListIndex,
    },
    OutOfRange,
}

/// The path of logical block `block`.
///
/// Each range of logical blocks ends at its `*_MAX` constant, inclusive, and
/// the slots of a range are counted from the end of the range before it: the
/// first singly indirect block, `DIRECT_BLOCKS_MAX + 1`, takes slot 1, and
/// the last one, `SINGLY_INDIRECT_MAX`, takes slot `SINGLY_INDIRECT_COUNT`.
pub open spec fn classify(block: Block) -> Indirection {
    if block.0 <= DIRECT_BLOCKS_MAX {
        Indirection::Direct { direct_index: BlockListIndex(block.0 as usize) }
    } else if block.0 <= SINGLY_INDIRECT_MAX {
        Indirection::SinglyIndirect {
            singly_indirect_index: BlockListIndex((block.0 - DIRECT_BLOCKS_MAX) as usize),
        }
    } else if block.0 <= DOUBLY_INDIRECT_MAX {
        let base = block.0 - SINGLY_INDIRECT_MAX;
        Indirection::DoublyIndirect {
            doubly_indirect_index: BlockListIndex((base / SINGLY_INDIRECT_COUNT as int) as usize),
            singly_indirect_index: BlockListIndex((base % SINGLY_INDIRECT_COUNT as int) as usize),
        }
    } else if block.0 <= TRIPLY_INDIRECT_MAX {
        let base = block.0 - DOUBLY_INDIRECT_MAX;
        Indirection::TriplyIndirect {
            triply_indirect_index: BlockListIndex((base / DOUBLY_INDIRECT_COUNT as int) as usize),
            doubly_indirect_index: BlockListIndex(
                ((base % DOUBLY_INDIRECT_COUNT as int) / SINGLY_INDIRECT_COUNT as int) as usize,
            ),
            singly_indirect_index: BlockListIndex((base % SINGLY_INDIRECT_COUNT as int) as usize),
        }
    } else {
        Indirection::OutOfRange
    }
}

impl From<Block> for Indirection {
    fn from(indirect_block: Block) -> (indirection: Indirection) {
        let block = indirect_block.0;
        if block <= DIRECT_BLOCKS_MAX {
            Indirection::Direct { direct_index: BlockListIndex(block as usize) }
        } else if block <= SINGLY_INDIRECT_MAX {
            Indirection::SinglyIndirect {
                singly_indirect_index: BlockListIndex((block - DIRECT_BLOCKS_MAX) as usize),
            }
        } else if block <= DOUBLY_INDIRECT_MAX {
            let base = block - SINGLY_INDIRECT_MAX;
            Indirection::DoublyIndirect {
                doubly_indirect_index: BlockListIndex((base / SINGLY_INDIRECT_COUNT) as usize),
                singly_indirect_index: BlockListIndex((base % SINGLY_INDIRECT_COUNT) as usize),
            }
        } else if block <= TRIPLY_INDIRECT_MAX {
            let base = block - DOUBLY_INDIRECT_MAX;
            assert((base % DOUBLY_INDIRECT_COUNT) % SINGLY_INDIRECT_COUNT == base
                % SINGLY_INDIRECT_COUNT) by (nonlinear_arith)
                requires
                    DOUBLY_INDIRECT_COUNT == 128 * SINGLY_INDIRECT_COUNT,
                    SINGLY_INDIRECT_COUNT == 128,
            ;
            Indirection::TriplyIndirect {
                triply_indirect_index: BlockListIndex((base / DOUBLY_INDIRECT_COUNT) as usize),
                doubly_indirect_index: BlockListIndex(
                    ((base % DOUBLY_INDIRECT_COUNT) / SINGLY_INDIRECT_COUNT) as usize,
                ),
                singly_indirect_index: BlockListIndex(
                    ((base % DOUBLY_INDIRECT_COUNT) % SINGLY_INDIRECT_COUNT) as usize,
                ),
            }
        } else {
            Indirection::OutOfRange
        }
    }
}

impl FromSpecImpl<Block> for Indirection {
    open spec fn obeys_from_spec() -> bool {
        true
    }

    open spec fn from_spec(indirect_block: Block) -> Indirection {
        classify(indirect_block)
    }
}

/// The slots of a path stay within what one indirect block and one more slot
/// can hold, a direct slot within the inode's direct pointers, and a block is
/// out of range exactly when it lies past `TRIPLY_INDIRECT_MAX`.
pub proof fn lemma_classify_bounds(block: Block)
    ensures
        classify(block) is OutOfRange <==> block.0 > TRIPLY_INDIRECT_MAX,
        match classify(block) {
            Indirection::Direct { direct_index } => direct_index.0 == block.0
                && direct_index.0 < DIRECT_BLOCKS_COUNT,
            Indirection::SinglyIndirect { singly_indirect_index } => 1 <= singly_indirect_index.0
                <= BLOCK_POINTERS_PER_BLOCK,
            Indirection::DoublyIndirect { doubly_indirect_index, singly_indirect_index } => {
                &&& doubly_indirect_index.0 <= BLOCK_POINTERS_PER_BLOCK
                &&& singly_indirect_index.0 < BLOCK_POINTERS_PER_BLOCK
            },
            Indirection::TriplyIndirect {
                triply_indirect_index,
                doubly_indirect_index,
                singly_indirect_index,
            } => {
                &&& triply_indirect_index.0 <= BLOCK_POINTERS_PER_BLOCK
                &&& doubly_indirect_index.0 < BLOCK_POINTERS_PER_BLOCK
                &&& singly_indirect_index.0 < BLOCK_POINTERS_PER_BLOCK
            },
            Indirection::OutOfRange => true,
        },
{
}

/// Two logical blocks with the same path are the same block.
pub proof fn lemma_classify_injective(a: Block, b: Block)
    requires
        a.0 <= TRIPLY_INDIRECT_MAX,
        classify(a) == classify(b),
    ensures
        a == b,
{
}

} // verus!
