//! The indirect blocks of an inode as a tree, and what a run of writes keeps
//! of it: that logical blocks which were never written have no physical
//! block.

use crate::block::{
    classify, lemma_classify_bounds, lemma_classify_injective, Block, BlockListIndex, Indirection,
};
use crate::indirectmanager::{lookup, memory_slot, MemoryTable};
use crate::inode::Inode;
use crate::inodeblock::physicalreader::{follow, resolve};
use crate::inodeblock::physicalwriter::{
    lemma_fresh_blocks_differ, levels, write_mapping, Mapping,
};
use vstd::prelude::*;

verus! {

/// The place of an indirect block in the tree of an inode: under one of the
/// inode's three pointers, and from there down by the slots taken.
pub enum Position {
    Single,
    Double,
    DoubleAt(BlockListIndex),
    Triple,
    TripleAt(BlockListIndex),
    TripleAtAt(BlockListIndex, BlockListIndex),
}

/// The place under `position` that slot `index` of its block leads to.
pub open spec fn child(position: Position, index: BlockListIndex) -> Position {
    match position {
        Position::Double => Position::DoubleAt(index),
        Position::Triple => Position::TripleAt(index),
        Position::TripleAt(t) => Position::TripleAtAt(t, index),
        _ => position,
    }
}

/// The indirect block at `position` in the tree of `inode`, if there is one.
pub open spec fn node_at(
    table: Map<int, Option<Block>>,
    inode: Inode,
    position: Position,
) -> Option<Block> {
    match position {
        Position::Single => inode.singly_indirect_block,
        Position::Double => inode.doubly_indirect_block,
        Position::DoubleAt(d) => follow::<MemoryTable>(table, inode.doubly_indirect_block, d),
        Position::Triple => inode.triply_indirect_block,
        Position::TripleAt(t) => follow::<MemoryTable>(table, inode.triply_indirect_block, t),
        Position::TripleAtAt(t, d) => follow::<MemoryTable>(
            table,
            follow::<MemoryTable>(table, inode.triply_indirect_block, t),
            d,
        ),
    }
}

/// Whether `block` is taken in the bitmap.
pub open spec fn taken(bits: Seq<bool>, block: Block) -> bool {
    block.0 < bits.len() && bits[block.0 as int]
}

/// Whether the indirect blocks of the inode form a tree that the bitmap
/// knows: every indirect block is taken, no block stands at two places of
/// the tree, and the indirect map holds nothing in the slots of a block that
/// is free.
pub open spec fn tidy(mapping: Mapping) -> bool {
    &&& forall|position: Position|
        (#[trigger] node_at(mapping.table, mapping.inode, position)) matches Some(block)
            ==> taken(mapping.bits, block)
    &&& forall|one: Position, other: Position|
        one != other && (#[trigger] node_at(mapping.table, mapping.inode, one)) is Some ==> node_at(
            mapping.table,
            mapping.inode,
            one,
        ) != #[trigger] node_at(mapping.table, mapping.inode, other)
    &&& forall|block: Block, index: BlockListIndex|
        lookup(mapping.table, #[trigger] memory_slot(block, index)) is Some ==> taken(
            mapping.bits,
            block,
        )
}

/// Whether every logical block but those in `written` has no physical
/// block.
pub open spec fn holes_but(mapping: Mapping, written: Set<Block>) -> bool {
    forall|inode_block: Block|
        !written.contains(inode_block) ==> (#[trigger] resolve::<MemoryTable>(
            mapping.table,
            mapping.inode,
            inode_block,
        )) is None
}

/// One level of the path of a write: the place in the tree, the indirect
/// block that stands there after the write, whether the write allocated it,
/// and the slot of the block that the path takes.
pub struct Step {
    pub position: Position,
    pub block: Block,
    pub fresh: bool,
    pub index: BlockListIndex,
}

/// The place in the indirect map of the slot that a step takes.
pub open spec fn step_place(step: Step) -> int {
    memory_slot(step.block, step.index)
}

/// Whether `place` is the place of one of the `steps`.
pub open spec fn on_path(steps: Seq<Step>, place: int) -> bool {
    ||| steps.len() > 0 && place == step_place(steps[0])
    ||| steps.len() > 1 && place == step_place(steps[1])
    ||| steps.len() > 2 && place == step_place(steps[2])
}

/// Whether a step is what a write on `before` with the outcome `after` does
/// at one level.
pub open spec fn step_fits(before: Mapping, after: Mapping, step: Step) -> bool {
    &&& taken(after.bits, step.block)
    &&& step.fresh ==> !taken(before.bits, step.block) && node_at(
        before.table,
        before.inode,
        step.position,
    ) is None
    &&& !step.fresh ==> node_at(before.table, before.inode, step.position) == Some(step.block)
    &&& node_at(after.table, after.inode, step.position) == Some(step.block)
}

/// Whether `steps` say what a write to an indirect block did: what it left
/// in the indirect map, in the bitmap and in the inode's pointers.
pub open spec fn described(
    before: Mapping,
    after: Mapping,
    steps: Seq<Step>,
    value: Option<Block>,
) -> bool {
    &&& 1 <= steps.len() <= 3
    &&& forall|place: int|
        !on_path(steps, place) ==> #[trigger] lookup(after.table, place) == lookup(
            before.table,
            place,
        )
    &&& lookup(after.table, step_place(steps.last())) == value
    &&& steps.len() > 1 ==> steps[1].position == child(steps[0].position, steps[0].index)
        && steps[0].block != steps[1].block
    &&& steps.len() > 2 ==> steps[2].position == child(steps[1].position, steps[1].index)
        && steps[0].block != steps[2].block && steps[1].block != steps[2].block
    &&& step_fits(before, after, steps[0])
    &&& steps.len() > 1 ==> step_fits(before, after, steps[1])
    &&& steps.len() > 2 ==> step_fits(before, after, steps[2])
    &&& forall|block: Block| taken(before.bits, block) ==> taken(after.bits, block)
    &&& steps[0].position == if steps.len() == 1 {
        Position::Single
    } else if steps.len() == 2 {
        Position::Double
    } else {
        Position::Triple
    }
    &&& steps[0].position !is Single ==> after.inode.singly_indirect_block
        == before.inode.singly_indirect_block
    &&& steps[0].position !is Double ==> after.inode.doubly_indirect_block
        == before.inode.doubly_indirect_block
    &&& steps[0].position !is Triple ==> after.inode.triply_indirect_block
        == before.inode.triply_indirect_block
    &&& after.inode.direct_blocks == before.inode.direct_blocks
}

/// The place in the tree of the indirect block at level `level` of the path
/// of `inode_block`.
pub open spec fn path_position(inode_block: Block, level: int) -> Position {
    match classify(inode_block) {
        Indirection::SinglyIndirect { .. } => Position::Single,
        Indirection::DoublyIndirect { doubly_indirect_index, .. } => if level == 0 {
            Position::Double
        } else {
            Position::DoubleAt(doubly_indirect_index)
        },
        Indirection::TriplyIndirect { triply_indirect_index, doubly_indirect_index, .. } => {
            if level == 0 {
                Position::Triple
            } else if level == 1 {
                Position::TripleAt(triply_indirect_index)
            } else {
                Position::TripleAtAt(triply_indirect_index, doubly_indirect_index)
            }
        },
        _ => Position::Single,
    }
}

/// The slot that the path of `inode_block` takes at level `level`.
pub open spec fn path_index(inode_block: Block, level: int) -> BlockListIndex {
    match classify(inode_block) {
        Indirection::SinglyIndirect { singly_indirect_index } => singly_indirect_index,
        Indirection::DoublyIndirect { doubly_indirect_index, singly_indirect_index } => {
            if level == 0 {
                doubly_indirect_index
            } else {
                singly_indirect_index
            }
        },
        Indirection::TriplyIndirect {
            triply_indirect_index,
            doubly_indirect_index,
            singly_indirect_index,
        } => {
            if level == 0 {
                triply_indirect_index
            } else if level == 1 {
                doubly_indirect_index
            } else {
                singly_indirect_index
            }
        },
        _ => BlockListIndex(0),
    }
}

/// The steps of a write to `inode_block`.
pub open spec fn steps_of(before: Mapping, inode_block: Block) -> Seq<Step> {
    let path = levels::<MemoryTable>(before, inode_block)->0;
    Seq::new(
        path.len(),
        |level: int|
            Step {
                position: path_position(inode_block, level),
                block: path[level].block,
                fresh: path[level].fresh,
                index: path_index(inode_block, level),
            },
    )
}

/// In a tidy tree the block at a place is taken.
proof fn lemma_known(before: Mapping, position: Position)
    requires
        tidy(before),
    ensures
        node_at(before.table, before.inode, position) matches Some(block) ==> taken(
            before.bits,
            block,
        ),
{
}

/// A write to an indirect block is described by its steps.
pub proof fn lemma_described(before: Mapping, inode_block: Block, physical_block: Option<Block>)
    requires
        tidy(before),
        before.bits.len() <= u64::MAX,
        write_mapping::<MemoryTable>(before, inode_block, physical_block) is Some,
        !(classify(inode_block) is Direct),
    ensures
        described(
            before,
            write_mapping::<MemoryTable>(before, inode_block, physical_block)->0,
            steps_of(before, inode_block),
            physical_block,
        ),
{
    let after = write_mapping::<MemoryTable>(before, inode_block, physical_block)->0;
    let path = levels::<MemoryTable>(before, inode_block)->0;
    let steps = steps_of(before, inode_block);
    lemma_classify_bounds(inode_block);
    lemma_fresh_blocks_differ(before.bits);
    lemma_fresh_blocks_differ(path[0].bits);
    if path.len() > 1 {
        lemma_fresh_blocks_differ(path[1].bits);
    }
    lemma_known(before, path_position(inode_block, 0));
    lemma_known(before, path_position(inode_block, 1));
    lemma_known(before, path_position(inode_block, 2));
    assert(step_fits(before, after, steps[0]));
    if steps.len() > 1 {
        assert(steps[0].block != steps[1].block);
        assert(step_fits(before, after, steps[1]));
    }
    if steps.len() > 2 {
        assert(steps[0].block != steps[2].block);
        assert(steps[1].block != steps[2].block);
        assert(step_fits(before, after, steps[2]));
    }
    assert(after.inode.direct_blocks == before.inode.direct_blocks);
}

/// The block of the step that stands at `position`, if one of the `steps`
/// does.
pub open spec fn step_at(steps: Seq<Step>, position: Position) -> Option<Block> {
    if steps.len() > 0 && steps[0].position == position {
        Some(steps[0].block)
    } else if steps.len() > 1 && steps[1].position == position {
        Some(steps[1].block)
    } else if steps.len() > 2 && steps[2].position == position {
        Some(steps[2].block)
    } else {
        None
    }
}

/// What a write does to the tree: at the places of its steps stand the
/// blocks of the steps, and at every other place stands what stood there.
pub proof fn lemma_node_after(
    before: Mapping,
    after: Mapping,
    steps: Seq<Step>,
    value: Option<Block>,
    position: Position,
)
    requires
        tidy(before),
        described(before, after, steps, value),
    ensures
        node_at(after.table, after.inode, position) == match step_at(steps, position) {
            Some(block) => Some(block),
            None => node_at(before.table, before.inode, position),
        },
{
    lemma_known(before, steps[0].position);
    if steps.len() > 1 {
        lemma_known(before, steps[1].position);
    }
    if steps.len() > 2 {
        lemma_known(before, steps[2].position);
    }
    lemma_known(before, position);
    match position {
        Position::DoubleAt(d) => {
            lemma_known(before, Position::Double);
            lemma_child_after(before, after, steps, value, Position::Double, d);
        },
        Position::TripleAt(t) => {
            lemma_known(before, Position::Triple);
            lemma_child_after(before, after, steps, value, Position::Triple, t);
        },
        Position::TripleAtAt(t, d) => {
            lemma_known(before, Position::Triple);
            lemma_known(before, Position::TripleAt(t));
            lemma_child_after(before, after, steps, value, Position::Triple, t);
            lemma_child_after(before, after, steps, value, Position::TripleAt(t), d);
        },
        _ => {},
    }
}

/// What a write does to the place under a place whose block is known.
proof fn lemma_child_after(
    before: Mapping,
    after: Mapping,
    steps: Seq<Step>,
    value: Option<Block>,
    above: Position,
    index: BlockListIndex,
)
    requires
        tidy(before),
        described(before, after, steps, value),
        above is Double || above is Triple || above is TripleAt,
        node_at(after.table, after.inode, above) == match step_at(steps, above) {
            Some(block) => Some(block),
            None => node_at(before.table, before.inode, above),
        },
    ensures
        node_at(after.table, after.inode, child(above, index)) == match step_at(
            steps,
            child(above, index),
        ) {
            Some(block) => Some(block),
            None => node_at(before.table, before.inode, child(above, index)),
        },
{
    let below = child(above, index);
    lemma_known(before, above);
    lemma_known(before, below);
    lemma_known(before, steps[0].position);
    lemma_apart(before, above, steps[0].position);
    if steps.len() > 1 {
        lemma_known(before, steps[1].position);
        lemma_apart(before, above, steps[1].position);
    }
    if steps.len() > 2 {
        lemma_known(before, steps[2].position);
        lemma_apart(before, above, steps[2].position);
    }
    if node_at(after.table, after.inode, above) is Some {
        let block = node_at(after.table, after.inode, above)->0;
        let place = memory_slot(block, index);
        if !on_path(steps, place) {
            assert(lookup(after.table, place) == lookup(before.table, place));
        }
    }
}

/// In a tidy tree the blocks at two places differ.
proof fn lemma_apart(before: Mapping, one: Position, other: Position)
    requires
        tidy(before),
    ensures
        one != other && node_at(before.table, before.inode, one) is Some ==> node_at(
            before.table,
            before.inode,
            one,
        ) != node_at(before.table, before.inode, other),
{
}

/// A write to an indirect block leaves a tidy tree tidy.
proof fn lemma_tidy_after(
    before: Mapping,
    after: Mapping,
    steps: Seq<Step>,
    value: Option<Block>,
)
    requires
        tidy(before),
        described(before, after, steps, value),
    ensures
        tidy(after),
{
    assert forall|position: Position|
        (#[trigger] node_at(after.table, after.inode, position)) is Some implies taken(
        after.bits,
        node_at(after.table, after.inode, position)->0,
    ) by {
        lemma_node_after(before, after, steps, value, position);
        lemma_known(before, position);
    }
    assert forall|one: Position, other: Position|
        one != other && (#[trigger] node_at(after.table, after.inode, one)) is Some implies node_at(
        after.table,
        after.inode,
        one,
    ) != #[trigger] node_at(after.table, after.inode, other) by {
        lemma_node_after(before, after, steps, value, one);
        lemma_node_after(before, after, steps, value, other);
        lemma_known(before, one);
        lemma_known(before, other);
        lemma_apart(before, one, other);
        lemma_apart(before, other, one);
        lemma_apart(before, steps[0].position, one);
        lemma_apart(before, steps[0].position, other);
        if steps.len() > 1 {
            lemma_apart(before, steps[1].position, one);
            lemma_apart(before, steps[1].position, other);
        }
        if steps.len() > 2 {
            lemma_apart(before, steps[2].position, one);
            lemma_apart(before, steps[2].position, other);
        }
    }
    assert forall|block: Block, index: BlockListIndex|
        lookup(after.table, #[trigger] memory_slot(block, index)) is Some implies taken(
        after.bits,
        block,
    ) by {
        let place = memory_slot(block, index);
        if !on_path(steps, place) {
            assert(lookup(after.table, place) == lookup(before.table, place));
        }
    }
}

/// The place in the tree of the indirect block that holds the pointer of
/// `inode_block`, and the slot of the pointer in it.
pub open spec fn leaf_position(inode_block: Block) -> Position {
    path_position(inode_block, 2)
}

/// The slot of the pointer of `inode_block` in its indirect block.
pub open spec fn leaf_index(inode_block: Block) -> BlockListIndex {
    path_index(inode_block, 2)
}

/// One logical block that was a hole before a write to another is a hole
/// after it.
proof fn lemma_hole_after(
    before: Mapping,
    inode_block: Block,
    physical_block: Option<Block>,
    other_block: Block,
)
    requires
        tidy(before),
        before.bits.len() <= u64::MAX,
        write_mapping::<MemoryTable>(before, inode_block, physical_block) is Some,
        other_block != inode_block,
        resolve::<MemoryTable>(before.table, before.inode, other_block) is None,
    ensures
        resolve::<MemoryTable>(
            write_mapping::<MemoryTable>(before, inode_block, physical_block)->0.table,
            write_mapping::<MemoryTable>(before, inode_block, physical_block)->0.inode,
            other_block,
        ) is None,
{
    let after = write_mapping::<MemoryTable>(before, inode_block, physical_block)->0;
    lemma_classify_bounds(inode_block);
    lemma_classify_bounds(other_block);
    if classify(other_block) == classify(inode_block) {
        lemma_classify_injective(inode_block, other_block);
    }
    if classify(inode_block) is Direct {
    } else if classify(other_block) is Direct || classify(other_block) is OutOfRange {
        lemma_described(before, inode_block, physical_block);
    } else {
        lemma_described(before, inode_block, physical_block);
        let steps = steps_of(before, inode_block);
        let position = leaf_position(other_block);
        let index = leaf_index(other_block);
        lemma_node_after(before, after, steps, physical_block, position);
        lemma_known(before, position);
        lemma_known(before, steps[0].position);
        lemma_apart(before, position, steps[0].position);
        if steps.len() > 1 {
            lemma_known(before, steps[1].position);
            lemma_apart(before, position, steps[1].position);
        }
        if steps.len() > 2 {
            lemma_known(before, steps[2].position);
            lemma_apart(before, position, steps[2].position);
        }
        assert(resolve::<MemoryTable>(before.table, before.inode, other_block)
            == follow::<MemoryTable>(
            before.table,
            node_at(before.table, before.inode, position),
            index,
        ));
        assert(resolve::<MemoryTable>(after.table, after.inode, other_block)
            == follow::<MemoryTable>(
            after.table,
            node_at(after.table, after.inode, position),
            index,
        ));
        if node_at(after.table, after.inode, position) is Some {
            let block = node_at(after.table, after.inode, position)->0;
            let place = memory_slot(block, index);
            if !on_path(steps, place) {
                assert(lookup(after.table, place) == lookup(before.table, place));
            }
        }
    }
}

/// An inode without blocks over an empty memory table is a tidy tree, and
/// all of its logical blocks are holes.
pub proof fn lemma_empty_is_tidy(mapping: Mapping)
    requires
        mapping.inode.is_empty(),
        mapping.table == Map::<int, Option<Block>>::empty(),
    ensures
        tidy(mapping),
        holes_but(mapping, Set::empty()),
{
    assert forall|inode_block: Block|
        (#[trigger] resolve::<MemoryTable>(mapping.table, mapping.inode, inode_block))
            is None by {
        lemma_classify_bounds(inode_block);
    }
}

/// Holes stay holes, write after write: a write on a tidy tree leaves a tidy
/// tree, and where every logical block but the written ones was a hole
/// before, every logical block but the written ones and the one of this
/// write is a hole after.
pub proof fn lemma_write_keeps_holes(
    before: Mapping,
    written: Set<Block>,
    inode_block: Block,
    physical_block: Option<Block>,
)
    requires
        tidy(before),
        holes_but(before, written),
        before.bits.len() <= u64::MAX,
        write_mapping::<MemoryTable>(before, inode_block, physical_block) is Some,
    ensures
        tidy(write_mapping::<MemoryTable>(before, inode_block, physical_block)->0),
        holes_but(
            write_mapping::<MemoryTable>(before, inode_block, physical_block)->0,
            written.insert(inode_block),
        ),
{
    let after = write_mapping::<MemoryTable>(before, inode_block, physical_block)->0;
    lemma_classify_bounds(inode_block);
    if classify(inode_block) is Direct {
        assert forall|position: Position|
            node_at(after.table, after.inode, position) == node_at(
                before.table,
                before.inode,
                position,
            ) by {}
        assert(tidy(after));
    } else {
        lemma_described(before, inode_block, physical_block);
        lemma_tidy_after(before, after, steps_of(before, inode_block), physical_block);
    }
    assert forall|other_block: Block|
        !written.insert(inode_block).contains(other_block) implies (#[trigger] resolve::<
        MemoryTable,
    >(after.table, after.inode, other_block)) is None by {
        lemma_hole_after(before, inode_block, physical_block, other_block);
    }
}

} // verus!
