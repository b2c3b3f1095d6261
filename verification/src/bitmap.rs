//! A first-fit allocator of small numbers, kept as one bit per number.

use crate::byte::Byte;
use std::marker::PhantomData;
use vstd::prelude::*;
use vstd::std_specs::convert::FromSpec;

verus! {

/// Operations on the bits of one byte, counted from the highest-order bit:
/// bit 0 is the bit of value 128 and bit 7 the bit of value 1.
pub struct Bits;

impl Bits {
    /// Whether bit `bit` of `byte` is one.
    pub open spec fn is_set(byte: u8, bit: u8) -> bool {
        byte & (0x80u8 >> bit) != 0
    }

    /// Whether every one of the eight bits of `byte` is one.
    pub open spec fn is_full(byte: u8) -> bool {
        forall|bit: u8| bit < 8 ==> Bits::is_set(byte, bit)
    }

    /// Whether bit `bit` of `byte` is zero.
    pub fn is_zero(byte: u8, bit: u8) -> (zero: bool)
        requires
            bit < 8,
        ensures
            zero == !Bits::is_set(byte, bit),
    {
        byte & (0b1000_0000u8 >> bit) == 0
    }

    /// `byte` with bit `bit` set to one.
    pub fn set_high(byte: u8, bit: u8) -> (set: u8)
        requires
            bit < 8,
        ensures
            set == byte | (0x80u8 >> bit),
            forall|other: u8|
                other < 8 ==> Bits::is_set(set, other) == (other == bit || Bits::is_set(
                    byte,
                    other,
                )),
    {
        let set = byte | 0b1000_0000u8 >> bit;
        assert(forall|other: u8|
            other < 8 ==> ((set & (0x80u8 >> other) != 0) == (other == bit || (byte & (0x80u8
                >> other) != 0)))) by (bit_vector)
            requires
                bit < 8,
                set == byte | (0x80u8 >> bit),
        ;
        set
    }

    /// `byte` with bit `bit` set to zero.
    pub fn set_low(byte: u8, bit: u8) -> (cleared: u8)
        requires
            bit < 8,
        ensures
            cleared == byte & !(0x80u8 >> bit),
            forall|other: u8|
                other < 8 ==> Bits::is_set(cleared, other) == (other != bit && Bits::is_set(
                    byte,
                    other,
                )),
    {
        let cleared = byte & !(0b1000_0000u8 >> bit);
        assert(forall|other: u8|
            other < 8 ==> ((cleared & (0x80u8 >> other) != 0) == (other != bit && (byte & (0x80u8
                >> other) != 0)))) by (bit_vector)
            requires
                bit < 8,
                cleared == byte & !(0x80u8 >> bit),
        ;
        cleared
    }

    /// The first bit of `byte` that is zero, if there is one.
    pub fn first_zero(byte: u8) -> (found: Option<u8>)
        ensures
            match found {
                Some(bit) => {
                    &&& bit < 8
                    &&& !Bits::is_set(byte, bit)
                    &&& forall|before: u8| before < bit ==> Bits::is_set(byte, before)
                },
                None => Bits::is_full(byte),
            },
    {
        let mut bit: u8 = 0;
        while bit < 8
            invariant
                bit <= 8,
                forall|before: u8| before < bit ==> Bits::is_set(byte, before),
            decreases 8 - bit,
        {
            if Bits::is_zero(byte, bit) {
                return Some(bit);
            }
            bit = bit + 1;
        }
        None
    }
}

/// The number of slots at the start of `bits` that are taken. Where it is
/// less than the length of `bits`, it is the number of the first free slot.
pub open spec fn first_free(bits: Seq<bool>) -> nat
    decreases bits.len(),
{
    if bits.len() == 0 || !bits[0] {
        0
    } else {
        1 + first_free(bits.skip(1))
    }
}

/// The slots after one allocation: the first free slot is taken, and nothing
/// changes where no slot is free.
pub open spec fn after_allocate(bits: Seq<bool>) -> Seq<bool> {
    if first_free(bits) < bits.len() {
        bits.update(first_free(bits) as int, true)
    } else {
        bits
    }
}

/// The slots after `count` allocations in a row.
pub open spec fn after_allocations(bits: Seq<bool>, count: nat) -> Seq<bool>
    decreases count,
{
    if count == 0 {
        bits
    } else {
        after_allocate(after_allocations(bits, (count - 1) as nat))
    }
}

/// The first free slot is the smallest free slot: a slot that is free while
/// every slot before it is taken is the one that `first_free` names, and
/// `first_free` names the length where every slot is taken.
pub proof fn lemma_first_free_is_smallest(bits: Seq<bool>, slot: int)
    requires
        0 <= slot <= bits.len(),
        forall|before: int| 0 <= before < slot ==> bits[before],
        slot < bits.len() ==> !bits[slot],
    ensures
        first_free(bits) == slot,
    decreases slot,
{
    if slot > 0 {
        let rest = bits.skip(1);
        assert forall|before: int| 0 <= before < slot - 1 implies rest[before] by {}
        lemma_first_free_is_smallest(rest, slot - 1);
    }
}

/// Every slot before the first free one is taken, and the first free one, if
/// there is one, is free.
pub proof fn lemma_first_free_properties(bits: Seq<bool>)
    ensures
        first_free(bits) <= bits.len(),
        forall|before: int| 0 <= before < first_free(bits) ==> bits[before],
        first_free(bits) < bits.len() ==> !bits[first_free(bits) as int],
    decreases bits.len(),
{
    if bits.len() != 0 && bits[0] {
        let rest = bits.skip(1);
        lemma_first_free_properties(rest);
        assert forall|before: int| 0 <= before < first_free(bits) implies bits[before] by {
            if before > 0 {
                assert(rest[before - 1] == bits[before]);
            }
        }
    }
}

/// Allocations from an empty bitmap come out in order: after `count`
/// allocations, no more than there are slots, exactly the slots below `count`
/// are taken, so that the next allocation takes slot `count`.
pub proof fn lemma_allocations_in_order(bits: Seq<bool>, count: nat)
    requires
        forall|slot: int| 0 <= slot < bits.len() ==> !bits[slot],
        count <= bits.len(),
    ensures
        after_allocations(bits, count) =~= Seq::new(bits.len(), |slot: int| slot < count),
        first_free(after_allocations(bits, count)) == count,
    decreases count,
{
    if count > 0 {
        lemma_allocations_in_order(bits, (count - 1) as nat);
    }
    let taken = Seq::new(bits.len(), |slot: int| slot < count);
    lemma_first_free_is_smallest(taken, count as int);
}

/// After a slot is freed while every slot before it is taken, the next
/// allocation takes that slot again.
pub proof fn lemma_free_then_allocate(bits: Seq<bool>, slot: int)
    requires
        0 <= slot < bits.len(),
        forall|before: int| 0 <= before < slot ==> bits[before],
    ensures
        first_free(bits.update(slot, false)) == slot,
        after_allocate(bits.update(slot, false)) =~= bits.update(slot, true),
{
    lemma_first_free_is_smallest(bits.update(slot, false), slot);
}

/// After `count` allocations from an empty bitmap and the freeing of one of
/// the slots that they took, the next allocation takes that slot again.
pub proof fn lemma_freed_slot_is_next(bits: Seq<bool>, count: nat, slot: int)
    requires
        forall|free: int| 0 <= free < bits.len() ==> !bits[free],
        count <= bits.len(),
        0 <= slot < count,
    ensures
        first_free(after_allocations(bits, count).update(slot, false)) == slot,
{
    lemma_allocations_in_order(bits, count);
    lemma_free_then_allocate(after_allocations(bits, count), slot);
}

/// A pool of numbered slots, each free or taken. Slot `8 * i + j` is bit `j`
/// of byte `i`, the bits of a byte counted from its highest-order bit.
pub struct Bitmap<T> {
    bytes: Vec<u8>,
    kind: PhantomData<T>,
}

impl<T> Bitmap<T> {
    /// The slots: `true` where a slot is taken.
    pub closed spec fn view(&self) -> Seq<bool> {
        Seq::new(
            self.bytes@.len() * 8,
            |slot: int| Bits::is_set(self.bytes@[slot / 8], (slot % 8) as u8),
        )
    }

    /// The number of slots, in all bitmaps a multiple of eight that fits a
    /// `u64`.
    #[verifier::type_invariant]
    closed spec fn well_formed(&self) -> bool {
        self.bytes@.len() * 8 <= u64::MAX
    }
}

impl<T> Bitmap<T> where T: From<u64>, u64: From<T> {
    /// A bitmap of `size` bytes, and so of eight times as many slots, all
    /// free.
    pub fn new(size: Byte) -> (bitmap: Bitmap<T>)
        requires
            size.0 <= usize::MAX,
            size.0 * 8 <= u64::MAX,
        ensures
            bitmap@.len() == size.0 * 8,
            forall|slot: int| 0 <= slot < bitmap@.len() ==> !bitmap@[slot],
    {
        let bytes = vec![0u8; size.to_usize()];
        assert forall|bit: u8| bit < 8 implies !Bits::is_set(0u8, bit) by {
            assert(0u8 & (0x80u8 >> bit) == 0) by (bit_vector);
        }
        Bitmap { bytes, kind: PhantomData }
    }

    /// The number of slots.
    pub fn slots(&self) -> (slots: u64)
        ensures
            slots == self@.len(),
    {
        proof {
            use_type_invariant(self);
        }
        self.bytes.len() as u64 * 8
    }

    /// The first byte with a zero bit and the first such bit in it.
    fn first_zero(bytes: &Vec<u8>) -> (found: Option<(usize, u8)>)
        ensures
            match found {
                Some((byte, bit)) => {
                    &&& byte < bytes@.len()
                    &&& bit < 8
                    &&& !Bits::is_set(bytes@[byte as int], bit)
                    &&& forall|before: u8|
                        before < bit ==> Bits::is_set(bytes@[byte as int], before)
                    &&& forall|full: int| 0 <= full < byte ==> Bits::is_full(bytes@[full])
                },
                None => forall|full: int| 0 <= full < bytes@.len() ==> Bits::is_full(bytes@[full]),
            },
    {
        let mut i: usize = 0;
        while i < bytes.len()
            invariant
                i <= bytes@.len(),
                forall|full: int| 0 <= full < i ==> Bits::is_full(bytes@[full]),
            decreases bytes@.len() - i,
        {
            if let Some(bit) = Bits::first_zero(bytes[i]) {
                return Some((i, bit));
            }
            i = i + 1;
        }
        None
    }

    /// Takes the free slot with the smallest number and returns that number,
    /// or returns `None` where every slot is taken.
    pub fn allocate_slot(&mut self) -> (allocated: Option<u64>)
        ensures
            final(self)@ == after_allocate(old(self)@),
            old(self)@.len() <= u64::MAX,
            allocated == if first_free(old(self)@) < old(self)@.len() {
                Some(first_free(old(self)@) as u64)
            } else {
                None
            },
    {
        proof {
            use_type_invariant(&*self);
        }
        match Self::first_zero(&self.bytes) {
            Some((byte, bit)) => {
                let ghost before = self@;
                let ghost slot = byte * 8 + bit;
                let set = Bits::set_high(self.bytes[byte], bit);
                self.bytes[byte] = set;
                proof {
                    assert forall|taken: int| 0 <= taken < slot implies before[taken] by {}
                    lemma_first_free_is_smallest(before, slot);
                }
                Some(byte as u64 * 8 + bit as u64)
            },
            None => {
                proof {
                    assert forall|taken: int| 0 <= taken < self@.len() implies self@[taken] by {}
                    lemma_first_free_is_smallest(self@, self@.len() as int);
                }
                None
            },
        }
    }

    /// Frees the slot numbered `slot`. A slot that is free stays free.
    pub fn free_slot(&mut self, slot: u64)
        requires
            slot < old(self)@.len(),
        ensures
            final(self)@ == old(self)@.update(slot as int, false),
    {
        proof {
            use_type_invariant(&*self);
        }
        assert(slot / 8 < self.bytes.len());
        let byte = (slot / 8) as usize;
        let bit = (slot % 8) as u8;
        let cleared = Bits::set_low(self.bytes[byte], bit);
        self.bytes[byte] = cleared;
    }

    /// Takes the free slot with the smallest number and returns it as a `T`,
    /// or returns `None` where every slot is taken.
    pub fn allocate(&mut self) -> (allocated: Option<T>)
        ensures
            final(self)@ == after_allocate(old(self)@),
            old(self)@.len() <= u64::MAX,
            allocated is Some <==> first_free(old(self)@) < old(self)@.len(),
            allocated matches Some(value) ==> (T::obeys_from_spec() ==> value == T::from_spec(
                first_free(old(self)@) as u64,
            )),
    {
        match self.allocate_slot() {
            Some(slot) => Some(T::from(slot)),
            None => None,
        }
    }

    /// Frees the slot with the number that `value` stands for. A slot that
    /// is free stays free.
    pub fn free(&mut self, value: T)
        requires
            <u64 as FromSpec<T>>::obeys_from_spec(),
            <u64 as FromSpec<T>>::from_spec(value) < old(self)@.len(),
        ensures
            final(self)@ == old(self)@.update(
                <u64 as FromSpec<T>>::from_spec(value) as int,
                false,
            ),
    {
        self.free_slot(u64::from(value))
    }
}

} // verus!
