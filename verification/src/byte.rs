//! Byte counts: sizes and offsets on a volume.

use crate::text::{decimal, decimal_string};
use vstd::prelude::*;
use vstd::std_specs::convert::FromSpecImpl;
use vstd::std_specs::ops::{AddSpecImpl, DivSpecImpl, MulSpecImpl, RemSpecImpl, SubSpecImpl};

verus! {

/// The width in bytes of a byte count as it is stored on a volume.
pub const BYTE_POINTER_SIZE: u64 = 8;

/// A non-negative number of bytes, used for sizes and for offsets alike.
#[derive(Clone, Copy, PartialEq, PartialOrd, Eq, Ord, Debug, Structural)]
pub struct Byte(pub u64);

impl Byte {
    pub fn new(value: u64) -> (byte: Byte)
        ensures
            byte == Byte(value),
    {
        Byte(value)
    }

    /// Adds one byte to the count.
    pub fn increment(&mut self)
        requires
            old(self).0 < u64::MAX,
        ensures
            final(self).0 == old(self).0 + 1,
    {
        self.0 = self.0 + 1;
    }

    /// The count as a `usize`. On a machine whose `usize` is narrower than
    /// 64 bits the upper bits are cut off, as the cast does.
    pub fn to_usize(self) -> (value: usize)
        ensures
            value == self.0 as usize,
            self.0 <= usize::MAX ==> value == self.0,
    {
        #[verifier::truncate]
        (self.0 as usize)
    }

    pub fn to_u64(self) -> (value: u64)
        ensures
            value == self.0,
    {
        self.0
    }

    pub fn multiply(lhs: Byte, rhs: Byte) -> (product: Byte)
        requires
            lhs.0 * rhs.0 <= u64::MAX,
        ensures
            product.0 == lhs.0 * rhs.0,
    {
        Byte(lhs.0 * rhs.0)
    }

    /// The count in decimal digits.
    pub fn to_string(&self) -> (text: String)
        ensures
            text@ == decimal(self.0 as nat),
    {
        decimal_string(self.0)
    }
}

impl From<Byte> for usize {
    fn from(b: Byte) -> (value: usize) {
        b.to_usize()
    }
}

impl FromSpecImpl<Byte> for usize {
    open spec fn obeys_from_spec() -> bool {
        true
    }

    open spec fn from_spec(b: Byte) -> usize {
        b.0 as usize
    }
}

impl From<usize> for Byte {
    fn from(u: usize) -> (byte: Byte) {
        Byte(u as u64)
    }
}

impl FromSpecImpl<usize> for Byte {
    open spec fn obeys_from_spec() -> bool {
        true
    }

    open spec fn from_spec(u: usize) -> Byte {
        Byte(u as u64)
    }
}

impl From<Byte> for u64 {
    fn from(b: Byte) -> (value: u64) {
        b.0
    }
}

impl FromSpecImpl<Byte> for u64 {
    open spec fn obeys_from_spec() -> bool {
        true
    }

    open spec fn from_spec(b: Byte) -> u64 {
        b.0
    }
}

impl From<u64> for Byte {
    fn from(u: u64) -> (byte: Byte) {
        Byte(u)
    }
}

impl FromSpecImpl<u64> for Byte {
    open spec fn obeys_from_spec() -> bool {
        true
    }

    open spec fn from_spec(u: u64) -> Byte {
        Byte(u)
    }
}

impl core::ops::Add for Byte {
    type Output = Byte;

    fn add(self, other: Byte) -> (sum: Byte) {
        Byte(self.0 + other.0)
    }
}

impl AddSpecImpl for Byte {
    open spec fn obeys_add_spec() -> bool {
        true
    }

    open spec fn add_req(self, other: Byte) -> bool {
        self.0 + other.0 <= u64::MAX
    }

    open spec fn add_spec(self, other: Byte) -> Byte {
        Byte((self.0 + other.0) as u64)
    }
}

impl core::ops::AddAssign for Byte {
    fn add_assign(&mut self, other: Byte)
        requires
            old(self).0 + other.0 <= u64::MAX,
        ensures
            final(self).0 == old(self).0 + other.0,
    {
        self.0 = self.0 + other.0;
    }
}

impl core::ops::Sub for Byte {
    type Output = Byte;

    fn sub(self, other: Byte) -> (difference: Byte) {
        Byte(self.0 - other.0)
    }
}

impl SubSpecImpl for Byte {
    open spec fn obeys_sub_spec() -> bool {
        true
    }

    open spec fn sub_req(self, other: Byte) -> bool {
        other.0 <= self.0
    }

    open spec fn sub_spec(self, other: Byte) -> Byte {
        Byte((self.0 - other.0) as u64)
    }
}

impl core::ops::Mul for Byte {
    type Output = Byte;

    fn mul(self, other: Byte) -> (product: Byte) {
        Byte(self.0 * other.0)
    }
}

impl MulSpecImpl for Byte {
    open spec fn obeys_mul_spec() -> bool {
        true
    }

    open spec fn mul_req(self, other: Byte) -> bool {
        self.0 * other.0 <= u64::MAX
    }

    open spec fn mul_spec(self, other: Byte) -> Byte {
        Byte((self.0 * other.0) as u64)
    }
}

impl core::ops::Div for Byte {
    type Output = Byte;

    fn div(self, other: Byte) -> (quotient: Byte) {
        Byte(self.0 / other.0)
    }
}

impl DivSpecImpl for Byte {
    open spec fn obeys_div_spec() -> bool {
        true
    }

    open spec fn div_req(self, other: Byte) -> bool {
        other.0 != 0
    }

    open spec fn div_spec(self, other: Byte) -> Byte {
        Byte(self.0 / other.0)
    }
}

impl core::ops::Rem for Byte {
    type Output = Byte;

    fn rem(self, other: Byte) -> (remainder: Byte) {
        Byte(self.0 % other.0)
    }
}

impl RemSpecImpl for Byte {
    open spec fn obeys_rem_spec() -> bool {
        true
    }

    open spec fn rem_req(self, other: Byte) -> bool {
        other.0 != 0
    }

    open spec fn rem_spec(self, other: Byte) -> Byte {
        Byte(self.0 % other.0)
    }
}

} // verus!
