//! Identifiers that the registries key their records by: 32-byte digests and
//! principal addresses.
use vstd::prelude::*;

verus! {

/// A 32-byte digest (a SHA-256 hash computed off-chain).
#[derive(Clone, Copy, Debug, PartialEq, Eq)]
pub struct Hash32 {
    pub bytes: [u8; 32],
}

impl Hash32 {
    /// The digest whose 32 bytes all equal `value`.
    pub fn filled(value: u8) -> (h: Hash32)
        ensures
            forall|i: int| 0 <= i < 32 ==> h.bytes[i] == value,
    {
        Hash32 { bytes: [value; 32] }
    }

    /// Whether all 32 bytes are zero.
    pub open spec fn is_zero(self) -> bool {
        forall|i: int| 0 <= i < 32 ==> self.bytes[i] == 0
    }

    /// Byte-wise equality of two digests.
    pub fn same_as(&self, other: &Hash32) -> (r: bool)
        ensures
            r == (*self == *other),
    {
        let mut i: usize = 0;
        while i < 32
            invariant
                0 <= i <= 32,
                forall|j: int| 0 <= j < i ==> self.bytes[j] == other.bytes[j],
            decreases 32 - i,
        {
            if self.bytes[i] != other.bytes[i] {
                return false;
            }
            i = i + 1;
        }
        assert(self.bytes =~= other.bytes);
        true
    }

    /// Whether all 32 bytes are zero.
    pub fn check_zero(&self) -> (r: bool)
        ensures
            r == self.is_zero(),
    {
        let mut i: usize = 0;
        while i < 32
            invariant
                0 <= i <= 32,
                forall|j: int| 0 <= j < i ==> self.bytes[j] == 0,
            decreases 32 - i,
        {
            if self.bytes[i] != 0 {
                return false;
            }
            i = i + 1;
        }
        true
    }
}

/// A principal address as the ledger encodes it: an account's public key or a
/// contract's identifier. Any other address form is `Unrecognized`.
#[derive(Clone, Copy, Debug, PartialEq, Eq)]
pub enum Address {
    Account(Hash32),
    Contract(Hash32),
    Unrecognized,
}

impl Address {
    /// Equality of two addresses.
    pub fn same_as(&self, other: &Address) -> (r: bool)
        ensures
            r == (*self == *other),
    {
        match (self, other) {
            (Address::Account(a), Address::Account(b)) => a.same_as(b),
            (Address::Contract(a), Address::Contract(b)) => a.same_as(b),
            (Address::Unrecognized, Address::Unrecognized) => true,
            _ => false,
        }
    }
}

/// A key type of a [`crate::table::Table`]: its exec equality is spec equality.
pub trait TableKey: Sized + Copy {
    fn same_key(&self, other: &Self) -> (r: bool)
        ensures
            r == (*self == *other),
    ;
}

impl TableKey for Hash32 {
    fn same_key(&self, other: &Self) -> (r: bool) {
        self.same_as(other)
    }
}

impl TableKey for Address {
    fn same_key(&self, other: &Self) -> (r: bool) {
        self.same_as(other)
    }
}

} // verus!
