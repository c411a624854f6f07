//! Identities of the parties and components that take part in a settlement.

use vstd::prelude::*;

verus! {

/// What an address stands for.
#[derive(Clone, Copy, Debug, PartialEq, Eq, Structural)]
pub enum AddressKind {
    /// A party that signs with a key of its own.
    Account,
    /// A ledger-resident component, such as a register or an asset ledger.
    Contract,
}

/// An opaque 32-byte value that a caller attaches to a check-in or a
/// check-out. It is stored as given and never interpreted.
pub type Commitment = [u8; 32];

/// The identity of a principal: its kind and its 32-byte key.
#[derive(Clone, Copy, Debug, PartialEq, Eq)]
pub struct Address {
    pub kind: AddressKind,
    pub key: [u8; 32],
}

impl Address {
    /// The address of the account with the given key.
    pub fn account(key: [u8; 32]) -> (r: Address)
        ensures
            r == (Address { kind: AddressKind::Account, key }),
    {
        Address { kind: AddressKind::Account, key }
    }

    /// The address of the contract with the given key.
    pub fn contract(key: [u8; 32]) -> (r: Address)
        ensures
            r == (Address { kind: AddressKind::Contract, key }),
    {
        Address { kind: AddressKind::Contract, key }
    }

    /// Whether two addresses name the same principal: same kind, same key.
    pub fn same(&self, other: &Address) -> (r: bool)
        ensures
            r == (*self == *other),
    {
        if self.kind != other.kind {
            return false;
        }
        let mut i: usize = 0;
        while i < 32
            invariant
                i <= 32,
                self.kind == other.kind,
                forall|j: int| 0 <= j < i ==> self.key@[j] == other.key@[j],
            decreases 32 - i,
        {
            if self.key[i] != other.key[i] {
                return false;
            }
            i += 1;
        }
        assert(self.key =~= other.key);
        true
    }
}

} // verus!
