//! The parties that act on the ledger: who they are and what they hold.

use vstd::prelude::*;

verus! {

/// The cryptographic identity of a party: thirty-two bytes.
#[derive(Clone, Copy, Debug, Eq, Hash)]
pub struct Identity {
    pub bytes: [u8; 32],
}

impl PartialEq for Identity {
    /// Two identities are the same party when all their bytes agree.
    fn eq(&self, other: &Identity) -> (same: bool) {
        let mut i: usize = 0;
        while i < 32
            invariant
                i <= 32,
                forall|j: int| 0 <= j < i ==> self.bytes[j] == other.bytes[j],
            decreases 32 - i,
        {
            if self.bytes[i] != other.bytes[i] {
                return false;
            }
            i += 1;
        }
        assert(self.bytes =~= other.bytes);
        true
    }
}

impl vstd::std_specs::cmp::PartialEqSpecImpl for Identity {
    open spec fn obeys_eq_spec() -> bool {
        true
    }

    open spec fn eq_spec(&self, other: &Identity) -> bool {
        *self == *other
    }
}

/// A party together with the currency it holds, in the smallest subunit.
#[derive(Clone, Copy, Debug, PartialEq, Eq)]
pub struct Wallet {
    pub key: Identity,
    pub balance: u64,
}

/// What `transfer` leaves in the two balances: the amount has moved when the
/// source covers it and the destination can hold it, and nothing has moved
/// otherwise.
pub open spec fn transfer_outcome(from: u64, to: u64, amount: u64) -> Option<(u64, u64)> {
    if amount <= from && to + amount <= u64::MAX {
        Some(((from - amount) as u64, (to + amount) as u64))
    } else {
        None
    }
}

/// Moves `amount` out of `from` and into `to`, or moves nothing and says so.
pub fn transfer(from: &mut u64, to: &mut u64, amount: u64) -> (moved: bool)
    ensures
        moved == transfer_outcome(*old(from), *old(to), amount).is_some(),
        moved ==> transfer_outcome(*old(from), *old(to), amount) == Some((*final(from), *final(to))),
        !moved ==> *final(from) == *old(from) && *final(to) == *old(to),
        *final(from) + *final(to) == *old(from) + *old(to),
{
    if amount > *from || amount > u64::MAX - *to {
        return false;
    }
    *from = *from - amount;
    *to = *to + amount;
    true
}

} // verus!
