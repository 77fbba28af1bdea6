//! The ledger's value-transfer primitive, modelled over plain balances.

use vstd::prelude::*;

verus! {

/// Failure of the value-transfer primitive.
#[derive(Clone, Copy, Debug, PartialEq, Eq, Structural)]
pub enum LedgerError {
    /// The paying balance cannot cover the requested value.
    InsufficientFunds,
}

/// Atomic, all-or-nothing move of `value` from one balance to another.
/// It fails closed: when the paying balance cannot cover `value`, both
/// balances are left exactly as they were.
///
/// The caller must know that the two balances together fit the balance
/// type, which holds of any two accounts of one ledger: a ledger never
/// holds more value than its balance type counts.
pub fn transfer(from: &mut u64, to: &mut u64, value: u64) -> (r: Result<(), LedgerError>)
    requires
        *old(from) + *old(to) <= u64::MAX,
    ensures
        r is Ok <==> value <= *old(from),
        r is Ok ==> *final(from) == *old(from) - value && *final(to) == *old(to) + value,
        r is Err ==> *final(from) == *old(from) && *final(to) == *old(to)
            && r == Err::<(), LedgerError>(LedgerError::InsufficientFunds),
{
    if value <= *from {
        *from = *from - value;
        *to = *to + value;
        Ok(())
    } else {
        Err(LedgerError::InsufficientFunds)
    }
}

} // verus!
