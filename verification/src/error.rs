//! The classes into which every failure of the register and of the escrow
//! engine falls.

use vstd::prelude::*;

verus! {

/// The class of a failure. Every failure aborts the whole operation: the
/// state is left as it was and no transfer is handed back.
#[derive(Clone, Copy, Debug, PartialEq, Eq, Structural)]
pub enum ErrorKind {
    /// The authenticated caller is not the principal that the operation asks for.
    Unauthorized,
    /// The employee has not been registered.
    NotRegistered,
    /// A check-in is already recorded for the day.
    AlreadyCheckedIn,
    /// A check-out is already recorded for the day.
    AlreadyCheckedOut,
    /// No check-in is recorded for the day.
    NoCheckIn,
    /// A record that the operation needs does not exist.
    NotFound,
    /// The escrow is not in a state that permits the operation.
    InvalidState,
    /// The caller is authenticated but is not a party that the record names.
    NotAuthorizedParty,
    /// The held balance is below the escrowed amount.
    InsufficientFunds,
    /// The hours on record are below the required hours.
    InsufficientHours,
    /// A computation left the range of its integer type.
    ArithmeticOverflow,
}

} // verus!
