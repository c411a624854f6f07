//! The escrow record of one employee and the rules by which it moves
//! through its lifecycle.

use vstd::prelude::*;
use crate::address::Address;
use crate::error::ErrorKind;

pub use crate::attendance::Attendance;

verus! {

/// Where an escrow stands. `Released` and `Refunded` are final.
#[derive(Clone, Copy, Debug, PartialEq, Eq, Structural)]
pub enum EscrowState {
    Active,
    Disputed,
    Released,
    Refunded,
}

impl EscrowState {
    /// Whether the state is final: nothing leads out of it.
    pub open spec fn is_terminal(self) -> bool {
        self == EscrowState::Released || self == EscrowState::Refunded
    }

    /// Whether the lifecycle has a step from `self` to `next`.
    pub open spec fn may_become(self, next: EscrowState) -> bool {
        ||| self == EscrowState::Active && next == EscrowState::Disputed
        ||| self == EscrowState::Active && next == EscrowState::Released
        ||| self == EscrowState::Disputed && next == EscrowState::Released
        ||| self == EscrowState::Disputed && next == EscrowState::Refunded
    }
}

/// The escrow held for one employee.
#[derive(Clone, Copy, Debug, PartialEq, Eq)]
pub struct Escrow {
    pub employer: Address,
    pub employee: Address,
    /// The register whose records count towards the required hours.
    pub attendance_contract: Address,
    pub dispute_resolver: Address,
    /// The wallet that receives the fee share of a claim.
    pub parafiscales_wallet: Address,
    /// The asset ledger that holds the escrowed amount.
    pub token_contract: Address,
    pub amount: i128,
    pub required_hours: u64,
    pub manual_extra_hours: u64,
    pub state: EscrowState,
}

/// Why an operation of the escrow engine failed.
#[derive(Clone, Copy, Debug, PartialEq, Eq, Structural)]
pub enum EscrowError {
    Unauthorized,
    EscrowNotFound,
    EscrowNotActive,
    NotAuthorizedParty,
    CannotDispute,
    NotDisputeResolver,
    NoActiveDispute,
    InsufficientFunds,
    InsufficientHours,
    ArithmeticOverflow,
}

impl EscrowError {
    /// The class of this failure.
    pub open spec fn spec_kind(self) -> ErrorKind {
        match self {
            EscrowError::Unauthorized => ErrorKind::Unauthorized,
            EscrowError::EscrowNotFound => ErrorKind::NotFound,
            EscrowError::EscrowNotActive => ErrorKind::InvalidState,
            EscrowError::NotAuthorizedParty => ErrorKind::NotAuthorizedParty,
            EscrowError::CannotDispute => ErrorKind::InvalidState,
            EscrowError::NotDisputeResolver => ErrorKind::NotAuthorizedParty,
            EscrowError::NoActiveDispute => ErrorKind::InvalidState,
            EscrowError::InsufficientFunds => ErrorKind::InsufficientFunds,
            EscrowError::InsufficientHours => ErrorKind::InsufficientHours,
            EscrowError::ArithmeticOverflow => ErrorKind::ArithmeticOverflow,
        }
    }

    /// The class of this failure.
    pub fn kind(&self) -> (k: ErrorKind)
        ensures
            k == self.spec_kind(),
    {
        match self {
            EscrowError::Unauthorized => ErrorKind::Unauthorized,
            EscrowError::EscrowNotFound => ErrorKind::NotFound,
            EscrowError::EscrowNotActive => ErrorKind::InvalidState,
            EscrowError::NotAuthorizedParty => ErrorKind::NotAuthorizedParty,
            EscrowError::CannotDispute => ErrorKind::InvalidState,
            EscrowError::NotDisputeResolver => ErrorKind::NotAuthorizedParty,
            EscrowError::NoActiveDispute => ErrorKind::InvalidState,
            EscrowError::InsufficientFunds => ErrorKind::InsufficientFunds,
            EscrowError::InsufficientHours => ErrorKind::InsufficientHours,
            EscrowError::ArithmeticOverflow => ErrorKind::ArithmeticOverflow,
        }
    }
}

/// An instruction to move `amount` out of the engine's holdings at the
/// asset ledger `token` to `to`.
#[derive(Clone, Copy, Debug, PartialEq, Eq)]
pub struct Transfer {
    pub token: Address,
    pub to: Address,
    pub amount: i128,
}

/// The share of the employee in a claimed amount, in hundredths.
pub const EMPLOYEE_SHARE_PERCENT: i128 = 95;

/// The employee's share of `amount`: 95 hundredths, rounded towards zero.
pub open spec fn employee_share(amount: int) -> int {
    if amount >= 0 {
        amount * 95 / 100
    } else {
        -((-amount * 95) / 100)
    }
}

/// The fee share of `amount`: what the employee's share leaves.
pub open spec fn fee_share(amount: int) -> int {
    amount - employee_share(amount)
}

/// Splits a claimed amount into the employee's share and the fee share.
/// `None` where 95 times the amount leaves the range of `i128`.
pub fn split_amount(amount: i128) -> (r: Option<(i128, i128)>)
    ensures
        r is Some <==> i128::MIN <= amount * 95 <= i128::MAX,
        r matches Some((employee_amount, fee_amount)) ==> {
            &&& employee_amount == employee_share(amount as int)
            &&& fee_amount == fee_share(amount as int)
            &&& employee_amount + fee_amount == amount
        },
{
    match amount.checked_mul(EMPLOYEE_SHARE_PERCENT) {
        Some(scaled) => {
            let employee_amount: i128 = scaled / 100;
            let fee_amount: i128 = amount - employee_amount;
            Some((employee_amount, fee_amount))
        },
        None => None,
    }
}

impl Escrow {
    /// A fresh escrow: active, with no manual hours.
    pub open spec fn spec_new(
        employer: Address,
        employee: Address,
        attendance_contract: Address,
        dispute_resolver: Address,
        parafiscales_wallet: Address,
        token_contract: Address,
        amount: i128,
        required_hours: u64,
    ) -> Escrow {
        Escrow {
            employer,
            employee,
            attendance_contract,
            dispute_resolver,
            parafiscales_wallet,
            token_contract,
            amount,
            required_hours,
            manual_extra_hours: 0,
            state: EscrowState::Active,
        }
    }

    /// What is on record, or `EscrowNotFound` where nothing is.
    pub open spec fn spec_found(record: Option<Escrow>) -> Result<Escrow, EscrowError> {
        match record {
            Some(escrow) => Ok(escrow),
            None => Err(EscrowError::EscrowNotFound),
        }
    }

    /// The escrow after `hours` have been credited by hand.
    pub open spec fn spec_with_manual_hours(self, hours: u64) -> Result<Escrow, EscrowError> {
        if self.state != EscrowState::Active {
            Err(EscrowError::EscrowNotActive)
        } else if self.manual_extra_hours + hours > u64::MAX {
            Err(EscrowError::ArithmeticOverflow)
        } else {
            Ok(Escrow { manual_extra_hours: (self.manual_extra_hours + hours) as u64, ..self })
        }
    }

    /// Whether a claim may go on to count hours, given the held balance.
    pub open spec fn spec_claimable(self, balance: i128) -> Result<(), EscrowError> {
        if self.state != EscrowState::Active {
            Err(EscrowError::EscrowNotActive)
        } else if balance < self.amount {
            Err(EscrowError::InsufficientFunds)
        } else {
            Ok(())
        }
    }

    /// The transfer of the employee's share of a claim.
    pub open spec fn employee_transfer(self) -> Transfer {
        Transfer {
            token: self.token_contract,
            to: self.employee,
            amount: employee_share(self.amount as int) as i128,
        }
    }

    /// The transfer of the fee share of a claim.
    pub open spec fn fee_transfer(self) -> Transfer {
        Transfer {
            token: self.token_contract,
            to: self.parafiscales_wallet,
            amount: fee_share(self.amount as int) as i128,
        }
    }

    /// The outcome of settling a claimable escrow against `total_hours`.
    pub open spec fn spec_settled(self, total_hours: u64) -> Result<
        (Escrow, Transfer, Transfer),
        EscrowError,
    > {
        if total_hours < self.required_hours {
            Err(EscrowError::InsufficientHours)
        } else if !(i128::MIN <= self.amount * 95 <= i128::MAX) {
            Err(EscrowError::ArithmeticOverflow)
        } else {
            Ok(
                (
                    Escrow { state: EscrowState::Released, ..self },
                    self.employee_transfer(),
                    self.fee_transfer(),
                ),
            )
        }
    }

    /// The outcome of a whole claim, where `total_hours` is the outcome of
    /// counting the hours.
    pub open spec fn spec_claimed(self, balance: i128, total_hours: Result<u64, EscrowError>) -> Result<
        (Escrow, Transfer, Transfer),
        EscrowError,
    > {
        match self.spec_claimable(balance) {
            Err(e) => Err(e),
            Ok(()) => match total_hours {
                Err(e) => Err(e),
                Ok(hours) => self.spec_settled(hours),
            },
        }
    }

    /// The escrow after `caller` has opened a dispute.
    pub open spec fn spec_disputed(self, caller: Address) -> Result<Escrow, EscrowError> {
        if caller != self.employer && caller != self.employee {
            Err(EscrowError::NotAuthorizedParty)
        } else if self.state != EscrowState::Active {
            Err(EscrowError::CannotDispute)
        } else {
            Ok(Escrow { state: EscrowState::Disputed, ..self })
        }
    }

    /// The outcome of `caller` resolving the dispute.
    pub open spec fn spec_resolved(
        self,
        caller: Address,
        release_to_employee: bool,
        balance: i128,
    ) -> Result<(Escrow, Transfer), EscrowError> {
        if caller != self.dispute_resolver {
            Err(EscrowError::NotDisputeResolver)
        } else if self.state != EscrowState::Disputed {
            Err(EscrowError::NoActiveDispute)
        } else if balance < self.amount {
            Err(EscrowError::InsufficientFunds)
        } else if release_to_employee {
            Ok(
                (
                    Escrow { state: EscrowState::Released, ..self },
                    Transfer { token: self.token_contract, to: self.employee, amount: self.amount },
                ),
            )
        } else {
            Ok(
                (
                    Escrow { state: EscrowState::Refunded, ..self },
                    Transfer { token: self.token_contract, to: self.employer, amount: self.amount },
                ),
            )
        }
    }

    /// Makes a fresh escrow: active, with no manual hours.
    pub fn new(
        employer: Address,
        employee: Address,
        attendance_contract: Address,
        dispute_resolver: Address,
        parafiscales_wallet: Address,
        token_contract: Address,
        amount: i128,
        required_hours: u64,
    ) -> (r: Escrow)
        ensures
            r == Escrow::spec_new(
                employer,
                employee,
                attendance_contract,
                dispute_resolver,
                parafiscales_wallet,
                token_contract,
                amount,
                required_hours,
            ),
    {
        Escrow {
            employer,
            employee,
            attendance_contract,
            dispute_resolver,
            parafiscales_wallet,
            token_contract,
            amount,
            required_hours,
            manual_extra_hours: 0,
            state: EscrowState::Active,
        }
    }

    /// What is on record for an employee, or `EscrowNotFound` where nothing
    /// is.
    pub fn found(record: Option<Escrow>) -> (r: Result<Escrow, EscrowError>)
        ensures
            r == Escrow::spec_found(record),
    {
        match record {
            Some(escrow) => Ok(escrow),
            None => Err(EscrowError::EscrowNotFound),
        }
    }

    /// Credits `hours` by hand. Fails with `EscrowNotActive` unless the
    /// escrow is active, and with `ArithmeticOverflow` where the sum leaves
    /// the range of `u64`.
    pub fn with_manual_hours(&self, hours: u64) -> (r: Result<Escrow, EscrowError>)
        ensures
            r == self.spec_with_manual_hours(hours),
    {
        if self.state != EscrowState::Active {
            return Err(EscrowError::EscrowNotActive);
        }
        match self.manual_extra_hours.checked_add(hours) {
            Some(sum) => {
                let mut next = *self;
                next.manual_extra_hours = sum;
                Ok(next)
            },
            None => Err(EscrowError::ArithmeticOverflow),
        }
    }

    /// Tests what a claim tests before it counts hours: the escrow is
    /// active, else `EscrowNotActive`; the held balance covers the amount,
    /// else `InsufficientFunds`.
    pub fn claimable(&self, balance: i128) -> (r: Result<(), EscrowError>)
        ensures
            r == self.spec_claimable(balance),
    {
        if self.state != EscrowState::Active {
            return Err(EscrowError::EscrowNotActive);
        }
        if balance < self.amount {
            return Err(EscrowError::InsufficientFunds);
        }
        Ok(())
    }

    /// Settles a claimable escrow against the hours on record. Fails with
    /// `InsufficientHours` where they are below the required hours, and with
    /// `ArithmeticOverflow` where the amount is too large to split.
    /// Otherwise hands back the released escrow, the transfer to the
    /// employee and the transfer to the fee wallet, which together move
    /// exactly the amount.
    pub fn settled(&self, total_hours: u64) -> (r: Result<(Escrow, Transfer, Transfer), EscrowError>)
        ensures
            r == self.spec_settled(total_hours),
            r matches Ok((_, to_employee, to_fee_wallet)) ==> to_employee.amount
                + to_fee_wallet.amount == self.amount,
    {
        if total_hours < self.required_hours {
            return Err(EscrowError::InsufficientHours);
        }
        match split_amount(self.amount) {
            Some((employee_amount, fee_amount)) => {
                let mut next = *self;
                next.state = EscrowState::Released;
                Ok(
                    (
                        next,
                        Transfer {
                            token: self.token_contract,
                            to: self.employee,
                            amount: employee_amount,
                        },
                        Transfer {
                            token: self.token_contract,
                            to: self.parafiscales_wallet,
                            amount: fee_amount,
                        },
                    ),
                )
            },
            None => Err(EscrowError::ArithmeticOverflow),
        }
    }

    /// Opens a dispute on behalf of `caller`. Fails with
    /// `NotAuthorizedParty` unless the caller is the employer or the
    /// employee of the escrow, then with `CannotDispute` unless the escrow
    /// is active.
    pub fn disputed(&self, caller: &Address) -> (r: Result<Escrow, EscrowError>)
        ensures
            r == self.spec_disputed(*caller),
    {
        if !caller.same(&self.employer) && !caller.same(&self.employee) {
            return Err(EscrowError::NotAuthorizedParty);
        }
        if self.state != EscrowState::Active {
            return Err(EscrowError::CannotDispute);
        }
        let mut next = *self;
        next.state = EscrowState::Disputed;
        Ok(next)
    }

    /// Resolves the dispute on behalf of `caller`. The failures, in the
    /// order in which they are tested: `NotDisputeResolver` unless the
    /// caller is the resolver of the escrow, `NoActiveDispute` unless the
    /// escrow is disputed, `InsufficientFunds` where the held balance is
    /// below the amount. Otherwise the whole amount goes to the employee and
    /// the escrow is released, or it goes back to the employer and the
    /// escrow is refunded.
    pub fn resolved(&self, caller: &Address, release_to_employee: bool, balance: i128) -> (r: Result<
        (Escrow, Transfer),
        EscrowError,
    >)
        ensures
            r == self.spec_resolved(*caller, release_to_employee, balance),
    {
        if !caller.same(&self.dispute_resolver) {
            return Err(EscrowError::NotDisputeResolver);
        }
        if self.state != EscrowState::Disputed {
            return Err(EscrowError::NoActiveDispute);
        }
        if balance < self.amount {
            return Err(EscrowError::InsufficientFunds);
        }
        let mut next = *self;
        if release_to_employee {
            next.state = EscrowState::Released;
            Ok((next, Transfer { token: self.token_contract, to: self.employee, amount: self.amount }))
        } else {
            next.state = EscrowState::Refunded;
            Ok((next, Transfer { token: self.token_contract, to: self.employer, amount: self.amount }))
        }
    }
}

} // verus!
