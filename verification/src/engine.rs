//! The escrow settlement engine: one escrow per employee, moved through its
//! lifecycle by the employer, the employee and the dispute resolver.

use vstd::prelude::*;
use crate::address::Address;
use crate::attendance::Attendance;
use crate::escrow::Escrow;
use crate::escrow::EscrowError;
use crate::escrow::Transfer;
use crate::hours::spec_total_hours;
use crate::hours::total_hours;
use crate::hours::window_days;
use crate::hours::window_records;
use crate::keyed::distinct_keys;
use crate::keyed::holds;
use crate::keyed::lacks;
use crate::keyed::lemma_absent;
use crate::keyed::lemma_at;
use crate::keyed::lemma_empty;
use crate::keyed::lemma_push;
use crate::keyed::lemma_replace;
use crate::keyed::lemma_value_is_listed;
use crate::keyed::map_of;
use crate::register::AttendanceContract;
use crate::register::RegisterState;

verus! {

/// The engine as a mathematical value: the escrow of each employee that has
/// one.
pub struct EngineState {
    pub escrows: Map<Address, Escrow>,
}

impl EngineState {
    /// The engine that holds no escrow.
    pub open spec fn initial() -> EngineState {
        EngineState { escrows: Map::empty() }
    }

    /// The escrow of `employee`, if there is one.
    pub open spec fn escrow(self, employee: Address) -> Option<Escrow> {
        if self.escrows.dom().contains(employee) {
            Some(self.escrows[employee])
        } else {
            None
        }
    }

    /// Every escrow is filed under the employee that it names.
    pub open spec fn well_formed(self) -> bool {
        forall|employee: Address| #[trigger]
            self.escrows.dom().contains(employee) ==> self.escrows[employee].employee == employee
    }

    /// The engine with the escrow of `employee` set to `escrow`.
    pub open spec fn with_escrow(self, employee: Address, escrow: Escrow) -> EngineState {
        EngineState { escrows: self.escrows.insert(employee, escrow) }
    }

    /// The outcome of creating an escrow on behalf of `caller`.
    pub open spec fn create_escrow(
        self,
        caller: Address,
        employer: Address,
        employee: Address,
        attendance_contract: Address,
        dispute_resolver: Address,
        parafiscales_wallet: Address,
        token_contract: Address,
        amount: i128,
        required_hours: u64,
    ) -> Result<EngineState, EscrowError> {
        if caller != employer {
            Err(EscrowError::Unauthorized)
        } else {
            Ok(
                self.with_escrow(
                    employee,
                    Escrow::spec_new(
                        employer,
                        employee,
                        attendance_contract,
                        dispute_resolver,
                        parafiscales_wallet,
                        token_contract,
                        amount,
                        required_hours,
                    ),
                ),
            )
        }
    }

    /// The outcome of crediting hours by hand on behalf of `caller`.
    pub open spec fn add_manual_hours(
        self,
        caller: Address,
        employer: Address,
        employee: Address,
        hours: u64,
    ) -> Result<EngineState, EscrowError> {
        if caller != employer {
            Err(EscrowError::Unauthorized)
        } else {
            match self.escrow(employee) {
                None => Err(EscrowError::EscrowNotFound),
                Some(escrow) => match escrow.spec_with_manual_hours(hours) {
                    Ok(next) => Ok(self.with_escrow(employee, next)),
                    Err(e) => Err(e),
                },
            }
        }
    }

    /// The outcome of a claim on behalf of `caller` at `now`, with `balance`
    /// held and `register` as the source of attendance.
    pub open spec fn claim(
        self,
        caller: Address,
        employee: Address,
        now: u64,
        balance: i128,
        register: RegisterState,
    ) -> Result<(EngineState, Transfer, Transfer), EscrowError> {
        if caller != employee {
            Err(EscrowError::Unauthorized)
        } else {
            match self.escrow(employee) {
                None => Err(EscrowError::EscrowNotFound),
                Some(escrow) => match escrow.spec_claimed(
                    balance,
                    spec_total_hours(
                        escrow.manual_extra_hours,
                        window_records(register, employee, now),
                    ),
                ) {
                    Ok((next, to_employee, to_fee_wallet)) => Ok(
                        (self.with_escrow(employee, next), to_employee, to_fee_wallet),
                    ),
                    Err(e) => Err(e),
                },
            }
        }
    }

    /// The outcome of `caller` opening a dispute over the escrow of `employee`.
    pub open spec fn open_dispute(self, caller: Address, employee: Address) -> Result<
        EngineState,
        EscrowError,
    > {
        match self.escrow(employee) {
            None => Err(EscrowError::EscrowNotFound),
            Some(escrow) => match escrow.spec_disputed(caller) {
                Ok(next) => Ok(self.with_escrow(employee, next)),
                Err(e) => Err(e),
            },
        }
    }

    /// The outcome of `caller` resolving the dispute over the escrow of
    /// `employee`, with `balance` held.
    pub open spec fn resolve_dispute(
        self,
        caller: Address,
        employee: Address,
        release_to_employee: bool,
        balance: i128,
    ) -> Result<(EngineState, Transfer), EscrowError> {
        match self.escrow(employee) {
            None => Err(EscrowError::EscrowNotFound),
            Some(escrow) => match escrow.spec_resolved(caller, release_to_employee, balance) {
                Ok((next, transfer)) => Ok((self.with_escrow(employee, next), transfer)),
                Err(e) => Err(e),
            },
        }
    }

    /// The outcome of reading the escrow of `employee`.
    pub open spec fn get_escrow(self, employee: Address) -> Result<Escrow, EscrowError> {
        Escrow::spec_found(self.escrow(employee))
    }
}

/// Every escrow of the list is keyed by the employee that it names.
spec fn all_filed(slots: Seq<(Address, Escrow)>) -> bool {
    forall|i: int| 0 <= i < slots.len() ==> (#[trigger] slots[i]).1.employee == slots[i].0
}

/// The escrow settlement engine.
#[derive(Debug)]
pub struct EscrowContract {
    slots: Vec<(Address, Escrow)>,
}

impl View for EscrowContract {
    type V = EngineState;

    closed spec fn view(&self) -> EngineState {
        EngineState { escrows: map_of(self.slots@) }
    }
}

impl Clone for EscrowContract {
    /// A copy of the engine, to fall back on where the transfers of an
    /// operation cannot be carried out.
    fn clone(&self) -> (r: EscrowContract)
        ensures
            r@ == self@,
    {
        proof {
            use_type_invariant(self);
        }
        let mut slots: Vec<(Address, Escrow)> = Vec::new();
        let mut i: usize = 0;
        while i < self.slots.len()
            invariant
                i <= self.slots@.len(),
                slots@ == self.slots@.take(i as int),
            decreases self.slots@.len() - i,
        {
            slots.push(self.slots[i]);
            assert(self.slots@.take(i + 1) =~= self.slots@.take(i as int).push(self.slots@[i as int]));
            i += 1;
        }
        assert(slots@ =~= self.slots@);
        EscrowContract { slots }
    }
}

impl EscrowContract {
    #[verifier::type_invariant]
    spec fn inv(&self) -> bool {
        &&& distinct_keys(self.slots@)
        &&& all_filed(self.slots@)
    }

    /// The type invariant makes the engine well formed.
    proof fn lemma_well_formed(&self)
        requires
            self.inv(),
        ensures
            self@.well_formed(),
    {
        assert forall|employee: Address| #[trigger]
            self@.escrows.dom().contains(employee) implies self@.escrows[employee].employee
            == employee by {
            let i = lemma_value_is_listed(self.slots@, employee);
            assert(self.slots@[i].1.employee == self.slots@[i].0);
        }
    }

    /// Makes the engine that holds no escrow.
    pub fn new() -> (r: EscrowContract)
        ensures
            r@ == EngineState::initial(),
            r@.well_formed(),
    {
        proof {
            lemma_empty::<Address, Escrow>();
        }
        EscrowContract { slots: Vec::new() }
    }

    /// The position keyed by `employee`, if there is one.
    fn find(&self, employee: &Address) -> (r: Option<usize>)
        ensures
            match r {
                Some(i) => holds(self.slots@, i as int, *employee) && self@.escrow(*employee)
                    == Some(self.slots@[i as int].1) && self.slots@[i as int].1.employee
                    == *employee,
                None => lacks(self.slots@, *employee) && self@.escrow(*employee) is None,
            },
            self@.well_formed(),
    {
        proof {
            use_type_invariant(self);
            self.lemma_well_formed();
        }
        let mut i: usize = 0;
        while i < self.slots.len()
            invariant
                i <= self.slots@.len(),
                forall|j: int| 0 <= j < i ==> !holds(self.slots@, j, *employee),
                distinct_keys(self.slots@),
                all_filed(self.slots@),
            decreases self.slots@.len() - i,
        {
            if self.slots[i].0.same(employee) {
                proof {
                    lemma_at(self.slots@, i as int, *employee);
                }
                return Some(i);
            }
            i += 1;
        }
        proof {
            lemma_absent(self.slots@, *employee);
        }
        None
    }

    /// Writes `escrow` under `employee`, at the position found by `find`.
    fn put(&mut self, at: Option<usize>, employee: Address, escrow: Escrow)
        requires
            escrow.employee == employee,
            match at {
                Some(i) => holds(old(self).slots@, i as int, employee),
                None => lacks(old(self).slots@, employee),
            },
        ensures
            final(self)@ == old(self)@.with_escrow(employee, escrow),
            final(self)@.well_formed(),
    {
        proof {
            use_type_invariant(&*self);
        }
        let mut slots: Vec<(Address, Escrow)> = Vec::new();
        core::mem::swap(&mut self.slots, &mut slots);
        match at {
            Some(i) => {
                proof {
                    lemma_replace(slots@, i as int, (employee, escrow));
                }
                slots.set(i, (employee, escrow));
            },
            None => {
                proof {
                    lemma_push(slots@, (employee, escrow));
                }
                slots.push((employee, escrow));
            },
        }
        self.slots = slots;
        proof {
            self.lemma_well_formed();
        }
    }

    /// Creates the escrow of `employee`, active and with no manual hours.
    /// The caller must be `employer`; any other caller fails with
    /// `Unauthorized` and changes nothing. An escrow that `employee` already
    /// has, in whatever state, is overwritten.
    pub fn create_escrow(
        &mut self,
        caller: &Address,
        employer: Address,
        employee: Address,
        attendance_contract: Address,
        dispute_resolver: Address,
        parafiscales_wallet: Address,
        token_contract: Address,
        amount: i128,
        required_hours: u64,
    ) -> (r: Result<(), EscrowError>)
        ensures
            match r {
                Ok(()) => old(self)@.create_escrow(
                    *caller,
                    employer,
                    employee,
                    attendance_contract,
                    dispute_resolver,
                    parafiscales_wallet,
                    token_contract,
                    amount,
                    required_hours,
                ) == Ok::<EngineState, EscrowError>(final(self)@),
                Err(e) => *caller != employer && e == EscrowError::Unauthorized && final(self)@
                    == old(self)@,
            },
            final(self)@.well_formed(),
    {
        proof {
            use_type_invariant(&*self);
            self.lemma_well_formed();
        }
        if !caller.same(&employer) {
            return Err(EscrowError::Unauthorized);
        }
        let escrow = Escrow::new(
            employer,
            employee,
            attendance_contract,
            dispute_resolver,
            parafiscales_wallet,
            token_contract,
            amount,
            required_hours,
        );
        let at = self.find(&employee);
        self.put(at, employee, escrow);
        Ok(())
    }

    /// Credits `hours` by hand to the escrow of `employee`. The caller must
    /// be `employer`; the employer that the escrow names is not consulted.
    /// The failures, in the order in which they are tested: `Unauthorized`,
    /// `EscrowNotFound`, `EscrowNotActive`, and `ArithmeticOverflow` where
    /// the sum leaves the range of `u64`. A failure changes nothing.
    pub fn add_manual_hours(
        &mut self,
        caller: &Address,
        employer: &Address,
        employee: &Address,
        hours: u64,
    ) -> (r: Result<(), EscrowError>)
        ensures
            match r {
                Ok(()) => old(self)@.add_manual_hours(*caller, *employer, *employee, hours) == Ok::<
                    EngineState,
                    EscrowError,
                >(final(self)@),
                Err(e) => old(self)@.add_manual_hours(*caller, *employer, *employee, hours) == Err::<
                    EngineState,
                    EscrowError,
                >(e) && final(self)@ == old(self)@,
            },
            final(self)@.well_formed(),
    {
        proof {
            use_type_invariant(&*self);
            self.lemma_well_formed();
        }
        if !caller.same(employer) {
            return Err(EscrowError::Unauthorized);
        }
        let at = self.find(employee);
        match at {
            None => Err(EscrowError::EscrowNotFound),
            Some(i) => match self.slots[i].1.with_manual_hours(hours) {
                Ok(next) => {
                    self.put(at, *employee, next);
                    Ok(())
                },
                Err(e) => Err(e),
            },
        }
    }

    /// Counts the hours of `employee` at `now`: the hours credited by hand
    /// plus, for each of the thirty days that end today and do not lie
    /// before day zero, the whole hours between check-in and check-out on
    /// record in `attendance`. Fails with `ArithmeticOverflow` where a
    /// record of those days is inverted or the total leaves the range of
    /// `u64`.
    pub fn calculate_hours(
        attendance: &AttendanceContract,
        employee: &Address,
        now: u64,
        manual: u64,
    ) -> (r: Result<u64, EscrowError>)
        ensures
            r == spec_total_hours(manual, window_records(attendance@, *employee, now)),
    {
        let days = window_days(now);
        let mut window: Vec<Option<Attendance>> = Vec::new();
        let mut i: usize = 0;
        while i < days.len()
            invariant
                i <= days@.len(),
                window@.len() == i,
                forall|j: int|
                    0 <= j < i ==> window@[j] == attendance@.record(*employee, days@[j]),
            decreases days@.len() - i,
        {
            window.push(attendance.get_attendance(employee, days[i]));
            i += 1;
        }
        assert(window@ =~= window_records(attendance@, *employee, now));
        total_hours(manual, &window)
    }

    /// Claims the escrow of `employee` at `now`. `balance` is what the
    /// engine holds at the asset ledger of the escrow, and `attendance` is
    /// the register that the escrow names. The caller must be the employee.
    /// The failures, in the order in which they are tested: `Unauthorized`,
    /// `EscrowNotFound`, `EscrowNotActive`, `InsufficientFunds` where the
    /// balance is below the amount, `ArithmeticOverflow` where the hours
    /// cannot be counted, `InsufficientHours` where they are below the
    /// required hours, `ArithmeticOverflow` where the amount is too large to
    /// split. A failure changes nothing. On success the escrow is released
    /// and two transfers are handed back, to the employee and to the fee
    /// wallet, which together move exactly the amount. The caller carries
    /// them out and keeps the new state only if both go through.
    pub fn claim(
        &mut self,
        caller: &Address,
        employee: &Address,
        now: u64,
        balance: i128,
        attendance: &AttendanceContract,
    ) -> (r: Result<(Transfer, Transfer), EscrowError>)
        ensures
            match r {
                Ok((to_employee, to_fee_wallet)) => old(self)@.claim(
                    *caller,
                    *employee,
                    now,
                    balance,
                    attendance@,
                ) == Ok::<(EngineState, Transfer, Transfer), EscrowError>(
                    (final(self)@, to_employee, to_fee_wallet),
                ) && to_employee.amount + to_fee_wallet.amount == old(self)@.escrows[*employee].amount,
                Err(e) => old(self)@.claim(*caller, *employee, now, balance, attendance@) == Err::<
                    (EngineState, Transfer, Transfer),
                    EscrowError,
                >(e) && final(self)@ == old(self)@,
            },
            final(self)@.well_formed(),
    {
        proof {
            use_type_invariant(&*self);
            self.lemma_well_formed();
        }
        if !caller.same(employee) {
            return Err(EscrowError::Unauthorized);
        }
        let at = self.find(employee);
        let escrow = match at {
            None => {
                return Err(EscrowError::EscrowNotFound);
            },
            Some(i) => self.slots[i].1,
        };
        match escrow.claimable(balance) {
            Err(e) => {
                return Err(e);
            },
            Ok(()) => {},
        }
        let total = match Self::calculate_hours(attendance, employee, now, escrow.manual_extra_hours) {
            Err(e) => {
                return Err(e);
            },
            Ok(total) => total,
        };
        match escrow.settled(total) {
            Ok((next, to_employee, to_fee_wallet)) => {
                self.put(at, *employee, next);
                Ok((to_employee, to_fee_wallet))
            },
            Err(e) => Err(e),
        }
    }

    /// Opens a dispute over the escrow of `employee` on behalf of `caller`.
    /// The failures, in the order in which they are tested:
    /// `EscrowNotFound`, `NotAuthorizedParty` unless the caller is the
    /// employer or the employee that the escrow names, `CannotDispute`
    /// unless the escrow is active. A failure changes nothing.
    pub fn open_dispute(&mut self, caller: &Address, employee: &Address) -> (r: Result<
        (),
        EscrowError,
    >)
        ensures
            match r {
                Ok(()) => old(self)@.open_dispute(*caller, *employee) == Ok::<
                    EngineState,
                    EscrowError,
                >(final(self)@),
                Err(e) => old(self)@.open_dispute(*caller, *employee) == Err::<
                    EngineState,
                    EscrowError,
                >(e) && final(self)@ == old(self)@,
            },
            final(self)@.well_formed(),
    {
        let at = self.find(employee);
        match at {
            None => Err(EscrowError::EscrowNotFound),
            Some(i) => match self.slots[i].1.disputed(caller) {
                Ok(next) => {
                    self.put(at, *employee, next);
                    Ok(())
                },
                Err(e) => Err(e),
            },
        }
    }

    /// Resolves the dispute over the escrow of `employee` on behalf of
    /// `caller`. `balance` is what the engine holds at the asset ledger of
    /// the escrow. The failures, in the order in which they are tested:
    /// `EscrowNotFound`, `NotDisputeResolver` unless the caller is the
    /// resolver that the escrow names, `NoActiveDispute` unless the escrow
    /// is disputed, `InsufficientFunds` where the balance is below the
    /// amount. A failure changes nothing. On success the transfer of the
    /// whole amount is handed back: to the employee, with the escrow
    /// released, or to the employer, with the escrow refunded. The caller
    /// carries it out and keeps the new state only if it goes through.
    pub fn resolve_dispute(
        &mut self,
        caller: &Address,
        employee: &Address,
        release_to_employee: bool,
        balance: i128,
    ) -> (r: Result<Transfer, EscrowError>)
        ensures
            match r {
                Ok(transfer) => old(self)@.resolve_dispute(
                    *caller,
                    *employee,
                    release_to_employee,
                    balance,
                ) == Ok::<(EngineState, Transfer), EscrowError>((final(self)@, transfer)),
                Err(e) => old(self)@.resolve_dispute(
                    *caller,
                    *employee,
                    release_to_employee,
                    balance,
                ) == Err::<(EngineState, Transfer), EscrowError>(e) && final(self)@ == old(self)@,
            },
            final(self)@.well_formed(),
    {
        let at = self.find(employee);
        match at {
            None => Err(EscrowError::EscrowNotFound),
            Some(i) => match self.slots[i].1.resolved(caller, release_to_employee, balance) {
                Ok((next, transfer)) => {
                    self.put(at, *employee, next);
                    Ok(transfer)
                },
                Err(e) => Err(e),
            },
        }
    }

    /// The escrow of `employee`, or `EscrowNotFound` where there is none.
    pub fn get_escrow(&self, employee: &Address) -> (r: Result<Escrow, EscrowError>)
        ensures
            r == self@.get_escrow(*employee),
            r matches Ok(escrow) ==> escrow.employee == *employee,
    {
        let record = match self.find(employee) {
            Some(i) => Some(self.slots[i].1),
            None => None,
        };
        Escrow::found(record)
    }
}

} // verus!
