//! The attendance register: who is registered, and what each employee has
//! stamped on each day.

use vstd::prelude::*;
use crate::address::Address;
use crate::address::Commitment;
use crate::attendance::day_index;
use crate::attendance::day_of;
use crate::attendance::Attendance;
use crate::attendance::AttendanceError;
use crate::attendance::AttendanceEvent;
use crate::attendance::Stamp;
use crate::keyed::distinct_keys;
use crate::keyed::holds;
use crate::keyed::lacks;
use crate::keyed::lemma_absent;
use crate::keyed::lemma_at;
use crate::keyed::lemma_empty;
use crate::keyed::lemma_push;
use crate::keyed::lemma_replace;
use crate::keyed::lemma_value_is_listed;
use crate::keyed::map_of;

verus! {

/// The register as a mathematical value.
pub struct RegisterState {
    /// The registrar, fixed when the register is made.
    pub admin: Address,
    /// The registered employees.
    pub employees: Set<Address>,
    /// The record of each employee and day that has one.
    pub records: Map<(Address, u64), Attendance>,
}

impl RegisterState {
    /// The register of `admin` with nobody registered and nothing recorded.
    pub open spec fn initial(admin: Address) -> RegisterState {
        RegisterState { admin, employees: Set::empty(), records: Map::empty() }
    }

    /// What is on record for `employee` on `day`, if anything.
    pub open spec fn record(self, employee: Address, day: u64) -> Option<Attendance> {
        if self.records.dom().contains((employee, day)) {
            Some(self.records[(employee, day)])
        } else {
            None
        }
    }

    /// Every record on file has a check-in, and each stamp has its commitment.
    pub open spec fn well_formed(self) -> bool {
        forall|employee: Address, day: u64| #[trigger]
            self.records.dom().contains((employee, day)) ==> self.records[(
                employee,
                day,
            )].is_stored()
    }

    /// The outcome of registering `employee` on behalf of `caller`.
    pub open spec fn register_employee(self, caller: Address, employee: Address) -> Result<
        RegisterState,
        AttendanceError,
    > {
        if caller != self.admin {
            Err(AttendanceError::Unauthorized)
        } else {
            Ok(RegisterState { employees: self.employees.insert(employee), ..self })
        }
    }

    /// The outcome of a check-in of `employee` at `now` on behalf of `caller`.
    pub open spec fn check_in(
        self,
        caller: Address,
        employee: Address,
        now: u64,
        nonce: Commitment,
    ) -> Result<RegisterState, AttendanceError> {
        let day = day_index(now);
        if caller != employee {
            Err(AttendanceError::Unauthorized)
        } else {
            match Attendance::spec_with_check_in(
                self.employees.contains(employee),
                self.record(employee, day),
                now,
                nonce,
            ) {
                Ok(record) => Ok(
                    RegisterState { records: self.records.insert((employee, day), record), ..self },
                ),
                Err(e) => Err(e),
            }
        }
    }

    /// The outcome of a check-out of `employee` at `now` on behalf of `caller`.
    pub open spec fn check_out(
        self,
        caller: Address,
        employee: Address,
        now: u64,
        nonce: Commitment,
    ) -> Result<RegisterState, AttendanceError> {
        let day = day_index(now);
        if caller != employee {
            Err(AttendanceError::Unauthorized)
        } else {
            match Attendance::spec_with_check_out(
                self.employees.contains(employee),
                self.record(employee, day),
                now,
                nonce,
            ) {
                Ok(record) => Ok(
                    RegisterState { records: self.records.insert((employee, day), record), ..self },
                ),
                Err(e) => Err(e),
            }
        }
    }
}

/// No employee has two positions.
spec fn distinct_employees(employees: Seq<Address>) -> bool {
    forall|i: int, j: int|
        #![trigger employees[i], employees[j]]
        0 <= i < j < employees.len() ==> employees[i] != employees[j]
}

/// Every record of the list is fit to be stored.
spec fn all_stored(entries: Seq<((Address, u64), Attendance)>) -> bool {
    forall|i: int| 0 <= i < entries.len() ==> (#[trigger] entries[i]).1.is_stored()
}

/// The attendance register.
#[derive(Debug)]
pub struct AttendanceContract {
    admin: Address,
    employees: Vec<Address>,
    entries: Vec<((Address, u64), Attendance)>,
}

impl View for AttendanceContract {
    type V = RegisterState;

    closed spec fn view(&self) -> RegisterState {
        RegisterState {
            admin: self.admin,
            employees: Set::new(|a: Address| self.employees@.contains(a)),
            records: map_of(self.entries@),
        }
    }
}

impl Clone for AttendanceContract {
    /// A copy of the register.
    fn clone(&self) -> (r: AttendanceContract)
        ensures
            r@ == self@,
    {
        proof {
            use_type_invariant(self);
        }
        let mut employees: Vec<Address> = Vec::new();
        let mut i: usize = 0;
        while i < self.employees.len()
            invariant
                i <= self.employees@.len(),
                employees@ == self.employees@.take(i as int),
            decreases self.employees@.len() - i,
        {
            employees.push(self.employees[i]);
            assert(self.employees@.take(i + 1) =~= self.employees@.take(i as int).push(
                self.employees@[i as int],
            ));
            i += 1;
        }
        assert(employees@ =~= self.employees@);
        let mut entries: Vec<((Address, u64), Attendance)> = Vec::new();
        let mut j: usize = 0;
        while j < self.entries.len()
            invariant
                j <= self.entries@.len(),
                entries@ == self.entries@.take(j as int),
            decreases self.entries@.len() - j,
        {
            entries.push(self.entries[j]);
            assert(self.entries@.take(j + 1) =~= self.entries@.take(j as int).push(
                self.entries@[j as int],
            ));
            j += 1;
        }
        assert(entries@ =~= self.entries@);
        AttendanceContract { admin: self.admin, employees, entries }
    }
}

impl AttendanceContract {
    #[verifier::type_invariant]
    spec fn inv(&self) -> bool {
        &&& distinct_employees(self.employees@)
        &&& distinct_keys(self.entries@)
        &&& all_stored(self.entries@)
    }

    /// The type invariant makes the register well formed.
    proof fn lemma_well_formed(&self)
        requires
            self.inv(),
        ensures
            self@.well_formed(),
    {
        assert forall|employee: Address, day: u64| #[trigger]
            self@.records.dom().contains((employee, day)) implies self@.records[(
            employee,
            day,
        )].is_stored() by {
            let i = lemma_value_is_listed(self.entries@, (employee, day));
            assert(self.entries@[i].1.is_stored());
        }
    }

    /// The position of the record of `employee` on `day`, if there is one,
    /// and the record itself.
    fn find(&self, employee: &Address, day: u64) -> (r: (Option<usize>, Option<Attendance>))
        ensures
            match r.0 {
                Some(i) => holds(self.entries@, i as int, (*employee, day)),
                None => lacks(self.entries@, (*employee, day)),
            },
            r.1 == self@.record(*employee, day),
            r.1 matches Some(record) ==> record.is_stored(),
    {
        proof {
            use_type_invariant(self);
        }
        let mut i: usize = 0;
        while i < self.entries.len()
            invariant
                i <= self.entries@.len(),
                forall|j: int| 0 <= j < i ==> !holds(self.entries@, j, (*employee, day)),
                distinct_keys(self.entries@),
                all_stored(self.entries@),
            decreases self.entries@.len() - i,
        {
            let (key, record) = self.entries[i];
            if key.1 == day && key.0.same(employee) {
                proof {
                    lemma_at(self.entries@, i as int, (*employee, day));
                }
                return (Some(i), Some(record));
            }
            i += 1;
        }
        proof {
            lemma_absent(self.entries@, (*employee, day));
        }
        (None, None)
    }

    /// Writes `record` under its key, at the position found by `find`.
    fn put(&mut self, at: Option<usize>, employee: Address, day: u64, record: Attendance)
        requires
            record.is_stored(),
            match at {
                Some(i) => holds(old(self).entries@, i as int, (employee, day)),
                None => lacks(old(self).entries@, (employee, day)),
            },
        ensures
            final(self)@ == (RegisterState {
                records: old(self)@.records.insert((employee, day), record),
                ..old(self)@
            }),
            final(self)@.well_formed(),
    {
        proof {
            use_type_invariant(&*self);
        }
        let slot = ((employee, day), record);
        let mut entries: Vec<((Address, u64), Attendance)> = Vec::new();
        core::mem::swap(&mut self.entries, &mut entries);
        match at {
            Some(i) => {
                proof {
                    lemma_replace(entries@, i as int, slot);
                }
                entries.set(i, slot);
            },
            None => {
                proof {
                    lemma_push(entries@, slot);
                }
                entries.push(slot);
            },
        }
        self.entries = entries;
        proof {
            self.lemma_well_formed();
        }
    }

    /// Whether `employee` is registered.
    pub fn is_registered(&self, employee: &Address) -> (r: bool)
        ensures
            r == self@.employees.contains(*employee),
    {
        let mut i: usize = 0;
        while i < self.employees.len()
            invariant
                i <= self.employees@.len(),
                forall|j: int| 0 <= j < i ==> self.employees@[j] != *employee,
            decreases self.employees@.len() - i,
        {
            if self.employees[i].same(employee) {
                return true;
            }
            i += 1;
        }
        false
    }

    /// The registrar.
    pub fn admin(&self) -> (r: Address)
        ensures
            r == self@.admin,
    {
        self.admin
    }

    /// Makes the register of `admin`, with nobody registered and nothing
    /// recorded. The caller must be `admin` itself; any other caller fails
    /// with `Unauthorized`.
    pub fn init(caller: &Address, admin: Address) -> (r: Result<AttendanceContract, AttendanceError>)
        ensures
            match r {
                Ok(register) => *caller == admin && register@ == RegisterState::initial(admin)
                    && register@.well_formed(),
                Err(e) => *caller != admin && e == AttendanceError::Unauthorized,
            },
    {
        if !caller.same(&admin) {
            return Err(AttendanceError::Unauthorized);
        }
        let register = AttendanceContract { admin, employees: Vec::new(), entries: Vec::new() };
        proof {
            lemma_empty::<(Address, u64), Attendance>();
            assert(register@.employees =~= Set::empty());
        }
        Ok(register)
    }

    /// Registers `employee`. The caller must be the registrar; any other
    /// caller fails with `Unauthorized` and changes nothing. Registering an
    /// employee again succeeds and changes nothing.
    pub fn register_employee(&mut self, caller: &Address, employee: Address) -> (r: Result<
        (),
        AttendanceError,
    >)
        ensures
            match r {
                Ok(()) => old(self)@.register_employee(*caller, employee) == Ok::<
                    RegisterState,
                    AttendanceError,
                >(final(self)@),
                Err(e) => old(self)@.register_employee(*caller, employee) == Err::<
                    RegisterState,
                    AttendanceError,
                >(e) && final(self)@ == old(self)@,
            },
            final(self)@.well_formed(),
    {
        proof {
            use_type_invariant(&*self);
            self.lemma_well_formed();
        }
        if !caller.same(&self.admin) {
            return Err(AttendanceError::Unauthorized);
        }
        if !self.is_registered(&employee) {
            let ghost before = self.employees@;
            let mut employees: Vec<Address> = Vec::new();
            core::mem::swap(&mut self.employees, &mut employees);
            employees.push(employee);
            proof {
                assert forall|i: int, j: int| 0 <= i < j < employees@.len() implies employees@[i]
                    != employees@[j] by {
                    if j < before.len() {
                        assert(before[i] != before[j]);
                    } else {
                        assert(before.contains(before[i]));
                    }
                }
            }
            self.employees = employees;
            proof {
                assert forall|a: Address| self@.employees.contains(a) <==> old(
                    self,
                )@.employees.insert(employee).contains(a) by {
                    if before.contains(a) {
                        let i = choose|i: int| 0 <= i < before.len() && before[i] == a;
                        assert(self.employees@[i] == a);
                    }
                    if a == employee {
                        assert(self.employees@[before.len() as int] == a);
                    }
                }
            }
        }
        assert(self@.employees =~= old(self)@.employees.insert(employee));
        Ok(())
    }

    /// What is on record for `employee` on `day`: `None` where nothing has
    /// been stamped, which no stored record can be mistaken for, since every
    /// stored record has its check-in.
    pub fn get_attendance(&self, employee: &Address, day: u64) -> (r: Option<Attendance>)
        ensures
            r == self@.record(*employee, day),
            r matches Some(record) ==> record.is_stored(),
    {
        self.find(employee, day).1
    }

    /// Records the check-in of `employee` at `now`, on the day that `now`
    /// falls on. The caller must be the employee; the employee must be
    /// registered; the day must have no check-in yet. The failures, in the
    /// order in which they are tested: `Unauthorized`, `NotRegistered`,
    /// `AlreadyCheckedIn`. A failure changes nothing. On success the record
    /// of the day holds the timestamp and the commitment, and the
    /// notification to publish is handed back.
    pub fn check_in(
        &mut self,
        caller: &Address,
        employee: &Address,
        now: u64,
        nonce_hash: Commitment,
    ) -> (r: Result<AttendanceEvent, AttendanceError>)
        ensures
            match r {
                Ok(event) => old(self)@.check_in(*caller, *employee, now, nonce_hash) == Ok::<
                    RegisterState,
                    AttendanceError,
                >(final(self)@) && event == (AttendanceEvent {
                    stamp: Stamp::CheckIn,
                    employee: *employee,
                    day: day_index(now),
                    timestamp: now,
                }),
                Err(e) => old(self)@.check_in(*caller, *employee, now, nonce_hash) == Err::<
                    RegisterState,
                    AttendanceError,
                >(e) && final(self)@ == old(self)@,
            },
            final(self)@.well_formed(),
    {
        proof {
            use_type_invariant(&*self);
            self.lemma_well_formed();
        }
        if !caller.same(employee) {
            return Err(AttendanceError::Unauthorized);
        }
        let registered = self.is_registered(employee);
        let day = day_of(now);
        let (at, prior) = self.find(employee, day);
        match Attendance::with_check_in(registered, prior, now, nonce_hash) {
            Ok(record) => {
                self.put(at, *employee, day, record);
                Ok(AttendanceEvent::of(Stamp::CheckIn, *employee, now))
            },
            Err(e) => Err(e),
        }
    }

    /// Records the check-out of `employee` at `now`, on the day that `now`
    /// falls on. The caller must be the employee; the employee must be
    /// registered; the day must have a check-in and no check-out yet. The
    /// failures, in the order in which they are tested: `Unauthorized`,
    /// `NotRegistered`, `NoCheckIn`, `AlreadyCheckedOut`. A failure changes
    /// nothing. On success the record of the day holds the timestamp and the
    /// commitment beside its check-in, and the notification to publish is
    /// handed back.
    pub fn check_out(
        &mut self,
        caller: &Address,
        employee: &Address,
        now: u64,
        nonce_hash: Commitment,
    ) -> (r: Result<AttendanceEvent, AttendanceError>)
        ensures
            match r {
                Ok(event) => old(self)@.check_out(*caller, *employee, now, nonce_hash) == Ok::<
                    RegisterState,
                    AttendanceError,
                >(final(self)@) && event == (AttendanceEvent {
                    stamp: Stamp::CheckOut,
                    employee: *employee,
                    day: day_index(now),
                    timestamp: now,
                }),
                Err(e) => old(self)@.check_out(*caller, *employee, now, nonce_hash) == Err::<
                    RegisterState,
                    AttendanceError,
                >(e) && final(self)@ == old(self)@,
            },
            final(self)@.well_formed(),
    {
        proof {
            use_type_invariant(&*self);
            self.lemma_well_formed();
        }
        if !caller.same(employee) {
            return Err(AttendanceError::Unauthorized);
        }
        let registered = self.is_registered(employee);
        let day = day_of(now);
        let (at, prior) = self.find(employee, day);
        match Attendance::with_check_out(registered, prior, now, nonce_hash) {
            Ok(record) => {
                self.put(at, *employee, day, record);
                Ok(AttendanceEvent::of(Stamp::CheckOut, *employee, now))
            },
            Err(e) => Err(e),
        }
    }
}

} // verus!
