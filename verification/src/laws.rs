//! What holds of the register and of the engine over every state and every
//! sequence of operations, proved from their models.

use vstd::prelude::*;
use crate::address::Address;
use crate::address::Commitment;
use crate::attendance::day_index;
use crate::attendance::Attendance;
use crate::attendance::AttendanceError;
use crate::engine::EngineState;
use crate::error::ErrorKind;
use crate::escrow::employee_share;
use crate::escrow::fee_share;
use crate::escrow::Escrow;
use crate::escrow::EscrowError;
use crate::escrow::EscrowState;
use crate::escrow::Transfer;
use crate::hours::any_inverted;
use crate::hours::credited_hours;
use crate::hours::hours_sum;
use crate::hours::spec_total_hours;
use crate::hours::window_records;
use crate::register::RegisterState;

verus! {

/// A check-in that follows a successful check-in of the same employee on the
/// same day fails with `AlreadyCheckedIn`, whatever its time of day and its
/// commitment. A failed operation has no next state: the register stays as
/// the first check-in left it.
pub proof fn second_check_in_fails(
    register: RegisterState,
    employee: Address,
    first: u64,
    first_nonce: Commitment,
    second: u64,
    second_nonce: Commitment,
)
    requires
        register.check_in(employee, employee, first, first_nonce) is Ok,
        day_index(second) == day_index(first),
    ensures
        register.check_in(employee, employee, first, first_nonce).unwrap().check_in(
            employee,
            employee,
            second,
            second_nonce,
        ) == Err::<RegisterState, AttendanceError>(AttendanceError::AlreadyCheckedIn),
{
}

/// A check-out of a registered employee on a day that has no check-in fails
/// with `NoCheckIn`.
pub proof fn check_out_needs_check_in(
    register: RegisterState,
    employee: Address,
    now: u64,
    nonce: Commitment,
)
    requires
        register.employees.contains(employee),
        register.record(employee, day_index(now)) matches Some(record) ==> record.check_in is None,
    ensures
        register.check_out(employee, employee, now, nonce) == Err::<RegisterState, AttendanceError>(
            AttendanceError::NoCheckIn,
        ),
{
}

/// A check-out that follows a successful check-out of the same employee on
/// the same day fails with `AlreadyCheckedOut`.
pub proof fn second_check_out_fails(
    register: RegisterState,
    employee: Address,
    first: u64,
    first_nonce: Commitment,
    second: u64,
    second_nonce: Commitment,
)
    requires
        register.check_out(employee, employee, first, first_nonce) is Ok,
        day_index(second) == day_index(first),
    ensures
        register.check_out(employee, employee, first, first_nonce).unwrap().check_out(
            employee,
            employee,
            second,
            second_nonce,
        ) == Err::<RegisterState, AttendanceError>(AttendanceError::AlreadyCheckedOut),
{
}

/// The register stays well formed: the initial register is, and so is the
/// outcome of every successful operation on a well-formed register. So a
/// stored record always has its check-in, and a record with no stamp at all
/// is never on file.
pub proof fn register_stays_well_formed(
    register: RegisterState,
    caller: Address,
    employee: Address,
    now: u64,
    nonce: Commitment,
)
    requires
        register.well_formed(),
    ensures
        RegisterState::initial(register.admin).well_formed(),
        register.register_employee(caller, employee) matches Ok(next) ==> next.well_formed(),
        register.check_in(caller, employee, now, nonce) matches Ok(next) ==> next.well_formed(),
        register.check_out(caller, employee, now, nonce) matches Ok(next) ==> next.well_formed(),
{
    let day = day_index(now);
    assert(register.record(employee, day) matches Some(r) ==> r.is_stored()) by {
        if register.records.dom().contains((employee, day)) {
        }
    }
    if let Ok(next) = register.check_in(caller, employee, now, nonce) {
        assert forall|e: Address, d: u64| #[trigger]
            next.records.dom().contains((e, d)) implies next.records[(e, d)].is_stored() by {
            if (e, d) != (employee, day) {
                assert(register.records.dom().contains((e, d)));
            }
        }
    }
    if let Ok(next) = register.check_out(caller, employee, now, nonce) {
        assert forall|e: Address, d: u64| #[trigger]
            next.records.dom().contains((e, d)) implies next.records[(e, d)].is_stored() by {
            if (e, d) != (employee, day) {
                assert(register.records.dom().contains((e, d)));
            }
        }
    }
}

/// The stamps are written once: no successful operation removes a record,
/// changes a check-in that is on record, or changes a check-out that is on
/// record.
pub proof fn stamps_are_written_once(
    register: RegisterState,
    caller: Address,
    employee: Address,
    now: u64,
    nonce: Commitment,
    whose: Address,
    day: u64,
)
    requires
        register.record(whose, day) is Some,
    ensures
        register.register_employee(caller, employee) matches Ok(next) ==> next.record(whose, day)
            == register.record(whose, day),
        register.check_in(caller, employee, now, nonce) matches Ok(next) ==> next.record(whose, day)
            matches Some(after) && kept(register.record(whose, day).unwrap(), after),
        register.check_out(caller, employee, now, nonce) matches Ok(next) ==> next.record(whose, day)
            matches Some(after) && kept(register.record(whose, day).unwrap(), after),
{
}

/// Registration is never revoked, and the registrar never changes: after
/// every successful operation the registrar is who it was and a registered
/// employee is still registered.
pub proof fn registration_is_permanent(
    register: RegisterState,
    caller: Address,
    employee: Address,
    now: u64,
    nonce: Commitment,
    registered: Address,
)
    requires
        register.employees.contains(registered),
    ensures
        register.register_employee(caller, employee) matches Ok(next) ==> next.admin
            == register.admin && next.employees.contains(registered) && next.employees.contains(
            employee,
        ),
        register.check_in(caller, employee, now, nonce) matches Ok(next) ==> next.admin
            == register.admin && next.employees == register.employees,
        register.check_out(caller, employee, now, nonce) matches Ok(next) ==> next.admin
            == register.admin && next.employees == register.employees,
{
}

/// Whether `after` keeps every stamp that `before` has, with its commitment.
pub open spec fn kept(before: Attendance, after: Attendance) -> bool {
    &&& before.check_in is Some ==> after.check_in == before.check_in && after.check_in_nonce
        == before.check_in_nonce
    &&& before.check_out is Some ==> after.check_out == before.check_out && after.check_out_nonce
        == before.check_out_nonce
}

/// A record whose check-out lies `seconds` after its check-in counts for the
/// whole hours in `seconds`: the largest `hours` with
/// `hours * 3600 <= seconds`.
pub proof fn hours_are_whole_hours(record: Attendance, check_in: u64, check_out: u64)
    requires
        record.check_in == Some(check_in),
        record.check_out == Some(check_out),
        check_out >= check_in,
    ensures
        credited_hours(Some(record)) == (check_out - check_in) / 3600,
        credited_hours(Some(record)) * 3600 <= check_out - check_in < (credited_hours(Some(record))
            + 1) * 3600,
{
}

/// A window in which no day has both stamps counts for nothing: the total
/// is the hours credited by hand.
pub proof fn idle_window_counts_manual_hours(manual: u64, window: Seq<Option<Attendance>>)
    requires
        forall|i: int|
            0 <= i < window.len() ==> (#[trigger] window[i] matches Some(record)
                ==> record.check_in is None || record.check_out is None),
    ensures
        spec_total_hours(manual, window) == Ok::<u64, EscrowError>(manual),
{
    idle_window_sums_to_zero(window);
}

/// A window in which no day has both stamps sums to zero and has no
/// inverted record.
proof fn idle_window_sums_to_zero(window: Seq<Option<Attendance>>)
    requires
        forall|i: int|
            0 <= i < window.len() ==> (#[trigger] window[i] matches Some(record)
                ==> record.check_in is None || record.check_out is None),
    ensures
        hours_sum(window) == 0,
        !any_inverted(window),
    decreases window.len(),
{
    if window.len() > 0 {
        let front = window.drop_last();
        assert forall|i: int| 0 <= i < front.len() implies (#[trigger] front[i] matches Some(record)
            ==> record.check_in is None || record.check_out is None) by {
            assert(front[i] == window[i]);
        }
        idle_window_sums_to_zero(front);
        assert(window.last() == window[window.len() - 1]);
    }
}

/// Against a register that holds no record of the employee, a claim counts
/// exactly the hours credited by hand.
pub proof fn unrecorded_employee_counts_manual_hours(
    register: RegisterState,
    employee: Address,
    now: u64,
    manual: u64,
)
    requires
        forall|day: u64| register.record(employee, day) is None,
    ensures
        spec_total_hours(manual, window_records(register, employee, now)) == Ok::<u64, EscrowError>(
            manual,
        ),
{
    idle_window_counts_manual_hours(manual, window_records(register, employee, now));
}

/// The two shares of a claimed amount add up to the amount, whatever the
/// amount: nothing is lost to rounding. The employee's share lies between
/// zero and the amount.
pub proof fn shares_add_up(amount: int)
    ensures
        employee_share(amount) + fee_share(amount) == amount,
        amount >= 0 ==> 0 <= employee_share(amount) <= amount,
        amount <= 0 ==> amount <= employee_share(amount) <= 0,
{
}

/// A settled claim releases the escrow and moves exactly its amount: the
/// employee's share to the employee and the rest to the fee wallet.
pub proof fn settled_claim_moves_the_amount(escrow: Escrow, total_hours: u64)
    requires
        escrow.spec_settled(total_hours) is Ok,
    ensures
        ({
            let (next, to_employee, to_fee_wallet) = escrow.spec_settled(total_hours).unwrap();
            &&& next == (Escrow { state: EscrowState::Released, ..escrow })
            &&& to_employee.to == escrow.employee
            &&& to_fee_wallet.to == escrow.parafiscales_wallet
            &&& to_employee.amount == employee_share(escrow.amount as int)
            &&& to_fee_wallet.amount == fee_share(escrow.amount as int)
            &&& to_employee.amount + to_fee_wallet.amount == escrow.amount
        }),
{
    shares_add_up(escrow.amount as int);
}

/// An active, funded escrow whose amount can be split is claimed exactly
/// when the hours counted reach the required hours; below them the claim
/// fails with `InsufficientHours`.
pub proof fn claim_succeeds_from_required_hours(escrow: Escrow, balance: i128, total_hours: u64)
    requires
        escrow.state == EscrowState::Active,
        balance >= escrow.amount,
        i128::MIN <= escrow.amount * 95 <= i128::MAX,
    ensures
        escrow.spec_claimed(balance, Ok(total_hours)) is Ok <==> total_hours
            >= escrow.required_hours,
        total_hours < escrow.required_hours ==> escrow.spec_claimed(balance, Ok(total_hours))
            == Err::<(Escrow, Transfer, Transfer), EscrowError>(
            EscrowError::InsufficientHours,
        ),
{
}

/// A dispute is resolved only while the escrow is disputed, and only by the
/// resolver that the escrow names. On an escrow in any other state the
/// resolver fails with `NoActiveDispute`.
pub proof fn resolve_needs_open_dispute(
    engine: EngineState,
    caller: Address,
    employee: Address,
    release_to_employee: bool,
    balance: i128,
)
    ensures
        engine.resolve_dispute(caller, employee, release_to_employee, balance) is Ok ==> (
        engine.escrow(employee) matches Some(escrow) && escrow.state == EscrowState::Disputed
            && caller == escrow.dispute_resolver),
        engine.escrow(employee) matches Some(escrow) && escrow.state != EscrowState::Disputed
            && caller == escrow.dispute_resolver ==> engine.resolve_dispute(
            caller,
            employee,
            release_to_employee,
            balance,
        ) == Err::<(EngineState, Transfer), EscrowError>(
            EscrowError::NoActiveDispute,
        ),
{
}

/// Once a dispute has been opened, a second attempt by the employer or the
/// employee fails with `CannotDispute`.
pub proof fn second_open_dispute_fails(
    engine: EngineState,
    first_caller: Address,
    second_caller: Address,
    employee: Address,
)
    requires
        engine.open_dispute(first_caller, employee) is Ok,
        second_caller == engine.escrows[employee].employer || second_caller
            == engine.escrows[employee].employee,
    ensures
        engine.open_dispute(first_caller, employee).unwrap().open_dispute(second_caller, employee)
            == Err::<EngineState, EscrowError>(EscrowError::CannotDispute),
{
}

/// A final state is permanent: on an escrow that is released or refunded,
/// crediting hours, claiming, opening a dispute and resolving one all fail,
/// whoever calls and whatever the arguments, so the record stays as it is.
/// Only creating a new escrow for the employee replaces it.
pub proof fn terminal_escrow_is_permanent(
    engine: EngineState,
    caller: Address,
    employer: Address,
    employee: Address,
    hours: u64,
    now: u64,
    balance: i128,
    register: RegisterState,
    release_to_employee: bool,
)
    requires
        engine.escrow(employee) matches Some(escrow) && escrow.state.is_terminal(),
    ensures
        engine.add_manual_hours(caller, employer, employee, hours) is Err,
        engine.claim(caller, employee, now, balance, register) is Err,
        engine.open_dispute(caller, employee) is Err,
        engine.resolve_dispute(caller, employee, release_to_employee, balance) is Err,
{
}

/// On an escrow that is released or refunded, each operation fails as an
/// invalid state when it is called by the principal that it asks for: the
/// employer that credits hours, the employee who claims, a party that opens
/// a dispute, the resolver who resolves one.
pub proof fn terminal_escrow_rejects_as_invalid_state(
    engine: EngineState,
    employer: Address,
    employee: Address,
    party: Address,
    hours: u64,
    now: u64,
    balance: i128,
    register: RegisterState,
    release_to_employee: bool,
)
    requires
        engine.escrow(employee) matches Some(escrow) && escrow.state.is_terminal() && (party
            == escrow.employer || party == escrow.employee),
    ensures
        engine.add_manual_hours(employer, employer, employee, hours) matches Err(e) && e.spec_kind()
            == ErrorKind::InvalidState,
        engine.claim(employee, employee, now, balance, register) matches Err(e) && e.spec_kind()
            == ErrorKind::InvalidState,
        engine.open_dispute(party, employee) matches Err(e) && e.spec_kind()
            == ErrorKind::InvalidState,
        engine.resolve_dispute(
            engine.escrows[employee].dispute_resolver,
            employee,
            release_to_employee,
            balance,
        ) matches Err(e) && e.spec_kind() == ErrorKind::InvalidState,
{
}

/// The engine stays well formed: the empty engine is, and so is the outcome
/// of every successful operation on a well-formed engine. So the escrow
/// that an employee's key leads to always names that employee.
pub proof fn engine_stays_well_formed(
    engine: EngineState,
    caller: Address,
    employer: Address,
    employee: Address,
    attendance_contract: Address,
    dispute_resolver: Address,
    parafiscales_wallet: Address,
    token_contract: Address,
    amount: i128,
    required_hours: u64,
    hours: u64,
    now: u64,
    balance: i128,
    register: RegisterState,
    release_to_employee: bool,
)
    requires
        engine.well_formed(),
    ensures
        EngineState::initial().well_formed(),
        engine.create_escrow(
            caller,
            employer,
            employee,
            attendance_contract,
            dispute_resolver,
            parafiscales_wallet,
            token_contract,
            amount,
            required_hours,
        ) matches Ok(next) ==> next.well_formed(),
        engine.add_manual_hours(caller, employer, employee, hours) matches Ok(next)
            ==> next.well_formed(),
        engine.claim(caller, employee, now, balance, register) matches Ok((next, _, _))
            ==> next.well_formed(),
        engine.open_dispute(caller, employee) matches Ok(next) ==> next.well_formed(),
        engine.resolve_dispute(caller, employee, release_to_employee, balance) matches Ok(
            (next, _),
        ) ==> next.well_formed(),
{
    assert(engine.escrows.dom().contains(employee) ==> engine.escrows[employee].employee
        == employee);
}

/// Whether `after` is `before` one step on: the parties, the references,
/// the amount and the required hours are the same; the state is the same or
/// one step along the lifecycle; and the manual hours have not shrunk, and
/// have changed only in an escrow that was and stays active.
pub open spec fn follows(before: Escrow, after: Escrow) -> bool {
    &&& after == (Escrow {
        manual_extra_hours: after.manual_extra_hours,
        state: after.state,
        ..before
    })
    &&& after.state == before.state || before.state.may_become(after.state)
    &&& after.manual_extra_hours >= before.manual_extra_hours
    &&& after.manual_extra_hours != before.manual_extra_hours ==> before.state
        == EscrowState::Active && after.state == EscrowState::Active
}

/// Every successful operation on an existing escrow moves it one step on
/// and leaves the escrows of all other employees as they were.
pub proof fn operations_follow_the_lifecycle(
    engine: EngineState,
    caller: Address,
    employer: Address,
    employee: Address,
    hours: u64,
    now: u64,
    balance: i128,
    register: RegisterState,
    release_to_employee: bool,
    other: Address,
)
    requires
        other != employee,
    ensures
        engine.add_manual_hours(caller, employer, employee, hours) matches Ok(next) ==> follows(
            engine.escrows[employee],
            next.escrows[employee],
        ) && next.escrow(other) == engine.escrow(other),
        engine.claim(caller, employee, now, balance, register) matches Ok((next, _, _)) ==> follows(
            engine.escrows[employee],
            next.escrows[employee],
        ) && next.escrow(other) == engine.escrow(other),
        engine.open_dispute(caller, employee) matches Ok(next) ==> follows(
            engine.escrows[employee],
            next.escrows[employee],
        ) && next.escrow(other) == engine.escrow(other),
        engine.resolve_dispute(caller, employee, release_to_employee, balance) matches Ok(
            (next, _),
        ) ==> follows(engine.escrows[employee], next.escrows[employee]) && next.escrow(other)
            == engine.escrow(other),
{
}

} // verus!
