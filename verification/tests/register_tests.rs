use attendance_escrow::address::{Address, AddressKind};
use attendance_escrow::attendance::{day_of, Attendance, AttendanceError, AttendanceEvent, Stamp};
use attendance_escrow::error::ErrorKind;
use attendance_escrow::register::AttendanceContract;

const DAY: u64 = 86400;

fn admin() -> Address {
    Address::account([1u8; 32])
}

fn alice() -> Address {
    Address::account([2u8; 32])
}

fn bob() -> Address {
    Address::account([3u8; 32])
}

fn register_with_alice() -> AttendanceContract {
    let mut register = AttendanceContract::init(&admin(), admin()).unwrap();
    register.register_employee(&admin(), alice()).unwrap();
    register
}

#[test]
fn address_constructors_set_kind_and_key() {
    let a = Address::account([7u8; 32]);
    assert_eq!(a.kind, AddressKind::Account);
    assert_eq!(a.key, [7u8; 32]);
    let c = Address::contract([7u8; 32]);
    assert_eq!(c.kind, AddressKind::Contract);
    assert_eq!(c.key, [7u8; 32]);
}

#[test]
fn same_compares_kind_and_every_byte() {
    let a = Address::account([7u8; 32]);
    assert!(a.same(&Address::account([7u8; 32])));
    assert!(!a.same(&Address::contract([7u8; 32])));
    let mut key = [7u8; 32];
    key[31] = 8;
    assert!(!a.same(&Address::account(key)));
    let mut key = [7u8; 32];
    key[0] = 8;
    assert!(!a.same(&Address::account(key)));
}

#[test]
fn day_of_is_floor_of_timestamp_over_day_length() {
    assert_eq!(day_of(0), 0);
    assert_eq!(day_of(86399), 0);
    assert_eq!(day_of(86400), 1);
    assert_eq!(day_of(20_000 * DAY + 5), 20_000);
    assert_eq!(day_of(u64::MAX), u64::MAX / 86400);
}

#[test]
fn init_by_the_admin_gives_an_empty_register() {
    let register = AttendanceContract::init(&admin(), admin()).unwrap();
    assert_eq!(register.admin(), admin());
    assert!(!register.is_registered(&alice()));
    assert_eq!(register.get_attendance(&alice(), 0), None);
}

#[test]
fn init_by_another_caller_is_unauthorized() {
    let r = AttendanceContract::init(&alice(), admin());
    assert_eq!(r.unwrap_err(), AttendanceError::Unauthorized);
}

#[test]
fn register_employee_by_the_admin_registers() {
    let mut register = AttendanceContract::init(&admin(), admin()).unwrap();
    assert_eq!(register.register_employee(&admin(), alice()), Ok(()));
    assert!(register.is_registered(&alice()));
    assert!(!register.is_registered(&bob()));
}

#[test]
fn register_employee_by_another_caller_is_unauthorized() {
    let mut register = AttendanceContract::init(&admin(), admin()).unwrap();
    assert_eq!(register.register_employee(&alice(), alice()), Err(AttendanceError::Unauthorized));
    assert!(!register.is_registered(&alice()));
}

#[test]
fn register_employee_twice_is_no_error() {
    let mut register = register_with_alice();
    assert_eq!(register.register_employee(&admin(), alice()), Ok(()));
    assert!(register.is_registered(&alice()));
    assert_eq!(register.check_in(&alice(), &alice(), 10, [9u8; 32]).map(|e| e.day), Ok(0));
}

#[test]
fn check_in_records_timestamp_and_commitment() {
    let mut register = register_with_alice();
    let now = 3 * DAY + 100;
    let event = register.check_in(&alice(), &alice(), now, [9u8; 32]).unwrap();
    assert_eq!(
        event,
        AttendanceEvent { stamp: Stamp::CheckIn, employee: alice(), day: 3, timestamp: now }
    );
    assert_eq!(
        register.get_attendance(&alice(), 3),
        Some(Attendance {
            check_in: Some(now),
            check_out: None,
            check_in_nonce: Some([9u8; 32]),
            check_out_nonce: None,
        })
    );
}

#[test]
fn check_in_by_another_caller_is_unauthorized() {
    let mut register = register_with_alice();
    assert_eq!(
        register.check_in(&bob(), &alice(), 100, [9u8; 32]),
        Err(AttendanceError::Unauthorized)
    );
    assert_eq!(register.get_attendance(&alice(), 0), None);
}

#[test]
fn check_in_of_an_unregistered_employee_fails() {
    let mut register = register_with_alice();
    assert_eq!(
        register.check_in(&bob(), &bob(), 100, [9u8; 32]),
        Err(AttendanceError::NotRegistered)
    );
    assert_eq!(register.get_attendance(&bob(), 0), None);
}

#[test]
fn second_check_in_on_the_same_day_fails_and_changes_nothing() {
    let mut register = register_with_alice();
    register.check_in(&alice(), &alice(), 5 * DAY, [9u8; 32]).unwrap();
    let before = register.get_attendance(&alice(), 5);
    assert_eq!(
        register.check_in(&alice(), &alice(), 5 * DAY + 86399, [8u8; 32]),
        Err(AttendanceError::AlreadyCheckedIn)
    );
    assert_eq!(register.get_attendance(&alice(), 5), before);
    assert_eq!(before.unwrap().check_in, Some(5 * DAY));
    assert_eq!(before.unwrap().check_in_nonce, Some([9u8; 32]));
}

#[test]
fn check_in_on_the_next_day_starts_a_new_record() {
    let mut register = register_with_alice();
    register.check_in(&alice(), &alice(), 5 * DAY + 86399, [9u8; 32]).unwrap();
    let event = register.check_in(&alice(), &alice(), 6 * DAY, [8u8; 32]).unwrap();
    assert_eq!(event.day, 6);
    assert_eq!(register.get_attendance(&alice(), 5).unwrap().check_in, Some(5 * DAY + 86399));
    assert_eq!(register.get_attendance(&alice(), 6).unwrap().check_in, Some(6 * DAY));
}

#[test]
fn check_out_before_check_in_fails_with_no_check_in() {
    let mut register = register_with_alice();
    assert_eq!(
        register.check_out(&alice(), &alice(), 100, [9u8; 32]),
        Err(AttendanceError::NoCheckIn)
    );
    assert_eq!(register.get_attendance(&alice(), 0), None);
}

#[test]
fn check_out_on_a_day_after_the_check_in_fails_with_no_check_in() {
    let mut register = register_with_alice();
    register.check_in(&alice(), &alice(), 100, [9u8; 32]).unwrap();
    assert_eq!(
        register.check_out(&alice(), &alice(), DAY + 100, [9u8; 32]),
        Err(AttendanceError::NoCheckIn)
    );
}

#[test]
fn check_out_completes_the_record() {
    let mut register = register_with_alice();
    register.check_in(&alice(), &alice(), 2 * DAY + 10, [9u8; 32]).unwrap();
    let event = register.check_out(&alice(), &alice(), 2 * DAY + 7210, [8u8; 32]).unwrap();
    assert_eq!(
        event,
        AttendanceEvent {
            stamp: Stamp::CheckOut,
            employee: alice(),
            day: 2,
            timestamp: 2 * DAY + 7210
        }
    );
    assert_eq!(
        register.get_attendance(&alice(), 2),
        Some(Attendance {
            check_in: Some(2 * DAY + 10),
            check_out: Some(2 * DAY + 7210),
            check_in_nonce: Some([9u8; 32]),
            check_out_nonce: Some([8u8; 32]),
        })
    );
}

#[test]
fn second_check_out_fails_and_changes_nothing() {
    let mut register = register_with_alice();
    register.check_in(&alice(), &alice(), 10, [9u8; 32]).unwrap();
    register.check_out(&alice(), &alice(), 20, [8u8; 32]).unwrap();
    let before = register.get_attendance(&alice(), 0);
    assert_eq!(
        register.check_out(&alice(), &alice(), 30, [7u8; 32]),
        Err(AttendanceError::AlreadyCheckedOut)
    );
    assert_eq!(register.get_attendance(&alice(), 0), before);
}

#[test]
fn check_out_by_another_caller_is_unauthorized() {
    let mut register = register_with_alice();
    register.check_in(&alice(), &alice(), 10, [9u8; 32]).unwrap();
    assert_eq!(
        register.check_out(&admin(), &alice(), 20, [8u8; 32]),
        Err(AttendanceError::Unauthorized)
    );
    assert_eq!(register.get_attendance(&alice(), 0).unwrap().check_out, None);
}

#[test]
fn check_out_of_an_unregistered_employee_fails() {
    let mut register = register_with_alice();
    assert_eq!(
        register.check_out(&bob(), &bob(), 20, [8u8; 32]),
        Err(AttendanceError::NotRegistered)
    );
}

#[test]
fn absent_record_is_none_and_not_a_blank_record() {
    let register = register_with_alice();
    let absent = register.get_attendance(&alice(), 4);
    assert_eq!(absent, None);
    assert_ne!(absent, Some(Attendance::blank()));
}

#[test]
fn records_of_two_employees_are_kept_apart() {
    let mut register = register_with_alice();
    register.register_employee(&admin(), bob()).unwrap();
    register.check_in(&alice(), &alice(), 10, [9u8; 32]).unwrap();
    register.check_in(&bob(), &bob(), 20, [8u8; 32]).unwrap();
    register.check_out(&bob(), &bob(), 30, [7u8; 32]).unwrap();
    assert_eq!(register.get_attendance(&alice(), 0).unwrap().check_in, Some(10));
    assert_eq!(register.get_attendance(&alice(), 0).unwrap().check_out, None);
    assert_eq!(register.get_attendance(&bob(), 0).unwrap().check_in, Some(20));
    assert_eq!(register.get_attendance(&bob(), 0).unwrap().check_out, Some(30));
}

#[test]
fn clone_of_a_register_holds_the_same_records() {
    let mut register = register_with_alice();
    register.check_in(&alice(), &alice(), 10, [9u8; 32]).unwrap();
    let copy = register.clone();
    register.check_out(&alice(), &alice(), 20, [8u8; 32]).unwrap();
    assert_eq!(copy.admin(), admin());
    assert!(copy.is_registered(&alice()));
    assert_eq!(copy.get_attendance(&alice(), 0).unwrap().check_in, Some(10));
    assert_eq!(copy.get_attendance(&alice(), 0).unwrap().check_out, None);
}

#[test]
fn blank_record_has_no_stamp() {
    assert_eq!(
        Attendance::blank(),
        Attendance { check_in: None, check_out: None, check_in_nonce: None, check_out_nonce: None }
    );
}

#[test]
fn with_check_in_fills_a_missing_record() {
    let r = Attendance::with_check_in(true, None, 77, [1u8; 32]).unwrap();
    assert_eq!(r.check_in, Some(77));
    assert_eq!(r.check_in_nonce, Some([1u8; 32]));
    assert_eq!(r.check_out, None);
    assert_eq!(r.check_out_nonce, None);
}

#[test]
fn with_check_in_refuses_a_second_stamp() {
    let r = Attendance::with_check_in(true, None, 77, [1u8; 32]).unwrap();
    assert_eq!(
        Attendance::with_check_in(true, Some(r), 78, [2u8; 32]),
        Err(AttendanceError::AlreadyCheckedIn)
    );
}

#[test]
fn with_check_out_needs_a_check_in_and_is_written_once() {
    assert_eq!(Attendance::with_check_out(true, None, 5, [1u8; 32]), Err(AttendanceError::NoCheckIn));
    assert_eq!(
        Attendance::with_check_out(true, Some(Attendance::blank()), 5, [1u8; 32]),
        Err(AttendanceError::NoCheckIn)
    );
    let r = Attendance::with_check_in(true, None, 77, [1u8; 32]).unwrap();
    let done = Attendance::with_check_out(true, Some(r), 99, [2u8; 32]).unwrap();
    assert_eq!(done.check_in, Some(77));
    assert_eq!(done.check_out, Some(99));
    assert_eq!(done.check_out_nonce, Some([2u8; 32]));
    assert_eq!(
        Attendance::with_check_out(true, Some(done), 100, [3u8; 32]),
        Err(AttendanceError::AlreadyCheckedOut)
    );
}

#[test]
fn stamps_of_an_unregistered_employee_are_refused() {
    assert_eq!(
        Attendance::with_check_in(false, None, 77, [1u8; 32]),
        Err(AttendanceError::NotRegistered)
    );
    let r = Attendance::with_check_in(true, None, 77, [1u8; 32]).unwrap();
    assert_eq!(
        Attendance::with_check_in(false, Some(r), 78, [1u8; 32]),
        Err(AttendanceError::NotRegistered)
    );
    assert_eq!(
        Attendance::with_check_out(false, Some(r), 78, [1u8; 32]),
        Err(AttendanceError::NotRegistered)
    );
    assert_eq!(
        Attendance::with_check_out(false, None, 78, [1u8; 32]),
        Err(AttendanceError::NotRegistered)
    );
}

#[test]
fn event_names_the_day_of_its_timestamp() {
    assert_eq!(
        AttendanceEvent::of(Stamp::CheckOut, alice(), 7 * DAY + 3),
        AttendanceEvent { stamp: Stamp::CheckOut, employee: alice(), day: 7, timestamp: 7 * DAY + 3 }
    );
    assert_eq!(AttendanceEvent::of(Stamp::CheckIn, bob(), 86399).day, 0);
}

#[test]
fn attendance_error_kinds() {
    assert_eq!(AttendanceError::Unauthorized.kind(), ErrorKind::Unauthorized);
    assert_eq!(AttendanceError::NotRegistered.kind(), ErrorKind::NotRegistered);
    assert_eq!(AttendanceError::AlreadyCheckedIn.kind(), ErrorKind::AlreadyCheckedIn);
    assert_eq!(AttendanceError::AlreadyCheckedOut.kind(), ErrorKind::AlreadyCheckedOut);
    assert_eq!(AttendanceError::NoCheckIn.kind(), ErrorKind::NoCheckIn);
}
