//! The attendance record of one employee on one day, and the two write-once
//! stamps that fill it.

use vstd::prelude::*;
use crate::address::Address;
use crate::address::Commitment;
use crate::error::ErrorKind;

verus! {

/// The length of a day in seconds.
pub const SECONDS_PER_DAY: u64 = 86400;

/// The day index of a timestamp: whole days since the epoch.
pub open spec fn day_index(timestamp: u64) -> u64 {
    (timestamp / SECONDS_PER_DAY) as u64
}

/// The day index of a timestamp.
pub fn day_of(timestamp: u64) -> (day: u64)
    ensures
        day == day_index(timestamp),
{
    timestamp / SECONDS_PER_DAY
}

/// What the register holds for one employee on one day.
#[derive(Clone, Copy, Debug, PartialEq, Eq)]
pub struct Attendance {
    pub check_in: Option<u64>,
    pub check_out: Option<u64>,
    pub check_in_nonce: Option<Commitment>,
    pub check_out_nonce: Option<Commitment>,
}

/// Why an operation of the register failed.
#[derive(Clone, Copy, Debug, PartialEq, Eq, Structural)]
pub enum AttendanceError {
    Unauthorized,
    NotRegistered,
    AlreadyCheckedIn,
    AlreadyCheckedOut,
    NoCheckIn,
}

impl AttendanceError {
    /// The class of this failure.
    pub open spec fn spec_kind(self) -> ErrorKind {
        match self {
            AttendanceError::Unauthorized => ErrorKind::Unauthorized,
            AttendanceError::NotRegistered => ErrorKind::NotRegistered,
            AttendanceError::AlreadyCheckedIn => ErrorKind::AlreadyCheckedIn,
            AttendanceError::AlreadyCheckedOut => ErrorKind::AlreadyCheckedOut,
            AttendanceError::NoCheckIn => ErrorKind::NoCheckIn,
        }
    }

    /// The class of this failure.
    pub fn kind(&self) -> (k: ErrorKind)
        ensures
            k == self.spec_kind(),
    {
        match self {
            AttendanceError::Unauthorized => ErrorKind::Unauthorized,
            AttendanceError::NotRegistered => ErrorKind::NotRegistered,
            AttendanceError::AlreadyCheckedIn => ErrorKind::AlreadyCheckedIn,
            AttendanceError::AlreadyCheckedOut => ErrorKind::AlreadyCheckedOut,
            AttendanceError::NoCheckIn => ErrorKind::NoCheckIn,
        }
    }
}

/// Which of the two stamps a notification reports.
#[derive(Clone, Copy, Debug, PartialEq, Eq, Structural)]
pub enum Stamp {
    CheckIn,
    CheckOut,
}

/// The notification that a successful stamp asks the caller to publish.
#[derive(Clone, Copy, Debug, PartialEq, Eq)]
pub struct AttendanceEvent {
    pub stamp: Stamp,
    pub employee: Address,
    pub day: u64,
    pub timestamp: u64,
}

impl AttendanceEvent {
    /// The notification of a stamp of `employee` at `now`: it names the
    /// stamp, the employee and the day that `now` falls on, and carries
    /// `now` itself.
    pub fn of(stamp: Stamp, employee: Address, now: u64) -> (event: AttendanceEvent)
        ensures
            event == (AttendanceEvent { stamp, employee, day: day_index(now), timestamp: now }),
    {
        AttendanceEvent { stamp, employee, day: day_of(now), timestamp: now }
    }
}

impl Attendance {
    /// The record with nothing written to it.
    pub open spec fn spec_blank() -> Attendance {
        Attendance { check_in: None, check_out: None, check_in_nonce: None, check_out_nonce: None }
    }

    /// A record as the register may hold it: it has a check-in, and each
    /// stamp carries its commitment.
    pub open spec fn is_stored(self) -> bool {
        &&& self.check_in is Some
        &&& self.check_in_nonce is Some
        &&& self.check_out is Some <==> self.check_out_nonce is Some
    }

    /// The record after a check-in at `now` of an employee who is
    /// `registered` or not, starting from `prior` or from the blank record
    /// where there is none.
    pub open spec fn spec_with_check_in(
        registered: bool,
        prior: Option<Attendance>,
        now: u64,
        nonce: Commitment,
    ) -> Result<Attendance, AttendanceError> {
        let record = match prior {
            Some(r) => r,
            None => Attendance::spec_blank(),
        };
        if !registered {
            Err(AttendanceError::NotRegistered)
        } else if record.check_in is Some {
            Err(AttendanceError::AlreadyCheckedIn)
        } else {
            Ok(Attendance { check_in: Some(now), check_in_nonce: Some(nonce), ..record })
        }
    }

    /// The record after a check-out at `now` of an employee who is
    /// `registered` or not.
    pub open spec fn spec_with_check_out(
        registered: bool,
        prior: Option<Attendance>,
        now: u64,
        nonce: Commitment,
    ) -> Result<Attendance, AttendanceError> {
        let record = match prior {
            Some(r) => r,
            None => Attendance::spec_blank(),
        };
        if !registered {
            Err(AttendanceError::NotRegistered)
        } else if record.check_in is None {
            Err(AttendanceError::NoCheckIn)
        } else if record.check_out is Some {
            Err(AttendanceError::AlreadyCheckedOut)
        } else {
            Ok(Attendance { check_out: Some(now), check_out_nonce: Some(nonce), ..record })
        }
    }

    /// The record with nothing written to it.
    pub fn blank() -> (r: Attendance)
        ensures
            r == Attendance::spec_blank(),
    {
        Attendance { check_in: None, check_out: None, check_in_nonce: None, check_out_nonce: None }
    }

    /// Writes the check-in of a day. `registered` says whether the employee
    /// is registered, and `prior` is what is on record for the day, if
    /// anything. Fails with `NotRegistered` where the employee is not
    /// registered, then with `AlreadyCheckedIn` where a check-in is on
    /// record; otherwise the record gains the timestamp and the commitment
    /// and keeps the rest.
    pub fn with_check_in(
        registered: bool,
        prior: Option<Attendance>,
        now: u64,
        nonce: Commitment,
    ) -> (r: Result<Attendance, AttendanceError>)
        ensures
            r == Attendance::spec_with_check_in(registered, prior, now, nonce),
    {
        let record = match prior {
            Some(r) => r,
            None => Attendance::blank(),
        };
        if !registered {
            return Err(AttendanceError::NotRegistered);
        }
        if record.check_in.is_some() {
            return Err(AttendanceError::AlreadyCheckedIn);
        }
        Ok(
            Attendance {
                check_in: Some(now),
                check_out: record.check_out,
                check_in_nonce: Some(nonce),
                check_out_nonce: record.check_out_nonce,
            },
        )
    }

    /// Writes the check-out of a day. Fails with `NotRegistered` where the
    /// employee is not registered, then with `NoCheckIn` where no check-in
    /// is on record, then with `AlreadyCheckedOut` where a check-out is;
    /// otherwise the record gains the timestamp and the commitment and
    /// keeps the rest.
    pub fn with_check_out(
        registered: bool,
        prior: Option<Attendance>,
        now: u64,
        nonce: Commitment,
    ) -> (r: Result<Attendance, AttendanceError>)
        ensures
            r == Attendance::spec_with_check_out(registered, prior, now, nonce),
    {
        let record = match prior {
            Some(r) => r,
            None => Attendance::blank(),
        };
        if !registered {
            return Err(AttendanceError::NotRegistered);
        }
        if record.check_in.is_none() {
            return Err(AttendanceError::NoCheckIn);
        }
        if record.check_out.is_some() {
            return Err(AttendanceError::AlreadyCheckedOut);
        }
        Ok(
            Attendance {
                check_in: record.check_in,
                check_out: Some(now),
                check_in_nonce: record.check_in_nonce,
                check_out_nonce: Some(nonce),
            },
        )
    }
}

} // verus!
