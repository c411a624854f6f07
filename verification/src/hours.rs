//! Counting the hours that an employee has on record over the last thirty
//! days.

use vstd::prelude::*;
use crate::attendance::day_index;
use crate::attendance::day_of;
use crate::attendance::Attendance;
use crate::address::Address;
use crate::escrow::EscrowError;
use crate::register::RegisterState;

verus! {

/// The length of an hour in seconds.
pub const SECONDS_PER_HOUR: u64 = 3600;

/// The number of days, today included, whose records count.
pub const WINDOW_DAYS: u64 = 30;

/// Whether a record has both stamps with the check-out before the check-in.
/// Such a record has no length, and counting it fails.
pub open spec fn is_inverted(record: Option<Attendance>) -> bool {
    record matches Some(r) && r.check_in matches Some(check_in) && r.check_out matches Some(
        check_out,
    ) && check_out < check_in
}

/// The hours that a day's record counts for: the whole hours between
/// check-in and check-out where both are there, and zero otherwise.
pub open spec fn credited_hours(record: Option<Attendance>) -> int {
    match record {
        Some(Attendance { check_in: Some(check_in), check_out: Some(check_out), .. }) => if check_out
            >= check_in {
            (check_out - check_in) / 3600
        } else {
            0
        },
        _ => 0,
    }
}

/// The hours that a day's record counts for. An absent record and a record
/// that lacks a stamp count for zero; a complete record counts for the whole
/// hours between its stamps, any part of an hour dropped. `None` where the
/// check-out lies before the check-in.
pub fn worked_hours(record: &Option<Attendance>) -> (r: Option<u64>)
    ensures
        r is None <==> is_inverted(*record),
        r matches Some(hours) ==> hours == credited_hours(*record),
{
    match record {
        Some(attendance) => match (attendance.check_in, attendance.check_out) {
            (Some(check_in), Some(check_out)) => {
                if check_out < check_in {
                    None
                } else {
                    Some((check_out - check_in) / SECONDS_PER_HOUR)
                }
            },
            _ => Some(0),
        },
        None => Some(0),
    }
}

/// The days whose records count at `now`: today first, then back day by
/// day, thirty days at most and none before day zero.
pub open spec fn spec_window_days(now: u64) -> Seq<u64> {
    let today = day_index(now);
    Seq::new(
        if today < 30 {
            (today + 1) as nat
        } else {
            30nat
        },
        |offset: int| (today - offset) as u64,
    )
}

/// The days whose records count at `now`.
pub fn window_days(now: u64) -> (days: Vec<u64>)
    ensures
        days@ == spec_window_days(now),
{
    let today = day_of(now);
    let mut days: Vec<u64> = Vec::new();
    let mut offset: u64 = 0;
    while offset < WINDOW_DAYS
        invariant_except_break
            offset <= 30,
            offset <= today + 1,
            days@.len() == offset,
            forall|i: int| 0 <= i < offset ==> days@[i] == today - i,
            today == day_index(now),
        ensures
            days@.len() == (if today < 30 {
                today + 1
            } else {
                30
            }),
            forall|i: int| 0 <= i < days@.len() ==> days@[i] == today - i,
        decreases 30 - offset,
    {
        if today < offset {
            break ;
        }
        days.push(today - offset);
        offset += 1;
    }
    assert(days@ =~= spec_window_days(now));
    days
}

/// What a register has on record for `employee` on each day that counts at
/// `now`, today first.
pub open spec fn window_records(register: RegisterState, employee: Address, now: u64) -> Seq<
    Option<Attendance>,
> {
    Seq::new(
        spec_window_days(now).len(),
        |i: int| register.record(employee, spec_window_days(now)[i]),
    )
}

/// The sum of the hours that the records of a window count for.
pub open spec fn hours_sum(window: Seq<Option<Attendance>>) -> int
    decreases window.len(),
{
    if window.len() == 0 {
        0
    } else {
        hours_sum(window.drop_last()) + credited_hours(window.last())
    }
}

/// Whether some record of a window is inverted.
pub open spec fn any_inverted(window: Seq<Option<Attendance>>) -> bool {
    exists|i: int| 0 <= i < window.len() && is_inverted(#[trigger] window[i])
}

/// The total of the hours credited by hand and the hours on record, or
/// `ArithmeticOverflow` where a record is inverted or the total leaves the
/// range of `u64`.
pub open spec fn spec_total_hours(manual: u64, window: Seq<Option<Attendance>>) -> Result<
    u64,
    EscrowError,
> {
    if any_inverted(window) || manual + hours_sum(window) > u64::MAX {
        Err(EscrowError::ArithmeticOverflow)
    } else {
        Ok((manual + hours_sum(window)) as u64)
    }
}

/// The sum over a window is never negative and never below the sum over one
/// of its prefixes.
pub proof fn lemma_hours_sum_prefix(window: Seq<Option<Attendance>>, n: int)
    requires
        0 <= n <= window.len(),
    ensures
        0 <= hours_sum(window.take(n)) <= hours_sum(window),
    decreases window.len(),
{
    if window.len() == 0 {
        assert(window.take(n) =~= window);
    } else if n == window.len() {
        assert(window.take(n) =~= window);
        lemma_hours_sum_prefix(window.drop_last(), n - 1);
    } else {
        lemma_hours_sum_prefix(window.drop_last(), n);
        assert(window.drop_last().take(n) =~= window.take(n));
    }
}

/// Adds the hours on record in `window` to the hours credited by hand.
/// Fails with `ArithmeticOverflow` where a record of the window is inverted
/// or the total leaves the range of `u64`.
pub fn total_hours(manual: u64, window: &Vec<Option<Attendance>>) -> (r: Result<u64, EscrowError>)
    ensures
        r == spec_total_hours(manual, window@),
{
    let mut total: u64 = manual;
    let mut i: usize = 0;
    while i < window.len()
        invariant
            i <= window@.len(),
            total == manual + hours_sum(window@.take(i as int)),
            forall|j: int| 0 <= j < i ==> !is_inverted(#[trigger] window@[j]),
        decreases window@.len() - i,
    {
        proof {
            assert(window@.take(i + 1).drop_last() =~= window@.take(i as int));
            lemma_hours_sum_prefix(window@, i + 1);
        }
        match worked_hours(&window[i]) {
            Some(hours) => match total.checked_add(hours) {
                Some(sum) => {
                    total = sum;
                },
                None => {
                    return Err(EscrowError::ArithmeticOverflow);
                },
            },
            None => {
                return Err(EscrowError::ArithmeticOverflow);
            },
        }
        i += 1;
    }
    assert(window@.take(i as int) =~= window@);
    Ok(total)
}

} // verus!
