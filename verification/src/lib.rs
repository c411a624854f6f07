//! Settlement of worker pay against verified attendance.
//!
//! Two state machines cooperate. The attendance register records, per
//! employee and per day, one check-in and one check-out. The escrow engine
//! holds one escrow per employee and releases it once the register shows
//! enough hours over the last thirty days, or once a dispute is resolved.
//!
//! Both machines are pure. The caller supplies the principal that it has
//! authenticated, the current time and the balance that the engine holds,
//! and carries out the transfers and notifications that an operation hands
//! back. A failed operation changes nothing.
//!
//! - [`address`]: the identities of parties and components.
//! - [`attendance`]: the record of one day and its two write-once stamps.
//! - [`register`]: the attendance register, [`register::AttendanceContract`].
//! - [`escrow`]: the escrow record and the rules of its lifecycle.
//! - [`hours`]: counting the hours on record over the last thirty days.
//! - [`engine`]: the escrow engine, [`engine::EscrowContract`].
//! - [`laws`]: what holds over every state and every sequence of operations.
//! - [`error`]: the classes of failure.

pub mod address;
pub mod attendance;
pub mod engine;
pub mod error;
pub mod escrow;
pub mod hours;
mod keyed;
pub mod laws;
pub mod register;
