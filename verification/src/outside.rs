//! What a session asks of the world around it: the time, and the name of a
//! control.

use crate::event::Timestamp;
use std::time::{SystemTime, UNIX_EPOCH};
use touchpage::control_nexus::ControlNexus;
use vstd::prelude::*;

verus! {

/// `std::time::SystemTime`, a reading of the wall clock. Nothing inside it is
/// visible here.
#[verifier::external_type_specification]
#[verifier::external_body]
pub struct ExSystemTime(SystemTime);

/// `touchpage::control_nexus::ControlNexus`, which holds the controls of the
/// surface that is being served. Nothing inside it is visible here.
#[verifier::external_type_specification]
#[verifier::external_body]
pub struct ExControlNexus(ControlNexus);

/// Calls `std::time::SystemTime::now`, which reads the wall clock. Nothing is
/// claimed of the reading: two calls may give any two values.
#[verifier::external_body]
pub(crate) fn system_now() -> SystemTime {
    SystemTime::now()
}

/// Calls `std::time::SystemTime::duration_since` with the Unix epoch, and
/// gives what went by since then with `std::time::Duration::as_nanos`: `None`
/// for a reading before the epoch. Nothing is claimed of the answer.
#[verifier::external_body]
pub(crate) fn since_epoch(reading: &SystemTime) -> Option<Timestamp> {
    match reading.duration_since(UNIX_EPOCH) {
        Ok(since) => Some(Timestamp { nanos: since.as_nanos() }),
        Err(_) => None,
    }
}

/// Calls `ControlNexus::get_name`, which looks a control up by its id in the
/// controls that the nexus holds at that moment and gives its name. Nothing
/// is claimed of the answer: the controls can change between two calls.
#[verifier::external_body]
pub(crate) fn control_name(nexus: &ControlNexus, control_id: &Vec<i32>) -> Option<String> {
    nexus.get_name(control_id)
}

} // verus!
