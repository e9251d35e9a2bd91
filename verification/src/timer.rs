use vstd::prelude::*;

verus! {

/// A wall-clock time source, in milliseconds.
pub trait Timer {
    fn now_ms(&mut self) -> u64;
}

/// The process clock.
#[derive(Debug)]
pub struct SystemTimer {}

impl Default for SystemTimer {
    fn default() -> (r: SystemTimer)
        ensures
            r == (SystemTimer {}),
    {
        SystemTimer {}
    }
}

/// Relies on `std::time::SystemTime::now` and `duration_since(UNIX_EPOCH)`:
/// the milliseconds elapsed since the Unix epoch.  Nothing is assumed of
/// the value; the clock may move arbitrarily between two calls.
#[verifier::external_body]
fn unix_time_ms() -> u64 {
    std::time::SystemTime::now()
        .duration_since(std::time::UNIX_EPOCH)
        .expect("Time went backward")
        .as_millis() as u64
}

impl Timer for SystemTimer {
    fn now_ms(&mut self) -> u64 {
        unix_time_ms()
    }
}

} // verus!
