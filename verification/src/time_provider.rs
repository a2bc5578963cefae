use vstd::prelude::*;

verus! {

/// Supplies the current time in milliseconds since the Unix epoch.
pub trait TimeProvider {
    /// The value this provider always returns, if it is a fixed test double;
    /// `None` for the wall clock.
    spec fn fixed(&self) -> Option<i64>;

    fn unix_ts_ms(&self) -> (r: i64)
        ensures
            match self.fixed() {
                Some(t) => r == t,
                None => true,
            },
    ;
}

/// Relies on std::time::SystemTime::now for the wall clock in milliseconds
/// since the epoch; nothing is promised of the value (a clock before the
/// epoch reads as zero).
#[verifier::external_body]
fn system_now_ms() -> i64 {
    match std::time::SystemTime::now().duration_since(std::time::UNIX_EPOCH) {
        Ok(d) => d.as_millis() as i64,
        Err(_) => 0,
    }
}

/// The wall clock.
pub struct SystemTimeProvider {}

/// A time source that always reports the same instant, for tests.
pub struct FixedTimeProvider {
    pub ts_ms: i64,
}

impl TimeProvider for SystemTimeProvider {
    open spec fn fixed(&self) -> Option<i64> {
        None
    }

    fn unix_ts_ms(&self) -> (r: i64) {
        system_now_ms()
    }
}

impl TimeProvider for FixedTimeProvider {
    open spec fn fixed(&self) -> Option<i64> {
        Some(self.ts_ms)
    }

    fn unix_ts_ms(&self) -> (r: i64) {
        self.ts_ms
    }
}

} // verus!
