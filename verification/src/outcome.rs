//! The outcome of one unit of work: how long it took, and what it brought.

use vstd::prelude::*;

verus! {

/// What one unit of work left behind. The latency is recorded whether the
/// unit succeeded or not; `data` is absent exactly when it failed.
#[derive(Debug)]
pub struct ResponseData<T> {
    /// Elapsed wall-clock time of the unit, in milliseconds.
    pub duration: u128,
    /// The payload of a successful unit.
    pub data: Option<T>,
}

impl<T> ResponseData<T> {
    /// Whether the unit failed.
    pub open spec fn is_failure(self) -> bool {
        self.data is None
    }

    /// Records a finished unit. Whatever the error was, it is folded into an
    /// absent payload, so that a failing unit never aborts its siblings.
    pub fn capture<E>(duration: u128, result: Result<T, E>) -> (outcome: Self)
        ensures
            outcome.duration == duration,
            outcome.data == match result {
                Ok(value) => Some(value),
                Err(_) => None::<T>,
            },
    {
        match result {
            Ok(value) => ResponseData { duration, data: Some(value) },
            Err(_) => ResponseData { duration, data: None },
        }
    }

    /// Whether the unit failed.
    pub fn failed(&self) -> (b: bool)
        ensures
            b == self.is_failure(),
    {
        self.data.is_none()
    }
}

} // verus!
