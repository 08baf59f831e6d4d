//! The failures that this library itself reports.

use vstd::prelude::*;
use vstd::string::*;
use crate::text::{decimal_digits, decimal_text};

verus! {

/// The kinds of failure.
#[derive(Clone, Copy, Debug, PartialEq, Eq, Structural)]
pub enum Error {
    /// The service answered with a status outside the success range.
    HttpStatus(u16),
    /// A caller handed in a value that no call may carry.
    InvalidParameter,
}

impl Error {
    /// The words for the error.
    pub open spec fn spec_message(self) -> Seq<char> {
        match self {
            Error::HttpStatus(status) => "The service answered with status "@ + decimal_digits(
                status as nat,
            ),
            Error::InvalidParameter => "Chance must be between 0 to 100"@,
        }
    }

    /// The words for the error.
    pub fn message(&self) -> (text: String)
        ensures
            text@ == self.spec_message(),
    {
        match self {
            Error::HttpStatus(status) => {
                let digits = decimal_text(*status as u128);
                String::from_str("The service answered with status ").concat(digits.as_str())
            },
            Error::InvalidParameter => String::from_str("Chance must be between 0 to 100"),
        }
    }
}

/// Whether `status` is a success status of HTTP.
pub open spec fn is_success(status: u16) -> bool {
    200 <= status < 300
}

/// Accepts a success status and turns any other into an error that carries it.
pub fn check_status(status: u16) -> (checked: Result<(), Error>)
    ensures
        is_success(status) ==> checked == Ok::<(), Error>(()),
        !is_success(status) ==> checked == Err::<(), Error>(Error::HttpStatus(status)),
{
    if 200 <= status && status < 300 {
        Ok(())
    } else {
        Err(Error::HttpStatus(status))
    }
}

} // verus!
