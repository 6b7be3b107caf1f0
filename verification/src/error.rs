use vstd::prelude::*;

verus! {

/// The recoverable failures of this crate.
///
/// None of these is fatal: the caller may retry the command, recalibrate the
/// mechanism, or abandon it.
#[derive(Clone, Copy, Debug, PartialEq, Eq, Structural)]
pub enum ActuationError {
    /// The command sink rejected a command or failed to deliver it.  The
    /// motor may not be moving; the caller decides whether to retry or abort.
    PublishFailure,
    /// An argument was outside its allowed range, such as an extension ratio
    /// outside the unit interval.
    InvalidArgument,
    /// A movement was requested before a calibration reference exists.
    NotCalibrated,
    /// A wait for position feedback exceeded the caller's deadline.
    Timeout,
}

impl ActuationError {
    /// A short description of the error, for callers that report it.
    pub fn describe(self) -> (r: &'static str)
        ensures
            self is PublishFailure ==> r@ == "command could not be delivered"@,
            self is InvalidArgument ==> r@ == "argument out of range"@,
            self is NotCalibrated ==> r@ == "mechanism is not calibrated"@,
            self is Timeout ==> r@ == "timed out waiting for feedback"@,
    {
        match self {
            ActuationError::PublishFailure => "command could not be delivered",
            ActuationError::InvalidArgument => "argument out of range",
            ActuationError::NotCalibrated => "mechanism is not calibrated",
            ActuationError::Timeout => "timed out waiting for feedback",
        }
    }
}

} // verus!
