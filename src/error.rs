//! The one error kind of the driver layer.
use vstd::prelude::*;

verus! {

/// Status code with which the driver reports success.
pub const DRIVER_OK: i32 = 0;

/// A failure reported by the vendor driver, carrying its status code verbatim.
#[derive(Clone, Copy, Debug, PartialEq, Eq, Structural)]
pub struct DriverError {
    pub code: i32,
}

/// What a driver status code means: success, or the error that carries it.
pub open spec fn status_result(status: i32) -> Result<(), DriverError> {
    if status == DRIVER_OK {
        Ok(())
    } else {
        Err(DriverError { code: status })
    }
}

impl DriverError {
    /// Turns a status code returned by the driver into a `Result`.
    pub fn check(status: i32) -> (r: Result<(), DriverError>)
        ensures
            r == status_result(status),
    {
        if status == DRIVER_OK {
            Ok(())
        } else {
            Err(DriverError { code: status })
        }
    }

    /// The driver's status code.
    pub fn code(&self) -> (r: i32)
        ensures
            r == self.code,
    {
        self.code
    }
}

} // verus!
