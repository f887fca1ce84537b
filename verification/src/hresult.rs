//! Status codes of dispatch calls, and what a call hands back.

use vstd::prelude::*;

verus! {

/// Whether a status code reports success: the sign bit is clear.
pub open spec fn succeeded(code: i32) -> bool {
    code >= 0
}

/// A failed call, identified by the status code the host returned.
#[derive(Clone, Copy, Debug, PartialEq, Eq, Structural)]
pub struct ComError {
    /// The status code of the call that failed.
    pub code: i32,
}

/// What a status code means for the caller: nothing on success, the code as an
/// error on failure.
pub open spec fn outcome(code: i32) -> Result<(), ComError> {
    if succeeded(code) {
        Ok(())
    } else {
        Err(ComError { code })
    }
}

/// The error type of `windows-core`, which `HRESULT::ok` hands back for a
/// failure.
#[verifier::external_type_specification]
#[verifier::external_body]
pub struct ExWindowsError(windows_core::Error);

/// `HRESULT::ok` of `windows-core`. Trusted: it answers `Ok` for exactly the
/// non-negative codes.
#[verifier::external_body]
fn hresult_ok(code: i32) -> (r: Result<(), windows_core::Error>)
    ensures
        r is Ok <==> succeeded(code),
{
    windows_core::HRESULT(code).ok()
}

/// Turns a status code into a result.
pub fn check(code: i32) -> (r: Result<(), ComError>)
    ensures
        r == outcome(code),
{
    match hresult_ok(code) {
        Ok(()) => Ok(()),
        Err(_) => Err(ComError { code }),
    }
}

/// What one call through a dispatch table hands back: the status code and
/// whatever the host wrote to the out-parameter.
#[derive(Clone, Copy, Debug, PartialEq, Eq)]
pub struct Reply<T> {
    /// The status code the call returned.
    pub code: i32,
    /// The out-parameter after the call. It carries no meaning when `code`
    /// reports a failure.
    pub value: T,
}

impl<T> Reply<T> {
    /// The reply as a result: the value if the call succeeded, the status code
    /// as an error if it did not.
    pub open spec fn decoded(self) -> Result<T, ComError> {
        if succeeded(self.code) {
            Ok(self.value)
        } else {
            Err(ComError { code: self.code })
        }
    }

    /// Surfaces a failed call as an error and a successful one as its value.
    pub fn ok(self) -> (r: Result<T, ComError>)
        ensures
            r == self.decoded(),
    {
        match check(self.code) {
            Ok(()) => Ok(self.value),
            Err(e) => Err(e),
        }
    }
}

} // verus!
