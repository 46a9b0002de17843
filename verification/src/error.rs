//! Error codes, and their passage across the integer convention of the VIRTIO core.
//!
//! The core reports failure as a negative integer and success as anything else. Inside the
//! library a failure is an [`Error`], which always holds a valid code: its type invariant says so.
use vstd::prelude::*;

verus! {

/// The largest magnitude an error code can have.
pub const MAX_ERRNO: i32 = 4095;

/// No such file or directory.
pub const ENOENT: i32 = -2;

/// I/O error.
pub const EIO: i32 = -5;

/// Out of memory.
pub const ENOMEM: i32 = -12;

/// No such device.
pub const ENODEV: i32 = -19;

/// Invalid argument.
pub const EINVAL: i32 = -22;

/// A failure, as the negative code that the core uses for it.
#[derive(Copy, Clone, PartialEq, Eq, Structural, Debug)]
pub struct Error {
    errno: i32,
}

/// The allocator could not satisfy a request.
#[derive(Copy, Clone, PartialEq, Eq, Structural, Debug)]
pub struct AllocError;

/// What the allocator answered to a request for memory that holds no value yet.
pub type Allocation = Result<(), AllocError>;

/// Whether `errno` is a code that an [`Error`] may hold.
pub open spec fn valid_errno(errno: int) -> bool {
    -MAX_ERRNO <= errno < 0
}

impl Error {
    #[verifier::type_invariant]
    spec fn holds_valid_errno(self) -> bool {
        valid_errno(self.errno as int)
    }

    /// The code of the error.
    pub closed spec fn code(self) -> i32 {
        self.errno
    }

    /// An error is well formed when its code is in the range of error codes.
    pub open spec fn wf(self) -> bool {
        valid_errno(self.code() as int)
    }

    /// The error with this code.
    pub closed spec fn with_code(code: i32) -> Error {
        Error { errno: code }
    }

    /// The error a code stands for: itself, or `EINVAL` when it is out of range.
    pub open spec fn of_errno(errno: i32) -> Error {
        Error::with_code(
            if valid_errno(errno as int) {
                errno
            } else {
                EINVAL
            },
        )
    }

    /// Creates an [`Error`] from a code. A code out of range becomes `EINVAL`.
    pub fn from_errno(errno: i32) -> (error: Error)
        ensures
            error == Error::of_errno(errno),
            error.wf(),
    {
        if -MAX_ERRNO <= errno && errno < 0 {
            Error { errno }
        } else {
            Error { errno: EINVAL }
        }
    }

    /// The code of this error.
    pub fn to_errno(self) -> (errno: i32)
        ensures
            errno == self.code(),
            self.wf(),
    {
        proof {
            use_type_invariant(&self);
        }
        self.errno
    }
}

/// An error is its code: there is one error for each code.
pub proof fn law_error_is_its_code(error: Error, code: i32)
    ensures
        Error::with_code(code).code() == code,
        Error::with_code(error.code()) == error,
{
}

impl From<AllocError> for Error {
    fn from(_e: AllocError) -> (error: Error) {
        Error::from_errno(ENOMEM)
    }
}

impl vstd::std_specs::convert::FromSpecImpl<AllocError> for Error {
    open spec fn obeys_from_spec() -> bool {
        true
    }

    open spec fn from_spec(_e: AllocError) -> Error {
        Error::of_errno(ENOMEM)
    }
}

/// What an integer returned by the core means.
pub open spec fn result_of(ret: i32) -> Result<(), Error> {
    if ret < 0 {
        Err(Error::of_errno(ret))
    } else {
        Ok(())
    }
}

/// The integer that reports `result` to the core.
pub open spec fn ret_of(result: Result<(), Error>) -> i32 {
    match result {
        Ok(()) => 0,
        Err(error) => error.code(),
    }
}

/// Converts an integer returned by the core into a result.
pub fn to_result(ret: i32) -> (result: Result<(), Error>)
    ensures
        result == result_of(ret),
{
    if ret < 0 {
        Err(Error::from_errno(ret))
    } else {
        Ok(())
    }
}

/// Converts the result of a driver method into the integer that a callback returns to the core:
/// zero on success, the code of the error on failure.
pub fn from_result(result: Result<(), Error>) -> (ret: i32)
    ensures
        ret == ret_of(result),
        result is Err <==> ret < 0,
{
    match result {
        Ok(()) => 0,
        Err(error) => error.to_errno(),
    }
}

/// A result survives the passage to the core and back.
pub proof fn law_result_round_trip(result: Result<(), Error>)
    requires
        result matches Err(error) ==> error.wf(),
    ensures
        result_of(ret_of(result)) == result,
        ret_of(result) <= 0,
        ret_of(result) == 0 <==> result is Ok,
{
    match result {
        Ok(unit) => {
            assert(unit == ());
        },
        Err(_) => {},
    }
}

/// A code in the range of error codes stands for itself, and any other for `EINVAL`.
pub proof fn law_error_codes(errno: i32)
    ensures
        -4095 <= errno < 0 ==> Error::of_errno(errno).code() == errno,
        errno < -4095 || errno >= 0 ==> Error::of_errno(errno).code() == -22,
        Error::of_errno(errno).wf(),
{
}

/// The errors of the library have the codes that the core has for them.
pub proof fn law_codes_of_the_core()
    ensures
        Error::of_errno(ENOENT).code() == -2,
        Error::of_errno(EIO).code() == -5,
        Error::of_errno(ENOMEM).code() == -12,
        Error::of_errno(ENODEV).code() == -19,
        Error::of_errno(EINVAL).code() == -22,
{
}

/// The core fails exactly where it returns a negative integer, and the error holds that integer
/// where it is an error code.
pub proof fn law_negative_is_failure(ret: i32, result: Result<(), Error>)
    requires
        call_ensures(to_result, (ret,), result),
    ensures
        result is Ok <==> ret >= 0,
        -4095 <= ret < 0 ==> result->Err_0.code() == ret,
        ret < -4095 ==> result->Err_0.code() == -22,
{
}

/// A callback returns zero where the driver succeeded, and the code of the error where it did not.
pub proof fn law_callbacks_report_the_error(result: Result<(), Error>, ret: i32)
    requires
        call_ensures(from_result, (result,), ret),
    ensures
        result is Ok ==> ret == 0,
        result is Err ==> ret == result->Err_0.code(),
        result is Err ==> ret < 0,
{
}

/// Without memory there is the error for being out of memory.
pub proof fn law_no_memory(refused: AllocError, error: Error)
    requires
        call_ensures(<Error as From<AllocError>>::from, (refused,), error),
    ensures
        error.code() == -12,
{
}

} // verus!
