use vstd::prelude::*;

verus! {

/// The one error of this layer: the operating system's error code, as it stood
/// after an open or a control call had failed.
#[derive(Clone, Copy, Debug, PartialEq, Eq, Structural)]
pub enum MshvError {
    OsError(i32),
}

impl MshvError {
    /// The error code that the operating system gave.
    pub open spec fn code(self) -> i32 {
        match self {
            MshvError::OsError(code) => code,
        }
    }

    /// The error code that the operating system gave.
    pub fn errno(&self) -> (code: i32)
        ensures
            code == self.code(),
    {
        match self {
            MshvError::OsError(code) => *code,
        }
    }
}

/// What a returned status means when the operating system's error code is
/// `code`: a status that is not negative is the call's result, a negative one
/// is a failure with that code.
pub open spec fn status_outcome(ret: i32, code: i32) -> Result<i32, MshvError> {
    if ret >= 0 {
        Ok(ret)
    } else {
        Err(MshvError::OsError(code))
    }
}

/// Calls `vmm_sys_util::errno::Error::last()` and takes the number out of it
/// with `errno()`. That is the calling thread's `errno`, so nothing is claimed
/// of the value.
#[verifier::external_body]
fn last_os_error() -> (code: i32) {
    vmm_sys_util::errno::Error::last().errno()
}

/// Turns the status that an open or a control call returned into a result,
/// given the error code to report on failure.
pub fn status_result(ret: i32, code: i32) -> (r: Result<i32, MshvError>)
    ensures
        r == status_outcome(ret, code),
{
    if ret >= 0 {
        Ok(ret)
    } else {
        Err(MshvError::OsError(code))
    }
}

/// Turns the status that an open or a control call has just returned into a
/// result. A negative status is reported with the operating system's last error
/// code, which is read only then; so this is to be called before anything else
/// can overwrite that code.
pub fn check_status(ret: i32) -> (r: Result<i32, MshvError>)
    ensures
        ret >= 0 ==> r == Ok::<i32, MshvError>(ret),
        ret < 0 ==> r is Err,
        exists|code: i32| r == #[trigger] status_outcome(ret, code),
{
    if ret >= 0 {
        assert(status_outcome(ret, 0) == Ok::<i32, MshvError>(ret));
        Ok(ret)
    } else {
        let code: i32 = last_os_error();
        status_result(ret, code)
    }
}

} // verus!
