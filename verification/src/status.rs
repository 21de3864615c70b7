//! Status words: the single 32-bit value every entry point returns.

use vstd::prelude::*;

verus! {

/// Status word of an entry point that succeeded.
pub const STATUS_OK: u32 = 0;

/// Status word of a guarded entry point that was called while no algorithm
/// instance was initialized.
pub const STATUS_NOT_INITIALIZED: u32 = 1;

/// The code of a failure. It is never zero, so that the status word of a
/// failure can never be taken for success.
#[derive(Debug, Copy, Clone, PartialEq, Eq, Hash, Structural)]
pub struct ErrorCode {
    code: u32,
}

impl View for ErrorCode {
    type V = u32;

    closed spec fn view(&self) -> u32 {
        self.code
    }
}

impl ErrorCode {
    /// Every error code that executable code can hold is well formed.
    #[verifier::type_invariant]
    pub open spec fn wf(self) -> bool {
        self@ != 0
    }

    /// Makes an error code of `code`, unless `code` is zero.
    pub fn new(code: u32) -> (error: Option<ErrorCode>)
        ensures
            error is None <==> code == 0,
            error matches Some(e) ==> e@ == code && e.wf(),
    {
        if code == 0 {
            None
        } else {
            Some(ErrorCode { code })
        }
    }

    /// The code as a plain number.
    pub fn get(&self) -> (code: u32)
        ensures
            code == self@,
            code != 0,
    {
        proof {
            use_type_invariant(self);
        }
        self.code
    }
}

/// What an operation of the algorithm reports: success, or the code of the
/// failure.
pub type Outcome = Result<(), ErrorCode>;

/// The status word that stands for an outcome: zero for success, the error's
/// code for a failure.
pub open spec fn status_of<T>(outcome: Result<T, ErrorCode>) -> u32 {
    match outcome {
        Ok(_) => STATUS_OK,
        Err(error) => error@,
    }
}

/// Maps the outcome of an operation to its status word.
pub fn status_code(outcome: Outcome) -> (status: u32)
    ensures
        status == status_of(outcome),
        status == STATUS_OK <==> outcome is Ok,
{
    match outcome {
        Ok(()) => STATUS_OK,
        Err(error) => error.get(),
    }
}

/// A status word is zero exactly when it stands for success: no failure is
/// reported as success, whatever its code.
pub proof fn lemma_status_zero_iff_ok<T>(outcome: Result<T, ErrorCode>)
    requires
        outcome matches Err(error) ==> error.wf(),
    ensures
        status_of(outcome) == STATUS_OK <==> outcome is Ok,
{
}

} // verus!
