//! The function code that accompanies `Init`.

use vstd::prelude::*;

verus! {

/// Function code announcing that erase operations will follow.
pub const FUNCTION_ERASE: u32 = 1;

/// Function code announcing that program operations will follow.
pub const FUNCTION_PROGRAM: u32 = 2;

/// Function code announcing that verify operations will follow.
pub const FUNCTION_VERIFY: u32 = 3;

/// The capability an algorithm instance is constructed for.
#[derive(Debug, Copy, Clone, PartialEq, Eq, Hash, Structural)]
pub enum Function {
    Erase,
    Program,
    Verify,
}

impl Function {
    /// The code by which the host names this function.
    pub open spec fn spec_code(self) -> u32 {
        match self {
            Function::Erase => FUNCTION_ERASE,
            Function::Program => FUNCTION_PROGRAM,
            Function::Verify => FUNCTION_VERIFY,
        }
    }

    /// The function a code names, if it names one.
    pub open spec fn spec_from_code(code: u32) -> Option<Function> {
        if code == FUNCTION_ERASE {
            Some(Function::Erase)
        } else if code == FUNCTION_PROGRAM {
            Some(Function::Program)
        } else if code == FUNCTION_VERIFY {
            Some(Function::Verify)
        } else {
            None
        }
    }

    /// Whether a code names a function.
    pub open spec fn recognizes(code: u32) -> bool {
        FUNCTION_ERASE <= code <= FUNCTION_VERIFY
    }

    /// The code by which the host names this function.
    #[verifier::when_used_as_spec(spec_code)]
    pub fn code(self) -> (code: u32)
        ensures
            code == self.spec_code(),
            Function::recognizes(code),
    {
        match self {
            Function::Erase => FUNCTION_ERASE,
            Function::Program => FUNCTION_PROGRAM,
            Function::Verify => FUNCTION_VERIFY,
        }
    }

    /// Decodes a function code. The result is `None` exactly for the codes
    /// that name no function.
    pub fn from_code(code: u32) -> (function: Option<Function>)
        ensures
            function == Function::spec_from_code(code),
            function is Some <==> Function::recognizes(code),
            function matches Some(f) ==> f.spec_code() == code,
    {
        if code == FUNCTION_ERASE {
            Some(Function::Erase)
        } else if code == FUNCTION_PROGRAM {
            Some(Function::Program)
        } else if code == FUNCTION_VERIFY {
            Some(Function::Verify)
        } else {
            None
        }
    }
}

/// Decoding is the inverse of encoding: every function is recovered from its
/// own code, and a code that decodes to a function is the code of that
/// function.
pub proof fn lemma_function_code_round_trip(function: Function, code: u32)
    ensures
        Function::spec_from_code(function.spec_code()) == Some(function),
        Function::spec_from_code(code) == Some(function) <==> function.spec_code() == code,
        Function::spec_from_code(code) is None <==> !Function::recognizes(code),
{
}

} // verus!
