use vstd::prelude::*;

pub mod error_code;

use error_code::{MajorCode, MinorError};

verus! {

/// An error of the library: the major area, the minor code within it, the
/// message that belongs to the minor code and a message for debugging.
#[derive(Debug)]
pub struct CustomError {
    pub major: MajorCode,
    pub minor: u8,
    pub message: String,
    pub debug_message: String,
}

impl CustomError {
    /// The text that the error displays.
    pub fn to_string(&self) -> (s: String)
        ensures
            s@ == self.message@,
    {
        self.message.clone()
    }
}

pub fn construct_error<M: MinorError>(major: MajorCode, minor: M, debug_message: String) -> (e:
    CustomError)
    ensures
        e.major == major,
        e.minor == minor.spec_code(),
        e.message@ == minor.spec_message(),
        e.debug_message@ == debug_message@,
{
    CustomError { major, minor: minor.code(), message: minor.message(), debug_message }
}

} // verus!
