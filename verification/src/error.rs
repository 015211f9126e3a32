//! The general error of the protocol library.

use vstd::prelude::*;
use vstd::string::StringExecFns;

verus! {

/// An error of the protocol library, with its message.
#[derive(Debug, Clone, PartialEq, Eq)]
pub struct AguiError {
    pub message: String,
}

impl AguiError {
    /// The error with the given message.
    pub fn new(message: &str) -> (r: Self)
        ensures
            r.message@ == message@,
    {
        AguiError { message: message.to_owned() }
    }

    /// The text of the error, in specifications.
    pub open spec fn text(&self) -> Seq<char> {
        "AG-UI Error: "@ + self.message@
    }

    /// The text of the error.
    pub fn to_string(&self) -> (r: String)
        ensures
            r@ == self.text(),
    {
        let mut s = "AG-UI Error: ".to_owned();
        s.append(self.message.as_str());
        s
    }
}

/// What an operation of the protocol library gives.
pub type Result<T> = std::result::Result<T, AguiError>;

} // verus!
