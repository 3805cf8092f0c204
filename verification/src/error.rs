//! What a worker reports when it cannot be set up.

use vstd::prelude::*;
use vstd::string::*;

verus! {

/// A failure, in words.
#[derive(Debug, PartialEq, Eq)]
pub struct Error {
    message: String,
}

impl View for Error {
    type V = Seq<char>;

    closed spec fn view(&self) -> Seq<char> {
        self.message@
    }
}

impl Error {
    /// The failure that `message` describes.
    pub fn new(message: String) -> (e: Error)
        ensures
            e@ == message@,
    {
        Error { message }
    }

    /// The failure that `detail` describes, introduced by `prefix`.
    pub fn prefixed(prefix: &str, detail: &str) -> (e: Error)
        ensures
            e@ == prefix@ + detail@,
    {
        let mut message = String::from_str(prefix);
        message.append(detail);
        Error { message }
    }

    /// The words.
    pub fn message(&self) -> (m: &String)
        ensures
            m@ == self@,
    {
        &self.message
    }
}

} // verus!
