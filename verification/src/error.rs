use vstd::prelude::*;

verus! {

/// The uniform error type: one human-readable message, no structured codes.
/// Transport, backend and parse failures are all reported through it.
#[derive(Debug)]
pub struct Error {
    pub message: String,
}

impl Error {
    pub fn new(message: String) -> (r: Error)
        ensures
            r.message@ == message@,
    {
        Error { message }
    }

    /// The message, for callers that report the error on a reply line.
    pub fn message(&self) -> (r: &str)
        ensures
            r@ == self.message@,
    {
        self.message.as_str()
    }
}

} // verus!
