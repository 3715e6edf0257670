use vstd::prelude::*;

verus! {

/// An error inside the server, with a message for the log.
#[derive(Clone, Debug)]
pub struct InternalError {
    pub message: String,
}

impl InternalError {
    pub fn new(message: String) -> (r: InternalError)
        ensures
            r.message == message,
    {
        InternalError { message }
    }
}

} // verus!
