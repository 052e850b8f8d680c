//! The error type shared by every slot of the playback tracker.
use vstd::prelude::*;

verus! {

/// A human-readable description of a failed backend or resolver call.
///
/// Every slot of the tracker reports its failure as one of these; the
/// tracker propagates the first such failure as a fatal outcome.
#[derive(Debug)]
pub struct ScrobbleError {
    pub msg: String,
}

impl ScrobbleError {
    pub fn new(msg: String) -> (e: ScrobbleError)
        ensures
            e.msg == msg,
    {
        ScrobbleError { msg }
    }

    /// The description carried by this error.
    pub fn message(&self) -> (m: &String)
        ensures
            m == &self.msg,
    {
        &self.msg
    }
}

impl Clone for ScrobbleError {
    fn clone(&self) -> (e: Self)
        ensures
            e == *self,
    {
        ScrobbleError { msg: self.msg.clone() }
    }
}

} // verus!
