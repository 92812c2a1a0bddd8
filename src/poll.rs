use vstd::prelude::*;

use crate::barrier::Barrier;

verus! {

/// Why a stream consumer could not produce its next result.
#[derive(Clone, Debug)]
pub struct StreamError {
    /// A human-readable description of the failure.
    pub message: String,
}

impl StreamError {
    /// An error described by `message`.
    pub fn new(message: String) -> (e: StreamError)
        ensures
            e.message == message,
    {
        StreamError { message }
    }

    /// The description of this error.
    pub fn message(&self) -> (r: &String)
        ensures
            *r == self.message,
    {
        &self.message
    }
}

/// The outcome of one poll of a stream consumer.
#[derive(Clone, Debug)]
pub enum PollResult {
    /// Internal work happened; nothing crossed the actor's boundary.
    Progressed,
    /// An epoch boundary was reached.
    Barrier(Barrier),
    /// The consumer cannot continue.
    Failure(StreamError),
}

impl PollResult {
    /// Whether this result ends the run loop: a failure, or a barrier that
    /// carries `Stop`.
    pub open spec fn is_terminal(&self) -> bool {
        match self {
            PollResult::Progressed => false,
            PollResult::Barrier(b) => b.is_stop_spec(),
            PollResult::Failure(_) => true,
        }
    }
}

} // verus!
