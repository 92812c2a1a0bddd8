use vstd::prelude::*;

verus! {

/// A control instruction carried by a barrier.
///
/// Only `Stop` steers the run loop; the other variants are passed through
/// untouched.
#[derive(Clone, Copy, Debug, PartialEq, Eq, Structural)]
pub enum Mutation {
    /// Terminate the actor gracefully once this barrier is reached.
    Stop,
    /// Suspend reading from sources until a `Resume` arrives.
    Pause,
    /// Resume reading from sources after a `Pause`.
    Resume,
}

/// An epoch-delimiting marker flowing through the dataflow graph.
#[derive(Clone, Copy, Debug, PartialEq, Eq, Structural)]
pub struct Barrier {
    /// The checkpoint generation that this barrier closes.
    pub epoch: u64,
    /// The control instruction attached to this barrier, if any.
    pub mutation: Option<Mutation>,
}

impl Mutation {
    /// Whether this mutation asks the actor to stop.
    pub fn is_stop(&self) -> (r: bool)
        ensures
            r == (*self == Mutation::Stop),
    {
        match self {
            Mutation::Stop => true,
            _ => false,
        }
    }
}

impl Barrier {
    /// A barrier closing `epoch` with no control instruction.
    pub fn new(epoch: u64) -> (b: Barrier)
        ensures
            b.epoch == epoch,
            b.mutation == None::<Mutation>,
    {
        Barrier { epoch, mutation: None }
    }

    /// A barrier closing `epoch` that carries `mutation`.
    pub fn with_mutation(epoch: u64, mutation: Mutation) -> (b: Barrier)
        ensures
            b.epoch == epoch,
            b.mutation == Some(mutation),
    {
        Barrier { epoch, mutation: Some(mutation) }
    }

    /// Whether this barrier carries a `Stop` mutation.
    pub open spec fn is_stop_spec(&self) -> bool {
        self.mutation == Some(Mutation::Stop)
    }

    /// Whether this barrier carries a `Stop` mutation.
    #[verifier::when_used_as_spec(is_stop_spec)]
    pub fn is_stop(&self) -> (r: bool)
        ensures
            r == self.is_stop_spec(),
    {
        match self.mutation {
            Some(m) => m.is_stop(),
            None => false,
        }
    }
}

} // verus!
