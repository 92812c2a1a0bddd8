use vstd::prelude::*;

use crate::poll::{PollResult, StreamError};

verus! {

/// The correlation context under which one poll of the consumer runs: the
/// polling actor, feeding its downstream, within an epoch.
#[derive(Clone, Copy, Debug, PartialEq, Eq, Structural)]
pub struct PollTag {
    /// The identity of the polling actor.
    pub actor_id: u32,
    /// The epoch of the last barrier passed; `None` before the first one.
    pub epoch: Option<u64>,
}

/// Where an actor's run loop stands.
#[derive(Clone, Copy, Debug, PartialEq, Eq, Structural)]
pub enum Status {
    Running,
    /// Terminal: a `Stop` barrier was observed.
    Stopped,
    /// Terminal: the consumer failed.
    Failed,
}

/// What the run loop does after one poll.
#[derive(Debug)]
pub enum Step {
    /// Poll the consumer again.
    PollAgain,
    /// Leave the loop; `run` returns this result.
    Finish(Result<(), StreamError>),
}

/// The tag epoch after `r` was handled under `epoch`: a barrier that does
/// not stop the actor opens its epoch, anything else leaves the tag alone.
pub open spec fn next_epoch(epoch: Option<u64>, r: PollResult) -> Option<u64> {
    match r {
        PollResult::Barrier(b) => if b.is_stop_spec() {
            epoch
        } else {
            Some(b.epoch)
        },
        _ => epoch,
    }
}

/// The status after `r` was handled by a running loop.
pub open spec fn next_status(r: PollResult) -> Status {
    match r {
        PollResult::Progressed => Status::Running,
        PollResult::Barrier(b) => if b.is_stop_spec() {
            Status::Stopped
        } else {
            Status::Running
        },
        PollResult::Failure(_) => Status::Failed,
    }
}

/// What a running loop does after it received `r`.
pub open spec fn step_of(r: PollResult) -> Step {
    match r {
        PollResult::Progressed => Step::PollAgain,
        PollResult::Barrier(b) => if b.is_stop_spec() {
            Step::Finish(Ok(()))
        } else {
            Step::PollAgain
        },
        PollResult::Failure(e) => Step::Finish(Err(e)),
    }
}

/// The state of one actor's run loop between two polls.
#[derive(Clone, Copy, Debug)]
pub struct ActorLoop {
    /// The tag that the next poll runs under.
    pub tag: PollTag,
    pub status: Status,
}

impl ActorLoop {
    /// The loop of actor `id` before its first poll: running, with no epoch
    /// seen yet.
    pub fn new(id: u32) -> (l: ActorLoop)
        ensures
            l.tag == (PollTag { actor_id: id, epoch: None }),
            l.status == Status::Running,
    {
        ActorLoop { tag: PollTag { actor_id: id, epoch: None }, status: Status::Running }
    }

    /// The tag that the next poll runs under.
    pub fn tag(&self) -> (t: PollTag)
        ensures
            t == self.tag,
    {
        self.tag
    }

    /// Handles the result of one poll and says whether to poll again.
    ///
    /// A barrier without `Stop` moves the tag to its epoch; progress changes
    /// nothing; a `Stop` barrier ends the loop with success and a failure
    /// ends it with that error. Barriers are expected in non-decreasing epoch
    /// order; the loop does not check it and tags each poll with the epoch of
    /// the last barrier, whatever it was.
    pub fn on_poll(&mut self, result: PollResult) -> (s: Step)
        requires
            old(self).status == Status::Running,
        ensures
            final(self).tag.actor_id == old(self).tag.actor_id,
            final(self).tag.epoch == next_epoch(old(self).tag.epoch, result),
            final(self).status == next_status(result),
            s == step_of(result),
    {
        match result {
            PollResult::Progressed => Step::PollAgain,
            PollResult::Barrier(b) => {
                if b.is_stop() {
                    self.status = Status::Stopped;
                    Step::Finish(Ok(()))
                } else {
                    self.tag = PollTag { actor_id: self.tag.actor_id, epoch: Some(b.epoch) };
                    Step::PollAgain
                }
            },
            PollResult::Failure(e) => {
                self.status = Status::Failed;
                Step::Finish(Err(e))
            },
        }
    }
}

/// The number of polls a running loop makes on the results `rs`: up to and
/// including the first terminal one, or all of them.
pub open spec fn polls_of(rs: Seq<PollResult>) -> nat
    decreases rs.len(),
{
    if rs.len() == 0 {
        0
    } else {
        match step_of(rs[0]) {
            Step::Finish(_) => 1,
            Step::PollAgain => 1 + polls_of(rs.drop_first()),
        }
    }
}

/// How a running loop ends on the results `rs`: with the result of the first
/// terminal one, or `None` when none is terminal.
pub open spec fn outcome_of(rs: Seq<PollResult>) -> Option<Result<(), StreamError>>
    decreases rs.len(),
{
    if rs.len() == 0 {
        None
    } else {
        match step_of(rs[0]) {
            Step::Finish(res) => Some(res),
            Step::PollAgain => outcome_of(rs.drop_first()),
        }
    }
}

/// The tags under which a running loop, starting with tag `t`, makes its
/// polls on the results `rs`.
pub open spec fn tags_of(t: PollTag, rs: Seq<PollResult>) -> Seq<PollTag>
    decreases rs.len(),
{
    if rs.len() == 0 {
        Seq::empty()
    } else {
        match step_of(rs[0]) {
            Step::Finish(_) => seq![t],
            Step::PollAgain => seq![t] + tags_of(
                PollTag { actor_id: t.actor_id, epoch: next_epoch(t.epoch, rs[0]) },
                rs.drop_first(),
            ),
        }
    }
}

/// One poll, one tag.
pub proof fn lemma_tags_len(t: PollTag, rs: Seq<PollResult>)
    ensures
        tags_of(t, rs).len() == polls_of(rs),
    decreases rs.len(),
{
    if rs.len() > 0 {
        match step_of(rs[0]) {
            Step::Finish(_) => {},
            Step::PollAgain => lemma_tags_len(
                PollTag { actor_id: t.actor_id, epoch: next_epoch(t.epoch, rs[0]) },
                rs.drop_first(),
            ),
        }
    }
}

/// What a run over a finite sequence of poll results came to.
#[derive(Debug)]
pub struct RunReport {
    /// `Some` with the run's result when the loop ended, `None` when the
    /// results ran out while it was still running.
    pub outcome: Option<Result<(), StreamError>>,
    /// The tag of each poll made, in order.
    pub tags: Vec<PollTag>,
}

impl RunReport {
    /// The number of polls made.
    pub fn polls(&self) -> (n: usize)
        ensures
            n == self.tags@.len(),
    {
        self.tags.len()
    }
}

/// The basic execution unit of the streaming engine: it owns one stream
/// consumer and drives it until a `Stop` barrier or a failure.
pub struct Actor<C> {
    consumer: C,
    id: u32,
}

impl<C> Actor<C> {
    /// The consumer that this actor owns.
    pub closed spec fn consumer_spec(&self) -> C {
        self.consumer
    }

    /// The identity of this actor.
    pub closed spec fn id_spec(&self) -> u32 {
        self.id
    }

    /// An actor with identity `id` that owns `consumer`.
    pub fn new(consumer: C, id: u32) -> (a: Self)
        ensures
            a.consumer_spec() == consumer,
            a.id_spec() == id,
    {
        Actor { consumer, id }
    }

    /// The identity of this actor.
    pub fn id(&self) -> (r: u32)
        ensures
            r == self.id_spec(),
    {
        self.id
    }

    /// The loop state this actor's run starts from.
    pub fn start(&self) -> (l: ActorLoop)
        ensures
            l.tag == (PollTag { actor_id: self.id_spec(), epoch: None }),
            l.status == Status::Running,
    {
        ActorLoop::new(self.id)
    }

    /// Gives up the actor, handing back its consumer and identity.
    pub fn into_parts(self) -> (r: (C, u32))
        ensures
            r.0 == self.consumer_spec(),
            r.1 == self.id_spec(),
    {
        (self.consumer, self.id)
    }
}

impl Actor<Vec<PollResult>> {
    /// Runs the loop over a consumer that yields the given results in order,
    /// polling until the loop ends or the results run out.
    pub fn run_scripted(self) -> (report: RunReport)
        ensures
            report.outcome == outcome_of(self.consumer_spec()@),
            report.tags@ == tags_of(
                PollTag { actor_id: self.id_spec(), epoch: None },
                self.consumer_spec()@,
            ),
            report.tags@.len() == polls_of(self.consumer_spec()@),
    {
        let ghost all = self.consumer_spec()@;
        let ghost first = PollTag { actor_id: self.id_spec(), epoch: None };
        proof {
            lemma_tags_len(first, all);
        }
        let mut lp = self.start();
        let (mut rest, _id) = self.into_parts();
        let mut tags: Vec<PollTag> = Vec::new();
        assert(tags@ + tags_of(lp.tag, rest@) =~= tags_of(first, all));
        while rest.len() > 0
            invariant
                all == self.consumer_spec()@,
                first == (PollTag { actor_id: self.id_spec(), epoch: None }),
                tags_of(first, all).len() == polls_of(all),
                lp.status == Status::Running,
                outcome_of(all) == outcome_of(rest@),
                tags_of(first, all) == tags@ + tags_of(lp.tag, rest@),
            decreases rest.len(),
        {
            let ghost before = rest@;
            let ghost tag_before = lp.tag;
            let r = rest.remove(0);
            assert(rest@ =~= before.drop_first());
            tags.push(lp.tag);
            match lp.on_poll(r) {
                Step::PollAgain => {
                    assert(tags_of(tag_before, before) =~= seq![tag_before] + tags_of(lp.tag, rest@));
                    assert(tags_of(first, all) =~= tags@ + tags_of(lp.tag, rest@));
                },
                Step::Finish(res) => {
                    assert(step_of(before[0]) == Step::Finish(res));
                    assert(outcome_of(before) == Some(res));
                    assert(tags_of(tag_before, before) == seq![tag_before]);
                    assert(tags_of(first, all) =~= tags@);
                    return RunReport { outcome: Some(res), tags };
                },
            }
        }
        assert(tags_of(first, all) =~= tags@);
        RunReport { outcome: None, tags }
    }
}

} // verus!
