//! Properties of whole runs of the actor loop, stated over the results its
//! consumer yields.
use vstd::prelude::*;

use crate::actor::{next_epoch, outcome_of, polls_of, step_of, tags_of, PollTag, Step};
use crate::poll::{PollResult, StreamError};

verus! {

/// The result of a poll is terminal exactly when the loop leaves after it.
pub proof fn lemma_terminal_iff_finish(r: PollResult)
    ensures
        r.is_terminal() <==> step_of(r) is Finish,
{
}

/// A run over results that are progress or barriers without `Stop`, closed
/// by one `Stop` barrier, succeeds, and polls every result exactly once.
pub proof fn lemma_stop_ends_run(rs: Seq<PollResult>)
    requires
        rs.len() > 0,
        forall|j: int| 0 <= j < rs.len() - 1 ==> !(#[trigger] rs[j]).is_terminal(),
        rs.last() matches PollResult::Barrier(b) && b.is_stop_spec(),
    ensures
        outcome_of(rs) == Some(Ok::<(), StreamError>(())),
        polls_of(rs) == rs.len(),
    decreases rs.len(),
{
    if rs.len() > 1 {
        let rest = rs.drop_first();
        assert forall|j: int| 0 <= j < rest.len() - 1 implies !(#[trigger] rest[j]).is_terminal() by {
            assert(rest[j] == rs[j + 1]);
        }
        assert(rest.last() == rs.last());
        assert(!rs[0].is_terminal());
        lemma_stop_ends_run(rest);
    }
}

/// A run whose first terminal result is a failure at position `k` (counted
/// from 1) returns that failure's error after exactly `k` polls.
pub proof fn lemma_failure_ends_run(rs: Seq<PollResult>, k: int)
    requires
        1 <= k <= rs.len(),
        rs[k - 1] is Failure,
        forall|j: int| 0 <= j < k - 1 ==> !(#[trigger] rs[j]).is_terminal(),
    ensures
        outcome_of(rs) == Some(Err::<(), StreamError>(rs[k - 1]->Failure_0)),
        polls_of(rs) == k,
    decreases k,
{
    if k > 1 {
        let rest = rs.drop_first();
        assert forall|j: int| 0 <= j < k - 2 implies !(#[trigger] rest[j]).is_terminal() by {
            assert(rest[j] == rs[j + 1]);
        }
        assert(rest[k - 2] == rs[k - 1]);
        assert(!rs[0].is_terminal());
        lemma_failure_ends_run(rest, k - 1);
    }
}

/// The epoch of the last barrier among `rs`, or `None` when there is none.
pub open spec fn last_barrier_epoch(rs: Seq<PollResult>) -> Option<u64>
    decreases rs.len(),
{
    if rs.len() == 0 {
        None
    } else {
        match last_barrier_epoch(rs.drop_first()) {
            Some(e) => Some(e),
            None => match rs[0] {
                PollResult::Barrier(b) => Some(b.epoch),
                _ => None,
            },
        }
    }
}

proof fn lemma_tag_epoch(t: PollTag, rs: Seq<PollResult>, j: int)
    requires
        0 <= j < tags_of(t, rs).len(),
    ensures
        j < rs.len(),
        tags_of(t, rs)[j].actor_id == t.actor_id,
        tags_of(t, rs)[j].epoch == match last_barrier_epoch(rs.take(j)) {
            Some(e) => Some(e),
            None => t.epoch,
        },
    decreases rs.len(),
{
    if j == 0 {
        assert(rs.take(0).len() == 0);
    } else {
        let next = PollTag { actor_id: t.actor_id, epoch: next_epoch(t.epoch, rs[0]) };
        let rest = rs.drop_first();
        assert(step_of(rs[0]) is PollAgain);
        assert(tags_of(t, rs)[j] == tags_of(next, rest)[j - 1]);
        lemma_tag_epoch(next, rest, j - 1);
        assert(rs.take(j).drop_first() =~= rest.take(j - 1));
        assert(rs.take(j)[0] == rs[0]);
    }
}

/// Each poll runs under the actor's own identity and under the epoch of the
/// last barrier that came before it; before the first barrier, under no
/// epoch. A tag is thus never stale and never ahead of the barriers seen.
pub proof fn lemma_tag_follows_last_barrier(id: u32, rs: Seq<PollResult>)
    ensures
        forall|j: int|
            0 <= j < polls_of(rs) ==> #[trigger] tags_of(PollTag { actor_id: id, epoch: None }, rs)[j]
                == (PollTag { actor_id: id, epoch: last_barrier_epoch(rs.take(j)) }),
{
    let t = PollTag { actor_id: id, epoch: None };
    crate::actor::lemma_tags_len(t, rs);
    assert forall|j: int| 0 <= j < polls_of(rs) implies #[trigger] tags_of(t, rs)[j] == (PollTag {
        actor_id: id,
        epoch: last_barrier_epoch(rs.take(j)),
    }) by {
        lemma_tag_epoch(t, rs, j);
    }
}

/// `n` results of progress without a barrier.
pub open spec fn progress_run(n: nat) -> Seq<PollResult> {
    Seq::new(n, |i: int| PollResult::Progressed)
}

/// Any number of progress results, zero included, in front of a run cost one
/// poll each under an unchanged tag, and neither end the loop nor change how
/// it ends.
pub proof fn lemma_progress_is_transparent(t: PollTag, n: nat, rs: Seq<PollResult>)
    ensures
        outcome_of(progress_run(n) + rs) == outcome_of(rs),
        polls_of(progress_run(n) + rs) == n + polls_of(rs),
        tags_of(t, progress_run(n) + rs) == Seq::new(n, |i: int| t) + tags_of(t, rs),
    decreases n,
{
    if n == 0 {
        assert(progress_run(0) + rs =~= rs);
        assert(Seq::new(0, |i: int| t) + tags_of(t, rs) =~= tags_of(t, rs));
    } else {
        let s = progress_run(n) + rs;
        lemma_progress_is_transparent(t, (n - 1) as nat, rs);
        assert(s[0] == PollResult::Progressed);
        assert(s.drop_first() =~= progress_run((n - 1) as nat) + rs);
        assert(next_epoch(t.epoch, s[0]) == t.epoch);
        assert(PollTag { actor_id: t.actor_id, epoch: t.epoch } == t);
        assert(seq![t] + (Seq::new((n - 1) as nat, |i: int| t) + tags_of(t, rs)) =~= Seq::new(
            n,
            |i: int| t,
        ) + tags_of(t, rs));
    }
}

proof fn lemma_tags_same_course(id1: u32, id2: u32, e: Option<u64>, rs: Seq<PollResult>)
    ensures
        tags_of(PollTag { actor_id: id1, epoch: e }, rs).len() == tags_of(
            PollTag { actor_id: id2, epoch: e },
            rs,
        ).len(),
        forall|j: int|
            0 <= j < tags_of(PollTag { actor_id: id1, epoch: e }, rs).len() ==> {
                &&& (#[trigger] tags_of(PollTag { actor_id: id1, epoch: e }, rs)[j]).actor_id == id1
                &&& tags_of(PollTag { actor_id: id2, epoch: e }, rs)[j].actor_id == id2
                &&& tags_of(PollTag { actor_id: id1, epoch: e }, rs)[j].epoch == tags_of(
                    PollTag { actor_id: id2, epoch: e },
                    rs,
                )[j].epoch
            },
    decreases rs.len(),
{
    if rs.len() > 0 {
        lemma_tags_same_course(id1, id2, next_epoch(e, rs[0]), rs.drop_first());
    }
}

/// Two actors built with different identities over consumers that yield the
/// same results run the same course: the same outcome after the same number
/// of polls, under the same epochs, each tagging its polls with its own
/// identity only.
pub proof fn lemma_identity_independent(id1: u32, id2: u32, rs: Seq<PollResult>)
    ensures
        tags_of(PollTag { actor_id: id1, epoch: None }, rs).len() == polls_of(rs),
        tags_of(PollTag { actor_id: id2, epoch: None }, rs).len() == polls_of(rs),
        forall|j: int|
            0 <= j < polls_of(rs) ==> {
                &&& (#[trigger] tags_of(PollTag { actor_id: id1, epoch: None }, rs)[j]).actor_id == id1
                &&& tags_of(PollTag { actor_id: id2, epoch: None }, rs)[j].actor_id == id2
                &&& tags_of(PollTag { actor_id: id1, epoch: None }, rs)[j].epoch == tags_of(
                    PollTag { actor_id: id2, epoch: None },
                    rs,
                )[j].epoch
            },
{
    crate::actor::lemma_tags_len(PollTag { actor_id: id1, epoch: None }, rs);
    crate::actor::lemma_tags_len(PollTag { actor_id: id2, epoch: None }, rs);
    lemma_tags_same_course(id1, id2, None, rs);
}

} // verus!
