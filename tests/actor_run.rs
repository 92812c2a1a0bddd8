use stream_actor::actor::{Actor, ActorLoop, PollTag, RunReport, Status, Step};
use stream_actor::barrier::{Barrier, Mutation};
use stream_actor::poll::{PollResult, StreamError};

fn barrier(epoch: u64) -> PollResult {
    PollResult::Barrier(Barrier::new(epoch))
}

fn stop(epoch: u64) -> PollResult {
    PollResult::Barrier(Barrier::with_mutation(epoch, Mutation::Stop))
}

fn failure(message: &str) -> PollResult {
    PollResult::Failure(StreamError::new(message.to_string()))
}

fn run(id: u32, results: Vec<PollResult>) -> RunReport {
    Actor::new(results, id).run_scripted()
}

fn epochs(report: &RunReport) -> Vec<Option<u64>> {
    report.tags.iter().map(|t| t.epoch).collect()
}

#[test]
fn scenario_progress_barrier_then_stop() {
    let report = run(
        7,
        vec![PollResult::Progressed, barrier(1), PollResult::Progressed, stop(2)],
    );
    assert!(matches!(report.outcome, Some(Ok(()))));
    assert_eq!(report.polls(), 4);
    assert_eq!(epochs(&report), vec![None, None, Some(1), Some(1)]);
}

#[test]
fn scenario_failure_after_barrier() {
    let report = run(3, vec![barrier(1), failure("disk error"), barrier(2), stop(3)]);
    match &report.outcome {
        Some(Err(e)) => assert_eq!(e.message(), "disk error"),
        other => panic!("expected a failure, got {:?}", other),
    }
    assert_eq!(report.polls(), 2);
    assert_eq!(epochs(&report), vec![None, Some(1)]);
}

#[test]
fn scenario_stop_on_first_poll() {
    let report = run(9, vec![stop(5), barrier(6)]);
    assert!(matches!(report.outcome, Some(Ok(()))));
    assert_eq!(report.polls(), 1);
    assert_eq!(report.tags, vec![PollTag { actor_id: 9, epoch: None }]);
}

#[test]
fn stop_after_many_non_stop_results_polls_each_once() {
    let mut results = Vec::new();
    for e in 1..=20u64 {
        results.push(PollResult::Progressed);
        results.push(PollResult::Barrier(Barrier::with_mutation(e, Mutation::Pause)));
        results.push(PollResult::Barrier(Barrier::with_mutation(e, Mutation::Resume)));
    }
    results.push(stop(21));
    let n = results.len();
    let report = run(1, results);
    assert!(matches!(report.outcome, Some(Ok(()))));
    assert_eq!(report.polls(), n);
}

#[test]
fn failure_at_first_position_polls_once() {
    let report = run(1, vec![failure("boom"), stop(1)]);
    match &report.outcome {
        Some(Err(e)) => assert_eq!(e.message(), "boom"),
        other => panic!("expected a failure, got {:?}", other),
    }
    assert_eq!(report.polls(), 1);
}

#[test]
fn tags_follow_non_decreasing_epochs() {
    let report = run(
        4,
        vec![
            PollResult::Progressed,
            barrier(1),
            barrier(1),
            PollResult::Progressed,
            barrier(3),
            barrier(8),
            stop(9),
        ],
    );
    assert_eq!(
        epochs(&report),
        vec![None, None, Some(1), Some(1), Some(1), Some(3), Some(8)]
    );
    assert!(report.tags.iter().all(|t| t.actor_id == 4));
}

#[test]
fn progress_alone_never_ends_the_run() {
    let report = run(2, vec![PollResult::Progressed; 50]);
    assert!(report.outcome.is_none());
    assert_eq!(report.polls(), 50);
    assert!(report.tags.iter().all(|t| t.epoch.is_none()));
}

#[test]
fn empty_script_makes_no_poll() {
    let report = run(2, Vec::new());
    assert!(report.outcome.is_none());
    assert_eq!(report.polls(), 0);
}

#[test]
fn progress_keeps_the_tag_after_a_barrier() {
    let report = run(
        2,
        vec![barrier(4), PollResult::Progressed, PollResult::Progressed, PollResult::Progressed],
    );
    assert!(report.outcome.is_none());
    assert_eq!(epochs(&report), vec![None, Some(4), Some(4), Some(4)]);
}

#[test]
fn actors_with_different_ids_run_the_same_course() {
    let script = || vec![PollResult::Progressed, barrier(2), barrier(5), stop(6)];
    let a = run(10, script());
    let b = run(11, script());
    assert_eq!(a.polls(), b.polls());
    assert_eq!(epochs(&a), epochs(&b));
    assert!(a.tags.iter().all(|t| t.actor_id == 10));
    assert!(b.tags.iter().all(|t| t.actor_id == 11));
    assert!(matches!(a.outcome, Some(Ok(()))));
    assert!(matches!(b.outcome, Some(Ok(()))));
}

#[test]
fn actor_new_keeps_id_and_consumer() {
    let actor = Actor::new(vec![barrier(1)], 42);
    assert_eq!(actor.id(), 42);
    let l = actor.start();
    assert_eq!(l.tag(), PollTag { actor_id: 42, epoch: None });
    assert_eq!(l.status, Status::Running);
    let (consumer, id) = actor.into_parts();
    assert_eq!(id, 42);
    assert_eq!(consumer.len(), 1);
}

#[test]
fn on_poll_transitions() {
    let mut l = ActorLoop::new(5);
    assert!(matches!(l.on_poll(PollResult::Progressed), Step::PollAgain));
    assert_eq!(l.tag().epoch, None);
    assert!(matches!(l.on_poll(barrier(3)), Step::PollAgain));
    assert_eq!(l.tag(), PollTag { actor_id: 5, epoch: Some(3) });
    assert_eq!(l.status, Status::Running);
    assert!(matches!(l.on_poll(stop(4)), Step::Finish(Ok(()))));
    assert_eq!(l.status, Status::Stopped);
    assert_eq!(l.tag().epoch, Some(3));

    let mut f = ActorLoop::new(6);
    match f.on_poll(failure("no space")) {
        Step::Finish(Err(e)) => assert_eq!(e.message(), "no space"),
        other => panic!("expected a failure, got {:?}", other),
    }
    assert_eq!(f.status, Status::Failed);
}
