//! The execution core of a streaming dataflow actor: barriers and their
//! mutations, the per-poll decision step of an actor's run loop, a replay of
//! that loop over a finite sequence of poll results, the laws that whole runs
//! obey, and the configuration of a one-shot file scan.
pub mod actor;
pub mod barrier;
pub mod laws;
pub mod poll;
pub mod scan;
