use vstd::prelude::*;
use std::sync::atomic::AtomicUsize;
use std::sync::atomic::Ordering;
use crate::client::parser_v2::account_manager::account_pool_builder::AccountPoolBuilder;
use crate::client::parser_v2::statistics::{one_less, one_more, spec_one_more, Statistics};
use crate::client::parser_v2::task_publisher::TaskPublisherBuilder;

verus! {

/// The number of workers that the parser lets run side by side.
pub const PARSER_THREADS_LIMIT: usize = 20;

/// What a worker that asks for a slot is told.
#[derive(Debug, Clone, Copy, PartialEq, Eq, Structural)]
pub struct Admission {
    /// The number of workers, this one counted.
    pub running: usize,
    /// Whether the worker has to wait for another one to finish.
    pub wait: bool,
}

/// Counts the workers that run and tells a newcomer whether it has to wait.
/// The count is taken first and the wait begins afterwards, so more workers
/// than the limit may be counted for a while.
#[derive(Debug)]
pub struct ParserThreadCounter {
    number_concurrent_tasks: AtomicUsize,
    limit: usize,
}

impl ParserThreadCounter {
    pub closed spec fn spec_limit(&self) -> usize {
        self.limit
    }

    pub fn new(limit: usize) -> (counter: ParserThreadCounter)
        ensures
            counter.spec_limit() == limit,
    {
        ParserThreadCounter { number_concurrent_tasks: AtomicUsize::new(0), limit }
    }

    /// Whether a worker that is the `running`-th to run has to wait under `limit`.
    pub fn must_wait(running: usize, limit: usize) -> (wait: bool)
        ensures
            wait == (running > limit),
    {
        running > limit
    }

    /// What a worker is told that found `previous` workers counted: it is
    /// counted as one more, and it has to wait where that is above `limit`.
    pub fn admission(previous: usize, limit: usize) -> (admission: Admission)
        ensures
            admission.running == spec_one_more(previous),
            admission.wait == (spec_one_more(previous) > limit),
    {
        let running = one_more(previous);
        Admission { running, wait: ParserThreadCounter::must_wait(running, limit) }
    }

    /// Counts one worker more, here and in the statistics, and tells the
    /// worker what [`ParserThreadCounter::admission`] gives for the count
    /// found. The count is shared with the workers that finish meanwhile, so
    /// nothing is claimed of the number; whatever it is, the worker is to
    /// wait exactly where the count, this worker included, is above the limit.
    pub fn increase(&self, statistics: &Statistics) -> (admission: Admission)
        ensures
            admission.wait == (admission.running > self.spec_limit()),
    {
        let previous = self.number_concurrent_tasks.fetch_add(1, Ordering::Relaxed);
        statistics.increase_current_running_threads();
        ParserThreadCounter::admission(previous, self.limit)
    }

    /// Counts one worker less, here and in the statistics, and returns
    /// [`one_less`] of the count found. The caller gives notice to one
    /// waiting worker. Nothing is claimed of the number.
    pub fn decrease(&self, statistics: &Statistics) -> usize {
        let running = one_less(self.number_concurrent_tasks.fetch_sub(1, Ordering::Relaxed));
        statistics.decrease_current_running_threads();
        running
    }

    /// The number of workers counted at the moment of the read. Nothing is
    /// claimed of it: workers come and go meanwhile.
    pub fn running(&self) -> usize {
        self.number_concurrent_tasks.load(Ordering::Relaxed)
    }
}

/// What a parser is built from.
pub struct ParserBuilder {
    pub task_publisher_builder: TaskPublisherBuilder,
    pub account_pool_builder: AccountPoolBuilder,
}

impl ParserBuilder {
    pub fn new(
        task_publisher_builder: TaskPublisherBuilder,
        account_pool_builder: AccountPoolBuilder,
    ) -> (builder: ParserBuilder)
        ensures
            builder.task_publisher_builder == task_publisher_builder,
            builder.account_pool_builder == account_pool_builder,
    {
        ParserBuilder { task_publisher_builder, account_pool_builder }
    }

    /// The counter of the parser that is built.
    pub fn thread_counter(&self) -> (counter: ParserThreadCounter)
        ensures
            counter.spec_limit() == PARSER_THREADS_LIMIT,
    {
        ParserThreadCounter::new(PARSER_THREADS_LIMIT)
    }
}

} // verus!
