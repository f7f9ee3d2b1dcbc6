use vstd::prelude::*;
use std::sync::atomic::AtomicUsize;
use std::sync::atomic::Ordering;

verus! {

/// The counters of the running crawler. Each is changed by one relaxed atomic
/// step and read by one; nothing orders the steps on different counters.
///
/// The counters are shared by all threads, so what a step finds in a counter
/// is not known to the thread that makes it, and the functions that count
/// claim nothing of the numbers they return. What a step returns for the
/// number it found is stated by [`one_more`] and [`one_less`].
#[derive(Debug, Default)]
pub struct Statistics {
    current_running_threads: AtomicUsize,
    started_parsing_tasks: AtomicUsize,
    failed_parsing_tasks: AtomicUsize,
    other_errors: AtomicUsize,
    access_failed_parsing_tasks: AtomicUsize,
    successful_parsing_tasks: AtomicUsize,
    total_number_of_accounts: AtomicUsize,
    threads_waiting_for_refresh: AtomicUsize,
}

/// What the counters showed when they were read, one after the other.
#[derive(Debug, Clone, Copy, PartialEq, Eq, Structural)]
pub struct StatisticsSnapshot {
    pub current_running_threads: usize,
    pub started_parsing_tasks: usize,
    pub failed_parsing_tasks: usize,
    pub other_errors: usize,
    pub access_failed_parsing_tasks: usize,
    pub successful_parsing_tasks: usize,
    pub total_number_of_accounts: usize,
    pub threads_waiting_for_refresh: usize,
}

/// What a counter shows after one was added to `previous`; the count starts
/// over past the largest number.
pub open spec fn spec_one_more(previous: usize) -> usize {
    if previous == usize::MAX {
        0
    } else {
        (previous + 1) as usize
    }
}

/// What a counter shows after one was taken from `previous`; below zero the
/// count goes on from the largest number.
pub open spec fn spec_one_less(previous: usize) -> usize {
    if previous == 0 {
        usize::MAX
    } else {
        (previous - 1) as usize
    }
}

/// What a counter shows after one was added to `previous`.
pub fn one_more(previous: usize) -> (count: usize)
    ensures
        count == spec_one_more(previous),
{
    if previous == usize::MAX {
        0
    } else {
        previous + 1
    }
}

/// What a counter shows after one was taken from `previous`.
pub fn one_less(previous: usize) -> (count: usize)
    ensures
        count == spec_one_less(previous),
{
    if previous == 0 {
        usize::MAX
    } else {
        previous - 1
    }
}

impl Statistics {
    /// Counters that are all created with zero.
    pub fn new() -> Statistics {
        Statistics {
            current_running_threads: AtomicUsize::new(0),
            started_parsing_tasks: AtomicUsize::new(0),
            failed_parsing_tasks: AtomicUsize::new(0),
            other_errors: AtomicUsize::new(0),
            access_failed_parsing_tasks: AtomicUsize::new(0),
            successful_parsing_tasks: AtomicUsize::new(0),
            total_number_of_accounts: AtomicUsize::new(0),
            threads_waiting_for_refresh: AtomicUsize::new(0),
        }
    }

    /// Counts one running worker more; returns [`one_more`] of the count found.
    pub fn increase_current_running_threads(&self) -> usize {
        one_more(self.current_running_threads.fetch_add(1, Ordering::Relaxed))
    }

    /// Counts one running worker less; returns [`one_less`] of the count found.
    pub fn decrease_current_running_threads(&self) -> usize {
        one_less(self.current_running_threads.fetch_sub(1, Ordering::Relaxed))
    }

    /// Counts one started task more; returns [`one_more`] of the count found.
    pub fn increase_started_parsing_tasks(&self) -> usize {
        one_more(self.started_parsing_tasks.fetch_add(1, Ordering::Relaxed))
    }

    /// Counts one failed task more; returns [`one_more`] of the count found.
    pub fn increase_failed_parsing_tasks(&self) -> usize {
        one_more(self.failed_parsing_tasks.fetch_add(1, Ordering::Relaxed))
    }

    /// Counts one other error more; returns [`one_more`] of the count found.
    pub fn increase_other_errors(&self) -> usize {
        one_more(self.other_errors.fetch_add(1, Ordering::Relaxed))
    }

    /// Counts one task refused for want of access more; returns [`one_more`] of
    /// the count found.
    pub fn increase_access_failed_parsing_tasks(&self) -> usize {
        one_more(self.access_failed_parsing_tasks.fetch_add(1, Ordering::Relaxed))
    }

    /// Counts one finished task more; returns [`one_more`] of the count found.
    pub fn increase_successful_parsing_tasks(&self) -> usize {
        one_more(self.successful_parsing_tasks.fetch_add(1, Ordering::Relaxed))
    }

    /// Counts one authenticated account more; returns [`one_more`] of the count
    /// found.
    pub fn increase_total_number_of_accounts(&self) -> usize {
        one_more(self.total_number_of_accounts.fetch_add(1, Ordering::Relaxed))
    }

    /// Counts one authenticated account less; returns [`one_less`] of the count
    /// found.
    pub fn decrease_total_number_of_accounts(&self) -> usize {
        one_less(self.total_number_of_accounts.fetch_sub(1, Ordering::Relaxed))
    }

    /// Counts one worker more that waits for a quota; returns [`one_more`] of
    /// the count found.
    pub fn increase_threads_waiting_for_refresh(&self) -> usize {
        one_more(self.threads_waiting_for_refresh.fetch_add(1, Ordering::Relaxed))
    }

    /// Counts one worker less that waits for a quota; returns [`one_less`] of
    /// the count found.
    pub fn decrease_threads_waiting_for_refresh(&self) -> usize {
        one_less(self.threads_waiting_for_refresh.fetch_sub(1, Ordering::Relaxed))
    }

    /// Reads the counters one after the other. Other threads may count between
    /// two reads, so the numbers need not have stood in the counters together.
    pub fn get_snapshot(&self) -> StatisticsSnapshot {
        StatisticsSnapshot {
            current_running_threads: self.current_running_threads.load(Ordering::Relaxed),
            started_parsing_tasks: self.started_parsing_tasks.load(Ordering::Relaxed),
            failed_parsing_tasks: self.failed_parsing_tasks.load(Ordering::Relaxed),
            other_errors: self.other_errors.load(Ordering::Relaxed),
            access_failed_parsing_tasks: self.access_failed_parsing_tasks.load(Ordering::Relaxed),
            successful_parsing_tasks: self.successful_parsing_tasks.load(Ordering::Relaxed),
            total_number_of_accounts: self.total_number_of_accounts.load(Ordering::Relaxed),
            threads_waiting_for_refresh: self.threads_waiting_for_refresh.load(Ordering::Relaxed),
        }
    }
}

} // verus!
