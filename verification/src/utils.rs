//! Run queue of the cooperative loop.
//!
//! Each inbound call becomes a unit of work of its own, so that accepting
//! the next call never waits for the one before. Units of work are taken up
//! in the order in which they were spawned.

use vstd::prelude::*;
use std::collections::VecDeque;

verus! {

/// Units of work that wait to be run, oldest first.
pub struct RunQueue<T> {
    tasks: VecDeque<T>,
}

impl<T> View for RunQueue<T> {
    type V = Seq<T>;

    closed spec fn view(&self) -> Seq<T> {
        self.tasks@
    }
}

impl<T> RunQueue<T> {
    /// A queue in which nothing waits.
    pub fn new() -> (queue: RunQueue<T>)
        ensures
            queue@ == Seq::<T>::empty(),
    {
        RunQueue { tasks: VecDeque::new() }
    }

    /// Number of units of work that wait.
    pub fn len(&self) -> (len: usize)
        ensures
            len == self@.len(),
    {
        self.tasks.len()
    }

    /// Tells whether nothing waits.
    pub fn is_empty(&self) -> (empty: bool)
        ensures
            empty == (self@.len() == 0),
    {
        self.tasks.len() == 0
    }

    /// Takes the unit of work that has waited longest, if any waits.
    pub fn take_next(&mut self) -> (task: Option<T>)
        ensures
            match task {
                Some(first) => old(self)@.len() > 0 && first == old(self)@[0] && final(self)@
                    == old(self)@.drop_first(),
                None => old(self)@.len() == 0 && final(self)@ == old(self)@,
            },
    {
        let task = self.tasks.pop_front();
        proof {
            if old(self)@.len() > 0 {
                assert(self@ =~= old(self)@.drop_first());
            }
        }
        task
    }
}

/// Schedules `task` behind everything that already waits in `queue`.
pub fn spawn<T>(queue: &mut RunQueue<T>, task: T)
    ensures
        final(queue)@ == old(queue)@.push(task),
{
    queue.tasks.push_back(task);
}

} // verus!
