use crate::models::JobQueueError;
use std::collections::VecDeque;
use vstd::prelude::*;

verus! {

/// A priority lane: a strict FIFO queue of job identifiers within one
/// priority class. Viewed as the sequence of queued ids, head first.
pub struct JobQueue {
    queue: VecDeque<String>,
}

impl View for JobQueue {
    type V = Seq<Seq<char>>;

    closed spec fn view(&self) -> Seq<Seq<char>> {
        self.queue@.map_values(|s: String| s@)
    }
}

impl JobQueue {
    pub fn new() -> (r: Self)
        ensures
            r@ == Seq::<Seq<char>>::empty(),
    {
        let queue = VecDeque::new();
        let r = Self { queue };
        proof {
            assert(r@ =~= Seq::<Seq<char>>::empty());
        }
        r
    }

    /// Appends `id` to the tail of the lane and hands the id back. Always
    /// succeeds: the lane has no capacity bound.
    pub fn enqueue(&mut self, id: String) -> (r: Result<String, JobQueueError>)
        ensures
            final(self)@ == old(self)@.push(id@),
            r matches Ok(out) && out@ == id@,
    {
        self.queue.push_back(id.clone());
        proof {
            assert(self@ =~= old(self)@.push(id@));
        }
        Ok(id)
    }

    /// Removes and returns the identifier at the head, or `None` when the
    /// lane is empty. An empty lane is not an error.
    pub fn dequeue(&mut self) -> (r: Result<Option<String>, JobQueueError>)
        ensures
            old(self)@.len() == 0 ==> r == Ok::<Option<String>, JobQueueError>(None)
                && final(self)@ == old(self)@,
            old(self)@.len() > 0 ==> final(self)@ == old(self)@.drop_first() && (r matches Ok(out)
                && out matches Some(id) && id@ == old(self)@[0]),
    {
        let out = self.queue.pop_front();
        proof {
            if old(self)@.len() > 0 {
                assert(self@ =~= old(self)@.drop_first());
            }
        }
        Ok(out)
    }

    /// The number of ids waiting in the lane.
    pub fn len(&self) -> (n: usize)
        ensures
            n == self@.len(),
    {
        self.queue.len()
    }
}

} // verus!
