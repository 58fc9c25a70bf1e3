use crate::map::JobMap;
use crate::models::{Job, JobIdentifier, JobQueueError, JobRequest, JobStatus, JobType, JobView};
use crate::queue::JobQueue;
use vstd::prelude::*;

verus! {

/// The dispatch service: the authoritative store of job records and one
/// FIFO lane of queued job ids per priority class.
pub struct Dispatcher {
    store: JobMap,
    high: JobQueue,
    low: JobQueue,
}

/// The mathematical state of the service: the record held for each id, and
/// the ids waiting in each lane, head first.
pub ghost struct DispatcherView {
    pub store: Map<Seq<char>, JobView>,
    pub high: Seq<Seq<char>>,
    pub low: Seq<Seq<char>>,
}

impl View for Dispatcher {
    type V = DispatcherView;

    closed spec fn view(&self) -> DispatcherView {
        DispatcherView { store: self.store@, high: self.high@, low: self.low@ }
    }
}

/// Every id in `lane` names a store record that is still `Queued` and has the
/// priority class `ty`, and no id occurs in the lane twice.
pub open spec fn lane_wf(lane: Seq<Seq<char>>, store: Map<Seq<char>, JobView>, ty: JobType) -> bool {
    &&& forall|i: int|
        0 <= i < lane.len() ==> {
            &&& store.contains_key(#[trigger] lane[i])
            &&& store[lane[i]].job_status == JobStatus::Queued
            &&& store[lane[i]].job_type == ty
        }
    &&& forall|i: int, j: int|
        #![trigger lane[i], lane[j]]
        0 <= i < lane.len() && 0 <= j < lane.len() && i != j ==> lane[i] != lane[j]
}

impl DispatcherView {
    /// The invariants of the service state: each record is keyed by its own
    /// id, a claimant is recorded exactly while the job is past `Queued`,
    /// and each lane holds only distinct, still-queued ids of its own
    /// priority class (so a job sits in at most one lane, and only while
    /// `Queued`).
    pub open spec fn wf(self) -> bool {
        &&& self.store.dom().finite()
        &&& forall|id: Seq<char>| #[trigger]
            self.store.contains_key(id) ==> self.store[id].id == id
        &&& forall|id: Seq<char>| #[trigger]
            self.store.contains_key(id) ==> (self.store[id].job_implementer is Some
                <==> self.store[id].job_status != JobStatus::Queued)
        &&& lane_wf(self.high, self.store, JobType::TimeCritical)
        &&& lane_wf(self.low, self.store, JobType::NotTimeCritical)
    }
}

/// The record a submission writes: `Queued`, no claimant.
pub open spec fn queued_record(id: Seq<char>, ty: JobType) -> JobView {
    JobView { id: id, job_type: ty, job_status: JobStatus::Queued, job_implementer: None }
}

/// The record a claim writes back: `InProgress`, claimed by `consumer`; id
/// and priority class are kept.
pub open spec fn claimed_record(j: JobView, consumer: Seq<char>) -> JobView {
    JobView {
        id: j.id,
        job_type: j.job_type,
        job_status: JobStatus::InProgress,
        job_implementer: Some(consumer),
    }
}

/// The record a completion report writes back: `Concluded`; id, priority
/// class and claimant are kept.
pub open spec fn concluded_record(j: JobView) -> JobView {
    JobView {
        id: j.id,
        job_type: j.job_type,
        job_status: JobStatus::Concluded,
        job_implementer: j.job_implementer,
    }
}

/// How a successful submission changes the state: a record for the fresh id
/// `id` is created `Queued`, and `id` is appended to the lane of its
/// priority class; nothing else moves.
pub open spec fn submit_step(
    pre: DispatcherView,
    post: DispatcherView,
    ty: JobType,
    id: Seq<char>,
) -> bool {
    &&& !pre.store.contains_key(id)
    &&& post.store == pre.store.insert(id, queued_record(id, ty))
    &&& match ty {
        JobType::TimeCritical => post.high == pre.high.push(id) && post.low == pre.low,
        JobType::NotTimeCritical => post.low == pre.low.push(id) && post.high == pre.high,
    }
}

/// How a successful claim changes the state: the head of the high lane — or
/// of the low lane only when the high lane is empty — leaves its lane, and
/// its record is marked `InProgress` with `consumer` as claimant.
pub open spec fn claim_step(
    pre: DispatcherView,
    post: DispatcherView,
    consumer: Seq<char>,
    id: Seq<char>,
) -> bool {
    &&& if pre.high.len() > 0 {
        &&& id == pre.high[0]
        &&& post.high == pre.high.drop_first()
        &&& post.low == pre.low
    } else {
        &&& pre.low.len() > 0
        &&& id == pre.low[0]
        &&& post.low == pre.low.drop_first()
        &&& post.high == pre.high
    }
    &&& pre.store.contains_key(id)
    &&& post.store == pre.store.insert(id, claimed_record(pre.store[id], consumer))
}

/// How a successful completion report changes the state: the record of `id`,
/// claimed by `caller`, is marked `Concluded`; the lanes do not move.
pub open spec fn conclude_step(
    pre: DispatcherView,
    post: DispatcherView,
    id: Seq<char>,
    caller: Seq<char>,
) -> bool {
    &&& pre.store.contains_key(id)
    &&& pre.store[id].job_implementer == Some(caller)
    &&& post.store == pre.store.insert(id, concluded_record(pre.store[id]))
    &&& post.high == pre.high
    &&& post.low == pre.low
}

/// Law: ids handed out by successive submissions are distinct, and a fresh
/// submission reads back `Queued` with no claimant. A submission only ever
/// creates a record under an id the store did not yet hold, and no operation
/// between the two submissions loses an id.
pub proof fn lemma_submitted_ids_unique(
    s0: DispatcherView,
    s1: DispatcherView,
    s2: DispatcherView,
    s3: DispatcherView,
    t1: JobType,
    t2: JobType,
    id1: Seq<char>,
    id2: Seq<char>,
)
    requires
        submit_step(s0, s1, t1, id1),
        s1.store.dom().subset_of(s2.store.dom()),
        submit_step(s2, s3, t2, id2),
    ensures
        id1 != id2,
        s1.store.contains_key(id1) && s1.store[id1] == queued_record(id1, t1),
        s3.store.contains_key(id2) && s3.store[id2] == queued_record(id2, t2),
{
    assert(s2.store.dom().contains(id1));
}

/// Law: a submission never loses a job — every id the store held is kept,
/// and the store grows by exactly the one new record.
pub proof fn lemma_submit_adds_one(
    pre: DispatcherView,
    post: DispatcherView,
    ty: JobType,
    id: Seq<char>,
)
    requires
        pre.store.dom().finite(),
        submit_step(pre, post, ty, id),
    ensures
        pre.store.dom().subset_of(post.store.dom()),
        post.store.contains_key(id),
        post.store.len() == pre.store.len() + 1,
{
    assert(post.store.dom() =~= pre.store.dom().insert(id));
}

/// Law: a claim loses no job record — it rewrites one record in place, so
/// the set of stored ids is unchanged.
pub proof fn lemma_claim_keeps_ids(
    pre: DispatcherView,
    post: DispatcherView,
    consumer: Seq<char>,
    id: Seq<char>,
)
    requires
        claim_step(pre, post, consumer, id),
    ensures
        post.store.dom() =~= pre.store.dom(),
{
}

/// Law: a completion report loses no job record — it rewrites one record in
/// place, so the set of stored ids is unchanged.
pub proof fn lemma_conclude_keeps_ids(
    pre: DispatcherView,
    post: DispatcherView,
    id: Seq<char>,
    caller: Seq<char>,
)
    requires
        conclude_step(pre, post, id, caller),
    ensures
        post.store.dom() =~= pre.store.dom(),
{
}

/// Law: a claim returns a high-priority job whenever the high lane holds
/// any entry, no matter what sits in the low lane: the job claimed is the
/// head of the high lane and its priority class is `TimeCritical`.
pub proof fn lemma_claim_prefers_high(
    pre: DispatcherView,
    post: DispatcherView,
    consumer: Seq<char>,
    id: Seq<char>,
)
    requires
        pre.wf(),
        claim_step(pre, post, consumer, id),
        pre.high.len() > 0,
    ensures
        id == pre.high[0],
        pre.store[id].job_type == JobType::TimeCritical,
{
}

/// Law: FIFO within a lane — while the high lane holds at least two ids,
/// two successive claims return its first two ids, in lane order.
pub proof fn lemma_claim_fifo(
    s0: DispatcherView,
    s1: DispatcherView,
    s2: DispatcherView,
    c1: Seq<char>,
    c2: Seq<char>,
    id1: Seq<char>,
    id2: Seq<char>,
)
    requires
        claim_step(s0, s1, c1, id1),
        claim_step(s1, s2, c2, id2),
        s0.high.len() >= 2,
    ensures
        id1 == s0.high[0],
        id2 == s0.high[1],
{
    assert(s1.high == s0.high.drop_first());
    assert(s1.high[0] == s0.high[1]);
}

/// Law: after a claim for `consumer`, the claimed record reads back
/// `InProgress` with that consumer recorded as claimant.
pub proof fn lemma_claim_then_inspect(
    pre: DispatcherView,
    post: DispatcherView,
    consumer: Seq<char>,
    id: Seq<char>,
)
    requires
        claim_step(pre, post, consumer, id),
    ensures
        post.store.contains_key(id),
        post.store[id].job_status == JobStatus::InProgress,
        post.store[id].job_implementer == Some(consumer),
{
}

/// Law: after a successful completion report by `caller`, the record reads
/// back `Concluded`, still claimed by that caller.
pub proof fn lemma_conclude_then_inspect(
    pre: DispatcherView,
    post: DispatcherView,
    id: Seq<char>,
    caller: Seq<char>,
)
    requires
        conclude_step(pre, post, id, caller),
    ensures
        post.store.contains_key(id),
        post.store[id].job_status == JobStatus::Concluded,
        post.store[id].job_implementer == Some(caller),
{
}

/// Relies on uuid::Uuid::new_v4 and its Display form: a randomly drawn
/// version-4 identifier, rendered hyphenated as exactly 36 characters.
/// Nothing is promised about which identifier comes back.
#[verifier::external_body]
fn fresh_id() -> (r: String)
    ensures
        r@.len() == 36,
{
    uuid::Uuid::new_v4().to_string()
}

impl Dispatcher {
    /// A service with no records and both lanes empty.
    pub fn new() -> (d: Dispatcher)
        ensures
            d@.wf(),
            d@.store == Map::<Seq<char>, JobView>::empty(),
            d@.high == Seq::<Seq<char>>::empty(),
            d@.low == Seq::<Seq<char>>::empty(),
    {
        Dispatcher { store: JobMap::new(), high: JobQueue::new(), low: JobQueue::new() }
    }

    /// Submits a new job: draws a fresh id, records the job as `Queued` and
    /// appends the id to the lane of its priority class. Fails with
    /// `InternalError` only when the drawn id collides with a live record,
    /// which would break the rule that ids are never reused; the state is
    /// then unchanged. A drawn id is 36 characters long, so while the store
    /// holds no 36-character id — on a fresh service in particular — no draw
    /// can collide and submission is owed success.
    pub fn enqueue(&mut self, job: JobRequest) -> (r: Result<JobIdentifier, JobQueueError>)
        requires
            old(self)@.wf(),
        ensures
            final(self)@.wf(),
            r matches Ok(jid) ==> submit_step(old(self)@, final(self)@, job.job_type, jid.id@)
                && jid.id@.len() == 36,
            r matches Err(e) ==> e == JobQueueError::InternalError && final(self)@ == old(self)@,
            r matches Err(e) ==> exists|id: Seq<char>|
                old(self)@.store.contains_key(id) && id.len() == 36,
    {
        let job_id = fresh_id();
        self.enqueue_with_id(job.job_type, job_id)
    }

    /// Submits a new job under the given id. Succeeds if and only if no
    /// record holds that id yet; on a collision the state is unchanged and
    /// the caller gets `InternalError`.
    pub fn enqueue_with_id(&mut self, job_type: JobType, job_id: String) -> (r: Result<
        JobIdentifier,
        JobQueueError,
    >)
        requires
            old(self)@.wf(),
        ensures
            final(self)@.wf(),
            old(self)@.store.contains_key(job_id@) ==> r == Err::<JobIdentifier, JobQueueError>(
                JobQueueError::InternalError,
            ) && final(self)@ == old(self)@,
            !old(self)@.store.contains_key(job_id@) ==> (r matches Ok(jid) && jid.id@ == job_id@)
                && submit_step(old(self)@, final(self)@, job_type, job_id@),
    {
        if let Ok(_) = self.store.get(&job_id) {
            return Err(JobQueueError::InternalError);
        }
        let job_data = Job {
            id: job_id.clone(),
            job_type,
            job_status: JobStatus::Queued,
            job_implementer: None,
        };
        match self.store.insert(&job_id, job_data) {
            Ok(_) => (),
            Err(_) => {
                return Err(JobQueueError::InternalError);
            },
        }
        let lane_result = match job_type {
            JobType::TimeCritical => self.high.enqueue(job_id),
            JobType::NotTimeCritical => self.low.enqueue(job_id),
        };
        match lane_result {
            Ok(id) => Ok(JobIdentifier { id }),
            Err(_) => Err(JobQueueError::InternalError),
        }
    }

    /// Claims the next job for `queue_consumer`: the head of the high lane,
    /// or of the low lane only when the high lane is empty. The claimed
    /// record is marked `InProgress` with the consumer as claimant and is
    /// returned. Fails with `NotFound` exactly when both lanes are empty,
    /// leaving the state unchanged.
    pub fn dequeue(&mut self, queue_consumer: String) -> (r: Result<Job, JobQueueError>)
        requires
            old(self)@.wf(),
        ensures
            final(self)@.wf(),
            r matches Ok(job) ==> claim_step(old(self)@, final(self)@, queue_consumer@, job@.id)
                && job@ == final(self)@.store[job@.id],
            old(self)@.high.len() > 0 ==> (r matches Ok(job) && job@.id == old(self)@.high[0]),
            old(self)@.high.len() == 0 && old(self)@.low.len() > 0 ==> (r matches Ok(job)
                && job@.id == old(self)@.low[0]),
            (old(self)@.high.len() == 0 && old(self)@.low.len() == 0) <==> r == Err::<
                Job,
                JobQueueError,
            >(JobQueueError::NotFound),
            r matches Err(e) ==> e == JobQueueError::NotFound && final(self)@ == old(self)@,
    {
        let high_head = match self.high.dequeue() {
            Ok(head) => head,
            Err(e) => {
                return Err(e);
            },
        };
        match high_head {
            Some(id) => self.mark_in_progress(id, queue_consumer),
            None => {
                let low_head = match self.low.dequeue() {
                    Ok(head) => head,
                    Err(e) => {
                        return Err(e);
                    },
                };
                match low_head {
                    Some(id) => self.mark_in_progress(id, queue_consumer),
                    None => Err(JobQueueError::NotFound),
                }
            },
        }
    }

    /// Fetches the record of a just-popped lane entry and writes it back
    /// `InProgress`, claimed by `queue_consumer`. The id names a queued
    /// record that no lane holds any more.
    fn mark_in_progress(&mut self, id: String, queue_consumer: String) -> (r: Result<
        Job,
        JobQueueError,
    >)
        requires
            old(self)@.wf(),
            old(self)@.store.contains_key(id@),
            old(self)@.store[id@].job_status == JobStatus::Queued,
            forall|i: int| 0 <= i < old(self)@.high.len() ==> old(self)@.high[i] != id@,
            forall|i: int| 0 <= i < old(self)@.low.len() ==> old(self)@.low[i] != id@,
        ensures
            final(self)@.wf(),
            final(self)@.high == old(self)@.high,
            final(self)@.low == old(self)@.low,
            final(self)@.store == old(self)@.store.insert(
                id@,
                claimed_record(old(self)@.store[id@], queue_consumer@),
            ),
            r matches Ok(job) && job@ == claimed_record(old(self)@.store[id@], queue_consumer@),
    {
        let current = match self.store.get(&id) {
            Ok(job) => job,
            Err(_) => {
                return Err(JobQueueError::InternalError);
            },
        };
        let new = Job {
            id: current.id.clone(),
            job_type: current.job_type,
            job_status: JobStatus::InProgress,
            job_implementer: Some(queue_consumer),
        };
        match self.store.insert(&current.id, new.clone()) {
            Ok(_) => Ok(new),
            Err(_) => Err(JobQueueError::InternalError),
        }
    }

    /// Reports the job as finished. Fails with `NotFound` when no record
    /// holds the id, and with `Unauthorized` when the record has no claimant
    /// or the claimant is not the caller; otherwise the record is written
    /// back `Concluded`. The state is unchanged on every failure.
    pub fn conclude(&mut self, job_id: &String, queue_consumer: &String) -> (r: Result<
        (),
        JobQueueError,
    >)
        requires
            old(self)@.wf(),
        ensures
            final(self)@.wf(),
            !old(self)@.store.contains_key(job_id@) ==> r == Err::<(), JobQueueError>(
                JobQueueError::NotFound,
            ) && final(self)@ == old(self)@,
            old(self)@.store.contains_key(job_id@) && old(self)@.store[job_id@].job_implementer
                == Some(queue_consumer@) ==> (r matches Ok(u) && conclude_step(
                old(self)@,
                final(self)@,
                job_id@,
                queue_consumer@,
            )),
            old(self)@.store.contains_key(job_id@) && old(self)@.store[job_id@].job_implementer
                != Some(queue_consumer@) ==> r == Err::<(), JobQueueError>(
                JobQueueError::Unauthorized,
            ) && final(self)@ == old(self)@,
    {
        let job = match self.store.get(job_id) {
            Ok(job) => job,
            Err(e) => {
                return Err(e);
            },
        };
        match &job.job_implementer {
            None => {
                return Err(JobQueueError::Unauthorized);
            },
            Some(implementer) => {
                if !(*implementer == *queue_consumer) {
                    return Err(JobQueueError::Unauthorized);
                }
            },
        }
        let concluded = Job {
            id: job.id,
            job_type: job.job_type,
            job_status: JobStatus::Concluded,
            job_implementer: job.job_implementer,
        };
        match self.store.insert(job_id, concluded) {
            Ok(_) => Ok(()),
            Err(_) => Err(JobQueueError::InternalError),
        }
    }

    /// Returns the current record for the id, or `NotFound` if none exists.
    /// A pure read: the state never changes.
    pub fn get_job(&self, job_id: &String) -> (r: Result<Job, JobQueueError>)
        ensures
            match r {
                Ok(job) => self@.store.contains_key(job_id@) && job@ == self@.store[job_id@],
                Err(e) => e == JobQueueError::NotFound && !self@.store.contains_key(job_id@),
            },
    {
        self.store.get(job_id)
    }

    /// The number of job records the store holds.
    pub fn job_count(&self) -> (n: usize)
        ensures
            n == self@.store.len(),
    {
        self.store.len()
    }
}

} // verus!
