use vstd::prelude::*;

verus! {

/// Errors the dispatch operations can return.
#[derive(Clone, Copy, PartialEq, Eq, Structural, Debug)]
pub enum JobQueueError {
    /// A storage write failed or an internal invariant was violated.
    InternalError,
    /// The requested operation is not offered.
    NotImplemented,
    /// The referenced job does not exist, or no work is available.
    NotFound,
    /// The caller is not the recorded claimant of the job.
    Unauthorized,
}

/// The id of a newly submitted job, handed back to the submitter.
#[derive(Debug)]
pub struct JobIdentifier {
    pub id: String,
}

/// A submission request: the priority class the new job should get.
#[derive(Clone, Copy, PartialEq, Eq, Structural, Debug)]
pub struct JobRequest {
    pub job_type: JobType,
}

/// Priority class of a job, fixed at submission.
#[derive(Clone, Copy, PartialEq, Eq, Structural, Debug)]
pub enum JobType {
    TimeCritical,
    NotTimeCritical,
}

/// Lifecycle state of a job; it only ever advances
/// Queued -> InProgress -> Concluded.
#[derive(Clone, Copy, PartialEq, Eq, Structural, Debug)]
pub enum JobStatus {
    Queued,
    InProgress,
    Concluded,
}

/// One job record: identity, priority class, lifecycle state, and the
/// identity of the party holding the claim, once one exists.
#[derive(Debug)]
pub struct Job {
    pub id: String,
    pub job_type: JobType,
    pub job_status: JobStatus,
    pub job_implementer: Option<String>,
}

/// The mathematical value of a job record: the id and the claimant as
/// sequences of characters.
pub ghost struct JobView {
    pub id: Seq<char>,
    pub job_type: JobType,
    pub job_status: JobStatus,
    pub job_implementer: Option<Seq<char>>,
}

impl View for Job {
    type V = JobView;

    open spec fn view(&self) -> JobView {
        JobView {
            id: self.id@,
            job_type: self.job_type,
            job_status: self.job_status,
            job_implementer: match self.job_implementer {
                Some(s) => Some(s@),
                None => None,
            },
        }
    }
}

impl Clone for Job {
    fn clone(&self) -> (r: Self)
        ensures
            r@ == self@,
    {
        Job {
            id: self.id.clone(),
            job_type: self.job_type,
            job_status: self.job_status,
            job_implementer: match &self.job_implementer {
                Some(s) => Some(s.clone()),
                None => None,
            },
        }
    }
}

impl PartialEq for Job {
    fn eq(&self, other: &Self) -> (r: bool) {
        self.id == other.id && self.job_type == other.job_type
            && self.job_status == other.job_status
            && match (&self.job_implementer, &other.job_implementer) {
                (None, None) => true,
                (Some(a), Some(b)) => *a == *b,
                _ => false,
            }
    }
}

impl vstd::std_specs::cmp::PartialEqSpecImpl for Job {
    open spec fn obeys_eq_spec() -> bool {
        true
    }

    open spec fn eq_spec(&self, other: &Self) -> bool {
        self@ == other@
    }
}

} // verus!
