use crate::models::{Job, JobQueueError, JobView};
use vstd::hash_map::StringHashMap;
use vstd::prelude::*;

verus! {

/// Authoritative keyed storage of job records: exactly one live record per
/// id. Viewed as a map from the id's characters to the record's value.
pub struct JobMap {
    map: StringHashMap<Job>,
}

impl View for JobMap {
    type V = Map<Seq<char>, JobView>;

    closed spec fn view(&self) -> Map<Seq<char>, JobView> {
        self.map@.map_values(|j: Job| j@)
    }
}

impl JobMap {
    pub fn new() -> (r: Self)
        ensures
            r@ == Map::<Seq<char>, JobView>::empty(),
    {
        let map = StringHashMap::new();
        let r = Self { map };
        proof {
            assert(r@ =~= Map::<Seq<char>, JobView>::empty());
        }
        r
    }

    /// Inserts or overwrites the record for `key`, returning the previous
    /// record if one existed. Cannot fail.
    pub fn insert(&mut self, key: &String, value: Job) -> (r: Result<
        Option<Job>,
        JobQueueError,
    >)
        ensures
            final(self)@ == old(self)@.insert(key@, value@),
            match r {
                Ok(Some(prev)) => old(self)@.contains_key(key@) && prev@ == old(self)@[key@],
                Ok(None) => !old(self)@.contains_key(key@),
                Err(_) => false,
            },
    {
        let previous = match self.map.get(key.as_str()) {
            Some(job) => Some(job.clone()),
            None => None,
        };
        self.map.insert(key.clone(), value);
        proof {
            assert(self@ =~= old(self)@.insert(key@, value@));
        }
        Ok(previous)
    }

    /// Returns the current record for `key`, or `NotFound` if none exists.
    pub fn get(&self, key: &String) -> (r: Result<Job, JobQueueError>)
        ensures
            match r {
                Ok(job) => self@.contains_key(key@) && job@ == self@[key@],
                Err(e) => e == JobQueueError::NotFound && !self@.contains_key(key@),
            },
    {
        match self.map.get(key.as_str()) {
            Some(job) => Ok(job.clone()),
            None => Err(JobQueueError::NotFound),
        }
    }

    /// The number of records held.
    pub fn len(&self) -> (n: usize)
        ensures
            n == self@.len(),
    {
        proof {
            assert(self@.dom() =~= self.map@.dom());
        }
        self.map.len()
    }
}

} // verus!
