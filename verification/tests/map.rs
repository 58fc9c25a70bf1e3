use job_dispatch::map::JobMap;
use job_dispatch::models::{Job, JobQueueError, JobStatus, JobType};

#[test]
pub fn job_map_should_insert_and_get() -> Result<(), JobQueueError> {
    let mut map = JobMap::new();
    let expected: Option<Job> = Some(Job {
        id: "123".to_string(),
        job_type: JobType::TimeCritical,
        job_status: JobStatus::Queued,
        job_implementer: None,
    });

    let job = expected.clone().unwrap();
    map.insert(&job.clone().id, job.clone())?;

    let actual = map.get(&job.id)?;

    assert_eq!(Some(actual), expected);
    Ok(())
}

#[test]
fn job_map_get_missing_key_is_not_found() {
    let map = JobMap::new();
    let result = map.get(&"missing".to_string());
    assert_eq!(result.unwrap_err(), JobQueueError::NotFound);
}

#[test]
fn job_map_insert_returns_previous_record() {
    let mut map = JobMap::new();
    let first = Job {
        id: "a".to_string(),
        job_type: JobType::TimeCritical,
        job_status: JobStatus::Queued,
        job_implementer: None,
    };
    let second = Job {
        id: "a".to_string(),
        job_type: JobType::TimeCritical,
        job_status: JobStatus::InProgress,
        job_implementer: Some("w".to_string()),
    };

    let none_before = map.insert(&"a".to_string(), first.clone()).unwrap();
    assert!(none_before.is_none());

    let previous = map.insert(&"a".to_string(), second.clone()).unwrap();
    assert_eq!(previous, Some(first));
    assert_eq!(map.get(&"a".to_string()).unwrap(), second);
    assert_eq!(map.len(), 1);
}
