use job_dispatch::dispatch::Dispatcher;
use job_dispatch::models::{JobQueueError, JobRequest, JobStatus, JobType};

fn time_critical() -> JobRequest {
    JobRequest { job_type: JobType::TimeCritical }
}

fn not_time_critical() -> JobRequest {
    JobRequest { job_type: JobType::NotTimeCritical }
}

#[test]
pub fn test_enqueue_returns_successfully() -> Result<(), JobQueueError> {
    let mut dispatcher = Dispatcher::new();
    let identifier = dispatcher.enqueue(time_critical())?;
    assert_eq!(identifier.id.len(), 36);
    assert_eq!(dispatcher.job_count(), 1);
    Ok(())
}

#[test]
pub fn test_enqueue_returns_500_on_transient_inserting_error() -> Result<(), JobQueueError> {
    let mut dispatcher = Dispatcher::new();
    dispatcher.enqueue_with_id(JobType::TimeCritical, "same-id".to_string())?;
    let collision = dispatcher.enqueue_with_id(JobType::NotTimeCritical, "same-id".to_string());
    assert_eq!(collision.unwrap_err(), JobQueueError::InternalError);
    assert_eq!(dispatcher.job_count(), 1);
    Ok(())
}

#[test]
pub fn test_concludes_returns_successfully() -> Result<(), JobQueueError> {
    let mut dispatcher = Dispatcher::new();
    let identifier = dispatcher.enqueue(time_critical())?;
    let claimed = dispatcher.dequeue("123".to_string())?;
    assert_eq!(claimed.id, identifier.id);

    dispatcher.conclude(&identifier.id, &"123".to_string())?;

    let job = dispatcher.get_job(&identifier.id)?;
    assert_eq!(job.job_status, JobStatus::Concluded);
    assert_eq!(job.job_implementer, Some("123".to_string()));
    Ok(())
}

#[test]
pub fn test_concludes_returns_404_on_supplied_id_not_found() -> Result<(), JobQueueError> {
    let mut dispatcher = Dispatcher::new();
    let result = dispatcher.conclude(&"never-submitted".to_string(), &"123".to_string());
    assert_eq!(result.unwrap_err(), JobQueueError::NotFound);
    Ok(())
}

#[test]
pub fn test_get_job_returns_successfully() -> Result<(), JobQueueError> {
    let mut dispatcher = Dispatcher::new();
    let identifier = dispatcher.enqueue(not_time_critical())?;
    let job = dispatcher.get_job(&identifier.id)?;
    assert_eq!(job.id, identifier.id);
    assert_eq!(job.job_type, JobType::NotTimeCritical);
    assert_eq!(job.job_status, JobStatus::Queued);
    assert_eq!(job.job_implementer, None);
    Ok(())
}

#[test]
pub fn test_get_job_returns_404_on_supplied_id_not_found() -> Result<(), JobQueueError> {
    let dispatcher = Dispatcher::new();
    let result = dispatcher.get_job(&"never-submitted".to_string());
    assert_eq!(result.unwrap_err(), JobQueueError::NotFound);
    Ok(())
}

#[test]
fn submitted_ids_are_unique_and_queued() {
    let mut dispatcher = Dispatcher::new();
    let mut ids: Vec<String> = Vec::new();
    for round in 0..20 {
        let request = if round % 2 == 0 { time_critical() } else { not_time_critical() };
        let identifier = dispatcher.enqueue(request).unwrap();
        let job = dispatcher.get_job(&identifier.id).unwrap();
        assert_eq!(job.job_status, JobStatus::Queued);
        assert_eq!(job.job_implementer, None);
        ids.push(identifier.id);
    }
    for i in 0..ids.len() {
        for j in 0..ids.len() {
            if i != j {
                assert_ne!(ids[i], ids[j]);
            }
        }
    }
}

#[test]
fn fresh_ids_have_uuid_shape_and_differ() {
    let mut dispatcher = Dispatcher::new();
    let first = dispatcher.enqueue(time_critical()).unwrap();
    let second = dispatcher.enqueue(time_critical()).unwrap();
    assert_eq!(first.id.len(), 36);
    assert_eq!(second.id.len(), 36);
    assert_ne!(first.id, second.id);
}

#[test]
fn claim_prefers_high_priority() {
    let mut dispatcher = Dispatcher::new();
    dispatcher.enqueue_with_id(JobType::NotTimeCritical, "L1".to_string()).unwrap();
    dispatcher.enqueue_with_id(JobType::TimeCritical, "H1".to_string()).unwrap();

    let claimed = dispatcher.dequeue("123".to_string()).unwrap();
    assert_eq!(claimed.id, "H1");
    assert_eq!(claimed.job_type, JobType::TimeCritical);
}

#[test]
fn claim_is_fifo_within_lane() {
    let mut dispatcher = Dispatcher::new();
    dispatcher.enqueue_with_id(JobType::TimeCritical, "H1".to_string()).unwrap();
    dispatcher.enqueue_with_id(JobType::TimeCritical, "H2".to_string()).unwrap();

    let first = dispatcher.dequeue("123".to_string()).unwrap();
    let second = dispatcher.dequeue("123".to_string()).unwrap();
    assert_eq!(first.id, "H1");
    assert_eq!(second.id, "H2");
}

#[test]
fn claim_drains_high_lane_before_low_lane() {
    let mut dispatcher = Dispatcher::new();
    dispatcher.enqueue_with_id(JobType::NotTimeCritical, "L1".to_string()).unwrap();
    dispatcher.enqueue_with_id(JobType::TimeCritical, "H1".to_string()).unwrap();
    dispatcher.enqueue_with_id(JobType::NotTimeCritical, "L2".to_string()).unwrap();
    dispatcher.enqueue_with_id(JobType::TimeCritical, "H2".to_string()).unwrap();

    let order: Vec<String> =
        (0..4).map(|_| dispatcher.dequeue("123".to_string()).unwrap().id).collect();
    assert_eq!(order, vec!["H1", "H2", "L1", "L2"]);
    assert_eq!(
        dispatcher.dequeue("123".to_string()).unwrap_err(),
        JobQueueError::NotFound
    );
}

#[test]
fn claim_on_empty_lanes_is_not_found() {
    let mut dispatcher = Dispatcher::new();
    let result = dispatcher.dequeue("123".to_string());
    assert_eq!(result.unwrap_err(), JobQueueError::NotFound);
}

#[test]
fn claim_marks_in_progress_with_claimant() {
    let mut dispatcher = Dispatcher::new();
    let identifier = dispatcher.enqueue(time_critical()).unwrap();

    let claimed = dispatcher.dequeue("A".to_string()).unwrap();
    assert_eq!(claimed.id, identifier.id);
    assert_eq!(claimed.job_status, JobStatus::InProgress);
    assert_eq!(claimed.job_implementer, Some("A".to_string()));

    let inspected = dispatcher.get_job(&identifier.id).unwrap();
    assert_eq!(inspected.job_status, JobStatus::InProgress);
    assert_eq!(inspected.job_implementer, Some("A".to_string()));
}

#[test]
fn conclude_rejects_every_caller_but_the_claimant() {
    let mut dispatcher = Dispatcher::new();
    let identifier = dispatcher.enqueue(time_critical()).unwrap();
    dispatcher.dequeue("A".to_string()).unwrap();

    let wrong_caller = dispatcher.conclude(&identifier.id, &"B".to_string());
    assert_eq!(wrong_caller.unwrap_err(), JobQueueError::Unauthorized);
    assert_eq!(
        dispatcher.get_job(&identifier.id).unwrap().job_status,
        JobStatus::InProgress
    );

    dispatcher.conclude(&identifier.id, &"A".to_string()).unwrap();
    assert_eq!(
        dispatcher.get_job(&identifier.id).unwrap().job_status,
        JobStatus::Concluded
    );
}

#[test]
fn conclude_on_unclaimed_job_is_unauthorized() {
    let mut dispatcher = Dispatcher::new();
    let identifier = dispatcher.enqueue(time_critical()).unwrap();
    let result = dispatcher.conclude(&identifier.id, &"123".to_string());
    assert_eq!(result.unwrap_err(), JobQueueError::Unauthorized);
}

#[test]
fn reconclude_by_the_claimant_succeeds_without_change() {
    let mut dispatcher = Dispatcher::new();
    let identifier = dispatcher.enqueue(time_critical()).unwrap();
    dispatcher.dequeue("A".to_string()).unwrap();

    dispatcher.conclude(&identifier.id, &"A".to_string()).unwrap();
    dispatcher.conclude(&identifier.id, &"A".to_string()).unwrap();

    let job = dispatcher.get_job(&identifier.id).unwrap();
    assert_eq!(job.job_status, JobStatus::Concluded);
    assert_eq!(job.job_implementer, Some("A".to_string()));
}

#[test]
fn submits_never_lose_jobs() {
    let mut dispatcher = Dispatcher::new();
    for round in 0..50 {
        let request = if round % 3 == 0 { not_time_critical() } else { time_critical() };
        dispatcher.enqueue(request).unwrap();
    }
    assert_eq!(dispatcher.job_count(), 50);
}
