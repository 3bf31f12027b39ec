use todo_pipeline::ledger::{Ledger, Reply};
use todo_pipeline::model::{Item, Job, JobStatus, Operation};
use todo_pipeline::producer::{
    accept, advance, submit, ProducerAction, ProducerState, Refusal, Request, Response,
};
use todo_pipeline::wire::{decode, Command};
use todo_pipeline::worker::Outcome;

const DONE: Reply = Reply::Done { rows: 1 };

fn recorded_job(action: &ProducerAction) -> Job {
    match action {
        ProducerAction::Record { job } => *job,
        other => panic!("no recording: {:?}", other),
    }
}

fn published(action: ProducerAction) -> Vec<u8> {
    match action {
        ProducerAction::Publish { payload } => payload,
        other => panic!("no publication: {:?}", other),
    }
}

#[test]
fn a_create_is_recorded_as_a_pending_job() {
    let (state, action) = accept(Request::Create { title: "Buy milk".to_string() }, 1, 5, 42);
    assert_eq!(
        action,
        ProducerAction::Record {
            job: Job {
                id: 1,
                item_id: Some(5),
                operation: Operation::Create,
                status: JobStatus::Pending,
                created_at: 42,
            }
        }
    );
    assert_eq!(
        state,
        ProducerState::Recording {
            command: Command {
                job_id: 1,
                operation: "create".to_string(),
                item_id: Some(5),
                title: Some("Buy milk".to_string()),
            }
        }
    );
}

#[test]
fn a_toggle_and_a_delete_name_their_item() {
    let (state, action) = accept(Request::Toggle { item_id: 9 }, 1, 5, 42);
    assert_eq!(recorded_job(&action), Job::pending(1, Some(9), Operation::Toggle, 42));
    assert_eq!(
        state,
        ProducerState::Recording {
            command: Command { job_id: 1, operation: "toggle".to_string(), item_id: Some(9), title: None }
        }
    );
    let (state, action) = accept(Request::Delete { item_id: 9 }, 2, 5, 43);
    assert_eq!(recorded_job(&action), Job::pending(2, Some(9), Operation::Delete, 43));
    assert_eq!(
        state,
        ProducerState::Recording {
            command: Command { job_id: 2, operation: "delete".to_string(), item_id: Some(9), title: None }
        }
    );
}

#[test]
fn the_command_is_published_once_the_job_is_recorded() {
    let (state, _) = accept(Request::Create { title: "Buy milk".to_string() }, 1, 5, 42);
    let (state, action) = advance(state, DONE);
    assert_eq!(state, ProducerState::Publishing { job_id: 1 });
    let payload = published(action);
    assert_eq!(
        decode(&payload),
        Ok(Command {
            job_id: 1,
            operation: "create".to_string(),
            item_id: Some(5),
            title: Some("Buy milk".to_string()),
        })
    );
}

#[test]
fn the_request_is_accepted_once_the_command_is_published() {
    let (state, _) = accept(Request::Toggle { item_id: 9 }, 1, 5, 42);
    let (state, _) = advance(state, DONE);
    let (state, action) = advance(state, DONE);
    let response = Response::Accepted { job_id: 1 };
    assert_eq!(action, ProducerAction::Respond { response });
    assert_eq!(state, ProducerState::Answered { response });
    assert_eq!(response.status_code(), 202);
}

#[test]
fn nothing_is_published_when_the_ledger_refuses() {
    let (state, _) = accept(Request::Toggle { item_id: 9 }, 1, 5, 42);
    let (state, action) = advance(state, Reply::Failed);
    let response = Response::Refused { refusal: Refusal::Ledger };
    assert_eq!(action, ProducerAction::Respond { response });
    assert_eq!(state, ProducerState::Answered { response });
    assert_eq!(response.status_code(), 500);
}

#[test]
fn a_failed_publication_is_reported() {
    let (state, _) = accept(Request::Delete { item_id: 9 }, 1, 5, 42);
    let (state, _) = advance(state, DONE);
    let (state, action) = advance(state, Reply::Failed);
    let response = Response::Refused { refusal: Refusal::Publish };
    assert_eq!(action, ProducerAction::Respond { response });
    assert_eq!(state, ProducerState::Answered { response });
    assert_eq!(response.status_code(), 500);
}

#[test]
fn an_answer_stays() {
    let response = Response::Accepted { job_id: 3 };
    for reply in [DONE, Reply::Failed] {
        let (state, action) = advance(ProducerState::Answered { response }, reply);
        assert_eq!(action, ProducerAction::Respond { response });
        assert_eq!(state, ProducerState::Answered { response });
    }
}

#[test]
fn responses_carry_their_status_codes() {
    assert_eq!(Response::Accepted { job_id: 0 }.status_code(), 202);
    assert_eq!(Response::Refused { refusal: Refusal::Ledger }.status_code(), 500);
    assert_eq!(Response::Refused { refusal: Refusal::Encoding }.status_code(), 500);
    assert_eq!(Response::Refused { refusal: Refusal::Publish }.status_code(), 500);
}

#[test]
fn submitted_requests_get_random_identifiers() {
    let (state, action) = submit(Request::Create { title: "Buy milk".to_string() }, 42);
    let job = recorded_job(&action);
    let item_id = job.item_id.unwrap();
    assert_ne!(job.id, item_id);
    for id in [job.id, item_id] {
        let u = uuid::Uuid::from_u128(id);
        assert_eq!(u.get_version_num(), 4);
        assert_eq!(id & 0x0000_0000_0000_f000_c000_0000_0000_0000, 0x0000_0000_0000_4000_8000_0000_0000_0000);
    }
    assert_eq!(job.status, JobStatus::Pending);
    assert_eq!(job.operation, Operation::Create);
    assert_eq!(job.created_at, 42);
    match state {
        ProducerState::Recording { command } => {
            assert_eq!(command.job_id, job.id);
            assert_eq!(command.item_id, Some(item_id));
            assert_eq!(command.operation, "create");
            assert_eq!(command.title, Some("Buy milk".to_string()));
        }
        other => panic!("not recording: {:?}", other),
    }
}

#[test]
fn a_submitted_toggle_keeps_its_item() {
    let (state, action) = submit(Request::Toggle { item_id: 9 }, 42);
    let job = recorded_job(&action);
    assert_eq!(job.item_id, Some(9));
    assert_eq!(job.operation, Operation::Toggle);
    assert_eq!(uuid::Uuid::from_u128(job.id).get_version_num(), 4);
    match state {
        ProducerState::Recording { command } => {
            assert_eq!(command.job_id, job.id);
            assert_eq!(command.item_id, Some(9));
            assert_eq!(command.title, None);
        }
        other => panic!("not recording: {:?}", other),
    }
}

#[test]
fn the_same_request_twice_makes_two_jobs() {
    let (_, first) = submit(Request::Delete { item_id: 9 }, 42);
    let (_, second) = submit(Request::Delete { item_id: 9 }, 42);
    assert_ne!(recorded_job(&first).id, recorded_job(&second).id);
}

#[test]
fn a_request_runs_from_submission_to_a_settled_job() {
    let mut ledger = Ledger::new();
    let (state, action) = submit(Request::Create { title: "Buy milk".to_string() }, 42);
    let job = recorded_job(&action);
    let reply = if ledger.record_job(job) { DONE } else { Reply::Failed };
    assert_eq!(ledger.job_status(job.id), Some(JobStatus::Pending));
    let (state, action) = advance(state, reply);
    let payload = published(action);
    let (_, action) = advance(state, DONE);
    assert_eq!(action, ProducerAction::Respond { response: Response::Accepted { job_id: job.id } });
    assert_eq!(ledger.deliver(&payload), Outcome::Completed);
    assert_eq!(ledger.job_status(job.id), Some(JobStatus::Completed));
    let item_id = job.item_id.unwrap();
    assert_eq!(
        ledger.item(item_id),
        Some(Item { id: item_id, title: "Buy milk".to_string(), completed: false })
    );

    let (state, action) = submit(Request::Toggle { item_id }, 43);
    let toggle = recorded_job(&action);
    assert!(ledger.record_job(toggle));
    let (_, action) = advance(state, DONE);
    assert_eq!(ledger.deliver(&published(action)), Outcome::Completed);
    assert!(ledger.item(item_id).unwrap().completed);

    let (state, action) = submit(Request::Delete { item_id }, 44);
    let delete = recorded_job(&action);
    assert!(ledger.record_job(delete));
    let (_, action) = advance(state, DONE);
    assert_eq!(ledger.deliver(&published(action)), Outcome::Completed);
    assert_eq!(ledger.item(item_id), None);
    for id in [job.id, toggle.id, delete.id] {
        assert_eq!(ledger.job_status(id), Some(JobStatus::Completed));
    }
}
