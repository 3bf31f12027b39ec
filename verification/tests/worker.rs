use todo_pipeline::ledger::{Mutation, Reply};
use todo_pipeline::wire::{Command, DecodeError};
use todo_pipeline::worker::{
    abandon, begin, needs_row, plan, receive, step, Fault, Outcome, WorkerAction, WorkerState,
};

const DONE: Reply = Reply::Done { rows: 1 };
const NONE: Reply = Reply::Done { rows: 0 };

fn command(operation: &str, item_id: Option<u128>, title: Option<&str>) -> Command {
    Command {
        job_id: 11,
        operation: operation.to_string(),
        item_id,
        title: title.map(|t| t.to_string()),
    }
}

#[test]
fn plan_of_a_create() {
    assert_eq!(
        plan(command("create", Some(5), Some("Buy milk"))),
        Ok(Mutation::InsertItem { item_id: 5, title: "Buy milk".to_string() })
    );
}

#[test]
fn plan_of_a_toggle_and_a_delete() {
    assert_eq!(plan(command("toggle", Some(5), None)), Ok(Mutation::ToggleItem { item_id: 5 }));
    assert_eq!(plan(command("delete", Some(5), None)), Ok(Mutation::DeleteItem { item_id: 5 }));
}

#[test]
fn plan_passes_over_a_title_that_is_not_needed() {
    assert_eq!(plan(command("toggle", Some(5), Some("x"))), Ok(Mutation::ToggleItem { item_id: 5 }));
    assert_eq!(plan(command("delete", Some(5), Some("x"))), Ok(Mutation::DeleteItem { item_id: 5 }));
}

#[test]
fn plan_fails_on_an_unknown_operation() {
    assert_eq!(plan(command("rename", Some(5), Some("x"))), Err(Fault::UnknownOperation));
    assert_eq!(plan(command("", None, None)), Err(Fault::UnknownOperation));
    assert_eq!(plan(command("CREATE", Some(5), Some("x"))), Err(Fault::UnknownOperation));
}

#[test]
fn plan_fails_on_a_missing_operand() {
    assert_eq!(plan(command("create", None, Some("x"))), Err(Fault::MissingItemId));
    assert_eq!(plan(command("create", None, None)), Err(Fault::MissingItemId));
    assert_eq!(plan(command("create", Some(5), None)), Err(Fault::MissingTitle));
    assert_eq!(plan(command("toggle", None, None)), Err(Fault::MissingItemId));
    assert_eq!(plan(command("delete", None, None)), Err(Fault::MissingItemId));
}

#[test]
fn only_a_toggle_needs_a_row() {
    assert!(needs_row(&Mutation::ToggleItem { item_id: 1 }));
    assert!(!needs_row(&Mutation::DeleteItem { item_id: 1 }));
    assert!(!needs_row(&Mutation::InsertItem { item_id: 1, title: String::new() }));
}

#[test]
fn a_command_is_acknowledged_first() {
    let (state, action) = begin(command("toggle", Some(5), None));
    assert_eq!(action, WorkerAction::Acknowledge);
    assert_eq!(
        state,
        WorkerState::Acknowledging { job_id: 11, plan: Ok(Mutation::ToggleItem { item_id: 5 }) }
    );
}

#[test]
fn the_protocol_of_a_successful_create() {
    let (state, action) = begin(command("create", Some(5), Some("Buy milk")));
    assert_eq!(action, WorkerAction::Acknowledge);
    let (state, action) = step(state, NONE);
    assert_eq!(
        action,
        WorkerAction::Apply {
            mutation: Mutation::InsertItem { item_id: 5, title: "Buy milk".to_string() }
        }
    );
    assert_eq!(state, WorkerState::Applying { job_id: 11, needs_row: false });
    let (state, action) = step(state, DONE);
    assert_eq!(action, WorkerAction::Complete { job_id: 11 });
    assert_eq!(state, WorkerState::Completing { job_id: 11 });
    let (state, action) = step(state, DONE);
    assert_eq!(action, WorkerAction::Stop { outcome: Outcome::Completed });
    assert_eq!(state, WorkerState::Finished { outcome: Outcome::Completed });
}

#[test]
fn the_change_follows_the_acknowledgement_even_if_that_failed() {
    let (state, _) = begin(command("delete", Some(5), None));
    let (state, action) = step(state, Reply::Failed);
    assert_eq!(action, WorkerAction::Apply { mutation: Mutation::DeleteItem { item_id: 5 } });
    assert_eq!(state, WorkerState::Applying { job_id: 11, needs_row: false });
}

#[test]
fn a_toggle_that_touches_no_row_fails() {
    let (state, _) = begin(command("toggle", Some(5), None));
    let (state, _) = step(state, DONE);
    assert_eq!(state, WorkerState::Applying { job_id: 11, needs_row: true });
    let (state, action) = step(state, NONE);
    assert_eq!(action, WorkerAction::MarkFailed { job_id: 11 });
    assert_eq!(state, WorkerState::Failing { job_id: 11, fault: Fault::ItemNotFound });
    let (state, action) = step(state, DONE);
    let outcome = Outcome::Failed { fault: Fault::ItemNotFound };
    assert_eq!(action, WorkerAction::Stop { outcome });
    assert_eq!(state, WorkerState::Finished { outcome });
}

#[test]
fn a_toggle_that_touches_a_row_completes() {
    let (state, _) = begin(command("toggle", Some(5), None));
    let (state, _) = step(state, DONE);
    let (state, action) = step(state, DONE);
    assert_eq!(action, WorkerAction::Complete { job_id: 11 });
    let (_, action) = step(state, DONE);
    assert_eq!(action, WorkerAction::Stop { outcome: Outcome::Completed });
}

#[test]
fn a_delete_that_touches_no_row_completes() {
    let (state, _) = begin(command("delete", Some(5), None));
    let (state, _) = step(state, DONE);
    let (state, action) = step(state, NONE);
    assert_eq!(action, WorkerAction::Complete { job_id: 11 });
    let (_, action) = step(state, NONE);
    assert_eq!(action, WorkerAction::Stop { outcome: Outcome::Completed });
}

#[test]
fn an_unknown_operation_runs_the_failure_path_only() {
    let (state, action) = begin(command("rename", Some(5), None));
    assert_eq!(action, WorkerAction::Acknowledge);
    let (state, action) = step(state, DONE);
    assert_eq!(action, WorkerAction::MarkFailed { job_id: 11 });
    assert_eq!(state, WorkerState::Failing { job_id: 11, fault: Fault::UnknownOperation });
    let (_, action) = step(state, DONE);
    assert_eq!(action, WorkerAction::Stop { outcome: Outcome::Failed { fault: Fault::UnknownOperation } });
}

#[test]
fn a_missing_operand_runs_the_failure_path_only() {
    let (state, _) = begin(command("create", Some(5), None));
    let (state, action) = step(state, DONE);
    assert_eq!(action, WorkerAction::MarkFailed { job_id: 11 });
    let (_, action) = step(state, DONE);
    assert_eq!(action, WorkerAction::Stop { outcome: Outcome::Failed { fault: Fault::MissingTitle } });
}

#[test]
fn a_refused_change_fails_the_job() {
    let (state, _) = begin(command("create", Some(5), Some("x")));
    let (state, _) = step(state, DONE);
    let (state, action) = step(state, Reply::Failed);
    assert_eq!(action, WorkerAction::MarkFailed { job_id: 11 });
    assert_eq!(state, WorkerState::Failing { job_id: 11, fault: Fault::Ledger });
}

#[test]
fn a_refused_completion_fails_the_job() {
    let (state, action) = step(WorkerState::Completing { job_id: 3 }, Reply::Failed);
    assert_eq!(action, WorkerAction::MarkFailed { job_id: 3 });
    assert_eq!(state, WorkerState::Failing { job_id: 3, fault: Fault::Ledger });
}

#[test]
fn a_failure_that_cannot_be_recorded_is_only_reported() {
    let (state, action) =
        step(WorkerState::Failing { job_id: 3, fault: Fault::ItemNotFound }, Reply::Failed);
    let outcome = Outcome::Unrecorded { fault: Fault::ItemNotFound };
    assert_eq!(action, WorkerAction::Stop { outcome });
    assert_eq!(state, WorkerState::Finished { outcome });
}

#[test]
fn a_finished_handling_stays_finished() {
    let outcome = Outcome::Failed { fault: Fault::Ledger };
    for reply in [DONE, NONE, Reply::Failed] {
        let (state, action) = step(WorkerState::Finished { outcome }, reply);
        assert_eq!(action, WorkerAction::Stop { outcome });
        assert_eq!(state, WorkerState::Finished { outcome });
    }
}

#[test]
fn a_payload_that_is_no_command_is_abandoned() {
    let (state, action) = receive(b"not json");
    let outcome = Outcome::Abandoned { reason: DecodeError::Malformed };
    assert_eq!(action, WorkerAction::Stop { outcome });
    assert_eq!(state, WorkerState::Finished { outcome });
    let (_, action) = receive(br#"{"operation":"create"}"#);
    assert_eq!(
        action,
        WorkerAction::Stop { outcome: Outcome::Abandoned { reason: DecodeError::MissingJobId } }
    );
    assert_eq!(abandon(DecodeError::NotAnObject).1, WorkerAction::Stop {
        outcome: Outcome::Abandoned { reason: DecodeError::NotAnObject }
    });
}

#[test]
fn a_received_command_is_begun() {
    let payload = br#"{"job_id":"00000000-0000-0000-0000-00000000000b","operation":"toggle","item_id":"00000000-0000-0000-0000-000000000005"}"#;
    let (state, action) = receive(payload);
    assert_eq!(action, WorkerAction::Acknowledge);
    assert_eq!(
        state,
        WorkerState::Acknowledging { job_id: 11, plan: Ok(Mutation::ToggleItem { item_id: 5 }) }
    );
}
