//! The worker's protocol for one delivered message.
//!
//! The worker itself talks to the queue and to the store. What it does next is
//! decided here: [`receive`] reads the payload and names the first action, and
//! [`step`] takes the store's answer to an action and names the next one, until the
//! action is [`WorkerAction::Stop`].
//!
//! A message that is no command is abandoned: nothing is acknowledged and nothing is
//! written. A command is acknowledged at once, before its outcome is known; then its
//! change is applied and its job settled as completed, or, where anything went
//! wrong, the job is settled as failed on a best-effort basis.
//!
//! Because the acknowledgement comes first, a worker that stops between the
//! acknowledgement and the settling leaves the job pending for good: the queue has
//! let go of the message, and nothing will settle the job. The protocol does not
//! hide that gap. Nor does it make a second delivery of a command harmless: the
//! change is applied again, though a settled job stays as it is.

use crate::ledger::{Mutation, Reply};
use crate::model::Operation;
use crate::wire::{decode, decoded, Command, DecodeError};
use vstd::prelude::*;

verus! {

/// Why a job failed.
#[derive(Clone, Copy, Debug, PartialEq, Eq, Structural)]
pub enum Fault {
    /// The command names no known operation.
    UnknownOperation,
    /// The operation needs an item identifier and the command has none.
    MissingItemId,
    /// The operation needs a title and the command has none.
    MissingTitle,
    /// The item to toggle is not in the store.
    ItemNotFound,
    /// The store refused a statement or a transaction.
    Ledger,
}

/// How the handling of one message ended.
#[derive(Clone, Copy, Debug, PartialEq, Eq, Structural)]
pub enum Outcome {
    /// The change was applied and the job settled as completed.
    Completed,
    /// The job was settled as failed.
    Failed { fault: Fault },
    /// The job failed, and the store refused to record that: the job stays as it was.
    Unrecorded { fault: Fault },
    /// The payload was no command.
    Abandoned { reason: DecodeError },
}

/// What the worker is asked to do next.
#[derive(Debug, PartialEq, Eq)]
pub enum WorkerAction {
    /// Acknowledge the delivery to the queue.
    Acknowledge,
    /// Open a transaction and run the change in it.
    Apply { mutation: Mutation },
    /// Settle the job as completed in the open transaction, and commit.
    Complete { job_id: u128 },
    /// Roll back the open transaction, if there is one, and settle the job as failed.
    MarkFailed { job_id: u128 },
    /// Nothing more: report the outcome.
    Stop { outcome: Outcome },
}

/// Where the handling of one message stands.
#[derive(Debug, PartialEq, Eq)]
pub enum WorkerState {
    /// The acknowledgement is under way; the plan for the change is made.
    Acknowledging { job_id: u128, plan: Result<Mutation, Fault> },
    /// The change is under way.
    Applying { job_id: u128, needs_row: bool },
    /// The job is being settled as completed.
    Completing { job_id: u128 },
    /// The job is being settled as failed.
    Failing { job_id: u128, fault: Fault },
    /// The handling is over.
    Finished { outcome: Outcome },
}

impl WorkerState {
    /// An upper bound on the actions still to come.
    pub open spec fn steps_left(self) -> nat {
        match self {
            WorkerState::Acknowledging { .. } => 4,
            WorkerState::Applying { .. } => 3,
            WorkerState::Completing { .. } => 2,
            WorkerState::Failing { .. } => 1,
            WorkerState::Finished { .. } => 0,
        }
    }
}

/// The change that a command asks for. A create needs an item identifier and a
/// title, a toggle and a delete need an item identifier; what a command carries
/// beyond that is passed over.
pub open spec fn spec_plan(cmd: Command) -> Result<Mutation, Fault> {
    match Operation::spec_parse(cmd.operation@) {
        None => Err(Fault::UnknownOperation),
        Some(Operation::Create) => match cmd.item_id {
            None => Err(Fault::MissingItemId),
            Some(item_id) => match cmd.title {
                None => Err(Fault::MissingTitle),
                Some(title) => Ok(Mutation::InsertItem { item_id, title }),
            },
        },
        Some(Operation::Toggle) => match cmd.item_id {
            None => Err(Fault::MissingItemId),
            Some(item_id) => Ok(Mutation::ToggleItem { item_id }),
        },
        Some(Operation::Delete) => match cmd.item_id {
            None => Err(Fault::MissingItemId),
            Some(item_id) => Ok(Mutation::DeleteItem { item_id }),
        },
    }
}

/// The start of the handling of a command: the plan is made, the delivery is
/// acknowledged first.
pub open spec fn spec_begin(cmd: Command) -> (WorkerState, WorkerAction) {
    (
        WorkerState::Acknowledging { job_id: cmd.job_id, plan: spec_plan(cmd) },
        WorkerAction::Acknowledge,
    )
}

/// The end of the handling of a payload that is no command.
pub open spec fn spec_abandon(reason: DecodeError) -> (WorkerState, WorkerAction) {
    (
        WorkerState::Finished { outcome: Outcome::Abandoned { reason } },
        WorkerAction::Stop { outcome: Outcome::Abandoned { reason } },
    )
}

/// The state and the action that follow the store's answer to the last action.
///
/// - After the acknowledgement, whatever became of it: the planned change, or the
///   failure path where the plan failed.
/// - After the change: the failure path where the store refused it, or where it
///   touched no row and had to; else the settling as completed.
/// - After the settling as completed: the end, or the failure path where the store
///   refused.
/// - After the settling as failed: the end, whether or not the store refused.
pub open spec fn spec_step(state: WorkerState, reply: Reply) -> (WorkerState, WorkerAction) {
    match state {
        WorkerState::Acknowledging { job_id, plan } => match plan {
            Ok(mutation) => (
                WorkerState::Applying { job_id, needs_row: mutation.needs_row() },
                WorkerAction::Apply { mutation },
            ),
            Err(fault) => (
                WorkerState::Failing { job_id, fault },
                WorkerAction::MarkFailed { job_id },
            ),
        },
        WorkerState::Applying { job_id, needs_row } => match reply {
            Reply::Failed => (
                WorkerState::Failing { job_id, fault: Fault::Ledger },
                WorkerAction::MarkFailed { job_id },
            ),
            Reply::Done { rows } => if needs_row && rows == 0 {
                (
                    WorkerState::Failing { job_id, fault: Fault::ItemNotFound },
                    WorkerAction::MarkFailed { job_id },
                )
            } else {
                (WorkerState::Completing { job_id }, WorkerAction::Complete { job_id })
            },
        },
        WorkerState::Completing { job_id } => match reply {
            Reply::Failed => (
                WorkerState::Failing { job_id, fault: Fault::Ledger },
                WorkerAction::MarkFailed { job_id },
            ),
            Reply::Done { .. } => (
                WorkerState::Finished { outcome: Outcome::Completed },
                WorkerAction::Stop { outcome: Outcome::Completed },
            ),
        },
        WorkerState::Failing { job_id, fault } => match reply {
            Reply::Failed => (
                WorkerState::Finished { outcome: Outcome::Unrecorded { fault } },
                WorkerAction::Stop { outcome: Outcome::Unrecorded { fault } },
            ),
            Reply::Done { .. } => (
                WorkerState::Finished { outcome: Outcome::Failed { fault } },
                WorkerAction::Stop { outcome: Outcome::Failed { fault } },
            ),
        },
        WorkerState::Finished { outcome } => (
            WorkerState::Finished { outcome },
            WorkerAction::Stop { outcome },
        ),
    }
}

/// Whether the change counts as failed when it touches no row.
pub fn needs_row(mutation: &Mutation) -> (r: bool)
    ensures
        r == mutation.needs_row(),
{
    match mutation {
        Mutation::ToggleItem { .. } => true,
        _ => false,
    }
}

/// Plans the change that a command asks for, or says why there is none to make.
pub fn plan(cmd: Command) -> (r: Result<Mutation, Fault>)
    ensures
        r == spec_plan(cmd),
{
    match Operation::parse(cmd.operation.as_str()) {
        None => Err(Fault::UnknownOperation),
        Some(Operation::Create) => match cmd.item_id {
            None => Err(Fault::MissingItemId),
            Some(item_id) => match cmd.title {
                None => Err(Fault::MissingTitle),
                Some(title) => Ok(Mutation::InsertItem { item_id, title }),
            },
        },
        Some(Operation::Toggle) => match cmd.item_id {
            None => Err(Fault::MissingItemId),
            Some(item_id) => Ok(Mutation::ToggleItem { item_id }),
        },
        Some(Operation::Delete) => match cmd.item_id {
            None => Err(Fault::MissingItemId),
            Some(item_id) => Ok(Mutation::DeleteItem { item_id }),
        },
    }
}

/// Starts the handling of a command.
pub fn begin(cmd: Command) -> (r: (WorkerState, WorkerAction))
    ensures
        r == spec_begin(cmd),
{
    let job_id = cmd.job_id;
    (WorkerState::Acknowledging { job_id, plan: plan(cmd) }, WorkerAction::Acknowledge)
}

/// Ends the handling of a payload that is no command.
pub fn abandon(reason: DecodeError) -> (r: (WorkerState, WorkerAction))
    ensures
        r == spec_abandon(reason),
{
    (
        WorkerState::Finished { outcome: Outcome::Abandoned { reason } },
        WorkerAction::Stop { outcome: Outcome::Abandoned { reason } },
    )
}

/// Starts the handling of a delivered payload: a command is begun, anything else
/// abandoned.
pub fn receive(payload: &[u8]) -> (r: (WorkerState, WorkerAction))
    ensures
        match decoded(payload@) {
            Err(reason) => r == spec_abandon(reason),
            Ok(c) => exists|cmd: Command| cmd@ == c && r == #[trigger] spec_begin(cmd),
        },
{
    match decode(payload) {
        Ok(cmd) => {
            let r = begin(cmd);
            assert(cmd@ == decoded(payload@)->Ok_0 && r == spec_begin(cmd));
            r
        },
        Err(reason) => abandon(reason),
    }
}

/// Takes the store's answer to the last action and names the next one.
pub fn step(state: WorkerState, reply: Reply) -> (r: (WorkerState, WorkerAction))
    ensures
        r == spec_step(state, reply),
        !(state is Finished) ==> r.0.steps_left() < state.steps_left(),
{
    match state {
        WorkerState::Acknowledging { job_id, plan } => match plan {
            Ok(mutation) => {
                let needs_row = needs_row(&mutation);
                (WorkerState::Applying { job_id, needs_row }, WorkerAction::Apply { mutation })
            },
            Err(fault) => (
                WorkerState::Failing { job_id, fault },
                WorkerAction::MarkFailed { job_id },
            ),
        },
        WorkerState::Applying { job_id, needs_row } => match reply {
            Reply::Failed => (
                WorkerState::Failing { job_id, fault: Fault::Ledger },
                WorkerAction::MarkFailed { job_id },
            ),
            Reply::Done { rows } => if needs_row && rows == 0 {
                (
                    WorkerState::Failing { job_id, fault: Fault::ItemNotFound },
                    WorkerAction::MarkFailed { job_id },
                )
            } else {
                (WorkerState::Completing { job_id }, WorkerAction::Complete { job_id })
            },
        },
        WorkerState::Completing { job_id } => match reply {
            Reply::Failed => (
                WorkerState::Failing { job_id, fault: Fault::Ledger },
                WorkerAction::MarkFailed { job_id },
            ),
            Reply::Done { .. } => (
                WorkerState::Finished { outcome: Outcome::Completed },
                WorkerAction::Stop { outcome: Outcome::Completed },
            ),
        },
        WorkerState::Failing { job_id, fault } => match reply {
            Reply::Failed => (
                WorkerState::Finished { outcome: Outcome::Unrecorded { fault } },
                WorkerAction::Stop { outcome: Outcome::Unrecorded { fault } },
            ),
            Reply::Done { .. } => (
                WorkerState::Finished { outcome: Outcome::Failed { fault } },
                WorkerAction::Stop { outcome: Outcome::Failed { fault } },
            ),
        },
        WorkerState::Finished { outcome } => (
            WorkerState::Finished { outcome },
            WorkerAction::Stop { outcome },
        ),
    }
}

} // verus!
