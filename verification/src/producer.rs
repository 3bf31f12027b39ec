//! The producer's protocol for one request.
//!
//! A request is accepted under a fresh job identifier. The job is recorded as
//! pending first; only when the ledger has it is the command published; only when
//! the queue has the command is the client told that the request was accepted.
//! Where the ledger refuses the job, nothing is published. Where the publication
//! fails, the job stays in the ledger, pending, with no command on its way: the
//! client is told of the failure and nothing is taken back.

use crate::ident::{is_random_form, random_id};
use crate::ledger::Reply;
use crate::model::{Job, JobStatus, Operation};
use crate::wire::{encoded, Command, CommandView};
use vstd::prelude::*;
use vstd::string::*;

verus! {

/// What a client asks for.
#[derive(Clone, Debug, PartialEq, Eq)]
pub enum Request {
    /// A new item with this title.
    Create { title: String },
    /// The negation of an item's `completed` flag.
    Toggle { item_id: u128 },
    /// The removal of an item.
    Delete { item_id: u128 },
}

impl Request {
    /// The operation that the request stands for.
    pub open spec fn operation(self) -> Operation {
        match self {
            Request::Create { .. } => Operation::Create,
            Request::Toggle { .. } => Operation::Toggle,
            Request::Delete { .. } => Operation::Delete,
        }
    }

    /// The item that the request is about: the fresh one for a create, the named one
    /// else.
    pub open spec fn item(self, fresh: u128) -> u128 {
        match self {
            Request::Create { .. } => fresh,
            Request::Toggle { item_id } => item_id,
            Request::Delete { item_id } => item_id,
        }
    }

    /// The job that is recorded for the request: pending, with the item known.
    pub open spec fn job(self, job_id: u128, fresh: u128, now: u64) -> Job {
        Job {
            id: job_id,
            item_id: Some(self.item(fresh)),
            operation: self.operation(),
            status: JobStatus::Pending,
            created_at: now,
        }
    }

    /// The command that is published for the request. Only a create has a title.
    pub open spec fn command(self, job_id: u128, fresh: u128) -> CommandView {
        CommandView {
            job_id,
            operation: self.operation().spec_name(),
            item_id: Some(self.item(fresh)),
            title: match self {
                Request::Create { title } => Some(title@),
                _ => None,
            },
        }
    }
}

/// Why a request was not accepted.
#[derive(Clone, Copy, Debug, PartialEq, Eq, Structural)]
pub enum Refusal {
    /// The ledger refused the job: nothing was recorded and nothing published.
    Ledger,
    /// The command could not be written: the job is recorded and stays pending.
    Encoding,
    /// The queue refused the command: the job is recorded and stays pending.
    Publish,
}

/// The answer to the client.
#[derive(Clone, Copy, Debug, PartialEq, Eq, Structural)]
pub enum Response {
    /// The request is on its way under this job, which is pending.
    Accepted { job_id: u128 },
    /// The request failed.
    Refused { refusal: Refusal },
}

impl Response {
    /// The HTTP status that goes with the answer.
    pub open spec fn spec_status_code(self) -> u16 {
        match self {
            Response::Accepted { .. } => 202,
            Response::Refused { .. } => 500,
        }
    }

    /// The HTTP status that goes with the answer.
    pub fn status_code(self) -> (code: u16)
        ensures
            code == self.spec_status_code(),
    {
        match self {
            Response::Accepted { .. } => 202,
            Response::Refused { .. } => 500,
        }
    }
}

/// What the producer is asked to do next.
#[derive(Debug, PartialEq, Eq)]
pub enum ProducerAction {
    /// Record the job in the ledger, in a transaction of its own.
    Record { job: Job },
    /// Publish the payload to the command queue.
    Publish { payload: Vec<u8> },
    /// Answer the client; nothing follows.
    Respond { response: Response },
}

/// Where the handling of one request stands.
#[derive(Debug, PartialEq, Eq)]
pub enum ProducerState {
    /// The job is being recorded; the command waits.
    Recording { command: Command },
    /// The command is being published.
    Publishing { job_id: u128 },
    /// The client has its answer.
    Answered { response: Response },
}

/// Whether `next` and `action` follow the store's or the queue's answer to the
/// last action.
///
/// - After the recording: the publication of the command's payload; or, where the
///   ledger refused or the payload could not be written, the refusal.
/// - After the publication: the acceptance, or the refusal where the queue refused.
/// - After the answer: the same answer.
pub open spec fn advances(
    state: ProducerState,
    reply: Reply,
    next: ProducerState,
    action: ProducerAction,
) -> bool {
    match state {
        ProducerState::Recording { command } => match reply {
            Reply::Failed => answers(Response::Refused { refusal: Refusal::Ledger }, next, action),
            Reply::Done { .. } => match encoded(command@) {
                None => answers(Response::Refused { refusal: Refusal::Encoding }, next, action),
                Some(bytes) => {
                    &&& next == (ProducerState::Publishing { job_id: command.job_id })
                    &&& action matches ProducerAction::Publish { payload }
                    &&& payload@ == bytes
                },
            },
        },
        ProducerState::Publishing { job_id } => match reply {
            Reply::Failed => answers(Response::Refused { refusal: Refusal::Publish }, next, action),
            Reply::Done { .. } => answers(Response::Accepted { job_id }, next, action),
        },
        ProducerState::Answered { response } => answers(response, next, action),
    }
}

/// Whether `next` and `action` give the client this answer.
pub open spec fn answers(response: Response, next: ProducerState, action: ProducerAction) -> bool {
    &&& next == (ProducerState::Answered { response })
    &&& action == (ProducerAction::Respond { response })
}

/// Starts the handling of a request under the given job identifier. `fresh` is the
/// identifier that a new item gets; it is not used unless the request is a create.
pub fn accept(request: Request, job_id: u128, fresh: u128, now: u64) -> (r: (
    ProducerState,
    ProducerAction,
))
    ensures
        r.0 matches ProducerState::Recording { command } && command@ == request.command(
            job_id,
            fresh,
        ),
        r.1 == (ProducerAction::Record { job: request.job(job_id, fresh, now) }),
{
    match request {
        Request::Create { title } => {
            let command = Command {
                job_id,
                operation: String::from_str(Operation::Create.name()),
                item_id: Some(fresh),
                title: Some(title),
            };
            let job = Job::pending(job_id, Some(fresh), Operation::Create, now);
            (ProducerState::Recording { command }, ProducerAction::Record { job })
        },
        Request::Toggle { item_id } => {
            let command = Command {
                job_id,
                operation: String::from_str(Operation::Toggle.name()),
                item_id: Some(item_id),
                title: None,
            };
            let job = Job::pending(job_id, Some(item_id), Operation::Toggle, now);
            (ProducerState::Recording { command }, ProducerAction::Record { job })
        },
        Request::Delete { item_id } => {
            let command = Command {
                job_id,
                operation: String::from_str(Operation::Delete.name()),
                item_id: Some(item_id),
                title: None,
            };
            let job = Job::pending(job_id, Some(item_id), Operation::Delete, now);
            (ProducerState::Recording { command }, ProducerAction::Record { job })
        },
    }
}

/// Starts the handling of a request under a job identifier drawn at random. A
/// create draws a second identifier for its item. Each call draws anew: the same
/// request submitted twice makes two jobs.
pub fn submit(request: Request, now: u64) -> (r: (ProducerState, ProducerAction))
    ensures
        exists|job_id: u128, fresh: u128|
            {
                &&& is_random_form(job_id)
                &&& is_random_form(fresh)
                &&& r.0 matches ProducerState::Recording { command }
                &&& command@ == #[trigger] request.command(job_id, fresh)
                &&& r.1 == (ProducerAction::Record { job: request.job(job_id, fresh, now) })
            },
{
    let job_id = random_id();
    let fresh = match &request {
        Request::Create { .. } => random_id(),
        _ => job_id,
    };
    let r = accept(request, job_id, fresh, now);
    assert(r.0->Recording_command@ == request.command(job_id, fresh));
    r
}

/// Takes the store's or the queue's answer to the last action and names the next
/// action.
pub fn advance(state: ProducerState, reply: Reply) -> (r: (ProducerState, ProducerAction))
    ensures
        advances(state, reply, r.0, r.1),
{
    match state {
        ProducerState::Recording { command } => match reply {
            Reply::Failed => refuse(Refusal::Ledger),
            Reply::Done { .. } => match command.encode() {
                None => refuse(Refusal::Encoding),
                Some(payload) => (
                    ProducerState::Publishing { job_id: command.job_id },
                    ProducerAction::Publish { payload },
                ),
            },
        },
        ProducerState::Publishing { job_id } => match reply {
            Reply::Failed => refuse(Refusal::Publish),
            Reply::Done { .. } => {
                let response = Response::Accepted { job_id };
                (ProducerState::Answered { response }, ProducerAction::Respond { response })
            },
        },
        ProducerState::Answered { response } => (
            ProducerState::Answered { response },
            ProducerAction::Respond { response },
        ),
    }
}

/// The end of a request that failed.
fn refuse(refusal: Refusal) -> (r: (ProducerState, ProducerAction))
    ensures
        answers(Response::Refused { refusal }, r.0, r.1),
{
    let response = Response::Refused { refusal };
    (ProducerState::Answered { response }, ProducerAction::Respond { response })
}

} // verus!
