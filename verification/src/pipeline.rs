//! The worker's protocol run against the ledger, and what follows for jobs and items.
//!
//! [`run`] plays the protocol of [`crate::worker`] against a store that answers as
//! [`LedgerView`] says. [`processed`] states the result outright, and the two are
//! proved equal. The laws below are proved of [`processed`]; [`Ledger::process`]
//! and [`Ledger::deliver`] do the same in memory.

use crate::ledger::{Ledger, LedgerView, Mutation, Reply};
use crate::model::{ItemView, JobStatus};
use crate::producer::Request;
use crate::wire::{decode, decoded, Command};
use crate::worker::{
    begin, spec_begin, spec_plan, spec_step, step, Fault, Outcome, WorkerAction, WorkerState,
};
use vstd::prelude::*;

verus! {

impl LedgerView {
    /// The ledger after an action of the worker, and the store's answer. The
    /// acknowledgement goes to the queue and leaves the ledger alone.
    pub open spec fn performed(self, action: WorkerAction) -> (LedgerView, Reply) {
        match action {
            WorkerAction::Acknowledge => (self, Reply::Done { rows: 0 }),
            WorkerAction::Apply { mutation } => self.applied(mutation),
            WorkerAction::Complete { job_id } => self.settled(job_id, JobStatus::Completed),
            WorkerAction::MarkFailed { job_id } => self.settled(job_id, JobStatus::Failed),
            WorkerAction::Stop { .. } => (self, Reply::Done { rows: 0 }),
        }
    }
}

/// The ledger and the outcome once the protocol, started in `state` with `action`
/// pending, has run to its end.
pub open spec fn run(store: LedgerView, state: WorkerState, action: WorkerAction) -> (
    LedgerView,
    Outcome,
)
    decreases state.steps_left(),
{
    match state {
        WorkerState::Finished { outcome } => (store, outcome),
        _ => {
            let (next, reply) = store.performed(action);
            let (state, action) = spec_step(state, reply);
            run(next, state, action)
        },
    }
}

/// The ledger and the outcome after the handling of a command.
///
/// Where the command plans no change, the job is settled as failed. Else the
/// change is applied. Where the store refuses it, or it had to touch a row and
/// touched none, the job is settled as failed; else as completed.
pub open spec fn processed(store: LedgerView, cmd: Command) -> (LedgerView, Outcome) {
    match spec_plan(cmd) {
        Err(fault) => (store.settled(cmd.job_id, JobStatus::Failed).0, Outcome::Failed { fault }),
        Ok(mutation) => {
            let (changed, reply) = store.applied(mutation);
            match reply {
                Reply::Failed => (
                    changed.settled(cmd.job_id, JobStatus::Failed).0,
                    Outcome::Failed { fault: Fault::Ledger },
                ),
                Reply::Done { rows } => if mutation.needs_row() && rows == 0 {
                    (
                        changed.settled(cmd.job_id, JobStatus::Failed).0,
                        Outcome::Failed { fault: Fault::ItemNotFound },
                    )
                } else {
                    (changed.settled(cmd.job_id, JobStatus::Completed).0, Outcome::Completed)
                },
            }
        },
    }
}

/// The ledger after the handling of a sequence of commands, one after the other.
pub open spec fn processed_all(store: LedgerView, cmds: Seq<Command>) -> LedgerView
    decreases cmds.len(),
{
    if cmds.len() == 0 {
        store
    } else {
        processed(processed_all(store, cmds.drop_last()), cmds.last()).0
    }
}

/// Running the protocol for a command gives what [`processed`] states.
pub proof fn lemma_run_is_processed(store: LedgerView, cmd: Command)
    ensures
        run(store, spec_begin(cmd).0, spec_begin(cmd).1) == processed(store, cmd),
{
    reveal_with_fuel(run, 5);
}

/// Every record stays filed under its own identifier.
pub proof fn lemma_processed_wf(store: LedgerView, cmd: Command)
    requires
        store.wf(),
    ensures
        processed(store, cmd).0.wf(),
{
}

/// The handling of a command settles its job, if the job is pending: afterwards
/// the job is completed or failed, and which of the two is what the outcome says.
pub proof fn lemma_pending_job_is_settled(store: LedgerView, cmd: Command)
    requires
        store.status(cmd.job_id) == Some(JobStatus::Pending),
    ensures
        ({
            let (after, outcome) = processed(store, cmd);
            &&& after.status(cmd.job_id) == Some(JobStatus::Completed) || after.status(cmd.job_id)
                == Some(JobStatus::Failed)
            &&& outcome == Outcome::Completed <==> after.status(cmd.job_id) == Some(
                JobStatus::Completed,
            )
            &&& outcome is Failed <==> after.status(cmd.job_id) == Some(JobStatus::Failed)
        }),
{
}

/// The command that is published for a request plans the change that the request
/// asks for.
pub proof fn lemma_request_plans(request: Request, job_id: u128, fresh: u128, cmd: Command)
    requires
        cmd@ == request.command(job_id, fresh),
    ensures
        cmd.job_id == job_id,
        match request {
            Request::Create { title } => {
                &&& spec_plan(cmd) matches Ok(Mutation::InsertItem { item_id, title: planned })
                &&& item_id == fresh
                &&& planned@ == title@
            },
            Request::Toggle { item_id } => spec_plan(cmd) == Ok::<Mutation, Fault>(
                Mutation::ToggleItem { item_id },
            ),
            Request::Delete { item_id } => spec_plan(cmd) == Ok::<Mutation, Fault>(
                Mutation::DeleteItem { item_id },
            ),
        },
{
    request.operation().lemma_name_parses();
}

/// A request that is recorded under an unused job identifier and whose command is
/// then handled ends settled: the job is pending once recorded, and completed or
/// failed once handled.
pub proof fn lemma_accepted_job_is_settled(
    store: LedgerView,
    request: Request,
    job_id: u128,
    fresh: u128,
    now: u64,
    cmd: Command,
)
    requires
        !store.jobs.contains_key(job_id),
        cmd@ == request.command(job_id, fresh),
    ensures
        ({
            let (recorded, ok) = store.recorded(request.job(job_id, fresh, now));
            let after = processed(recorded, cmd).0;
            &&& ok
            &&& recorded.status(job_id) == Some(JobStatus::Pending)
            &&& after.status(job_id) == Some(JobStatus::Completed) || after.status(job_id) == Some(
                JobStatus::Failed,
            )
        }),
{
    lemma_request_plans(request, job_id, fresh, cmd);
    lemma_pending_job_is_settled(store.recorded(request.job(job_id, fresh, now)).0, cmd);
}

/// The handling of a command deletes no job, and changes no job that is settled:
/// a terminal status never moves again.
pub proof fn lemma_settled_jobs_stay(store: LedgerView, cmd: Command, job_id: u128)
    requires
        store.jobs.contains_key(job_id),
    ensures
        processed(store, cmd).0.jobs.contains_key(job_id),
        store.jobs[job_id].status.terminal() || job_id != cmd.job_id ==> processed(
            store,
            cmd,
        ).0.jobs[job_id] == store.jobs[job_id],
{
}

/// Two toggles of one item, one handled after the other, leave the item table as
/// it was: an item that is there has its `completed` flag back.
pub proof fn lemma_toggle_twice(store: LedgerView, first: Command, second: Command, item_id: u128)
    requires
        spec_plan(first) == Ok::<Mutation, Fault>(Mutation::ToggleItem { item_id }),
        spec_plan(second) == Ok::<Mutation, Fault>(Mutation::ToggleItem { item_id }),
    ensures
        processed(processed(store, first).0, second).0.items == store.items,
{
    let mid = processed(store, first).0;
    let end = processed(mid, second).0;
    assert(end.items =~= store.items);
}

/// Deleting an item that is not there is no failure: the job is settled as
/// completed, and the item table stays as it was.
pub proof fn lemma_delete_absent_completes(store: LedgerView, cmd: Command, item_id: u128)
    requires
        spec_plan(cmd) == Ok::<Mutation, Fault>(Mutation::DeleteItem { item_id }),
        !store.items.contains_key(item_id),
        store.status(cmd.job_id) == Some(JobStatus::Pending),
    ensures
        processed(store, cmd).1 == Outcome::Completed,
        processed(store, cmd).0.status(cmd.job_id) == Some(JobStatus::Completed),
        processed(store, cmd).0.items == store.items,
{
}

/// Toggling an item that is not there fails: the job is settled as failed, and the
/// item table stays as it was.
pub proof fn lemma_toggle_absent_fails(store: LedgerView, cmd: Command, item_id: u128)
    requires
        spec_plan(cmd) == Ok::<Mutation, Fault>(Mutation::ToggleItem { item_id }),
        !store.items.contains_key(item_id),
        store.status(cmd.job_id) == Some(JobStatus::Pending),
    ensures
        processed(store, cmd).1 == (Outcome::Failed { fault: Fault::ItemNotFound }),
        processed(store, cmd).0.status(cmd.job_id) == Some(JobStatus::Failed),
        processed(store, cmd).0.items == store.items,
{
}

/// Whether the commands are creates that do not stand in each other's way: each
/// plans the insertion of an item, no two share an item or a job, no item is in the
/// store yet, and every job is pending there.
pub open spec fn independent_creates(store: LedgerView, cmds: Seq<Command>) -> bool {
    &&& forall|i: int|
        0 <= i < cmds.len() ==> {
            &&& #[trigger] spec_plan(cmds[i]) is Ok
            &&& spec_plan(cmds[i])->Ok_0 is InsertItem
            &&& !store.items.contains_key(spec_plan(cmds[i])->Ok_0->InsertItem_item_id)
            &&& store.status(cmds[i].job_id) == Some(JobStatus::Pending)
        }
    &&& forall|i: int, j: int|
        0 <= i < j < cmds.len() ==> {
            &&& (#[trigger] cmds[i]).job_id != (#[trigger] cmds[j]).job_id
            &&& spec_plan(cmds[i])->Ok_0->InsertItem_item_id != spec_plan(
                cmds[j],
            )->Ok_0->InsertItem_item_id
        }
}

/// The item that a create command adds.
pub open spec fn created_item(cmd: Command) -> ItemView {
    ItemView {
        id: spec_plan(cmd)->Ok_0->InsertItem_item_id,
        title: spec_plan(cmd)->Ok_0->InsertItem_title@,
        completed: false,
    }
}

/// Independent creates, handled in whatever order they stand in the sequence,
/// all succeed: every job is completed, every item is in the table as created, and
/// the table holds the items it held before and these, no other.
pub proof fn lemma_independent_creates(store: LedgerView, cmds: Seq<Command>)
    requires
        independent_creates(store, cmds),
    ensures
        forall|i: int|
            0 <= i < cmds.len() ==> {
                &&& processed_all(store, cmds).status((#[trigger] cmds[i]).job_id) == Some(
                    JobStatus::Completed,
                )
                &&& processed_all(store, cmds).items.contains_key(created_item(cmds[i]).id)
                &&& processed_all(store, cmds).items[created_item(cmds[i]).id] == created_item(
                    cmds[i],
                )
            },
        forall|id: u128| #[trigger]
            processed_all(store, cmds).items.contains_key(id) <==> store.items.contains_key(id) || (
            exists|i: int| 0 <= i < cmds.len() && #[trigger] created_item(cmds[i]).id == id),
        forall|id: u128|
            store.items.contains_key(id) ==> #[trigger] processed_all(store, cmds).items[id]
                == store.items[id],
        forall|id: u128| #[trigger]
            processed_all(store, cmds).jobs.contains_key(id) <==> store.jobs.contains_key(id),
        forall|id: u128|
            store.jobs.contains_key(id) && (forall|i: int|
                0 <= i < cmds.len() ==> (#[trigger] cmds[i]).job_id != id)
                ==> #[trigger] processed_all(store, cmds).jobs[id] == store.jobs[id],
    decreases cmds.len(),
{
    if cmds.len() > 0 {
        let front = cmds.drop_last();
        let last = cmds.last();
        let n = front.len() as int;
        assert(cmds[n] == last);
        assert forall|i: int| 0 <= i < front.len() implies front[i] == cmds[i] by {}
        assert(independent_creates(store, front)) by {
            assert forall|i: int| 0 <= i < front.len() implies {
                &&& #[trigger] spec_plan(front[i]) is Ok
                &&& spec_plan(front[i])->Ok_0 is InsertItem
                &&& !store.items.contains_key(spec_plan(front[i])->Ok_0->InsertItem_item_id)
                &&& store.status(front[i].job_id) == Some(JobStatus::Pending)
            } by {
                assert(front[i] == cmds[i]);
                assert(spec_plan(cmds[i]) is Ok);
            }
            assert forall|i: int, j: int| 0 <= i < j < front.len() implies {
                &&& (#[trigger] front[i]).job_id != (#[trigger] front[j]).job_id
                &&& spec_plan(front[i])->Ok_0->InsertItem_item_id != spec_plan(
                    front[j],
                )->Ok_0->InsertItem_item_id
            } by {
                assert(front[i] == cmds[i] && front[j] == cmds[j]);
            }
        }
        lemma_independent_creates(store, front);
        let before = processed_all(store, front);
        let after = processed_all(store, cmds);
        assert(after == processed(before, last).0);
        let item = created_item(last);
        assert(spec_plan(cmds[n]) is Ok);
        // The last command's item is not in the table yet, and its job is pending.
        assert(!before.items.contains_key(item.id)) by {
            if before.items.contains_key(item.id) {
                assert(!store.items.contains_key(item.id));
                let i = choose|i: int| 0 <= i < front.len() && #[trigger] created_item(front[i]).id == item.id;
                assert(front[i] == cmds[i]);
                assert(cmds[i].job_id != cmds[n].job_id);
            }
        }
        assert(before.jobs.contains_key(last.job_id) && before.jobs[last.job_id]
            == store.jobs[last.job_id]) by {
            assert(store.jobs.contains_key(last.job_id));
            assert forall|i: int| 0 <= i < front.len() implies (#[trigger] front[i]).job_id
                != last.job_id by {
                assert(front[i] == cmds[i]);
                assert(cmds[i].job_id != cmds[n].job_id);
            }
        }
        assert(after.items == before.items.insert(item.id, item));
        assert forall|i: int| 0 <= i < cmds.len() implies {
            &&& after.status((#[trigger] cmds[i]).job_id) == Some(JobStatus::Completed)
            &&& after.items.contains_key(created_item(cmds[i]).id)
            &&& after.items[created_item(cmds[i]).id] == created_item(cmds[i])
        } by {
            if i < n {
                assert(front[i] == cmds[i]);
                assert(cmds[i].job_id != cmds[n].job_id);
            }
        }
        assert forall|id: u128| #[trigger]
            after.items.contains_key(id) <==> store.items.contains_key(id) || (exists|i: int|
                0 <= i < cmds.len() && #[trigger] created_item(cmds[i]).id == id) by {
            if after.items.contains_key(id) && !store.items.contains_key(id) {
                if id == item.id {
                    assert(created_item(cmds[n]).id == id);
                } else {
                    assert(before.items.contains_key(id));
                    let i = choose|i: int| 0 <= i < front.len() && #[trigger] created_item(front[i]).id == id;
                    assert(front[i] == cmds[i]);
                    assert(created_item(cmds[i]).id == id);
                }
            }
            if exists|i: int| 0 <= i < cmds.len() && #[trigger] created_item(cmds[i]).id == id {
                let i = choose|i: int| 0 <= i < cmds.len() && #[trigger] created_item(cmds[i]).id == id;
                if i < n {
                    assert(front[i] == cmds[i]);
                    assert(created_item(front[i]).id == id);
                }
            }
        }
        assert forall|id: u128| store.items.contains_key(id) implies #[trigger] after.items[id]
            == store.items[id] by {
            assert(before.items[id] == store.items[id]);
        }
        assert forall|id: u128|
            store.jobs.contains_key(id) && (forall|i: int|
                0 <= i < cmds.len() ==> (#[trigger] cmds[i]).job_id != id) implies #[trigger] after.jobs[id]
            == store.jobs[id] by {
            assert(cmds[n].job_id != id);
            assert forall|i: int| 0 <= i < front.len() implies (#[trigger] front[i]).job_id != id by {
                assert(front[i] == cmds[i]);
                assert(cmds[i].job_id != id);
            }
            assert(before.jobs[id] == store.jobs[id]);
        }
    }
}

impl Ledger {
    /// Performs an action of the worker and answers as the store does.
    pub fn perform(&mut self, action: &WorkerAction) -> (reply: Reply)
        ensures
            (final(self)@, reply) == old(self)@.performed(*action),
            final(self)@.wf(),
    {
        match action {
            WorkerAction::Acknowledge => {
                proof {
                    self.lemma_filed_by_id();
                }
                Reply::Done { rows: 0 }
            },
            WorkerAction::Apply { mutation } => self.apply(mutation),
            WorkerAction::Complete { job_id } => self.settle(*job_id, JobStatus::Completed),
            WorkerAction::MarkFailed { job_id } => self.settle(*job_id, JobStatus::Failed),
            WorkerAction::Stop { .. } => {
                proof {
                    self.lemma_filed_by_id();
                }
                Reply::Done { rows: 0 }
            },
        }
    }

    /// Handles a command from its acknowledgement to the end of the protocol and
    /// reports the outcome.
    pub fn process(&mut self, cmd: Command) -> (outcome: Outcome)
        ensures
            (final(self)@, outcome) == processed(old(self)@, cmd),
            final(self)@.wf(),
    {
        let (mut state, mut action) = begin(cmd);
        proof {
            lemma_run_is_processed(self@, cmd);
            self.lemma_filed_by_id();
        }
        loop
            invariant
                run(self@, state, action) == processed(old(self)@, cmd),
                self@.wf(),
            decreases state.steps_left(),
        {
            if let WorkerState::Finished { outcome } = &state {
                return *outcome;
            }
            let reply = self.perform(&action);
            let (next_state, next_action) = step(state, reply);
            state = next_state;
            action = next_action;
        }
    }

    /// Handles a delivered payload. A payload that is no command is abandoned and
    /// changes nothing.
    pub fn deliver(&mut self, payload: &[u8]) -> (outcome: Outcome)
        ensures
            match decoded(payload@) {
                Err(reason) => final(self)@ == old(self)@ && outcome == (Outcome::Abandoned {
                    reason,
                }),
                Ok(c) => exists|cmd: Command|
                    cmd@ == c && (final(self)@, outcome) == #[trigger] processed(old(self)@, cmd),
            },
    {
        match decode(payload) {
            Ok(cmd) => {
                let outcome = self.process(cmd);
                assert(cmd@ == decoded(payload@)->Ok_0 && (self@, outcome) == processed(
                    old(self)@,
                    cmd,
                ));
                outcome
            },
            Err(reason) => Outcome::Abandoned { reason },
        }
    }
}

} // verus!
