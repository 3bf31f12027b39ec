//! The ledger store: the table of jobs and the table of items, and the statements
//! that the pipeline runs against them.
//!
//! [`LedgerView`] says what each statement does to the two tables. [`Ledger`] keeps
//! the tables in memory and answers as a store that never fails for a reason of its
//! own. A store of another make is held to the same meaning by its caller.

use crate::model::{Item, ItemView, Job, JobStatus};
use std::collections::HashMap;
use vstd::prelude::*;

verus! {

broadcast use vstd::std_specs::hash::group_hash_axioms;

/// A change to the item table.
#[derive(Clone, Debug, PartialEq, Eq)]
pub enum Mutation {
    /// Add an item, not completed, under an identifier that is not in the table.
    InsertItem { item_id: u128, title: String },
    /// Turn the `completed` flag of an item into its negation.
    ToggleItem { item_id: u128 },
    /// Remove an item.
    DeleteItem { item_id: u128 },
}

impl Mutation {
    /// Whether the change counts as failed when it touches no row.
    pub open spec fn needs_row(self) -> bool {
        self is ToggleItem
    }
}

/// How the store answered a statement, or the queue a publication or an
/// acknowledgement.
#[derive(Clone, Copy, Debug, PartialEq, Eq, Structural)]
pub enum Reply {
    /// The statement ran and touched this many rows.
    Done { rows: u64 },
    /// The statement, the transaction around it, or the call to the queue was refused.
    Failed,
}

/// The two tables as mathematical maps, each keyed by identifier.
pub struct LedgerView {
    pub jobs: Map<u128, Job>,
    pub items: Map<u128, ItemView>,
}

impl LedgerView {
    /// Every record is filed under its own identifier.
    pub open spec fn wf(self) -> bool {
        &&& forall|id: u128| #[trigger] self.jobs.contains_key(id) ==> self.jobs[id].id == id
        &&& forall|id: u128| #[trigger] self.items.contains_key(id) ==> self.items[id].id == id
    }

    /// The status of a job, or `None` where the ledger has no such job.
    pub open spec fn status(self, job_id: u128) -> Option<JobStatus> {
        if self.jobs.contains_key(job_id) {
            Some(self.jobs[job_id].status)
        } else {
            None
        }
    }

    /// The ledger after recording a job, and whether it was recorded: a job whose
    /// identifier is taken is refused and changes nothing.
    pub open spec fn recorded(self, job: Job) -> (LedgerView, bool) {
        if self.jobs.contains_key(job.id) {
            (self, false)
        } else {
            (LedgerView { jobs: self.jobs.insert(job.id, job), items: self.items }, true)
        }
    }

    /// The ledger after a change to the item table, and the store's answer.
    /// Inserting under a taken identifier is refused. Toggling or deleting an item
    /// that is not there is no error: it touches no row.
    pub open spec fn applied(self, m: Mutation) -> (LedgerView, Reply) {
        match m {
            Mutation::InsertItem { item_id, title } => if self.items.contains_key(item_id) {
                (self, Reply::Failed)
            } else {
                (
                    LedgerView {
                        jobs: self.jobs,
                        items: self.items.insert(
                            item_id,
                            ItemView { id: item_id, title: title@, completed: false },
                        ),
                    },
                    Reply::Done { rows: 1 },
                )
            },
            Mutation::ToggleItem { item_id } => if self.items.contains_key(item_id) {
                let item = self.items[item_id];
                (
                    LedgerView {
                        jobs: self.jobs,
                        items: self.items.insert(
                            item_id,
                            ItemView { id: item.id, title: item.title, completed: !item.completed },
                        ),
                    },
                    Reply::Done { rows: 1 },
                )
            } else {
                (self, Reply::Done { rows: 0 })
            },
            Mutation::DeleteItem { item_id } => if self.items.contains_key(item_id) {
                (
                    LedgerView { jobs: self.jobs, items: self.items.remove(item_id) },
                    Reply::Done { rows: 1 },
                )
            } else {
                (self, Reply::Done { rows: 0 })
            },
        }
    }

    /// The ledger after an attempt to settle a job, and the rows it touched: one
    /// where the job was pending, none where it was settled before or is unknown.
    pub open spec fn settled(self, job_id: u128, status: JobStatus) -> (LedgerView, Reply) {
        if self.jobs.contains_key(job_id) && self.jobs[job_id].status == JobStatus::Pending {
            let job = self.jobs[job_id];
            (
                LedgerView {
                    jobs: self.jobs.insert(
                        job_id,
                        Job {
                            id: job.id,
                            item_id: job.item_id,
                            operation: job.operation,
                            status,
                            created_at: job.created_at,
                        },
                    ),
                    items: self.items,
                },
                Reply::Done { rows: 1 },
            )
        } else {
            (self, Reply::Done { rows: 0 })
        }
    }
}

/// The two tables, held in memory.
pub struct Ledger {
    jobs: HashMap<u128, Job>,
    items: HashMap<u128, Item>,
}

impl View for Ledger {
    type V = LedgerView;

    closed spec fn view(&self) -> LedgerView {
        LedgerView {
            jobs: Map::new(
                |id: u128| self.jobs@.contains_key(id),
                |id: u128|
                    {
                        let job = self.jobs@[id];
                        Job {
                            id,
                            item_id: job.item_id,
                            operation: job.operation,
                            status: job.status,
                            created_at: job.created_at,
                        }
                    },
            ),
            items: Map::new(
                |id: u128| self.items@.contains_key(id),
                |id: u128|
                    ItemView {
                        id,
                        title: self.items@[id].title@,
                        completed: self.items@[id].completed,
                    },
            ),
        }
    }
}

impl Ledger {
    /// An empty ledger.
    pub fn new() -> (ledger: Ledger)
        ensures
            ledger@.jobs == Map::<u128, Job>::empty(),
            ledger@.items == Map::<u128, ItemView>::empty(),
            ledger@.wf(),
    {
        let ledger = Ledger { jobs: HashMap::new(), items: HashMap::new() };
        assert(ledger@.jobs =~= Map::<u128, Job>::empty());
        assert(ledger@.items =~= Map::<u128, ItemView>::empty());
        ledger
    }

    /// Every record of a ledger is filed under its own identifier.
    pub proof fn lemma_filed_by_id(&self)
        ensures
            self@.wf(),
    {
    }

    /// Records a job. Returns whether it was recorded; a job whose identifier is
    /// taken is refused.
    pub fn record_job(&mut self, job: Job) -> (ok: bool)
        ensures
            (final(self)@, ok) == old(self)@.recorded(job),
            final(self)@.wf(),
    {
        if self.jobs.contains_key(&job.id) {
            false
        } else {
            self.jobs.insert(job.id, job);
            assert(self@.jobs =~= old(self)@.jobs.insert(job.id, job));
            assert(self@.items =~= old(self)@.items);
            true
        }
    }

    /// The job under an identifier.
    pub fn job(&self, job_id: u128) -> (r: Option<Job>)
        ensures
            r is Some == self@.jobs.contains_key(job_id),
            r matches Some(job) ==> job == self@.jobs[job_id] && job.id == job_id,
    {
        match self.jobs.get(&job_id) {
            Some(job) => Some(
                Job {
                    id: job_id,
                    item_id: job.item_id,
                    operation: job.operation,
                    status: job.status,
                    created_at: job.created_at,
                },
            ),
            None => None,
        }
    }

    /// The status of a job, or `None` where the ledger has no such job.
    pub fn job_status(&self, job_id: u128) -> (r: Option<JobStatus>)
        ensures
            r == self@.status(job_id),
    {
        match self.jobs.get(&job_id) {
            Some(job) => Some(job.status),
            None => None,
        }
    }

    /// The item under an identifier.
    pub fn item(&self, item_id: u128) -> (r: Option<Item>)
        ensures
            r is Some == self@.items.contains_key(item_id),
            r matches Some(item) ==> item@ == self@.items[item_id] && item.id == item_id,
    {
        match self.items.get(&item_id) {
            Some(item) => Some(
                Item { id: item_id, title: item.title.clone(), completed: item.completed },
            ),
            None => None,
        }
    }

    /// Changes the item table and answers as the store does.
    pub fn apply(&mut self, m: &Mutation) -> (reply: Reply)
        ensures
            (final(self)@, reply) == old(self)@.applied(*m),
            final(self)@.wf(),
    {
        match m {
            Mutation::InsertItem { item_id, title } => {
                if self.items.contains_key(item_id) {
                    Reply::Failed
                } else {
                    let item = Item { id: *item_id, title: title.clone(), completed: false };
                    self.items.insert(*item_id, item);
                    assert(self@.items =~= old(self)@.items.insert(*item_id, item@));
                    assert(self@.jobs =~= old(self)@.jobs);
                    Reply::Done { rows: 1 }
                }
            },
            Mutation::ToggleItem { item_id } => {
                let found: Option<Item> = match self.items.get(item_id) {
                    Some(item) => Some(
                        Item { id: *item_id, title: item.title.clone(), completed: !item.completed },
                    ),
                    None => None,
                };
                match found {
                    Some(item) => {
                        self.items.insert(*item_id, item);
                        assert(self@.items =~= old(self)@.items.insert(*item_id, item@));
                        assert(self@.jobs =~= old(self)@.jobs);
                        Reply::Done { rows: 1 }
                    },
                    None => Reply::Done { rows: 0 },
                }
            },
            Mutation::DeleteItem { item_id } => {
                if self.items.contains_key(item_id) {
                    self.items.remove(item_id);
                    assert(self@.items =~= old(self)@.items.remove(*item_id));
                    assert(self@.jobs =~= old(self)@.jobs);
                    Reply::Done { rows: 1 }
                } else {
                    Reply::Done { rows: 0 }
                }
            },
        }
    }

    /// Settles a job as completed or failed, if it is pending, and answers with the
    /// rows touched.
    pub fn settle(&mut self, job_id: u128, status: JobStatus) -> (reply: Reply)
        ensures
            (final(self)@, reply) == old(self)@.settled(job_id, status),
            final(self)@.wf(),
    {
        match self.job(job_id) {
            Some(job) => {
                if job.status == JobStatus::Pending {
                    let closed = Job {
                        id: job_id,
                        item_id: job.item_id,
                        operation: job.operation,
                        status,
                        created_at: job.created_at,
                    };
                    self.jobs.insert(job_id, closed);
                    assert(self@.jobs =~= old(self)@.jobs.insert(job_id, closed));
                    assert(self@.items =~= old(self)@.items);
                    Reply::Done { rows: 1 }
                } else {
                    Reply::Done { rows: 0 }
                }
            },
            None => Reply::Done { rows: 0 },
        }
    }
}

} // verus!
