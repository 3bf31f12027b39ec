//! Items, jobs, and the names under which operations and statuses are stored and sent.

use vstd::prelude::*;
use vstd::string::*;

verus! {

/// What a job asks for.
#[derive(Clone, Copy, Debug, PartialEq, Eq, Structural)]
pub enum Operation {
    Create,
    Toggle,
    Delete,
}

impl Operation {
    /// The name of the operation in messages and in the ledger.
    pub open spec fn spec_name(self) -> Seq<char> {
        match self {
            Operation::Create => "create"@,
            Operation::Toggle => "toggle"@,
            Operation::Delete => "delete"@,
        }
    }

    /// The operation that a name stands for, if it stands for one.
    pub open spec fn spec_parse(name: Seq<char>) -> Option<Operation> {
        if name == "create"@ {
            Some(Operation::Create)
        } else if name == "toggle"@ {
            Some(Operation::Toggle)
        } else if name == "delete"@ {
            Some(Operation::Delete)
        } else {
            None
        }
    }

    /// The name of the operation in messages and in the ledger.
    pub fn name(self) -> (r: &'static str)
        ensures
            r@ == self.spec_name(),
    {
        match self {
            Operation::Create => "create",
            Operation::Toggle => "toggle",
            Operation::Delete => "delete",
        }
    }

    /// Reads the name of an operation. Any other text gives `None`.
    pub fn parse(name: &str) -> (r: Option<Operation>)
        ensures
            r == Operation::spec_parse(name@),
    {
        let given = String::from_str(name);
        if given == String::from_str("create") {
            Some(Operation::Create)
        } else if given == String::from_str("toggle") {
            Some(Operation::Toggle)
        } else if given == String::from_str("delete") {
            Some(Operation::Delete)
        } else {
            None
        }
    }

    /// Every operation is read back from its own name.
    pub proof fn lemma_name_parses(self)
        ensures
            Operation::spec_parse(self.spec_name()) == Some(self),
    {
        reveal_strlit("create");
        reveal_strlit("toggle");
        reveal_strlit("delete");
        assert("create"@[0] == 'c');
        assert("toggle"@[0] == 't');
        assert("delete"@[0] == 'd');
    }
}

/// Where a job stands. A job starts pending and is settled once, as completed or
/// as failed; a settled job stays as it is.
#[derive(Clone, Copy, Debug, PartialEq, Eq, Structural)]
pub enum JobStatus {
    Pending,
    Completed,
    Failed,
}

impl JobStatus {
    /// Completed and failed are terminal; pending is not.
    pub open spec fn terminal(self) -> bool {
        self != JobStatus::Pending
    }

    /// The status after an attempt to settle the job as `to`: only a pending job moves.
    pub open spec fn settled_as(self, to: JobStatus) -> JobStatus {
        if self == JobStatus::Pending {
            to
        } else {
            self
        }
    }

    /// The name of the status in the ledger and in answers to clients.
    pub open spec fn spec_name(self) -> Seq<char> {
        match self {
            JobStatus::Pending => "pending"@,
            JobStatus::Completed => "completed"@,
            JobStatus::Failed => "failed"@,
        }
    }

    /// The status that a name stands for, if it stands for one.
    pub open spec fn spec_parse(name: Seq<char>) -> Option<JobStatus> {
        if name == "pending"@ {
            Some(JobStatus::Pending)
        } else if name == "completed"@ {
            Some(JobStatus::Completed)
        } else if name == "failed"@ {
            Some(JobStatus::Failed)
        } else {
            None
        }
    }

    /// Whether the status is terminal.
    pub fn is_terminal(self) -> (r: bool)
        ensures
            r == self.terminal(),
    {
        match self {
            JobStatus::Pending => false,
            JobStatus::Completed => true,
            JobStatus::Failed => true,
        }
    }

    /// The status after an attempt to settle the job as `to`.
    pub fn settle(self, to: JobStatus) -> (r: JobStatus)
        ensures
            r == self.settled_as(to),
    {
        match self {
            JobStatus::Pending => to,
            JobStatus::Completed => JobStatus::Completed,
            JobStatus::Failed => JobStatus::Failed,
        }
    }

    /// The name of the status in the ledger and in answers to clients.
    pub fn name(self) -> (r: &'static str)
        ensures
            r@ == self.spec_name(),
    {
        match self {
            JobStatus::Pending => "pending",
            JobStatus::Completed => "completed",
            JobStatus::Failed => "failed",
        }
    }

    /// Reads the name of a status. Any other text gives `None`.
    pub fn parse(name: &str) -> (r: Option<JobStatus>)
        ensures
            r == JobStatus::spec_parse(name@),
    {
        let given = String::from_str(name);
        if given == String::from_str("pending") {
            Some(JobStatus::Pending)
        } else if given == String::from_str("completed") {
            Some(JobStatus::Completed)
        } else if given == String::from_str("failed") {
            Some(JobStatus::Failed)
        } else {
            None
        }
    }

    /// Every status is read back from its own name.
    pub proof fn lemma_name_parses(self)
        ensures
            JobStatus::spec_parse(self.spec_name()) == Some(self),
    {
        reveal_strlit("pending");
        reveal_strlit("completed");
        reveal_strlit("failed");
        assert("pending"@.len() == 7);
        assert("completed"@.len() == 9);
        assert("failed"@.len() == 6);
    }

    /// A terminal status does not move, whatever it is settled as; and settling a
    /// pending job as a terminal status makes it terminal.
    pub proof fn lemma_settled_once(self, first: JobStatus, second: JobStatus)
        requires
            first.terminal(),
        ensures
            self.settled_as(first).terminal(),
            self.settled_as(first).settled_as(second) == self.settled_as(first),
    {
    }
}

/// One record of the job ledger.
#[derive(Clone, Copy, Debug, PartialEq, Eq, Structural)]
pub struct Job {
    pub id: u128,
    /// The item that the job works on, once it is known.
    pub item_id: Option<u128>,
    pub operation: Operation,
    pub status: JobStatus,
    /// When the job was recorded, on the caller's clock.
    pub created_at: u64,
}

impl Job {
    /// A job as the producer records it: pending.
    pub fn pending(id: u128, item_id: Option<u128>, operation: Operation, created_at: u64) -> (job: Job)
        ensures
            job == (Job { id, item_id, operation, status: JobStatus::Pending, created_at }),
    {
        Job { id, item_id, operation, status: JobStatus::Pending, created_at }
    }
}

/// One record of the item store.
#[derive(Clone, Debug, PartialEq, Eq)]
pub struct Item {
    pub id: u128,
    pub title: String,
    pub completed: bool,
}

/// The mathematical value of an [`Item`].
pub struct ItemView {
    pub id: u128,
    pub title: Seq<char>,
    pub completed: bool,
}

impl View for Item {
    type V = ItemView;

    open spec fn view(&self) -> ItemView {
        ItemView { id: self.id, title: self.title@, completed: self.completed }
    }
}

} // verus!
