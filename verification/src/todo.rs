//! The todo list: a FIFO queue of tasks with increasing ids.

use crate::queue::{Queue, dequeued, enqueued};
use vstd::prelude::*;
use vstd::string::StringExecFns;

verus! {

/// A single task with its id and creation time.
#[derive(Clone, Debug)]
pub struct Todo {
    pub id: u64,
    pub description: String,
    pub created_at: u64,
}

/// The pending tasks, the id the next task gets, and the file they are kept in.
pub struct TodoQueue {
    queue: Queue<Todo>,
    next_id: u64,
    storage_path: String,
}

/// Ids strictly increase from the oldest task to the newest, every id is
/// below `next_id`, and ids start at one.
pub open spec fn ids_ordered(tasks: Seq<Todo>, next_id: u64) -> bool {
    &&& next_id >= 1
    &&& forall|i: int, j: int| 0 <= i < j < tasks.len() ==> tasks[i].id < tasks[j].id
    &&& forall|i: int| 0 <= i < tasks.len() ==> 1 <= #[trigger] tasks[i].id < next_id
}

/// The system clock's time.
#[verifier::external_type_specification]
#[verifier::external_body]
pub struct ExSystemTime(std::time::SystemTime);

/// `std::time::SystemTime::now`: the system clock's current time. It depends
/// on when it is called, so nothing is stated of it.
#[verifier::external_body]
fn system_now() -> (now: std::time::SystemTime) {
    std::time::SystemTime::now()
}

/// `SystemTime::duration_since(UNIX_EPOCH)` in whole seconds, or `None` for
/// a time before the Unix epoch, where std documents that it returns an
/// error. The time is opaque here, so nothing more is stated.
#[verifier::external_body]
fn unix_seconds(t: &std::time::SystemTime) -> (secs: Option<u64>) {
    t.duration_since(std::time::UNIX_EPOCH).ok().map(|d| d.as_secs())
}

/// Why a task could not be added.
#[derive(Clone, Copy, Debug, PartialEq, Eq, Structural)]
pub enum TodoError {
    /// The system clock reads a time before the Unix epoch, so the task has
    /// no creation time.
    ClockBeforeUnixEpoch,
}

impl TodoQueue {
    /// The pending tasks, oldest first.
    pub closed spec fn tasks(&self) -> Seq<Todo> {
        self.queue@
    }

    /// The id the next added task gets.
    pub closed spec fn spec_next_id(&self) -> u64 {
        self.next_id
    }

    /// The file the tasks are kept in.
    pub closed spec fn spec_storage_path(&self) -> Seq<char> {
        self.storage_path@
    }

    /// The tasks' ids are in order (see `ids_ordered`).
    pub open spec fn wf(&self) -> bool {
        ids_ordered(self.tasks(), self.spec_next_id())
    }

    /// An empty list kept in `storage_path` whose first task gets id 1.
    pub fn new(storage_path: &str) -> (q: Self)
        ensures
            q.tasks() == Seq::<Todo>::empty(),
            q.spec_next_id() == 1,
            q.spec_storage_path() == storage_path@,
            q.wf(),
    {
        TodoQueue { queue: Queue::new(), next_id: 1, storage_path: String::from_str(storage_path) }
    }

    /// Replaces the tasks and the next id by those read back from storage.
    pub fn restore(&mut self, tasks: Vec<Todo>, next_id: u64)
        ensures
            final(self).tasks() == tasks@,
            final(self).spec_next_id() == next_id,
            final(self).spec_storage_path() == old(self).spec_storage_path(),
    {
        let mut queue: Queue<Todo> = Queue::new();
        let mut rest = tasks;
        let ghost all = rest@;
        while rest.len() > 0
            invariant
                queue@ + rest@ == all,
            decreases rest@.len(),
        {
            let todo = rest.remove(0);
            queue.enqueue(todo);
            assert(queue@ + rest@ =~= all);
        }
        assert(queue@ =~= all);
        self.queue = queue;
        self.next_id = next_id;
    }

    /// The id the next added task gets.
    pub fn next_id(&self) -> (id: u64)
        ensures
            id == self.spec_next_id(),
    {
        self.next_id
    }

    /// The file the tasks are kept in.
    pub fn storage_path(&self) -> (path: &str)
        ensures
            path@ == self.spec_storage_path(),
    {
        self.storage_path.as_str()
    }

    /// Adds a task created at `created_at` at the back of the list, with the
    /// next id, and returns it.
    pub fn add_task_at(&mut self, description: String, created_at: u64) -> (todo: &Todo)
        requires
            old(self).spec_next_id() < u64::MAX,
        ensures
            final(self).tasks() == enqueued(
                old(self).tasks(),
                Todo { id: old(self).spec_next_id(), description, created_at },
            ),
            final(self).spec_next_id() == old(self).spec_next_id() + 1,
            final(self).spec_storage_path() == old(self).spec_storage_path(),
            *todo == (Todo { id: old(self).spec_next_id(), description, created_at }),
            old(self).wf() ==> final(self).wf(),
    {
        let todo = Todo { id: self.next_id, description, created_at };
        self.next_id = self.next_id + 1;
        self.queue.enqueue(todo);
        self.queue.peek_back().unwrap()
    }

    /// Adds a task created at the clock reading `clock`, in seconds since
    /// the Unix epoch, and returns it; a clock before the epoch (`None`)
    /// adds nothing and is reported.
    pub fn add_task_with_clock(&mut self, description: String, clock: Option<u64>) -> (res: Result<
        &Todo,
        TodoError,
    >)
        requires
            old(self).spec_next_id() < u64::MAX,
        ensures
            match clock {
                Some(t) => res is Ok && *res->Ok_0 == (Todo {
                    id: old(self).spec_next_id(),
                    description,
                    created_at: t,
                }) && final(self).tasks() == enqueued(old(self).tasks(), *res->Ok_0)
                    && final(self).spec_next_id() == old(self).spec_next_id() + 1,
                None => res == Err::<&Todo, TodoError>(TodoError::ClockBeforeUnixEpoch)
                    && final(self).tasks() == old(self).tasks() && final(self).spec_next_id()
                    == old(self).spec_next_id(),
            },
            final(self).spec_storage_path() == old(self).spec_storage_path(),
            old(self).wf() ==> final(self).wf(),
    {
        match clock {
            Some(t) => Ok(self.add_task_at(description, t)),
            None => Err(TodoError::ClockBeforeUnixEpoch),
        }
    }

    /// Adds a task created now at the back of the list, with the next id,
    /// and returns it (see `add_task_with_clock`, which it calls with the
    /// system clock's reading).
    pub fn add_task(&mut self, description: String) -> (res: Result<&Todo, TodoError>)
        requires
            old(self).spec_next_id() < u64::MAX,
        ensures
            match res {
                Ok(todo) => final(self).tasks() == enqueued(old(self).tasks(), *todo) && todo.id
                    == old(self).spec_next_id() && todo.description == description
                    && final(self).spec_next_id() == old(self).spec_next_id() + 1,
                Err(_) => final(self).tasks() == old(self).tasks() && final(self).spec_next_id()
                    == old(self).spec_next_id(),
            },
            final(self).spec_storage_path() == old(self).spec_storage_path(),
            old(self).wf() ==> final(self).wf(),
    {
        let now = system_now();
        let clock = unix_seconds(&now);
        self.add_task_with_clock(description, clock)
    }

    /// Completes (removes) the oldest task and returns it.
    pub fn complete_next(&mut self) -> (done: Option<Todo>)
        ensures
            (done, final(self).tasks()) == dequeued(old(self).tasks()),
            final(self).spec_next_id() == old(self).spec_next_id(),
            final(self).spec_storage_path() == old(self).spec_storage_path(),
            old(self).wf() ==> final(self).wf(),
    {
        self.queue.dequeue()
    }

    /// All pending tasks, oldest first.
    pub fn list_tasks(&self) -> (all: Vec<&Todo>)
        ensures
            all@ == self.tasks().as_ref(),
    {
        self.queue.to_vec()
    }
}

/// With ids in order, no two pending tasks share an id.
pub proof fn law_ids_unique(tasks: Seq<Todo>, next_id: u64)
    requires
        ids_ordered(tasks, next_id),
    ensures
        forall|i: int, j: int| 0 <= i < tasks.len() && 0 <= j < tasks.len() && i != j ==> tasks[i].id != tasks[j].id,
{
    assert forall|i: int, j: int| 0 <= i < tasks.len() && 0 <= j < tasks.len() && i != j implies tasks[i].id != tasks[j].id by {
        if i < j {
            assert(tasks[i].id < tasks[j].id);
        } else {
            assert(tasks[j].id < tasks[i].id);
        }
    }
}

/// The task completed next is the oldest: it has the smallest id of all
/// pending tasks.
pub proof fn law_complete_takes_smallest_id(tasks: Seq<Todo>, next_id: u64)
    requires
        ids_ordered(tasks, next_id),
        tasks.len() > 0,
    ensures
        dequeued(tasks).0 matches Some(t) && forall|i: int| 0 <= i < tasks.len() ==> t.id <= #[trigger] tasks[i].id,
{
    assert forall|i: int| 0 <= i < tasks.len() implies tasks[0].id <= #[trigger] tasks[i].id by {
        if i > 0 {
            assert(tasks[0].id < tasks[i].id);
        }
    }
}

/// Adding a task keeps ids in order: the new task's id is larger than every
/// pending task's, and the next id moves past it.
pub proof fn law_add_keeps_ids_ordered(
    tasks: Seq<Todo>,
    next_id: u64,
    description: String,
    created_at: u64,
)
    requires
        ids_ordered(tasks, next_id),
        next_id < u64::MAX,
    ensures
        ids_ordered(
            enqueued(tasks, Todo { id: next_id, description, created_at }),
            (next_id + 1) as u64,
        ),
        forall|i: int| 0 <= i < tasks.len() ==> #[trigger] tasks[i].id < enqueued(
            tasks,
            Todo { id: next_id, description, created_at },
        ).last().id,
{
    let added = enqueued(tasks, Todo { id: next_id, description, created_at });
    assert forall|i: int, j: int| 0 <= i < j < added.len() implies added[i].id < added[j].id by {
        if j < tasks.len() {
            assert(added[i] == tasks[i] && added[j] == tasks[j]);
        } else {
            assert(added[i] == tasks[i]);
        }
    }
    assert forall|i: int| 0 <= i < added.len() implies 1 <= #[trigger] added[i].id < next_id + 1 by {
        if i < tasks.len() {
            assert(added[i] == tasks[i]);
        }
    }
}

} // verus!
