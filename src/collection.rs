use vstd::prelude::*;
use crate::task::{Task, TaskMessage};

verus! {

/// Names what `str::trim` returns for a string: the string without its
/// leading and trailing whitespace.
pub uninterp spec fn trimmed(s: Seq<char>) -> Seq<char>;

/// Relies on `str::trim`: the result depends on the characters alone, and
/// an empty string stays empty.
#[verifier::external_body]
fn trim(s: &str) -> (r: &str)
    ensures
        r@ == trimmed(s@),
        s@.len() == 0 ==> r@.len() == 0,
{
    s.trim()
}

/// Which tasks are shown, and which a bulk removal takes away.
#[derive(Debug, Clone, Copy, PartialEq, Eq, Structural)]
pub enum Filter {
    All,
    Active,
    Completed,
}

impl Default for Filter {
    fn default() -> (r: Filter)
        ensures
            r == Filter::All,
    {
        Filter::All
    }
}

impl Filter {
    pub open spec fn spec_matches(self, task: Task) -> bool {
        match self {
            Filter::All => true,
            Filter::Active => !task.completed,
            Filter::Completed => task.completed,
        }
    }

    /// Whether `task` passes this filter.
    pub fn matches(&self, task: &Task) -> (r: bool)
        ensures
            r == self.spec_matches(*task),
    {
        match self {
            Filter::All => true,
            Filter::Active => !task.completed,
            Filter::Completed => task.completed,
        }
    }
    /// The label of the bulk-removal action under this filter.
    pub fn remove_label(&self) -> (r: &'static str)
        ensures
            r@ == match self {
                Filter::All => "Remove All Tasks"@,
                Filter::Active => "Remove Active Tasks"@,
                Filter::Completed => "Remove Completed Tasks"@,
            },
    {
        match self {
            Filter::All => "Remove All Tasks",
            Filter::Active => "Remove Active Tasks",
            Filter::Completed => "Remove Completed Tasks",
        }
    }
}

/// The tasks of `tasks` that `filter` does not match, in their order.
pub open spec fn kept(tasks: Seq<Task>, filter: Filter) -> Seq<Task> {
    tasks.filter(|t: Task| !filter.spec_matches(t))
}

/// Taking one more task into account adds it to what is kept exactly when
/// the filter does not match it.
proof fn lemma_kept_step(s: Seq<Task>, j: int, filter: Filter)
    requires
        0 <= j < s.len(),
    ensures
        kept(s.subrange(0, j + 1), filter) == if filter.spec_matches(s[j]) {
            kept(s.subrange(0, j), filter)
        } else {
            kept(s.subrange(0, j), filter).push(s[j])
        },
{
    reveal(Seq::filter);
    assert(s.subrange(0, j + 1).drop_last() =~= s.subrange(0, j));
}

/// Removing the tasks that a filter matches leaves exactly those it does
/// not match: no kept task is matched, every unmatched task is kept, and
/// the kept tasks keep their relative order.
pub proof fn lemma_remove_tasks_exact(tasks: Seq<Task>, filter: Filter)
    ensures
        forall|k: int| 0 <= k < kept(tasks, filter).len() ==> !filter.spec_matches(
            #[trigger] kept(tasks, filter)[k],
        ),
        forall|k: int| 0 <= k < tasks.len() && !filter.spec_matches(#[trigger] tasks[k]) ==> kept(
            tasks,
            filter,
        ).contains(tasks[k]),
        kept(tasks, filter).len() <= tasks.len(),
        forall|k: int| 0 <= k < tasks.len() ==> (kept(tasks, filter) == #[trigger] kept(
            tasks.subrange(0, k),
            filter,
        ) + kept(tasks.subrange(k, tasks.len() as int), filter)),
{
    let pred = |t: Task| !filter.spec_matches(t);
    tasks.filter_lemma(pred);
    assert forall|k: int| 0 <= k < tasks.len() implies (kept(tasks, filter) == #[trigger] kept(
        tasks.subrange(0, k),
        filter,
    ) + kept(tasks.subrange(k, tasks.len() as int), filter)) by {
        assert(tasks =~= tasks.subrange(0, k) + tasks.subrange(k, tasks.len() as int));
        Seq::filter_distributes_over_add(tasks.subrange(0, k), tasks.subrange(k, tasks.len() as int), pred);
    }
}

/// Deleting the task at `i` leaves every task before `i` in place and moves
/// every task after `i` down by one position.
pub proof fn lemma_delete_shifts(c: Collection, i: usize)
    requires
        i < c.tasks@.len(),
    ensures
        c.tasks_without(i).len() == c.tasks@.len() - 1,
        forall|k: int| 0 <= k < i ==> #[trigger] c.tasks_without(i)[k] == c.tasks@[k],
        forall|k: int| i <= k < c.tasks@.len() - 1 ==> #[trigger] c.tasks_without(i)[k] == c.tasks@[k + 1],
{
}

/// A named, ordered group of tasks with its own filter and input buffer.
pub struct Collection {
    pub name: String,
    pub tasks: Vec<Task>,
    pub filter: Filter,
    /// Text typed for the next task; never persisted.
    pub add_task_input: String,
}

/// What can be done to a collection.
#[derive(Debug, Clone)]
pub enum CollectionMessage {
    /// Apply a task message to the task at this position of the backing list.
    TaskMessage(usize, TaskMessage),
    /// Turn the input buffer into a new task.
    AddTask,
    /// Replace the input buffer.
    AddTaskInputChanged(String),
    /// Replace the active filter.
    FilterChanged(Filter),
    /// Remove every task that the active filter matches.
    RemoveTasks,
}

impl Collection {
    /// The collection has exactly these parts.
    pub open spec fn is(self, name: String, tasks: Seq<Task>, filter: Filter, input: String) -> bool {
        &&& self.name == name
        &&& self.tasks@ == tasks
        &&& self.filter == filter
        &&& self.add_task_input == input
    }

    /// The tasks after removing the one at `i`, if there is one.
    pub open spec fn tasks_without(self, i: usize) -> Seq<Task> {
        if i < self.tasks@.len() {
            self.tasks@.remove(i as int)
        } else {
            self.tasks@
        }
    }

    /// The tasks after applying `msg` to the one at `i`, if there is one.
    pub open spec fn tasks_with_update(self, i: usize, msg: TaskMessage) -> Seq<Task> {
        if i < self.tasks@.len() {
            self.tasks@.update(i as int, self.tasks@[i as int].after(msg))
        } else {
            self.tasks@
        }
    }

    /// Removes every task that `filter` matches, keeping the order of the
    /// others. The cursor moves on only past a kept task, so the task that
    /// slides into a freed position is tested too.
    pub fn remove_tasks(&mut self, filter: Filter)
        ensures
            final(self).is(old(self).name, kept(old(self).tasks@, filter), old(self).filter, old(self).add_task_input),
    {
        let ghost orig = self.tasks@;
        let ghost n = orig.len();
        let ghost mut j: int = 0;
        let mut i: usize = 0;
        while i < self.tasks.len()
            invariant
                self.name == old(self).name,
                self.filter == old(self).filter,
                self.add_task_input == old(self).add_task_input,
                n == orig.len(),
                0 <= j <= n,
                i == kept(orig.subrange(0, j), filter).len(),
                self.tasks@ == kept(orig.subrange(0, j), filter) + orig.subrange(j, n as int),
            decreases self.tasks@.len() - i,
        {
            proof {
                lemma_kept_step(orig, j, filter);
                assert(self.tasks@[i as int] == orig[j]);
            }
            if filter.matches(&self.tasks[i]) {
                let _ = self.tasks.remove(i);
                proof {
                    assert(self.tasks@ =~= kept(orig.subrange(0, j + 1), filter) + orig.subrange(j + 1, n as int));
                }
            } else {
                proof {
                    assert(self.tasks@ =~= kept(orig.subrange(0, j + 1), filter) + orig.subrange(j + 1, n as int));
                }
                i = i + 1;
            }
            proof {
                j = j + 1;
            }
        }
        proof {
            assert(orig.subrange(j, n as int).len() == 0);
            assert(orig.subrange(0, j) =~= orig);
            assert(self.tasks@ =~= kept(orig, filter));
        }
    }

    /// Positions, in the backing list, of the tasks that the active filter
    /// shows, in increasing order. A view lists these, and sends task
    /// messages with these positions, not with its display order.
    pub fn visible_positions(&self) -> (r: Vec<usize>)
        ensures
            forall|k: int| 0 <= k < r@.len() ==> #[trigger] r@[k] < self.tasks@.len()
                && self.filter.spec_matches(self.tasks@[r@[k] as int]),
            forall|k: int, l: int| 0 <= k < l < r@.len() ==> #[trigger] r@[k] < #[trigger] r@[l],
            forall|p: int| 0 <= p < self.tasks@.len() && #[trigger] self.filter.spec_matches(self.tasks@[p])
                ==> r@.contains(p as usize),
    {
        let mut r: Vec<usize> = Vec::new();
        let mut i: usize = 0;
        while i < self.tasks.len()
            invariant
                i <= self.tasks@.len(),
                forall|k: int| 0 <= k < r@.len() ==> #[trigger] r@[k] < i
                    && self.filter.spec_matches(self.tasks@[r@[k] as int]),
                forall|k: int, l: int| 0 <= k < l < r@.len() ==> #[trigger] r@[k] < #[trigger] r@[l],
                forall|p: int| 0 <= p < i && #[trigger] self.filter.spec_matches(self.tasks@[p])
                    ==> r@.contains(p as usize),
            decreases self.tasks@.len() - i,
        {
            if self.filter.matches(&self.tasks[i]) {
                let ghost before = r@;
                r.push(i);
                proof {
                    assert forall|p: int| 0 <= p < i + 1 && #[trigger] self.filter.spec_matches(self.tasks@[p])
                        implies r@.contains(p as usize) by {
                        if p < i {
                            let w = choose|w: int| 0 <= w < before.len() && before[w] == p as usize;
                            assert(r@[w] == p as usize);
                        } else {
                            assert(r@[before.len() as int] == p as usize);
                        }
                    }
                }
            }
            i = i + 1;
        }
        r
    }

    /// An empty collection with this name, the `All` filter and no input.
    pub fn new(name: String) -> (r: Collection)
        ensures
            r.name == name,
            r.tasks@.len() == 0,
            r.filter == Filter::All,
            r.add_task_input@.len() == 0,
    {
        Collection { name, tasks: Vec::new(), filter: Filter::All, add_task_input: String::new() }
    }

    /// Removes the task at `i`; an index past the end changes nothing.
    pub fn remove_task_at(&mut self, i: usize)
        ensures
            final(self).is(old(self).name, old(self).tasks_without(i), old(self).filter, old(self).add_task_input),
    {
        if i < self.tasks.len() {
            let _ = self.tasks.remove(i);
        }
    }

    /// Applies `msg` to the task at `i`; an index past the end changes nothing.
    pub fn forward_to_task(&mut self, i: usize, msg: TaskMessage)
        ensures
            final(self).is(old(self).name, old(self).tasks_with_update(i, msg), old(self).filter, old(self).add_task_input),
    {
        if i < self.tasks.len() {
            self.tasks[i].update(msg);
        }
    }

    /// Appends the input buffer as a new, open task and clears the buffer,
    /// unless `blank` says the buffer holds only whitespace. The stored name
    /// is the buffer as typed, untrimmed.
    pub fn commit_input(&mut self, blank: bool)
        ensures
            blank ==> *final(self) == *old(self),
            !blank ==> final(self).name == old(self).name,
            !blank ==> final(self).tasks@ == old(self).tasks@.push(
                Task { name: old(self).add_task_input, completed: false },
            ),
            !blank ==> final(self).filter == old(self).filter,
            !blank ==> final(self).add_task_input@.len() == 0,
    {
        if blank {
            return;
        }
        let mut name = String::new();
        std::mem::swap(&mut name, &mut self.add_task_input);
        self.tasks.push(Task { name, completed: false });
    }

    /// Adds the input buffer as a task when it is not blank once trimmed.
    pub fn add_task(&mut self)
        ensures
            trimmed(old(self).add_task_input@).len() == 0 ==> *final(self) == *old(self),
            trimmed(old(self).add_task_input@).len() != 0 ==> final(self).name == old(self).name,
            trimmed(old(self).add_task_input@).len() != 0 ==> final(self).tasks@ == old(self).tasks@.push(
                Task { name: old(self).add_task_input, completed: false },
            ),
            trimmed(old(self).add_task_input@).len() != 0 ==> final(self).filter == old(self).filter,
            trimmed(old(self).add_task_input@).len() != 0 ==> final(self).add_task_input@.len() == 0,
    {
        let blank = trim(self.add_task_input.as_str()).is_empty();
        self.commit_input(blank);
    }
    /// `after` is this collection once `message` has been handled.
    pub open spec fn updated(self, message: CollectionMessage, after: Collection) -> bool {
        match message {
            CollectionMessage::TaskMessage(i, TaskMessage::Delete) => after.is(
                self.name,
                self.tasks_without(i),
                self.filter,
                self.add_task_input,
            ),
            CollectionMessage::TaskMessage(i, msg) => after.is(
                self.name,
                self.tasks_with_update(i, msg),
                self.filter,
                self.add_task_input,
            ),
            CollectionMessage::AddTask => if trimmed(self.add_task_input@).len() == 0 {
                after == self
            } else {
                &&& after.name == self.name
                &&& after.tasks@ == self.tasks@.push(
                    Task { name: self.add_task_input, completed: false },
                )
                &&& after.filter == self.filter
                &&& after.add_task_input@.len() == 0
            },
            CollectionMessage::AddTaskInputChanged(input) => after.is(
                self.name,
                self.tasks@,
                self.filter,
                input,
            ),
            CollectionMessage::FilterChanged(filter) => after.is(
                self.name,
                self.tasks@,
                filter,
                self.add_task_input,
            ),
            CollectionMessage::RemoveTasks => after.is(
                self.name,
                kept(self.tasks@, self.filter),
                self.filter,
                self.add_task_input,
            ),
        }
    }

    /// Handles one collection message. A delete is taken before any other
    /// task message, so a task about to go is never changed first.
    pub fn update(&mut self, message: CollectionMessage)
        ensures
            old(self).updated(message, *final(self)),
    {
        match message {
            CollectionMessage::TaskMessage(i, TaskMessage::Delete) => self.remove_task_at(i),
            CollectionMessage::TaskMessage(i, task_message) => self.forward_to_task(i, task_message),
            CollectionMessage::AddTaskInputChanged(input) => self.add_task_input = input,
            CollectionMessage::AddTask => self.add_task(),
            CollectionMessage::FilterChanged(filter) => self.filter = filter,
            CollectionMessage::RemoveTasks => {
                let filter = self.filter;
                self.remove_tasks(filter);
            },
        }
    }
}

} // verus!
