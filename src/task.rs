use vstd::prelude::*;

verus! {

/// A unit of work: a name and a completion flag.
pub struct Task {
    pub name: String,
    pub completed: bool,
}

/// What can be done to a single task.
#[derive(Debug, Clone, Copy, PartialEq, Eq, Structural)]
pub enum TaskMessage {
    /// Set the completion flag to the given value.
    Completed(bool),
    /// Removal request; the collection that holds the task carries it out.
    Delete,
}

impl Task {
    /// The effect of `msg` on a task, as a value.
    pub open spec fn after(self, msg: TaskMessage) -> Task {
        match msg {
            TaskMessage::Completed(v) => Task { name: self.name, completed: v },
            TaskMessage::Delete => self,
        }
    }

    /// Applies `msg`: `Completed(v)` sets the flag to `v`; `Delete` leaves
    /// the task as it is, since only the owning collection can remove it.
    pub fn update(&mut self, msg: TaskMessage)
        ensures
            *final(self) == old(self).after(msg),
    {
        match msg {
            TaskMessage::Completed(val) => self.completed = val,
            TaskMessage::Delete => {},
        }
    }
}

} // verus!
