//! Tasks, the ordered list that holds them, and the operations on that list.

use crate::ident::{fresh_id, is_uuid_text};
use crate::laws::{lemma_append_fresh, lemma_completed_ids, lemma_deleted_ids};
use vstd::prelude::*;

verus! {

/// One tracked record.
#[derive(Debug, Clone, PartialEq, Eq)]
pub struct Task {
    /// Identifier, assigned once when the task is created.
    pub id: String,
    /// Free-form text; may be empty.
    pub description: String,
    /// Whether the task has been completed.
    pub done: bool,
}

/// What a [`Task`] stands for in contracts.
pub struct TaskView {
    pub id: Seq<char>,
    pub description: Seq<char>,
    pub done: bool,
}

impl View for Task {
    type V = TaskView;

    open spec fn view(&self) -> TaskView {
        TaskView { id: self.id@, description: self.description@, done: self.done }
    }
}

/// The tasks in creation order. A task's position is its place in this order,
/// counted from 1; it changes when an earlier task is deleted, its id never does.
#[derive(Debug, Clone, PartialEq, Eq)]
pub struct TaskList {
    pub tasks: Vec<Task>,
}

impl View for TaskList {
    type V = Seq<TaskView>;

    open spec fn view(&self) -> Seq<TaskView> {
        self.tasks@.map_values(|t: Task| t@)
    }
}

/// A position names a task of a list of `len` tasks.
pub open spec fn valid_position(len: nat, position: nat) -> bool {
    1 <= position <= len
}

/// The list after a new, open task was put at its end.
pub open spec fn appended(list: Seq<TaskView>, id: Seq<char>, description: Seq<char>) -> Seq<
    TaskView,
> {
    list.push(TaskView { id, description, done: false })
}

/// The list after the task at `position` was marked done; the list itself
/// where the position names no task.
pub open spec fn completed(list: Seq<TaskView>, position: nat) -> Seq<TaskView> {
    if valid_position(list.len(), position) {
        list.update(position - 1, TaskView { done: true, ..list[position - 1] })
    } else {
        list
    }
}

/// The list without the task at `position`; the list itself where the
/// position names no task.
pub open spec fn deleted(list: Seq<TaskView>, position: nat) -> Seq<TaskView> {
    if valid_position(list.len(), position) {
        list.remove(position - 1)
    } else {
        list
    }
}

/// Some task of the list carries this id.
pub open spec fn has_id(list: Seq<TaskView>, id: Seq<char>) -> bool {
    exists|i: int| 0 <= i < list.len() && #[trigger] list[i].id == id
}

/// No two tasks of the list share an id.
pub open spec fn ids_unique(list: Seq<TaskView>) -> bool {
    forall|i: int, j: int|
        0 <= i < j < list.len() ==> (#[trigger] list[i]).id != (#[trigger] list[j]).id
}

impl Task {
    /// A new, open task.
    pub fn new(id: String, description: String) -> (task: Task)
        ensures
            task@ == (TaskView { id: id@, description: description@, done: false }),
    {
        Task { id, description, done: false }
    }
}

impl TaskList {
    /// The empty list.
    pub fn new() -> (list: TaskList)
        ensures
            list@ == Seq::<TaskView>::empty(),
    {
        let list = TaskList { tasks: Vec::new() };
        assert(list@ =~= Seq::<TaskView>::empty());
        list
    }

    /// Number of tasks.
    pub fn len(&self) -> (n: usize)
        ensures
            n == self@.len(),
    {
        self.tasks.len()
    }

    /// Appends an open task with the given id and description. The ids stay
    /// unique where no task of the list has the given id.
    pub fn push(&mut self, id: String, description: String)
        ensures
            final(self)@ == appended(old(self)@, id@, description@),
            ids_unique(old(self)@) && !has_id(old(self)@, id@) ==> ids_unique(final(self)@),
    {
        self.tasks.push(Task::new(id, description));
        assert(final(self)@ =~= appended(old(self)@, id@, description@));
        proof {
            if ids_unique(old(self)@) && !has_id(old(self)@, id@) {
                lemma_append_fresh(old(self)@, id@, description@);
            }
        }
    }

    /// Appends an open task with the given description under a newly drawn
    /// id. The id is random: nothing rules out that the list holds it already,
    /// however unlikely that is.
    pub fn add(&mut self, description: &str)
        ensures
            final(self)@.len() == old(self)@.len() + 1,
            final(self)@ == appended(old(self)@, final(self)@.last().id, description@),
            is_uuid_text(final(self)@.last().id),
    {
        let id = fresh_id();
        self.push(id, description.to_owned());
    }

    /// Marks the task at the 1-based `position` as done. Returns whether the
    /// position named a task; where it did not, nothing changes.
    pub fn complete(&mut self, position: usize) -> (changed: bool)
        ensures
            changed == valid_position(old(self)@.len(), position as nat),
            final(self)@ == completed(old(self)@, position as nat),
            !changed ==> final(self)@ == old(self)@,
            ids_unique(old(self)@) ==> ids_unique(final(self)@),
    {
        if position == 0 || position > self.tasks.len() {
            return false;
        }
        let index: usize = position - 1;
        self.tasks[index].done = true;
        assert(final(self)@ =~= completed(old(self)@, position as nat));
        proof {
            if ids_unique(old(self)@) {
                lemma_completed_ids(old(self)@, position as nat);
            }
        }
        true
    }

    /// Removes the task at the 1-based `position`; the tasks behind it move up
    /// by one. Returns whether the position named a task; where it did not,
    /// nothing changes.
    pub fn delete(&mut self, position: usize) -> (changed: bool)
        ensures
            changed == valid_position(old(self)@.len(), position as nat),
            final(self)@ == deleted(old(self)@, position as nat),
            !changed ==> final(self)@ == old(self)@,
            changed ==> final(self)@.len() == old(self)@.len() - 1,
            ids_unique(old(self)@) ==> ids_unique(final(self)@),
    {
        if position == 0 || position > self.tasks.len() {
            return false;
        }
        let index: usize = position - 1;
        self.tasks.remove(index);
        assert(final(self)@ =~= deleted(old(self)@, position as nat));
        proof {
            if ids_unique(old(self)@) {
                lemma_deleted_ids(old(self)@, position as nat);
            }
        }
        true
    }
}

} // verus!
