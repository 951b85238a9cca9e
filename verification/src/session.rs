//! One command, from the stored bytes to the bytes to store: load the list,
//! act on it, and print it again where it changed.
//!
//! Nothing here touches the storage resource. The caller reads it, hands its
//! content in (`None` where it does not exist), and writes back what a
//! [`Change`] carries.

use crate::ident::is_uuid_text;
use crate::report::{report_of, texts};
use crate::store::{content, load_tasks, loaded_tasks, save_tasks, saved_bytes, StoreError};
use crate::task::{appended, completed, deleted, valid_position};
use vstd::prelude::*;

verus! {

/// What a command reports to the user.
#[derive(Debug, Clone, Copy, PartialEq, Eq, Structural)]
pub enum Notice {
    Added,
    MarkedDone,
    Deleted,
    /// The position named no task; nothing was changed.
    InvalidNumber,
}

impl Notice {
    /// The wording of a notice.
    pub open spec fn text(self) -> Seq<char> {
        match self {
            Notice::Added => "Task added."@,
            Notice::MarkedDone => "Task marked as done."@,
            Notice::Deleted => "Task deleted."@,
            Notice::InvalidNumber => "Invalid task number."@,
        }
    }

    /// The wording of a notice.
    pub fn message(&self) -> (text: &'static str)
        ensures
            text@ == self.text(),
    {
        match self {
            Notice::Added => "Task added.",
            Notice::MarkedDone => "Task marked as done.",
            Notice::Deleted => "Task deleted.",
            Notice::InvalidNumber => "Invalid task number.",
        }
    }
}

/// The outcome of a command that may change the list.
#[derive(Debug)]
pub struct Change {
    pub notice: Notice,
    /// The bytes to store in place of what was stored; `None` where nothing
    /// is to be written.
    pub content: Option<Vec<u8>>,
}

/// The bytes that a change asks to store.
pub open spec fn written(change: Change) -> Option<Seq<u8>> {
    match change.content {
        Some(bytes) => Some(bytes@),
        None => None,
    }
}

/// Adds a task with the given description under a newly drawn id, at the end
/// of the stored list. The outcome carries the whole new list, printed; the
/// command fails exactly where that list cannot be printed.
pub fn add_task(stored: Option<&[u8]>, description: &str) -> (r: Result<Change, StoreError>)
    ensures
        exists|id: Seq<char>|
            {
                &&& is_uuid_text(id)
                &&& match r {
                    Ok(change) => {
                        &&& change.notice == Notice::Added
                        &&& written(change) is Some
                        &&& written(change) == saved_bytes(
                            #[trigger] appended(loaded_tasks(content(stored)), id, description@),
                        )
                    },
                    Err(_) => saved_bytes(
                        appended(loaded_tasks(content(stored)), id, description@),
                    ) is None,
                }
            },
{
    let mut list = load_tasks(stored).list;
    list.add(description);
    assert(list@ == appended(loaded_tasks(content(stored)), list@.last().id, description@));
    match save_tasks(&list) {
        Ok(bytes) => Ok(Change { notice: Notice::Added, content: Some(bytes) }),
        Err(error) => Err(error),
    }
}

/// The listing of the stored list. Nothing is to be written.
pub fn list_tasks(stored: Option<&[u8]>) -> (lines: Vec<String>)
    ensures
        texts(lines@) == report_of(loaded_tasks(content(stored))),
{
    load_tasks(stored).list.report()
}

/// Marks the task at the 1-based `position` of the stored list as done. Where
/// the position names no task, the outcome says so and nothing is to be
/// written; this is no error. The command fails exactly where the position
/// names a task and the changed list cannot be printed.
pub fn mark_done(stored: Option<&[u8]>, position: usize) -> (r: Result<Change, StoreError>)
    ensures
        match r {
            Ok(change) => if valid_position(
                loaded_tasks(content(stored)).len(),
                position as nat,
            ) {
                &&& change.notice == Notice::MarkedDone
                &&& written(change) is Some
                &&& written(change) == saved_bytes(
                    completed(loaded_tasks(content(stored)), position as nat),
                )
            } else {
                &&& change.notice == Notice::InvalidNumber
                &&& written(change) is None
            },
            Err(_) => {
                &&& valid_position(loaded_tasks(content(stored)).len(), position as nat)
                &&& saved_bytes(
                    completed(loaded_tasks(content(stored)), position as nat),
                ) is None
            },
        },
{
    let mut list = load_tasks(stored).list;
    if !list.complete(position) {
        return Ok(Change { notice: Notice::InvalidNumber, content: None });
    }
    match save_tasks(&list) {
        Ok(bytes) => Ok(Change { notice: Notice::MarkedDone, content: Some(bytes) }),
        Err(error) => Err(error),
    }
}

/// Removes the task at the 1-based `position` of the stored list. Where the
/// position names no task, the outcome says so and nothing is to be written;
/// this is no error. The command fails exactly where the position names a
/// task and the changed list cannot be printed.
pub fn delete_task(stored: Option<&[u8]>, position: usize) -> (r: Result<Change, StoreError>)
    ensures
        match r {
            Ok(change) => if valid_position(
                loaded_tasks(content(stored)).len(),
                position as nat,
            ) {
                &&& change.notice == Notice::Deleted
                &&& written(change) is Some
                &&& written(change) == saved_bytes(
                    deleted(loaded_tasks(content(stored)), position as nat),
                )
            } else {
                &&& change.notice == Notice::InvalidNumber
                &&& written(change) is None
            },
            Err(_) => {
                &&& valid_position(loaded_tasks(content(stored)).len(), position as nat)
                &&& saved_bytes(deleted(loaded_tasks(content(stored)), position as nat)) is None
            },
        },
{
    let mut list = load_tasks(stored).list;
    if !list.delete(position) {
        return Ok(Change { notice: Notice::InvalidNumber, content: None });
    }
    match save_tasks(&list) {
        Ok(bytes) => Ok(Change { notice: Notice::Deleted, content: Some(bytes) }),
        Err(error) => Err(error),
    }
}

} // verus!
