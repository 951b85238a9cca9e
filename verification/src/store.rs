//! The stored form of a task list: a JSON array with one object per task, each
//! with the members `id`, `description` and `done`.

use crate::json::{
    array_value, bool_value, empty_object, json_of, jsons_of, member, object_value, parse, parsed,
    put_member, render, rendered, text_value, Json,
};
use crate::task::{Task, TaskList, TaskView};
use vstd::prelude::*;

verus! {

/// The object that stands for one task.
pub open spec fn record_json(task: TaskView) -> Json {
    Json::Object(
        Map::empty().insert("id"@, Json::Text(task.id)).insert(
            "description"@,
            Json::Text(task.description),
        ).insert("done"@, Json::Bool(task.done)),
    )
}

/// The document that stands for a list: its tasks' objects, in order.
pub open spec fn document_of(list: Seq<TaskView>) -> Json {
    Json::Array(list.map_values(|task: TaskView| record_json(task)))
}

/// The task that an item of a stored document stands for: the item is an
/// object whose `id` and `description` are strings and whose `done` is a
/// boolean. Other members are ignored. `None` for any other item.
pub open spec fn record_of(item: Json) -> Option<TaskView> {
    match item {
        Json::Object(members) => {
            if members.contains_key("id"@) && members.contains_key("description"@)
                && members.contains_key("done"@) {
                match (members["id"@], members["description"@], members["done"@]) {
                    (Json::Text(id), Json::Text(description), Json::Bool(done)) => Some(
                        TaskView { id, description, done },
                    ),
                    _ => None,
                }
            } else {
                None
            }
        },
        _ => None,
    }
}

/// The list that a document stands for: the document is an array and each of
/// its items stands for a task. `None` for any other document.
pub open spec fn tasks_of(doc: Json) -> Option<Seq<TaskView>> {
    match doc {
        Json::Array(items) => {
            if forall|i: int| 0 <= i < items.len() ==> (#[trigger] record_of(items[i])) is Some {
                Some(items.map_values(|item: Json| record_of(item).unwrap()))
            } else {
                None
            }
        },
        _ => None,
    }
}

/// Where a loaded list came from.
#[derive(Debug, Clone, Copy, PartialEq, Eq, Structural)]
pub enum Origin {
    /// Nothing was stored yet; the list is empty.
    Missing,
    /// The stored document was read.
    Stored,
    /// Something was stored that is no task list; the list is empty in its place.
    Corrupt,
}

/// A list as loaded, with where it came from.
#[derive(Debug)]
pub struct Loaded {
    pub list: TaskList,
    pub origin: Origin,
}

/// Why a list could not be brought into its stored form.
#[derive(Debug)]
pub enum StoreError {
    /// The document could not be printed.
    Print(serde_json::Error),
}

/// The list that stored bytes stand for, `None` where they are no JSON text
/// or the text is no task list.
pub open spec fn stored_tasks(bytes: Seq<u8>) -> Option<Seq<TaskView>> {
    match parsed(bytes) {
        Some(doc) => tasks_of(doc),
        None => None,
    }
}

/// The list that loading yields: what was stored, and the empty list where
/// nothing was stored or what was stored is no task list.
pub open spec fn loaded_tasks(stored: Option<Seq<u8>>) -> Seq<TaskView> {
    match stored {
        Some(bytes) => match stored_tasks(bytes) {
            Some(list) => list,
            None => Seq::empty(),
        },
        None => Seq::empty(),
    }
}

/// Where loading finds its list.
pub open spec fn loaded_origin(stored: Option<Seq<u8>>) -> Origin {
    match stored {
        Some(bytes) => if stored_tasks(bytes) is Some {
            Origin::Stored
        } else {
            Origin::Corrupt
        },
        None => Origin::Missing,
    }
}

/// The bytes of a storage resource's content, if it exists.
pub open spec fn content(stored: Option<&[u8]>) -> Option<Seq<u8>> {
    match stored {
        Some(bytes) => Some(bytes@),
        None => None,
    }
}

/// Builds the object that stands for one task.
fn encode_record(task: &Task) -> (value: serde_json::Value)
    ensures
        json_of(value) == record_json(task@),
{
    let mut object = empty_object();
    put_member(&mut object, "id".to_owned(), text_value(task.id.clone()));
    put_member(&mut object, "description".to_owned(), text_value(task.description.clone()));
    put_member(&mut object, "done".to_owned(), bool_value(task.done));
    object_value(object)
}

/// Builds the document that stands for a list.
pub fn encode(list: &TaskList) -> (doc: serde_json::Value)
    ensures
        json_of(doc) == document_of(list@),
{
    let mut items: Vec<serde_json::Value> = Vec::new();
    let mut i: usize = 0;
    while i < list.tasks.len()
        invariant
            i <= list.tasks.len(),
            items@.len() == i,
            forall|j: int| 0 <= j < i ==> json_of(#[trigger] items@[j]) == record_json(list@[j]),
        decreases list.tasks.len() - i,
    {
        items.push(encode_record(&list.tasks[i]));
        i += 1;
    }
    let doc = array_value(items);
    assert(jsons_of(items@) =~= list@.map_values(|task: TaskView| record_json(task)));
    doc
}

/// Reads one task from an item of a stored document.
fn decode_record(item: &serde_json::Value) -> (r: Option<Task>)
    ensures
        match r {
            Some(task) => record_of(json_of(*item)) == Some(task@),
            None => record_of(json_of(*item)) is None,
        },
{
    let id = match member(item, "id") {
        Some(found) => match found.as_str() {
            Some(text) => text.to_owned(),
            None => return None,
        },
        None => return None,
    };
    let description = match member(item, "description") {
        Some(found) => match found.as_str() {
            Some(text) => text.to_owned(),
            None => return None,
        },
        None => return None,
    };
    let done = match member(item, "done") {
        Some(found) => match found.as_bool() {
            Some(flag) => flag,
            None => return None,
        },
        None => return None,
    };
    Some(Task { id, description, done })
}

/// Reads a list from a document. `None` where the document is no array, or an
/// item of it is no task.
pub fn decode(doc: &serde_json::Value) -> (r: Option<TaskList>)
    ensures
        match r {
            Some(list) => tasks_of(json_of(*doc)) == Some(list@),
            None => tasks_of(json_of(*doc)) is None,
        },
{
    let items = match doc.as_array() {
        Some(items) => items,
        None => return None,
    };
    let mut tasks: Vec<Task> = Vec::new();
    let mut i: usize = 0;
    while i < items.len()
        invariant
            i <= items.len(),
            json_of(*doc) == Json::Array(jsons_of(items@)),
            tasks@.len() == i,
            forall|j: int|
                0 <= j < i ==> record_of(json_of(#[trigger] items@[j])) == Some(tasks@[j]@),
        decreases items.len() - i,
    {
        match decode_record(&items[i]) {
            Some(task) => tasks.push(task),
            None => {
                assert(record_of(jsons_of(items@)[i as int]) is None);
                return None;
            },
        }
        i += 1;
    }
    let list = TaskList { tasks };
    proof {
        let docs = jsons_of(items@);
        assert forall|j: int| 0 <= j < docs.len() implies (#[trigger] record_of(docs[j])) is Some by {
            assert(record_of(json_of(items@[j])) is Some);
        }
        assert(list@ =~= docs.map_values(|item: Json| record_of(item).unwrap()));
    }
    Some(list)
}

/// Loads the list from what the storage resource holds; `None` stands for a
/// resource that does not exist. Content that is no task list counts as no
/// data: the list is then empty, and the origin says so.
pub fn load_tasks(stored: Option<&[u8]>) -> (loaded: Loaded)
    ensures
        loaded.list@ == loaded_tasks(content(stored)),
        loaded.origin == loaded_origin(content(stored)),
{
    let bytes = match stored {
        Some(bytes) => bytes,
        None => return Loaded { list: TaskList::new(), origin: Origin::Missing },
    };
    match parse(bytes) {
        Ok(doc) => match decode(&doc) {
            Some(list) => Loaded { list, origin: Origin::Stored },
            None => Loaded { list: TaskList::new(), origin: Origin::Corrupt },
        },
        Err(_) => Loaded { list: TaskList::new(), origin: Origin::Corrupt },
    }
}

/// The bytes to store for a list: the printed form of its document, `None`
/// where the document cannot be printed.
pub open spec fn saved_bytes(list: Seq<TaskView>) -> Option<Seq<u8>> {
    rendered(document_of(list))
}

/// Prints the whole list as the bytes to store. Fails exactly where the
/// list's document cannot be printed.
pub fn save_tasks(list: &TaskList) -> (r: Result<Vec<u8>, StoreError>)
    ensures
        match r {
            Ok(bytes) => saved_bytes(list@) == Some(bytes@),
            Err(_) => saved_bytes(list@) is None,
        },
{
    let doc = encode(list);
    match render(&doc) {
        Ok(bytes) => Ok(bytes),
        Err(error) => Err(StoreError::Print(error)),
    }
}

} // verus!
