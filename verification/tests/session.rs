use crud::session::{add_task, delete_task, list_tasks, mark_done, Change, Notice};
use crud::store::{load_tasks, save_tasks, Origin};
use crud::task::{Task, TaskList};

fn stored_of(tasks: Vec<Task>) -> Vec<u8> {
    save_tasks(&TaskList { tasks }).unwrap()
}

fn task(id: &str, description: &str, done: bool) -> Task {
    Task { id: String::from(id), description: String::from(description), done }
}

fn sample() -> Vec<Task> {
    vec![task("a1", "buy milk", false), task("b2", "pay rent", false), task("c3", "call home", true)]
}

fn content_of(change: Change) -> Vec<u8> {
    change.content.unwrap()
}

#[test]
fn a_whole_session_from_nothing() {
    let mut storage: Option<Vec<u8>> = None;
    assert_eq!(load_tasks(storage.as_deref()).list, TaskList::new());

    let added = add_task(storage.as_deref(), "buy milk").unwrap();
    assert_eq!(added.notice, Notice::Added);
    storage = Some(content_of(added));
    let list = load_tasks(storage.as_deref()).list;
    assert_eq!(list.len(), 1);
    assert_eq!(list.tasks[0].description, "buy milk");
    assert!(!list.tasks[0].done);
    let id = list.tasks[0].id.clone();

    let marked = mark_done(storage.as_deref(), 1).unwrap();
    assert_eq!(marked.notice, Notice::MarkedDone);
    storage = Some(content_of(marked));
    let list = load_tasks(storage.as_deref()).list;
    assert_eq!(list.tasks, vec![task(&id, "buy milk", true)]);

    let deleted = delete_task(storage.as_deref(), 1).unwrap();
    assert_eq!(deleted.notice, Notice::Deleted);
    storage = Some(content_of(deleted));
    assert_eq!(load_tasks(storage.as_deref()).list, TaskList::new());
    assert_eq!(storage.as_deref(), Some(&b"[]"[..]));

    let refused = mark_done(storage.as_deref(), 1).unwrap();
    assert_eq!(refused.notice, Notice::InvalidNumber);
    assert_eq!(refused.content, None);
    assert_eq!(load_tasks(storage.as_deref()).list, TaskList::new());
}

#[test]
fn add_to_a_stored_list_keeps_what_was_stored() {
    let stored = stored_of(sample());
    let change = add_task(Some(&stored), "sweep").unwrap();
    assert_eq!(change.notice, Notice::Added);
    let list = load_tasks(change.content.as_deref()).list;
    assert_eq!(list.len(), 4);
    assert_eq!(&list.tasks[..3], &sample()[..]);
    assert_eq!(list.tasks[3].description, "sweep");
    assert!(!list.tasks[3].done);
    assert_eq!(list.tasks[3].id.len(), 36);
    assert!(sample().iter().all(|t| t.id != list.tasks[3].id));
}

#[test]
fn add_over_corrupt_storage_starts_anew() {
    let change = add_task(Some(b"{{{"), "first").unwrap();
    let loaded = load_tasks(change.content.as_deref());
    assert_eq!(loaded.origin, Origin::Stored);
    assert_eq!(loaded.list.len(), 1);
    assert_eq!(loaded.list.tasks[0].description, "first");
}

#[test]
fn list_of_nothing_stored_prints_nothing() {
    assert!(list_tasks(None).is_empty());
    assert!(list_tasks(Some(b"[]")).is_empty());
    assert!(list_tasks(Some(b"garbage")).is_empty());
}

#[test]
fn list_prints_each_task() {
    let stored = stored_of(sample());
    assert_eq!(
        list_tasks(Some(&stored)),
        vec![
            String::from("1. [ ] buy milk"),
            String::from("2. [ ] pay rent"),
            String::from("3. [x] call home"),
        ]
    );
}

#[test]
fn mark_done_stores_the_changed_list() {
    let stored = stored_of(sample());
    let change = mark_done(Some(&stored), 2).unwrap();
    assert_eq!(change.notice, Notice::MarkedDone);
    let mut expected = sample();
    expected[1].done = true;
    assert_eq!(content_of(change), stored_of(expected));
}

#[test]
fn mark_done_twice_stores_the_same() {
    let stored = stored_of(sample());
    let once = content_of(mark_done(Some(&stored), 1).unwrap());
    let twice = content_of(mark_done(Some(&once), 1).unwrap());
    assert_eq!(once, twice);
}

#[test]
fn mark_done_outside_the_list_writes_nothing() {
    let stored = stored_of(sample());
    for position in [0usize, 4usize, usize::MAX] {
        let change = mark_done(Some(&stored), position).unwrap();
        assert_eq!(change.notice, Notice::InvalidNumber);
        assert_eq!(change.content, None);
    }
    let change = mark_done(None, 1).unwrap();
    assert_eq!(change.notice, Notice::InvalidNumber);
    assert_eq!(change.content, None);
}

#[test]
fn delete_stores_the_shorter_list() {
    let stored = stored_of(sample());
    let change = delete_task(Some(&stored), 2).unwrap();
    assert_eq!(change.notice, Notice::Deleted);
    let expected = vec![sample().remove(0), sample().remove(2)];
    assert_eq!(content_of(change), stored_of(expected));
}

#[test]
fn delete_outside_the_list_writes_nothing() {
    let stored = stored_of(sample());
    for position in [0usize, 4usize, usize::MAX] {
        let change = delete_task(Some(&stored), position).unwrap();
        assert_eq!(change.notice, Notice::InvalidNumber);
        assert_eq!(change.content, None);
    }
    let change = delete_task(Some(b"not a list"), 1).unwrap();
    assert_eq!(change.notice, Notice::InvalidNumber);
    assert_eq!(change.content, None);
}

#[test]
fn notices_have_their_wording() {
    assert_eq!(Notice::Added.message(), "Task added.");
    assert_eq!(Notice::MarkedDone.message(), "Task marked as done.");
    assert_eq!(Notice::Deleted.message(), "Task deleted.");
    assert_eq!(Notice::InvalidNumber.message(), "Invalid task number.");
}
