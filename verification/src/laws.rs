//! What holds of the operations and of the stored form, for every list.

use crate::json::{parsed, Json};
use crate::store::{
    document_of, loaded_origin, loaded_tasks, record_json, record_of, stored_tasks, tasks_of,
    Origin,
};
use crate::task::{appended, completed, deleted, has_id, ids_unique, valid_position, TaskView};
use vstd::prelude::*;

verus! {

/// The list after one task was appended for each of the given ids, in order.
pub open spec fn appended_all(
    list: Seq<TaskView>,
    ids: Seq<Seq<char>>,
    descriptions: Seq<Seq<char>>,
) -> Seq<TaskView>
    recommends
        ids.len() == descriptions.len(),
    decreases ids.len(),
{
    if ids.len() == 0 {
        list
    } else {
        appended(
            appended_all(list, ids.drop_last(), descriptions.drop_last()),
            ids.last(),
            descriptions.last(),
        )
    }
}

/// No two of the ids are equal.
pub open spec fn pairwise_distinct(ids: Seq<Seq<char>>) -> bool {
    forall|i: int, j: int| 0 <= i < j < ids.len() ==> ids[i] != ids[j]
}

/// The object of a task stands for that task.
pub proof fn lemma_record_round_trip(task: TaskView)
    ensures
        record_of(record_json(task)) == Some(task),
{
    reveal_strlit("id");
    reveal_strlit("description");
    reveal_strlit("done");
    // The three keys differ in length, so no insert overwrites another.
    assert("id"@.len() == 2);
    assert("description"@.len() == 11);
    assert("done"@.len() == 4);
}

/// The document of a list stands for that list: order, ids, descriptions and
/// done flags all come back, for the empty list too.
pub proof fn lemma_document_round_trip(list: Seq<TaskView>)
    ensures
        tasks_of(document_of(list)) == Some(list),
{
    let items = list.map_values(|task: TaskView| record_json(task));
    assert forall|i: int| 0 <= i < items.len() implies (#[trigger] record_of(items[i])) == Some(
        list[i],
    ) by {
        lemma_record_round_trip(list[i]);
    }
    assert(items.map_values(|item: Json| record_of(item).unwrap()) =~= list);
}

/// Bytes that parse to the document of a list load as that list. The bytes
/// that saving prints are of this kind wherever the JSON library reads back
/// the document it printed; that step is the library's own and is not proved
/// here.
pub proof fn lemma_load_of_document(bytes: Seq<u8>, list: Seq<TaskView>)
    ensures
        parsed(bytes) == Some(document_of(list)) ==> {
            &&& stored_tasks(bytes) == Some(list)
            &&& loaded_tasks(Some(bytes)) == list
            &&& loaded_origin(Some(bytes)) == Origin::Stored
        },
{
    lemma_document_round_trip(list);
}

/// Appending is append-only: the list grows by one, the tasks it had stay as
/// they were, and the new last task is open and has the given id and
/// description.
pub proof fn lemma_append_only(list: Seq<TaskView>, id: Seq<char>, description: Seq<char>)
    ensures
        appended(list, id, description).len() == list.len() + 1,
        appended(list, id, description).subrange(0, list.len() as int) == list,
        appended(list, id, description).last() == (TaskView { id, description, done: false }),
{
    assert(appended(list, id, description).subrange(0, list.len() as int) =~= list);
}

/// Appending under an id that no task of the list has keeps the ids unique.
pub proof fn lemma_append_fresh(list: Seq<TaskView>, id: Seq<char>, description: Seq<char>)
    requires
        ids_unique(list),
        !has_id(list, id),
    ensures
        ids_unique(appended(list, id, description)),
{
    let after = appended(list, id, description);
    assert forall|i: int, j: int| 0 <= i < j < after.len() implies (#[trigger] after[i]).id != (
    #[trigger] after[j]).id by {
        if j == list.len() {
            assert(list[i].id != id);
        } else {
            assert(list[i].id != list[j].id);
        }
    }
}

/// After one task was appended for each of `k` ids, the list is `k` longer,
/// what it held stays in front, and the new tasks carry the ids in order.
pub proof fn lemma_appended_all(
    list: Seq<TaskView>,
    ids: Seq<Seq<char>>,
    descriptions: Seq<Seq<char>>,
)
    requires
        ids.len() == descriptions.len(),
    ensures
        appended_all(list, ids, descriptions).len() == list.len() + ids.len(),
        appended_all(list, ids, descriptions).subrange(0, list.len() as int) == list,
        forall|i: int|
            0 <= i < ids.len() ==> #[trigger] appended_all(list, ids, descriptions)[list.len() + i]
                == (TaskView { id: ids[i], description: descriptions[i], done: false }),
    decreases ids.len(),
{
    if ids.len() > 0 {
        lemma_appended_all(list, ids.drop_last(), descriptions.drop_last());
    }
    assert(appended_all(list, ids, descriptions).subrange(0, list.len() as int) =~= list);
}

/// Ids stay unique over any number of appends from the empty list exactly
/// where the ids drawn are pairwise distinct.
pub proof fn lemma_ids_after_appends(ids: Seq<Seq<char>>, descriptions: Seq<Seq<char>>)
    requires
        ids.len() == descriptions.len(),
    ensures
        ids_unique(appended_all(Seq::empty(), ids, descriptions)) <==> pairwise_distinct(ids),
{
    let after = appended_all(Seq::empty(), ids, descriptions);
    lemma_appended_all(Seq::empty(), ids, descriptions);
    assert forall|i: int| 0 <= i < ids.len() implies (#[trigger] after[i]).id == ids[i] by {
        assert(after[0 + i].id == ids[i]);
    }
    if pairwise_distinct(ids) {
        assert forall|i: int, j: int| 0 <= i < j < after.len() implies (#[trigger] after[i]).id != (
        #[trigger] after[j]).id by {
            assert(ids[i] != ids[j]);
        }
    }
    if ids_unique(after) {
        assert forall|i: int, j: int| 0 <= i < j < ids.len() implies ids[i] != ids[j] by {
            assert(after[i].id != after[j].id);
        }
    }
}

/// A position outside the list changes nothing: not 0, not one behind the
/// last task, nor any other.
pub proof fn lemma_invalid_position(list: Seq<TaskView>, position: nat)
    requires
        !valid_position(list.len(), position),
    ensures
        completed(list, position) == list,
        deleted(list, position) == list,
{
}

/// Marking a task done touches that task's flag and nothing else.
pub proof fn lemma_completed(list: Seq<TaskView>, position: nat)
    requires
        valid_position(list.len(), position),
    ensures
        completed(list, position).len() == list.len(),
        completed(list, position)[position - 1].done,
        forall|i: int|
            0 <= i < list.len() ==> {
                &&& (#[trigger] completed(list, position)[i]).id == list[i].id
                &&& completed(list, position)[i].description == list[i].description
                &&& i != position - 1 ==> completed(list, position)[i] == list[i]
            },
{
}

/// Marking a task done twice is marking it done once.
pub proof fn lemma_complete_idempotent(list: Seq<TaskView>, position: nat)
    ensures
        completed(completed(list, position), position) == completed(list, position),
{
    assert(completed(completed(list, position), position) =~= completed(list, position));
}

/// Deleting shortens the list by one and keeps the other tasks, each as it
/// was, in their order: those in front stay, those behind move up by one.
pub proof fn lemma_deleted(list: Seq<TaskView>, position: nat)
    requires
        valid_position(list.len(), position),
    ensures
        deleted(list, position).len() == list.len() - 1,
        forall|i: int| 0 <= i < position - 1 ==> #[trigger] deleted(list, position)[i] == list[i],
        forall|i: int|
            position - 1 <= i < list.len() - 1 ==> #[trigger] deleted(list, position)[i] == list[i
                + 1],
{
}

/// Marking a task done keeps the ids unique.
pub proof fn lemma_completed_ids(list: Seq<TaskView>, position: nat)
    requires
        ids_unique(list),
    ensures
        ids_unique(completed(list, position)),
{
    let after = completed(list, position);
    assert forall|i: int, j: int| 0 <= i < j < after.len() implies (#[trigger] after[i]).id != (
    #[trigger] after[j]).id by {
        assert(list[i].id != list[j].id);
    }
}

/// Deleting a task keeps the ids unique.
pub proof fn lemma_deleted_ids(list: Seq<TaskView>, position: nat)
    requires
        ids_unique(list),
    ensures
        ids_unique(deleted(list, position)),
{
    let after = deleted(list, position);
    if valid_position(list.len(), position) {
        assert forall|i: int, j: int| 0 <= i < j < after.len() implies (#[trigger] after[i]).id
            != (#[trigger] after[j]).id by {
            let a = if i < position - 1 { i } else { i + 1 };
            let b = if j < position - 1 { j } else { j + 1 };
            assert(after[i] == list[a]);
            assert(after[j] == list[b]);
            assert(list[a].id != list[b].id);
        }
    }
}

} // verus!
