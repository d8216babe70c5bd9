//! What follows from the contract of a repository, whatever backend meets it.

use vstd::prelude::*;
use crate::entity::{CreateTodoView, Record, TodoView, UpdateTodoView};
use crate::repository::{creates, deletes, finds, lists, updates};
use crate::validation::valid_text;

verus! {

/// Every stored text is valid.
pub open spec fn texts_valid(rows: Map<i32, Record>) -> bool {
    forall|id: i32| #[trigger] rows.contains_key(id) ==> valid_text(rows[id].text)
}

/// After `create`, `find` with the id of the created entity gives the entity
/// that `create` returned.
pub proof fn lemma_created_is_found(
    before: Map<i32, Record>,
    payload: CreateTodoView,
    after: Map<i32, Record>,
    created: TodoView,
)
    requires
        creates(before, payload, after, created),
    ensures
        finds(after, created.id, created),
{
}

/// `create` leaves every entity stored under another id as it was.
pub proof fn lemma_create_keeps_others(
    before: Map<i32, Record>,
    payload: CreateTodoView,
    after: Map<i32, Record>,
    created: TodoView,
    other: i32,
)
    requires
        creates(before, payload, after, created),
        other != created.id,
    ensures
        after.contains_key(other) == before.contains_key(other),
        before.contains_key(other) ==> after[other] == before[other],
{
}

/// An `update` whose payload holds no field returns the entity as it was
/// stored and leaves the store as it was.
pub proof fn lemma_empty_update_is_noop(
    before: Map<i32, Record>,
    id: i32,
    after: Map<i32, Record>,
    updated: TodoView,
)
    requires
        updates(before, id, UpdateTodoView { text: None, completed: None }, after, updated),
    ensures
        finds(before, id, updated),
        after == before,
{
    assert(after =~= before);
}

/// An `update` whose payload holds only a text changes the text and nothing
/// else: the id and `completed` stay, and so does every other entity.
pub proof fn lemma_text_update_changes_text_only(
    before: Map<i32, Record>,
    id: i32,
    text: Seq<char>,
    after: Map<i32, Record>,
    updated: TodoView,
)
    requires
        updates(before, id, UpdateTodoView { text: Some(text), completed: None }, after, updated),
    ensures
        updated.id == id,
        updated.text == text,
        updated.completed == before[id].completed,
        finds(after, id, updated),
        after.remove(id) == before.remove(id),
{
    assert(after.remove(id) =~= before.remove(id));
}

/// An `update` whose payload holds only `completed` changes that flag and
/// nothing else.
pub proof fn lemma_flag_update_changes_flag_only(
    before: Map<i32, Record>,
    id: i32,
    completed: bool,
    after: Map<i32, Record>,
    updated: TodoView,
)
    requires
        updates(
            before,
            id,
            UpdateTodoView { text: None, completed: Some(completed) },
            after,
            updated,
        ),
    ensures
        updated.id == id,
        updated.text == before[id].text,
        updated.completed == completed,
        finds(after, id, updated),
        after.remove(id) == before.remove(id),
{
    assert(after.remove(id) =~= before.remove(id));
}

/// After `update`, `find` with the same id gives the entity that `update`
/// returned.
pub proof fn lemma_updated_is_found(
    before: Map<i32, Record>,
    id: i32,
    patch: UpdateTodoView,
    after: Map<i32, Record>,
    updated: TodoView,
)
    requires
        updates(before, id, patch, after, updated),
    ensures
        finds(after, id, updated),
{
}

/// After `delete`, nothing is stored under the id, so that `find` and a second
/// `delete` report it as not found, and no listing of the store holds an
/// entity with that id. Every other entity stays as it was.
pub proof fn lemma_deleted_is_gone(before: Map<i32, Record>, id: i32, after: Map<i32, Record>)
    requires
        deletes(before, id, after),
    ensures
        !after.contains_key(id),
        forall|found: TodoView| !finds(after, id, found),
        forall|todos: Seq<TodoView>, i: int|
            lists(after, todos) && 0 <= i < todos.len() ==> (#[trigger] todos[i]).id != id,
        forall|other: i32|
            other != id ==> after.contains_key(other) == before.contains_key(other) && (
            before.contains_key(other) ==> after[other] == before[other]),
{
}

/// A listing of a store has as many entities as the store holds.
pub proof fn lemma_listing_has_every_entity_once(rows: Map<i32, Record>, todos: Seq<TodoView>)
    requires
        lists(rows, todos),
    ensures
        rows.dom().finite(),
        todos.len() == rows.len(),
{
    let ids = todos.map_values(|todo: TodoView| todo.id);
    assert(ids.no_duplicates());
    assert(ids.to_set() =~= rows.dom()) by {
        assert forall|id: i32| rows.contains_key(id) implies ids.to_set().contains(id) by {
            let i = choose|i: int| 0 <= i < todos.len() && (#[trigger] todos[i]).id == id;
            assert(ids[i] == id);
        }
        assert forall|id: i32| ids.to_set().contains(id) implies rows.contains_key(id) by {
            let i = choose|i: int| 0 <= i < ids.len() && ids[i] == id;
            assert(todos[i].id == id);
        }
    }
    ids.unique_seq_to_set();
    vstd::seq_lib::seq_to_set_is_finite(ids);
}

/// With valid texts stored and a valid text in the payload, `create` leaves
/// valid texts stored.
pub proof fn lemma_create_keeps_texts_valid(
    before: Map<i32, Record>,
    payload: CreateTodoView,
    after: Map<i32, Record>,
    created: TodoView,
)
    requires
        texts_valid(before),
        valid_text(payload.text),
        creates(before, payload, after, created),
    ensures
        texts_valid(after),
        valid_text(created.text),
{
}

/// With valid texts stored and a payload whose text, if it holds one, is
/// valid, `update` leaves valid texts stored.
pub proof fn lemma_update_keeps_texts_valid(
    before: Map<i32, Record>,
    id: i32,
    patch: UpdateTodoView,
    after: Map<i32, Record>,
    updated: TodoView,
)
    requires
        texts_valid(before),
        patch.text matches Some(text) ==> valid_text(text),
        updates(before, id, patch, after, updated),
    ensures
        texts_valid(after),
        valid_text(updated.text),
{
}

/// `delete` leaves valid texts stored.
pub proof fn lemma_delete_keeps_texts_valid(
    before: Map<i32, Record>,
    id: i32,
    after: Map<i32, Record>,
)
    requires
        texts_valid(before),
        deletes(before, id, after),
    ensures
        texts_valid(after),
{
}

/// With valid texts stored, what `find` gives and what a listing holds has a
/// valid text.
pub proof fn lemma_read_gives_valid_texts(rows: Map<i32, Record>)
    requires
        texts_valid(rows),
    ensures
        forall|id: i32, found: TodoView| finds(rows, id, found) ==> valid_text(found.text),
        forall|todos: Seq<TodoView>, i: int|
            lists(rows, todos) && 0 <= i < todos.len() ==> valid_text((#[trigger] todos[i]).text),
{
    assert forall|todos: Seq<TodoView>, i: int|
        lists(rows, todos) && 0 <= i < todos.len() implies valid_text(
        (#[trigger] todos[i]).text,
    ) by {
        assert(finds(rows, todos[i].id, todos[i]));
    }
}

} // verus!
