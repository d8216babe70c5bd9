//! The contract that every storage backend meets.

use vstd::prelude::*;
use crate::entity::{CreateTodo, CreateTodoView, Record, Todo, TodoView, UpdateTodo, UpdateTodoView};
use crate::error::RepositoryError;

verus! {

/// `create` succeeded: `created` carries the payload's text, is not completed,
/// and is stored under its id; nothing else changed.
pub open spec fn creates(
    before: Map<i32, Record>,
    payload: CreateTodoView,
    after: Map<i32, Record>,
    created: TodoView,
) -> bool {
    &&& created.text == payload.text
    &&& !created.completed
    &&& after == before.insert(created.id, created.record())
}

/// `found` is the entity stored under `id`.
pub open spec fn finds(rows: Map<i32, Record>, id: i32, found: TodoView) -> bool {
    &&& rows.contains_key(id)
    &&& found == rows[id].with_id(id)
}

/// `todos` holds every stored entity, each once, in some order.
pub open spec fn lists(rows: Map<i32, Record>, todos: Seq<TodoView>) -> bool {
    &&& forall|i: int| 0 <= i < todos.len() ==> finds(rows, (#[trigger] todos[i]).id, todos[i])
    &&& forall|i: int, j: int| 0 <= i < j < todos.len() ==> todos[i].id != todos[j].id
    &&& forall|id: i32|
        rows.contains_key(id) ==> exists|i: int| 0 <= i < todos.len() && (#[trigger] todos[i]).id == id
}

/// `update` succeeded: the entity stored under `id` had the patch laid over
/// it; `updated` is the result, stored in its place.
pub open spec fn updates(
    before: Map<i32, Record>,
    id: i32,
    patch: UpdateTodoView,
    after: Map<i32, Record>,
    updated: TodoView,
) -> bool {
    &&& before.contains_key(id)
    &&& updated == before[id].with_id(id).patched(patch)
    &&& after == before.insert(id, updated.record())
}

/// `delete` succeeded: the entity stored under `id` is gone, the others stay.
pub open spec fn deletes(before: Map<i32, Record>, id: i32, after: Map<i32, Record>) -> bool {
    &&& before.contains_key(id)
    &&& after == before.remove(id)
}

/// The views of a vector of entities, in order.
pub open spec fn views(todos: Seq<Todo>) -> Seq<TodoView> {
    todos.map_values(|todo: Todo| todo@)
}

/// A store of todo items with the five operations on it. A failed operation
/// leaves the store as it was.
pub trait TodoRepository {
    /// What is stored, by id.
    spec fn rows(&self) -> Map<i32, Record>;

    /// Stores a new entity with the payload's text under an id that the
    /// backend picks.
    fn create(&mut self, payload: CreateTodo) -> (res: Result<Todo, RepositoryError>)
        ensures
            match res {
                Ok(created) => creates(old(self).rows(), payload@, final(self).rows(), created@),
                Err(e) => e is Unexpected && final(self).rows() == old(self).rows(),
            },
    ;

    /// The entity stored under `id`.
    fn find(&self, id: i32) -> (res: Result<Todo, RepositoryError>)
        ensures
            match res {
                Ok(found) => finds(self.rows(), id, found@),
                Err(RepositoryError::NotFound(missing)) => missing == id && !self.rows().contains_key(
                    id,
                ),
                Err(RepositoryError::Unexpected(_)) => true,
            },
    ;

    /// Every stored entity.
    fn all(&self) -> (res: Result<Vec<Todo>, RepositoryError>)
        ensures
            match res {
                Ok(todos) => lists(self.rows(), views(todos@)),
                Err(e) => e is Unexpected,
            },
    ;

    /// Lays the fields that `payload` holds over the entity stored under `id`.
    fn update(&mut self, id: i32, payload: UpdateTodo) -> (res: Result<Todo, RepositoryError>)
        ensures
            match res {
                Ok(updated) => updates(
                    old(self).rows(),
                    id,
                    payload@,
                    final(self).rows(),
                    updated@,
                ),
                Err(RepositoryError::NotFound(missing)) => {
                    &&& missing == id
                    &&& !old(self).rows().contains_key(id)
                    &&& final(self).rows() == old(self).rows()
                },
                Err(RepositoryError::Unexpected(_)) => final(self).rows() == old(self).rows(),
            },
    ;

    /// Removes the entity stored under `id`.
    fn delete(&mut self, id: i32) -> (res: Result<(), RepositoryError>)
        ensures
            match res {
                Ok(_) => deletes(old(self).rows(), id, final(self).rows()),
                Err(RepositoryError::NotFound(missing)) => {
                    &&& missing == id
                    &&& !old(self).rows().contains_key(id)
                    &&& final(self).rows() == old(self).rows()
                },
                Err(RepositoryError::Unexpected(_)) => final(self).rows() == old(self).rows(),
            },
    ;
}

} // verus!
