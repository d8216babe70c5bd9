//! A backend that keeps its entities in a map in memory.

use std::collections::HashMap;
use vstd::prelude::*;
use vstd::std_specs::hash::spec_hash_map_iter;
use vstd::std_specs::iter::IteratorSpec;
use crate::entity::{CreateTodo, CreateTodoView, Record, Todo, TodoView, UpdateTodo};
use crate::error::{RepositoryError, RepositoryErrorView};
use crate::repository::{creates, deletes, finds, lists, updates, views, TodoRepository};

verus! {

broadcast use vstd::std_specs::hash::group_hash_axioms;

/// The id that the in-memory backend gives to the next entity: one more than
/// the number of entities it holds. After a deletion this may be the id of an
/// entity that is still stored, which `create` then replaces.
pub open spec fn next_id(rows: Map<i32, Record>) -> nat {
    rows.len() + 1
}

/// The ids in use are 1, 2, ... up to the number of entities: the state of a
/// store in which nothing was deleted yet.
pub open spec fn dense(rows: Map<i32, Record>) -> bool {
    &&& rows.dom().finite()
    &&& forall|id: i32| rows.contains_key(id) <==> 1 <= id <= rows.len()
}

/// As long as nothing was deleted, the next id is not in use: `create` adds
/// an entity and replaces none.
pub proof fn lemma_create_on_dense_store_adds(
    before: Map<i32, Record>,
    payload: CreateTodoView,
    after: Map<i32, Record>,
    created: TodoView,
)
    requires
        dense(before),
        creates(before, payload, after, created),
        created.id == next_id(before),
    ensures
        !before.contains_key(created.id),
        after.len() == before.len() + 1,
        dense(after),
{
}

/// Where the next id is in use, which a deletion can bring about, `create`
/// replaces the entity stored under it: the store does not grow, and the
/// entity that was stored there is lost.
pub proof fn lemma_create_on_taken_id_replaces(
    before: Map<i32, Record>,
    payload: CreateTodoView,
    after: Map<i32, Record>,
    created: TodoView,
)
    requires
        before.dom().finite(),
        creates(before, payload, after, created),
        created.id == next_id(before),
        before.contains_key(created.id),
    ensures
        after.dom() == before.dom(),
        after.len() == before.len(),
        finds(after, created.id, created),
{
    assert(after.dom() =~= before.dom());
}

/// Deleting any entity but the last of a store without gaps leaves the next
/// id in use.
pub proof fn lemma_delete_below_the_last_takes_the_next_id(
    before: Map<i32, Record>,
    id: i32,
    after: Map<i32, Record>,
)
    requires
        dense(before),
        deletes(before, id, after),
        id < before.len(),
    ensures
        forall|next: i32| next == next_id(after) ==> #[trigger] after.contains_key(next),
{
}

/// The in-memory backend.
#[derive(Debug)]
pub struct TodoRepositoryForMemory {
    store: HashMap<i32, Todo>,
}

impl TodoRepositoryForMemory {
    /// Every entity is stored under its own id.
    #[verifier::type_invariant]
    spec fn keyed(self) -> bool {
        forall|id: i32| #[trigger] self.store@.contains_key(id) ==> self.store@[id].id == id
    }

    /// An empty store.
    pub fn new() -> (repository: Self)
        ensures
            repository.rows() == Map::<i32, Record>::empty(),
    {
        let repository = TodoRepositoryForMemory { store: HashMap::new() };
        assert(repository.rows() =~= Map::<i32, Record>::empty());
        repository
    }

    /// The store holds finitely many entities, so that their number, and with
    /// it the next id, is determined.
    pub proof fn lemma_rows_finite(&self)
        ensures
            self.rows().dom().finite(),
    {
        assert(self.rows().dom() =~= self.store@.dom());
    }

    /// Stores `todo` under its id, in place of what was stored there.
    fn put(&mut self, todo: Todo)
        ensures
            final(self).rows() == old(self).rows().insert(todo.id, todo@.record()),
    {
        proof {
            use_type_invariant(&*self);
        }
        let mut store = HashMap::new();
        std::mem::swap(&mut store, &mut self.store);
        store.insert(todo.id, todo);
        self.store = store;
        assert(self.rows() =~= old(self).rows().insert(todo.id, todo@.record()));
    }

    /// Removes what is stored under `id`; tells whether there was anything.
    fn take(&mut self, id: i32) -> (found: bool)
        ensures
            found == old(self).rows().contains_key(id),
            final(self).rows() == old(self).rows().remove(id),
    {
        proof {
            use_type_invariant(&*self);
        }
        let mut store = HashMap::new();
        std::mem::swap(&mut store, &mut self.store);
        let removed = store.remove(&id);
        self.store = store;
        assert(self.rows() =~= old(self).rows().remove(id));
        removed.is_some()
    }
}

impl TodoRepository for TodoRepositoryForMemory {
    closed spec fn rows(&self) -> Map<i32, Record> {
        self.store@.map_values(|todo: Todo| todo@.record())
    }

    /// The id is `next_id` of the store. Where that is more than an `i32`
    /// holds, nothing is stored and the failure says so.
    fn create(&mut self, payload: CreateTodo) -> (res: Result<Todo, RepositoryError>)
        ensures
            res is Ok <==> next_id(old(self).rows()) <= i32::MAX,
            res matches Ok(created) ==> created@.id == next_id(old(self).rows()),
            res matches Err(error) ==> error@ == RepositoryErrorView::Unexpected("no id is left"@),
    {
        proof {
            use_type_invariant(&*self);
        }
        let size = self.store.len();
        assert(self.rows().dom() =~= self.store@.dom());
        if size >= i32::MAX as usize {
            return Err(RepositoryError::Unexpected("no id is left".to_string()));
        }
        let id = (size + 1) as i32;
        let todo = Todo::new(id, payload.text);
        self.put(todo.clone());
        Ok(todo)
    }

    fn find(&self, id: i32) -> (res: Result<Todo, RepositoryError>)
        ensures
            res is Ok <==> self.rows().contains_key(id),
            res matches Err(error) ==> error == RepositoryError::NotFound(id),
    {
        proof {
            use_type_invariant(self);
        }
        match self.store.get(&id) {
            Some(todo) => Ok(todo.clone()),
            None => Err(RepositoryError::NotFound(id)),
        }
    }

    /// Never fails. The order of the entities is that in which the map
    /// hands them out, and differs from run to run.
    fn all(&self) -> (res: Result<Vec<Todo>, RepositoryError>)
        ensures
            res is Ok,
    {
        proof {
            use_type_invariant(self);
        }
        let mut todos: Vec<Todo> = Vec::new();
        for entry in it: self.store.iter()
            invariant
                it.seq() == spec_hash_map_iter(&self.store).remaining(),
                it.seq().no_duplicates(),
                todos.len() == it.index(),
                forall|i: int|
                    0 <= i < todos.len() ==> (#[trigger] todos[i])@ == (*it.seq()[i].1)@,
        {
            todos.push(entry.1.clone());
        }
        proof {
            let entries = spec_hash_map_iter(&self.store).remaining();
            let listed = views(todos@);
            assert forall|i: int| 0 <= i < listed.len() implies finds(
                self.rows(),
                (#[trigger] listed[i]).id,
                listed[i],
            ) && listed[i].id == *entries[i].0 by {
                assert(self.store@.contains_key(*entries[i].0));
                assert(listed[i] == todos[i]@);
            }
            assert forall|i: int, j: int| 0 <= i < j < listed.len() implies listed[i].id
                != listed[j].id by {
                assert(listed[i].id == *entries[i].0);
                assert(listed[j].id == *entries[j].0);
                if listed[i].id == listed[j].id {
                    assert(self.store@[*entries[i].0] == *entries[i].1);
                    assert(self.store@[*entries[j].0] == *entries[j].1);
                    assert(entries[i] == entries[j]);
                }
            }
            assert forall|id: i32| self.rows().contains_key(id) implies exists|i: int|
                0 <= i < listed.len() && (#[trigger] listed[i]).id == id by {
                assert(self.store@.contains_key(id));
                let entry = (&id, &self.store@[id]);
                assert(entries.contains(entry));
                let i = choose|i: int| 0 <= i < entries.len() && entries[i] == entry;
                assert(listed[i].id == *entries[i].0);
            }
        }
        Ok(todos)
    }

    fn update(&mut self, id: i32, payload: UpdateTodo) -> (res: Result<Todo, RepositoryError>)
        ensures
            res is Ok <==> old(self).rows().contains_key(id),
            res matches Err(error) ==> error == RepositoryError::NotFound(id),
    {
        proof {
            use_type_invariant(&*self);
        }
        let todo = match self.store.get(&id) {
            Some(current) => payload.apply(current),
            None => {
                return Err(RepositoryError::NotFound(id));
            },
        };
        self.put(todo.clone());
        Ok(todo)
    }

    fn delete(&mut self, id: i32) -> (res: Result<(), RepositoryError>)
        ensures
            res is Ok <==> old(self).rows().contains_key(id),
            res matches Err(error) ==> error == RepositoryError::NotFound(id),
    {
        if self.take(id) {
            Ok(())
        } else {
            assert(self.rows() =~= old(self).rows());
            Err(RepositoryError::NotFound(id))
        }
    }
}

} // verus!
