//! The records that travel between callers and a repository.

use vstd::prelude::*;

verus! {

/// What a `Todo` is, mathematically: an identifier, a text and a flag.
pub struct TodoView {
    pub id: i32,
    pub text: Seq<char>,
    pub completed: bool,
}

/// What a repository keeps under an id: a `Todo` without its identifier.
pub struct Record {
    pub text: Seq<char>,
    pub completed: bool,
}

/// What an `UpdateTodo` is, mathematically.
pub struct UpdateTodoView {
    pub text: Option<Seq<char>>,
    pub completed: Option<bool>,
}

/// What a `CreateTodo` is, mathematically.
pub struct CreateTodoView {
    pub text: Seq<char>,
}

impl TodoView {
    /// The part of the entity that is stored under its id.
    pub open spec fn record(self) -> Record {
        Record { text: self.text, completed: self.completed }
    }

    /// The entity with the fields that `patch` holds laid over it; the fields
    /// that `patch` leaves out, and the id, stay.
    pub open spec fn patched(self, patch: UpdateTodoView) -> TodoView {
        TodoView {
            id: self.id,
            text: match patch.text {
                Some(text) => text,
                None => self.text,
            },
            completed: match patch.completed {
                Some(completed) => completed,
                None => self.completed,
            },
        }
    }
}

impl Record {
    /// The entity that this record is when stored under `id`.
    pub open spec fn with_id(self, id: i32) -> TodoView {
        TodoView { id, text: self.text, completed: self.completed }
    }
}

/// A stored todo item.
#[derive(Debug)]
pub struct Todo {
    pub id: i32,
    pub text: String,
    pub completed: bool,
}

impl View for Todo {
    type V = TodoView;

    open spec fn view(&self) -> TodoView {
        TodoView { id: self.id, text: self.text@, completed: self.completed }
    }
}

impl Todo {
    /// A fresh, not yet completed item.
    pub fn new(id: i32, text: String) -> (todo: Self)
        ensures
            todo@ == (TodoView { id, text: text@, completed: false }),
    {
        Todo { id, text, completed: false }
    }
}

impl PartialEq for Todo {
    fn eq(&self, other: &Self) -> (equal: bool) {
        self.id == other.id && self.text == other.text && self.completed == other.completed
    }
}

impl vstd::std_specs::cmp::PartialEqSpecImpl for Todo {
    open spec fn obeys_eq_spec() -> bool {
        true
    }

    open spec fn eq_spec(&self, other: &Self) -> bool {
        self@ == other@
    }
}

impl Eq for Todo {

}

impl Clone for Todo {
    fn clone(&self) -> (copy: Self)
        ensures
            copy@ == self@,
    {
        Todo { id: self.id, text: self.text.clone(), completed: self.completed }
    }
}

/// The input of `create`: the text of the item to store.
#[derive(Debug)]
pub struct CreateTodo {
    pub text: String,
}

impl View for CreateTodo {
    type V = CreateTodoView;

    open spec fn view(&self) -> CreateTodoView {
        CreateTodoView { text: self.text@ }
    }
}

impl CreateTodo {
    pub fn new(text: String) -> (payload: Self)
        ensures
            payload@.text == text@,
    {
        CreateTodo { text }
    }
}

impl PartialEq for CreateTodo {
    fn eq(&self, other: &Self) -> (equal: bool) {
        self.text == other.text
    }
}

impl vstd::std_specs::cmp::PartialEqSpecImpl for CreateTodo {
    open spec fn obeys_eq_spec() -> bool {
        true
    }

    open spec fn eq_spec(&self, other: &Self) -> bool {
        self@ == other@
    }
}

impl Eq for CreateTodo {

}

impl Clone for CreateTodo {
    fn clone(&self) -> (copy: Self)
        ensures
            copy@ == self@,
    {
        CreateTodo { text: self.text.clone() }
    }
}

/// The input of `update`: a field that is `None` is left as it is stored.
#[derive(Debug)]
pub struct UpdateTodo {
    pub text: Option<String>,
    pub completed: Option<bool>,
}

impl View for UpdateTodo {
    type V = UpdateTodoView;

    open spec fn view(&self) -> UpdateTodoView {
        UpdateTodoView {
            text: match self.text {
                Some(text) => Some(text@),
                None => None,
            },
            completed: self.completed,
        }
    }
}

impl PartialEq for UpdateTodo {
    fn eq(&self, other: &Self) -> (equal: bool) {
        let same_text = match &self.text {
            Some(mine) => match &other.text {
                Some(theirs) => *mine == *theirs,
                None => false,
            },
            None => other.text.is_none(),
        };
        let same_completed = match self.completed {
            Some(mine) => match other.completed {
                Some(theirs) => mine == theirs,
                None => false,
            },
            None => other.completed.is_none(),
        };
        same_text && same_completed
    }
}

impl vstd::std_specs::cmp::PartialEqSpecImpl for UpdateTodo {
    open spec fn obeys_eq_spec() -> bool {
        true
    }

    open spec fn eq_spec(&self, other: &Self) -> bool {
        self@ == other@
    }
}

impl Eq for UpdateTodo {

}

impl Clone for UpdateTodo {
    fn clone(&self) -> (copy: Self)
        ensures
            copy@ == self@,
    {
        let text = match &self.text {
            Some(text) => Some(text.clone()),
            None => None,
        };
        UpdateTodo { text, completed: self.completed }
    }
}

impl UpdateTodo {
    /// Lays the fields that are present over `current`.
    pub fn apply(self, current: &Todo) -> (todo: Todo)
        ensures
            todo@ == current@.patched(self@),
    {
        let text = match self.text {
            Some(text) => text,
            None => current.text.clone(),
        };
        let completed = match self.completed {
            Some(completed) => completed,
            None => current.completed,
        };
        Todo { id: current.id, text, completed }
    }
}

} // verus!
