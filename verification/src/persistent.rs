//! The backend that keeps its rows in a table `todos` of a relational
//! database, as far as it decides anything: which statement each operation
//! sends with which values bound to it, and what the operation returns for
//! each reply of the database. Sending a statement and receiving the reply is
//! left to the caller.

use vstd::prelude::*;
use crate::entity::{CreateTodo, Todo, UpdateTodo};
use crate::error::{RepositoryError, RepositoryErrorView};

verus! {

/// The statements sent to the database.
#[derive(Debug, Clone, Copy, PartialEq, Eq, Structural)]
pub enum Statement {
    Insert,
    SelectOne,
    SelectAll,
    Update,
    Delete,
}

impl Statement {
    /// The statement's text, with `$1`, `$2`, ... where values are bound.
    pub open spec fn text(self) -> Seq<char> {
        match self {
            Statement::Insert => "insert into todos (text, completed) values ($1, false) returning *"@,
            Statement::SelectOne => "select * from todos where id=$1"@,
            Statement::SelectAll => "select * from todos order by id desc"@,
            Statement::Update => "update todos set text=$1, completed=$2 where id=$3 returning *"@,
            Statement::Delete => "delete from todos where id=$1"@,
        }
    }

    /// The statement's text.
    pub fn sql(self) -> (sql: &'static str)
        ensures
            sql@ == self.text(),
    {
        match self {
            Statement::Insert => "insert into todos (text, completed) values ($1, false) returning *",
            Statement::SelectOne => "select * from todos where id=$1",
            Statement::SelectAll => "select * from todos order by id desc",
            Statement::Update => "update todos set text=$1, completed=$2 where id=$3 returning *",
            Statement::Delete => "delete from todos where id=$1",
        }
    }
}

/// A value bound to a placeholder of a statement.
#[derive(Debug)]
pub enum Bind {
    Text(String),
    Flag(bool),
    Id(i32),
}

/// A `Bind` with its text as a sequence of characters.
pub enum BindView {
    Text(Seq<char>),
    Flag(bool),
    Id(i32),
}

impl View for Bind {
    type V = BindView;

    open spec fn view(&self) -> BindView {
        match self {
            Bind::Text(text) => BindView::Text(text@),
            Bind::Flag(flag) => BindView::Flag(*flag),
            Bind::Id(id) => BindView::Id(*id),
        }
    }
}

/// A statement together with the values bound to `$1`, `$2`, ..., in order.
#[derive(Debug)]
pub struct Query {
    pub statement: Statement,
    pub binds: Vec<Bind>,
}

/// What a `Query` is, mathematically.
pub struct QueryView {
    pub statement: Statement,
    pub binds: Seq<BindView>,
}

impl View for Query {
    type V = QueryView;

    open spec fn view(&self) -> QueryView {
        QueryView { statement: self.statement, binds: self.binds@.map_values(|bind: Bind| bind@) }
    }
}

/// A failure that the database, or the connection to it, reported.
#[derive(Debug)]
pub struct StorageFault {
    /// The statement was to return a row and found none.
    pub row_not_found: bool,
    /// The failure in words.
    pub message: String,
}

impl StorageFault {
    /// The error of an operation that looked for the row with `id`: the
    /// missing row is reported as such, any other failure by its message.
    pub open spec fn for_id(self, id: i32) -> RepositoryErrorView {
        if self.row_not_found {
            RepositoryErrorView::NotFound(id)
        } else {
            RepositoryErrorView::Unexpected(self.message@)
        }
    }

    /// The error of an operation that looked for no row in particular.
    pub open spec fn unexpected(self) -> RepositoryErrorView {
        RepositoryErrorView::Unexpected(self.message@)
    }

    fn into_error_for(self, id: i32) -> (error: RepositoryError)
        ensures
            error@ == self.for_id(id),
    {
        if self.row_not_found {
            RepositoryError::NotFound(id)
        } else {
            RepositoryError::Unexpected(self.message)
        }
    }

    fn into_unexpected(self) -> (error: RepositoryError)
        ensures
            error@ == self.unexpected(),
    {
        RepositoryError::Unexpected(self.message)
    }
}

/// The statement of `create`: an insert with the payload's text. The database
/// picks the id and sets `completed` to false.
pub fn create_query(payload: &CreateTodo) -> (query: Query)
    ensures
        query@ == (QueryView {
            statement: Statement::Insert,
            binds: seq![BindView::Text(payload@.text)],
        }),
{
    let mut binds: Vec<Bind> = Vec::new();
    binds.push(Bind::Text(payload.text.clone()));
    let query = Query { statement: Statement::Insert, binds };
    assert(query@.binds =~= seq![BindView::Text(payload@.text)]);
    query
}

/// What `create` returns for the database's reply to its insert: the row
/// that was inserted, or the failure by its message.
pub fn create_result(reply: Result<Todo, StorageFault>) -> (res: Result<Todo, RepositoryError>)
    ensures
        match reply {
            Ok(row) => res matches Ok(created) && created == row,
            Err(fault) => res matches Err(error) && error@ == fault.unexpected(),
        },
{
    match reply {
        Ok(row) => Ok(row),
        Err(fault) => Err(fault.into_unexpected()),
    }
}

/// The statement of `find`: a select of the row with `id`.
pub fn find_query(id: i32) -> (query: Query)
    ensures
        query@ == (QueryView { statement: Statement::SelectOne, binds: seq![BindView::Id(id)] }),
{
    let mut binds: Vec<Bind> = Vec::new();
    binds.push(Bind::Id(id));
    let query = Query { statement: Statement::SelectOne, binds };
    assert(query@.binds =~= seq![BindView::Id(id)]);
    query
}

/// What `find` returns for the database's reply to its select: the row, or
/// `NotFound(id)` where there was none, or any other failure by its message.
pub fn find_result(id: i32, reply: Result<Todo, StorageFault>) -> (res: Result<
    Todo,
    RepositoryError,
>)
    ensures
        match reply {
            Ok(row) => res matches Ok(found) && found == row,
            Err(fault) => res matches Err(error) && error@ == fault.for_id(id),
        },
{
    match reply {
        Ok(row) => Ok(row),
        Err(fault) => Err(fault.into_error_for(id)),
    }
}

/// The statement of `all`: a select of every row, the highest id first.
pub fn all_query() -> (query: Query)
    ensures
        query@ == (QueryView { statement: Statement::SelectAll, binds: Seq::<BindView>::empty() }),
{
    let query = Query { statement: Statement::SelectAll, binds: Vec::new() };
    assert(query@.binds =~= Seq::<BindView>::empty());
    query
}

/// What `all` returns for the database's reply to its select: the rows in
/// the order in which the database gave them, or the failure by its message.
pub fn all_result(reply: Result<Vec<Todo>, StorageFault>) -> (res: Result<
    Vec<Todo>,
    RepositoryError,
>)
    ensures
        match reply {
            Ok(rows) => res matches Ok(todos) && todos == rows,
            Err(fault) => res matches Err(error) && error@ == fault.unexpected(),
        },
{
    match reply {
        Ok(rows) => Ok(rows),
        Err(fault) => Err(fault.into_unexpected()),
    }
}

/// The second step of `update`, after the row with `id` was looked up with
/// `find_query(id)`: where the lookup gave the row, the statement that writes
/// it back with the payload's fields laid over it; where it failed, the
/// error that `update` returns without writing anything.
///
/// Nothing holds the row between the lookup and the write: a change that
/// another caller makes in between is overwritten in the fields that this
/// payload leaves out.
pub fn update_query(id: i32, payload: UpdateTodo, lookup: Result<Todo, StorageFault>) -> (res:
    Result<Query, RepositoryError>)
    ensures
        match lookup {
            Ok(current) => res matches Ok(query) && query@ == (QueryView {
                statement: Statement::Update,
                binds: seq![
                    BindView::Text(current@.patched(payload@).text),
                    BindView::Flag(current@.patched(payload@).completed),
                    BindView::Id(id),
                ],
            }),
            Err(fault) => res matches Err(error) && error@ == fault.for_id(id),
        },
{
    match lookup {
        Ok(current) => {
            let patched = payload.apply(&current);
            let mut binds: Vec<Bind> = Vec::new();
            binds.push(Bind::Text(patched.text));
            binds.push(Bind::Flag(patched.completed));
            binds.push(Bind::Id(id));
            let query = Query { statement: Statement::Update, binds };
            assert(query@.binds =~= seq![
                BindView::Text(current@.patched(payload@).text),
                BindView::Flag(current@.patched(payload@).completed),
                BindView::Id(id),
            ]);
            Ok(query)
        },
        Err(fault) => Err(fault.into_error_for(id)),
    }
}

/// What `update` returns for the database's reply to its write: the row as
/// it is now stored; `NotFound(id)` where the row was gone by the time of the
/// write; any other failure by its message.
pub fn update_result(id: i32, reply: Result<Todo, StorageFault>) -> (res: Result<
    Todo,
    RepositoryError,
>)
    ensures
        match reply {
            Ok(row) => res matches Ok(updated) && updated == row,
            Err(fault) => res matches Err(error) && error@ == fault.for_id(id),
        },
{
    match reply {
        Ok(row) => Ok(row),
        Err(fault) => Err(fault.into_error_for(id)),
    }
}

/// The statement of `delete`: a delete of the row with `id`.
pub fn delete_query(id: i32) -> (query: Query)
    ensures
        query@ == (QueryView { statement: Statement::Delete, binds: seq![BindView::Id(id)] }),
{
    let mut binds: Vec<Bind> = Vec::new();
    binds.push(Bind::Id(id));
    let query = Query { statement: Statement::Delete, binds };
    assert(query@.binds =~= seq![BindView::Id(id)]);
    query
}

/// What `delete` returns for the database's reply to its statement, which is
/// the number of rows that it removed: `NotFound(id)` where it removed none.
pub fn delete_result(id: i32, reply: Result<u64, StorageFault>) -> (res: Result<
    (),
    RepositoryError,
>)
    ensures
        match reply {
            Ok(removed) => if removed == 0 {
                res matches Err(error) && error@ == RepositoryErrorView::NotFound(id)
            } else {
                res is Ok
            },
            Err(fault) => res matches Err(error) && error@ == fault.for_id(id),
        },
{
    match reply {
        Ok(removed) => if removed == 0 {
            Err(RepositoryError::NotFound(id))
        } else {
            Ok(())
        },
        Err(fault) => Err(fault.into_error_for(id)),
    }
}

} // verus!
