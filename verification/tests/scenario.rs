use todo_repository::entity::{CreateTodo, Todo, UpdateTodo};
use todo_repository::error::RepositoryError;
use todo_repository::memory::TodoRepositoryForMemory;
use todo_repository::persistent::{
    all_query, all_result, create_query, create_result, delete_query, delete_result, find_query,
    find_result, update_query, update_result, Bind, Statement, StorageFault,
};
use todo_repository::repository::TodoRepository;

#[test]
fn todo_crud_scenario() {
    let mut repository = TodoRepositoryForMemory::new();
    let text = "todo text";

    let created = repository
        .create(CreateTodo::new(text.to_string()))
        .expect("[create] returned error");
    assert_eq!(created.text, text);
    assert!(!created.completed);

    let todo = repository
        .find(created.id)
        .expect("[find] returned error");
    assert_eq!(created, todo);

    let todos = repository.all().expect("[all] returned error");
    let todo = todos.first().unwrap();
    assert_eq!(created, *todo);

    let updated_text = "[crud_scenario] updated text";
    let todo = repository
        .update(
            todo.id,
            UpdateTodo {
                text: Some(updated_text.to_string()),
                completed: Some(true),
            },
        )
        .expect("[update] returned error");
    assert_eq!(created.id, todo.id);
    assert_eq!(todo.text, updated_text);
    assert!(todo.completed);

    let _ = repository
        .delete(todo.id)
        .expect("[delete] returned error");
    let res = repository.find(created.id);
    assert!(res.is_err());

    let todo_rows: Vec<Todo> = repository
        .all()
        .expect("[all] returned error")
        .into_iter()
        .filter(|row| row.id == todo.id)
        .collect();
    assert!(todo_rows.len() == 0);
}

fn bound_text(bind: &Bind) -> Option<String> {
    match bind {
        Bind::Text(text) => Some(text.clone()),
        _ => None,
    }
}

fn bound_flag(bind: &Bind) -> Option<bool> {
    match bind {
        Bind::Flag(flag) => Some(*flag),
        _ => None,
    }
}

fn bound_id(bind: &Bind) -> Option<i32> {
    match bind {
        Bind::Id(id) => Some(*id),
        _ => None,
    }
}

#[test]
fn todo_crud_scenario_over_database_replies() {
    let text = "todo text";

    let insert = create_query(&CreateTodo::new(text.to_string()));
    assert_eq!(insert.statement, Statement::Insert);
    assert_eq!(insert.binds.len(), 1);
    assert_eq!(bound_text(&insert.binds[0]), Some(text.to_string()));
    let created = create_result(Ok(Todo::new(41, text.to_string())))
        .expect("[create] returned error");
    assert_eq!(created.text, text);
    assert!(!created.completed);

    let select = find_query(created.id);
    assert_eq!(select.statement, Statement::SelectOne);
    assert_eq!(select.binds.len(), 1);
    assert_eq!(bound_id(&select.binds[0]), Some(41));
    let todo = find_result(created.id, Ok(Todo::new(41, text.to_string())))
        .expect("[find] returned error");
    assert_eq!(created, todo);

    let select_all = all_query();
    assert_eq!(select_all.statement, Statement::SelectAll);
    assert!(select_all.binds.is_empty());
    let todos = all_result(Ok(vec![
        Todo::new(41, text.to_string()),
        Todo::new(7, "older".to_string()),
    ]))
    .expect("[all] returned error");
    let todo = todos.first().unwrap();
    assert_eq!(created, *todo);

    let updated_text = "[crud_scenario] updated text";
    let write = update_query(
        todo.id,
        UpdateTodo {
            text: Some(updated_text.to_string()),
            completed: Some(true),
        },
        Ok(todo.clone()),
    )
    .expect("[update] returned error");
    assert_eq!(write.statement, Statement::Update);
    assert_eq!(write.binds.len(), 3);
    assert_eq!(bound_text(&write.binds[0]), Some(updated_text.to_string()));
    assert_eq!(bound_flag(&write.binds[1]), Some(true));
    assert_eq!(bound_id(&write.binds[2]), Some(41));
    let todo = update_result(41, Ok(Todo {
        id: 41,
        text: updated_text.to_string(),
        completed: true,
    }))
    .expect("[update] returned error");
    assert_eq!(created.id, todo.id);
    assert_eq!(todo.text, updated_text);

    let remove = delete_query(todo.id);
    assert_eq!(remove.statement, Statement::Delete);
    assert_eq!(remove.binds.len(), 1);
    assert_eq!(bound_id(&remove.binds[0]), Some(41));
    delete_result(todo.id, Ok(1)).expect("[delete] returned error");

    let res = find_result(
        created.id,
        Err(StorageFault {
            row_not_found: true,
            message: "no rows returned".to_string(),
        }),
    );
    assert!(res.is_err());
    assert!(matches!(res, Err(RepositoryError::NotFound(41))));
}
