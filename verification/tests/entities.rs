use todo_repository::entity::{CreateTodo, Todo, UpdateTodo};

#[test]
fn a_new_todo_is_not_completed() {
    let todo = Todo::new(7, "write".to_string());
    assert_eq!(todo.id, 7);
    assert_eq!(todo.text, "write");
    assert!(!todo.completed);
}

#[test]
fn todos_are_equal_when_all_fields_are() {
    let todo = Todo { id: 1, text: "a".to_string(), completed: false };
    assert_eq!(todo, todo.clone());
    assert_ne!(todo, Todo { id: 2, text: "a".to_string(), completed: false });
    assert_ne!(todo, Todo { id: 1, text: "b".to_string(), completed: false });
    assert_ne!(todo, Todo { id: 1, text: "a".to_string(), completed: true });
}

#[test]
fn payloads_are_equal_when_all_fields_are() {
    let create = CreateTodo::new("a".to_string());
    assert_eq!(create, create.clone());
    assert_ne!(create, CreateTodo::new("b".to_string()));

    let update = UpdateTodo { text: Some("a".to_string()), completed: None };
    assert_eq!(update, update.clone());
    assert_ne!(update, UpdateTodo { text: None, completed: None });
    assert_ne!(update, UpdateTodo { text: Some("b".to_string()), completed: None });
    assert_ne!(update, UpdateTodo { text: Some("a".to_string()), completed: Some(false) });
    assert_ne!(
        UpdateTodo { text: None, completed: Some(true) },
        UpdateTodo { text: None, completed: Some(false) }
    );
    assert_eq!(
        UpdateTodo { text: None, completed: None },
        UpdateTodo { text: None, completed: None }
    );
}

#[test]
fn apply_lays_the_present_fields_over_the_entity() {
    let current = Todo { id: 4, text: "old".to_string(), completed: true };

    let both = UpdateTodo { text: Some("new".to_string()), completed: Some(false) };
    assert_eq!(both.apply(&current), Todo { id: 4, text: "new".to_string(), completed: false });

    let text_only = UpdateTodo { text: Some("new".to_string()), completed: None };
    assert_eq!(text_only.apply(&current), Todo { id: 4, text: "new".to_string(), completed: true });

    let flag_only = UpdateTodo { text: None, completed: Some(false) };
    assert_eq!(flag_only.apply(&current), Todo { id: 4, text: "old".to_string(), completed: false });

    let neither = UpdateTodo { text: None, completed: None };
    assert_eq!(neither.apply(&current), current);
}
