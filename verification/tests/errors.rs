use todo_repository::error::RepositoryError;

#[test]
fn not_found_names_the_id() {
    assert_eq!(RepositoryError::NotFound(3).message(), "NotFound, id is 3");
    assert_eq!(RepositoryError::NotFound(0).message(), "NotFound, id is 0");
    assert_eq!(RepositoryError::NotFound(10).message(), "NotFound, id is 10");
    assert_eq!(RepositoryError::NotFound(1205).message(), "NotFound, id is 1205");
    assert_eq!(RepositoryError::NotFound(-12).message(), "NotFound, id is -12");
    assert_eq!(
        RepositoryError::NotFound(i32::MAX).message(),
        "NotFound, id is 2147483647"
    );
    assert_eq!(
        RepositoryError::NotFound(i32::MIN).message(),
        "NotFound, id is -2147483648"
    );
}

#[test]
fn not_found_renders_every_id_as_std_does() {
    for id in (-1000..=1000).chain([i32::MIN, i32::MIN + 1, i32::MAX - 1, i32::MAX, 99_999, -100_000]) {
        assert_eq!(RepositoryError::NotFound(id).message(), format!("NotFound, id is {}", id));
    }
}

#[test]
fn unexpected_quotes_the_cause() {
    assert_eq!(
        RepositoryError::Unexpected("connection lost".to_string()).message(),
        "Unexpected Error: [connection lost]"
    );
    assert_eq!(RepositoryError::Unexpected(String::new()).message(), "Unexpected Error: []");
}
