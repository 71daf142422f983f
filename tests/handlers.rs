use todo_api::entities::{CreateLabel, CreateTodo, Label, Todo, UpdateTodo};
use todo_api::handlers::{
    all_label, all_todo, create_label, create_todo, create_user, delete_label, delete_todo,
    find_todo, root, status_of_error, update_todo, CreateUser, User, STATUS_CREATED,
    STATUS_INTERNAL_SERVER_ERROR, STATUS_NOT_FOUND, STATUS_NO_CONTENT, STATUS_OK,
};
use todo_api::error::RepositoryError;
use todo_api::label_repository::LabelRepositoryForMemory;
use todo_api::repository::{TodoRepository, TodoRepositoryForMemory};

#[test]
fn main_should_return_hello_world() {
    assert_eq!(root(), "Hello, World!");
}

#[test]
fn main_should_return_user_data() {
    let (status, user) = create_user(CreateUser { username: "techarm".to_string() });
    assert_eq!(status, 201);
    assert_eq!(
        user,
        User {
            id: 1337,
            username: "techarm".to_string(),
        }
    );
}

#[test]
fn should_created_todo() {
    let expected = Todo::new(1, "should_return_created_todo".to_string());
    let mut repository = TodoRepositoryForMemory::new();
    let (status, todo) =
        create_todo(&mut repository, CreateTodo::new("should_return_created_todo".to_string()));
    assert_eq!(status, STATUS_CREATED);
    assert_eq!(expected, todo);
}

#[test]
fn should_find_todo() {
    let expected = Todo::new(1, "should_find_todo".to_string());
    let mut repository = TodoRepositoryForMemory::new();
    repository.create(CreateTodo::new("should_find_todo".to_string()));
    let (status, todo) = find_todo(&repository, 1);
    assert_eq!(status, STATUS_OK);
    assert_eq!(Some(expected), todo);
}

#[test]
fn should_get_all_todos() {
    let expected = Todo::new(1, "should_get_all_todos".to_string());
    let mut repository = TodoRepositoryForMemory::new();
    repository.create(CreateTodo::new("should_get_all_todos".to_string()));
    let (status, todos) = all_todo(&repository);
    assert_eq!(status, STATUS_OK);
    assert_eq!(vec![expected], todos);
}

#[test]
fn should_update_todo() {
    let expected = Todo::new(1, "should_update_todo".to_string());
    let mut repository = TodoRepositoryForMemory::new();
    repository.create(CreateTodo::new("before_update_todo".to_string()));
    let (status, todo) = update_todo(
        &mut repository,
        1,
        UpdateTodo::new(Some("should_update_todo".to_string()), Some(false)),
    );
    assert_eq!(status, STATUS_OK);
    assert_eq!(Some(expected), todo);
}

#[test]
fn should_delete_todo() {
    let mut repository = TodoRepositoryForMemory::new();
    repository.create(CreateTodo::new("should_delete_todo".to_string()));
    assert_eq!(STATUS_NO_CONTENT, delete_todo(&mut repository, 1));
}

#[test]
fn post_todo_answers_created_with_first_id() {
    let mut repository = TodoRepositoryForMemory::new();
    let (status, todo) = create_todo(&mut repository, CreateTodo::new("buy milk".to_string()));
    assert_eq!(status, 201);
    assert_eq!(todo.id, 1);
    assert_eq!(todo.text, "buy milk");
    assert!(!todo.completed);
}

#[test]
fn get_todo_after_post_answers_same_body() {
    let mut repository = TodoRepositoryForMemory::new();
    let (_, created) = create_todo(&mut repository, CreateTodo::new("buy milk".to_string()));
    let (status, found) = find_todo(&repository, 1);
    assert_eq!(status, 200);
    assert_eq!(found, Some(created));
}

#[test]
fn patch_todo_marks_completed() {
    let mut repository = TodoRepositoryForMemory::new();
    create_todo(&mut repository, CreateTodo::new("buy milk".to_string()));
    let (status, todo) = update_todo(
        &mut repository,
        1,
        UpdateTodo::new(Some("buy milk".to_string()), Some(true)),
    );
    assert_eq!(status, 200);
    assert_eq!(
        todo,
        Some(Todo {
            id: 1,
            text: "buy milk".to_string(),
            completed: true,
        })
    );
}

#[test]
fn delete_todo_then_get_answers_not_found() {
    let mut repository = TodoRepositoryForMemory::new();
    create_todo(&mut repository, CreateTodo::new("buy milk".to_string()));
    assert_eq!(delete_todo(&mut repository, 1), 204);
    let (status, todo) = find_todo(&repository, 1);
    assert_eq!(status, 404);
    assert_eq!(todo, None);
}

#[test]
fn get_never_created_todo_answers_not_found() {
    let repository = TodoRepositoryForMemory::new();
    let (status, todo) = find_todo(&repository, 999);
    assert_eq!(status, 404);
    assert_eq!(todo, None);
}

#[test]
fn patch_absent_todo_answers_not_found() {
    let mut repository = TodoRepositoryForMemory::new();
    let (status, todo) = update_todo(&mut repository, 3, UpdateTodo::new(None, Some(true)));
    assert_eq!(status, STATUS_NOT_FOUND);
    assert_eq!(todo, None);
}

#[test]
fn delete_absent_todo_answers_not_found() {
    let mut repository = TodoRepositoryForMemory::new();
    assert_eq!(delete_todo(&mut repository, 1), STATUS_NOT_FOUND);
}

#[test]
fn errors_map_to_statuses() {
    assert_eq!(status_of_error(&RepositoryError::NotFound(4)), 404);
    assert_eq!(
        status_of_error(&RepositoryError::Unexpected("pool closed".to_string())),
        STATUS_INTERNAL_SERVER_ERROR
    );
    assert_eq!(status_of_error(&RepositoryError::Duplicate(2)), 500);
}

#[test]
fn label_handlers_create_list_and_delete() {
    let mut repository = LabelRepositoryForMemory::new();
    let (status, label) = create_label(&mut repository, CreateLabel::new("home".to_string()));
    assert_eq!(status, 201);
    assert_eq!(label, Label::new(1, "home".to_string()));
    let (status, second) = create_label(&mut repository, CreateLabel::new("work".to_string()));
    assert_eq!(status, 201);
    assert_eq!(second.id, 2);
    let (status, labels) = all_label(&repository);
    assert_eq!(status, 200);
    assert_eq!(labels, vec![label.clone(), second.clone()]);
    assert_eq!(delete_label(&mut repository, 1), 204);
    assert_eq!(delete_label(&mut repository, 1), 404);
    let (_, labels) = all_label(&repository);
    assert_eq!(labels, vec![second]);
}
