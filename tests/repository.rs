use todo_api::entities::{CreateTodo, Todo, UpdateTodo};
use todo_api::error::RepositoryError;
use todo_api::label_repository::{LabelRepository, LabelRepositoryForMemory};
use todo_api::entities::CreateLabel;
use todo_api::repository::{TodoRepository, TodoRepositoryForMemory};

#[test]
fn created_todo_is_open_with_fresh_id() {
    let mut repository = TodoRepositoryForMemory::new();
    let first = repository.create(CreateTodo::new("a".to_string()));
    let second = repository.create(CreateTodo::new("b".to_string()));
    assert!(!first.completed);
    assert!(!second.completed);
    assert_eq!(first.id, 1);
    assert_eq!(second.id, 2);
}

#[test]
fn find_returns_created_entity() {
    let mut repository = TodoRepositoryForMemory::new();
    repository.create(CreateTodo::new("a".to_string()));
    let created = repository.create(CreateTodo::new("b".to_string()));
    assert_eq!(repository.find(created.id), Some(created));
    assert_eq!(repository.find(0), None);
    assert_eq!(repository.find(3), None);
    assert_eq!(repository.find(-7), None);
}

#[test]
fn update_with_text_keeps_completed() {
    let mut repository = TodoRepositoryForMemory::new();
    repository.create(CreateTodo::new("a".to_string()));
    repository.update(1, UpdateTodo::new(None, Some(true))).unwrap();
    let updated = repository
        .update(1, UpdateTodo::new(Some("renamed".to_string()), None))
        .unwrap();
    assert_eq!(
        updated,
        Todo {
            id: 1,
            text: "renamed".to_string(),
            completed: true,
        }
    );
    assert_eq!(repository.find(1), Some(updated));
}

#[test]
fn update_with_nothing_changes_nothing() {
    let mut repository = TodoRepositoryForMemory::new();
    let created = repository.create(CreateTodo::new("a".to_string()));
    let updated = repository.update(1, UpdateTodo::new(None, None)).unwrap();
    assert_eq!(created, updated);
}

#[test]
fn update_absent_id_is_not_found() {
    let mut repository = TodoRepositoryForMemory::new();
    repository.create(CreateTodo::new("a".to_string()));
    assert_eq!(
        repository.update(2, UpdateTodo::new(Some("x".to_string()), None)),
        Err(RepositoryError::NotFound(2))
    );
    assert_eq!(repository.find(1), Some(Todo::new(1, "a".to_string())));
}

#[test]
fn delete_then_find_is_empty() {
    let mut repository = TodoRepositoryForMemory::new();
    repository.create(CreateTodo::new("a".to_string()));
    repository.create(CreateTodo::new("b".to_string()));
    assert_eq!(repository.delete(1), Ok(()));
    assert_eq!(repository.find(1), None);
    assert_eq!(repository.find(2), Some(Todo::new(2, "b".to_string())));
    assert_eq!(repository.delete(1), Err(RepositoryError::NotFound(1)));
}

#[test]
fn ids_are_not_reused_after_delete() {
    let mut repository = TodoRepositoryForMemory::new();
    repository.create(CreateTodo::new("a".to_string()));
    repository.delete(1).unwrap();
    let next = repository.create(CreateTodo::new("b".to_string()));
    assert_eq!(next.id, 2);
}

#[test]
fn all_after_creates_lists_each_id_once_in_order() {
    let mut repository = TodoRepositoryForMemory::new();
    assert!(repository.all().is_empty());
    for text in ["a", "b", "c", "d"] {
        repository.create(CreateTodo::new(text.to_string()));
    }
    let all = repository.all();
    assert_eq!(all.len(), 4);
    let ids: Vec<i32> = all.iter().map(|t| t.id).collect();
    assert_eq!(ids, vec![1, 2, 3, 4]);
    assert_eq!(all[2], Todo::new(3, "c".to_string()));
}

#[test]
fn creates_through_shared_handles_get_distinct_ids() {
    let repository = std::sync::Arc::new(std::sync::RwLock::new(TodoRepositoryForMemory::new()));
    let handles = vec![repository.clone(), repository.clone(), repository.clone()];
    let mut ids: Vec<i32> = Vec::new();
    for k in 0..30 {
        let mut guard = handles[k % 3].write().unwrap();
        ids.push(guard.create(CreateTodo::new(format!("todo-{}", k))).id);
    }
    ids.sort();
    ids.dedup();
    assert_eq!(ids.len(), 30);
    assert_eq!(repository.read().unwrap().all().len(), 30);
}

#[test]
fn can_create_on_new_store() {
    let repository = TodoRepositoryForMemory::new();
    assert!(repository.can_create());
    let labels = LabelRepositoryForMemory::new();
    assert!(labels.can_create());
}

#[test]
fn label_delete_absent_is_not_found() {
    let mut repository = LabelRepositoryForMemory::new();
    repository.create(CreateLabel::new("home".to_string()));
    assert_eq!(repository.delete(5), Err(RepositoryError::NotFound(5)));
    assert_eq!(repository.all().len(), 1);
}
