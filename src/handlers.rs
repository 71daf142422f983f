//! The HTTP handlers: each makes one repository call and turns its result
//! into a status code and a body.
use vstd::prelude::*;
use crate::entities::{
    fresh_todo, todo_option_view, CreateLabel, CreateTodo, Label, LabelModel, Todo, UpdateTodo,
    applied,
};
use crate::error::RepositoryError;
use crate::label_repository::LabelRepository;
use crate::repository::TodoRepository;
use crate::store::{has_id, has_label_id, index_of, label_index_of, label_store_wf, lookup, store_wf};

verus! {

pub const STATUS_OK: u16 = 200;

pub const STATUS_CREATED: u16 = 201;

pub const STATUS_NO_CONTENT: u16 = 204;

pub const STATUS_NOT_FOUND: u16 = 404;

pub const STATUS_INTERNAL_SERVER_ERROR: u16 = 500;

/// The id every created user is given.
pub const USER_ID: u64 = 1337;

pub struct CreateUser {
    pub username: String,
}

#[derive(Debug, Clone, PartialEq)]
pub struct User {
    pub id: u64,
    pub username: String,
}

/// The status a failed repository call is answered with.
pub open spec fn error_status(e: RepositoryError) -> u16 {
    match e {
        RepositoryError::NotFound(_) => STATUS_NOT_FOUND,
        _ => STATUS_INTERNAL_SERVER_ERROR,
    }
}

pub fn status_of_error(e: &RepositoryError) -> (r: u16)
    ensures
        r == error_status(*e),
{
    match e {
        RepositoryError::NotFound(_) => STATUS_NOT_FOUND,
        _ => STATUS_INTERNAL_SERVER_ERROR,
    }
}

/// The answer to a create: 201 with the new entity, or the error's status.
pub fn created_response<T>(r: Result<T, RepositoryError>) -> (res: (u16, Option<T>))
    ensures
        r matches Ok(v) ==> res == (STATUS_CREATED, Some(v)),
        r matches Err(e) ==> res == (error_status(e), None::<T>),
{
    match r {
        Ok(v) => (STATUS_CREATED, Some(v)),
        Err(e) => (status_of_error(&e), None),
    }
}

/// The answer to a read or an update: 200 with the entity, or the error's
/// status.
pub fn ok_response<T>(r: Result<T, RepositoryError>) -> (res: (u16, Option<T>))
    ensures
        r matches Ok(v) ==> res == (STATUS_OK, Some(v)),
        r matches Err(e) ==> res == (error_status(e), None::<T>),
{
    match r {
        Ok(v) => (STATUS_OK, Some(v)),
        Err(e) => (status_of_error(&e), None),
    }
}

/// The answer to a read of one entity: 200 with it, 404 when it is absent,
/// or the error's status.
pub fn found_response<T>(r: Result<Option<T>, RepositoryError>) -> (res: (u16, Option<T>))
    ensures
        r matches Ok(Some(v)) ==> res == (STATUS_OK, Some(v)),
        r matches Ok(None) ==> res == (STATUS_NOT_FOUND, None::<T>),
        r matches Err(e) ==> res == (error_status(e), None::<T>),
{
    match r {
        Ok(Some(v)) => (STATUS_OK, Some(v)),
        Ok(None) => (STATUS_NOT_FOUND, None),
        Err(e) => (status_of_error(&e), None),
    }
}

/// The answer to a delete: 204 with no body, or the error's status.
pub fn deleted_response(r: Result<(), RepositoryError>) -> (res: u16)
    ensures
        r is Ok ==> res == STATUS_NO_CONTENT,
        r matches Err(e) ==> res == error_status(e),
{
    match r {
        Ok(()) => STATUS_NO_CONTENT,
        Err(e) => status_of_error(&e),
    }
}

/// The body of `GET /`.
pub fn root() -> (r: &'static str)
    ensures
        r@ == "Hello, World!"@,
{
    "Hello, World!"
}

pub fn create_user(payload: CreateUser) -> (r: (u16, User))
    ensures
        r.0 == STATUS_CREATED,
        r.1.id == USER_ID,
        r.1.username == payload.username,
{
    (STATUS_CREATED, User { id: USER_ID, username: payload.username })
}

pub fn create_todo<T: TodoRepository>(repository: &mut T, payload: CreateTodo) -> (r: (u16, Todo))
    requires
        store_wf(old(repository).todos(), old(repository).next_id()),
        old(repository).next_id() < i32::MAX,
    ensures
        r.0 == STATUS_CREATED,
        r.1@ == fresh_todo(old(repository).next_id() as i32, payload.text@),
        final(repository).todos() == old(repository).todos().push(r.1@),
        final(repository).next_id() == old(repository).next_id() + 1,
        store_wf(final(repository).todos(), final(repository).next_id()),
{
    let todo = repository.create(payload);
    (STATUS_CREATED, todo)
}

pub fn find_todo<T: TodoRepository>(repository: &T, id: i32) -> (r: (u16, Option<Todo>))
    requires
        store_wf(repository.todos(), repository.next_id()),
    ensures
        r.0 == if has_id(repository.todos(), id) { STATUS_OK } else { STATUS_NOT_FOUND },
        todo_option_view(r.1) == lookup(repository.todos(), id),
{
    found_response(Ok(repository.find(id)))
}

pub fn all_todo<T: TodoRepository>(repository: &T) -> (r: (u16, Vec<Todo>))
    requires
        store_wf(repository.todos(), repository.next_id()),
    ensures
        r.0 == STATUS_OK,
        r.1@.map_values(|t: Todo| t@) == repository.todos(),
{
    (STATUS_OK, repository.all())
}

pub fn update_todo<T: TodoRepository>(repository: &mut T, id: i32, payload: UpdateTodo) -> (r: (
    u16,
    Option<Todo>,
))
    requires
        store_wf(old(repository).todos(), old(repository).next_id()),
    ensures
        r.0 == if has_id(old(repository).todos(), id) { STATUS_OK } else { STATUS_NOT_FOUND },
        final(repository).next_id() == old(repository).next_id(),
        store_wf(final(repository).todos(), final(repository).next_id()),
        has_id(old(repository).todos(), id) ==> {
            let t = applied(lookup(old(repository).todos(), id).unwrap(), payload);
            &&& todo_option_view(r.1) == Some(t)
            &&& final(repository).todos() == old(repository).todos().update(
                index_of(old(repository).todos(), id),
                t,
            )
        },
        !has_id(old(repository).todos(), id) ==> {
            &&& r.1 is None
            &&& final(repository).todos() == old(repository).todos()
        },
{
    ok_response(repository.update(id, payload))
}

pub fn delete_todo<T: TodoRepository>(repository: &mut T, id: i32) -> (r: u16)
    requires
        store_wf(old(repository).todos(), old(repository).next_id()),
    ensures
        r == if has_id(old(repository).todos(), id) { STATUS_NO_CONTENT } else { STATUS_NOT_FOUND },
        final(repository).next_id() == old(repository).next_id(),
        store_wf(final(repository).todos(), final(repository).next_id()),
        final(repository).todos() == if has_id(old(repository).todos(), id) {
            old(repository).todos().remove(index_of(old(repository).todos(), id))
        } else {
            old(repository).todos()
        },
{
    deleted_response(repository.delete(id))
}

pub fn create_label<T: LabelRepository>(repository: &mut T, payload: CreateLabel) -> (r: (
    u16,
    Label,
))
    requires
        label_store_wf(old(repository).labels(), old(repository).next_id()),
        old(repository).next_id() < i32::MAX,
    ensures
        r.0 == STATUS_CREATED,
        r.1@ == (LabelModel { id: old(repository).next_id() as i32, name: payload.name@ }),
        final(repository).labels() == old(repository).labels().push(r.1@),
        final(repository).next_id() == old(repository).next_id() + 1,
        label_store_wf(final(repository).labels(), final(repository).next_id()),
{
    let label = repository.create(payload);
    (STATUS_CREATED, label)
}

pub fn all_label<T: LabelRepository>(repository: &T) -> (r: (u16, Vec<Label>))
    requires
        label_store_wf(repository.labels(), repository.next_id()),
    ensures
        r.0 == STATUS_OK,
        r.1@.map_values(|l: Label| l@) == repository.labels(),
{
    (STATUS_OK, repository.all())
}

pub fn delete_label<T: LabelRepository>(repository: &mut T, id: i32) -> (r: u16)
    requires
        label_store_wf(old(repository).labels(), old(repository).next_id()),
    ensures
        r == if has_label_id(old(repository).labels(), id) {
            STATUS_NO_CONTENT
        } else {
            STATUS_NOT_FOUND
        },
        final(repository).next_id() == old(repository).next_id(),
        label_store_wf(final(repository).labels(), final(repository).next_id()),
        final(repository).labels() == if has_label_id(old(repository).labels(), id) {
            old(repository).labels().remove(label_index_of(old(repository).labels(), id))
        } else {
            old(repository).labels()
        },
{
    deleted_response(repository.delete(id))
}

} // verus!
