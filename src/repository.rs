//! The repository interface for todos and its in-memory backend.
use vstd::prelude::*;
use crate::entities::{
    applied, fresh_todo, todo_option_view, CreateTodo, Todo, TodoModel, UpdateTodo,
};
use crate::error::RepositoryError;
use crate::store::{has_id, index_of, lemma_index_unique, lookup, store_wf};

verus! {

/// Create, read, update and delete over todos, whatever holds them.
///
/// A backend is seen as the sequence of its todos in order of creation and
/// the id it will issue next.
pub trait TodoRepository {
    spec fn todos(&self) -> Seq<TodoModel>;

    spec fn next_id(&self) -> int;

    /// Whether an id is left to issue, so that `create` may be called.
    fn can_create(&self) -> (r: bool)
        ensures
            r == (self.next_id() < i32::MAX),
    ;

    /// Stores a new todo under the next id and returns it; never fails.
    fn create(&mut self, payload: CreateTodo) -> (r: Todo)
        requires
            store_wf(old(self).todos(), old(self).next_id()),
            old(self).next_id() < i32::MAX,
        ensures
            r@ == fresh_todo(old(self).next_id() as i32, payload.text@),
            final(self).todos() == old(self).todos().push(r@),
            final(self).next_id() == old(self).next_id() + 1,
            store_wf(final(self).todos(), final(self).next_id()),
    ;

    /// The todo with this id, or `None`: absence is no error.
    fn find(&self, id: i32) -> (r: Option<Todo>)
        requires
            store_wf(self.todos(), self.next_id()),
        ensures
            todo_option_view(r) == lookup(self.todos(), id),
    ;

    /// Every stored todo, in order of creation.
    fn all(&self) -> (r: Vec<Todo>)
        requires
            store_wf(self.todos(), self.next_id()),
        ensures
            r@.map_values(|t: Todo| t@) == self.todos(),
    ;

    /// Writes the fields present in `payload` into the todo with this id.
    fn update(&mut self, id: i32, payload: UpdateTodo) -> (r: Result<Todo, RepositoryError>)
        requires
            store_wf(old(self).todos(), old(self).next_id()),
        ensures
            final(self).next_id() == old(self).next_id(),
            store_wf(final(self).todos(), final(self).next_id()),
            has_id(old(self).todos(), id) <==> r is Ok,
            r matches Ok(t) ==> {
                &&& t@ == applied(lookup(old(self).todos(), id).unwrap(), payload)
                &&& final(self).todos() == old(self).todos().update(
                    index_of(old(self).todos(), id),
                    t@,
                )
            },
            r matches Err(e) ==> {
                &&& e == RepositoryError::NotFound(id)
                &&& final(self).todos() == old(self).todos()
            },
    ;

    /// Removes the todo with this id.
    fn delete(&mut self, id: i32) -> (r: Result<(), RepositoryError>)
        requires
            store_wf(old(self).todos(), old(self).next_id()),
        ensures
            final(self).next_id() == old(self).next_id(),
            store_wf(final(self).todos(), final(self).next_id()),
            has_id(old(self).todos(), id) <==> r is Ok,
            r is Ok ==> final(self).todos() == old(self).todos().remove(
                index_of(old(self).todos(), id),
            ),
            r matches Err(e) ==> {
                &&& e == RepositoryError::NotFound(id)
                &&& final(self).todos() == old(self).todos()
            },
    ;
}

/// Todos held in memory, in order of creation, which is also order of id.
///
/// Callers that share one store between tasks hold it behind a lock, so
/// each operation runs with exclusive access for writes.
pub struct TodoRepositoryForMemory {
    store: Vec<Todo>,
    next_id: i32,
}

impl TodoRepositoryForMemory {
    pub fn new() -> (r: TodoRepositoryForMemory)
        ensures
            r.todos() == Seq::<TodoModel>::empty(),
            r.next_id() == 1,
            store_wf(r.todos(), r.next_id()),
    {
        TodoRepositoryForMemory { store: Vec::new(), next_id: 1 }
    }

    /// The position of the todo with this id, if one is stored.
    fn position(&self, id: i32) -> (r: Option<usize>)
        requires
            store_wf(self.todos(), self.next_id()),
        ensures
            r is Some <==> has_id(self.todos(), id),
            r matches Some(i) ==> i < self.store@.len() && i == index_of(self.todos(), id),
    {
        let ghost s = self.todos();
        let mut i: usize = 0;
        while i < self.store.len()
            invariant
                s == self.todos(),
                store_wf(s, self.next_id()),
                i <= self.store@.len(),
                forall|k: int| 0 <= k < i ==> #[trigger] s[k].id != id,
            decreases self.store@.len() - i,
        {
            if self.store[i].id == id {
                proof {
                    lemma_index_unique(s, self.next_id(), i as int);
                }
                return Some(i);
            }
            i = i + 1;
        }
        None
    }
}

impl TodoRepository for TodoRepositoryForMemory {
    closed spec fn todos(&self) -> Seq<TodoModel> {
        self.store@.map_values(|t: Todo| t@)
    }

    closed spec fn next_id(&self) -> int {
        self.next_id as int
    }

    fn can_create(&self) -> (r: bool) {
        self.next_id < i32::MAX
    }

    fn create(&mut self, payload: CreateTodo) -> (r: Todo) {
        let todo = Todo::new(self.next_id, payload.text);
        let r = todo.copied();
        self.store.push(todo);
        self.next_id = self.next_id + 1;
        proof {
            assert(self.todos() =~= old(self).todos().push(r@));
        }
        r
    }

    fn find(&self, id: i32) -> (r: Option<Todo>) {
        match self.position(id) {
            Some(i) => Some(self.store[i].copied()),
            None => None,
        }
    }

    fn all(&self) -> (r: Vec<Todo>) {
        let mut r: Vec<Todo> = Vec::new();
        let mut i: usize = 0;
        while i < self.store.len()
            invariant
                i <= self.store@.len(),
                r@.len() == i,
                forall|k: int| 0 <= k < i ==> (#[trigger] r@[k])@ == self.store@[k]@,
            decreases self.store@.len() - i,
        {
            r.push(self.store[i].copied());
            i = i + 1;
        }
        assert(r@.map_values(|t: Todo| t@) =~= self.todos());
        r
    }

    fn update(&mut self, id: i32, payload: UpdateTodo) -> (r: Result<Todo, RepositoryError>) {
        match self.position(id) {
            Some(i) => {
                let mut todo = self.store[i].copied();
                todo.apply(payload);
                let r = todo.copied();
                self.store.set(i, todo);
                proof {
                    assert(self.todos() =~= old(self).todos().update(i as int, r@));
                }
                Ok(r)
            },
            None => Err(RepositoryError::NotFound(id)),
        }
    }

    fn delete(&mut self, id: i32) -> (r: Result<(), RepositoryError>) {
        match self.position(id) {
            Some(i) => {
                self.store.remove(i);
                proof {
                    assert(self.todos() =~= old(self).todos().remove(i as int));
                }
                Ok(())
            },
            None => Err(RepositoryError::NotFound(id)),
        }
    }
}

} // verus!
