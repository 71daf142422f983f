//! The records the service stores and the payloads that create or change them.
use vstd::prelude::*;

verus! {

/// What a stored todo is, as a mathematical value.
pub struct TodoModel {
    pub id: i32,
    pub text: Seq<char>,
    pub completed: bool,
}

/// What a stored label is, as a mathematical value.
pub struct LabelModel {
    pub id: i32,
    pub name: Seq<char>,
}

#[derive(Debug, Clone, PartialEq)]
pub struct Todo {
    pub id: i32,
    pub text: String,
    pub completed: bool,
}

#[derive(Debug, Clone, PartialEq)]
pub struct CreateTodo {
    pub text: String,
}

/// A partial change to a todo: a field that is `None` is left as it is.
#[derive(Debug, Clone, PartialEq)]
pub struct UpdateTodo {
    pub text: Option<String>,
    pub completed: Option<bool>,
}

#[derive(Debug, Clone, PartialEq)]
pub struct Label {
    pub id: i32,
    pub name: String,
}

#[derive(Debug, Clone, PartialEq)]
pub struct CreateLabel {
    pub name: String,
}

impl View for Todo {
    type V = TodoModel;

    open spec fn view(&self) -> TodoModel {
        TodoModel { id: self.id, text: self.text@, completed: self.completed }
    }
}

impl View for Label {
    type V = LabelModel;

    open spec fn view(&self) -> LabelModel {
        LabelModel { id: self.id, name: self.name@ }
    }
}

/// A todo as it stands right after creation.
pub open spec fn fresh_todo(id: i32, text: Seq<char>) -> TodoModel {
    TodoModel { id, text, completed: false }
}

/// The todo `t` after the fields present in `payload` have been written into it.
pub open spec fn applied(t: TodoModel, payload: UpdateTodo) -> TodoModel {
    TodoModel {
        id: t.id,
        text: match payload.text {
            Some(s) => s@,
            None => t.text,
        },
        completed: match payload.completed {
            Some(c) => c,
            None => t.completed,
        },
    }
}

pub open spec fn todo_option_view(r: Option<Todo>) -> Option<TodoModel> {
    match r {
        Some(t) => Some(t@),
        None => None,
    }
}

impl Todo {
    pub fn new(id: i32, text: String) -> (r: Todo)
        ensures
            r@ == fresh_todo(id, text@),
    {
        Todo { id, text, completed: false }
    }

    /// A copy of this todo, for handing out while the store keeps its own.
    pub fn copied(&self) -> (r: Todo)
        ensures
            r@ == self@,
    {
        Todo { id: self.id, text: self.text.clone(), completed: self.completed }
    }

    /// Writes the fields present in `payload`; the id never changes.
    pub fn apply(&mut self, payload: UpdateTodo)
        ensures
            final(self)@ == applied(old(self)@, payload),
    {
        match payload.text {
            Some(s) => {
                self.text = s;
            },
            None => {},
        }
        match payload.completed {
            Some(c) => {
                self.completed = c;
            },
            None => {},
        }
    }
}

impl CreateTodo {
    pub fn new(text: String) -> (r: CreateTodo)
        ensures
            r.text == text,
    {
        CreateTodo { text }
    }
}

impl UpdateTodo {
    pub fn new(text: Option<String>, completed: Option<bool>) -> (r: UpdateTodo)
        ensures
            r.text == text,
            r.completed == completed,
    {
        UpdateTodo { text, completed }
    }
}

impl Label {
    pub fn new(id: i32, name: String) -> (r: Label)
        ensures
            r@ == (LabelModel { id, name: name@ }),
    {
        Label { id, name }
    }

    /// A copy of this label, for handing out while the store keeps its own.
    pub fn copied(&self) -> (r: Label)
        ensures
            r@ == self@,
    {
        Label { id: self.id, name: self.name.clone() }
    }
}

impl CreateLabel {
    pub fn new(name: String) -> (r: CreateLabel)
        ensures
            r.name == name,
    {
        CreateLabel { name }
    }
}

} // verus!
