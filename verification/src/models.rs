//! The rows of the todo table, as they are read, inserted and changed.

use crate::validation::{broker_in_bounds, title_in_bounds};
use vstd::prelude::*;

verus! {

/// A row of the table.
#[derive(Debug, Clone, PartialEq, Eq)]
pub struct Todo {
    pub id: i32,
    pub title: String,
    pub status: String,
    pub broker: String,
    pub created_at: String,
    pub updated_at: String,
}

/// A row that is to be inserted: the store gives it its id.
#[derive(Debug, PartialEq, Eq)]
pub struct NewTodo {
    pub title: String,
    pub status: String,
    pub broker: String,
    pub created_at: String,
    pub updated_at: String,
}

/// The changes to make to a row: a field that is `None` stays as it is in
/// the store; `updated_at` is always written.
#[derive(Debug, PartialEq, Eq)]
pub struct UpdateTodo {
    pub title: Option<String>,
    pub status: Option<String>,
    pub broker: Option<String>,
    pub updated_at: String,
}

/// A [`Todo`] as a plain value.
pub struct TodoView {
    pub id: int,
    pub title: Seq<char>,
    pub status: Seq<char>,
    pub broker: Seq<char>,
    pub created_at: Seq<char>,
    pub updated_at: Seq<char>,
}

/// A [`NewTodo`] as a plain value.
pub struct NewTodoView {
    pub title: Seq<char>,
    pub status: Seq<char>,
    pub broker: Seq<char>,
    pub created_at: Seq<char>,
    pub updated_at: Seq<char>,
}

/// An [`UpdateTodo`] as a plain value.
pub struct UpdateTodoView {
    pub title: Option<Seq<char>>,
    pub status: Option<Seq<char>>,
    pub broker: Option<Seq<char>>,
    pub updated_at: Seq<char>,
}

/// The characters of a field that may be absent.
pub open spec fn text_view(field: Option<String>) -> Option<Seq<char>> {
    match field {
        Some(text) => Some(text@),
        None => None,
    }
}

impl View for Todo {
    type V = TodoView;

    open spec fn view(&self) -> TodoView {
        TodoView {
            id: self.id as int,
            title: self.title@,
            status: self.status@,
            broker: self.broker@,
            created_at: self.created_at@,
            updated_at: self.updated_at@,
        }
    }
}

impl DeepView for Todo {
    type V = TodoView;

    open spec fn deep_view(&self) -> TodoView {
        self@
    }
}

impl View for NewTodo {
    type V = NewTodoView;

    open spec fn view(&self) -> NewTodoView {
        NewTodoView {
            title: self.title@,
            status: self.status@,
            broker: self.broker@,
            created_at: self.created_at@,
            updated_at: self.updated_at@,
        }
    }
}

impl View for UpdateTodo {
    type V = UpdateTodoView;

    open spec fn view(&self) -> UpdateTodoView {
        UpdateTodoView {
            title: text_view(self.title),
            status: text_view(self.status),
            broker: text_view(self.broker),
            updated_at: self.updated_at@,
        }
    }
}

impl TodoView {
    /// What holds of every row at all times: a title and a broker name that
    /// are not empty and within their bounds.
    pub open spec fn well_formed(self) -> bool {
        title_in_bounds(self.title) && broker_in_bounds(self.broker)
    }
}

impl NewTodoView {
    /// Whether the row may be inserted: its title and broker name are within
    /// bounds, and it was last updated when it was created.
    pub open spec fn well_formed(self) -> bool {
        &&& title_in_bounds(self.title)
        &&& broker_in_bounds(self.broker)
        &&& self.created_at == self.updated_at
    }

    /// The row in the table once the store has given it `id`.
    pub open spec fn stored_as(self, id: int) -> TodoView {
        TodoView {
            id,
            title: self.title,
            status: self.status,
            broker: self.broker,
            created_at: self.created_at,
            updated_at: self.updated_at,
        }
    }
}

impl UpdateTodoView {
    /// Whether the changes keep a row well formed: a title or broker name
    /// that is supplied is within its bounds.
    pub open spec fn well_formed(self) -> bool {
        &&& self.title matches Some(title) ==> title_in_bounds(title)
        &&& self.broker matches Some(broker) ==> broker_in_bounds(broker)
    }

    /// `row` after the changes: each supplied field replaces the row's,
    /// `updated_at` is replaced in any case, `id` and `created_at` never are.
    pub open spec fn applied_to(self, row: TodoView) -> TodoView {
        TodoView {
            id: row.id,
            title: match self.title {
                Some(title) => title,
                None => row.title,
            },
            status: match self.status {
                Some(status) => status,
                None => row.status,
            },
            broker: match self.broker {
                Some(broker) => broker,
                None => row.broker,
            },
            created_at: row.created_at,
            updated_at: self.updated_at,
        }
    }
}

} // verus!
