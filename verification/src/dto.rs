//! What the caller hands to each operation.

use crate::models::text_view;
use vstd::prelude::*;

verus! {

/// What is needed to create a todo.
#[derive(Debug, PartialEq, Eq)]
pub struct CreateTodoInput {
    pub title: String,
    pub status: String,
    pub broker: String,
}

/// Which todo to read.
#[derive(Debug, PartialEq, Eq)]
pub struct GetTodoInput {
    pub todo_id: i32,
}

/// Which todo to change, and the fields to change: one that is `None` is
/// left as it is.
#[derive(Debug, PartialEq, Eq)]
pub struct UpdateTodoInput {
    pub todo_id: i32,
    pub title: Option<String>,
    pub status: Option<String>,
    pub broker: Option<String>,
}

/// Which todo to delete.
#[derive(Debug, PartialEq, Eq)]
pub struct DeleteTodoInput {
    pub todo_id: i32,
}

/// The text to look for in the titles.
#[derive(Debug, PartialEq, Eq)]
pub struct SearchTodoInput {
    pub query: String,
}

/// A [`CreateTodoInput`] as a plain value.
pub struct CreateTodoInputView {
    pub title: Seq<char>,
    pub status: Seq<char>,
    pub broker: Seq<char>,
}

/// An [`UpdateTodoInput`] as a plain value.
pub struct UpdateTodoInputView {
    pub todo_id: int,
    pub title: Option<Seq<char>>,
    pub status: Option<Seq<char>>,
    pub broker: Option<Seq<char>>,
}

impl View for CreateTodoInput {
    type V = CreateTodoInputView;

    open spec fn view(&self) -> CreateTodoInputView {
        CreateTodoInputView { title: self.title@, status: self.status@, broker: self.broker@ }
    }
}

impl View for UpdateTodoInput {
    type V = UpdateTodoInputView;

    open spec fn view(&self) -> UpdateTodoInputView {
        UpdateTodoInputView {
            todo_id: self.todo_id as int,
            title: text_view(self.title),
            status: text_view(self.status),
            broker: text_view(self.broker),
        }
    }
}

} // verus!
