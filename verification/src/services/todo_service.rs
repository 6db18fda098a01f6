//! Creating, reading, changing, deleting and searching todos.

use crate::clock::{is_timestamp, timestamp_now};
use crate::dto::{
    CreateTodoInput, CreateTodoInputView, DeleteTodoInput, SearchTodoInput, UpdateTodoInput,
    UpdateTodoInputView,
};
use crate::error::{AppError, AppErrorView};
use crate::models::{NewTodo, NewTodoView, UpdateTodo, UpdateTodoView};
use crate::store::{Statement, StatementView, Step, StepView};
use crate::text::{trim, trimmed};
use crate::validation::{
    broker_complaint, broker_in_bounds, check_broker, check_title, escape_like_pattern, escaped,
    title_complaint, title_in_bounds, TodoInput, TodoInputView,
};
use vstd::prelude::*;
use vstd::string::StringExecFns;

verus! {

/// The operations on todos.
pub struct TodoService;

/// A field that may be absent, trimmed if it is there.
pub open spec fn trimmed_if_some(field: Option<Seq<char>>) -> Option<Seq<char>> {
    match field {
        Some(text) => Some(trimmed(text)),
        None => None,
    }
}

impl CreateTodoInputView {
    /// What of the input is held to length bounds: the trimmed title and the
    /// trimmed broker name.
    pub open spec fn checked(self) -> TodoInputView {
        TodoInputView {
            title: trimmed(self.title),
            description: None,
            broker: trimmed(self.broker),
        }
    }

    /// The row to insert at the time `now`: title and broker name trimmed,
    /// the status as given, created and last updated at `now`.
    pub open spec fn row(self, now: Seq<char>) -> NewTodoView {
        NewTodoView {
            title: trimmed(self.title),
            status: self.status,
            broker: trimmed(self.broker),
            created_at: now,
            updated_at: now,
        }
    }

    /// How creating opens: with the insert of the row if the trimmed title
    /// and broker name are within bounds; else it is over at once, rejected,
    /// and no statement is ever run.
    pub open spec fn opening(self, now: Seq<char>) -> StepView {
        if self.checked().valid() {
            StepView::Run(StatementView::Insert(self.row(now)))
        } else {
            StepView::Done(Err(AppErrorView::Validation(self.checked().rejection())))
        }
    }
}

impl UpdateTodoInputView {
    /// The changes to make at the time `now`: the supplied title and broker
    /// name trimmed, the supplied status as given, `updated_at` set to `now`.
    pub open spec fn changes(self, now: Seq<char>) -> UpdateTodoView {
        UpdateTodoView {
            title: trimmed_if_some(self.title),
            status: self.status,
            broker: trimmed_if_some(self.broker),
            updated_at: now,
        }
    }

    /// What is wrong with the input, if anything: a supplied title out of
    /// bounds once trimmed, else a supplied broker name out of bounds once
    /// trimmed. Fields that are not supplied are not looked at.
    pub open spec fn complaint(self) -> Option<Seq<char>> {
        if self.title matches Some(title) && !title_in_bounds(trimmed(title)) {
            Some(title_complaint())
        } else if self.broker matches Some(broker) && !broker_in_bounds(trimmed(broker)) {
            Some(broker_complaint())
        } else {
            None
        }
    }

    /// How updating opens: with the update of the row if nothing is wrong
    /// with the input; else it is over at once, rejected, and no statement is
    /// ever run.
    pub open spec fn opening(self, now: Seq<char>) -> StepView {
        match self.complaint() {
            Some(text) => StepView::Done(Err(AppErrorView::Validation(text))),
            None => StepView::Run(StatementView::Update(self.todo_id, self.changes(now))),
        }
    }
}

/// The `LIKE` pattern that finds the titles in which `query` occurs: the
/// escaped query between two `%`.
pub open spec fn search_pattern(query: Seq<char>) -> Seq<char> {
    seq!['%'] + escaped(query) + seq!['%']
}

impl TodoService {
    /// Opens the creation of a todo at the present local time: as
    /// [`TodoService::create_at`] does at a time that has the form of a
    /// timestamp.
    pub fn create(input: CreateTodoInput) -> (step: Step)
        ensures
            exists|now: Seq<char>| is_timestamp(now) && step@ == #[trigger] input@.opening(now),
    {
        let now = timestamp_now();
        Self::create_at(input, now)
    }

    /// Opens the creation of a todo at the time `now`.
    ///
    /// Title and broker name are trimmed, then held to their bounds. If they
    /// pass, the row is to be inserted, and the operation ends with the
    /// newest row of the table. If not, the operation is over and nothing
    /// was written.
    pub fn create_at(input: CreateTodoInput, now: String) -> (step: Step)
        ensures
            step@ == input@.opening(now@),
    {
        let title = trim(input.title.as_str());
        let broker = trim(input.broker.as_str());
        let checked = TodoInput { title: title.clone(), description: None, broker: broker.clone() };
        match checked.validate_and_sanitize() {
            Err(error) => Step::Done(Err(error)),
            Ok(()) => {
                let row = NewTodo {
                    title,
                    status: input.status,
                    broker,
                    created_at: now.clone(),
                    updated_at: now,
                };
                Step::Run(Statement::Insert(row))
            },
        }
    }

    /// Opens the reading of all todos.
    pub fn get_all() -> (step: Step)
        ensures
            step@ == StepView::Run(StatementView::SelectAll),
    {
        Step::Run(Statement::SelectAll)
    }

    /// Opens the change of a todo at the present local time: as
    /// [`TodoService::update_at`] does at a time that has the form of a
    /// timestamp.
    pub fn update(input: UpdateTodoInput) -> (step: Step)
        ensures
            exists|now: Seq<char>| is_timestamp(now) && step@ == #[trigger] input@.opening(now),
    {
        let now = timestamp_now();
        Self::update_at(input, now)
    }

    /// Opens the change of a todo at the time `now`.
    ///
    /// A title or broker name that is supplied is trimmed, then held to its
    /// bounds, the title first. If they pass, the row with the id given is to
    /// be updated: supplied fields are replaced, the others left as they
    /// are, `updated_at` set to `now` in any case; the operation ends with
    /// that row as it then is. If not, the operation is over and nothing was
    /// written.
    pub fn update_at(input: UpdateTodoInput, now: String) -> (step: Step)
        ensures
            step@ == input@.opening(now@),
    {
        let title = match input.title {
            Some(text) => {
                let title = trim(text.as_str());
                if !check_title(title.as_str()) {
                    return Step::Done(
                        Err(AppError::Validation(String::from_str("标题长度必须在 1-500 字符之间"))),
                    );
                }
                Some(title)
            },
            None => None,
        };
        let broker = match input.broker {
            Some(text) => {
                let broker = trim(text.as_str());
                if !check_broker(broker.as_str()) {
                    return Step::Done(
                        Err(AppError::Validation(String::from_str("券商名称长度必须在 1-100 字符之间"))),
                    );
                }
                Some(broker)
            },
            None => None,
        };
        let changes = UpdateTodo { title, status: input.status, broker, updated_at: now };
        Step::Run(Statement::Update(input.todo_id, changes))
    }

    /// Opens the deletion of a todo: the row with the id given is to be
    /// deleted, without looking first whether there is one.
    pub fn delete(input: DeleteTodoInput) -> (step: Step)
        ensures
            step@ == StepView::Run(StatementView::Delete(input.todo_id as int)),
    {
        Step::Run(Statement::Delete(input.todo_id))
    }

    /// Opens the search for the todos in whose title the query occurs: the
    /// query is escaped, so that none of its characters is read as a
    /// wildcard, and put between two `%`.
    pub fn search(input: SearchTodoInput) -> (step: Step)
        ensures
            step@ == StepView::Run(StatementView::SelectTitleLike(search_pattern(input.query@))),
    {
        let mut pattern = String::new();
        pattern.push('%');
        pattern.append(escape_like_pattern(input.query.as_str()).as_str());
        pattern.push('%');
        assert(pattern@ =~= search_pattern(input.query@));
        Step::Run(Statement::SelectTitleLike(pattern))
    }
}

} // verus!
