//! The operations as the user interface invokes them, by name.

use crate::clock::is_timestamp;
use crate::dto::{
    CreateTodoInput, CreateTodoInputView, DeleteTodoInput, GetTodoInput, SearchTodoInput,
    UpdateTodoInput,
};
use crate::services::broker_service::BrokerService;
use crate::services::todo_service::{search_pattern, TodoService};
use crate::store::{Statement, StatementView, Step, StepView};
use vstd::prelude::*;

verus! {

/// Opens the creation of a todo with this title, status and broker name, at
/// the present local time.
pub fn create_todo(title: String, status: String, broker: String) -> (step: Step)
    ensures
        exists|now: Seq<char>|
            is_timestamp(now) && step@ == #[trigger] (CreateTodoInputView {
                title: title@,
                status: status@,
                broker: broker@,
            }).opening(now),
{
    let input = CreateTodoInput { title, status, broker };
    TodoService::create(input)
}

/// Opens the reading of all todos.
pub fn get_todos() -> (step: Step)
    ensures
        step@ == StepView::Run(StatementView::SelectAll),
{
    TodoService::get_all()
}

/// Opens the reading of one todo. The operation ends with the row that has
/// the id given, or with an error if there is none.
pub fn get_todo(input: GetTodoInput) -> (step: Step)
    ensures
        step@ == StepView::Run(StatementView::SelectById(input.todo_id as int)),
{
    Step::Run(Statement::SelectById(input.todo_id))
}

/// Opens the change of a todo, at the present local time.
pub fn update_todo(input: UpdateTodoInput) -> (step: Step)
    ensures
        exists|now: Seq<char>| is_timestamp(now) && step@ == #[trigger] input@.opening(now),
{
    TodoService::update(input)
}

/// Opens the deletion of a todo.
pub fn delete_todo(input: DeleteTodoInput) -> (step: Step)
    ensures
        step@ == StepView::Run(StatementView::Delete(input.todo_id as int)),
{
    TodoService::delete(input)
}

/// Opens the search for the todos in whose title `query` occurs.
pub fn search_todos(query: String) -> (step: Step)
    ensures
        step@ == StepView::Run(StatementView::SelectTitleLike(search_pattern(query@))),
{
    let input = SearchTodoInput { query };
    TodoService::search(input)
}

/// Opens the reading of the broker pool.
pub fn get_broker_pool() -> (step: Step)
    ensures
        step@ == StepView::Run(StatementView::SelectDistinctBrokers),
{
    BrokerService::get_pool()
}

} // verus!
