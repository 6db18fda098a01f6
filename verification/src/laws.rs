//! What holds of the operations when the store behaves as the table says.

use crate::dto::{CreateTodoInputView, UpdateTodoInputView};
use crate::error::AppErrorView;
use crate::like::{has_no_nul, law_search_pattern_finds_occurrences, occurs_in, until_nul};
use crate::models::TodoView;
use crate::services::todo_service::search_pattern;
use crate::store::{
    not_found, AnswerView, OutputView, StatementView, StepView, StoreFailureView,
};
use crate::table::Table;
use crate::text::trimmed;
use crate::validation::{broker_in_bounds, title_in_bounds};
use vstd::prelude::*;

verus! {

/// Every statement that an operation names is well formed: the first one,
/// and the one that follows it.
pub proof fn law_operations_name_well_formed_statements(
    create: CreateTodoInputView,
    update: UpdateTodoInputView,
    now: Seq<char>,
    statement: StatementView,
    reply: Result<AnswerView, StoreFailureView>,
)
    ensures
        create.opening(now) matches StepView::Run(first) ==> first == StatementView::Insert(
            create.row(now),
        ) && first.well_formed(),
        update.opening(now) matches StepView::Run(first) ==> first == StatementView::Update(
            update.todo_id,
            update.changes(now),
        ) && first.well_formed(),
        statement.resumed(reply) matches StepView::Run(next) ==> next.well_formed(),
{
}

/// A well-formed statement keeps the table well formed: at all times every
/// row has a title and a broker name that are not empty and within bounds,
/// and no statement changes the id of a row or the time of its creation.
pub proof fn law_statements_keep_the_table_well_formed(
    table: Table,
    statement: StatementView,
    next_id: int,
)
    requires
        table.well_formed(),
        statement.well_formed(),
        table.is_above_all(next_id),
    ensures
        table.after(statement, next_id).well_formed(),
        forall|id: int|
            table.rows.dom().contains(id) && #[trigger] table.after(
                statement,
                next_id,
            ).rows.dom().contains(id) ==> table.after(statement, next_id).rows[id].created_at
                == table.rows[id].created_at,
{
}

/// Creating with a title and a broker name that are within bounds once
/// trimmed succeeds: the row is inserted, read back as the newest, and
/// returned, and its title and broker name are those of the input, trimmed.
pub proof fn law_create_returns_the_row_it_wrote(
    table: Table,
    input: CreateTodoInputView,
    now: Seq<char>,
    id: int,
    inserted: AnswerView,
    newest: AnswerView,
)
    requires
        table.well_formed(),
        title_in_bounds(trimmed(input.title)),
        broker_in_bounds(trimmed(input.broker)),
        table.is_above_all(id),
        table.inserted(input.row(now), id).may_answer(StatementView::SelectNewest, newest),
    ensures
        input.opening(now).after(seq![Ok(inserted), Ok(newest)]) == StepView::Done(
            Ok(OutputView::Todo(input.row(now).stored_as(id))),
        ),
        input.row(now).stored_as(id).title == trimmed(input.title),
        input.row(now).stored_as(id).broker == trimmed(input.broker),
        input.row(now).stored_as(id).status == input.status,
        input.row(now).stored_as(id).created_at == now,
        input.row(now).stored_as(id).updated_at == now,
        table.inserted(input.row(now), id).holds(input.row(now).stored_as(id)),
        table.inserted(input.row(now), id).well_formed(),
{
    let grown = table.inserted(input.row(now), id);
    assert(grown.rows.dom().contains(id));
    reveal_with_fuel(StepView::after, 3);
}

/// Creating with a title or a broker name that is empty or too long once
/// trimmed fails validation, and no statement is run, whatever is replied:
/// nothing is written.
pub proof fn law_rejected_create_writes_nothing(
    input: CreateTodoInputView,
    now: Seq<char>,
    replies: Seq<Result<AnswerView, StoreFailureView>>,
)
    requires
        !title_in_bounds(trimmed(input.title)) || !broker_in_bounds(trimmed(input.broker)),
    ensures
        input.opening(now) == StepView::Done(
            Err(AppErrorView::Validation(input.checked().rejection())),
        ),
        input.opening(now).after(replies) == input.opening(now),
{
}

/// Changes that updating makes keep a row well formed, and leave its id and
/// the time of its creation as they are.
pub proof fn law_update_keeps_rows_well_formed(
    input: UpdateTodoInputView,
    now: Seq<char>,
    row: TodoView,
)
    requires
        row.well_formed(),
        input.complaint() is None,
    ensures
        input.opening(now) == StepView::Run(
            StatementView::Update(input.todo_id, input.changes(now)),
        ),
        input.changes(now).well_formed(),
        input.changes(now).applied_to(row).well_formed(),
        input.changes(now).applied_to(row).id == row.id,
        input.changes(now).applied_to(row).created_at == row.created_at,
        input.changes(now).applied_to(row).updated_at == now,
{
}

/// Updating the status alone leaves title and broker name as they were and
/// sets `updated_at`: the row is returned as it then stands in the table.
pub proof fn law_update_of_status_alone(
    table: Table,
    id: int,
    status: Seq<char>,
    now: Seq<char>,
    updated: AnswerView,
    read: AnswerView,
)
    requires
        table.well_formed(),
        table.rows.dom().contains(id),
        ({
            let input = UpdateTodoInputView {
                todo_id: id,
                title: None,
                status: Some(status),
                broker: None,
            };
            table.updated(id, input.changes(now)).may_answer(StatementView::SelectById(id), read)
        }),
    ensures
        ({
            let input = UpdateTodoInputView {
                todo_id: id,
                title: None,
                status: Some(status),
                broker: None,
            };
            let before = table.rows[id];
            let changed = table.updated(id, input.changes(now));
            let row = changed.rows[id];
            &&& input.opening(now).after(seq![Ok(updated), Ok(read)]) == StepView::Done(
                Ok(OutputView::Todo(row)),
            )
            &&& row.title == before.title
            &&& row.broker == before.broker
            &&& row.status == status
            &&& row.updated_at == now
            &&& row.created_at == before.created_at
            &&& row.id == id
            &&& changed.well_formed()
            &&& forall|other: int|
                other != id ==> (#[trigger] changed.rows.dom().contains(other)
                    <==> table.rows.dom().contains(other))
            &&& forall|other: int|
                other != id && table.rows.dom().contains(other) ==> #[trigger] changed.rows[other]
                    == table.rows[other]
        }),
{
    let input = UpdateTodoInputView { todo_id: id, title: None, status: Some(status), broker: None };
    let changed = table.updated(id, input.changes(now));
    let row = changed.rows[id];
    let found = read.todos();
    assert(found.contains(row));
    assert forall|i: int| 0 <= i < found.len() implies found[i] == row by {
        assert(found.contains(found[i]));
    }
    assert(found.len() == 1) by {
        if found.len() > 1 {
            assert(found[0] == found[1]);
        }
    }
    reveal_with_fuel(StepView::after, 3);
}

/// Reading a row by an id that no row has ends in an error, not in an
/// empty result.
pub proof fn law_reading_a_missing_row_is_an_error(table: Table, id: int, answer: AnswerView)
    requires
        !table.rows.dom().contains(id),
        table.may_answer(StatementView::SelectById(id), answer),
    ensures
        StepView::Run(StatementView::SelectById(id)).after(seq![Ok(answer)]) == StepView::Done(
            Err(not_found()),
        ),
{
    let found = answer.todos();
    if found.len() > 0 {
        assert(found.contains(found[0]));
    }
    reveal_with_fuel(StepView::after, 2);
}

/// Reading all todos returns every row of the table, each once.
pub proof fn law_get_all_lists_every_row(table: Table, answer: AnswerView)
    requires
        table.may_answer(StatementView::SelectAll, answer),
    ensures
        StepView::Run(StatementView::SelectAll).after(seq![Ok(answer)]) == StepView::Done(
            Ok(OutputView::Todos(answer.todos())),
        ),
        answer.todos().no_duplicates(),
        forall|row: TodoView| #[trigger] answer.todos().contains(row) <==> table.holds(row),
{
    reveal_with_fuel(StepView::after, 2);
}

/// Deleting an id that no row has succeeds, changes no row, and leaves the
/// table as it was.
pub proof fn law_delete_of_absent_id(table: Table, id: int, answer: AnswerView)
    requires
        !table.rows.dom().contains(id),
        table.may_answer(StatementView::Delete(id), answer),
    ensures
        answer == AnswerView::Affected(0),
        table.deleted(id) == table,
        StepView::Run(StatementView::Delete(id)).after(seq![Ok(answer)]) == StepView::Done(
            Ok(OutputView::Nothing),
        ),
{
    assert(table.rows.remove(id) == table.rows);
    reveal_with_fuel(StepView::after, 2);
}

/// Deleting succeeds whatever number of rows the store reports, and
/// afterwards no row has the id; the other rows are as they were.
pub proof fn law_delete_removes_the_row(table: Table, id: int, answer: AnswerView)
    requires
        table.well_formed(),
    ensures
        StepView::Run(StatementView::Delete(id)).after(seq![Ok(answer)]) == StepView::Done(
            Ok(OutputView::Nothing),
        ),
        !table.deleted(id).rows.dom().contains(id),
        table.deleted(id).well_formed(),
        forall|row: TodoView| row.id != id ==> (table.deleted(id).holds(row) <==> table.holds(row)),
{
    reveal_with_fuel(StepView::after, 2);
}

/// The broker pool names each broker in use exactly once, however many
/// todos share it, and names no other.
pub proof fn law_broker_pool_names_each_broker_once(table: Table, answer: AnswerView)
    requires
        table.may_answer(StatementView::SelectDistinctBrokers, answer),
    ensures
        StepView::Run(StatementView::SelectDistinctBrokers).after(seq![Ok(answer)])
            == StepView::Done(Ok(OutputView::Brokers(answer.brokers()))),
        answer.brokers().no_duplicates(),
        forall|name: Seq<char>| #[trigger]
            answer.brokers().contains(name) <==> table.uses_broker(name),
        forall|row: TodoView| table.holds(row) ==> answer.brokers().contains(row.broker),
{
    reveal_with_fuel(StepView::after, 2);
    assert forall|row: TodoView| table.holds(row) implies answer.brokers().contains(
        row.broker,
    ) by {
        assert(table.uses_broker(row.broker));
    }
}

/// A search returns the rows in whose title the query occurs, and no other:
/// a `%`, a `_` or a backslash in the query is looked for as it is written.
/// The query must hold no U+0000, and a title is looked at up to its first
/// U+0000, as the store reads them.
pub proof fn law_search_finds_titles_holding_the_query(
    table: Table,
    query: Seq<char>,
    answer: AnswerView,
)
    requires
        has_no_nul(query),
        table.may_answer(StatementView::SelectTitleLike(search_pattern(query)), answer),
    ensures
        StepView::Run(StatementView::SelectTitleLike(search_pattern(query))).after(
            seq![Ok(answer)],
        ) == StepView::Done(Ok(OutputView::Todos(answer.todos()))),
        forall|row: TodoView| #[trigger]
            answer.todos().contains(row) <==> table.holds(row) && occurs_in(
                query,
                until_nul(row.title),
            ),
{
    reveal_with_fuel(StepView::after, 2);
    assert forall|row: TodoView| #[trigger]
        answer.todos().contains(row) <==> table.holds(row) && occurs_in(
            query,
            until_nul(row.title),
        ) by {
        law_search_pattern_finds_occurrences(query, row.title);
    }
}

/// An operation is over after two replies at most, and after the first if
/// it opened with a read or a delete.
pub proof fn law_operations_end(
    statement: StatementView,
    first: Result<AnswerView, StoreFailureView>,
    second: Result<AnswerView, StoreFailureView>,
)
    ensures
        StepView::Run(statement).after(seq![first, second]) is Done,
        !(statement is Insert || statement is Update) ==> StepView::Run(statement).after(
            seq![first],
        ) is Done,
        statement.resumed(first) matches StepView::Run(next) ==> !next.is_write(),
{
    reveal_with_fuel(StepView::after, 3);
}

/// A statement that fails ends the operation with the failure's own text: a
/// missing connection as a pool error, an error of the driver as a database
/// error.
pub proof fn law_failures_end_the_operation(statement: StatementView, failure: StoreFailureView)
    ensures
        StepView::Run(statement).after(seq![Err(failure)]) == StepView::Done(
            Err(failure.as_error()),
        ),
{
    reveal_with_fuel(StepView::after, 2);
}

} // verus!
