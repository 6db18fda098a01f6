//! The table that the statements are written for.
//!
//! The store is not part of this crate, and nothing here is run. These
//! definitions say how the service reads its own statements: what each does
//! to the table and which answers it may bring. The laws of the service are
//! stated over them, and hold of every store that behaves so.

use crate::like::like_matches;
use crate::models::{NewTodoView, TodoView, UpdateTodoView};
use crate::store::{AnswerView, StatementView};
use vstd::prelude::*;

verus! {

/// The rows of the table, each under its id.
pub struct Table {
    pub rows: Map<int, TodoView>,
}

impl Table {
    /// Whether `row` is in the table.
    pub open spec fn holds(self, row: TodoView) -> bool {
        self.rows.dom().contains(row.id) && self.rows[row.id] == row
    }

    /// What holds of the table at all times: a row stands under its own id,
    /// and has a title and a broker name within bounds.
    pub open spec fn well_formed(self) -> bool {
        forall|id: int| #[trigger]
            self.rows.dom().contains(id) ==> self.rows[id].id == id && self.rows[id].well_formed()
    }

    /// Whether `id` is higher than every id in use, as the id is that the
    /// store gives to a new row.
    pub open spec fn is_above_all(self, id: int) -> bool {
        forall|other: int| #[trigger] self.rows.dom().contains(other) ==> other < id
    }

    /// The table with `row` inserted under `id`.
    pub open spec fn inserted(self, row: NewTodoView, id: int) -> Table {
        Table { rows: self.rows.insert(id, row.stored_as(id)) }
    }

    /// The table with `changes` made to the row under `id`; the same table
    /// if there is no such row.
    pub open spec fn updated(self, id: int, changes: UpdateTodoView) -> Table {
        if self.rows.dom().contains(id) {
            Table { rows: self.rows.insert(id, changes.applied_to(self.rows[id])) }
        } else {
            self
        }
    }

    /// The table without the row under `id`; the same table if there is no
    /// such row.
    pub open spec fn deleted(self, id: int) -> Table {
        Table { rows: self.rows.remove(id) }
    }

    /// The table once `statement` went through; `next_id` is the id that the
    /// store gives a row that is inserted. Reading changes nothing.
    pub open spec fn after(self, statement: StatementView, next_id: int) -> Table {
        match statement {
            StatementView::Insert(row) => self.inserted(row, next_id),
            StatementView::Update(id, changes) => self.updated(id, changes),
            StatementView::Delete(id) => self.deleted(id),
            _ => self,
        }
    }

    /// The number of rows that a write to the row under `id` changes.
    pub open spec fn affected(self, id: int) -> nat {
        if self.rows.dom().contains(id) {
            1
        } else {
            0
        }
    }

    /// Whether `found` lists the rows of the table that are `wanted`, each of
    /// them once, in whatever order.
    pub open spec fn lists(self, found: Seq<TodoView>, wanted: spec_fn(TodoView) -> bool) -> bool {
        &&& found.no_duplicates()
        &&& forall|row: TodoView| #[trigger] found.contains(row) <==> self.holds(row) && wanted(row)
    }

    /// Whether `found` is what reading the newest row brings: the row with
    /// the highest id, or nothing from an empty table.
    pub open spec fn lists_newest(self, found: Seq<TodoView>) -> bool {
        if found.len() == 0 {
            forall|id: int| !self.rows.dom().contains(id)
        } else {
            &&& found.len() == 1
            &&& self.holds(found[0])
            &&& forall|id: int| #[trigger] self.rows.dom().contains(id) ==> id <= found[0].id
        }
    }

    /// Whether some row has the broker name `name`.
    pub open spec fn uses_broker(self, name: Seq<char>) -> bool {
        exists|id: int| self.rows.dom().contains(id) && (#[trigger] self.rows[id]).broker == name
    }

    /// Whether `names` lists the broker names in use, each of them once, in
    /// whatever order.
    pub open spec fn lists_brokers(self, names: Seq<Seq<char>>) -> bool {
        &&& names.no_duplicates()
        &&& forall|name: Seq<char>| #[trigger] names.contains(name) <==> self.uses_broker(name)
    }

    /// Whether the store may give `answer` when it runs `statement` on this
    /// table.
    pub open spec fn may_answer(self, statement: StatementView, answer: AnswerView) -> bool {
        match statement {
            StatementView::Insert(_) => answer == AnswerView::Affected(1),
            StatementView::Update(id, _) => answer == AnswerView::Affected(self.affected(id)),
            StatementView::Delete(id) => answer == AnswerView::Affected(self.affected(id)),
            StatementView::SelectNewest => answer is Todos && self.lists_newest(answer.todos()),
            StatementView::SelectById(id) => answer is Todos && self.lists(
                answer.todos(),
                |row: TodoView| row.id == id,
            ),
            StatementView::SelectAll => answer is Todos && self.lists(
                answer.todos(),
                |row: TodoView| true,
            ),
            StatementView::SelectTitleLike(pattern) => answer is Todos && self.lists(
                answer.todos(),
                |row: TodoView| like_matches(pattern, row.title),
            ),
            StatementView::SelectDistinctBrokers => answer is Brokers && self.lists_brokers(
                answer.brokers(),
            ),
        }
    }
}

} // verus!
