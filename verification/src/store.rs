//! The conversation between the service and its store.
//!
//! The service never touches the store. An operation is a short exchange:
//! the service names a statement, the caller runs it and reports what the
//! store answered, and the service says what comes next, another statement
//! or the result of the operation.

use crate::error::{AppError, AppErrorView, AppResult};
use crate::models::{NewTodo, NewTodoView, Todo, TodoView, UpdateTodo, UpdateTodoView};
use vstd::prelude::*;
use vstd::string::StringExecFns;

verus! {

/// A statement for the store to run.
#[derive(Debug, PartialEq, Eq)]
pub enum Statement {
    /// Insert the row; the store gives it the next id.
    Insert(NewTodo),
    /// Read the row with the highest id.
    SelectNewest,
    /// Read the row with this id.
    SelectById(i32),
    /// Read every row.
    SelectAll,
    /// Apply the changes to the row with this id, if there is one.
    Update(i32, UpdateTodo),
    /// Delete the row with this id, if there is one.
    Delete(i32),
    /// Read the rows whose title matches this `LIKE` pattern, in which a
    /// backslash escapes the character after it.
    SelectTitleLike(String),
    /// Read the broker names in use, each of them once.
    SelectDistinctBrokers,
}

/// What the store hands back when a statement went through.
#[derive(Debug, PartialEq, Eq)]
pub enum Answer {
    /// The number of rows that a write changed.
    Affected(usize),
    /// The rows that a read found.
    Todos(Vec<Todo>),
    /// The broker names that a read found.
    Brokers(Vec<String>),
}

/// Why a statement did not go through.
#[derive(Debug, PartialEq, Eq)]
pub enum StoreFailure {
    /// The pool gave no connection; the text is the pool's.
    NoConnection(String),
    /// The driver reported an error; the text is the driver's.
    Driver(String),
}

/// What the caller reports after running a statement.
pub type Reply = Result<Answer, StoreFailure>;

/// What an operation hands to its caller when it succeeds.
#[derive(Debug, PartialEq, Eq)]
pub enum Output {
    /// One row.
    Todo(Todo),
    /// Any number of rows.
    Todos(Vec<Todo>),
    /// Broker names.
    Brokers(Vec<String>),
    /// Nothing but the success.
    Nothing,
}

/// Where an operation stands.
#[derive(Debug, PartialEq, Eq)]
pub enum Step {
    /// This statement is to be run, and its reply handed to
    /// [`Statement::resume`].
    Run(Statement),
    /// The operation is over, with this result.
    Done(AppResult<Output>),
}

/// A [`Statement`] as a plain value.
pub enum StatementView {
    Insert(NewTodoView),
    SelectNewest,
    SelectById(int),
    SelectAll,
    Update(int, UpdateTodoView),
    Delete(int),
    SelectTitleLike(Seq<char>),
    SelectDistinctBrokers,
}

/// An [`Answer`] as a plain value.
pub enum AnswerView {
    Affected(nat),
    Todos(Seq<TodoView>),
    Brokers(Seq<Seq<char>>),
}

/// A [`StoreFailure`] as a plain value.
pub enum StoreFailureView {
    NoConnection(Seq<char>),
    Driver(Seq<char>),
}

/// An [`Output`] as a plain value.
pub enum OutputView {
    Todo(TodoView),
    Todos(Seq<TodoView>),
    Brokers(Seq<Seq<char>>),
    Nothing,
}

/// A [`Step`] as a plain value.
pub enum StepView {
    Run(StatementView),
    Done(Result<OutputView, AppErrorView>),
}

impl View for Statement {
    type V = StatementView;

    open spec fn view(&self) -> StatementView {
        match self {
            Statement::Insert(row) => StatementView::Insert(row@),
            Statement::SelectNewest => StatementView::SelectNewest,
            Statement::SelectById(id) => StatementView::SelectById(*id as int),
            Statement::SelectAll => StatementView::SelectAll,
            Statement::Update(id, changes) => StatementView::Update(*id as int, changes@),
            Statement::Delete(id) => StatementView::Delete(*id as int),
            Statement::SelectTitleLike(pattern) => StatementView::SelectTitleLike(pattern@),
            Statement::SelectDistinctBrokers => StatementView::SelectDistinctBrokers,
        }
    }
}

impl View for Answer {
    type V = AnswerView;

    open spec fn view(&self) -> AnswerView {
        match self {
            Answer::Affected(count) => AnswerView::Affected(*count as nat),
            Answer::Todos(rows) => AnswerView::Todos(rows.deep_view()),
            Answer::Brokers(names) => AnswerView::Brokers(names.deep_view()),
        }
    }
}

impl View for StoreFailure {
    type V = StoreFailureView;

    open spec fn view(&self) -> StoreFailureView {
        match self {
            StoreFailure::NoConnection(text) => StoreFailureView::NoConnection(text@),
            StoreFailure::Driver(text) => StoreFailureView::Driver(text@),
        }
    }
}

impl View for Output {
    type V = OutputView;

    open spec fn view(&self) -> OutputView {
        match self {
            Output::Todo(row) => OutputView::Todo(row@),
            Output::Todos(rows) => OutputView::Todos(rows.deep_view()),
            Output::Brokers(names) => OutputView::Brokers(names.deep_view()),
            Output::Nothing => OutputView::Nothing,
        }
    }
}

/// The result of an operation as a plain value.
pub open spec fn result_view(result: AppResult<Output>) -> Result<OutputView, AppErrorView> {
    match result {
        Ok(output) => Ok(output@),
        Err(error) => Err(error@),
    }
}

/// A reply as a plain value.
pub open spec fn reply_view(reply: Reply) -> Result<AnswerView, StoreFailureView> {
    match reply {
        Ok(answer) => Ok(answer@),
        Err(failure) => Err(failure@),
    }
}

impl View for Step {
    type V = StepView;

    open spec fn view(&self) -> StepView {
        match self {
            Step::Run(statement) => StepView::Run(statement@),
            Step::Done(result) => StepView::Done(result_view(*result)),
        }
    }
}

impl StoreFailureView {
    /// The error that the operation ends in when its statement fails: the
    /// kind says where it failed, the text is handed on as it came.
    pub open spec fn as_error(self) -> AppErrorView {
        match self {
            StoreFailureView::NoConnection(text) => AppErrorView::PoolError(text),
            StoreFailureView::Driver(text) => AppErrorView::Database(text),
        }
    }
}

impl AnswerView {
    /// The rows in the answer; an answer of another kind holds none.
    pub open spec fn todos(self) -> Seq<TodoView> {
        match self {
            AnswerView::Todos(rows) => rows,
            _ => Seq::empty(),
        }
    }

    /// The broker names in the answer; an answer of another kind holds none.
    pub open spec fn brokers(self) -> Seq<Seq<char>> {
        match self {
            AnswerView::Brokers(names) => names,
            _ => Seq::empty(),
        }
    }
}

/// What the driver says when a row was asked for and none came back.
pub open spec fn not_found() -> AppErrorView {
    AppErrorView::Database("Record not found"@)
}

impl StatementView {
    /// Whether the statement changes the table.
    pub open spec fn is_write(self) -> bool {
        self is Insert || self is Update || self is Delete
    }

    /// Whether the statement leaves every row with a title and a broker name
    /// within bounds: a row that it inserts is well formed, and so are the
    /// changes that it makes.
    pub open spec fn well_formed(self) -> bool {
        match self {
            StatementView::Insert(row) => row.well_formed(),
            StatementView::Update(_, changes) => changes.well_formed(),
            _ => true,
        }
    }

    /// What follows when the statement went through with `answer`.
    ///
    /// An insert is followed by reading the newest row, an update by reading
    /// the row it was made to, and that row is the result. A delete ends the
    /// operation at once, whatever number of rows it changed. Reading one row
    /// ends with that row, or with an error if none came back. Reading many
    /// rows, or broker names, ends with them as they came.
    pub open spec fn answered(self, answer: AnswerView) -> StepView {
        match self {
            StatementView::Insert(_) => StepView::Run(StatementView::SelectNewest),
            StatementView::Update(id, _) => StepView::Run(StatementView::SelectById(id)),
            StatementView::Delete(_) => StepView::Done(Ok(OutputView::Nothing)),
            StatementView::SelectNewest | StatementView::SelectById(_) => if answer.todos().len()
                > 0 {
                StepView::Done(Ok(OutputView::Todo(answer.todos()[0])))
            } else {
                StepView::Done(Err(not_found()))
            },
            StatementView::SelectAll | StatementView::SelectTitleLike(_) => StepView::Done(
                Ok(OutputView::Todos(answer.todos())),
            ),
            StatementView::SelectDistinctBrokers => StepView::Done(
                Ok(OutputView::Brokers(answer.brokers())),
            ),
        }
    }

    /// What follows the statement once the caller reports `reply`: a failure
    /// ends the operation with the matching error, whatever the statement.
    pub open spec fn resumed(self, reply: Result<AnswerView, StoreFailureView>) -> StepView {
        match reply {
            Ok(answer) => self.answered(answer),
            Err(failure) => StepView::Done(Err(failure.as_error())),
        }
    }
}

impl StepView {
    /// Where the operation stands after the replies `replies`, each given to
    /// the statement that was then to be run; replies that come after the
    /// operation is over are not looked at.
    pub open spec fn after(self, replies: Seq<Result<AnswerView, StoreFailureView>>) -> StepView
        decreases replies.len(),
    {
        match self {
            StepView::Run(statement) if replies.len() > 0 => statement.resumed(replies[0]).after(
                replies.drop_first(),
            ),
            _ => self,
        }
    }
}

/// The rows in `answer`, taken out of it.
fn rows_of(answer: Answer) -> (rows: Vec<Todo>)
    ensures
        rows.deep_view() == answer@.todos(),
{
    match answer {
        Answer::Todos(rows) => rows,
        _ => Vec::new(),
    }
}

/// The broker names in `answer`, taken out of it.
fn names_of(answer: Answer) -> (names: Vec<String>)
    ensures
        names.deep_view() == answer@.brokers(),
{
    match answer {
        Answer::Brokers(names) => names,
        _ => Vec::new(),
    }
}

impl StoreFailure {
    /// The error that an operation ends in when its statement fails.
    pub fn into_error(self) -> (error: AppError)
        ensures
            error@ == self@.as_error(),
    {
        match self {
            StoreFailure::NoConnection(text) => AppError::PoolError(text),
            StoreFailure::Driver(text) => AppError::Database(text),
        }
    }
}

impl Statement {
    /// Says what follows this statement, given what the store replied to it.
    pub fn resume(self, reply: Reply) -> (step: Step)
        ensures
            step@ == self@.resumed(reply_view(reply)),
    {
        let answer = match reply {
            Ok(answer) => answer,
            Err(failure) => { return Step::Done(Err(failure.into_error())); },
        };
        match self {
            Statement::Insert(_) => Step::Run(Statement::SelectNewest),
            Statement::Update(id, _) => Step::Run(Statement::SelectById(id)),
            Statement::Delete(_) => Step::Done(Ok(Output::Nothing)),
            Statement::SelectNewest | Statement::SelectById(_) => {
                let mut rows = rows_of(answer);
                if rows.len() > 0 {
                    let row = rows.remove(0);
                    Step::Done(Ok(Output::Todo(row)))
                } else {
                    Step::Done(Err(AppError::Database(String::from_str("Record not found"))))
                }
            },
            Statement::SelectAll | Statement::SelectTitleLike(_) => Step::Done(
                Ok(Output::Todos(rows_of(answer))),
            ),
            Statement::SelectDistinctBrokers => Step::Done(Ok(Output::Brokers(names_of(answer)))),
        }
    }
}

} // verus!
