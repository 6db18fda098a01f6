use todo_core::dto::{
    CreateTodoInput, DeleteTodoInput, GetTodoInput, SearchTodoInput, UpdateTodoInput,
};
use todo_core::error::AppError;
use todo_core::handlers::{
    create_todo, delete_todo, get_broker_pool, get_todo, get_todos, search_todos, update_todo,
};
use todo_core::models::{NewTodo, Todo, UpdateTodo};
use todo_core::services::broker_service::BrokerService;
use todo_core::services::todo_service::TodoService;
use todo_core::store::{Answer, Output, Statement, Step, StoreFailure};

const NOW: &str = "2024-05-06 07:08:09";

fn row(id: i32, title: &str, status: &str, broker: &str) -> Todo {
    Todo {
        id,
        title: title.to_string(),
        status: status.to_string(),
        broker: broker.to_string(),
        created_at: "2024-01-01 00:00:00".to_string(),
        updated_at: "2024-01-01 00:00:00".to_string(),
    }
}

fn create_input(title: &str, status: &str, broker: &str) -> CreateTodoInput {
    CreateTodoInput {
        title: title.to_string(),
        status: status.to_string(),
        broker: broker.to_string(),
    }
}

fn statement_of(step: Step) -> Statement {
    match step {
        Step::Run(statement) => statement,
        other => panic!("{:?}", other),
    }
}

fn validation_error(text: &str) -> Step {
    Step::Done(Err(AppError::Validation(text.to_string())))
}

fn is_timestamp(text: &str) -> bool {
    let bytes = text.as_bytes();
    bytes.len() == 19
        && bytes.iter().enumerate().all(|(at, byte)| match at {
            4 | 7 => *byte == b'-',
            10 => *byte == b' ',
            13 | 16 => *byte == b':',
            _ => byte.is_ascii_digit(),
        })
}

#[test]
fn create_within_bounds_inserts_the_trimmed_row_and_returns_the_newest() {
    let step = TodoService::create_at(
        create_input("  Buy milk \n", "pending", "\tBroker A "),
        NOW.to_string(),
    );
    let insert = statement_of(step);
    assert_eq!(
        insert,
        Statement::Insert(NewTodo {
            title: "Buy milk".to_string(),
            status: "pending".to_string(),
            broker: "Broker A".to_string(),
            created_at: NOW.to_string(),
            updated_at: NOW.to_string(),
        })
    );
    let read = statement_of(insert.resume(Ok(Answer::Affected(1))));
    assert_eq!(read, Statement::SelectNewest);
    let stored = Todo {
        id: 7,
        title: "Buy milk".to_string(),
        status: "pending".to_string(),
        broker: "Broker A".to_string(),
        created_at: NOW.to_string(),
        updated_at: NOW.to_string(),
    };
    let done = read.resume(Ok(Answer::Todos(vec![stored.clone()])));
    assert_eq!(done, Step::Done(Ok(Output::Todo(stored))));
}

#[test]
fn create_at_the_bounds_succeeds() {
    let step = TodoService::create_at(
        create_input(&format!(" {} ", "标".repeat(500)), "", &"b".repeat(100)),
        NOW.to_string(),
    );
    match statement_of(step) {
        Statement::Insert(row) => {
            assert_eq!(row.title, "标".repeat(500));
            assert_eq!(row.status, "");
            assert_eq!(row.broker, "b".repeat(100));
        }
        other => panic!("{:?}", other),
    }
}

#[test]
fn create_out_of_bounds_fails_validation_and_runs_no_statement() {
    let title = "输入验证失败: title: 标题长度必须在 1-500 字符之间";
    let broker = "输入验证失败: broker: 券商名称长度必须在 1-100 字符之间";
    let both = format!("{title}\nbroker: 券商名称长度必须在 1-100 字符之间");
    let at = |title: &str, broker: &str| {
        TodoService::create_at(create_input(title, "pending", broker), NOW.to_string())
    };
    assert_eq!(at("", "Broker A"), validation_error(title));
    assert_eq!(at(" \t ", "Broker A"), validation_error(title));
    assert_eq!(at(&"t".repeat(501), "Broker A"), validation_error(title));
    assert_eq!(at("Buy milk", ""), validation_error(broker));
    assert_eq!(at("Buy milk", "\u{3000}"), validation_error(broker));
    assert_eq!(at("Buy milk", &"b".repeat(101)), validation_error(broker));
    assert_eq!(at("", ""), validation_error(&both));
}

#[test]
fn create_stamps_the_row_with_the_local_time() {
    match statement_of(TodoService::create(create_input("Buy milk", "pending", "Broker A"))) {
        Statement::Insert(row) => {
            assert_eq!(row.title, "Buy milk");
            assert_eq!(row.created_at, row.updated_at);
            assert!(is_timestamp(&row.created_at), "{}", row.created_at);
        }
        other => panic!("{:?}", other),
    }
    assert_eq!(
        TodoService::create(create_input("", "pending", "Broker A")),
        validation_error("输入验证失败: title: 标题长度必须在 1-500 字符之间")
    );
}

#[test]
fn update_of_status_alone_leaves_title_and_broker_and_sets_updated_at() {
    let input = UpdateTodoInput {
        todo_id: 3,
        title: None,
        status: Some("done".to_string()),
        broker: None,
    };
    let update = statement_of(TodoService::update_at(input, NOW.to_string()));
    assert_eq!(
        update,
        Statement::Update(
            3,
            UpdateTodo {
                title: None,
                status: Some("done".to_string()),
                broker: None,
                updated_at: NOW.to_string(),
            }
        )
    );
    let read = statement_of(update.resume(Ok(Answer::Affected(1))));
    assert_eq!(read, Statement::SelectById(3));
    let mut stored = row(3, "Buy milk", "done", "Broker A");
    stored.updated_at = NOW.to_string();
    let done = read.resume(Ok(Answer::Todos(vec![stored.clone()])));
    assert_eq!(done, Step::Done(Ok(Output::Todo(stored))));
}

#[test]
fn update_without_fields_still_sets_updated_at() {
    let input = UpdateTodoInput { todo_id: 3, title: None, status: None, broker: None };
    assert_eq!(
        TodoService::update_at(input, NOW.to_string()),
        Step::Run(Statement::Update(
            3,
            UpdateTodo { title: None, status: None, broker: None, updated_at: NOW.to_string() }
        ))
    );
}

#[test]
fn update_trims_the_fields_it_is_given() {
    let input = UpdateTodoInput {
        todo_id: -1,
        title: Some(" Sell \n".to_string()),
        status: Some(" open ".to_string()),
        broker: Some("\tBroker B".to_string()),
    };
    assert_eq!(
        TodoService::update_at(input, NOW.to_string()),
        Step::Run(Statement::Update(
            -1,
            UpdateTodo {
                title: Some("Sell".to_string()),
                status: Some(" open ".to_string()),
                broker: Some("Broker B".to_string()),
                updated_at: NOW.to_string(),
            }
        ))
    );
}

#[test]
fn update_out_of_bounds_fails_validation_and_runs_no_statement() {
    let title = "标题长度必须在 1-500 字符之间";
    let broker = "券商名称长度必须在 1-100 字符之间";
    let at = |title: Option<&str>, broker: Option<&str>| {
        TodoService::update_at(
            UpdateTodoInput {
                todo_id: 3,
                title: title.map(str::to_string),
                status: None,
                broker: broker.map(str::to_string),
            },
            NOW.to_string(),
        )
    };
    assert_eq!(at(Some(""), None), validation_error(title));
    assert_eq!(at(Some("   "), None), validation_error(title));
    assert_eq!(at(Some(&"t".repeat(501)), None), validation_error(title));
    assert_eq!(at(None, Some("")), validation_error(broker));
    assert_eq!(at(None, Some(&"b".repeat(101))), validation_error(broker));
    assert_eq!(at(Some(""), Some("")), validation_error(title));
    assert_eq!(at(Some("ok"), Some("")), validation_error(broker));
    assert!(matches!(at(Some(&"标".repeat(500)), Some(&"券".repeat(100))), Step::Run(_)));
}

#[test]
fn update_stamps_the_changes_with_the_local_time() {
    let input = UpdateTodoInput {
        todo_id: 3,
        title: None,
        status: Some("done".to_string()),
        broker: None,
    };
    match statement_of(TodoService::update(input)) {
        Statement::Update(id, changes) => {
            assert_eq!(id, 3);
            assert_eq!(changes.title, None);
            assert_eq!(changes.status, Some("done".to_string()));
            assert_eq!(changes.broker, None);
            assert!(is_timestamp(&changes.updated_at), "{}", changes.updated_at);
        }
        other => panic!("{:?}", other),
    }
}

#[test]
fn update_of_a_missing_row_ends_with_not_found() {
    let input = UpdateTodoInput {
        todo_id: 404,
        title: None,
        status: Some("done".to_string()),
        broker: None,
    };
    let update = statement_of(TodoService::update_at(input, NOW.to_string()));
    let read = statement_of(update.resume(Ok(Answer::Affected(0))));
    assert_eq!(read, Statement::SelectById(404));
    assert_eq!(
        read.resume(Ok(Answer::Todos(vec![]))),
        Step::Done(Err(AppError::Database("Record not found".to_string())))
    );
}

#[test]
fn search_for_a_percent_sign_looks_for_the_sign_itself() {
    let step = TodoService::search(SearchTodoInput { query: "100%".to_string() });
    let search = statement_of(step);
    assert_eq!(search, Statement::SelectTitleLike("%100\\%%".to_string()));
    let found = vec![row(2, "reached 100% today", "done", "Broker A")];
    assert_eq!(
        search.resume(Ok(Answer::Todos(found.clone()))),
        Step::Done(Ok(Output::Todos(found)))
    );
}

#[test]
fn search_escapes_every_special_character() {
    let pattern = |query: &str| {
        match statement_of(TodoService::search(SearchTodoInput { query: query.to_string() })) {
            Statement::SelectTitleLike(pattern) => pattern,
            other => panic!("{:?}", other),
        }
    };
    assert_eq!(pattern(""), "%%");
    assert_eq!(pattern("milk"), "%milk%");
    assert_eq!(pattern("a_b"), "%a\\_b%");
    assert_eq!(pattern("\\"), "%\\\\%");
    assert_eq!(pattern("%"), "%\\%%");
    assert_eq!(pattern(" 券商 "), "% 券商 %");
}

#[test]
fn delete_of_a_missing_id_succeeds() {
    let delete = statement_of(TodoService::delete(DeleteTodoInput { todo_id: 404 }));
    assert_eq!(delete, Statement::Delete(404));
    assert_eq!(delete.resume(Ok(Answer::Affected(0))), Step::Done(Ok(Output::Nothing)));
}

#[test]
fn delete_of_a_row_succeeds() {
    let delete = statement_of(TodoService::delete(DeleteTodoInput { todo_id: 5 }));
    assert_eq!(delete.resume(Ok(Answer::Affected(1))), Step::Done(Ok(Output::Nothing)));
}

#[test]
fn broker_pool_hands_on_the_distinct_names() {
    let read = statement_of(BrokerService::get_pool());
    assert_eq!(read, Statement::SelectDistinctBrokers);
    let names = vec!["Broker A".to_string(), "Broker B".to_string()];
    assert_eq!(
        read.resume(Ok(Answer::Brokers(names.clone()))),
        Step::Done(Ok(Output::Brokers(names)))
    );
    assert_eq!(
        Statement::SelectDistinctBrokers.resume(Ok(Answer::Brokers(vec![]))),
        Step::Done(Ok(Output::Brokers(vec![])))
    );
}

#[test]
fn get_all_hands_on_the_rows() {
    let read = statement_of(TodoService::get_all());
    assert_eq!(read, Statement::SelectAll);
    let rows = vec![row(1, "a", "open", "x"), row(2, "b", "done", "x")];
    assert_eq!(read.resume(Ok(Answer::Todos(rows.clone()))), Step::Done(Ok(Output::Todos(rows))));
    assert_eq!(
        Statement::SelectAll.resume(Ok(Answer::Todos(vec![]))),
        Step::Done(Ok(Output::Todos(vec![])))
    );
}

#[test]
fn reading_one_row_takes_the_first_that_came() {
    let rows = vec![row(9, "newest", "open", "x"), row(8, "older", "open", "x")];
    assert_eq!(
        Statement::SelectNewest.resume(Ok(Answer::Todos(rows))),
        Step::Done(Ok(Output::Todo(row(9, "newest", "open", "x"))))
    );
}

#[test]
fn reading_one_row_that_is_missing_is_an_error() {
    let not_found = || Step::Done(Err(AppError::Database("Record not found".to_string())));
    assert_eq!(Statement::SelectById(1).resume(Ok(Answer::Todos(vec![]))), not_found());
    assert_eq!(Statement::SelectNewest.resume(Ok(Answer::Todos(vec![]))), not_found());
    assert_eq!(Statement::SelectById(1).resume(Ok(Answer::Affected(0))), not_found());
}

#[test]
fn an_answer_of_another_kind_holds_nothing() {
    assert_eq!(
        Statement::SelectAll.resume(Ok(Answer::Brokers(vec!["x".to_string()]))),
        Step::Done(Ok(Output::Todos(vec![])))
    );
    assert_eq!(
        Statement::SelectDistinctBrokers.resume(Ok(Answer::Affected(3))),
        Step::Done(Ok(Output::Brokers(vec![])))
    );
}

#[test]
fn a_failed_statement_ends_the_operation_with_its_error() {
    let statements = || {
        vec![
            Statement::Insert(NewTodo {
                title: "t".to_string(),
                status: "s".to_string(),
                broker: "b".to_string(),
                created_at: NOW.to_string(),
                updated_at: NOW.to_string(),
            }),
            Statement::SelectNewest,
            Statement::SelectById(1),
            Statement::SelectAll,
            Statement::Update(
                1,
                UpdateTodo { title: None, status: None, broker: None, updated_at: NOW.to_string() },
            ),
            Statement::Delete(1),
            Statement::SelectTitleLike("%x%".to_string()),
            Statement::SelectDistinctBrokers,
        ]
    };
    for statement in statements() {
        assert_eq!(
            statement.resume(Err(StoreFailure::NoConnection("timed out".to_string()))),
            Step::Done(Err(AppError::PoolError("timed out".to_string())))
        );
    }
    for statement in statements() {
        assert_eq!(
            statement.resume(Err(StoreFailure::Driver("database is locked".to_string()))),
            Step::Done(Err(AppError::Database("database is locked".to_string())))
        );
    }
}

#[test]
fn commands_open_the_operations_of_the_services() {
    assert_eq!(get_todos(), Step::Run(Statement::SelectAll));
    assert_eq!(get_todo(GetTodoInput { todo_id: 12 }), Step::Run(Statement::SelectById(12)));
    assert_eq!(delete_todo(DeleteTodoInput { todo_id: 12 }), Step::Run(Statement::Delete(12)));
    assert_eq!(
        search_todos("50%_".to_string()),
        Step::Run(Statement::SelectTitleLike("%50\\%\\_%".to_string()))
    );
    assert_eq!(get_broker_pool(), Step::Run(Statement::SelectDistinctBrokers));
    match statement_of(create_todo(" a ".to_string(), "open".to_string(), " b ".to_string())) {
        Statement::Insert(row) => {
            assert_eq!(row.title, "a");
            assert_eq!(row.status, "open");
            assert_eq!(row.broker, "b");
            assert_eq!(row.created_at, row.updated_at);
            assert!(is_timestamp(&row.created_at));
        }
        other => panic!("{:?}", other),
    }
    assert_eq!(
        create_todo("a".to_string(), "open".to_string(), " ".to_string()),
        validation_error("输入验证失败: broker: 券商名称长度必须在 1-100 字符之间")
    );
    let input = UpdateTodoInput {
        todo_id: 4,
        title: Some(" renamed ".to_string()),
        status: None,
        broker: None,
    };
    match statement_of(update_todo(input)) {
        Statement::Update(id, changes) => {
            assert_eq!(id, 4);
            assert_eq!(changes.title, Some("renamed".to_string()));
            assert_eq!(changes.status, None);
            assert_eq!(changes.broker, None);
            assert!(is_timestamp(&changes.updated_at));
        }
        other => panic!("{:?}", other),
    }
    let input = UpdateTodoInput { todo_id: 4, title: Some(String::new()), status: None, broker: None };
    assert_eq!(update_todo(input), validation_error("标题长度必须在 1-500 字符之间"));
}
