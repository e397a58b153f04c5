use todo_backend::model::text::decimal_string;
use todo_backend::model::todo::handle_fetch_one_result;
use todo_backend::model::todo::handle_store_result;
use todo_backend::model::todo::Field;
use todo_backend::model::todo::FieldValue;
use todo_backend::model::todo::Statement;
use todo_backend::model::todo::Todo;
use todo_backend::model::todo::TodoMac;
use todo_backend::model::todo::TodoPatch;
use todo_backend::model::todo::TodoStatus;
use todo_backend::model::todo::CREATOR_ID;
use todo_backend::model::Error;
use todo_backend::model::StoreError;
use todo_backend::security::UserCtx;

fn field(name: &str, value: FieldValue) -> Field {
    Field { name: name.to_string(), value }
}

fn columns() -> Vec<String> {
    vec!["id".to_string(), "cid".to_string(), "title".to_string(), "status".to_string()]
}

fn todo(id: i64, title: &str, status: TodoStatus) -> Todo {
    Todo { id, cid: 123, title: title.to_string(), status }
}

#[test]
fn patch_fields_empty_patch_sets_nothing() {
    let patch = TodoPatch::default();
    assert!(patch.fields().is_empty());
}

#[test]
fn patch_fields_only_set_fields_in_order() {
    let title_only = TodoPatch { title: Some("x".to_string()), ..Default::default() };
    assert_eq!(vec![field("title", FieldValue::Text("x".to_string()))], title_only.fields());

    let status_only = TodoPatch { status: Some(TodoStatus::Close), ..Default::default() };
    assert_eq!(vec![field("status", FieldValue::Status(TodoStatus::Close))], status_only.fields());

    let both = TodoPatch { title: Some("y".to_string()), status: Some(TodoStatus::Open) };
    assert_eq!(
        vec![
            field("title", FieldValue::Text("y".to_string())),
            field("status", FieldValue::Status(TodoStatus::Open)),
        ],
        both.fields()
    );
}

#[test]
fn create_statement_inserts_patch_and_creator() {
    let patch = TodoPatch { title: Some("test - model_todo_create 1".to_string()), ..Default::default() };
    let expected = Statement::Insert {
        table: "todo".to_string(),
        data: vec![
            field("title", FieldValue::Text("test - model_todo_create 1".to_string())),
            field("cid", FieldValue::Int(123)),
        ],
        returning: columns(),
    };
    assert_eq!(expected, TodoMac::create_statement(&patch));
    assert_eq!(123, CREATOR_ID);
}

#[test]
fn create_statement_leaves_status_to_the_store_default() {
    let patch = TodoPatch { title: Some("x".to_string()), ..Default::default() };
    match TodoMac::create_statement(&patch) {
        Statement::Insert { data, .. } => {
            assert!(data.iter().all(|f| f.name != "status"));
            assert!(data.iter().any(|f| f.name == "title" && f.value == FieldValue::Text("x".to_string())));
        }
        other => panic!("not an insert: {:?}", other),
    }
}

#[test]
fn get_statement_selects_one_id() {
    let expected = Statement::Select {
        table: "todo".to_string(),
        columns: columns(),
        by_id: Some(100),
        newest_first: false,
    };
    assert_eq!(expected, TodoMac::get_statement(100));
}

#[test]
fn update_statement_sets_only_patch_fields_and_stamps() {
    let utx = UserCtx { user_id: 123 };
    let patch = TodoPatch { title: Some("test - model_todo_update_ok 2".to_string()), ..Default::default() };
    let expected = Statement::Update {
        table: "todo".to_string(),
        data: vec![
            field("title", FieldValue::Text("test - model_todo_update_ok 2".to_string())),
            field("mid", FieldValue::Int(123)),
            field("ctime", FieldValue::Raw("now()")),
        ],
        id: 1000,
        returning: columns(),
    };
    assert_eq!(expected, TodoMac::update_statement(&utx, 1000, &patch));
}

#[test]
fn update_statement_with_empty_patch_only_stamps() {
    let utx = UserCtx { user_id: 7 };
    let expected = Statement::Update {
        table: "todo".to_string(),
        data: vec![field("mid", FieldValue::Int(7)), field("ctime", FieldValue::Raw("now()"))],
        id: 5,
        returning: columns(),
    };
    assert_eq!(expected, TodoMac::update_statement(&utx, 5, &TodoPatch::default()));
}

#[test]
fn delete_statement_returns_the_row() {
    let expected = Statement::Delete { table: "todo".to_string(), id: 100, returning: columns() };
    assert_eq!(expected, TodoMac::delete_statement(100));
}

#[test]
fn list_statement_orders_newest_first() {
    let expected = Statement::Select {
        table: "todo".to_string(),
        columns: columns(),
        by_id: None,
        newest_first: true,
    };
    assert_eq!(expected, TodoMac::list_statement());
}

#[test]
fn fetch_one_not_found_maps_to_entity_not_found() {
    let r = handle_fetch_one_result(Err(StoreError::RowNotFound), TodoMac::TABLE, 999);
    match r {
        Err(Error::EntityNotFound(typ, id)) => {
            assert_eq!("todo", typ);
            assert_eq!(999_i64.to_string(), id);
        }
        other => panic!("Wrong Error {:?}", other),
    }
}

#[test]
fn fetch_one_other_failure_is_storage_error() {
    let r = handle_fetch_one_result(Err(StoreError::Other("connection reset".to_string())), "todo", 1);
    assert_eq!(Err(Error::Storage(StoreError::Other("connection reset".to_string()))), r);
}

#[test]
fn fetch_one_ok_passes_the_row() {
    let row = todo(100, "todo 100", TodoStatus::Close);
    assert_eq!(Ok(row.clone()), handle_fetch_one_result(Ok(row), "todo", 100));
}

#[test]
fn list_result_never_maps_to_not_found() {
    let r: Result<Vec<Todo>, Error> = handle_store_result(Err(StoreError::RowNotFound));
    assert_eq!(Err(Error::Storage(StoreError::RowNotFound)), r);
    let rows = vec![todo(101, "todo 101", TodoStatus::Open), todo(100, "todo 100", TodoStatus::Close)];
    let ok: Result<Vec<Todo>, Error> = handle_store_result(Ok(rows.clone()));
    assert_eq!(Ok(rows), ok);
    let empty: Result<Vec<Todo>, Error> = handle_store_result(Ok(Vec::new()));
    assert_eq!(Ok(Vec::new()), empty);
}

#[test]
fn decimal_string_matches_to_string() {
    for n in [0_i64, 7, 10, 999, 1000, -1, -42, i64::MAX, i64::MIN] {
        assert_eq!(n.to_string(), decimal_string(n));
    }
    assert_eq!("999", decimal_string(999));
    assert_eq!("-9223372036854775808", decimal_string(i64::MIN));
}
