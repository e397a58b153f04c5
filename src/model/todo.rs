use vstd::prelude::*;

use crate::model::text::decimal;
use crate::model::text::decimal_string;
use crate::model::Error;
use crate::model::StoreError;
use crate::security::UserCtx;

verus! {

/// The state of a task.
#[derive(Clone, Copy, Debug, PartialEq, Eq, Structural)]
pub enum TodoStatus {
    Open,
    Close,
}

/// A task as the store holds it.
#[derive(Clone, Debug, PartialEq, Eq)]
pub struct Todo {
    pub id: i64,
    pub cid: i64,
    pub title: String,
    pub status: TodoStatus,
}

/// The columns of a task that the library reads.
pub struct TodoView {
    pub id: int,
    pub cid: int,
    pub title: Seq<char>,
    pub status: TodoStatus,
}

impl View for Todo {
    type V = TodoView;

    open spec fn view(&self) -> TodoView {
        TodoView { id: self.id as int, cid: self.cid as int, title: self.title@, status: self.status }
    }
}

/// A partial description of a task: absent fields are left as they are on
/// update, and take the store's default on create.
#[derive(Clone, Debug, Default, PartialEq, Eq)]
pub struct TodoPatch {
    pub title: Option<String>,
    pub status: Option<TodoStatus>,
}

/// A value bound to a column.
#[derive(Debug, PartialEq, Eq)]
pub enum FieldValue {
    Text(String),
    Status(TodoStatus),
    Int(i64),
    /// An expression that the store evaluates, such as `now()`.
    Raw(&'static str),
}

/// A column and the value to store in it.
#[derive(Debug, PartialEq, Eq)]
pub struct Field {
    pub name: String,
    pub value: FieldValue,
}

/// The value of a bound column, as the contracts see it.
pub enum ValueModel {
    Text(Seq<char>),
    Status(TodoStatus),
    Int(int),
    Raw(Seq<char>),
}

/// A column and its value, as the contracts see them.
pub struct FieldModel {
    pub name: Seq<char>,
    pub value: ValueModel,
}

impl View for FieldValue {
    type V = ValueModel;

    open spec fn view(&self) -> ValueModel {
        match self {
            FieldValue::Text(s) => ValueModel::Text(s@),
            FieldValue::Status(s) => ValueModel::Status(*s),
            FieldValue::Int(n) => ValueModel::Int(*n as int),
            FieldValue::Raw(s) => ValueModel::Raw(s@),
        }
    }
}

impl View for Field {
    type V = FieldModel;

    open spec fn view(&self) -> FieldModel {
        FieldModel { name: self.name@, value: self.value@ }
    }
}

/// The views of a list of fields.
pub open spec fn fields_model(v: Seq<Field>) -> Seq<FieldModel> {
    v.map_values(|f: Field| f@)
}

/// The views of a list of column names.
pub open spec fn names_model(v: Seq<String>) -> Seq<Seq<char>> {
    v.map_values(|s: String| s@)
}

/// A statement for the store, described by its parts.
#[derive(Debug, PartialEq, Eq)]
pub enum Statement {
    /// Inserts one row and returns it.
    Insert { table: String, data: Vec<Field>, returning: Vec<String> },
    /// Reads rows: the one with id `by_id` when it is given, else all of them,
    /// by descending id when `newest_first` holds.
    Select { table: String, columns: Vec<String>, by_id: Option<i64>, newest_first: bool },
    /// Sets the columns of `data` in the row with `id` and returns that row.
    Update { table: String, data: Vec<Field>, id: i64, returning: Vec<String> },
    /// Removes the row with `id` and returns it as it was.
    Delete { table: String, id: i64, returning: Vec<String> },
}

/// A statement, as the contracts see it.
pub enum StatementModel {
    Insert { table: Seq<char>, data: Seq<FieldModel>, returning: Seq<Seq<char>> },
    Select { table: Seq<char>, columns: Seq<Seq<char>>, by_id: Option<int>, newest_first: bool },
    Update { table: Seq<char>, data: Seq<FieldModel>, id: int, returning: Seq<Seq<char>> },
    Delete { table: Seq<char>, id: int, returning: Seq<Seq<char>> },
}

impl View for Statement {
    type V = StatementModel;

    open spec fn view(&self) -> StatementModel {
        match self {
            Statement::Insert { table, data, returning } => StatementModel::Insert {
                table: table@,
                data: fields_model(data@),
                returning: names_model(returning@),
            },
            Statement::Select { table, columns, by_id, newest_first } => StatementModel::Select {
                table: table@,
                columns: names_model(columns@),
                by_id: match by_id {
                    Some(i) => Some(*i as int),
                    None => None,
                },
                newest_first: *newest_first,
            },
            Statement::Update { table, data, id, returning } => StatementModel::Update {
                table: table@,
                data: fields_model(data@),
                id: *id as int,
                returning: names_model(returning@),
            },
            Statement::Delete { table, id, returning } => StatementModel::Delete {
                table: table@,
                id: *id as int,
                returning: names_model(returning@),
            },
        }
    }
}

/// The creator id that every new task is stamped with.
pub const CREATOR_ID: i64 = 123;

/// The table that holds the tasks.
pub open spec fn table_name() -> Seq<char> {
    "todo"@
}

/// The columns of a task that every statement returns, in order.
pub open spec fn todo_columns() -> Seq<Seq<char>> {
    seq!["id"@, "cid"@, "title"@, "status"@]
}

/// The fields that a patch sets, in declaration order: the title, then the status.
pub open spec fn patch_fields(p: TodoPatch) -> Seq<FieldModel> {
    let title = match p.title {
        Some(t) => seq![FieldModel { name: "title"@, value: ValueModel::Text(t@) }],
        None => Seq::empty(),
    };
    let status = match p.status {
        Some(s) => seq![FieldModel { name: "status"@, value: ValueModel::Status(s) }],
        None => Seq::empty(),
    };
    title + status
}

/// What a create stores: the patch's fields and the creator id.
pub open spec fn create_fields(p: TodoPatch) -> Seq<FieldModel> {
    patch_fields(p).push(FieldModel { name: "cid"@, value: ValueModel::Int(CREATOR_ID as int) })
}

/// What an update stores: the patch's fields, the modifier and the
/// modification time, which the store evaluates.
pub open spec fn update_fields(user_id: int, p: TodoPatch) -> Seq<FieldModel> {
    patch_fields(p).push(FieldModel { name: "mid"@, value: ValueModel::Int(user_id) }).push(
        FieldModel { name: "ctime"@, value: ValueModel::Raw("now()"@) },
    )
}

pub open spec fn create_statement_model(p: TodoPatch) -> StatementModel {
    StatementModel::Insert { table: table_name(), data: create_fields(p), returning: todo_columns() }
}

pub open spec fn get_statement_model(id: int) -> StatementModel {
    StatementModel::Select {
        table: table_name(),
        columns: todo_columns(),
        by_id: Some(id),
        newest_first: false,
    }
}

pub open spec fn update_statement_model(user_id: int, id: int, p: TodoPatch) -> StatementModel {
    StatementModel::Update {
        table: table_name(),
        data: update_fields(user_id, p),
        id,
        returning: todo_columns(),
    }
}

pub open spec fn delete_statement_model(id: int) -> StatementModel {
    StatementModel::Delete { table: table_name(), id, returning: todo_columns() }
}

pub open spec fn list_statement_model() -> StatementModel {
    StatementModel::Select { table: table_name(), columns: todo_columns(), by_id: None, newest_first: true }
}

fn text(s: &str) -> (r: String)
    ensures
        r@ == s@,
{
    String::from_str(s)
}

impl TodoPatch {
    /// The fields that this patch sets, and no others.
    pub fn fields(&self) -> (r: Vec<Field>)
        ensures
            fields_model(r@) == patch_fields(*self),
    {
        let mut r: Vec<Field> = Vec::new();
        match &self.title {
            Some(t) => {
                r.push(Field { name: text("title"), value: FieldValue::Text(t.clone()) });
            },
            None => {},
        }
        let ghost mid = fields_model(r@);
        match self.status {
            Some(s) => {
                r.push(Field { name: text("status"), value: FieldValue::Status(s) });
            },
            None => {},
        }
        proof {
            assert(mid =~= match self.title {
                Some(t) => seq![FieldModel { name: "title"@, value: ValueModel::Text(t@) }],
                None => Seq::<FieldModel>::empty(),
            });
            assert(fields_model(r@) =~= patch_fields(*self));
        }
        r
    }
}

/// The task repository: builds the statements for each operation and turns
/// the store's answers into results.
pub struct TodoMac;

impl TodoMac {
    pub const TABLE: &'static str = "todo";

    fn table() -> (r: String)
        ensures
            r@ == table_name(),
    {
        text(Self::TABLE)
    }

    fn columns() -> (r: Vec<String>)
        ensures
            names_model(r@) == todo_columns(),
    {
        let r: Vec<String> = vec![text("id"), text("cid"), text("title"), text("status")];
        assert(names_model(r@) =~= todo_columns());
        r
    }

    /// Inserts the fields that the patch sets, and the creator id; returns the row.
    pub fn create_statement(data: &TodoPatch) -> (r: Statement)
        ensures
            r@ == create_statement_model(*data),
    {
        let mut fields = data.fields();
        fields.push(Field { name: text("cid"), value: FieldValue::Int(CREATOR_ID) });
        assert(fields_model(fields@) =~= create_fields(*data));
        Statement::Insert { table: Self::table(), data: fields, returning: Self::columns() }
    }

    /// Reads the one row with `id`.
    pub fn get_statement(id: i64) -> (r: Statement)
        ensures
            r@ == get_statement_model(id as int),
    {
        Statement::Select { table: Self::table(), columns: Self::columns(), by_id: Some(id), newest_first: false }
    }

    /// Sets the fields that the patch sets in the row with `id`, stamps the
    /// modifier and the modification time, and returns the row.
    pub fn update_statement(utx: &UserCtx, id: i64, data: &TodoPatch) -> (r: Statement)
        ensures
            r@ == update_statement_model(utx.user_id as int, id as int, *data),
    {
        let mut fields = data.fields();
        fields.push(Field { name: text("mid"), value: FieldValue::Int(utx.user_id) });
        fields.push(Field { name: text("ctime"), value: FieldValue::Raw("now()") });
        assert(fields_model(fields@) =~= update_fields(utx.user_id as int, *data));
        Statement::Update { table: Self::table(), data: fields, id, returning: Self::columns() }
    }

    /// Removes the row with `id` and returns it as it was.
    pub fn delete_statement(id: i64) -> (r: Statement)
        ensures
            r@ == delete_statement_model(id as int),
    {
        Statement::Delete { table: Self::table(), id, returning: Self::columns() }
    }

    /// Reads all rows, newest (highest id) first.
    pub fn list_statement() -> (r: Statement)
        ensures
            r@ == list_statement_model(),
    {
        Statement::Select { table: Self::table(), columns: Self::columns(), by_id: None, newest_first: true }
    }
}

/// Maps the answer to a statement that must touch one row: no row becomes
/// `EntityNotFound(typ, id)`, any other failure a storage error.
pub fn handle_fetch_one_result(
    result: Result<Todo, StoreError>,
    typ: &str,
    id: i64,
) -> (r: Result<Todo, Error>)
    ensures
        result is Ok ==> r == Ok::<Todo, Error>(result->Ok_0),
        result == Err::<Todo, StoreError>(StoreError::RowNotFound) ==> (r matches Err(
            Error::EntityNotFound(t, i),
        ) && t@ == typ@ && i@ == decimal(id as int)),
        result is Err && result->Err_0 is Other ==> r == Err::<Todo, Error>(
            Error::Storage(result->Err_0),
        ),
{
    match result {
        Ok(todo) => Ok(todo),
        Err(StoreError::RowNotFound) => Err(Error::EntityNotFound(text(typ), decimal_string(id))),
        Err(e) => Err(Error::Storage(e)),
    }
}

/// Maps the answer to a statement that does not target one id: every
/// failure is a storage error.
pub fn handle_store_result<T>(result: Result<T, StoreError>) -> (r: Result<T, Error>)
    ensures
        result is Ok ==> r == Ok::<T, Error>(result->Ok_0),
        result is Err ==> r == Err::<T, Error>(Error::Storage(result->Err_0)),
{
    match result {
        Ok(v) => Ok(v),
        Err(e) => Err(Error::Storage(e)),
    }
}

} // verus!
