use vstd::prelude::*;

use crate::model::todo::create_fields;
use crate::model::todo::create_statement_model;
use crate::model::todo::delete_statement_model;
use crate::model::todo::get_statement_model;
use crate::model::todo::list_statement_model;
use crate::model::todo::patch_fields;
use crate::model::todo::update_fields;
use crate::model::todo::update_statement_model;
use crate::model::todo::FieldModel;
use crate::model::todo::StatementModel;
use crate::model::todo::TodoPatch;
use crate::model::todo::TodoStatus;
use crate::model::todo::TodoView;
use crate::model::todo::ValueModel;
use crate::model::todo::CREATOR_ID;

verus! {

/// What storing one field does to the columns of a task that the library
/// reads. Columns the library does not read (`mid`, `ctime`) leave them as
/// they are.
pub open spec fn assign(t: TodoView, f: FieldModel) -> TodoView {
    match f.value {
        ValueModel::Text(s) => if f.name == "title"@ {
            TodoView { title: s, ..t }
        } else {
            t
        },
        ValueModel::Status(s) => if f.name == "status"@ {
            TodoView { status: s, ..t }
        } else {
            t
        },
        ValueModel::Int(n) => if f.name == "cid"@ {
            TodoView { cid: n, ..t }
        } else if f.name == "id"@ {
            TodoView { id: n, ..t }
        } else {
            t
        },
        ValueModel::Raw(_) => t,
    }
}

/// Stores the fields one after the other.
pub open spec fn assign_all(t: TodoView, fs: Seq<FieldModel>) -> TodoView
    decreases fs.len(),
{
    if fs.len() == 0 {
        t
    } else {
        assign(assign_all(t, fs.drop_last()), fs.last())
    }
}

/// A task with the fields that a patch sets replaced, and the others kept.
pub open spec fn patched(t: TodoView, p: TodoPatch) -> TodoView {
    TodoView {
        id: t.id,
        cid: t.cid,
        title: match p.title {
            Some(s) => s@,
            None => t.title,
        },
        status: match p.status {
            Some(s) => s,
            None => t.status,
        },
    }
}

proof fn lemma_column_names_differ()
    ensures
        "title"@ != "status"@,
        "title"@ != "cid"@,
        "title"@ != "id"@,
        "status"@ != "cid"@,
        "status"@ != "id"@,
        "mid"@ != "cid"@,
        "mid"@ != "id"@,
        "cid"@ != "id"@,
{
    reveal_strlit("title");
    reveal_strlit("status");
    reveal_strlit("cid");
    reveal_strlit("id");
    reveal_strlit("mid");
    assert("title"@[0] != "status"@[0]);
    assert("title"@.len() != "cid"@.len());
    assert("title"@.len() != "id"@.len());
    assert("status"@.len() != "cid"@.len());
    assert("status"@.len() != "id"@.len());
    assert("mid"@[0] != "cid"@[0]);
    assert("mid"@.len() != "id"@.len());
    assert("cid"@.len() != "id"@.len());
}

proof fn lemma_assign_patch(t: TodoView, p: TodoPatch)
    ensures
        assign_all(t, patch_fields(p)) == patched(t, p),
{
    lemma_column_names_differ();
    reveal_with_fuel(assign_all, 3);
    let fs = patch_fields(p);
    match p.title {
        Some(s) => match p.status {
            Some(st) => {
                assert(fs.drop_last() =~= seq![fs[0]]);
                assert(fs.drop_last().drop_last() =~= Seq::<FieldModel>::empty());
            },
            None => {
                assert(fs.drop_last() =~= Seq::<FieldModel>::empty());
            },
        },
        None => match p.status {
            Some(st) => {
                assert(fs.drop_last() =~= Seq::<FieldModel>::empty());
            },
            None => {
                assert(fs =~= Seq::<FieldModel>::empty());
            },
        },
    }
}

/// An update changes exactly the fields that the patch sets: a field the
/// patch leaves out keeps its value, and the id and creator never change.
pub proof fn lemma_update_keeps_untouched_fields(user_id: int, t: TodoView, p: TodoPatch)
    ensures
        assign_all(t, update_fields(user_id, p)) == patched(t, p),
        assign_all(t, update_fields(user_id, p)).id == t.id,
        assign_all(t, update_fields(user_id, p)).cid == t.cid,
        p.title is None ==> assign_all(t, update_fields(user_id, p)).title == t.title,
        p.status is None ==> assign_all(t, update_fields(user_id, p)).status == t.status,
{
    lemma_column_names_differ();
    lemma_assign_patch(t, p);
    let fs = update_fields(user_id, p);
    assert(fs.drop_last().drop_last() =~= patch_fields(p));
    assert(assign_all(t, fs.drop_last()) == assign(assign_all(t, patch_fields(p)), fs[fs.len() - 2]));
}

/// A created task holds the title that the patch gives, the status it gives
/// or else `Open`, and the fixed creator id, whatever the row held before
/// the insert but its id and the store's default status `Open`.
pub proof fn lemma_create_sets_fields_and_defaults(fresh: TodoView, p: TodoPatch)
    requires
        fresh.status == TodoStatus::Open,
        p.title is Some,
    ensures
        assign_all(fresh, create_fields(p)) == (TodoView {
            id: fresh.id,
            cid: CREATOR_ID as int,
            title: p.title->Some_0@,
            status: match p.status {
                Some(s) => s,
                None => TodoStatus::Open,
            },
        }),
{
    lemma_column_names_differ();
    lemma_assign_patch(fresh, p);
    assert(create_fields(p).drop_last() =~= patch_fields(p));
}

/// The row that an insert starts from before its fields are stored: the id
/// that the store's sequence hands out, and the column defaults (status `Open`).
pub open spec fn inserted_row(id: int, data: Seq<FieldModel>) -> TodoView {
    assign_all(TodoView { id, cid: 0, title: Seq::empty(), status: TodoStatus::Open }, data)
}

/// A model of the task table: what running statement `st` on table `before`
/// may leave in the table (`after`) and hand back (`rows`). An insert takes
/// `fresh`, an id that no row holds, as the store's sequence does.
pub open spec fn store_step(
    before: Map<int, TodoView>,
    st: StatementModel,
    fresh: int,
    after: Map<int, TodoView>,
    rows: Seq<TodoView>,
) -> bool {
    match st {
        StatementModel::Insert { data, .. } => {
            &&& !before.contains_key(fresh)
            &&& after == before.insert(fresh, inserted_row(fresh, data))
            &&& rows == seq![inserted_row(fresh, data)]
        },
        StatementModel::Select { by_id, newest_first, .. } => {
            &&& after == before
            &&& match by_id {
                Some(id) => rows == if before.contains_key(id) {
                    seq![before[id]]
                } else {
                    Seq::<TodoView>::empty()
                },
                None => {
                    &&& rows.len() == before.len()
                    &&& forall|i: int|
                        0 <= i < rows.len() ==> before.contains_key(#[trigger] rows[i].id)
                            && before[rows[i].id] == rows[i]
                    &&& newest_first ==> forall|i: int, j: int|
                        0 <= i < j < rows.len() ==> #[trigger] rows[i].id > #[trigger] rows[j].id
                },
            }
        },
        StatementModel::Update { data, id, .. } => if before.contains_key(id) {
            &&& after == before.insert(id, assign_all(before[id], data))
            &&& rows == seq![assign_all(before[id], data)]
        } else {
            &&& after == before
            &&& rows == Seq::<TodoView>::empty()
        },
        StatementModel::Delete { id, .. } => if before.contains_key(id) {
            &&& after == before.remove(id)
            &&& rows == seq![before[id]]
        } else {
            &&& after == before
            &&& rows == Seq::<TodoView>::empty()
        },
    }
}

/// Listing two tasks gives the newer (higher id) first.
pub proof fn lemma_list_newest_first(
    table: Map<int, TodoView>,
    a: TodoView,
    b: TodoView,
    fresh: int,
    after: Map<int, TodoView>,
    rows: Seq<TodoView>,
)
    requires
        a.id < b.id,
        table == map![a.id => a, b.id => b],
        store_step(table, list_statement_model(), fresh, after, rows),
    ensures
        rows == seq![b, a],
{
    assert(table.dom() =~= set![a.id, b.id]);
    assert(table.len() == 2) by {
        assert(set![a.id].insert(b.id).len() == set![a.id].len() + 1);
    }
    assert(table.contains_key(rows[0].id));
    assert(table.contains_key(rows[1].id));
    assert(rows[0].id > rows[1].id);
    assert(rows =~= seq![b, a]);
}

/// A create returns a row with an id that no earlier row holds, the title of
/// the patch, the status of the patch or else `Open`, and the fixed creator.
pub proof fn lemma_create_fresh_row(
    before: Map<int, TodoView>,
    p: TodoPatch,
    fresh: int,
    after: Map<int, TodoView>,
    rows: Seq<TodoView>,
)
    requires
        p.title is Some,
        store_step(before, create_statement_model(p), fresh, after, rows),
    ensures
        rows.len() == 1,
        !before.contains_key(rows[0].id),
        rows[0].title == p.title->Some_0@,
        rows[0].status == match p.status {
            Some(s) => s,
            None => TodoStatus::Open,
        },
        rows[0].cid == CREATOR_ID as int,
        after.len() == before.len() + 1 || !before.dom().finite(),
{
    let start = TodoView { id: fresh, cid: 0, title: Seq::empty(), status: TodoStatus::Open };
    lemma_create_sets_fields_and_defaults(start, p);
    if before.dom().finite() {
        assert(after.dom() =~= before.dom().insert(fresh));
    }
}

/// Getting an id that no row holds yields no row, which the result mapping
/// turns into `EntityNotFound`.
pub proof fn lemma_get_missing_yields_no_row(
    before: Map<int, TodoView>,
    id: int,
    fresh: int,
    after: Map<int, TodoView>,
    rows: Seq<TodoView>,
)
    requires
        !before.contains_key(id),
        store_step(before, get_statement_model(id), fresh, after, rows),
    ensures
        rows.len() == 0,
        after == before,
{
}

/// An update with a patch returns the row with the patch's fields replaced
/// and every other field kept.
pub proof fn lemma_update_row(
    before: Map<int, TodoView>,
    user_id: int,
    id: int,
    p: TodoPatch,
    fresh: int,
    after: Map<int, TodoView>,
    rows: Seq<TodoView>,
)
    requires
        before.contains_key(id),
        store_step(before, update_statement_model(user_id, id, p), fresh, after, rows),
    ensures
        rows == seq![patched(before[id], p)],
        after[id] == patched(before[id], p),
        after.dom() == before.dom(),
{
    lemma_update_keeps_untouched_fields(user_id, before[id], p);
    assert(after.dom() =~= before.dom());
}

/// A delete returns the row as it was, and the table then holds one row
/// fewer, none of them with that id.
pub proof fn lemma_delete_removes_one(
    before: Map<int, TodoView>,
    id: int,
    fresh: int,
    after: Map<int, TodoView>,
    rows: Seq<TodoView>,
)
    requires
        before.dom().finite(),
        before.contains_key(id),
        store_step(before, delete_statement_model(id), fresh, after, rows),
    ensures
        rows == seq![before[id]],
        !after.contains_key(id),
        after.len() + 1 == before.len(),
{
}

/// Getting the id that a create returned returns the row that the create
/// returned.
pub proof fn lemma_create_then_get(
    t0: Map<int, TodoView>,
    p: TodoPatch,
    fresh: int,
    t1: Map<int, TodoView>,
    created: Seq<TodoView>,
    fresh2: int,
    t2: Map<int, TodoView>,
    got: Seq<TodoView>,
)
    requires
        store_step(t0, create_statement_model(p), fresh, t1, created),
        store_step(t1, get_statement_model(created[0].id), fresh2, t2, got),
    ensures
        got == created,
        t2 == t1,
{
    assert(inserted_row(fresh, create_fields(p)).id == fresh) by {
        lemma_inserted_row_keeps_id(fresh, p);
    }
}

proof fn lemma_inserted_row_keeps_id(fresh: int, p: TodoPatch)
    ensures
        inserted_row(fresh, create_fields(p)).id == fresh,
{
    let start = TodoView { id: fresh, cid: 0, title: Seq::empty(), status: TodoStatus::Open };
    lemma_column_names_differ();
    lemma_assign_patch(start, p);
    assert(create_fields(p).drop_last() =~= patch_fields(p));
}

} // verus!
