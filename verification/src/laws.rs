//! What holds of the mapping between records, statements and replies,
//! whatever the storage engine does.

use vstd::prelude::*;
use crate::entity::{fields_fit, row_fits, row_of, ColumnModel, Entity};
use crate::record::{Connection, ConnectionModel};
use crate::reply::{
    executed_outcome, fetched_outcome, listed_outcome, listed_result, record_row, rows_fit,
    ErrorModel, ReplyModel, StoreError,
};
use crate::statement::{
    assignments, create_table_model, insert_model, placeholder, update_model, StatementKind,
};
use crate::value::Cell;

verus! {

/// What an insert binds reads back unchanged: if the engine answers a fetch
/// with the row made of a key and the values that the insert of `entity`
/// bound, the fetch yields a record with that key and the fields of `entity`.
pub proof fn lemma_inserted_fields_read_back<T: Entity>(entity: T, key: i64)
    ensures
        fetched_outcome(
            ReplyModel::Rows(
                seq![row_of(key, insert_model(T::table(), T::columns(), entity.fields()).params)],
            ),
            T::columns(),
        ) == Ok::<Option<Seq<Cell>>, ErrorModel>(Some(row_of(key, entity.fields()))),
{
    entity.lemma_fields_fit();
    let row = row_of(key, entity.fields());
    assert(row.skip(1) =~= entity.fields());
    assert(row_fits(row, T::columns()));
}

/// A connection is determined by its row: two connections with the same
/// row have the same key, target, name and color.
pub proof fn lemma_connection_row_is_faithful(a: Connection, b: Connection)
    requires
        record_row(a) == record_row(b),
    ensures
        a@ == b@,
{
    let ra = record_row(a);
    let rb = record_row(b);
    assert(ra[0] == rb[0]);
    assert(ra[1] == rb[1]);
    assert(ra[2] == rb[2]);
    assert(ra[3] == rb[3]);
}

/// The row of a connection with any key and any three texts fits the table
/// of connections, so a fetch that is answered with it yields the record.
pub proof fn lemma_connection_row_fits(model: ConnectionModel)
    ensures
        row_fits(model.row(), Connection::columns()),
        fetched_outcome(ReplyModel::Rows(seq![model.row()]), Connection::columns()) == Ok::<
            Option<Seq<Cell>>,
            ErrorModel,
        >(Some(model.row())),
{
    assert(model.row().skip(1) =~= model.fields());
}

/// The statement that initialises a table is the conditional form: it
/// begins with `CREATE TABLE IF NOT EXISTS` and binds no parameters. Every
/// reply that says it ran is a success, whether or not it changed anything.
pub proof fn lemma_init_creates_only_if_absent(
    table: Seq<char>,
    columns: Seq<ColumnModel>,
    changed: nat,
    last_insert_rowid: i64,
)
    ensures
        "CREATE TABLE IF NOT EXISTS "@.is_prefix_of(create_table_model(table, columns).sql),
        create_table_model(table, columns).kind == StatementKind::Execute,
        create_table_model(table, columns).params.len() == 0,
        executed_outcome(ReplyModel::Executed { changed, last_insert_rowid }) == Ok::<
            (),
            ErrorModel,
        >(()),
{
    let head = "CREATE TABLE IF NOT EXISTS "@;
    let sql = create_table_model(table, columns).sql;
    assert(sql.subrange(0, head.len() as int) =~= head);
}

/// Absence is no failure: a fetch that the engine answers with no row
/// yields `None`, and an update or a delete that changed no row succeeds.
pub proof fn lemma_absent_is_no_error(columns: Seq<ColumnModel>, last_insert_rowid: i64)
    ensures
        fetched_outcome(ReplyModel::Rows(Seq::empty()), columns) == Ok::<Option<Seq<Cell>>, ErrorModel>(
            None,
        ),
        executed_outcome(ReplyModel::Executed { changed: 0, last_insert_rowid }) == Ok::<(), ErrorModel>(
            (),
        ),
{
}

/// A fetch fails only where the engine did: on a reply with rows whose
/// first row fits the table, or with no rows, the result is never an error.
pub proof fn lemma_fetch_fails_only_with_the_engine(
    rows: Seq<Seq<Cell>>,
    columns: Seq<ColumnModel>,
)
    requires
        rows.len() > 0 ==> row_fits(rows[0], columns),
    ensures
        fetched_outcome(ReplyModel::Rows(rows), columns) is Ok,
{
}

/// Listing is complete: where every row of the reply fits the table, the
/// result holds exactly one record per row, in the same order, and each
/// record has the key and the fields of its row.
pub proof fn lemma_list_is_complete<T: Entity>(
    rows: Seq<Seq<Cell>>,
    result: Result<Vec<T>, StoreError>,
)
    requires
        rows_fit(rows, T::columns()),
        listed_result(result) == listed_outcome(ReplyModel::Rows(rows), T::columns()),
    ensures
        result is Ok,
        result->Ok_0@.len() == rows.len(),
        forall|i: int|
            0 <= i < rows.len() ==> {
                &&& rows[i][0] == Cell::Integer((#[trigger] result->Ok_0@[i]).key())
                &&& rows[i].skip(1) == result->Ok_0@[i].fields()
            },
{
    let entities = result->Ok_0@;
    assert forall|i: int| 0 <= i < rows.len() implies {
        &&& rows[i][0] == Cell::Integer((#[trigger] entities[i]).key())
        &&& rows[i].skip(1) == entities[i].fields()
    } by {
        assert(record_row(entities[i]) == rows[i]);
        assert(rows[i].skip(1) =~= entities[i].fields());
    }
}

/// An update replaces every field: its statement assigns to each column
/// the parameter of its own number, binds to that parameter the field of
/// the record for that column, and binds the key last, to the parameter
/// that selects the row.
pub proof fn lemma_update_replaces_every_field(
    table: Seq<char>,
    columns: Seq<ColumnModel>,
    key: i64,
    fields: Seq<Cell>,
)
    requires
        fields_fit(fields, columns),
    ensures
        assignments(columns).len() == columns.len(),
        update_model(table, columns, key, fields).params.len() == columns.len() + 1,
        forall|i: int|
            0 <= i < columns.len() ==> {
                &&& (#[trigger] assignments(columns)[i]) == columns[i].name + " = "@ + placeholder(
                    (i + 1) as nat,
                )
                &&& update_model(table, columns, key, fields).params[i] == fields[i]
            },
        update_model(table, columns, key, fields).params[columns.len() as int] == Cell::Integer(
            key,
        ),
{
}

/// An update that is read back yields the new record: if the engine
/// answers a fetch with the row made of the values that the update of
/// `entity` bound, key first, the fetch yields the row of `entity`, with
/// nothing of an older record in it.
pub proof fn lemma_updated_fields_read_back<T: Entity>(entity: T)
    ensures
        ({
            let bound = update_model(T::table(), T::columns(), entity.key(), entity.fields()).params;
            let row = seq![bound.last()] + bound.drop_last();
            fetched_outcome(ReplyModel::Rows(seq![row]), T::columns()) == Ok::<Option<Seq<Cell>>, ErrorModel>(Some(record_row(entity)))
        }),
{
    entity.lemma_fields_fit();
    let bound = update_model(T::table(), T::columns(), entity.key(), entity.fields()).params;
    let row = seq![bound.last()] + bound.drop_last();
    assert(bound.drop_last() =~= entity.fields());
    assert(row =~= record_row(entity));
    assert(row.skip(1) =~= entity.fields());
}

} // verus!
