//! What the storage engine answers, and what each operation makes of it.

use vstd::prelude::*;
use crate::entity::{row_fits, row_of, ColumnModel, Entity};
use crate::value::{cells, table_cells, Cell, Value};

verus! {

/// The answer of the storage engine to one statement.
#[derive(Debug, Clone, PartialEq, Eq)]
pub enum Reply {
    /// The statement ran and yielded no rows. `changed` counts the rows it
    /// added, replaced or removed; `last_insert_rowid` is the key of the row
    /// that the connection added last.
    Executed { changed: usize, last_insert_rowid: i64 },
    /// The statement ran and yielded these rows, in the engine's order.
    Rows(Vec<Vec<Value>>),
    /// The engine could not run the statement; the text says why.
    Failed(String),
}

/// The mathematical content of a [`Reply`].
pub enum ReplyModel {
    Executed { changed: nat, last_insert_rowid: i64 },
    Rows(Seq<Seq<Cell>>),
    Failed(Seq<char>),
}

impl View for Reply {
    type V = ReplyModel;

    open spec fn view(&self) -> ReplyModel {
        match self {
            Reply::Executed { changed, last_insert_rowid } => ReplyModel::Executed {
                changed: *changed as nat,
                last_insert_rowid: *last_insert_rowid,
            },
            Reply::Rows(rows) => ReplyModel::Rows(table_cells(rows@)),
            Reply::Failed(reason) => ReplyModel::Failed(reason@),
        }
    }
}

/// Why an operation on the store failed. That a record is absent is no
/// failure.
#[derive(Debug, Clone, PartialEq, Eq)]
pub enum StoreError {
    /// The engine reported a failure; the text is its own.
    Storage(String),
    /// The engine answered with something that the operation cannot read: a
    /// reply of the wrong form, or a row that does not fit the table.
    Malformed,
}

/// The mathematical content of a [`StoreError`].
pub enum ErrorModel {
    Storage(Seq<char>),
    Malformed,
}

impl View for StoreError {
    type V = ErrorModel;

    open spec fn view(&self) -> ErrorModel {
        match self {
            StoreError::Storage(reason) => ErrorModel::Storage(reason@),
            StoreError::Malformed => ErrorModel::Malformed,
        }
    }
}

impl ErrorModel {
    /// The text shown for this error.
    pub open spec fn message(self) -> Seq<char> {
        match self {
            ErrorModel::Storage(reason) => reason,
            ErrorModel::Malformed => "malformed data in the store"@,
        }
    }
}

impl StoreError {
    /// The text to show for this error: the engine's own words where it
    /// reported the failure.
    pub fn message(&self) -> (text: String)
        ensures
            text@ == self@.message(),
    {
        match self {
            StoreError::Storage(reason) => reason.clone(),
            StoreError::Malformed => String::from_str("malformed data in the store"),
        }
    }
}

/// The row that stores `entity`.
pub open spec fn record_row<T: Entity>(entity: T) -> Seq<Cell> {
    row_of(entity.key(), entity.fields())
}

/// The rows that store `entities`, in order.
pub open spec fn record_rows<T: Entity>(entities: Seq<T>) -> Seq<Seq<Cell>> {
    Seq::new(entities.len(), |i: int| record_row(entities[i]))
}

/// Whether every row fits `columns`.
pub open spec fn rows_fit(rows: Seq<Seq<Cell>>, columns: Seq<ColumnModel>) -> bool {
    forall|i: int| 0 <= i < rows.len() ==> row_fits(#[trigger] rows[i], columns)
}

/// What creating a table, updating and deleting make of a reply: success
/// whatever the number of rows changed.
pub open spec fn executed_outcome(reply: ReplyModel) -> Result<(), ErrorModel> {
    match reply {
        ReplyModel::Executed { .. } => Ok(()),
        ReplyModel::Rows(_) => Err(ErrorModel::Malformed),
        ReplyModel::Failed(reason) => Err(ErrorModel::Storage(reason)),
    }
}

/// What inserting makes of a reply: the key that the store assigned.
pub open spec fn inserted_outcome(reply: ReplyModel) -> Result<i64, ErrorModel> {
    match reply {
        ReplyModel::Executed { last_insert_rowid, .. } => Ok(last_insert_rowid),
        ReplyModel::Rows(_) => Err(ErrorModel::Malformed),
        ReplyModel::Failed(reason) => Err(ErrorModel::Storage(reason)),
    }
}

/// What fetching by key makes of a reply: no row means that the record is
/// absent, otherwise the first row is the record.
pub open spec fn fetched_outcome(reply: ReplyModel, columns: Seq<ColumnModel>) -> Result<
    Option<Seq<Cell>>,
    ErrorModel,
> {
    match reply {
        ReplyModel::Executed { .. } => Err(ErrorModel::Malformed),
        ReplyModel::Rows(rows) => if rows.len() == 0 {
            Ok(None)
        } else if row_fits(rows[0], columns) {
            Ok(Some(rows[0]))
        } else {
            Err(ErrorModel::Malformed)
        },
        ReplyModel::Failed(reason) => Err(ErrorModel::Storage(reason)),
    }
}

/// What listing makes of a reply: every row, in the engine's order.
pub open spec fn listed_outcome(reply: ReplyModel, columns: Seq<ColumnModel>) -> Result<
    Seq<Seq<Cell>>,
    ErrorModel,
> {
    match reply {
        ReplyModel::Executed { .. } => Err(ErrorModel::Malformed),
        ReplyModel::Rows(rows) => if rows_fit(rows, columns) {
            Ok(rows)
        } else {
            Err(ErrorModel::Malformed)
        },
        ReplyModel::Failed(reason) => Err(ErrorModel::Storage(reason)),
    }
}

/// The content of the result of an operation that returns a plain value.
pub open spec fn plain_result<A>(result: Result<A, StoreError>) -> Result<A, ErrorModel> {
    match result {
        Ok(value) => Ok(value),
        Err(error) => Err(error@),
    }
}

/// The content of the result of fetching by key.
pub open spec fn fetched_result<T: Entity>(result: Result<Option<T>, StoreError>) -> Result<
    Option<Seq<Cell>>,
    ErrorModel,
> {
    match result {
        Ok(Some(entity)) => Ok(Some(record_row(entity))),
        Ok(None) => Ok(None),
        Err(error) => Err(error@),
    }
}

/// The content of the result of listing.
pub open spec fn listed_result<T: Entity>(result: Result<Vec<T>, StoreError>) -> Result<
    Seq<Seq<Cell>>,
    ErrorModel,
> {
    match result {
        Ok(entities) => Ok(record_rows(entities@)),
        Err(error) => Err(error@),
    }
}

/// Reads the reply to a statement that creates a table, updates or deletes.
pub fn executed(reply: Reply) -> (result: Result<(), StoreError>)
    ensures
        plain_result(result) == executed_outcome(reply@),
{
    match reply {
        Reply::Executed { .. } => Ok(()),
        Reply::Rows(_) => Err(StoreError::Malformed),
        Reply::Failed(reason) => Err(StoreError::Storage(reason)),
    }
}

/// Reads the reply to an insert: the key of the new row.
pub fn inserted(reply: Reply) -> (result: Result<i64, StoreError>)
    ensures
        plain_result(result) == inserted_outcome(reply@),
{
    match reply {
        Reply::Executed { last_insert_rowid, .. } => Ok(last_insert_rowid),
        Reply::Rows(_) => Err(StoreError::Malformed),
        Reply::Failed(reason) => Err(StoreError::Storage(reason)),
    }
}

/// Reads the reply to a fetch by key: the record, or `None` where the
/// engine found no row.
pub fn fetched<T: Entity>(reply: Reply) -> (result: Result<Option<T>, StoreError>)
    ensures
        fetched_result(result) == fetched_outcome(reply@, T::columns()),
{
    match reply {
        Reply::Executed { .. } => Err(StoreError::Malformed),
        Reply::Rows(rows) => {
            if rows.len() == 0 {
                Ok(None)
            } else {
                assert(table_cells(rows@)[0] == cells(rows@[0]@));
                match T::from_row(&rows[0]) {
                    Some(entity) => Ok(Some(entity)),
                    None => Err(StoreError::Malformed),
                }
            }
        },
        Reply::Failed(reason) => Err(StoreError::Storage(reason)),
    }
}

/// Reads the reply to a listing: one record per row, in the engine's order.
pub fn listed<T: Entity>(reply: Reply) -> (result: Result<Vec<T>, StoreError>)
    ensures
        listed_result(result) == listed_outcome(reply@, T::columns()),
{
    match reply {
        Reply::Executed { .. } => Err(StoreError::Malformed),
        Reply::Rows(rows) => {
            let ghost given = table_cells(rows@);
            let mut entities: Vec<T> = Vec::new();
            let mut i: usize = 0;
            while i < rows.len()
                invariant
                    i <= rows.len(),
                    given == table_cells(rows@),
                    reply@ == ReplyModel::Rows(given),
                    entities@.len() == i,
                    forall|j: int| 0 <= j < i ==> row_fits(#[trigger] given[j], T::columns()),
                    forall|j: int| 0 <= j < i ==> record_row(#[trigger] entities@[j]) == given[j],
                decreases rows.len() - i,
            {
                assert(given[i as int] == cells(rows@[i as int]@));
                match T::from_row(&rows[i]) {
                    Some(entity) => {
                        entities.push(entity);
                    },
                    None => {
                        assert(!row_fits(given[i as int], T::columns()));
                        return Err(StoreError::Malformed);
                    },
                }
                i += 1;
            }
            assert(record_rows(entities@) =~= given);
            Ok(entities)
        },
        Reply::Failed(reason) => Err(StoreError::Storage(reason)),
    }
}

} // verus!
