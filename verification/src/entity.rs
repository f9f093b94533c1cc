//! What a record type must say of itself to be stored as the rows of a table.

use vstd::prelude::*;
use crate::value::{cells, Cell, ColumnType, Value};

verus! {

/// One column of a table besides its key.
#[derive(Debug, Clone, PartialEq, Eq)]
pub struct Column {
    pub name: String,
    pub kind: ColumnType,
}

/// The mathematical content of a [`Column`].
pub struct ColumnModel {
    pub name: Seq<char>,
    pub kind: ColumnType,
}

impl View for Column {
    type V = ColumnModel;

    open spec fn view(&self) -> ColumnModel {
        ColumnModel { name: self.name@, kind: self.kind }
    }
}

/// The content of a list of columns.
pub open spec fn column_models(columns: Seq<Column>) -> Seq<ColumnModel> {
    Seq::new(columns.len(), |i: int| columns[i]@)
}

/// The row that stores a record: its key first, then its fields.
pub open spec fn row_of(key: i64, fields: Seq<Cell>) -> Seq<Cell> {
    seq![Cell::Integer(key)] + fields
}

/// Whether `fields` holds one cell of the declared type for each column.
pub open spec fn fields_fit(fields: Seq<Cell>, columns: Seq<ColumnModel>) -> bool {
    &&& fields.len() == columns.len()
    &&& forall|i: int| 0 <= i < columns.len() ==> (#[trigger] fields[i]).fits(columns[i].kind)
}

/// Whether `row` is an integer key followed by fields that fit `columns`.
pub open spec fn row_fits(row: Seq<Cell>, columns: Seq<ColumnModel>) -> bool {
    &&& row.len() == columns.len() + 1
    &&& row[0] is Integer
    &&& fields_fit(row.skip(1), columns)
}

/// A record type that is stored as the rows of one table.
///
/// Every table has the integer column `id` as its primary key, which the
/// store assigns, and after it the columns that the type lists. A record is
/// modelled by its row: its key and the cells of its fields.
pub trait Entity: Sized {
    /// The name of the table.
    spec fn table() -> Seq<char>;

    /// The columns besides the key, in their order in a row.
    spec fn columns() -> Seq<ColumnModel>;

    /// The key of this record.
    spec fn key(&self) -> i64;

    /// The fields of this record besides the key, in the order of the columns.
    spec fn fields(&self) -> Seq<Cell>;

    /// The fields of every record fit the columns of its table.
    proof fn lemma_fields_fit(&self)
        ensures
            fields_fit(self.fields(), Self::columns()),
    ;

    fn table_name() -> (name: String)
        ensures
            name@ == Self::table(),
    ;

    fn column_list() -> (list: Vec<Column>)
        ensures
            column_models(list@) == Self::columns(),
    ;

    fn id(&self) -> (id: i64)
        ensures
            id == self.key(),
    ;

    /// The fields of this record as values to bind, in the order of the columns.
    fn to_values(&self) -> (values: Vec<Value>)
        ensures
            cells(values@) == self.fields(),
    ;

    /// Reads a record from a row. A row that does not fit the table gives
    /// `None`; any other row gives the record that it stores.
    fn from_row(row: &Vec<Value>) -> (entity: Option<Self>)
        ensures
            entity is Some <==> row_fits(cells(row@), Self::columns()),
            entity matches Some(e) ==> row_of(e.key(), e.fields()) == cells(row@),
    ;
}

} // verus!
