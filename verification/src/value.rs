//! The values that travel between the mapping and the storage engine.

use vstd::prelude::*;

verus! {

/// One cell handed to or received from the storage engine, in one of the
/// engine's five storage classes.
#[derive(Debug, Clone, PartialEq, Eq)]
pub enum Value {
    /// The SQL `NULL`.
    Null,
    /// A signed 64-bit integer.
    Integer(i64),
    /// A double-precision number, carried as its IEEE 754 bit pattern.
    Real(u64),
    /// A text string.
    Text(String),
    /// An uninterpreted byte string.
    Blob(Vec<u8>),
}

/// The mathematical content of a [`Value`].
pub enum Cell {
    Null,
    Integer(i64),
    Real(u64),
    Text(Seq<char>),
    Blob(Seq<u8>),
}

impl View for Value {
    type V = Cell;

    open spec fn view(&self) -> Cell {
        match self {
            Value::Null => Cell::Null,
            Value::Integer(n) => Cell::Integer(*n),
            Value::Real(bits) => Cell::Real(*bits),
            Value::Text(s) => Cell::Text(s@),
            Value::Blob(bytes) => Cell::Blob(bytes@),
        }
    }
}

/// The content of a sequence of values, cell by cell.
pub open spec fn cells(values: Seq<Value>) -> Seq<Cell> {
    Seq::new(values.len(), |i: int| values[i]@)
}

/// The content of a sequence of rows, row by row.
pub open spec fn table_cells(rows: Seq<Vec<Value>>) -> Seq<Seq<Cell>> {
    Seq::new(rows.len(), |i: int| cells(rows[i]@))
}

/// The type a column is declared with.
#[derive(Debug, Clone, Copy, PartialEq, Eq, Structural)]
pub enum ColumnType {
    Integer,
    Real,
    Text,
    Blob,
}

impl Cell {
    /// Whether this cell may stand in a column declared with `kind`.
    /// Columns do not admit `NULL`.
    pub open spec fn fits(self, kind: ColumnType) -> bool {
        match kind {
            ColumnType::Integer => self is Integer,
            ColumnType::Real => self is Real,
            ColumnType::Text => self is Text,
            ColumnType::Blob => self is Blob,
        }
    }
}

impl ColumnType {
    /// The keyword that declares a column of this type.
    pub open spec fn keyword_text(self) -> Seq<char> {
        match self {
            ColumnType::Integer => "INTEGER"@,
            ColumnType::Real => "REAL"@,
            ColumnType::Text => "TEXT"@,
            ColumnType::Blob => "BLOB"@,
        }
    }

    /// The keyword that declares a column of this type.
    pub fn keyword(self) -> (text: &'static str)
        ensures
            text@ == self.keyword_text(),
    {
        match self {
            ColumnType::Integer => "INTEGER",
            ColumnType::Real => "REAL",
            ColumnType::Text => "TEXT",
            ColumnType::Blob => "BLOB",
        }
    }
}

} // verus!
