//! The connection record.

use vstd::prelude::*;
use crate::entity::{column_models, row_of, Column, ColumnModel, Entity};
use crate::value::{cells, Cell, ColumnType, Value};

verus! {

/// A saved connection: where it points, what it is called and how it is shown.
#[derive(Debug, Clone, PartialEq, Eq)]
pub struct Connection {
    /// The key that the store assigned; 0 while the record is not stored.
    pub id: i64,
    /// The connection target. It is not validated.
    pub uri_connection: String,
    /// The label shown to the user.
    pub name: String,
    /// A display hint. It is not interpreted.
    pub color: String,
}

/// The mathematical content of a [`Connection`].
pub struct ConnectionModel {
    pub id: i64,
    pub uri_connection: Seq<char>,
    pub name: Seq<char>,
    pub color: Seq<char>,
}

impl View for Connection {
    type V = ConnectionModel;

    open spec fn view(&self) -> ConnectionModel {
        ConnectionModel {
            id: self.id,
            uri_connection: self.uri_connection@,
            name: self.name@,
            color: self.color@,
        }
    }
}

impl ConnectionModel {
    /// The cells of the fields besides the key.
    pub open spec fn fields(self) -> Seq<Cell> {
        seq![Cell::Text(self.uri_connection), Cell::Text(self.name), Cell::Text(self.color)]
    }

    /// The row that stores this record.
    pub open spec fn row(self) -> Seq<Cell> {
        row_of(self.id, self.fields())
    }
}

impl Connection {
    /// A record that is not stored yet: its key is the placeholder 0.
    pub fn new(uri: String, name: String, color: String) -> (connection: Connection)
        ensures
            connection@ == (ConnectionModel { id: 0, uri_connection: uri@, name: name@, color: color@ }),
    {
        Connection { id: 0, uri_connection: uri, name, color }
    }

    /// Whether the store has assigned this record a key.
    pub fn is_persisted(&self) -> (persisted: bool)
        ensures
            persisted == (self@.id != 0),
    {
        self.id != 0
    }
}

impl Entity for Connection {
    open spec fn table() -> Seq<char> {
        "connection"@
    }

    open spec fn columns() -> Seq<ColumnModel> {
        seq![
            ColumnModel { name: "uri_connection"@, kind: ColumnType::Text },
            ColumnModel { name: "name"@, kind: ColumnType::Text },
            ColumnModel { name: "color"@, kind: ColumnType::Text },
        ]
    }

    open spec fn key(&self) -> i64 {
        self.id
    }

    open spec fn fields(&self) -> Seq<Cell> {
        self@.fields()
    }

    proof fn lemma_fields_fit(&self) {
    }

    fn table_name() -> (name: String) {
        String::from_str("connection")
    }

    fn column_list() -> (list: Vec<Column>) {
        let mut list: Vec<Column> = Vec::new();
        list.push(Column { name: String::from_str("uri_connection"), kind: ColumnType::Text });
        list.push(Column { name: String::from_str("name"), kind: ColumnType::Text });
        list.push(Column { name: String::from_str("color"), kind: ColumnType::Text });
        assert(column_models(list@) =~= Self::columns());
        list
    }

    fn id(&self) -> (id: i64) {
        self.id
    }

    fn to_values(&self) -> (values: Vec<Value>) {
        let mut values: Vec<Value> = Vec::new();
        values.push(Value::Text(self.uri_connection.clone()));
        values.push(Value::Text(self.name.clone()));
        values.push(Value::Text(self.color.clone()));
        assert(cells(values@) =~= self.fields());
        values
    }

    fn from_row(row: &Vec<Value>) -> (entity: Option<Self>) {
        if row.len() != 4 {
            return None;
        }
        let ghost given = cells(row@);
        proof {
            assert(given.skip(1).len() == 3);
            assert(given.skip(1)[0] == row[1]@);
            assert(given.skip(1)[1] == row[2]@);
            assert(given.skip(1)[2] == row[3]@);
        }
        match &row[0] {
            Value::Integer(id) => match &row[1] {
                Value::Text(uri) => match &row[2] {
                    Value::Text(name) => match &row[3] {
                        Value::Text(color) => {
                            let e = Connection {
                                id: *id,
                                uri_connection: uri.clone(),
                                name: name.clone(),
                                color: color.clone(),
                            };
                            assert(row_of(e.key(), e.fields()) =~= given);
                            Some(e)
                        },
                        _ => None,
                    },
                    _ => None,
                },
                _ => None,
            },
            _ => None,
        }
    }
}

} // verus!
