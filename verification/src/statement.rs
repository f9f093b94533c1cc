//! The one statement that each operation hands to the storage engine.

use vstd::prelude::*;
use crate::entity::{column_models, Column, ColumnModel, Entity};
use crate::text::{decimal, decimal_text, join, joined, texts};
use crate::value::{cells, Cell, Value};

verus! {

/// How the engine is to run a statement.
#[derive(Debug, Clone, Copy, PartialEq, Eq, Structural)]
pub enum StatementKind {
    /// The statement changes the store and yields no rows.
    Execute,
    /// The statement yields rows and changes nothing.
    Query,
}

/// A statement for the storage engine: its text, the values bound to its
/// numbered parameters in order, and how it is to be run.
#[derive(Debug, Clone, PartialEq, Eq)]
pub struct Statement {
    pub sql: String,
    pub params: Vec<Value>,
    pub kind: StatementKind,
}

/// The mathematical content of a [`Statement`].
pub struct StatementModel {
    pub sql: Seq<char>,
    pub params: Seq<Cell>,
    pub kind: StatementKind,
}

impl View for Statement {
    type V = StatementModel;

    open spec fn view(&self) -> StatementModel {
        StatementModel { sql: self.sql@, params: cells(self.params@), kind: self.kind }
    }
}

/// The parameter with number `n`, written `?n`.
pub open spec fn placeholder(n: nat) -> Seq<char> {
    "?"@ + decimal(n)
}

/// The names of the columns, in order.
pub open spec fn names(columns: Seq<ColumnModel>) -> Seq<Seq<char>> {
    Seq::new(columns.len(), |i: int| columns[i].name)
}

/// One declaration per column: its name, its type, and that it is never `NULL`.
pub open spec fn declarations(columns: Seq<ColumnModel>) -> Seq<Seq<char>> {
    Seq::new(
        columns.len(),
        |i: int| columns[i].name + " "@ + columns[i].kind.keyword_text() + " NOT NULL"@,
    )
}

/// The parameters `?1` to `?count`.
pub open spec fn placeholders(count: nat) -> Seq<Seq<char>> {
    Seq::new(count, |i: int| placeholder((i + 1) as nat))
}

/// One assignment per column: the column with number `i`, counted from 0,
/// takes the parameter `i + 1`.
pub open spec fn assignments(columns: Seq<ColumnModel>) -> Seq<Seq<char>> {
    Seq::new(columns.len(), |i: int| columns[i].name + " = "@ + placeholder((i + 1) as nat))
}

/// Creates the table unless it exists.
pub open spec fn create_table_model(table: Seq<char>, columns: Seq<ColumnModel>) -> StatementModel {
    StatementModel {
        sql: "CREATE TABLE IF NOT EXISTS "@ + table + " (id INTEGER PRIMARY KEY AUTOINCREMENT, "@
            + joined(declarations(columns), ", "@) + ")"@,
        params: Seq::empty(),
        kind: StatementKind::Execute,
    }
}

/// Adds one row that holds `fields`; the store assigns its key.
pub open spec fn insert_model(
    table: Seq<char>,
    columns: Seq<ColumnModel>,
    fields: Seq<Cell>,
) -> StatementModel {
    StatementModel {
        sql: "INSERT INTO "@ + table + " ("@ + joined(names(columns), ", "@) + ") VALUES ("@
            + joined(placeholders(columns.len()), ", "@) + ")"@,
        params: fields,
        kind: StatementKind::Execute,
    }
}

/// Reads every row, key first.
pub open spec fn select_all_model(table: Seq<char>, columns: Seq<ColumnModel>) -> StatementModel {
    StatementModel {
        sql: "SELECT id, "@ + joined(names(columns), ", "@) + " FROM "@ + table,
        params: Seq::empty(),
        kind: StatementKind::Query,
    }
}

/// Reads the row with key `id`, key first.
pub open spec fn select_by_id_model(
    table: Seq<char>,
    columns: Seq<ColumnModel>,
    id: i64,
) -> StatementModel {
    StatementModel {
        sql: select_all_model(table, columns).sql + " WHERE id = ?1"@,
        params: seq![Cell::Integer(id)],
        kind: StatementKind::Query,
    }
}

/// Replaces every field of the row with key `key` by `fields`.
pub open spec fn update_model(
    table: Seq<char>,
    columns: Seq<ColumnModel>,
    key: i64,
    fields: Seq<Cell>,
) -> StatementModel {
    StatementModel {
        sql: "UPDATE "@ + table + " SET "@ + joined(assignments(columns), ", "@) + " WHERE id = "@
            + placeholder(columns.len() + 1),
        params: fields.push(Cell::Integer(key)),
        kind: StatementKind::Execute,
    }
}

/// Removes the row with key `id`.
pub open spec fn delete_model(table: Seq<char>, id: i64) -> StatementModel {
    StatementModel {
        sql: "DELETE FROM "@ + table + " WHERE id = ?1"@,
        params: seq![Cell::Integer(id)],
        kind: StatementKind::Execute,
    }
}

/// The parameter that follows `count` others.
fn next_placeholder(count: usize) -> (text: String)
    ensures
        text@ == placeholder((count + 1) as nat),
{
    let mut text = String::from_str("?");
    let number = decimal_text(count as u128 + 1);
    text.append(number.as_str());
    text
}

fn name_list(columns: &Vec<Column>) -> (list: Vec<String>)
    ensures
        texts(list@) == names(column_models(columns@)),
{
    let mut list: Vec<String> = Vec::new();
    let mut i: usize = 0;
    while i < columns.len()
        invariant
            i <= columns.len(),
            list@.len() == i,
            forall|j: int| 0 <= j < i ==> (#[trigger] list@[j])@ == columns@[j].name@,
        decreases columns.len() - i,
    {
        list.push(columns[i].name.clone());
        i += 1;
    }
    assert(texts(list@) =~= names(column_models(columns@)));
    list
}

fn declaration_list(columns: &Vec<Column>) -> (list: Vec<String>)
    ensures
        texts(list@) == declarations(column_models(columns@)),
{
    let mut list: Vec<String> = Vec::new();
    let mut i: usize = 0;
    while i < columns.len()
        invariant
            i <= columns.len(),
            list@.len() == i,
            forall|j: int|
                0 <= j < i ==> (#[trigger] list@[j])@ == columns@[j].name@ + " "@
                    + columns@[j].kind.keyword_text() + " NOT NULL"@,
        decreases columns.len() - i,
    {
        let mut text = columns[i].name.clone();
        text.append(" ");
        text.append(columns[i].kind.keyword());
        text.append(" NOT NULL");
        list.push(text);
        i += 1;
    }
    assert(texts(list@) =~= declarations(column_models(columns@)));
    list
}

fn placeholder_list(count: usize) -> (list: Vec<String>)
    ensures
        texts(list@) == placeholders(count as nat),
{
    let mut list: Vec<String> = Vec::new();
    let mut i: usize = 0;
    while i < count
        invariant
            i <= count,
            list@.len() == i,
            forall|j: int| 0 <= j < i ==> (#[trigger] list@[j])@ == placeholder((j + 1) as nat),
        decreases count - i,
    {
        list.push(next_placeholder(i));
        i += 1;
    }
    assert(texts(list@) =~= placeholders(count as nat));
    list
}

fn assignment_list(columns: &Vec<Column>) -> (list: Vec<String>)
    ensures
        texts(list@) == assignments(column_models(columns@)),
{
    let mut list: Vec<String> = Vec::new();
    let mut i: usize = 0;
    while i < columns.len()
        invariant
            i <= columns.len(),
            list@.len() == i,
            forall|j: int|
                0 <= j < i ==> (#[trigger] list@[j])@ == columns@[j].name@ + " = "@ + placeholder(
                    (j + 1) as nat,
                ),
        decreases columns.len() - i,
    {
        let mut text = columns[i].name.clone();
        text.append(" = ");
        let parameter = next_placeholder(i);
        text.append(parameter.as_str());
        list.push(text);
        i += 1;
    }
    assert(texts(list@) =~= assignments(column_models(columns@)));
    list
}

impl Statement {
    /// The statement that creates the table of `T` unless it exists.
    pub fn create_table<T: Entity>() -> (statement: Statement)
        ensures
            statement@ == create_table_model(T::table(), T::columns()),
    {
        let columns = T::column_list();
        let table = T::table_name();
        let declared = declaration_list(&columns);
        let mut sql = String::from_str("CREATE TABLE IF NOT EXISTS ");
        sql.append(table.as_str());
        sql.append(" (id INTEGER PRIMARY KEY AUTOINCREMENT, ");
        sql.append(join(&declared, ", ").as_str());
        sql.append(")");
        let statement = Statement { sql, params: Vec::new(), kind: StatementKind::Execute };
        assert(statement@.params =~= Seq::empty());
        statement
    }

    /// The statement that stores `entity` as a new row. It binds every
    /// field and not the key, which the store assigns.
    pub fn insert<T: Entity>(entity: &T) -> (statement: Statement)
        ensures
            statement@ == insert_model(T::table(), T::columns(), entity.fields()),
    {
        let columns = T::column_list();
        let table = T::table_name();
        let named = name_list(&columns);
        let numbered = placeholder_list(columns.len());
        let mut sql = String::from_str("INSERT INTO ");
        sql.append(table.as_str());
        sql.append(" (");
        sql.append(join(&named, ", ").as_str());
        sql.append(") VALUES (");
        sql.append(join(&numbered, ", ").as_str());
        sql.append(")");
        Statement { sql, params: entity.to_values(), kind: StatementKind::Execute }
    }

    /// The statement that reads every row of the table of `T`.
    pub fn select_all<T: Entity>() -> (statement: Statement)
        ensures
            statement@ == select_all_model(T::table(), T::columns()),
    {
        let columns = T::column_list();
        let table = T::table_name();
        let named = name_list(&columns);
        let mut sql = String::from_str("SELECT id, ");
        sql.append(join(&named, ", ").as_str());
        sql.append(" FROM ");
        sql.append(table.as_str());
        let statement = Statement { sql, params: Vec::new(), kind: StatementKind::Query };
        assert(statement@.params =~= Seq::empty());
        statement
    }

    /// The statement that reads the row of the table of `T` with key `id`.
    pub fn select_by_id<T: Entity>(id: i64) -> (statement: Statement)
        ensures
            statement@ == select_by_id_model(T::table(), T::columns(), id),
    {
        let all = Statement::select_all::<T>();
        let mut sql = all.sql;
        sql.append(" WHERE id = ?1");
        let mut params: Vec<Value> = Vec::new();
        params.push(Value::Integer(id));
        let statement = Statement { sql, params, kind: StatementKind::Query };
        assert(statement@.params =~= seq![Cell::Integer(id)]);
        statement
    }

    /// The statement that replaces the row whose key is that of `entity`.
    /// It binds every field, then the key.
    pub fn update<T: Entity>(entity: &T) -> (statement: Statement)
        ensures
            statement@ == update_model(T::table(), T::columns(), entity.key(), entity.fields()),
    {
        let columns = T::column_list();
        let table = T::table_name();
        let assigned = assignment_list(&columns);
        let mut sql = String::from_str("UPDATE ");
        sql.append(table.as_str());
        sql.append(" SET ");
        sql.append(join(&assigned, ", ").as_str());
        sql.append(" WHERE id = ");
        let last = next_placeholder(columns.len());
        sql.append(last.as_str());
        let mut params = entity.to_values();
        params.push(Value::Integer(entity.id()));
        let statement = Statement { sql, params, kind: StatementKind::Execute };
        assert(statement@.params =~= entity.fields().push(Cell::Integer(entity.key())));
        statement
    }

    /// The statement that removes the row of the table of `T` with key `id`.
    pub fn delete<T: Entity>(id: i64) -> (statement: Statement)
        ensures
            statement@ == delete_model(T::table(), id),
    {
        let table = T::table_name();
        let mut sql = String::from_str("DELETE FROM ");
        sql.append(table.as_str());
        sql.append(" WHERE id = ?1");
        let mut params: Vec<Value> = Vec::new();
        params.push(Value::Integer(id));
        let statement = Statement { sql, params, kind: StatementKind::Execute };
        assert(statement@.params =~= seq![Cell::Integer(id)]);
        statement
    }
}

} // verus!
