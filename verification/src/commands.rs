//! The operations on connections that the front end invokes.
//!
//! Each one delegates to the persistence helper and turns a failure into
//! the text that is shown to the user.

use vstd::prelude::*;
use crate::entity::Entity;
use crate::manager::SqliteManager;
use crate::record::{Connection, ConnectionModel};
use crate::reply::{
    executed_outcome, fetched_outcome, inserted_outcome, listed_outcome, plain_result,
    record_row, record_rows, ErrorModel, Reply, StoreError,
};
use crate::statement::{
    create_table_model, delete_model, insert_model, select_all_model, select_by_id_model,
    update_model, Statement,
};
use crate::value::Cell;

verus! {

/// An outcome as the front end sees it: a failure is the text of its error.
pub open spec fn described<A>(outcome: Result<A, ErrorModel>) -> Result<A, Seq<char>> {
    match outcome {
        Ok(value) => Ok(value),
        Err(error) => Err(error.message()),
    }
}

/// The content of a result that carries a plain value.
pub open spec fn shown_plain<A>(result: Result<A, String>) -> Result<A, Seq<char>> {
    match result {
        Ok(value) => Ok(value),
        Err(text) => Err(text@),
    }
}

/// The content of the result of fetching one record.
pub open spec fn shown_fetched<T: Entity>(result: Result<Option<T>, String>) -> Result<
    Option<Seq<Cell>>,
    Seq<char>,
> {
    match result {
        Ok(Some(entity)) => Ok(Some(record_row(entity))),
        Ok(None) => Ok(None),
        Err(text) => Err(text@),
    }
}

/// The content of the result of listing records.
pub open spec fn shown_listed<T: Entity>(result: Result<Vec<T>, String>) -> Result<
    Seq<Seq<Cell>>,
    Seq<char>,
> {
    match result {
        Ok(entities) => Ok(record_rows(entities@)),
        Err(text) => Err(text@),
    }
}

/// Prepares the store at startup: creates the table of connections unless
/// it exists. A failure here leaves the application without its schema.
pub fn init_database<E: Fn(&Statement) -> Reply>(sqlite_manager: &SqliteManager<E>) -> (result:
    Result<(), StoreError>)
    ensures
        exists|reply: Reply|
            #[trigger] sqlite_manager.answers(
                create_table_model(Connection::table(), Connection::columns()),
                reply,
            ) && plain_result(result) == executed_outcome(reply@),
{
    match sqlite_manager.init_table::<Connection>() {
        Ok(()) => Ok(()),
        Err(error) => Err(error),
    }
}

/// Stores a new connection and returns the key that the store assigned.
pub fn create_connection<E: Fn(&Statement) -> Reply>(
    sqlite_manager: &SqliteManager<E>,
    uri: String,
    name: String,
    color: String,
) -> (result: Result<i64, String>)
    ensures
        exists|reply: Reply|
            #[trigger] sqlite_manager.answers(
                insert_model(
                    Connection::table(),
                    Connection::columns(),
                    (ConnectionModel { id: 0, uri_connection: uri@, name: name@, color: color@ }).fields(),
                ),
                reply,
            ) && shown_plain(result) == described(inserted_outcome(reply@)),
{
    let connection = Connection::new(uri, name, color);
    match sqlite_manager.insert(&connection) {
        Ok(id) => Ok(id),
        Err(error) => Err(error.message()),
    }
}

/// Fetches the connection with key `id`; `None` where the store holds none.
pub fn get_connection<E: Fn(&Statement) -> Reply>(sqlite_manager: &SqliteManager<E>, id: i64) -> (result:
    Result<Option<Connection>, String>)
    ensures
        exists|reply: Reply|
            #[trigger] sqlite_manager.answers(
                select_by_id_model(Connection::table(), Connection::columns(), id),
                reply,
            ) && shown_fetched(result) == described(
                fetched_outcome(reply@, Connection::columns()),
            ),
{
    match sqlite_manager.get_by_id::<Connection>(id) {
        Ok(found) => Ok(found),
        Err(error) => Err(error.message()),
    }
}

/// Replaces every field of the stored connection whose key is that of
/// `entity`. Where the store holds no such connection, nothing changes.
pub fn update_connection<E: Fn(&Statement) -> Reply>(
    sqlite_manager: &SqliteManager<E>,
    entity: Connection,
) -> (result: Result<(), String>)
    ensures
        exists|reply: Reply|
            #[trigger] sqlite_manager.answers(
                update_model(
                    Connection::table(),
                    Connection::columns(),
                    entity@.id,
                    entity@.fields(),
                ),
                reply,
            ) && shown_plain(result) == described(executed_outcome(reply@)),
{
    match sqlite_manager.update(&entity) {
        Ok(()) => Ok(()),
        Err(error) => Err(error.message()),
    }
}

/// Removes the connection with key `id`, if the store holds it.
pub fn delete_connection<E: Fn(&Statement) -> Reply>(sqlite_manager: &SqliteManager<E>, id: i64) -> (result:
    Result<(), String>)
    ensures
        exists|reply: Reply|
            #[trigger] sqlite_manager.answers(delete_model(Connection::table(), id), reply)
                && shown_plain(result) == described(executed_outcome(reply@)),
{
    match sqlite_manager.delete::<Connection>(id) {
        Ok(()) => Ok(()),
        Err(error) => Err(error.message()),
    }
}

/// Fetches every stored connection, in the engine's order.
pub fn list_connection<E: Fn(&Statement) -> Reply>(sqlite_manager: &SqliteManager<E>) -> (result:
    Result<Vec<Connection>, String>)
    ensures
        exists|reply: Reply|
            #[trigger] sqlite_manager.answers(
                select_all_model(Connection::table(), Connection::columns()),
                reply,
            ) && shown_listed(result) == described(listed_outcome(reply@, Connection::columns())),
{
    match sqlite_manager.list::<Connection>() {
        Ok(connections) => Ok(connections),
        Err(error) => Err(error.message()),
    }
}

} // verus!
