//! A typed mapping between records and the rows of an embedded SQL store.

pub mod commands;
pub mod entity;
pub mod laws;
pub mod manager;
pub mod record;
pub mod reply;
pub mod statement;
pub mod text;
pub mod value;

pub use commands::{
    create_connection, delete_connection, get_connection, init_database, list_connection,
    update_connection,
};
pub use entity::{Column, Entity};
pub use manager::SqliteManager;
pub use record::Connection;
pub use reply::{Reply, StoreError};
pub use statement::{Statement, StatementKind};
pub use value::{ColumnType, Value};
