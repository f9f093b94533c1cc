use std::cell::RefCell;
use std::rc::Rc;

use connection_store::{
    create_connection, delete_connection, get_connection, init_database, list_connection,
    update_connection, Connection, Reply, SqliteManager, Statement, StatementKind, StoreError,
    Value,
};

fn to_engine(value: &Value) -> rusqlite::types::Value {
    match value {
        Value::Null => rusqlite::types::Value::Null,
        Value::Integer(n) => rusqlite::types::Value::Integer(*n),
        Value::Real(bits) => rusqlite::types::Value::Real(f64::from_bits(*bits)),
        Value::Text(s) => rusqlite::types::Value::Text(s.clone()),
        Value::Blob(bytes) => rusqlite::types::Value::Blob(bytes.clone()),
    }
}

fn from_engine(value: rusqlite::types::Value) -> Value {
    match value {
        rusqlite::types::Value::Null => Value::Null,
        rusqlite::types::Value::Integer(n) => Value::Integer(n),
        rusqlite::types::Value::Real(x) => Value::Real(x.to_bits()),
        rusqlite::types::Value::Text(s) => Value::Text(s),
        rusqlite::types::Value::Blob(bytes) => Value::Blob(bytes),
    }
}

fn query(
    db: &rusqlite::Connection,
    sql: &str,
    params: Vec<rusqlite::types::Value>,
) -> Result<Vec<Vec<Value>>, rusqlite::Error> {
    let mut prepared = db.prepare(sql)?;
    let width = prepared.column_count();
    let mut rows = prepared.query(rusqlite::params_from_iter(params))?;
    let mut table = Vec::new();
    while let Some(row) = rows.next()? {
        let mut cells = Vec::new();
        for i in 0..width {
            cells.push(from_engine(row.get(i)?));
        }
        table.push(cells);
    }
    Ok(table)
}

fn run(db: &rusqlite::Connection, statement: &Statement) -> Reply {
    let params: Vec<rusqlite::types::Value> = statement.params.iter().map(to_engine).collect();
    match statement.kind {
        StatementKind::Execute => {
            match db.execute(&statement.sql, rusqlite::params_from_iter(params)) {
                Ok(changed) => Reply::Executed { changed, last_insert_rowid: db.last_insert_rowid() },
                Err(error) => Reply::Failed(error.to_string()),
            }
        }
        StatementKind::Query => match query(db, &statement.sql, params) {
            Ok(rows) => Reply::Rows(rows),
            Err(error) => Reply::Failed(error.to_string()),
        },
    }
}

fn sqlite() -> Rc<rusqlite::Connection> {
    Rc::new(rusqlite::Connection::open_in_memory().unwrap())
}

fn manager(db: &Rc<rusqlite::Connection>) -> SqliteManager<impl Fn(&Statement) -> Reply> {
    let db = Rc::clone(db);
    SqliteManager::new(move |statement: &Statement| run(&db, statement))
}

fn ready() -> SqliteManager<impl Fn(&Statement) -> Reply> {
    let manager = manager(&sqlite());
    init_database(&manager).unwrap();
    manager
}

fn connection(id: i64, uri: &str, name: &str, color: &str) -> Connection {
    Connection {
        id,
        uri_connection: uri.to_string(),
        name: name.to_string(),
        color: color.to_string(),
    }
}

fn create(
    manager: &SqliteManager<impl Fn(&Statement) -> Reply>,
    uri: &str,
    name: &str,
    color: &str,
) -> i64 {
    create_connection(manager, uri.to_string(), name.to_string(), color.to_string()).unwrap()
}

#[test]
fn insert_then_get_round_trips() {
    let manager = ready();
    let id = create(&manager, "x", "y", "z");
    assert_ne!(id, 0);
    assert_eq!(get_connection(&manager, id), Ok(Some(connection(id, "x", "y", "z"))));
}

#[test]
fn insert_ignores_the_key_of_the_record() {
    let manager = ready();
    let first = manager.insert(&connection(500, "a", "b", "c")).unwrap();
    let second = manager.insert(&connection(500, "d", "e", "f")).unwrap();
    assert_eq!(first, 1);
    assert_eq!(second, 2);
    assert_eq!(manager.get_by_id::<Connection>(500), Ok(None));
}

#[test]
fn texts_are_stored_as_data() {
    let manager = ready();
    let uri = "x'); DROP TABLE connection; --";
    let name = "caf\u{e9} \u{1f600} \"quoted\"";
    let id = create(&manager, uri, name, "");
    assert_eq!(get_connection(&manager, id), Ok(Some(connection(id, uri, name, ""))));
    assert_eq!(list_connection(&manager).unwrap().len(), 1);
}

#[test]
fn init_twice_keeps_the_rows() {
    let db = sqlite();
    let manager = manager(&db);
    assert_eq!(init_database(&manager), Ok(()));
    assert_eq!(init_database(&manager), Ok(()));
    let a = create(&manager, "a", "A", "red");
    let b = create(&manager, "b", "B", "blue");
    let before = list_connection(&manager).unwrap();
    assert_eq!(init_database(&manager), Ok(()));
    assert_eq!(manager.init_table::<Connection>(), Ok(()));
    assert_eq!(list_connection(&manager).unwrap(), before);
    assert_eq!(before, vec![connection(a, "a", "A", "red"), connection(b, "b", "B", "blue")]);
}

#[test]
fn delete_then_get_is_absent() {
    let manager = ready();
    let id = create(&manager, "x", "y", "z");
    assert_eq!(delete_connection(&manager, id), Ok(()));
    assert_eq!(get_connection(&manager, id), Ok(None));
    assert_eq!(list_connection(&manager), Ok(vec![]));
}

#[test]
fn delete_removes_only_its_row() {
    let manager = ready();
    let a = create(&manager, "a", "A", "red");
    let b = create(&manager, "b", "B", "blue");
    let c = create(&manager, "c", "C", "green");
    assert_eq!(delete_connection(&manager, b), Ok(()));
    assert_eq!(
        list_connection(&manager),
        Ok(vec![connection(a, "a", "A", "red"), connection(c, "c", "C", "green")])
    );
}

#[test]
fn list_returns_every_inserted_record() {
    let manager = ready();
    let mut expected = Vec::new();
    for i in 0..25 {
        let uri = format!("host-{i}");
        let name = format!("name {i}");
        let color = format!("#{i:06x}");
        let id = create(&manager, &uri, &name, &color);
        expected.push(connection(id, &uri, &name, &color));
    }
    let mut listed = list_connection(&manager).unwrap();
    assert_eq!(listed.len(), 25);
    listed.sort_by_key(|c| c.id);
    expected.sort_by_key(|c| c.id);
    assert_eq!(listed, expected);
    let mut ids: Vec<i64> = listed.iter().map(|c| c.id).collect();
    ids.dedup();
    assert_eq!(ids.len(), 25);
}

#[test]
fn list_of_an_empty_table_is_empty() {
    let manager = ready();
    assert_eq!(list_connection(&manager), Ok(vec![]));
}

#[test]
fn update_replaces_every_field() {
    let manager = ready();
    let id = create(&manager, "old-uri", "old-name", "old-color");
    assert_eq!(update_connection(&manager, connection(id, "new-uri", "new-name", "")), Ok(()));
    assert_eq!(get_connection(&manager, id), Ok(Some(connection(id, "new-uri", "new-name", ""))));
}

#[test]
fn update_touches_only_its_row() {
    let manager = ready();
    let a = create(&manager, "a", "A", "red");
    let b = create(&manager, "b", "B", "blue");
    assert_eq!(update_connection(&manager, connection(b, "b2", "B2", "navy")), Ok(()));
    assert_eq!(
        list_connection(&manager),
        Ok(vec![connection(a, "a", "A", "red"), connection(b, "b2", "B2", "navy")])
    );
}

#[test]
fn unknown_id_is_never_an_error() {
    let manager = ready();
    let id = create(&manager, "x", "y", "z");
    for unknown in [0, -1, id + 1, i64::MAX, i64::MIN] {
        assert_eq!(get_connection(&manager, unknown), Ok(None));
        assert_eq!(update_connection(&manager, connection(unknown, "u", "n", "c")), Ok(()));
        assert_eq!(delete_connection(&manager, unknown), Ok(()));
    }
    assert_eq!(list_connection(&manager), Ok(vec![connection(id, "x", "y", "z")]));
}

#[test]
fn a_missing_table_is_a_storage_error() {
    let manager = manager(&sqlite());
    match manager.insert(&connection(0, "x", "y", "z")) {
        Err(StoreError::Storage(reason)) => assert!(reason.contains("connection")),
        other => panic!("unexpected {other:?}"),
    }
    let shown = get_connection(&manager, 1).unwrap_err();
    assert!(shown.contains("no such table"));
    assert!(list_connection(&manager).is_err());
    assert!(update_connection(&manager, connection(1, "x", "y", "z")).is_err());
    assert!(delete_connection(&manager, 1).is_err());
    assert!(create_connection(&manager, "x".to_string(), "y".to_string(), "z".to_string()).is_err());
}

#[test]
fn a_row_of_another_shape_is_malformed() {
    let db = sqlite();
    db.execute_batch(
        "CREATE TABLE connection (id INTEGER PRIMARY KEY, uri_connection, name, color);
         INSERT INTO connection VALUES (1, 'u', NULL, 'c');",
    )
    .unwrap();
    let manager = manager(&db);
    assert_eq!(manager.get_by_id::<Connection>(1), Err(StoreError::Malformed));
    assert_eq!(manager.list::<Connection>(), Err(StoreError::Malformed));
    assert_eq!(get_connection(&manager, 1), Err("malformed data in the store".to_string()));
    assert_eq!(get_connection(&manager, 2), Ok(None));
}

#[test]
fn each_operation_hands_the_engine_one_statement() {
    let seen: Rc<RefCell<Vec<Statement>>> = Rc::new(RefCell::new(Vec::new()));
    let log = Rc::clone(&seen);
    let manager = SqliteManager::new(move |statement: &Statement| {
        log.borrow_mut().push(statement.clone());
        match statement.kind {
            StatementKind::Execute => Reply::Executed { changed: 1, last_insert_rowid: 9 },
            StatementKind::Query => Reply::Rows(vec![]),
        }
    });
    let record = connection(3, "u", "n", "c");
    assert_eq!(init_database(&manager), Ok(()));
    assert_eq!(manager.insert(&record), Ok(9));
    assert_eq!(manager.get_by_id::<Connection>(3), Ok(None));
    assert_eq!(manager.update(&record), Ok(()));
    assert_eq!(manager.delete::<Connection>(3), Ok(()));
    assert_eq!(manager.list::<Connection>(), Ok(vec![]));
    let expected = vec![
        Statement::create_table::<Connection>(),
        Statement::insert(&record),
        Statement::select_by_id::<Connection>(3),
        Statement::update(&record),
        Statement::delete::<Connection>(3),
        Statement::select_all::<Connection>(),
    ];
    assert_eq!(*seen.borrow(), expected);
}

#[test]
fn commands_show_the_engine_failure_as_text() {
    let manager = SqliteManager::new(|_: &Statement| Reply::Failed("database is locked".to_string()));
    let locked = "database is locked".to_string();
    assert_eq!(init_database(&manager), Err(StoreError::Storage(locked.clone())));
    assert_eq!(
        create_connection(&manager, "x".to_string(), "y".to_string(), "z".to_string()),
        Err(locked.clone())
    );
    assert_eq!(get_connection(&manager, 1), Err(locked.clone()));
    assert_eq!(update_connection(&manager, connection(1, "x", "y", "z")), Err(locked.clone()));
    assert_eq!(delete_connection(&manager, 1), Err(locked.clone()));
    assert_eq!(list_connection(&manager), Err(locked));
}
