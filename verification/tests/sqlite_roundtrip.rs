//! The library's statements and row handling, run against a real SQLite
//! database through rusqlite.

use rusqlite::types::Value;
use rusqlite::Connection;
use sqlite_viewer::db::{
    columns_from_table_info, count_rows_sql, load_page_sql, objects_from_master, page_from_rows,
    table_info_sql, CellUpdate, CellValue, ColumnInfo, DbError, DbObject, DbObjectKind, MasterRow,
    SqlValue, TableInfoRow, TablePage, UpdateAction, UpdateEvent, LIST_OBJECTS_SQL,
    WITHOUT_ROWID_SQL,
};

fn temp_db() -> (tempfile::TempDir, String) {
    let dir = tempfile::tempdir().unwrap();
    let path = dir.path().join("test.db").to_string_lossy().into_owned();
    let conn = Connection::open(&path).unwrap();
    conn.execute_batch(
        "CREATE TABLE users (id INTEGER PRIMARY KEY, name TEXT NOT NULL, age INTEGER);
         INSERT INTO users (name, age) VALUES ('Alice', 30), ('Bob', 25);",
    )
    .unwrap();
    (dir, path)
}

fn to_sql_value(v: Value) -> SqlValue {
    match v {
        Value::Null => SqlValue::Null,
        Value::Integer(i) => SqlValue::Integer(i),
        Value::Real(f) => SqlValue::Real(format!("{f}")),
        Value::Text(t) => SqlValue::Text(t),
        Value::Blob(b) => SqlValue::Blob(b),
    }
}

fn list_objects(path: &str) -> Vec<DbObject> {
    let conn = Connection::open(path).unwrap();
    let mut stmt = conn.prepare(LIST_OBJECTS_SQL).unwrap();
    let rows = stmt
        .query_map([], |row| {
            Ok(MasterRow {
                name: row.get(0)?,
                object_type: row.get(1)?,
                tbl_name: row.get(2)?,
                sql: row.get(3)?,
            })
        })
        .unwrap()
        .collect::<rusqlite::Result<Vec<_>>>()
        .unwrap();
    objects_from_master(rows)
}

fn get_columns(path: &str, table: &str) -> Vec<ColumnInfo> {
    let conn = Connection::open(path).unwrap();
    let mut stmt = conn.prepare(&table_info_sql(table)).unwrap();
    let rows = stmt
        .query_map([], |row| {
            Ok(TableInfoRow {
                name: row.get(1)?,
                declared_type: row.get(2)?,
                not_null: row.get(3)?,
                pk: row.get(5)?,
            })
        })
        .unwrap()
        .collect::<rusqlite::Result<Vec<_>>>()
        .unwrap();
    columns_from_table_info(rows)
}

fn load_page(path: &str, table: &str, columns: &[ColumnInfo], offset: i64, limit: i64) -> TablePage {
    let conn = Connection::open(path).unwrap();
    let mut stmt = conn.prepare(&load_page_sql(table, columns, offset, limit)).unwrap();
    let width = stmt.column_count();
    let mut query = stmt.query([]).unwrap();
    let mut fetched = Vec::new();
    while let Some(row) = query.next().unwrap() {
        let values = (0..width).map(|i| to_sql_value(row.get::<_, Value>(i).unwrap())).collect();
        fetched.push(values);
    }
    page_from_rows(columns, fetched, limit)
}

fn update_cell(
    path: &str,
    table: &str,
    columns: &[ColumnInfo],
    column_idx: usize,
    row: &[CellValue],
    new_value: &str,
) -> Result<(), DbError> {
    let update = CellUpdate {
        table: table.to_string(),
        columns: columns.to_vec(),
        column_idx,
        row: row.to_vec(),
        new_value: new_value.to_string(),
    };
    let mut conn: Option<Connection> = None;
    let mut event = UpdateEvent::Start;
    loop {
        event = match update.next(event) {
            UpdateAction::OpenWritable => {
                conn = Some(Connection::open(path).unwrap());
                UpdateEvent::Opened
            }
            UpdateAction::CheckWithoutRowid => {
                let found = conn
                    .as_ref()
                    .unwrap()
                    .query_row(WITHOUT_ROWID_SQL, [table], |_| Ok(true))
                    .unwrap_or(false);
                UpdateEvent::WithoutRowidChecked(found)
            }
            UpdateAction::LookupRowid(sql) => {
                let conn = conn.as_ref().unwrap();
                let rowids = conn
                    .prepare(&sql)
                    .and_then(|mut stmt| {
                        stmt.query_map([], |r| r.get(0))?.collect::<rusqlite::Result<Vec<i64>>>()
                    })
                    .unwrap_or_default();
                UpdateEvent::RowidsLookedUp(rowids)
            }
            UpdateAction::Execute(sql) => {
                conn.as_ref().unwrap().execute(&sql, []).unwrap();
                UpdateEvent::Executed
            }
            UpdateAction::Fail(e) => return Err(e),
            UpdateAction::Done => return Ok(()),
        };
    }
}

#[test]
fn list_and_read() {
    let (_dir, path) = temp_db();
    let objs = list_objects(&path);
    assert!(
        objs.iter()
            .any(|o| o.name == "users" && o.kind == DbObjectKind::Table)
    );

    let cols = get_columns(&path, "users");
    assert_eq!(cols.len(), 3);
    assert!(cols[0].is_pk && cols[0].is_rowid_alias);

    let page = load_page(&path, "users", &cols, 0, 10);
    assert_eq!(page.rows.len(), 2);
    assert_eq!(page.rows[0].values[1], CellValue::Text("Alice".into()));
}

#[test]
fn update_cell_works() {
    let (_dir, path) = temp_db();
    let cols = get_columns(&path, "users");
    let page = load_page(&path, "users", &cols, 0, 10);
    let alice_row = page
        .rows
        .iter()
        .find(|r| r.values[1] == CellValue::Text("Alice".into()))
        .unwrap();
    update_cell(&path, "users", &cols, 1, &alice_row.values, "Alicia").unwrap();

    let cols2 = get_columns(&path, "users");
    let page2 = load_page(&path, "users", &cols2, 0, 10);
    assert!(
        page2
            .rows
            .iter()
            .any(|r| r.values[1] == CellValue::Text("Alicia".into()))
    );
}

#[test]
fn paging_reports_more_rows() {
    let (_dir, path) = temp_db();
    let conn = Connection::open(&path).unwrap();
    conn.execute_batch("INSERT INTO users (name, age) VALUES ('Carol', 41);").unwrap();
    let count: i64 = conn.query_row(&count_rows_sql("users"), [], |r| r.get(0)).unwrap();
    assert_eq!(count, 3);
    let cols = get_columns(&path, "users");
    let first = load_page(&path, "users", &cols, 0, 2);
    assert_eq!(first.rows.len(), 2);
    assert!(first.has_more);
    let second = load_page(&path, "users", &cols, 2, 2);
    assert_eq!(second.rows.len(), 1);
    assert!(!second.has_more);
    assert_eq!(second.rows[0].values[1], CellValue::Text("Carol".into()));
}

#[test]
fn update_locates_row_without_key_and_refuses_without_rowid() {
    let (_dir, path) = temp_db();
    let conn = Connection::open(&path).unwrap();
    conn.execute_batch(
        "CREATE TABLE notes (\"ti\"\"tle\" TEXT, score REAL);
         INSERT INTO notes VALUES ('it''s', 1.5), ('other', NULL);
         CREATE TABLE kv (k TEXT PRIMARY KEY, v TEXT) WITHOUT ROWID;
         INSERT INTO kv VALUES ('a', 'b');",
    )
    .unwrap();
    let table = "notes";
    let cols = get_columns(&path, table);
    assert!(!cols.iter().any(|c| c.is_rowid_alias));
    assert_eq!(cols[0].name, "ti\"tle");
    let page = load_page(&path, table, &cols, 0, 10);
    assert_eq!(page.rows[0].values[1], CellValue::Real("1.5".into()));
    update_cell(&path, table, &cols, 0, &page.rows[0].values, "changed").unwrap();
    let page = load_page(&path, table, &cols, 0, 10);
    assert_eq!(page.rows[0].values[0], CellValue::Text("changed".into()));
    assert_eq!(page.rows[1].values[0], CellValue::Text("other".into()));

    let kv_cols = get_columns(&path, "kv");
    let kv_page = load_page(&path, "kv", &kv_cols, 0, 10);
    assert_eq!(
        update_cell(&path, "kv", &kv_cols, 1, &kv_page.rows[0].values, "c"),
        Err(DbError::WithoutRowid)
    );
}

#[test]
fn objects_named_like_sqlite_are_listed() {
    let (_dir, path) = temp_db();
    let conn = Connection::open(&path).unwrap();
    conn.execute_batch(
        "CREATE TABLE sqlite3data (x INTEGER);
         CREATE TABLE SQLiteNotes (x INTEGER);
         CREATE TABLE counter (id INTEGER PRIMARY KEY AUTOINCREMENT, v TEXT);
         CREATE TABLE pair (a TEXT, b TEXT, PRIMARY KEY (a, b));
         INSERT INTO counter (v) VALUES ('x');",
    )
    .unwrap();
    let names: Vec<String> = list_objects(&path).into_iter().map(|o| o.name).collect();
    assert!(names.contains(&"sqlite3data".to_string()));
    assert!(names.contains(&"SQLiteNotes".to_string()));
    assert!(!names.iter().any(|n| n.starts_with("sqlite_")));
    let all: i64 = conn
        .query_row("SELECT COUNT(*) FROM sqlite_master WHERE name LIKE 'sqlite_%'", [], |r| r.get(0))
        .unwrap();
    assert!(all >= 3);
}

#[test]
fn composite_integer_key_is_not_rowid_alias() {
    let (_dir, path) = temp_db();
    let conn = Connection::open(&path).unwrap();
    conn.execute_batch(
        "CREATE TABLE t (a INTEGER, b INTEGER, c TEXT, PRIMARY KEY (a, b));
         INSERT INTO t VALUES (1, 1, 'x'), (1, 2, 'y');",
    )
    .unwrap();
    let cols = get_columns(&path, "t");
    assert_eq!(cols.len(), 3);
    assert!(cols[0].is_pk && cols[1].is_pk && !cols[2].is_pk);
    assert!(!cols[0].is_rowid_alias && !cols[1].is_rowid_alias);
    let page = load_page(&path, "t", &cols, 0, 10);
    update_cell(&path, "t", &cols, 2, &page.rows[1].values, "z").unwrap();
    let page = load_page(&path, "t", &cols, 0, 10);
    assert_eq!(page.rows[0].values[2], CellValue::Text("x".into()));
    assert_eq!(page.rows[1].values[2], CellValue::Text("z".into()));
}

#[test]
fn table_name_needing_quotes_opens() {
    let (_dir, path) = temp_db();
    let conn = Connection::open(&path).unwrap();
    conn.execute_batch("CREATE TABLE \"my table\" (x INTEGER); INSERT INTO \"my table\" VALUES (5);").unwrap();
    let cols = get_columns(&path, "my table");
    assert_eq!(cols.len(), 1);
    assert_eq!(cols[0].name, "x");
    let page = load_page(&path, "my table", &cols, 0, 10);
    assert_eq!(page.rows[0].values[0], CellValue::Integer(5));
}

#[test]
fn duplicate_rows_are_not_edited() {
    let (_dir, path) = temp_db();
    let conn = Connection::open(&path).unwrap();
    conn.execute_batch("CREATE TABLE d (v TEXT); INSERT INTO d VALUES ('same'), ('same'), ('other');")
        .unwrap();
    let cols = get_columns(&path, "d");
    let page = load_page(&path, "d", &cols, 0, 10);
    assert_eq!(
        update_cell(&path, "d", &cols, 0, &page.rows[0].values, "new"),
        Err(DbError::RowNotLocated)
    );
    update_cell(&path, "d", &cols, 0, &page.rows[2].values, "changed").unwrap();
    let page = load_page(&path, "d", &cols, 0, 10);
    let texts: Vec<CellValue> = page.rows.iter().map(|r| r.values[0].clone()).collect();
    assert_eq!(
        texts,
        vec![
            CellValue::Text("same".into()),
            CellValue::Text("same".into()),
            CellValue::Text("changed".into())
        ]
    );
}

#[test]
fn consecutive_pages_list_every_row_once() {
    let (_dir, path) = temp_db();
    let conn = Connection::open(&path).unwrap();
    for i in 0..23 {
        conn.execute(&format!("INSERT INTO users (name, age) VALUES ('u{i}', {i})"), [])
            .unwrap();
    }
    let cols = get_columns(&path, "users");
    let all = load_page(&path, "users", &cols, 0, 25);
    assert_eq!(all.rows.len(), 25);
    assert!(!all.has_more);
    let mut paged = Vec::new();
    let mut k = 0;
    loop {
        let page = load_page(&path, "users", &cols, k * 4, 4);
        paged.extend(page.rows.into_iter().map(|r| r.values));
        k += 1;
        if !page.has_more {
            break;
        }
    }
    assert_eq!(k, 7);
    let expected: Vec<Vec<CellValue>> = all.rows.into_iter().map(|r| r.values).collect();
    assert_eq!(paged, expected);
    assert!(load_page(&path, "users", &cols, 28, 4).rows.is_empty());
}

#[test]
fn update_changes_only_the_target_cell() {
    let (_dir, path) = temp_db();
    let cols = get_columns(&path, "users");
    let before = load_page(&path, "users", &cols, 0, 10);
    let value = "x'); DROP TABLE users; --\"q\"";
    update_cell(&path, "users", &cols, 1, &before.rows[1].values, value).unwrap();
    let after = load_page(&path, "users", &cols, 0, 10);
    assert_eq!(after.rows.len(), before.rows.len());
    for (r, (b, a)) in before.rows.iter().zip(after.rows.iter()).enumerate() {
        for c in 0..3 {
            if r == 1 && c == 1 {
                assert_eq!(a.values[c], CellValue::Text(value.into()));
            } else {
                assert_eq!(a.values[c], b.values[c]);
            }
        }
    }
}
