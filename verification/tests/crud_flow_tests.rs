use easy_db::codec::row_to_json;
use easy_db::handler::{
    create_reply, delete_reply, list_reply, plan_create, plan_delete, plan_list, plan_update,
    update_reply, ReplyBody,
};
use easy_db::query::{build_create_table, SqlQuery};
use easy_db::registry::Registry;
use easy_db::value::{CellValue, JsonVal, Record, SqlValue};
use rusqlite::Connection;

fn to_engine_value(v: &SqlValue) -> rusqlite::types::Value {
    match v {
        SqlValue::Null => rusqlite::types::Value::Null,
        SqlValue::Bool(b) => rusqlite::types::Value::Integer(if *b { 1 } else { 0 }),
        SqlValue::Int(n) => rusqlite::types::Value::Integer(*n),
        SqlValue::Real(bits) => rusqlite::types::Value::Real(f64::from_bits(*bits)),
        SqlValue::Text(s) => rusqlite::types::Value::Text(s.clone()),
    }
}

fn execute(conn: &Connection, q: &SqlQuery) -> Result<usize, String> {
    let vals: Vec<rusqlite::types::Value> = q.params.iter().map(to_engine_value).collect();
    conn.execute(&q.sql, rusqlite::params_from_iter(vals))
        .map_err(|e| e.to_string())
}

fn query_rows(conn: &Connection, q: &SqlQuery) -> Result<Vec<Record>, String> {
    let mut stmt = conn.prepare(&q.sql).map_err(|e| e.to_string())?;
    let names: Vec<String> = stmt.column_names().iter().map(|n| n.to_string()).collect();
    let vals: Vec<rusqlite::types::Value> = q.params.iter().map(to_engine_value).collect();
    let mut rows = stmt
        .query(rusqlite::params_from_iter(vals))
        .map_err(|e| e.to_string())?;
    let mut out = Vec::new();
    while let Some(row) = rows.next().map_err(|e| e.to_string())? {
        let mut cells = Vec::new();
        for (i, name) in names.iter().enumerate() {
            let cell = match row.get_ref(i).map_err(|e| e.to_string())? {
                rusqlite::types::ValueRef::Null => CellValue::Null,
                rusqlite::types::ValueRef::Integer(n) => CellValue::Int(n),
                rusqlite::types::ValueRef::Real(f) => CellValue::Real(f.to_bits()),
                rusqlite::types::ValueRef::Text(t) => CellValue::Text(t.to_vec()),
                rusqlite::types::ValueRef::Blob(b) => CellValue::Blob(b.to_vec()),
            };
            cells.push((name.clone(), cell));
        }
        out.push(row_to_json(&cells));
    }
    Ok(out)
}

fn setup_students() -> (Connection, Registry) {
    let conn = Connection::open_in_memory().expect("open in-memory store");
    let mut reg = Registry::new();
    reg.expose("students").expect("expose students");
    let ddl = build_create_table("students", "id INTEGER PRIMARY KEY, name TEXT, age INTEGER, gpa REAL");
    conn.execute(&ddl, []).expect("create students table");
    (conn, reg)
}

fn record(fields: Vec<(&str, JsonVal)>) -> Record {
    Record {
        fields: fields
            .into_iter()
            .map(|(k, v)| (String::from(k), v))
            .collect(),
    }
}

fn pairs(ps: Vec<(&str, &str)>) -> Vec<(String, String)> {
    ps.into_iter()
        .map(|(k, v)| (String::from(k), String::from(v)))
        .collect()
}

fn field<'a>(rec: &'a Record, key: &str) -> &'a JsonVal {
    &rec
        .fields
        .iter()
        .find(|(k, _)| k == key)
        .expect("field present")
        .1
}

fn post(conn: &Connection, table: &str, rec: Record) -> u16 {
    match plan_create(table, &Some(rec)) {
        Ok(q) => create_reply(execute(conn, &q)).status,
        Err(rep) => rep.status,
    }
}

#[test]
fn round_trip_insert_then_filtered_list() {
    let (conn, reg) = setup_students();
    assert!(reg.contains("students"));
    let status = post(
        &conn,
        "students",
        record(vec![
            ("name", JsonVal::Str(String::from("Alice"))),
            ("age", JsonVal::Int(20)),
            ("gpa", JsonVal::Real(f64::to_bits(3.8))),
        ]),
    );
    assert_eq!(status, 201);

    let q = plan_list("students", &pairs(vec![("name", "Alice")])).unwrap();
    let rows = query_rows(&conn, &q).unwrap();
    let reply = list_reply(rows);
    assert_eq!(reply.status, 200);
    let rows = match reply.body {
        ReplyBody::Rows(rows) => rows,
        other => panic!("expected rows, got {:?}", other),
    };
    assert_eq!(rows.len(), 1);
    assert_eq!(field(&rows[0], "name"), &JsonVal::Str(String::from("Alice")));
    assert_eq!(field(&rows[0], "age"), &JsonVal::Int(20));
    assert_eq!(field(&rows[0], "gpa"), &JsonVal::Real(f64::to_bits(3.8)));
}

#[test]
fn sorting_orders_numeric_values_both_ways() {
    let (conn, _reg) = setup_students();
    for (name, age) in [("Bob", 20), ("Cara", 22), ("Dan", 19)] {
        let status = post(
            &conn,
            "students",
            record(vec![
                ("name", JsonVal::Str(String::from(name))),
                ("age", JsonVal::Int(age)),
            ]),
        );
        assert_eq!(status, 201);
    }

    let ages = |params: Vec<(&str, &str)>| -> Vec<i64> {
        let q = plan_list("students", &pairs(params)).unwrap();
        query_rows(&conn, &q)
            .unwrap()
            .iter()
            .map(|rec| match field(rec, "age") {
                JsonVal::Int(n) => *n,
                other => panic!("expected an integer age, got {:?}", other),
            })
            .collect()
    };

    assert_eq!(ages(vec![("_sort", "age"), ("_order", "desc")]), vec![22, 20, 19]);
    assert_eq!(ages(vec![("_sort", "age"), ("_order", "asc")]), vec![19, 20, 22]);
    assert_eq!(ages(vec![("_sort", "age"), ("_order", "upwards")]), vec![19, 20, 22]);
    assert_eq!(ages(vec![("_sort", "age")]), vec![19, 20, 22]);
}

#[test]
fn update_and_delete_on_a_nonexistent_id_report_not_found() {
    let (conn, _reg) = setup_students();
    let q = plan_update(
        "students",
        9999,
        &Some(record(vec![("age", JsonVal::Int(21))])),
    )
    .unwrap();
    let reply = update_reply(execute(&conn, &q));
    assert_eq!(reply.status, 404);
    assert_eq!(reply.body, ReplyBody::Error(String::from("Record not found")));

    let q = plan_delete("students", 9999);
    let reply = delete_reply(execute(&conn, &q));
    assert_eq!(reply.status, 404);
    assert_eq!(reply.body, ReplyBody::Error(String::from("Record not found")));
}

#[test]
fn an_invalid_filter_column_reaches_no_sql_and_leaves_the_store_intact() {
    let (conn, _reg) = setup_students();
    let status = post(
        &conn,
        "students",
        record(vec![("name", JsonVal::Str(String::from("Eve")))]),
    );
    assert_eq!(status, 201);

    let reply = plan_list("students", &pairs(vec![("name;", "x")])).unwrap_err();
    assert_eq!(reply.status, 400);
    assert_eq!(reply.body, ReplyBody::Error(String::from("Invalid column name")));

    let q = plan_list("students", &Vec::new()).unwrap();
    assert_eq!(query_rows(&conn, &q).unwrap().len(), 1);
}

#[test]
fn crud_end_to_end_on_one_record() {
    let (conn, reg) = setup_students();
    assert!(reg.contains("students"));

    let status = post(
        &conn,
        "students",
        record(vec![
            ("name", JsonVal::Str(String::from("Alice"))),
            ("age", JsonVal::Int(20)),
            ("gpa", JsonVal::Real(f64::to_bits(3.8))),
        ]),
    );
    assert_eq!(status, 201);

    let q = plan_list("students", &pairs(vec![("name", "Alice")])).unwrap();
    let rows = query_rows(&conn, &q).unwrap();
    assert_eq!(rows.len(), 1);
    let id = match field(&rows[0], "id") {
        JsonVal::Int(n) => *n,
        other => panic!("expected an integer id, got {:?}", other),
    };
    assert!(id > 0);

    let q = plan_update(
        "students",
        id,
        &Some(record(vec![("gpa", JsonVal::Real(f64::to_bits(3.9)))])),
    )
    .unwrap();
    let reply = update_reply(execute(&conn, &q));
    assert_eq!(reply.status, 200);
    assert_eq!(reply.body, ReplyBody::Success(String::from("Record updated")));

    let q = plan_list("students", &pairs(vec![("name", "Alice")])).unwrap();
    let rows = query_rows(&conn, &q).unwrap();
    assert_eq!(field(&rows[0], "gpa"), &JsonVal::Real(f64::to_bits(3.9)));

    let q = plan_delete("students", id);
    let reply = delete_reply(execute(&conn, &q));
    assert_eq!(reply.status, 200);
    assert_eq!(reply.body, ReplyBody::Success(String::from("Record deleted")));

    let q = plan_delete("students", id);
    let reply = delete_reply(execute(&conn, &q));
    assert_eq!(reply.status, 404);
    assert_eq!(reply.body, ReplyBody::Error(String::from("Record not found")));
}

#[test]
fn a_constraint_violation_surfaces_as_500_with_the_engine_message() {
    let (conn, _reg) = setup_students();
    let first = post(
        &conn,
        "students",
        record(vec![("id", JsonVal::Int(1)), ("name", JsonVal::Str(String::from("Alice")))]),
    );
    assert_eq!(first, 201);
    let q = plan_create(
        "students",
        &Some(record(vec![
            ("id", JsonVal::Int(1)),
            ("name", JsonVal::Str(String::from("Twin"))),
        ])),
    )
    .unwrap();
    let reply = create_reply(execute(&conn, &q));
    assert_eq!(reply.status, 500);
    match reply.body {
        ReplyBody::Error(msg) => assert!(msg.contains("UNIQUE")),
        other => panic!("expected an error body, got {:?}", other),
    }
}
