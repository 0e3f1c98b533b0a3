use easy_db::query::{
    build_create_table, build_delete, build_insert, build_select, build_update,
};
use easy_db::value::{JsonVal, Record, SqlValue};

fn record(fields: Vec<(&str, JsonVal)>) -> Record {
    Record {
        fields: fields
            .into_iter()
            .map(|(k, v)| (String::from(k), v))
            .collect(),
    }
}

#[test]
fn select_without_filters_or_sort() {
    let q = build_select("students", &Vec::new(), &None);
    assert_eq!(q.sql, "SELECT * FROM students");
    assert!(q.params.is_empty());
}

#[test]
fn select_with_one_filter_binds_the_value() {
    let filters = vec![(String::from("name"), String::from("Alice"))];
    let q = build_select("students", &filters, &None);
    assert_eq!(q.sql, "SELECT * FROM students WHERE name = ?");
    assert_eq!(q.params, vec![SqlValue::Text(String::from("Alice"))]);
}

#[test]
fn select_with_filters_and_sort() {
    let filters = vec![
        (String::from("name"), String::from("Alice")),
        (String::from("age"), String::from("20")),
    ];
    let q = build_select("students", &filters, &Some((String::from("age"), true)));
    assert_eq!(
        q.sql,
        "SELECT * FROM students WHERE name = ? AND age = ? ORDER BY age DESC"
    );
    assert_eq!(
        q.params,
        vec![
            SqlValue::Text(String::from("Alice")),
            SqlValue::Text(String::from("20")),
        ]
    );
}

#[test]
fn select_with_ascending_sort_only() {
    let q = build_select("students", &Vec::new(), &Some((String::from("age"), false)));
    assert_eq!(q.sql, "SELECT * FROM students ORDER BY age ASC");
    assert!(q.params.is_empty());
}

#[test]
fn insert_lists_keys_and_placeholders_in_field_order() {
    let rec = record(vec![
        ("name", JsonVal::Str(String::from("Alice"))),
        ("age", JsonVal::Int(20)),
        ("gpa", JsonVal::Real(f64::to_bits(3.8))),
    ]);
    let q = build_insert("students", &rec);
    assert_eq!(
        q.sql,
        "INSERT INTO students (name, age, gpa) VALUES (?, ?, ?)"
    );
    assert_eq!(
        q.params,
        vec![
            SqlValue::Text(String::from("Alice")),
            SqlValue::Int(20),
            SqlValue::Real(f64::to_bits(3.8)),
        ]
    );
}

#[test]
fn update_binds_the_id_last() {
    let rec = record(vec![("gpa", JsonVal::Real(f64::to_bits(3.9)))]);
    let q = build_update("students", &rec, 7);
    assert_eq!(q.sql, "UPDATE students SET gpa = ? WHERE id = ?");
    assert_eq!(
        q.params,
        vec![SqlValue::Real(f64::to_bits(3.9)), SqlValue::Int(7)]
    );
}

#[test]
fn update_with_several_fields() {
    let rec = record(vec![
        ("name", JsonVal::Str(String::from("Bob"))),
        ("active", JsonVal::Bool(true)),
        ("note", JsonVal::Null),
    ]);
    let q = build_update("users", &rec, -3);
    assert_eq!(q.sql, "UPDATE users SET name = ?, active = ?, note = ? WHERE id = ?");
    assert_eq!(
        q.params,
        vec![
            SqlValue::Text(String::from("Bob")),
            SqlValue::Bool(true),
            SqlValue::Null,
            SqlValue::Int(-3),
        ]
    );
}

#[test]
fn delete_binds_only_the_id() {
    let q = build_delete("students", 9999);
    assert_eq!(q.sql, "DELETE FROM students WHERE id = ?");
    assert_eq!(q.params, vec![SqlValue::Int(9999)]);
}

#[test]
fn create_table_carries_the_column_list_verbatim() {
    let sql = build_create_table("students", "id INTEGER PRIMARY KEY, name TEXT");
    assert_eq!(
        sql,
        "CREATE TABLE IF NOT EXISTS students (id INTEGER PRIMARY KEY, name TEXT)"
    );
}
