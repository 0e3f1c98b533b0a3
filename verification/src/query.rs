//! The query builder: emits parameterized SELECT, INSERT, UPDATE and DELETE
//! statements from validated identifiers. Values are never interpolated into
//! the SQL text; every value travels as a bound parameter. Identifiers
//! cannot be bound, so every builder requires them to have passed
//! validation.

use vstd::prelude::*;
use vstd::string::StringExecFns;

use crate::ident::{is_ident_char, valid_ident};
use crate::text::{join, lemma_join_push};
use crate::value::{bound_value, to_sql_value, JsonVal, Record, SqlValue};

verus! {

/// A parameterized statement: the SQL text with `?` placeholders, and the
/// values to bind to them, in placeholder order.
#[derive(Debug)]
pub struct SqlQuery {
    pub sql: String,
    pub params: Vec<SqlValue>,
}

/// One equality test against a bound parameter.
pub open spec fn eq_placeholder(col: Seq<char>) -> Seq<char> {
    col + (" = ?")@
}

/// The WHERE clause for a conjunction of column filters; empty when there
/// are no filters.
pub open spec fn where_clause(cols: Seq<Seq<char>>) -> Seq<char> {
    if cols.len() == 0 {
        Seq::empty()
    } else {
        (" WHERE ")@ + join(cols.map_values(|c: Seq<char>| eq_placeholder(c)), (" AND ")@)
    }
}

/// The ORDER BY clause for an optional (column, descending) directive.
pub open spec fn order_clause(sort: Option<(Seq<char>, bool)>) -> Seq<char> {
    match sort {
        None => Seq::empty(),
        Some((col, desc)) => (" ORDER BY ")@ + col + if desc {
            (" DESC")@
        } else {
            (" ASC")@
        },
    }
}

/// The full SELECT statement for a table, filter columns, and an optional
/// sort directive.
pub open spec fn select_sql(
    table: Seq<char>,
    filter_cols: Seq<Seq<char>>,
    sort: Option<(Seq<char>, bool)>,
) -> Seq<char> {
    ("SELECT * FROM ")@ + table + where_clause(filter_cols) + order_clause(sort)
}

/// The INSERT statement for a table and a key list: one placeholder per key,
/// in key order.
pub open spec fn insert_sql(table: Seq<char>, keys: Seq<Seq<char>>) -> Seq<char> {
    ("INSERT INTO ")@ + table + (" (")@ + join(keys, (", ")@) + (") VALUES (")@ + join(
        keys.map_values(|k: Seq<char>| ("?")@),
        (", ")@,
    ) + (")")@
}

/// The UPDATE statement for a table and a key list: one assignment per key,
/// the row id bound last.
pub open spec fn update_sql(table: Seq<char>, keys: Seq<Seq<char>>) -> Seq<char> {
    ("UPDATE ")@ + table + (" SET ")@ + join(
        keys.map_values(|k: Seq<char>| eq_placeholder(k)),
        (", ")@,
    ) + (" WHERE id = ?")@
}

/// The DELETE statement for a table, the row id bound.
pub open spec fn delete_sql(table: Seq<char>) -> Seq<char> {
    ("DELETE FROM ")@ + table + (" WHERE id = ?")@
}

/// The DDL statement that creates a table when it is first exposed. The
/// column list is the caller's own DDL fragment, carried verbatim.
pub open spec fn create_sql(table: Seq<char>, columns: Seq<char>) -> Seq<char> {
    ("CREATE TABLE IF NOT EXISTS ")@ + table + (" (")@ + columns + (")")@
}

/// The keys of a record's fields, in field order, as character sequences.
pub open spec fn record_keys(fields: Seq<(String, JsonVal)>) -> Seq<Seq<char>> {
    fields.map_values(|f: (String, JsonVal)| f.0@)
}

/// The bound parameters of a record's fields, in field order.
pub open spec fn record_params(fields: Seq<(String, JsonVal)>) -> Seq<SqlValue> {
    fields.map_values(|f: (String, JsonVal)| bound_value(f.1))
}

/// The filter columns of a (column, value) list, in list order.
pub open spec fn filter_cols(filters: Seq<(String, String)>) -> Seq<Seq<char>> {
    filters.map_values(|f: (String, String)| f.0@)
}

/// The view of an optional exec-level sort directive.
pub open spec fn sort_view(sort: Option<(String, bool)>) -> Option<(Seq<char>, bool)> {
    match sort {
        None => None,
        Some((col, desc)) => Some((col@, desc)),
    }
}

/// A character that may appear in the text of a built statement: an
/// identifier character, or one of the fixed characters of the statement
/// templates. Neither `;` nor a quote nor `-` is among them, so no
/// statement built from validated identifiers can smuggle in a second
/// statement, a string literal, or a comment.
pub open spec fn sql_safe_char(c: char) -> bool {
    is_ident_char(c) || c == ' ' || c == '*' || c == ',' || c == '(' || c == ')' || c == '='
        || c == '?'
}

/// Every character of the sequence is safe statement text.
pub open spec fn all_sql_safe(s: Seq<char>) -> bool {
    forall|i: int| 0 <= i < s.len() ==> sql_safe_char(s[i])
}

proof fn lemma_all_sql_safe_concat(a: Seq<char>, b: Seq<char>)
    requires
        all_sql_safe(a),
        all_sql_safe(b),
    ensures
        all_sql_safe(a + b),
{
    assert forall|i: int| 0 <= i < (a + b).len() implies sql_safe_char((a + b)[i]) by {
        if i < a.len() {
            assert((a + b)[i] == a[i]);
        } else {
            assert((a + b)[i] == b[i - a.len()]);
        }
    }
}

proof fn lemma_all_sql_safe_join(parts: Seq<Seq<char>>, sep: Seq<char>)
    requires
        forall|i: int| 0 <= i < parts.len() ==> all_sql_safe(#[trigger] parts[i]),
        all_sql_safe(sep),
    ensures
        all_sql_safe(join(parts, sep)),
    decreases parts.len(),
{
    if parts.len() == 0 {
    } else if parts.len() == 1 {
        assert(join(parts, sep) == parts[0]);
    } else {
        assert(forall|i: int|
            0 <= i < parts.drop_first().len() ==> all_sql_safe(
                #[trigger] parts.drop_first()[i],
            ));
        lemma_all_sql_safe_join(parts.drop_first(), sep);
        lemma_all_sql_safe_concat(parts[0], sep);
        lemma_all_sql_safe_concat(parts[0] + sep, join(parts.drop_first(), sep));
    }
}

proof fn lemma_valid_ident_sql_safe(s: Seq<char>)
    requires
        valid_ident(s),
    ensures
        all_sql_safe(s),
{
}

/// The injection-safety law for list queries: when the table, every filter
/// column and the sort column have passed identifier validation, the whole
/// SELECT text consists of template and identifier characters alone — in
/// particular it holds no `;`, no quote and no `-`, whatever the filter
/// *values* are, since values never enter the text.
pub proof fn lemma_select_sql_injection_safe(
    table: Seq<char>,
    filter_cols: Seq<Seq<char>>,
    sort: Option<(Seq<char>, bool)>,
)
    requires
        valid_ident(table),
        forall|i: int| 0 <= i < filter_cols.len() ==> valid_ident(#[trigger] filter_cols[i]),
        sort matches Some(s) ==> valid_ident(s.0),
    ensures
        all_sql_safe(select_sql(table, filter_cols, sort)),
{
    reveal_strlit("SELECT * FROM ");
    reveal_strlit(" WHERE ");
    reveal_strlit(" AND ");
    reveal_strlit(" = ?");
    reveal_strlit(" ORDER BY ");
    reveal_strlit(" DESC");
    reveal_strlit(" ASC");
    let pieces = filter_cols.map_values(|c: Seq<char>| eq_placeholder(c));
    assert forall|i: int| 0 <= i < pieces.len() implies all_sql_safe(#[trigger] pieces[i]) by {
        lemma_valid_ident_sql_safe(filter_cols[i]);
        lemma_all_sql_safe_concat(filter_cols[i], (" = ?")@);
    }
    lemma_all_sql_safe_join(pieces, (" AND ")@);
    if filter_cols.len() > 0 {
        lemma_all_sql_safe_concat((" WHERE ")@, join(pieces, (" AND ")@));
    }
    lemma_valid_ident_sql_safe(table);
    lemma_all_sql_safe_concat(("SELECT * FROM ")@, table);
    lemma_all_sql_safe_concat(("SELECT * FROM ")@ + table, where_clause(filter_cols));
    match sort {
        None => {
            assert(order_clause(sort) =~= Seq::<char>::empty());
        },
        Some((col, desc)) => {
            lemma_valid_ident_sql_safe(col);
            lemma_all_sql_safe_concat((" ORDER BY ")@, col);
            if desc {
                lemma_all_sql_safe_concat((" ORDER BY ")@ + col, (" DESC")@);
            } else {
                lemma_all_sql_safe_concat((" ORDER BY ")@ + col, (" ASC")@);
            }
        },
    }
    lemma_all_sql_safe_concat(
        ("SELECT * FROM ")@ + table + where_clause(filter_cols),
        order_clause(sort),
    );
}

/// The injection-safety law for inserts: with a validated table name and
/// validated keys, the INSERT text consists of template and identifier
/// characters alone; the inserted values travel only as bound parameters.
pub proof fn lemma_insert_sql_injection_safe(table: Seq<char>, keys: Seq<Seq<char>>)
    requires
        valid_ident(table),
        forall|i: int| 0 <= i < keys.len() ==> valid_ident(#[trigger] keys[i]),
    ensures
        all_sql_safe(insert_sql(table, keys)),
{
    reveal_strlit("INSERT INTO ");
    reveal_strlit(" (");
    reveal_strlit(") VALUES (");
    reveal_strlit(", ");
    reveal_strlit("?");
    reveal_strlit(")");
    assert forall|i: int| 0 <= i < keys.len() implies all_sql_safe(#[trigger] keys[i]) by {
        lemma_valid_ident_sql_safe(keys[i]);
    }
    lemma_all_sql_safe_join(keys, (", ")@);
    let marks = keys.map_values(|k: Seq<char>| ("?")@);
    assert(forall|i: int| 0 <= i < marks.len() ==> all_sql_safe(#[trigger] marks[i]));
    lemma_all_sql_safe_join(marks, (", ")@);
    lemma_valid_ident_sql_safe(table);
    lemma_all_sql_safe_concat(("INSERT INTO ")@, table);
    lemma_all_sql_safe_concat(("INSERT INTO ")@ + table, (" (")@);
    lemma_all_sql_safe_concat(("INSERT INTO ")@ + table + (" (")@, join(keys, (", ")@));
    lemma_all_sql_safe_concat(
        ("INSERT INTO ")@ + table + (" (")@ + join(keys, (", ")@),
        (") VALUES (")@,
    );
    lemma_all_sql_safe_concat(
        ("INSERT INTO ")@ + table + (" (")@ + join(keys, (", ")@) + (") VALUES (")@,
        join(marks, (", ")@),
    );
    lemma_all_sql_safe_concat(
        ("INSERT INTO ")@ + table + (" (")@ + join(keys, (", ")@) + (") VALUES (")@ + join(
            marks,
            (", ")@,
        ),
        (")")@,
    );
}

/// The injection-safety law for updates: with a validated table name and
/// validated keys, the UPDATE text consists of template and identifier
/// characters alone; the new values and the id travel only as bound
/// parameters.
pub proof fn lemma_update_sql_injection_safe(table: Seq<char>, keys: Seq<Seq<char>>)
    requires
        valid_ident(table),
        forall|i: int| 0 <= i < keys.len() ==> valid_ident(#[trigger] keys[i]),
    ensures
        all_sql_safe(update_sql(table, keys)),
{
    reveal_strlit("UPDATE ");
    reveal_strlit(" SET ");
    reveal_strlit(", ");
    reveal_strlit(" = ?");
    reveal_strlit(" WHERE id = ?");
    let pieces = keys.map_values(|k: Seq<char>| eq_placeholder(k));
    assert forall|i: int| 0 <= i < pieces.len() implies all_sql_safe(#[trigger] pieces[i]) by {
        lemma_valid_ident_sql_safe(keys[i]);
        lemma_all_sql_safe_concat(keys[i], (" = ?")@);
    }
    lemma_all_sql_safe_join(pieces, (", ")@);
    lemma_valid_ident_sql_safe(table);
    lemma_all_sql_safe_concat(("UPDATE ")@, table);
    lemma_all_sql_safe_concat(("UPDATE ")@ + table, (" SET ")@);
    lemma_all_sql_safe_concat(("UPDATE ")@ + table + (" SET ")@, join(pieces, (", ")@));
    lemma_all_sql_safe_concat(
        ("UPDATE ")@ + table + (" SET ")@ + join(pieces, (", ")@),
        (" WHERE id = ?")@,
    );
}

/// The injection-safety law for deletes: with a validated table name, the
/// DELETE text consists of template and identifier characters alone; the id
/// travels only as a bound parameter.
pub proof fn lemma_delete_sql_injection_safe(table: Seq<char>)
    requires
        valid_ident(table),
    ensures
        all_sql_safe(delete_sql(table)),
{
    reveal_strlit("DELETE FROM ");
    reveal_strlit(" WHERE id = ?");
    lemma_valid_ident_sql_safe(table);
    lemma_all_sql_safe_concat(("DELETE FROM ")@, table);
    lemma_all_sql_safe_concat(("DELETE FROM ")@ + table, (" WHERE id = ?")@);
}

/// Builds the SELECT statement for a table, equality filters (ANDed, in the
/// given order), and an optional sort directive; each filter value is bound
/// as text, in filter order.
pub fn build_select(
    table: &str,
    filters: &Vec<(String, String)>,
    sort: &Option<(String, bool)>,
) -> (q: SqlQuery)
    requires
        valid_ident(table@),
        forall|i: int| 0 <= i < filters@.len() ==> valid_ident((#[trigger] filters@[i]).0@),
        sort matches Some(s) ==> valid_ident(s.0@),
    ensures
        q.sql@ == select_sql(table@, filter_cols(filters@), sort_view(*sort)),
        q.params@ == filters@.map_values(|f: (String, String)| SqlValue::Text(f.1)),
{
    let ghost cols = filter_cols(filters@);
    let ghost pieces = cols.map_values(|c: Seq<char>| eq_placeholder(c));
    let mut sql = String::new();
    let mut params: Vec<SqlValue> = Vec::new();
    sql.append("SELECT * FROM ");
    sql.append(table);
    let ghost head = ("SELECT * FROM ")@ + table@;
    if filters.len() > 0 {
        sql.append(" WHERE ");
        let mut i: usize = 0;
        while i < filters.len()
            invariant
                0 < filters@.len(),
                0 <= i <= filters@.len(),
                cols == filter_cols(filters@),
                pieces == cols.map_values(|c: Seq<char>| eq_placeholder(c)),
                sql@ == head + (" WHERE ")@ + join(pieces.take(i as int), (" AND ")@),
                params@ == filters@.take(i as int).map_values(
                    |f: (String, String)| SqlValue::Text(f.1),
                ),
            decreases filters@.len() - i,
        {
            if i > 0 {
                sql.append(" AND ");
            }
            sql.append(filters[i].0.as_str());
            sql.append(" = ?");
            params.push(SqlValue::Text(filters[i].1.clone()));
            proof {
                lemma_join_push(pieces.take(i as int), (" AND ")@, pieces[i as int]);
                assert(pieces.take(i + 1 as int) =~= pieces.take(i as int).push(pieces[i as int]));
                assert(pieces[i as int] == eq_placeholder(filters@[i as int].0@));
                if i == 0 {
                    assert(sql@ =~= head + (" WHERE ")@ + join(pieces.take(1), (" AND ")@));
                } else {
                    assert(sql@ =~= head + (" WHERE ")@ + (join(pieces.take(i as int), (" AND ")@)
                        + (" AND ")@ + pieces[i as int]));
                }
                assert(filters@.take(i + 1 as int) =~= filters@.take(i as int).push(
                    filters@[i as int],
                ));
                assert(filters@.take(i + 1 as int).map_values(
                    |f: (String, String)| SqlValue::Text(f.1),
                ) =~= filters@.take(i as int).map_values(
                    |f: (String, String)| SqlValue::Text(f.1),
                ).push(SqlValue::Text(filters@[i as int].1)));
            }
            i += 1;
        }
        proof {
            assert(pieces.take(filters@.len() as int) =~= pieces);
            assert(filters@.take(filters@.len() as int) =~= filters@);
        }
    } else {
        proof {
            assert(where_clause(cols) =~= Seq::<char>::empty());
            assert(sql@ =~= head + where_clause(cols));
            assert(filters@.map_values(|f: (String, String)| SqlValue::Text(f.1)) =~= Seq::<
                SqlValue,
            >::empty());
        }
    }
    assert(sql@ == head + where_clause(cols));
    match sort {
        None => {
            proof {
                assert(sql@ =~= head + where_clause(cols) + order_clause(sort_view(*sort)));
            }
        },
        Some(pair) => {
            sql.append(" ORDER BY ");
            sql.append(pair.0.as_str());
            if pair.1 {
                sql.append(" DESC");
            } else {
                sql.append(" ASC");
            }
            proof {
                assert(sql@ =~= head + where_clause(cols) + order_clause(sort_view(*sort)));
            }
        },
    }
    SqlQuery { sql, params }
}

/// Builds the INSERT statement for a non-empty payload: the record's keys as
/// the column list, and its values bound natively, in field order.
pub fn build_insert(table: &str, rec: &Record) -> (q: SqlQuery)
    requires
        valid_ident(table@),
        rec.fields@.len() > 0,
        forall|i: int| 0 <= i < rec.fields@.len() ==> valid_ident((#[trigger] rec.fields@[i]).0@),
    ensures
        q.sql@ == insert_sql(table@, record_keys(rec.fields@)),
        q.params@ == record_params(rec.fields@),
{
    let ghost keys = record_keys(rec.fields@);
    let ghost marks = keys.map_values(|k: Seq<char>| ("?")@);
    let mut sql = String::new();
    let mut params: Vec<SqlValue> = Vec::new();
    sql.append("INSERT INTO ");
    sql.append(table);
    sql.append(" (");
    let ghost head = ("INSERT INTO ")@ + table@ + (" (")@;
    let mut i: usize = 0;
    while i < rec.fields.len()
        invariant
            0 <= i <= rec.fields@.len(),
            keys == record_keys(rec.fields@),
            sql@ == head + join(keys.take(i as int), (", ")@),
            params@ == record_params(rec.fields@.take(i as int)),
        decreases rec.fields@.len() - i,
    {
        if i > 0 {
            sql.append(", ");
        }
        sql.append(rec.fields[i].0.as_str());
        params.push(to_sql_value(&rec.fields[i].1));
        proof {
            lemma_join_push(keys.take(i as int), (", ")@, keys[i as int]);
            assert(keys.take(i + 1 as int) =~= keys.take(i as int).push(keys[i as int]));
            if i == 0 {
                assert(sql@ =~= head + join(keys.take(1), (", ")@));
            } else {
                assert(sql@ =~= head + (join(keys.take(i as int), (", ")@) + (", ")@
                    + keys[i as int]));
            }
            assert(rec.fields@.take(i + 1 as int) =~= rec.fields@.take(i as int).push(
                rec.fields@[i as int],
            ));
            assert(record_params(rec.fields@.take(i + 1 as int)) =~= record_params(
                rec.fields@.take(i as int),
            ).push(bound_value(rec.fields@[i as int].1)));
        }
        i += 1;
    }
    proof {
        assert(keys.take(rec.fields@.len() as int) =~= keys);
        assert(rec.fields@.take(rec.fields@.len() as int) =~= rec.fields@);
    }
    sql.append(") VALUES (");
    let ghost mid = head + join(keys, (", ")@) + (") VALUES (")@;
    let mut j: usize = 0;
    while j < rec.fields.len()
        invariant
            0 <= j <= rec.fields@.len(),
            keys == record_keys(rec.fields@),
            marks == keys.map_values(|k: Seq<char>| ("?")@),
            sql@ == mid + join(marks.take(j as int), (", ")@),
            params@ == record_params(rec.fields@),
        decreases rec.fields@.len() - j,
    {
        if j > 0 {
            sql.append(", ");
        }
        sql.append("?");
        proof {
            lemma_join_push(marks.take(j as int), (", ")@, marks[j as int]);
            assert(marks.take(j + 1 as int) =~= marks.take(j as int).push(marks[j as int]));
            assert(marks[j as int] == ("?")@);
            if j == 0 {
                assert(sql@ =~= mid + join(marks.take(1), (", ")@));
            } else {
                assert(sql@ =~= mid + (join(marks.take(j as int), (", ")@) + (", ")@
                    + marks[j as int]));
            }
        }
        j += 1;
    }
    proof {
        assert(marks.take(rec.fields@.len() as int) =~= marks);
    }
    sql.append(")");
    proof {
        assert(sql@ =~= insert_sql(table@, keys));
    }
    SqlQuery { sql, params }
}

/// Builds the UPDATE statement for a payload and a row id: one assignment
/// per field, the field values bound natively in field order, and the id
/// bound last.
pub fn build_update(table: &str, rec: &Record, id: i64) -> (q: SqlQuery)
    requires
        valid_ident(table@),
        forall|i: int| 0 <= i < rec.fields@.len() ==> valid_ident((#[trigger] rec.fields@[i]).0@),
    ensures
        q.sql@ == update_sql(table@, record_keys(rec.fields@)),
        q.params@ == record_params(rec.fields@).push(SqlValue::Int(id)),
{
    let ghost keys = record_keys(rec.fields@);
    let ghost pieces = keys.map_values(|k: Seq<char>| eq_placeholder(k));
    let mut sql = String::new();
    let mut params: Vec<SqlValue> = Vec::new();
    sql.append("UPDATE ");
    sql.append(table);
    sql.append(" SET ");
    let ghost head = ("UPDATE ")@ + table@ + (" SET ")@;
    let mut i: usize = 0;
    while i < rec.fields.len()
        invariant
            0 <= i <= rec.fields@.len(),
            keys == record_keys(rec.fields@),
            pieces == keys.map_values(|k: Seq<char>| eq_placeholder(k)),
            sql@ == head + join(pieces.take(i as int), (", ")@),
            params@ == record_params(rec.fields@.take(i as int)),
        decreases rec.fields@.len() - i,
    {
        if i > 0 {
            sql.append(", ");
        }
        sql.append(rec.fields[i].0.as_str());
        sql.append(" = ?");
        params.push(to_sql_value(&rec.fields[i].1));
        proof {
            lemma_join_push(pieces.take(i as int), (", ")@, pieces[i as int]);
            assert(pieces.take(i + 1 as int) =~= pieces.take(i as int).push(pieces[i as int]));
            assert(pieces[i as int] == eq_placeholder(rec.fields@[i as int].0@));
            if i == 0 {
                assert(sql@ =~= head + join(pieces.take(1), (", ")@));
            } else {
                assert(sql@ =~= head + (join(pieces.take(i as int), (", ")@) + (", ")@
                    + pieces[i as int]));
            }
            assert(rec.fields@.take(i + 1 as int) =~= rec.fields@.take(i as int).push(
                rec.fields@[i as int],
            ));
            assert(record_params(rec.fields@.take(i + 1 as int)) =~= record_params(
                rec.fields@.take(i as int),
            ).push(bound_value(rec.fields@[i as int].1)));
        }
        i += 1;
    }
    proof {
        assert(pieces.take(rec.fields@.len() as int) =~= pieces);
        assert(rec.fields@.take(rec.fields@.len() as int) =~= rec.fields@);
    }
    sql.append(" WHERE id = ?");
    params.push(SqlValue::Int(id));
    SqlQuery { sql, params }
}

/// Builds the DELETE statement for a row id; the id is the only bound
/// parameter.
pub fn build_delete(table: &str, id: i64) -> (q: SqlQuery)
    requires
        valid_ident(table@),
    ensures
        q.sql@ == delete_sql(table@),
        q.params@ == seq![SqlValue::Int(id)],
{
    let mut sql = String::new();
    sql.append("DELETE FROM ");
    sql.append(table);
    sql.append(" WHERE id = ?");
    let mut params: Vec<SqlValue> = Vec::new();
    params.push(SqlValue::Int(id));
    proof {
        assert(params@ =~= seq![SqlValue::Int(id)]);
    }
    SqlQuery { sql, params }
}

/// Builds the DDL statement that creates `table` with the given column list
/// if it does not exist yet. Only the table name is validated; the column
/// list is trusted DDL from the process's own initialization, never from a
/// request.
pub fn build_create_table(table: &str, columns: &str) -> (r: String)
    requires
        valid_ident(table@),
    ensures
        r@ == create_sql(table@, columns@),
{
    let mut sql = String::new();
    sql.append("CREATE TABLE IF NOT EXISTS ");
    sql.append(table);
    sql.append(" (");
    sql.append(columns);
    sql.append(")");
    sql
}

} // verus!
