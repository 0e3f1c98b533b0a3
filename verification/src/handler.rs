//! The request handlers' decision logic. Each operation is split in two
//! pure steps around the single storage call: a *plan* step that validates
//! every untrusted identifier and builds the parameterized statement (or a
//! client-error reply, before any SQL exists), and a *reply* step that turns
//! the storage outcome into an HTTP status and JSON-shaped body. The
//! surrounding I/O layer only executes the planned statement in between.

use vstd::prelude::*;
use vstd::string::StrSliceExecFns;
use vstd::string::StringExecFns;

use crate::ident::{is_valid_identifier, valid_ident};
use crate::query::{
    all_sql_safe, build_delete, build_select, build_insert, build_update, delete_sql, filter_cols,
    insert_sql, lemma_select_sql_injection_safe, record_keys, record_params, select_sql, sort_view,
    update_sql, SqlQuery,
};
use crate::value::{JsonVal, Record, SqlValue};

verus! {

/// The body of a reply, in the three shapes the API produces: an error
/// object `{"error": msg}`, a success envelope `{"status": "success",
/// "message": msg}`, or a JSON array of records.
#[derive(Clone, Debug, PartialEq, Eq)]
pub enum ReplyBody {
    Error(String),
    Success(String),
    Rows(Vec<Record>),
}

/// One HTTP reply: a status code and a JSON-shaped body.
#[derive(Clone, Debug, PartialEq, Eq)]
pub struct Reply {
    pub status: u16,
    pub body: ReplyBody,
}

/// A reserved query parameter: its name starts with an underscore, so it
/// steers the query builder instead of filtering a column.
pub open spec fn is_reserved(k: Seq<char>) -> bool {
    k.len() > 0 && k[0] == '_'
}

/// The filter pairs among the query parameters: those whose name is not
/// reserved, in parameter order.
pub open spec fn filters_of(ps: Seq<(String, String)>) -> Seq<(String, String)> {
    ps.filter(|p: (String, String)| !is_reserved(p.0@))
}

/// The value of the first parameter named `key`, if any.
pub open spec fn lookup(ps: Seq<(String, String)>, key: Seq<char>) -> Option<String>
    decreases ps.len(),
{
    if ps.len() == 0 {
        None
    } else if ps[0].0@ == key {
        Some(ps[0].1)
    } else {
        lookup(ps.drop_first(), key)
    }
}

/// A direction word asking for a descending sort: `desc` in any letter
/// case. Every other word (and an absent one) means ascending.
pub open spec fn is_desc_word(s: Seq<char>) -> bool {
    s.len() == 4 && (s[0] == 'd' || s[0] == 'D') && (s[1] == 'e' || s[1] == 'E') && (s[2] == 's'
        || s[2] == 'S') && (s[3] == 'c' || s[3] == 'C')
}

/// Whether the parameters ask for a descending sort.
pub open spec fn desc_requested(ps: Seq<(String, String)>) -> bool {
    match lookup(ps, ("_order")@) {
        None => false,
        Some(o) => is_desc_word(o@),
    }
}

/// The sort directive the parameters ask for: the `_sort` column, if
/// present, with the normalized direction.
pub open spec fn sort_of(ps: Seq<(String, String)>) -> Option<(Seq<char>, bool)> {
    match lookup(ps, ("_sort")@) {
        None => None,
        Some(col) => Some((col@, desc_requested(ps))),
    }
}

/// Some non-reserved parameter name fails identifier validation.
pub open spec fn has_invalid_filter(ps: Seq<(String, String)>) -> bool {
    exists|i: int|
        0 <= i < ps.len() && !is_reserved((#[trigger] ps[i]).0@) && !valid_ident(ps[i].0@)
}

/// The requested sort column fails identifier validation.
pub open spec fn has_invalid_sort(ps: Seq<(String, String)>) -> bool {
    match lookup(ps, ("_sort")@) {
        None => false,
        Some(col) => !valid_ident(col@),
    }
}

/// Some payload key fails identifier validation.
pub open spec fn has_invalid_key(fs: Seq<(String, JsonVal)>) -> bool {
    exists|i: int| 0 <= i < fs.len() && !valid_ident((#[trigger] fs[i]).0@)
}

/// The first payload key that fails identifier validation (meaningful only
/// when one exists).
pub open spec fn first_invalid_key(fs: Seq<(String, JsonVal)>) -> Seq<char>
    decreases fs.len(),
{
    if fs.len() == 0 {
        Seq::empty()
    } else if !valid_ident(fs[0].0@) {
        fs[0].0@
    } else {
        first_invalid_key(fs.drop_first())
    }
}

proof fn lemma_first_invalid_key(fs: Seq<(String, JsonVal)>, i: int)
    requires
        0 <= i < fs.len(),
        !valid_ident(fs[i].0@),
        forall|j: int| 0 <= j < i ==> valid_ident((#[trigger] fs[j]).0@),
    ensures
        first_invalid_key(fs) == fs[i].0@,
    decreases i,
{
    if i > 0 {
        lemma_first_invalid_key(fs.drop_first(), i - 1);
        assert(fs.drop_first()[i - 1] == fs[i]);
    }
}

proof fn lemma_filters_push(ps: Seq<(String, String)>, p: (String, String))
    ensures
        filters_of(ps.push(p)) == if !is_reserved(p.0@) {
            filters_of(ps).push(p)
        } else {
            filters_of(ps)
        },
{
    reveal(Seq::filter);
    assert(ps.push(p).drop_last() =~= ps);
    assert(ps.push(p).last() == p);
}

proof fn lemma_filters_of_valid(ps: Seq<(String, String)>)
    requires
        !has_invalid_filter(ps),
    ensures
        forall|k: int|
            0 <= k < filters_of(ps).len() ==> valid_ident((#[trigger] filters_of(ps)[k]).0@),
    decreases ps.len(),
{
    reveal(Seq::filter);
    if ps.len() > 0 {
        let prefix = ps.drop_last();
        assert(forall|i: int| 0 <= i < prefix.len() ==> prefix[i] == ps[i]);
        assert(!has_invalid_filter(prefix));
        lemma_filters_of_valid(prefix);
        if !is_reserved(ps.last().0@) {
            assert(valid_ident(ps.last().0@));
            assert(filters_of(ps) == filters_of(prefix).push(ps.last()));
        } else {
            assert(filters_of(ps) == filters_of(prefix));
        }
    }
}

/// The injection-safety law for a whole list request: whenever validation
/// lets a request through — no invalid filter name and no invalid sort
/// column — the SELECT text that is planned for it consists of template
/// and identifier characters alone. The filter *values* never reach the
/// text at all; they are bound positionally.
pub proof fn lemma_list_plan_injection_safe(table: Seq<char>, ps: Seq<(String, String)>)
    requires
        valid_ident(table),
        !has_invalid_filter(ps),
        !has_invalid_sort(ps),
    ensures
        all_sql_safe(select_sql(table, filter_cols(filters_of(ps)), sort_of(ps))),
{
    lemma_filters_of_valid(ps);
    let cols = filter_cols(filters_of(ps));
    assert(forall|i: int| 0 <= i < cols.len() ==> valid_ident(#[trigger] cols[i]));
    lemma_select_sql_injection_safe(table, cols, sort_of(ps));
}

/// The reply carries this status and an `{"error": msg}` body.
pub open spec fn is_error_reply(r: Reply, status: int, msg: Seq<char>) -> bool {
    r.status == status && (r.body matches ReplyBody::Error(m) && m@ == msg)
}

/// The reply carries this status and a success envelope with this message.
pub open spec fn is_success_reply(r: Reply, status: int, msg: Seq<char>) -> bool {
    r.status == status && (r.body matches ReplyBody::Success(m) && m@ == msg)
}

/// The plan step refused the request with a 400 reply carrying this
/// message — so no SQL statement was built.
pub open spec fn plan_rejected(r: Result<SqlQuery, Reply>, msg: Seq<char>) -> bool {
    r matches Err(rep) && is_error_reply(rep, 400, msg)
}

/// Builds a client-error reply with the given message.
fn bad_request(msg: &str) -> (r: Reply)
    ensures
        is_error_reply(r, 400, msg@),
{
    Reply { status: 400, body: ReplyBody::Error(String::from_str(msg)) }
}

/// True iff the parameter name is reserved (starts with an underscore).
fn starts_with_underscore(s: &String) -> (r: bool)
    ensures
        r == is_reserved(s@),
{
    let n = s.as_str().unicode_len();
    n > 0 && s.as_str().get_char(0) == '_'
}

/// Finds the first parameter with the given name.
fn lookup_param(ps: &Vec<(String, String)>, key: &String) -> (r: Option<String>)
    ensures
        r == lookup(ps@, key@),
{
    proof {
        assert(ps@.skip(0) =~= ps@);
    }
    let mut i: usize = 0;
    while i < ps.len()
        invariant
            0 <= i <= ps@.len(),
            lookup(ps@.skip(i as int), key@) == lookup(ps@, key@),
            forall|j: int| 0 <= j < i ==> (#[trigger] ps@[j]).0@ != key@,
        decreases ps@.len() - i,
    {
        proof {
            assert(ps@.skip(i as int)[0] == ps@[i as int]);
            assert(ps@.skip(i as int).drop_first() =~= ps@.skip(i + 1 as int));
        }
        if ps[i].0 == *key {
            return Some(ps[i].1.clone());
        }
        i += 1;
    }
    proof {
        assert(ps@.skip(ps@.len() as int) =~= Seq::<(String, String)>::empty());
    }
    None
}

/// True iff the direction word asks for a descending sort: `desc` in any
/// letter case.
fn is_desc(s: &String) -> (r: bool)
    ensures
        r == is_desc_word(s@),
{
    let n = s.as_str().unicode_len();
    if n != 4 {
        return false;
    }
    let c0 = s.as_str().get_char(0);
    let c1 = s.as_str().get_char(1);
    let c2 = s.as_str().get_char(2);
    let c3 = s.as_str().get_char(3);
    (c0 == 'd' || c0 == 'D') && (c1 == 'e' || c1 == 'E') && (c2 == 's' || c2 == 'S') && (c3 == 'c'
        || c3 == 'C')
}

/// Plans a list call: validates every filter and sort identifier, then
/// builds the SELECT. Fails with 400 — before any SQL is constructed —
/// exactly when a filter name or the sort column is invalid; filter names
/// are reported ahead of the sort column.
pub fn plan_list(table: &str, params: &Vec<(String, String)>) -> (r: Result<SqlQuery, Reply>)
    requires
        valid_ident(table@),
    ensures
        (r is Ok) == (!has_invalid_filter(params@) && !has_invalid_sort(params@)),
        r matches Ok(q) ==> (q.sql@ == select_sql(
            table@,
            filter_cols(filters_of(params@)),
            sort_of(params@),
        ) && q.params@ == filters_of(params@).map_values(
            |f: (String, String)| SqlValue::Text(f.1),
        )),
        has_invalid_filter(params@) ==> plan_rejected(r, ("Invalid column name")@),
        !has_invalid_filter(params@) && has_invalid_sort(params@) ==> plan_rejected(
            r,
            ("Invalid sort column")@,
        ),
{
    let mut filters: Vec<(String, String)> = Vec::new();
    let mut i: usize = 0;
    while i < params.len()
        invariant
            0 <= i <= params@.len(),
            filters@ == filters_of(params@.take(i as int)),
            forall|j: int|
                0 <= j < i ==> is_reserved((#[trigger] params@[j]).0@) || valid_ident(
                    params@[j].0@,
                ),
            forall|k: int|
                0 <= k < filters@.len() ==> valid_ident((#[trigger] filters@[k]).0@),
        decreases params@.len() - i,
    {
        let reserved = starts_with_underscore(&params[i].0);
        if !reserved {
            if !is_valid_identifier(params[i].0.as_str()) {
                proof {
                    assert(!is_reserved(params@[i as int].0@) && !valid_ident(params@[i as int].0@));
                }
                return Err(bad_request("Invalid column name"));
            }
            filters.push((params[i].0.clone(), params[i].1.clone()));
        }
        proof {
            lemma_filters_push(params@.take(i as int), params@[i as int]);
            assert(params@.take(i + 1 as int) =~= params@.take(i as int).push(params@[i as int]));
        }
        i += 1;
    }
    proof {
        assert(params@.take(params@.len() as int) =~= params@);
    }
    let sort_key = String::from_str("_sort");
    let order_key = String::from_str("_order");
    let sort: Option<(String, bool)> = match lookup_param(params, &sort_key) {
        None => None,
        Some(col) => {
            if !is_valid_identifier(col.as_str()) {
                return Err(bad_request("Invalid sort column"));
            }
            let desc = match lookup_param(params, &order_key) {
                None => false,
                Some(o) => is_desc(&o),
            };
            Some((col, desc))
        },
    };
    proof {
        assert(sort_view(sort) == sort_of(params@));
    }
    Ok(build_select(table, &filters, &sort))
}

/// Turns a successful list execution into the 200 reply carrying the
/// marshalled rows (an empty array when none matched).
pub fn list_reply(rows: Vec<Record>) -> (r: Reply)
    ensures
        r.status == 200,
        r.body == ReplyBody::Rows(rows),
{
    Reply { status: 200, body: ReplyBody::Rows(rows) }
}

/// Turns a storage-engine failure into the 500 reply carrying the engine's
/// message verbatim.
pub fn engine_error_reply(msg: String) -> (r: Reply)
    ensures
        r.status == 500,
        r.body == ReplyBody::Error(msg),
{
    Reply { status: 500, body: ReplyBody::Error(msg) }
}

/// Plans a create call: the body must be a JSON object (else 400), must not
/// be empty (else 400), and every key must be a valid identifier (else 400,
/// naming the first offender); only then is the INSERT built.
pub fn plan_create(table: &str, body: &Option<Record>) -> (r: Result<SqlQuery, Reply>)
    requires
        valid_ident(table@),
    ensures
        body is None ==> plan_rejected(r, ("Invalid JSON format")@),
        body matches Some(rec) ==> {
            &&& rec.fields@.len() == 0 ==> plan_rejected(r, ("Empty JSON body")@)
            &&& rec.fields@.len() > 0 && has_invalid_key(rec.fields@) ==> plan_rejected(
                r,
                ("Invalid column: ")@ + first_invalid_key(rec.fields@),
            )
            &&& rec.fields@.len() > 0 && !has_invalid_key(rec.fields@) ==> (r matches Ok(q)
                && q.sql@ == insert_sql(table@, record_keys(rec.fields@)) && q.params@
                == record_params(rec.fields@))
        },
{
    match body {
        None => Err(bad_request("Invalid JSON format")),
        Some(rec) => {
            if rec.fields.len() == 0 {
                return Err(bad_request("Empty JSON body"));
            }
            let mut i: usize = 0;
            while i < rec.fields.len()
                invariant
                    *body == Some(*rec),
                    0 <= i <= rec.fields@.len(),
                    forall|j: int| 0 <= j < i ==> valid_ident((#[trigger] rec.fields@[j]).0@),
                decreases rec.fields@.len() - i,
            {
                if !is_valid_identifier(rec.fields[i].0.as_str()) {
                    proof {
                        lemma_first_invalid_key(rec.fields@, i as int);
                    }
                    let mut msg = String::from_str("Invalid column: ");
                    msg.append(rec.fields[i].0.as_str());
                    return Err(Reply { status: 400, body: ReplyBody::Error(msg) });
                }
                i += 1;
            }
            Ok(build_insert(table, rec))
        },
    }
}

/// Turns the outcome of executing an INSERT into its reply: 201 with a
/// success envelope, or 500 carrying the engine's message.
pub fn create_reply(outcome: Result<usize, String>) -> (r: Reply)
    ensures
        outcome is Ok ==> is_success_reply(r, 201, ("Record created")@),
        outcome matches Err(e) ==> (r.status == 500 && r.body == ReplyBody::Error(e)),
{
    match outcome {
        Ok(_) => Reply { status: 201, body: ReplyBody::Success(String::from_str("Record created")) },
        Err(e) => Reply { status: 500, body: ReplyBody::Error(e) },
    }
}

/// Plans an update call: the body must be a JSON object (else 400) with
/// every key a valid identifier (else 400) and at least one field (else
/// 400 — an empty update would be a malformed no-op statement); only then
/// is the UPDATE built, the id bound last.
pub fn plan_update(table: &str, id: i64, body: &Option<Record>) -> (r: Result<SqlQuery, Reply>)
    requires
        valid_ident(table@),
    ensures
        body is None ==> plan_rejected(r, ("Invalid JSON format")@),
        body matches Some(rec) ==> {
            &&& has_invalid_key(rec.fields@) ==> plan_rejected(r, ("Invalid column name")@)
            &&& !has_invalid_key(rec.fields@) && rec.fields@.len() == 0 ==> plan_rejected(
                r,
                ("Empty JSON body")@,
            )
            &&& !has_invalid_key(rec.fields@) && rec.fields@.len() > 0 ==> (r matches Ok(q)
                && q.sql@ == update_sql(table@, record_keys(rec.fields@)) && q.params@
                == record_params(rec.fields@).push(SqlValue::Int(id)))
        },
{
    match body {
        None => Err(bad_request("Invalid JSON format")),
        Some(rec) => {
            let mut i: usize = 0;
            while i < rec.fields.len()
                invariant
                    *body == Some(*rec),
                    0 <= i <= rec.fields@.len(),
                    forall|j: int| 0 <= j < i ==> valid_ident((#[trigger] rec.fields@[j]).0@),
                decreases rec.fields@.len() - i,
            {
                if !is_valid_identifier(rec.fields[i].0.as_str()) {
                    return Err(bad_request("Invalid column name"));
                }
                i += 1;
            }
            if rec.fields.len() == 0 {
                return Err(bad_request("Empty JSON body"));
            }
            Ok(build_update(table, rec, id))
        },
    }
}

/// Turns the affected-row count of an UPDATE into its reply: 404 when no
/// row had the id, 200 with a success envelope otherwise.
pub fn update_reply(outcome: Result<usize, String>) -> (r: Reply)
    ensures
        outcome matches Ok(n) && n == 0 ==> is_error_reply(r, 404, ("Record not found")@),
        outcome matches Ok(n) && n > 0 ==> is_success_reply(r, 200, ("Record updated")@),
        outcome matches Err(e) ==> (r.status == 500 && r.body == ReplyBody::Error(e)),
{
    match outcome {
        Ok(n) => {
            if n == 0 {
                Reply { status: 404, body: ReplyBody::Error(String::from_str("Record not found")) }
            } else {
                Reply { status: 200, body: ReplyBody::Success(String::from_str("Record updated")) }
            }
        },
        Err(e) => Reply { status: 500, body: ReplyBody::Error(e) },
    }
}

/// Plans a delete call: no body, no untrusted identifier beyond the table,
/// so planning cannot fail; the id is the only bound parameter.
pub fn plan_delete(table: &str, id: i64) -> (q: SqlQuery)
    requires
        valid_ident(table@),
    ensures
        q.sql@ == delete_sql(table@),
        q.params@ == seq![SqlValue::Int(id)],
{
    build_delete(table, id)
}

/// Turns the affected-row count of a DELETE into its reply: 404 when no
/// row had the id, 200 with a success envelope otherwise.
pub fn delete_reply(outcome: Result<usize, String>) -> (r: Reply)
    ensures
        outcome matches Ok(n) && n == 0 ==> is_error_reply(r, 404, ("Record not found")@),
        outcome matches Ok(n) && n > 0 ==> is_success_reply(r, 200, ("Record deleted")@),
        outcome matches Err(e) ==> (r.status == 500 && r.body == ReplyBody::Error(e)),
{
    match outcome {
        Ok(n) => {
            if n == 0 {
                Reply { status: 404, body: ReplyBody::Error(String::from_str("Record not found")) }
            } else {
                Reply { status: 200, body: ReplyBody::Success(String::from_str("Record deleted")) }
            }
        },
        Err(e) => Reply { status: 500, body: ReplyBody::Error(e) },
    }
}

} // verus!
