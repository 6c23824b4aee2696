//! The statements sent to the relational store, as text.

use crate::schema::{dep_field, dep_fields, dep_text, one_dep_field_of, push_dep, table, table_name,
    two_dep_fields_of, view_fields, zset_fields_of, Kind, Scope};
use crate::text::{int_digits, joined, push_i64, push_joined, push_joined_slices, same_text, texts};
use crate::value::{sql_literal, Record, Value, ValueView};
use vstd::prelude::*;

verus! {

/// A value as a quoted SQL literal: a string with its quotes doubled,
/// anything else as it is written out plainly.
pub fn json_to_sql(v: &Value) -> (s: String)
    ensures
        s@ == sql_literal(v@),
{
    v.to_sql()
}

/// One `name = 'value'` for each entry, with `sep` between them.
pub open spec fn assignments(e: Seq<(Seq<char>, ValueView)>, sep: Seq<char>) -> Seq<char>
    decreases e.len(),
{
    if e.len() == 0 {
        Seq::empty()
    } else {
        let item = e.last().0 + " = "@ + sql_literal(e.last().1);
        if e.len() == 1 {
            item
        } else {
            assignments(e.drop_last(), sep) + sep + item
        }
    }
}

/// Appends one `name = 'value'` for each field of `fields` to `out`.
pub fn push_assignments(out: &mut String, fields: &Record, sep: &str)
    ensures
        final(out)@ == old(out)@ + assignments(fields.entries(), sep@),
{
    let ghost e = fields.entries();
    let mut i: usize = 0;
    while i < fields.len()
        invariant
            i <= e.len(),
            e == fields.entries(),
            out@ == old(out)@ + assignments(e.take(i as int), sep@),
        decreases e.len() - i,
    {
        proof {
            assert(e.take(i + 1).drop_last() =~= e.take(i as int));
            assert(e.take(i + 1).last() == e[i as int]);
        }
        if i > 0 {
            out.append(sep);
        }
        out.append(fields.name_at(i));
        out.append(" = ");
        fields.value_at(i).push_sql(out);
        i += 1;
        assert(out@ =~= old(out)@ + assignments(e.take(i as int), sep@));
    }
    assert(e.take(e.len() as int) =~= e);
}

/// The `WHERE` clause that holds every entry of a filter; empty for an
/// empty filter.
pub open spec fn conditions(e: Seq<(Seq<char>, ValueView)>) -> Seq<char> {
    if e.len() == 0 {
        Seq::empty()
    } else {
        "WHERE "@ + assignments(e, " AND "@)
    }
}

/// The `WHERE` clause that holds every entry of a filter.
pub fn make_conditions_from_json_map(mp: &Record) -> (s: String)
    ensures
        s@ == conditions(mp.entries()),
{
    let mut s = String::new();
    if mp.len() == 0 {
        return s;
    }
    s.append("WHERE ");
    push_assignments(&mut s, mp, " AND ");
    assert(s@ =~= conditions(mp.entries()));
    s
}

/// Whether a field goes into an `INSERT`: the identity column is generated,
/// and a null is left to the column's default.
pub open spec fn insertable(f: (Seq<char>, ValueView)) -> bool {
    f.0 != "id"@ && !(f.1 is Null)
}

/// How many entries go into an `INSERT`.
pub open spec fn insertable_count(e: Seq<(Seq<char>, ValueView)>) -> nat
    decreases e.len(),
{
    if e.len() == 0 {
        0
    } else if insertable(e.last()) {
        insertable_count(e.drop_last()) + 1
    } else {
        insertable_count(e.drop_last())
    }
}

/// The column list of an `INSERT`.
pub open spec fn insert_columns(e: Seq<(Seq<char>, ValueView)>) -> Seq<char>
    decreases e.len(),
{
    if e.len() == 0 {
        Seq::empty()
    } else if !insertable(e.last()) {
        insert_columns(e.drop_last())
    } else if insertable_count(e.drop_last()) == 0 {
        e.last().0
    } else {
        insert_columns(e.drop_last()) + seq![','] + e.last().0
    }
}

/// The value list of an `INSERT`.
pub open spec fn insert_values(e: Seq<(Seq<char>, ValueView)>) -> Seq<char>
    decreases e.len(),
{
    if e.len() == 0 {
        Seq::empty()
    } else if !insertable(e.last()) {
        insert_values(e.drop_last())
    } else if insertable_count(e.drop_last()) == 0 {
        sql_literal(e.last().1)
    } else {
        insert_values(e.drop_last()) + seq![','] + sql_literal(e.last().1)
    }
}

/// The statement that inserts a row and asks for its generated identity.
pub open spec fn insert_text(kind: Kind, e: Seq<(Seq<char>, ValueView)>) -> Seq<char> {
    "INSERT INTO \""@ + table(kind) + "\" ( "@ + insert_columns(e) + " ) VALUES ( "@ + insert_values(e)
        + " ) RETURNING id"@
}

/// Whether a record has a field that goes into an `INSERT`.
pub fn has_insertable(fields: &Record) -> (b: bool)
    ensures
        b == (insertable_count(fields.entries()) > 0),
{
    let ghost e = fields.entries();
    let mut i: usize = 0;
    while i < fields.len()
        invariant
            i <= e.len(),
            e == fields.entries(),
            insertable_count(e.take(i as int)) == 0,
        decreases e.len() - i,
    {
        proof {
            assert(e.take(i + 1).drop_last() =~= e.take(i as int));
            assert(e.take(i + 1).last() == e[i as int]);
        }
        if !same_text(fields.name_at(i), "id") && !fields.value_at(i).is_null() {
            proof {
                lemma_insertable_count_grows(e, i as int + 1);
            }
            return true;
        }
        i += 1;
    }
    assert(e.take(e.len() as int) =~= e);
    false
}

proof fn lemma_insertable_count_grows(e: Seq<(Seq<char>, ValueView)>, i: int)
    requires
        0 <= i <= e.len(),
    ensures
        insertable_count(e.take(i)) <= insertable_count(e),
    decreases e.len() - i,
{
    if i < e.len() {
        assert(e.take(i + 1).drop_last() =~= e.take(i));
        lemma_insertable_count_grows(e, i + 1);
    } else {
        assert(e.take(i) =~= e);
    }
}

/// The statement that inserts a row with the fields of `info` that are
/// neither the identity nor null.
pub fn insert_sql(kind: Kind, info: &Record) -> (sql: String)
    requires
        insertable_count(info.entries()) > 0,
    ensures
        sql@ == insert_text(kind, info.entries()),
{
    let ghost e = info.entries();
    let mut columns = String::new();
    let mut values = String::new();
    let mut first = true;
    let mut i: usize = 0;
    while i < info.len()
        invariant
            i <= e.len(),
            e == info.entries(),
            columns@ == insert_columns(e.take(i as int)),
            values@ == insert_values(e.take(i as int)),
            first == (insertable_count(e.take(i as int)) == 0),
            first ==> columns@.len() == 0 && values@.len() == 0,
        decreases e.len() - i,
    {
        proof {
            assert(e.take(i + 1).drop_last() =~= e.take(i as int));
            assert(e.take(i + 1).last() == e[i as int]);
        }
        if !same_text(info.name_at(i), "id") && !info.value_at(i).is_null() {
            if !first {
                columns.push(',');
                values.push(',');
            }
            columns.append(info.name_at(i));
            info.value_at(i).push_sql(&mut values);
            first = false;
        }
        i += 1;
        assert(columns@ =~= insert_columns(e.take(i as int)));
        assert(values@ =~= insert_values(e.take(i as int)));
    }
    assert(e.take(e.len() as int) =~= e);
    let mut sql = String::from_str("INSERT INTO \"");
    sql.append(table_name(kind));
    sql.append("\" ( ");
    sql.append(columns.as_str());
    sql.append(" ) VALUES ( ");
    sql.append(values.as_str());
    sql.append(" ) RETURNING id");
    sql
}

/// The statement that reads the whole row `id`.
pub open spec fn select_row_text(kind: Kind, id: i64) -> Seq<char> {
    "SELECT * FROM \""@ + table(kind) + "\" WHERE id = '"@ + int_digits(id as int) + seq!['\'']
}

/// The statement that reads the whole row `id`.
pub fn select_row_sql(kind: Kind, id: i64) -> (sql: String)
    ensures
        sql@ == select_row_text(kind, id),
{
    let mut sql = String::from_str("SELECT * FROM \"");
    sql.append(table_name(kind));
    sql.append("\" WHERE id = '");
    push_i64(&mut sql, id);
    sql.push('\'');
    sql
}

/// The statement that counts the rows a filter holds of.
pub open spec fn count_text(kind: Kind, e: Seq<(Seq<char>, ValueView)>) -> Seq<char> {
    "SELECT count(*) FROM \""@ + table(kind) + "\" "@ + conditions(e)
}

/// The statement that counts the rows a filter holds of.
pub fn count_sql(kind: Kind, filter: &Record) -> (sql: String)
    ensures
        sql@ == count_text(kind, filter.entries()),
{
    let mut sql = String::from_str("SELECT count(*) FROM \"");
    sql.append(table_name(kind));
    sql.append("\" ");
    let conds = make_conditions_from_json_map(filter);
    sql.append(conds.as_str());
    sql
}

/// The statement that writes `columns` into the row `id`.
pub open spec fn update_text(kind: Kind, id: i64, e: Seq<(Seq<char>, ValueView)>) -> Seq<char> {
    "UPDATE \""@ + table(kind) + "\" SET "@ + assignments(e, seq![',']) + " WHERE id = '"@
        + int_digits(id as int) + seq!['\'']
}

/// The statement that writes `columns` into the row `id`.
pub fn update_sql(kind: Kind, id: i64, columns: &Record) -> (sql: String)
    ensures
        sql@ == update_text(kind, id, columns.entries()),
{
    proof {
        reveal_strlit(",");
        assert(","@ =~= seq![',']);
    }
    let mut sql = String::from_str("UPDATE \"");
    sql.append(table_name(kind));
    sql.append("\" SET ");
    push_assignments(&mut sql, columns, ",");
    sql.append(" WHERE id = '");
    push_i64(&mut sql, id);
    sql.push('\'');
    sql
}

/// One `name=name+1 ` for each field, with commas between them.
pub open spec fn increments(fields: Seq<Seq<char>>) -> Seq<char>
    decreases fields.len(),
{
    if fields.len() == 0 {
        Seq::empty()
    } else {
        let item = fields.last() + seq!['='] + fields.last() + "+1 "@;
        if fields.len() == 1 {
            item
        } else {
            increments(fields.drop_last()) + seq![','] + item
        }
    }
}

/// The statement that adds one to each of `fields` in the row `id`.
pub open spec fn increment_text(kind: Kind, id: i64, fields: Seq<Seq<char>>) -> Seq<char> {
    "UPDATE \""@ + table(kind) + "\" set  "@ + increments(fields) + (if fields.len() == 0 {
        Seq::empty()
    } else {
        seq![' ']
    }) + "WHERE id = '"@ + int_digits(id as int) + seq!['\'']
}

/// The statement that adds one to each of `fields` in the row `id`.
pub fn increment_sql(kind: Kind, id: i64, fields: &Vec<String>) -> (sql: String)
    ensures
        sql@ == increment_text(kind, id, texts(fields@)),
{
    let ghost names = texts(fields@);
    let mut sql = String::from_str("UPDATE \"");
    sql.append(table_name(kind));
    sql.append("\" set  ");
    let ghost head = sql@;
    let mut i: usize = 0;
    while i < fields.len()
        invariant
            i <= fields.len(),
            names == texts(fields@),
            sql@ == head + increments(names.take(i as int)),
        decreases fields.len() - i,
    {
        proof {
            assert(names.take(i + 1).drop_last() =~= names.take(i as int));
            assert(names.take(i + 1).last() == fields@[i as int]@);
        }
        if i > 0 {
            sql.push(',');
        }
        sql.append(fields[i].as_str());
        sql.push('=');
        sql.append(fields[i].as_str());
        sql.append("+1 ");
        i += 1;
        assert(sql@ =~= head + increments(names.take(i as int)));
    }
    assert(names.take(fields.len() as int) =~= names);
    if fields.len() > 0 {
        sql.push(' ');
    }
    sql.append("WHERE id = '");
    push_i64(&mut sql, id);
    sql.push('\'');
    assert(sql@ =~= increment_text(kind, id, names));
    sql
}

/// The statement that deletes the row `id`.
pub open spec fn delete_text(kind: Kind, id: i64) -> Seq<char> {
    "DELETE FROM \""@ + table(kind) + "\" WHERE id = "@ + int_digits(id as int)
}

/// The statement that deletes the row `id`.
pub fn delete_sql(kind: Kind, id: i64) -> (sql: String)
    ensures
        sql@ == delete_text(kind, id),
{
    let mut sql = String::from_str("DELETE FROM \"");
    sql.append(table_name(kind));
    sql.append("\" WHERE id = ");
    push_i64(&mut sql, id);
    sql
}

/// The statement that reads, for every row in a scope, the fields that a
/// sorted-set view carries.
pub open spec fn scan_text(kind: Kind, scope: Scope) -> Seq<char> {
    let head = "SELECT "@ + joined(view_fields(kind), seq![',']) + " FROM \""@ + table(kind) + seq![
        '"',
    ];
    match scope {
        Scope::Whole => head,
        Scope::By(dep) => head + " WHERE "@ + dep_field(kind) + " = '"@ + dep_text(dep) + seq!['\''],
        Scope::ByTwo(first, second) => head + " WHERE "@ + dep_fields(kind).0 + "='"@ + dep_text(
            first,
        ) + "' AND "@ + dep_fields(kind).1 + "='"@ + dep_text(second) + seq!['\''],
    }
}

/// The statement that reads, for every row in a scope, the fields that a
/// sorted-set view carries.
pub fn scan_sql(kind: Kind, scope: Scope) -> (sql: String)
    ensures
        sql@ == scan_text(kind, scope),
{
    proof {
        reveal_strlit(",");
        assert(","@ =~= seq![',']);
    }
    let names = zset_fields_of(kind);
    let mut sql = String::from_str("SELECT ");
    push_joined_slices(&mut sql, &names, ",");
    sql.append(" FROM \"");
    sql.append(table_name(kind));
    sql.push('"');
    match scope {
        Scope::Whole => {},
        Scope::By(dep) => {
            sql.append(" WHERE ");
            sql.append(one_dep_field_of(kind));
            sql.append(" = '");
            push_dep(&mut sql, dep);
            sql.push('\'');
        },
        Scope::ByTwo(first, second) => {
            let fields = two_dep_fields_of(kind);
            sql.append(" WHERE ");
            sql.append(fields.0);
            sql.append("='");
            push_dep(&mut sql, first);
            sql.append("' AND ");
            sql.append(fields.1);
            sql.append("='");
            push_dep(&mut sql, second);
            sql.push('\'');
        },
    }
    sql
}

/// The statement that reads some fields of the rows a filter holds of, in
/// the order of their identities.
pub open spec fn find_values_text(kind: Kind, fields: Seq<Seq<char>>, e: Seq<(Seq<char>, ValueView)>)
    -> Seq<char> {
    "SELECT "@ + joined(fields, seq![',']) + " FROM "@ + table(kind) + seq![' '] + conditions(e)
        + " ORDER BY id ASC"@
}

/// The statement that reads some fields of the rows a filter holds of, in
/// the order of their identities.
pub fn find_values_sql(kind: Kind, fields: &Vec<String>, filter: &Record) -> (sql: String)
    ensures
        sql@ == find_values_text(kind, texts(fields@), filter.entries()),
{
    proof {
        reveal_strlit(",");
        assert(","@ =~= seq![',']);
    }
    let mut sql = String::from_str("SELECT ");
    push_joined(&mut sql, fields, ",");
    sql.append(" FROM ");
    sql.append(table_name(kind));
    sql.push(' ');
    let conds = make_conditions_from_json_map(filter);
    sql.append(conds.as_str());
    sql.append(" ORDER BY id ASC");
    sql
}

/// `LIMIT n`, or `OFFSET n`, or nothing.
pub open spec fn bound_text(word: Seq<char>, n: Option<i32>) -> Seq<char> {
    match n {
        Some(x) => word + int_digits(x as int),
        None => Seq::empty(),
    }
}

/// The statement that reads the view fields of the rows a filter holds of,
/// ordered by identity, a page at a time.
pub open spec fn find_base_columns_text(
    kind: Kind,
    e: Seq<(Seq<char>, ValueView)>,
    desc: bool,
    limit: Option<i32>,
    offset: Option<i32>,
) -> Seq<char> {
    "SELECT "@ + joined(view_fields(kind), seq![',']) + " FROM \""@ + table(kind) + "\" "@
        + conditions(e) + " ORDER BY id "@ + (if desc {
        "DESC"@
    } else {
        "ASC"@
    }) + seq![' '] + bound_text("LIMIT "@, limit) + seq![' '] + bound_text("OFFSET "@, offset)
}

/// The statement that reads the view fields of the rows a filter holds of,
/// ordered by identity, a page at a time.
pub fn find_base_columns_sql(
    kind: Kind,
    filter: &Record,
    desc: bool,
    limit: Option<i32>,
    offset: Option<i32>,
) -> (sql: String)
    ensures
        sql@ == find_base_columns_text(kind, filter.entries(), desc, limit, offset),
{
    proof {
        reveal_strlit(",");
        assert(","@ =~= seq![',']);
    }
    let names = zset_fields_of(kind);
    let mut sql = String::from_str("SELECT ");
    push_joined_slices(&mut sql, &names, ",");
    sql.append(" FROM \"");
    sql.append(table_name(kind));
    sql.append("\" ");
    let conds = make_conditions_from_json_map(filter);
    sql.append(conds.as_str());
    sql.append(" ORDER BY id ");
    if desc {
        sql.append("DESC");
    } else {
        sql.append("ASC");
    }
    sql.push(' ');
    match limit {
        Some(x) => {
            sql.append("LIMIT ");
            push_i64(&mut sql, x as i64);
        },
        None => {},
    }
    sql.push(' ');
    match offset {
        Some(x) => {
            sql.append("OFFSET ");
            push_i64(&mut sql, x as i64);
        },
        None => {},
    }
    assert(sql@ =~= find_base_columns_text(kind, filter.entries(), desc, limit, offset));
    sql
}

/// The statement that reads the identity of one row a filter holds of.
pub open spec fn get_id_text(kind: Kind, e: Seq<(Seq<char>, ValueView)>) -> Seq<char> {
    "SELECT id FROM \""@ + table(kind) + "\" "@ + conditions(e) + " LIMIT 1"@
}

/// The statement that reads the identity of one row a filter holds of.
pub fn get_id_sql(kind: Kind, filter: &Record) -> (sql: String)
    ensures
        sql@ == get_id_text(kind, filter.entries()),
{
    let mut sql = String::from_str("SELECT id FROM \"");
    sql.append(table_name(kind));
    sql.append("\" ");
    let conds = make_conditions_from_json_map(filter);
    sql.append(conds.as_str());
    sql.append(" LIMIT 1");
    sql
}

/// The integers with commas between them.
pub open spec fn id_list(ids: Seq<i64>) -> Seq<char>
    decreases ids.len(),
{
    if ids.len() == 0 {
        Seq::empty()
    } else if ids.len() == 1 {
        int_digits(ids[0] as int)
    } else {
        id_list(ids.drop_last()) + seq![','] + int_digits(ids.last() as int)
    }
}

/// Appends the integers, with commas between them, to `out`.
pub fn push_id_list(out: &mut String, ids: &Vec<i64>)
    ensures
        final(out)@ == old(out)@ + id_list(ids@),
{
    let mut i: usize = 0;
    while i < ids.len()
        invariant
            i <= ids.len(),
            out@ == old(out)@ + id_list(ids@.take(i as int)),
        decreases ids.len() - i,
    {
        proof {
            assert(ids@.take(i + 1).drop_last() =~= ids@.take(i as int));
            assert(ids@.take(i + 1).last() == ids@[i as int]);
        }
        if i > 0 {
            out.push(',');
        }
        push_i64(out, ids[i]);
        i += 1;
        assert(out@ =~= old(out)@ + id_list(ids@.take(i as int)));
    }
    assert(ids@.take(ids.len() as int) =~= ids@);
}

/// The statement that reads the indexes of the problems `ids`, in the
/// order of their identities.
pub fn many_indexes_sql(ids: &Vec<i64>) -> (sql: String)
    ensures
        sql@ == "SELECT index FROM \"problem\" WHERE id in ("@ + id_list(ids@)
            + ") ORDER BY id ASC"@,
{
    let mut sql = String::from_str("SELECT index FROM \"problem\" WHERE id in (");
    push_id_list(&mut sql, ids);
    sql.append(") ORDER BY id ASC");
    sql
}

/// The statement that reads the last submission of a user to a problem.
pub fn last_submit_sql(uid: i64, pid: i64) -> (sql: String)
    ensures
        sql@ == "SELECT id,code,lang from submission WHERE pid='"@ + int_digits(pid as int)
            + "' AND uid='"@ + int_digits(uid as int) + "' ORDER BY ID DESC LIMIT 1"@,
{
    let mut sql = String::from_str("SELECT id,code,lang from submission WHERE pid='");
    push_i64(&mut sql, pid);
    sql.append("' AND uid='");
    push_i64(&mut sql, uid);
    sql.append("' ORDER BY ID DESC LIMIT 1");
    sql
}

/// The statement that reads the submissions of a user to a problem, the
/// last first.
pub fn submissions_sql(uid: i64, pid: i64) -> (sql: String)
    ensures
        sql@ == "SELECT "@ + joined(view_fields(Kind::Submission), seq![','])
            + " FROM submission WHERE pid = "@ + int_digits(pid as int) + " AND uid = "@
            + int_digits(uid as int) + " ORDER BY id DESC"@,
{
    proof {
        reveal_strlit(",");
        assert(","@ =~= seq![',']);
    }
    let names = zset_fields_of(Kind::Submission);
    let mut sql = String::from_str("SELECT ");
    push_joined_slices(&mut sql, &names, ",");
    sql.append(" FROM submission WHERE pid = ");
    push_i64(&mut sql, pid);
    sql.append(" AND uid = ");
    push_i64(&mut sql, uid);
    sql.append(" ORDER BY id DESC");
    sql
}

/// The statement that reads the status of every submission of a user.
pub fn status_counts_sql(uid: i64) -> (sql: String)
    ensures
        sql@ == "SELECT status FROM \"submission\" WHERE uid = "@ + int_digits(uid as int),
{
    let mut sql = String::from_str("SELECT status FROM \"submission\" WHERE uid = ");
    push_i64(&mut sql, uid);
    sql
}

} // verus!
