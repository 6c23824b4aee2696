//! Commands as the stores take them: the text of a statement for the
//! relational store, the text of a key for the key-value store.

use crate::cache::{Command, Key};
use crate::schema::{hash_key, redis_key_of, view_key, zset_key_of};
use crate::sql::{delete_sql, delete_text, increment_sql, increment_text, insert_sql, insert_text,
    insertable_count, scan_sql, scan_text, select_row_sql, select_row_text, update_sql, update_text};
use crate::text::texts;
use vstd::prelude::*;

verus! {

/// The text of a key.
pub open spec fn key_view(key: Key) -> Seq<char> {
    match key {
        Key::Hash(kind, id) => hash_key(kind, id),
        Key::View(kind, scope) => view_key(kind, scope),
    }
}

/// The text of a key.
pub fn key_text(key: Key) -> (text: String)
    ensures
        text@ == key_view(key),
{
    match key {
        Key::Hash(kind, id) => redis_key_of(kind, id),
        Key::View(kind, scope) => zset_key_of(kind, scope),
    }
}

/// Whether a command can be written as a statement: an insert needs a
/// field to write.
pub open spec fn writable(command: &Command) -> bool {
    match command {
        Command::Insert { kind, fields } => insertable_count(fields.entries()) > 0,
        _ => true,
    }
}

/// The statement of a command to the relational store; `None` for any
/// other command.
pub open spec fn statement_text(command: &Command) -> Option<Seq<char>> {
    match command {
        Command::Insert { kind, fields } => Some(insert_text(*kind, fields.entries())),
        Command::SelectRow { kind, id } => Some(select_row_text(*kind, *id)),
        Command::Update { kind, id, columns } => Some(update_text(*kind, *id, columns.entries())),
        Command::Increment { kind, id, fields } => Some(increment_text(*kind, *id, texts(fields@))),
        Command::Delete { kind, id } => Some(delete_text(*kind, *id)),
        Command::Scan { kind, scope } => Some(scan_text(*kind, *scope)),
        _ => None,
    }
}

/// The statement of a command to the relational store; `None` for any
/// other command.
pub fn statement(command: &Command) -> (sql: Option<String>)
    requires
        writable(command),
    ensures
        sql is Some == statement_text(command) is Some,
        sql is Some ==> sql.unwrap()@ == statement_text(command).unwrap(),
{
    match command {
        Command::Insert { kind, fields } => Some(insert_sql(*kind, fields)),
        Command::SelectRow { kind, id } => Some(select_row_sql(*kind, *id)),
        Command::Update { kind, id, columns } => Some(update_sql(*kind, *id, columns)),
        Command::Increment { kind, id, fields } => Some(increment_sql(*kind, *id, fields)),
        Command::Delete { kind, id } => Some(delete_sql(*kind, *id)),
        Command::Scan { kind, scope } => Some(scan_sql(*kind, *scope)),
        _ => None,
    }
}

/// The window of a listing: where it begins and how many rows it shows.
/// The ranks run from `offset` to `offset + limit - 1`; a missing part
/// counts as 0.
pub open spec fn window_of(limit: Option<i32>, offset: Option<i32>) -> (i64, i64) {
    let low = match offset {
        Some(x) => x as int,
        None => 0,
    };
    let count = match limit {
        Some(x) => x as int,
        None => 0,
    };
    (low as i64, (count + low - 1) as i64)
}

/// The first and the last rank of a listing.
pub fn window(limit: Option<i32>, offset: Option<i32>) -> (r: (i64, i64))
    ensures
        r == window_of(limit, offset),
{
    let low: i64 = match offset {
        Some(x) => x as i64,
        None => 0,
    };
    let count: i64 = match limit {
        Some(x) => x as i64,
        None => 0,
    };
    (low, count + low - 1)
}

} // verus!
