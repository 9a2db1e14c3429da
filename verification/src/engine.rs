//! The calls into the database engine. Nothing is proved of the engine:
//! each function here hands one call to `rusqlite` and says of its result
//! only what holds whatever the database does.

use crate::convert::{BindParameter, NativeCell};
use vstd::prelude::*;

verus! {

/// A connection of `rusqlite` to one database.
#[verifier::external_type_specification]
#[verifier::external_body]
pub struct ExConnection(rusqlite::Connection);

/// A prepared statement of `rusqlite`.
#[verifier::external_type_specification]
#[verifier::external_body]
pub struct ExStatement<'conn>(rusqlite::Statement<'conn>);

/// The rows that a running query of `rusqlite` still has to give.
#[verifier::external_type_specification]
#[verifier::external_body]
pub struct ExRows<'stmt>(rusqlite::Rows<'stmt>);

/// One row of a running query of `rusqlite`.
#[verifier::external_type_specification]
#[verifier::external_body]
pub struct ExRow<'stmt>(rusqlite::Row<'stmt>);

/// A failure of `rusqlite`.
#[verifier::external_type_specification]
#[verifier::external_body]
pub struct ExEngineError(rusqlite::Error);

/// A value of `rusqlite` that can be bound to a placeholder.
#[verifier::external_type_specification]
#[verifier::external_body]
pub struct ExNativeValue(rusqlite::types::Value);

/// Wraps `Connection::open`: opens the database at the path, or the one in
/// memory for `:memory:`. The path is first made a C string, which fails
/// where it holds a NUL character; whether the database then opens is the
/// engine's to say.
#[verifier::external_body]
pub(crate) fn open_connection(path: &str) -> (r: Result<rusqlite::Connection, rusqlite::Error>)
    ensures
        path@.contains('\0') ==> r is Err,
{
    rusqlite::Connection::open(path)
}

/// Wraps `Connection::prepare`.
#[verifier::external_body]
pub(crate) fn prepare<'c>(conn: &'c rusqlite::Connection, sql: &str) -> Result<
    rusqlite::Statement<'c>,
    rusqlite::Error,
> {
    conn.prepare(sql)
}

/// Makes the value of `rusqlite` for a bind parameter. A boolean goes through
/// `Value::from`, a real through `Number::as_f64` and `Value::from`.
#[verifier::external_body]
pub(crate) fn native_parameter(parameter: &BindParameter) -> rusqlite::types::Value {
    match parameter {
        BindParameter::Null => rusqlite::types::Value::Null,
        BindParameter::Bool(b) => rusqlite::types::Value::from(*b),
        BindParameter::Integer(i) => rusqlite::types::Value::Integer(*i),
        BindParameter::Real(n) => rusqlite::types::Value::from(n.as_f64()),
        BindParameter::Text(s) => rusqlite::types::Value::Text(s.clone()),
    }
}

/// Wraps `Statement::query`: binds the values to the placeholders, in their
/// order, and hands out the rows.
#[verifier::external_body]
pub(crate) fn start_query<'s>(
    stmt: &'s mut rusqlite::Statement<'_>,
    values: &Vec<rusqlite::types::Value>,
) -> Result<rusqlite::Rows<'s>, rusqlite::Error> {
    stmt.query(rusqlite::params_from_iter(values.iter()))
}

/// Wraps `Rows::next`: the next row, or none when all were given.
#[verifier::external_body]
pub(crate) fn next_row<'a, 's>(rows: &'a mut rusqlite::Rows<'s>) -> Result<
    Option<&'a rusqlite::Row<'s>>,
    rusqlite::Error,
> {
    rows.next()
}

/// Wraps `Row::get_ref`: the cell in column `index`, or none where the row
/// has no such column. A real goes through `Number::from_f64`, which keeps
/// finite numbers only. The bytes of a text or of a blob are in a vector,
/// which is never longer than `isize::MAX`.
#[verifier::external_body]
pub(crate) fn read_cell(row: &rusqlite::Row<'_>, index: usize) -> (r: Option<NativeCell>)
    ensures
        r matches Some(cell) ==> cell.fits(),
{
    match row.get_ref(index) {
        Ok(rusqlite::types::ValueRef::Null) => Some(NativeCell::Null),
        Ok(rusqlite::types::ValueRef::Integer(i)) => Some(NativeCell::Integer(i)),
        Ok(rusqlite::types::ValueRef::Real(f)) => Some(
            NativeCell::Real(serde_json::Number::from_f64(f)),
        ),
        Ok(rusqlite::types::ValueRef::Text(t)) => Some(NativeCell::Text(t.to_vec())),
        Ok(rusqlite::types::ValueRef::Blob(b)) => Some(NativeCell::Blob(b.to_vec())),
        Err(_) => None,
    }
}

/// Wraps `Connection::execute`: prepares the statement, binds the values and
/// runs it once; the number of rows that it changed.
#[verifier::external_body]
pub(crate) fn execute_once(
    conn: &rusqlite::Connection,
    sql: &str,
    values: &Vec<rusqlite::types::Value>,
) -> Result<usize, rusqlite::Error> {
    conn.execute(sql, rusqlite::params_from_iter(values.iter()))
}

/// Wraps `Connection::last_insert_rowid`.
#[verifier::external_body]
pub(crate) fn last_insert_rowid(conn: &rusqlite::Connection) -> i64 {
    conn.last_insert_rowid()
}

/// Wraps `Statement::execute`: binds the values and runs the prepared
/// statement once; the number of rows that it changed.
#[verifier::external_body]
pub(crate) fn execute_prepared(
    stmt: &mut rusqlite::Statement<'_>,
    values: &Vec<rusqlite::types::Value>,
) -> Result<usize, rusqlite::Error> {
    stmt.execute(rusqlite::params_from_iter(values.iter()))
}

/// Wraps `Connection::execute_batch`: runs the statements of a script, one
/// after the other.
#[verifier::external_body]
pub(crate) fn execute_batch(conn: &rusqlite::Connection, script: &str) -> Result<
    (),
    rusqlite::Error,
> {
    conn.execute_batch(script)
}

/// Wraps `to_string` of `rusqlite::Error`: the engine's own words for a
/// failure.
#[verifier::external_body]
pub(crate) fn error_text(error: &rusqlite::Error) -> String {
    error.to_string()
}

} // verus!
