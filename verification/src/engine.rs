//! The trusted boundary to the SQLite engine, reached through the `sqlite`
//! crate. Everything in this module is a declaration Verus believes without
//! proof: the two opaque engine types, two named views of a prepared
//! statement's state, and one wrapper per engine call the library makes.
//!
//! Errors cross the boundary as plain `(code, message)` pairs, exactly the
//! two public fields of `sqlite::Error`; verified code decodes them.

use vstd::prelude::*;

use crate::types::BoundParam;
use crate::types::ResultStep;

verus! {

use vstd::string::StringSliceAdditionalSpecFns;

/// An engine error as the `sqlite` crate reports it: the numeric status
/// code, if the engine gave one, and the engine's message, if any.
pub type EngineError = (Option<i64>, Option<String>);

#[verifier::external_type_specification]
#[verifier::external_body]
pub struct ExConnection(sqlite::Connection);

#[verifier::external_type_specification]
#[verifier::external_body]
pub struct ExStatement<'l>(sqlite::Statement<'l>);

/// The parameter bindings a prepared statement currently holds, by 1-based
/// index. A parameter absent from the map has never been bound and reads as
/// null; the engine replaces the entry at an index on a successful bind.
pub uninterp spec fn stmt_params(s: sqlite::Statement) -> Map<int, BoundParam>;

/// The names of the statement's result columns, in order. The `sqlite`
/// crate fixes them when the statement is compiled and never changes them,
/// so they are a stable attribute of the statement value.
pub uninterp spec fn stmt_columns(s: sqlite::Statement) -> Seq<Seq<char>>;

/// The number of parameters the statement was compiled with: the count of
/// its placeholders, fixed at compilation.
pub uninterp spec fn stmt_param_count(s: sqlite::Statement) -> int;

/// The 1-based position of the named parameter in the compiled statement,
/// or nothing when no parameter bears that name; fixed at compilation.
pub uninterp spec fn stmt_param_index(s: sqlite::Statement, name: Seq<char>) -> Option<int>;

/// Relies on `sqlite::Connection::open`: opens a read-write connection,
/// creating the database if needed. On failure the crate closes the
/// partially allocated native handle before returning the error.
#[verifier::external_body]
pub fn open_connection(path: &str) -> Result<sqlite::Connection, EngineError> {
    match sqlite::Connection::open(path) {
        Ok(c) => Ok(c),
        Err(e) => Err((e.code.map(|c| c as i64), e.message)),
    }
}

/// Relies on `sqlite::Connection::execute` (`sqlite3_exec` with a null
/// callback): runs one or more SQL statements without retrieving rows.
#[verifier::external_body]
pub fn conn_execute(conn: &sqlite::Connection, sql: &str) -> Result<(), EngineError> {
    match conn.execute(sql) {
        Ok(()) => Ok(()),
        Err(e) => Err((e.code.map(|c| c as i64), e.message)),
    }
}

/// Relies on `sqlite::Connection::prepare` (`sqlite3_prepare_v2`): compiles
/// the first SQL statement of `sql`. The engine documents that parameters of
/// a fresh statement are all unbound, and the crate caches the result
/// columns' names at compilation.
#[verifier::external_body]
pub fn conn_prepare<'c>(conn: &'c sqlite::Connection, sql: &str) -> (r: Result<sqlite::Statement<'c>, EngineError>)
    ensures
        r is Ok ==> stmt_params(r->Ok_0).dom() == Set::<int>::empty(),
{
    match conn.prepare(sql) {
        Ok(s) => Ok(s),
        Err(e) => Err((e.code.map(|c| c as i64), e.message)),
    }
}

/// Relies on `sqlite::Connection::change_count` (`sqlite3_changes`): the
/// number of rows changed by the most recent statement on this connection.
#[verifier::external_body]
pub fn conn_change_count(conn: &sqlite::Connection) -> usize {
    conn.change_count()
}

/// Relies on `sqlite::Connection::set_busy_timeout`
/// (`sqlite3_busy_timeout`): how long the engine waits on a lock conflict
/// before reporting a busy error. The crate passes the count as a 32-bit
/// signed integer, so larger values are excluded rather than truncated.
#[verifier::external_body]
pub fn conn_set_busy_timeout(conn: &mut sqlite::Connection, ms: usize) -> Result<(), EngineError>
    requires
        ms <= 0x7fff_ffff,
{
    match conn.set_busy_timeout(ms) {
        Ok(()) => Ok(()),
        Err(e) => Err((e.code.map(|c| c as i64), e.message)),
    }
}

/// Relies on `sqlite::Statement::next` (`sqlite3_step`): advances execution
/// by one step. Stepping neither changes the parameter bindings nor the
/// cached column names.
#[verifier::external_body]
pub fn stmt_step(s: &mut sqlite::Statement) -> (r: Result<ResultStep, EngineError>)
    ensures
        stmt_params(*final(s)) == stmt_params(*old(s)),
        stmt_columns(*final(s)) == stmt_columns(*old(s)),
{
    match s.next() {
        Ok(sqlite::State::Row) => Ok(ResultStep::SQLITE_ROW),
        Ok(sqlite::State::Done) => Ok(ResultStep::SQLITE_DONE),
        Err(e) => Err((e.code.map(|c| c as i64), e.message)),
    }
}

/// Relies on `sqlite::Statement::reset` (`sqlite3_reset`): returns the
/// statement to its pre-execution position. The engine documents that
/// bindings retain their values across a reset.
#[verifier::external_body]
pub fn stmt_reset(s: &mut sqlite::Statement) -> (r: Result<(), EngineError>)
    ensures
        stmt_params(*final(s)) == stmt_params(*old(s)),
        stmt_columns(*final(s)) == stmt_columns(*old(s)),
{
    match s.reset() {
        Ok(()) => Ok(()),
        Err(e) => Err((e.code.map(|c| c as i64), e.message)),
    }
}

/// Relies on `sqlite::Statement::bind` for `i64` (`sqlite3_bind_int64`): on
/// success the binding at `i` is replaced by the integer; on failure the
/// engine either leaves the bindings unchanged or clears the one at `i`,
/// and never touches any other index. An index above the statement's
/// parameter count is an error, never a silent success. The crate passes
/// the index as a 32-bit signed integer, so larger indices are excluded
/// rather than truncated onto another parameter.
#[verifier::external_body]
pub fn stmt_bind_i64(s: &mut sqlite::Statement, i: usize, v: i64) -> (r: Result<(), EngineError>)
    requires
        1 <= i <= 0x7fff_ffff,
    ensures
        stmt_columns(*final(s)) == stmt_columns(*old(s)),
        i as int > stmt_param_count(*old(s)) ==> r is Err,
        r is Ok ==> stmt_params(*final(s)) == stmt_params(*old(s)).insert(
            i as int,
            BoundParam::Int(v),
        ),
        r is Err ==> stmt_params(*final(s)).remove(i as int) == stmt_params(*old(s)).remove(i as int),
{
    match s.bind((i, v)) {
        Ok(()) => Ok(()),
        Err(e) => Err((e.code.map(|c| c as i64), e.message)),
    }
}

/// Relies on `sqlite::Statement::bind` for `f64` (`sqlite3_bind_double`),
/// with `bytemuck::cast` reinterpreting the given bit pattern as the 64-bit
/// float it encodes. The engine stores a NaN float as null. Index range and
/// failure behave as in `stmt_bind_i64`.
#[verifier::external_body]
pub fn stmt_bind_f64_bits(s: &mut sqlite::Statement, i: usize, bits: u64) -> (r: Result<(), EngineError>)
    requires
        1 <= i <= 0x7fff_ffff,
    ensures
        stmt_columns(*final(s)) == stmt_columns(*old(s)),
        i as int > stmt_param_count(*old(s)) ==> r is Err,
        r is Ok ==> stmt_params(*final(s)) == stmt_params(*old(s)).insert(
            i as int,
            if crate::types::is_nan_bits(bits) {
                BoundParam::Null
            } else {
                BoundParam::Real(bits)
            },
        ),
        r is Err ==> stmt_params(*final(s)).remove(i as int) == stmt_params(*old(s)).remove(i as int),
{
    match s.bind((i, sqlite::Value::Float(bytemuck::cast(bits)))) {
        Ok(()) => Ok(()),
        Err(e) => Err((e.code.map(|c| c as i64), e.message)),
    }
}

/// Relies on `sqlite::Statement::bind` for `&str` (`sqlite3_bind_text` with
/// the transient flag, so the engine copies the bytes). The crate passes
/// the byte length as a 32-bit signed integer, so longer texts are
/// excluded rather than bound with a wrapped length. Index range and
/// failure behave as in `stmt_bind_i64`.
#[verifier::external_body]
pub fn stmt_bind_text(s: &mut sqlite::Statement, i: usize, v: &str) -> (r: Result<(), EngineError>)
    requires
        1 <= i <= 0x7fff_ffff,
        v.len() <= 0x7fff_ffff,
    ensures
        stmt_columns(*final(s)) == stmt_columns(*old(s)),
        i as int > stmt_param_count(*old(s)) ==> r is Err,
        r is Ok ==> stmt_params(*final(s)) == stmt_params(*old(s)).insert(
            i as int,
            BoundParam::Text(v@),
        ),
        r is Err ==> stmt_params(*final(s)).remove(i as int) == stmt_params(*old(s)).remove(i as int),
{
    match s.bind((i, v)) {
        Ok(()) => Ok(()),
        Err(e) => Err((e.code.map(|c| c as i64), e.message)),
    }
}

/// Relies on `sqlite::Statement::bind` for `&[u8]` (`sqlite3_bind_blob`
/// with the transient flag, so the engine copies the bytes). The crate
/// passes the byte length as a 32-bit signed integer, so longer blobs are
/// excluded rather than bound with a wrapped length. Index range and
/// failure behave as in `stmt_bind_i64`.
#[verifier::external_body]
pub fn stmt_bind_blob(s: &mut sqlite::Statement, i: usize, v: &[u8]) -> (r: Result<(), EngineError>)
    requires
        1 <= i <= 0x7fff_ffff,
        v@.len() <= 0x7fff_ffff,
    ensures
        stmt_columns(*final(s)) == stmt_columns(*old(s)),
        i as int > stmt_param_count(*old(s)) ==> r is Err,
        r is Ok ==> stmt_params(*final(s)) == stmt_params(*old(s)).insert(
            i as int,
            BoundParam::Bytes(v@),
        ),
        r is Err ==> stmt_params(*final(s)).remove(i as int) == stmt_params(*old(s)).remove(i as int),
{
    match s.bind((i, &v[..])) {
        Ok(()) => Ok(()),
        Err(e) => Err((e.code.map(|c| c as i64), e.message)),
    }
}

/// Relies on `sqlite::Statement::bind` for `()` (`sqlite3_bind_null`).
/// Index range and failure behave as in `stmt_bind_i64`.
#[verifier::external_body]
pub fn stmt_bind_null(s: &mut sqlite::Statement, i: usize) -> (r: Result<(), EngineError>)
    requires
        1 <= i <= 0x7fff_ffff,
    ensures
        stmt_columns(*final(s)) == stmt_columns(*old(s)),
        i as int > stmt_param_count(*old(s)) ==> r is Err,
        r is Ok ==> stmt_params(*final(s)) == stmt_params(*old(s)).insert(i as int, BoundParam::Null),
        r is Err ==> stmt_params(*final(s)).remove(i as int) == stmt_params(*old(s)).remove(i as int),
{
    match s.bind((i, ())) {
        Ok(()) => Ok(()),
        Err(e) => Err((e.code.map(|c| c as i64), e.message)),
    }
}

/// Relies on `sqlite::Statement::read` for `i64` (`sqlite3_column_int64`,
/// which coerces the cell to a 64-bit integer and cannot fail once the
/// crate's bounds check passes).
#[verifier::external_body]
pub fn stmt_read_i64(s: &sqlite::Statement, i: usize) -> (r: Result<i64, EngineError>)
    requires
        i < stmt_columns(*s).len(),
    ensures
        r is Ok,
{
    match s.read::<i64, _>(i) {
        Ok(v) => Ok(v),
        Err(e) => Err((e.code.map(|c| c as i64), e.message)),
    }
}

/// Relies on `sqlite::Statement::read` for `sqlite::Value`: yields the bit
/// pattern of the cell when its dynamic type is the 64-bit float type, and
/// nothing for a cell of any other type.
#[verifier::external_body]
pub fn stmt_read_f64_bits(s: &sqlite::Statement, i: usize) -> Result<Option<u64>, EngineError>
    requires
        i < stmt_columns(*s).len(),
{
    match s.read::<sqlite::Value, _>(i) {
        Ok(sqlite::Value::Float(x)) => Ok(Some(x.to_bits())),
        Ok(_) => Ok(None),
        Err(e) => Err((e.code.map(|c| c as i64), e.message)),
    }
}

/// Relies on `sqlite::Statement::read` for `Option<String>`
/// (`sqlite3_column_text`, which coerces a non-null cell to text): yields
/// the cell's text, or nothing when the cell is null.
#[verifier::external_body]
pub fn stmt_read_text(s: &sqlite::Statement, i: usize) -> Result<Option<String>, EngineError>
    requires
        i < stmt_columns(*s).len(),
{
    match s.read::<Option<String>, _>(i) {
        Ok(v) => Ok(v),
        Err(e) => Err((e.code.map(|c| c as i64), e.message)),
    }
}

/// Relies on `sqlite::Statement::read` for `Vec<u8>`
/// (`sqlite3_column_blob`, which coerces the cell to bytes; a null cell
/// yields an empty vector, and the read cannot fail once the crate's
/// bounds check passes).
#[verifier::external_body]
pub fn stmt_read_blob(s: &sqlite::Statement, i: usize) -> (r: Result<Vec<u8>, EngineError>)
    requires
        i < stmt_columns(*s).len(),
    ensures
        r is Ok,
{
    match s.read::<Vec<u8>, _>(i) {
        Ok(v) => Ok(v),
        Err(e) => Err((e.code.map(|c| c as i64), e.message)),
    }
}

/// Relies on `sqlite::Statement::column_name`: the crate caches the names
/// at compilation, so with the index in range the call cannot fail and
/// returns exactly the cached name.
#[verifier::external_body]
pub fn stmt_column_name(s: &sqlite::Statement, i: usize) -> (r: String)
    requires
        i < stmt_columns(*s).len(),
    ensures
        r@ == stmt_columns(*s)[i as int],
{
    match s.column_name(i) {
        Ok(n) => n.to_string(),
        Err(_) => String::new(),
    }
}

/// Relies on `sqlite::Statement::column_count`: the length of the cached
/// column-name list.
#[verifier::external_body]
pub fn stmt_column_count(s: &sqlite::Statement) -> (r: usize)
    ensures
        r == stmt_columns(*s).len(),
{
    s.column_count()
}

/// Relies on `sqlite::Statement::column_type` (`sqlite3_column_type`): the
/// dynamic type tag of the cell, meaningful after a step yielded a row.
/// With the index in range the crate's own bounds check passes, and the
/// engine returns one of the five tags.
#[verifier::external_body]
pub fn stmt_column_type(s: &sqlite::Statement, i: usize) -> Result<crate::types::ColumnType, EngineError>
    requires
        i < stmt_columns(*s).len(),
{
    match s.column_type(i) {
        Ok(sqlite::Type::Integer) => Ok(crate::types::ColumnType::SQLITE_INTEGER),
        Ok(sqlite::Type::Float) => Ok(crate::types::ColumnType::SQLITE_FLOAT),
        Ok(sqlite::Type::String) => Ok(crate::types::ColumnType::SQLITE_TEXT),
        Ok(sqlite::Type::Binary) => Ok(crate::types::ColumnType::SQLITE_BLOB),
        Ok(sqlite::Type::Null) => Ok(crate::types::ColumnType::SQLITE_NULL),
        Err(e) => Err((e.code.map(|c| c as i64), e.message)),
    }
}

/// Relies on `sqlite::Statement::parameter_index`
/// (`sqlite3_bind_parameter_index`): the 1-based index of a named
/// parameter, or nothing when no parameter has that name. The call itself
/// cannot fail; the crate errs only when the name holds an interior NUL,
/// which no C string can carry to the engine.
#[verifier::external_body]
pub fn stmt_parameter_index(s: &sqlite::Statement, name: &str) -> (r: Result<Option<usize>, EngineError>)
    ensures
        r is Err ==> name@.contains('\0'),
        r matches Ok(Some(i)) ==> i >= 1 && stmt_param_index(*s, name@) == Some(i as int),
        r matches Ok(None) ==> stmt_param_index(*s, name@) is None,
{
    match s.parameter_index(name) {
        Ok(v) => Ok(v),
        Err(e) => Err((e.code.map(|c| c as i64), e.message)),
    }
}

/// Relies on `char::to_string`: the string holding exactly the one
/// character.
#[verifier::external_body]
pub fn char_to_string(v: char) -> (r: String)
    ensures
        r@ == seq![v],
{
    v.to_string()
}

} // verus!
