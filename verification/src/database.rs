//! The database connection: owns one native connection handle from open to
//! close, compiles SQL into cursors, runs parameterless SQL directly, and
//! exposes connection-level metadata.

use vstd::prelude::*;

use crate::cursor::Cursor;
use crate::engine;
use crate::types::ResultError;
use crate::types::ResultStep;
use crate::types::SqliteResult;
use crate::types::engine_error_of;

verus! {

use vstd::string::StringSliceAdditionalSpecFns;

/// The database connection. Dropping it closes the native handle exactly
/// once; cursors borrow the connection, so the borrow checker keeps every
/// cursor from outliving it.
pub struct Database {
    conn: sqlite::Connection,
    last_msg: String,
}

impl Database {
    /// The engine message of the most recent failure this connection value
    /// observed through a message-recording method — exactly `exec` and
    /// `set_busy_timeout`, the fallible operations that take the connection
    /// exclusively; empty while none has failed. `prepare` and the cursor
    /// operations share the connection with live cursors and so cannot
    /// write the record; their errors carry only the status code.
    pub closed spec fn last_message(&self) -> Seq<char> {
        self.last_msg@
    }

    /// Opens a connection to the database file at `path`, or to a
    /// transient in-process database for the sentinel path `:memory:`,
    /// creating the database if needed. On failure the partially allocated
    /// native handle is closed before the error returns.
    pub fn new(path: &str) -> (r: SqliteResult<Database>)
        ensures
            r matches Ok(db) ==> db.last_message() == Seq::<char>::empty(),
    {
        match engine::open_connection(path) {
            Ok(conn) => Ok(Database { conn, last_msg: String::new() }),
            Err(e) => Err(engine_error_of(e.0)),
        }
    }

    /// The stored engine message; see `last_message` for exactly which
    /// operations record one.
    pub fn get_errmsg(&self) -> (r: String)
        ensures
            r@ == self.last_message(),
    {
        self.last_msg.clone()
    }

    /// Compiles the first SQL statement of `sql` into a cursor scoped to
    /// this connection. A fresh cursor holds no parameter bindings.
    pub fn prepare<'db>(&'db self, sql: &str) -> (r: SqliteResult<Cursor<'db>>)
        ensures
            r matches Ok(cur) ==> cur.wf() && cur.params().dom() == Set::<int>::empty(),
    {
        match engine::conn_prepare(&self.conn, sql) {
            Ok(stmt) => Ok(Cursor::new(stmt)),
            Err(e) => Err(engine_error_of(e.0)),
        }
    }

    /// Compiles the first SQL statement of `sql` and reports the byte
    /// offset where that statement ends, so a caller holding several
    /// statements in one text can loop to compile the rest. The offset is
    /// the library's own lexical statement-boundary scan, since the safe
    /// engine interface does not hand back the parse tail. The scan ends at
    /// the first `;` outside literals and comments, which for a compound
    /// statement — a CREATE TRIGGER body's BEGIN…END holding inner
    /// semicolons — is earlier than the engine's parser stops; callers
    /// compiling such scripts piecewise should pass each trigger definition
    /// as its own text.
    pub fn prepare_with_offset<'db>(&'db self, sql: &str) -> (r: SqliteResult<
        (Cursor<'db>, usize),
    >)
        ensures
            r matches Ok(p) ==> p.0.wf() && p.0.params().dom() == Set::<int>::empty() && p.1
                == crate::sqltext::first_stmt_end(sql.spec_bytes()),
    {
        match self.prepare(sql) {
            Ok(cur) => Ok((cur, crate::sqltext::statement_boundary(sql))),
            Err(e) => Err(e),
        }
    }

    /// Runs SQL with no parameter binding and no row retrieval; suitable
    /// for schema changes and multi-statement scripts without parameters.
    /// On failure the engine's message is recorded for `get_errmsg`.
    pub fn exec(&mut self, sql: &str) -> (r: SqliteResult<()>)
        ensures
            r is Ok ==> final(self).last_message() == old(self).last_message(),
    {
        match engine::conn_execute(&self.conn, sql) {
            Ok(()) => Ok(()),
            Err(e) => {
                self.last_msg = match e.1 {
                    Some(m) => m,
                    None => String::new(),
                };
                Err(engine_error_of(e.0))
            },
        }
    }

    /// The number of rows inserted, updated, or deleted by the most recent
    /// statement on this connection.
    pub fn get_changes(&self) -> usize {
        engine::conn_change_count(&self.conn)
    }

    /// The row identifier the engine assigned to the most recent insert on
    /// this connection, asked of the engine itself through a one-column
    /// query.
    pub fn get_last_insert_rowid(&self) -> (r: SqliteResult<i64>) {
        let mut cur = match self.prepare("SELECT last_insert_rowid()") {
            Ok(c) => c,
            Err(e) => return Err(e),
        };
        match cur.step() {
            Ok(ResultStep::SQLITE_ROW) => match cur.get_i64(0) {
                Ok(v) => Ok(v),
                Err(e) => Err(e),
            },
            Ok(ResultStep::SQLITE_DONE) => Err(ResultError::SQLITE_INTERNAL),
            Err(e) => Err(e),
        }
    }

    /// Configures how long the engine blocks on a lock conflict before
    /// returning a busy error; affects all subsequent statement execution
    /// on this connection. The engine takes the count as a 32-bit signed
    /// integer, which bounds the accepted timeouts (about 24 days). On
    /// failure the engine's message is recorded for `get_errmsg`.
    pub fn set_busy_timeout(&mut self, ms: usize) -> (r: SqliteResult<()>)
        requires
            ms <= 0x7fff_ffff,
        ensures
            r is Ok ==> final(self).last_message() == old(self).last_message(),
    {
        match engine::conn_set_busy_timeout(&mut self.conn, ms) {
            Ok(()) => Ok(()),
            Err(e) => {
                self.last_msg = match e.1 {
                    Some(m) => m,
                    None => String::new(),
                };
                Err(engine_error_of(e.0))
            },
        }
    }
}

} // verus!
