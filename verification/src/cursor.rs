//! The database cursor: a prepared statement scoped to the lifetime of its
//! owning connection, stepped row by row, with 1-based parameter binding and
//! 0-based column reading.

use vstd::prelude::*;

use crate::engine;
use crate::types::BindArg;
use crate::types::BoundParam;
use crate::types::ColumnType;
use crate::types::ResultError;
use crate::types::ResultStep;
use crate::types::SqliteResult;
use crate::types::bound_of;
use crate::types::engine_error_of;

verus! {

/// One materialized result row: an ordered mapping from column name to the
/// cell's value, built fresh per fetched row and owned by the caller. Its
/// keys are distinct; materialization fails rather than silently dropping a
/// duplicate column name.
pub struct RowMap {
    entries: Vec<(String, BindArg)>,
}

impl RowMap {
    /// The column names held, in insertion order.
    pub closed spec fn keys(&self) -> Seq<Seq<char>> {
        self.entries@.map(|_i: int, p: (String, BindArg)| p.0@)
    }

    /// The values held, in insertion order.
    pub closed spec fn vals(&self) -> Seq<BindArg> {
        self.entries@.map(|_i: int, p: (String, BindArg)| p.1)
    }

    /// All keys are distinct, so a name picks out at most one value.
    pub open spec fn wf(&self) -> bool {
        forall|i: int, j: int|
            0 <= i < j < self.keys().len() ==> #[trigger] self.keys()[i] != #[trigger] self.keys()[j]
    }

    /// An empty row.
    pub fn new() -> (r: RowMap)
        ensures
            r.wf(),
            r.keys() == Seq::<Seq<char>>::empty(),
            r.vals() == Seq::<BindArg>::empty(),
    {
        let r = RowMap { entries: Vec::new() };
        proof {
            assert(r.keys() =~= Seq::<Seq<char>>::empty());
            assert(r.vals() =~= Seq::<BindArg>::empty());
        }
        r
    }

    /// The number of columns held.
    pub fn len(&self) -> (r: usize)
        ensures
            r == self.keys().len(),
    {
        self.entries.len()
    }

    /// Whether a column of that name is held.
    pub fn contains_key(&self, name: &str) -> (r: bool)
        ensures
            r == self.keys().contains(name@),
    {
        let needle = name.to_owned();
        let mut i: usize = 0;
        while i < self.entries.len()
            invariant
                i <= self.entries.len(),
                needle@ == name@,
                forall|j: int| 0 <= j < i ==> #[trigger] self.keys()[j] != name@,
            decreases self.entries.len() - i,
        {
            if self.entries[i].0 == needle {
                proof {
                    assert(self.keys()[i as int] == name@);
                }
                return true;
            }
            i = i + 1;
        }
        proof {
            assert(!self.keys().contains(name@)) by {
                if self.keys().contains(name@) {
                    let j = choose|j: int|
                        0 <= j < self.keys().len() && self.keys()[j] == name@;
                    assert(self.keys()[j] != name@);
                }
            }
        }
        false
    }

    /// The value at a column name, or nothing when the name is not held.
    pub fn get(&self, name: &str) -> (r: Option<&BindArg>)
        requires
            self.wf(),
        ensures
            r is Some <==> self.keys().contains(name@),
            r matches Some(v) ==> exists|j: int|
                0 <= j < self.keys().len() && #[trigger] self.keys()[j] == name@ && self.vals()[j]
                    == *v,
    {
        let needle = name.to_owned();
        let mut i: usize = 0;
        while i < self.entries.len()
            invariant
                i <= self.entries.len(),
                needle@ == name@,
                forall|j: int| 0 <= j < i ==> #[trigger] self.keys()[j] != name@,
            decreases self.entries.len() - i,
        {
            if self.entries[i].0 == needle {
                proof {
                    assert(self.keys()[i as int] == name@);
                    assert(self.vals()[i as int] == self.entries@[i as int].1);
                }
                return Some(&self.entries[i].1);
            }
            i = i + 1;
        }
        proof {
            assert(!self.keys().contains(name@)) by {
                if self.keys().contains(name@) {
                    let j = choose|j: int|
                        0 <= j < self.keys().len() && self.keys()[j] == name@;
                    assert(self.keys()[j] != name@);
                }
            }
        }
        None
    }

    /// Adds a column under a name not yet held.
    pub fn insert(&mut self, name: String, val: BindArg)
        requires
            old(self).wf(),
            !old(self).keys().contains(name@),
        ensures
            final(self).wf(),
            final(self).keys() == old(self).keys().push(name@),
            final(self).vals() == old(self).vals().push(val),
    {
        let ghost oldkeys = self.keys();
        let ghost k = name@;
        self.entries.push((name, val));
        proof {
            assert(self.keys() =~= oldkeys.push(k));
            assert(self.vals() =~= old(self).vals().push(val));
            assert forall|i: int, j: int| 0 <= i < j < self.keys().len() implies #[trigger] self.keys()[i]
                != #[trigger] self.keys()[j] by {
                if j == self.keys().len() - 1 {
                    assert(oldkeys.contains(oldkeys[i]));
                }
            }
        }
    }
}

/// The database cursor. It owns one compiled statement; the borrow of the
/// owning connection keeps the cursor from outliving it, so the statement is
/// always finalized (when the cursor is dropped) before the connection
/// closes.
pub struct Cursor<'db> {
    stmt: sqlite::Statement<'db>,
    max_param: usize,
}

impl<'db> Cursor<'db> {
    /// The parameter bindings the statement currently holds, by 1-based
    /// index; an index absent from the map is unbound and reads as null.
    pub closed spec fn params(&self) -> Map<int, BoundParam> {
        engine::stmt_params(self.stmt)
    }

    /// The names of the statement's result columns, in order.
    pub closed spec fn columns(&self) -> Seq<Seq<char>> {
        engine::stmt_columns(self.stmt)
    }

    /// The number of parameters the statement was compiled with.
    pub closed spec fn param_count(&self) -> int {
        engine::stmt_param_count(self.stmt)
    }

    /// The 1-based position of the named parameter, or nothing when no
    /// parameter bears that name.
    pub closed spec fn param_index(&self, name: Seq<char>) -> Option<int> {
        engine::stmt_param_index(self.stmt, name)
    }

    /// Every binding sits at an index between 1 and the highest index this
    /// cursor ever bound. Constructors establish this and every method
    /// preserves it.
    pub closed spec fn wf(&self) -> bool {
        forall|k: int| #[trigger] self.params().dom().contains(k) ==> 1 <= k <= self.max_param
    }

    /// Wraps a freshly compiled statement, which holds no bindings yet.
    pub fn new(stmt: sqlite::Statement<'db>) -> (r: Cursor<'db>)
        requires
            engine::stmt_params(stmt).dom() == Set::<int>::empty(),
        ensures
            r.wf(),
            r.params().dom() == Set::<int>::empty(),
            r.columns() == engine::stmt_columns(stmt),
    {
        Cursor { stmt, max_param: 0 }
    }

    /// Resets the statement to its pre-execution position; the parameter
    /// bindings survive.
    pub fn reset(&mut self) -> (r: SqliteResult<()>)
        requires
            old(self).wf(),
        ensures
            final(self).wf(),
            final(self).params() == old(self).params(),
            final(self).columns() == old(self).columns(),
    {
        let r = engine::stmt_reset(&mut self.stmt);
        proof {
            assert forall|k: int| #[trigger] self.params().dom().contains(k) implies 1 <= k
                <= self.max_param by {
                assert(old(self).params().dom().contains(k));
            }
        }
        match r {
            Ok(()) => Ok(()),
            Err(e) => Err(engine_error_of(e.0)),
        }
    }

    /// Advances execution: a row is available, execution is done, or the
    /// engine reports an error. Stepping leaves the bindings in place.
    pub fn step(&mut self) -> (r: Result<ResultStep, ResultError>)
        requires
            old(self).wf(),
        ensures
            final(self).wf(),
            final(self).params() == old(self).params(),
            final(self).columns() == old(self).columns(),
    {
        let r = engine::stmt_step(&mut self.stmt);
        proof {
            assert forall|k: int| #[trigger] self.params().dom().contains(k) implies 1 <= k
                <= self.max_param by {
                assert(old(self).params().dom().contains(k));
            }
        }
        match r {
            Ok(s) => Ok(s),
            Err(e) => Err(engine_error_of(e.0)),
        }
    }

    /// Binds one value to the parameter at the 1-based index `i`. Both text
    /// variants and blobs are copied by the engine, so the bound value never
    /// depends on the host buffer's lifetime. Index 0 is out of range, as
    /// the engine defines it, and so is any index the engine's 32-bit index
    /// argument cannot carry; an in-range index above the statement's
    /// parameter count is an engine error, never a silent success. A text
    /// or blob whose byte length exceeds the engine's 32-bit length
    /// argument is rejected as too big. On failure no other index's binding
    /// changes.
    pub fn bind_param(&mut self, i: usize, value: &BindArg) -> (r: SqliteResult<()>)
        requires
            old(self).wf(),
        ensures
            final(self).wf(),
            final(self).columns() == old(self).columns(),
            r is Ok ==> final(self).params() == old(self).params().insert(i as int, bound_of(*value)),
            r is Err ==> final(self).params().remove(i as int) == old(self).params().remove(i as int),
            i == 0 || i > 0x7fff_ffff ==> r == SqliteResult::<()>::Err(ResultError::SQLITE_RANGE),
            1 <= i <= 0x7fff_ffff && crate::types::exceeds_bind_length(*value) ==> r
                == SqliteResult::<()>::Err(ResultError::SQLITE_TOOBIG),
            1 <= i <= 0x7fff_ffff && !crate::types::exceeds_bind_length(*value) && i as int > old(
                self,
            ).param_count() ==> r is Err,
    {
        if i == 0 || i > 0x7fff_ffff {
            return Err(ResultError::SQLITE_RANGE);
        }
        let r = match value {
            BindArg::Text(v) => {
                let vs = v.as_str();
                if vs.len() > 0x7fff_ffff {
                    return Err(ResultError::SQLITE_TOOBIG);
                }
                engine::stmt_bind_text(&mut self.stmt, i, vs)
            },
            BindArg::StaticText(v) => {
                if v.len() > 0x7fff_ffff {
                    return Err(ResultError::SQLITE_TOOBIG);
                }
                engine::stmt_bind_text(&mut self.stmt, i, v)
            },
            BindArg::Float64(bits) => engine::stmt_bind_f64_bits(&mut self.stmt, i, *bits),
            BindArg::Integer(v) => engine::stmt_bind_i64(&mut self.stmt, i, *v as i64),
            BindArg::Integer64(v) => engine::stmt_bind_i64(&mut self.stmt, i, *v),
            BindArg::Blob(v) => {
                if v.len() > 0x7fff_ffff {
                    return Err(ResultError::SQLITE_TOOBIG);
                }
                engine::stmt_bind_blob(&mut self.stmt, i, v.as_slice())
            },
            BindArg::Null => engine::stmt_bind_null(&mut self.stmt, i),
        };
        if i > self.max_param {
            self.max_param = i;
        }
        proof {
            assert forall|k: int| #[trigger] self.params().dom().contains(k) implies 1 <= k
                <= self.max_param by {
                if k != i as int {
                    if r is Err {
                        assert(self.params().remove(i as int).dom().contains(k));
                        assert(old(self).params().remove(i as int).dom().contains(k));
                    }
                    assert(old(self).params().dom().contains(k));
                }
            }
        }
        match r {
            Ok(()) => Ok(()),
            Err(e) => Err(engine_error_of(e.0)),
        }
    }

    /// Binds a full ordered sequence of values at indices 1 through
    /// `values.len()`. Binding stops at the first failing index; values
    /// bound before the failure stay bound — there is no rollback.
    pub fn bind_params(&mut self, values: &[BindArg]) -> (r: SqliteResult<()>)
        requires
            old(self).wf(),
        ensures
            final(self).wf(),
            final(self).columns() == old(self).columns(),
            r is Ok ==> final(self).params() == crate::types::bind_seq(
                old(self).params(),
                1,
                values@.map(|_j: int, a: BindArg| bound_of(a)),
            ),
            r is Err ==> exists|j: int|
                0 <= j < values@.len() && final(self).params().remove(j + 1)
                    == crate::types::bind_seq(
                    old(self).params(),
                    1,
                    (#[trigger] values@.take(j)).map(|_j: int, a: BindArg| bound_of(a)),
                ).remove(j + 1),
    {
        let ghost vals = values@.map(|_j: int, a: BindArg| bound_of(a));
        let mut idx: usize = 0;
        while idx < values.len()
            invariant
                self.wf(),
                self.columns() == old(self).columns(),
                idx <= values.len(),
                vals == values@.map(|_j: int, a: BindArg| bound_of(a)),
                self.params() == crate::types::bind_seq(
                    old(self).params(),
                    1,
                    vals.take(idx as int),
                ),
            decreases values.len() - idx,
        {
            match self.bind_param(idx + 1, &values[idx]) {
                Ok(()) => {
                    proof {
                        crate::types::lemma_bind_seq_push(
                            old(self).params(),
                            1,
                            vals.take(idx as int),
                            vals[idx as int],
                        );
                        assert(vals.take(idx as int).push(vals[idx as int]) =~= vals.take(
                            idx as int + 1,
                        ));
                    }
                    idx = idx + 1;
                },
                Err(e) => {
                    proof {
                        assert(values@.take(idx as int).map(|_j: int, a: BindArg| bound_of(a))
                            =~= vals.take(idx as int));
                    }
                    return Err(e);
                },
            }
        }
        proof {
            assert(vals.take(values@.len() as int) =~= vals);
        }
        Ok(())
    }

    /// Sets every parameter this cursor ever bound back to null; the
    /// execution position is untouched. The engine accepts the underlying
    /// binds only when the statement is not mid-execution (fresh, reset, or
    /// run to completion), which is the only correct time to call this.
    pub fn clear_bindings(&mut self) -> (r: SqliteResult<()>)
        requires
            old(self).wf(),
        ensures
            final(self).wf(),
            final(self).columns() == old(self).columns(),
            r is Ok ==> forall|k: int| #[trigger]
                final(self).params().dom().contains(k) ==> final(self).params()[k]
                    == BoundParam::Null,
    {
        let m = self.max_param;
        let mut j: usize = 0;
        while j < m
            invariant
                self.wf(),
                self.columns() == old(self).columns(),
                j <= m,
                forall|k: int| #[trigger] self.params().dom().contains(k) ==> 1 <= k <= m,
                forall|k: int| #[trigger]
                    self.params().dom().contains(k) && k <= j ==> self.params()[k]
                        == BoundParam::Null,
            decreases m - j,
        {
            match self.bind_param(j + 1, &BindArg::Null) {
                Ok(()) => {
                    j = j + 1;
                },
                Err(e) => {
                    return Err(e);
                },
            }
        }
        Ok(())
    }

    /// The number of columns in the statement's result set, fixed at
    /// compilation.
    pub fn get_column_count(&self) -> (r: usize)
        ensures
            r == self.columns().len(),
    {
        engine::stmt_column_count(&self.stmt)
    }

    /// The name of the 0-based column `i` of the result set; an index at or
    /// past the column count is a misuse.
    pub fn get_column_name(&self, i: usize) -> (r: SqliteResult<String>)
        ensures
            r is Ok <==> i < self.columns().len(),
            r is Ok ==> r->Ok_0@ == self.columns()[i as int],
            r is Err ==> r->Err_0 == ResultError::SQLITE_MISUSE,
    {
        if i < engine::stmt_column_count(&self.stmt) {
            Ok(engine::stmt_column_name(&self.stmt, i))
        } else {
            Err(ResultError::SQLITE_MISUSE)
        }
    }

    /// The names of all columns in the result set, in order.
    pub fn get_column_names(&self) -> (r: Vec<String>)
        ensures
            r@.len() == self.columns().len(),
            forall|j: int| 0 <= j < r@.len() ==> #[trigger] r@[j]@ == self.columns()[j],
    {
        let cnt = engine::stmt_column_count(&self.stmt);
        let mut out: Vec<String> = Vec::new();
        let mut i: usize = 0;
        while i < cnt
            invariant
                i <= cnt,
                cnt == self.columns().len(),
                out@.len() == i,
                forall|j: int| 0 <= j < i ==> #[trigger] out@[j]@ == self.columns()[j],
            decreases cnt - i,
        {
            out.push(engine::stmt_column_name(&self.stmt, i));
            i = i + 1;
        }
        out
    }

    /// The dynamic type tag the engine assigned to the cell at column `i`
    /// of the current row; meaningful after a step yielded a row. An index
    /// at or past the column count is a misuse.
    pub fn get_column_type(&self, i: usize) -> (r: SqliteResult<ColumnType>)
        ensures
            i >= self.columns().len() ==> r == SqliteResult::<ColumnType>::Err(
                ResultError::SQLITE_MISUSE,
            ),
    {
        if i < engine::stmt_column_count(&self.stmt) {
            match engine::stmt_column_type(&self.stmt, i) {
                Ok(t) => Ok(t),
                Err(e) => Err(engine_error_of(e.0)),
            }
        } else {
            Err(ResultError::SQLITE_MISUSE)
        }
    }

    /// The cell at column `i` of the current row, coerced by the engine to
    /// a 64-bit integer and truncated to the machine word (lossless on
    /// 64-bit targets).
    pub fn get_int(&self, i: usize) -> (r: SqliteResult<isize>)
        ensures
            r is Ok <==> i < self.columns().len(),
            r is Err ==> r->Err_0 == ResultError::SQLITE_MISUSE,
    {
        match self.get_i64(i) {
            Ok(v) => Ok(v as isize),
            Err(e) => Err(e),
        }
    }

    /// The cell at column `i` of the current row, coerced by the engine to
    /// a 64-bit integer.
    pub fn get_i64(&self, i: usize) -> (r: SqliteResult<i64>)
        ensures
            r is Ok <==> i < self.columns().len(),
            r is Err ==> r->Err_0 == ResultError::SQLITE_MISUSE,
    {
        if i < engine::stmt_column_count(&self.stmt) {
            match engine::stmt_read_i64(&self.stmt, i) {
                Ok(v) => Ok(v),
                Err(e) => Err(engine_error_of(e.0)),
            }
        } else {
            Err(ResultError::SQLITE_MISUSE)
        }
    }

    /// The IEEE-754 bit pattern of the cell at column `i` of the current
    /// row. Unlike the integer readers, this does not coerce: a cell whose
    /// dynamic type is not the float type reports a type mismatch, so a
    /// float read back is bit-for-bit the float that was bound.
    pub fn get_f64(&self, i: usize) -> (r: SqliteResult<u64>)
        ensures
            i >= self.columns().len() ==> r == SqliteResult::<u64>::Err(
                ResultError::SQLITE_MISUSE,
            ),
    {
        if i < engine::stmt_column_count(&self.stmt) {
            match engine::stmt_read_f64_bits(&self.stmt, i) {
                Ok(Some(bits)) => Ok(bits),
                Ok(None) => Err(ResultError::SQLITE_MISMATCH),
                Err(e) => Err(engine_error_of(e.0)),
            }
        } else {
            Err(ResultError::SQLITE_MISUSE)
        }
    }

    /// The cell at column `i` of the current row, coerced by the engine to
    /// text. A null cell — and a failed text materialization, which the
    /// engine reports only when out of memory — collapses to the empty
    /// string, an ambiguity this reader keeps for compatibility;
    /// `get_text_opt` distinguishes a null cell and surfaces read failures.
    pub fn get_text(&self, i: usize) -> (r: SqliteResult<String>)
        ensures
            r is Ok <==> i < self.columns().len(),
            r is Err ==> r->Err_0 == ResultError::SQLITE_MISUSE,
    {
        if i < engine::stmt_column_count(&self.stmt) {
            match engine::stmt_read_text(&self.stmt, i) {
                Ok(Some(s)) => Ok(s),
                Ok(None) => Ok(String::new()),
                Err(_) => Ok(String::new()),
            }
        } else {
            Err(ResultError::SQLITE_MISUSE)
        }
    }

    /// The cell at column `i` of the current row as text, distinguishing a
    /// null cell (`None`) from an empty string.
    pub fn get_text_opt(&self, i: usize) -> (r: SqliteResult<Option<String>>)
        ensures
            i >= self.columns().len() ==> r == SqliteResult::<Option<String>>::Err(
                ResultError::SQLITE_MISUSE,
            ),
    {
        if i < engine::stmt_column_count(&self.stmt) {
            match engine::stmt_read_text(&self.stmt, i) {
                Ok(v) => Ok(v),
                Err(e) => Err(engine_error_of(e.0)),
            }
        } else {
            Err(ResultError::SQLITE_MISUSE)
        }
    }

    /// The cell at column `i` of the current row, coerced by the engine to
    /// a byte sequence; a null cell yields no bytes.
    pub fn get_blob(&self, i: usize) -> (r: SqliteResult<Vec<u8>>)
        ensures
            r is Ok <==> i < self.columns().len(),
            r is Err ==> r->Err_0 == ResultError::SQLITE_MISUSE,
    {
        if i < engine::stmt_column_count(&self.stmt) {
            match engine::stmt_read_blob(&self.stmt, i) {
                Ok(v) => Ok(v),
                Err(e) => Err(engine_error_of(e.0)),
            }
        } else {
            Err(ResultError::SQLITE_MISUSE)
        }
    }

    /// The size in bytes of the cell at column `i` of the current row,
    /// after the engine's coercion to bytes.
    pub fn get_bytes(&self, i: usize) -> (r: SqliteResult<usize>)
        ensures
            r is Ok <==> i < self.columns().len(),
            r is Err ==> r->Err_0 == ResultError::SQLITE_MISUSE,
    {
        match self.get_blob(i) {
            Ok(v) => Ok(v.len()),
            Err(e) => Err(e),
        }
    }

    /// Steps once and, when a row is available, materializes it as a full
    /// name-to-value mapping, dispatching on each column's dynamic type
    /// tag. Yields nothing when execution is done. Two result columns
    /// sharing a name would silently overwrite one another in a mapping, so
    /// that case surfaces as a misuse error instead.
    pub fn step_row(&mut self) -> (r: SqliteResult<Option<RowMap>>)
        requires
            old(self).wf(),
        ensures
            final(self).wf(),
            final(self).params() == old(self).params(),
            final(self).columns() == old(self).columns(),
            r matches Ok(Some(row)) ==> row.wf() && row.keys() == final(self).columns()
                && row.vals().len() == final(self).columns().len(),
    {
        match self.step() {
            Ok(ResultStep::SQLITE_ROW) => {
                let cnt = self.get_column_count();
                let mut row = RowMap::new();
                let mut i: usize = 0;
                while i < cnt
                    invariant
                        self.wf(),
                        self.params() == old(self).params(),
                        self.columns() == old(self).columns(),
                        cnt == self.columns().len(),
                        i <= cnt,
                        row.wf(),
                        row.keys() == self.columns().take(i as int),
                        row.vals().len() == i,
                    decreases cnt - i,
                {
                    let name = match self.get_column_name(i) {
                        Ok(n) => n,
                        Err(_) => vstd::pervasive::unreached(),
                    };
                    let coltype = match self.get_column_type(i) {
                        Ok(t) => t,
                        Err(e) => return Err(e),
                    };
                    let val = match coltype {
                        ColumnType::SQLITE_INTEGER => match self.get_int(i) {
                            Ok(v) => BindArg::Integer(v),
                            Err(_) => vstd::pervasive::unreached(),
                        },
                        ColumnType::SQLITE_FLOAT => match self.get_f64(i) {
                            Ok(bits) => BindArg::Float64(bits),
                            Err(e) => return Err(e),
                        },
                        ColumnType::SQLITE_TEXT => match self.get_text(i) {
                            Ok(s) => BindArg::Text(s),
                            Err(e) => return Err(e),
                        },
                        ColumnType::SQLITE_BLOB => match self.get_blob(i) {
                            Ok(b) => BindArg::Blob(b),
                            Err(_) => vstd::pervasive::unreached(),
                        },
                        ColumnType::SQLITE_NULL => BindArg::Null,
                    };
                    if row.contains_key(name.as_str()) {
                        return Err(ResultError::SQLITE_MISUSE);
                    }
                    let ghost k = name@;
                    row.insert(name, val);
                    proof {
                        assert(self.columns().take(i as int).push(k) =~= self.columns().take(
                            i as int + 1,
                        ));
                    }
                    i = i + 1;
                }
                proof {
                    assert(self.columns().take(cnt as int) =~= self.columns());
                }
                Ok(Some(row))
            },
            Ok(ResultStep::SQLITE_DONE) => Ok(None),
            Err(code) => Err(code),
        }
    }

    /// Resolves a named parameter (`:name` and the engine's other
    /// placeholder forms) to its 1-based positional index; zero means the
    /// name is not a parameter of this statement, mirroring the engine's
    /// convention, so callers must test for zero before binding through the
    /// result. A name holding an interior NUL cannot reach the engine and
    /// resolves to zero.
    pub fn get_bind_index(&self, name: &str) -> (r: usize)
        ensures
            r != 0 ==> self.param_index(name@) == Some(r as int),
            r == 0 && !name@.contains('\0') ==> self.param_index(name@) is None,
    {
        match engine::stmt_parameter_index(&self.stmt, name) {
            Ok(Some(i)) => i,
            Ok(None) => 0,
            Err(_) => 0,
        }
    }
}

} // verus!
