//! Typed row access: locating columns by position or by name, reading a
//! column into a host type, converting host values into bind parameters,
//! and running a statement against a full parameter vector.

use vstd::prelude::*;

use crate::cursor::Cursor;
use crate::types::BindArg;
use crate::types::ResultError;
use crate::types::ResultStep;
use crate::types::SqliteResult;
use crate::types::bound_of;

verus! {

/// The first index at which `columns` holds `name`, if any.
pub open spec fn first_col(columns: Seq<Seq<char>>, name: Seq<char>) -> Option<int>
    decreases columns.len(),
{
    if columns.len() == 0 {
        None
    } else if columns[0] == name {
        Some(0int)
    } else {
        match first_col(columns.drop_first(), name) {
            Some(j) => Some(j + 1),
            None => None,
        }
    }
}

/// A scan that stopped at a match found the first occurrence.
proof fn lemma_first_col_found(columns: Seq<Seq<char>>, name: Seq<char>, i: int)
    requires
        0 <= i < columns.len(),
        columns[i] == name,
        forall|j: int| 0 <= j < i ==> columns[j] != name,
    ensures
        first_col(columns, name) == Some(i),
    decreases i,
{
    if i == 0 {
    } else {
        assert(columns[0] != name);
        assert(columns.drop_first()[i - 1] == columns[i]);
        assert forall|j: int| 0 <= j < i - 1 implies columns.drop_first()[j] != name by {
            assert(columns.drop_first()[j] == columns[j + 1]);
        }
        lemma_first_col_found(columns.drop_first(), name, i - 1);
    }
}

/// A scan that matched nowhere finds nothing.
proof fn lemma_first_col_none(columns: Seq<Seq<char>>, name: Seq<char>)
    requires
        forall|j: int| 0 <= j < columns.len() ==> columns[j] != name,
    ensures
        first_col(columns, name) is None,
    decreases columns.len(),
{
    if columns.len() == 0 {
    } else {
        assert forall|j: int| 0 <= j < columns.len() - 1 implies columns.drop_first()[j]
            != name by {
            assert(columns.drop_first()[j] == columns[j + 1]);
        }
        lemma_first_col_none(columns.drop_first(), name);
    }
}

/// A way of locating a column of the current result set: an ordinal
/// position or a column name.
pub trait RowIndex {
    /// The 0-based position this locator resolves to against the given
    /// column names, if any.
    spec fn spec_idx(&self, columns: Seq<Seq<char>>) -> Option<int>;

    /// Resolves the locator against the cursor's result set.
    fn idx(&self, cursor: &Cursor) -> (r: Option<usize>)
        ensures
            match r {
                Some(i) => self.spec_idx(cursor.columns()) == Some(i as int),
                None => self.spec_idx(cursor.columns()) is None,
            },
    ;
}

impl RowIndex for usize {
    /// An ordinal position resolves to itself, checked against the column
    /// count only when it is used.
    open spec fn spec_idx(&self, columns: Seq<Seq<char>>) -> Option<int> {
        Some(*self as int)
    }

    fn idx(&self, _cursor: &Cursor) -> (r: Option<usize>) {
        Some(*self)
    }
}

impl RowIndex for &str {
    /// A name resolves to the first column bearing it.
    open spec fn spec_idx(&self, columns: Seq<Seq<char>>) -> Option<int> {
        first_col(columns, (*self)@)
    }

    fn idx(&self, cursor: &Cursor) -> (r: Option<usize>) {
        let names = cursor.get_column_names();
        let needle: String = (*self).to_owned();
        let mut i: usize = 0;
        while i < names.len()
            invariant
                i <= names.len(),
                needle@ == (*self)@,
                names@.len() == cursor.columns().len(),
                forall|j: int| 0 <= j < names@.len() ==> #[trigger] names@[j]@
                    == cursor.columns()[j],
                forall|j: int| 0 <= j < i ==> cursor.columns()[j] != (*self)@,
            decreases names.len() - i,
        {
            if names[i] == needle {
                proof {
                    lemma_first_col_found(cursor.columns(), (*self)@, i as int);
                }
                return Some(i);
            }
            i = i + 1;
        }
        proof {
            lemma_first_col_none(cursor.columns(), (*self)@);
        }
        None
    }
}

/// A host type a column can be read into. Only integers and text are
/// defined in-core; both reads succeed for any cell whose index is in
/// range, through the engine's coercions.
pub trait FromSql: Sized {
    /// Reads the 0-based column `col` of the current row as this type.
    fn from_sql(cursor: &Cursor, col: usize) -> (r: SqliteResult<Self>)
        requires
            col < cursor.columns().len(),
        ensures
            r is Ok,
    ;
}

impl FromSql for isize {
    fn from_sql(cursor: &Cursor, col: usize) -> (r: SqliteResult<isize>) {
        cursor.get_int(col)
    }
}

impl FromSql for i64 {
    fn from_sql(cursor: &Cursor, col: usize) -> (r: SqliteResult<i64>) {
        cursor.get_i64(col)
    }
}

impl FromSql for String {
    fn from_sql(cursor: &Cursor, col: usize) -> (r: SqliteResult<String>) {
        cursor.get_text(col)
    }
}

/// A host value that converts into an engine parameter.
pub trait ToSql {
    /// The parameter this value converts to.
    spec fn as_bind(&self) -> BindArg;

    /// Converts the value.
    fn to_sql(&self) -> (r: BindArg)
        ensures
            r == self.as_bind(),
    ;
}

impl ToSql for isize {
    open spec fn as_bind(&self) -> BindArg {
        BindArg::Integer(*self)
    }

    fn to_sql(&self) -> (r: BindArg) {
        BindArg::Integer(*self)
    }
}

impl ToSql for i64 {
    open spec fn as_bind(&self) -> BindArg {
        BindArg::Integer64(*self)
    }

    fn to_sql(&self) -> (r: BindArg) {
        BindArg::Integer64(*self)
    }
}

impl ToSql for Option<isize> {
    open spec fn as_bind(&self) -> BindArg {
        match self {
            Option::Some(i) => BindArg::Integer(*i),
            Option::None => BindArg::Null,
        }
    }

    fn to_sql(&self) -> (r: BindArg) {
        match self {
            Option::Some(i) => BindArg::Integer(*i),
            Option::None => BindArg::Null,
        }
    }
}

impl ToSql for String {
    open spec fn as_bind(&self) -> BindArg {
        BindArg::Text(*self)
    }

    fn to_sql(&self) -> (r: BindArg) {
        BindArg::Text(self.clone())
    }
}

/// A row-stepping borrow of a cursor whose parameters are already bound:
/// each advance yields a row, the end of the results, or an error.
pub struct Rows<'c, 'db> {
    cursor: &'c mut Cursor<'db>,
}

impl<'c, 'db> Rows<'c, 'db> {
    /// The borrowed cursor is well formed.
    pub closed spec fn wf(&self) -> bool {
        self.cursor.wf()
    }

    /// The borrowed cursor's parameter bindings.
    pub closed spec fn params(&self) -> Map<int, crate::types::BoundParam> {
        self.cursor.params()
    }

    /// Steps the underlying cursor: a row is available (`Some(Ok(()))`),
    /// execution is done (`None`), or the engine reports an error.
    pub fn next(&mut self) -> (r: Option<SqliteResult<()>>)
        requires
            old(self).wf(),
        ensures
            final(self).wf(),
    {
        match self.cursor.step() {
            Ok(ResultStep::SQLITE_DONE) => None,
            Ok(ResultStep::SQLITE_ROW) => Some(Ok(())),
            Err(e) => Some(Err(e)),
        }
    }
}

impl<'db> Cursor<'db> {
    /// Resets the statement, binds the full parameter vector at indices 1
    /// onward, and hands back a row-stepping borrow of this cursor.
    pub fn query<'c>(&'c mut self, params: &[BindArg]) -> (r: SqliteResult<Rows<'c, 'db>>)
        requires
            old(self).wf(),
        ensures
            r matches Ok(rows) ==> rows.wf() && rows.params() == crate::types::bind_seq(
                old(self).params(),
                1,
                params@.map(|_j: int, a: BindArg| bound_of(a)),
            ),
    {
        match self.reset() {
            Ok(()) => {},
            Err(e) => {
                return Err(e);
            },
        }
        match self.bind_params(params) {
            Ok(()) => {},
            Err(e) => {
                return Err(e);
            },
        }
        Ok(Rows { cursor: self })
    }

    /// Resets the statement, binds the full parameter vector, and steps
    /// once, discarding an available row. The count of affected rows is
    /// not available at this level, so success reports zero; callers ask
    /// the connection's change count instead.
    pub fn execute(&mut self, params: &[BindArg]) -> (r: SqliteResult<usize>)
        requires
            old(self).wf(),
        ensures
            final(self).wf(),
            final(self).columns() == old(self).columns(),
            r is Ok ==> r->Ok_0 == 0 && final(self).params() == crate::types::bind_seq(
                old(self).params(),
                1,
                params@.map(|_j: int, a: BindArg| bound_of(a)),
            ),
    {
        match self.reset() {
            Ok(()) => {},
            Err(e) => {
                return Err(e);
            },
        }
        match self.bind_params(params) {
            Ok(()) => {},
            Err(e) => {
                return Err(e);
            },
        }
        match self.step() {
            Ok(_) => Ok(0),
            Err(e) => Err(e),
        }
    }

    /// Reads the column located by `idx` from the current row into `T`. A
    /// locator that resolves to nothing, or to a position at or past the
    /// column count, is a misuse.
    pub fn get_opt<I: RowIndex, T: FromSql>(&self, idx: I) -> (r: SqliteResult<T>)
        ensures
            idx.spec_idx(self.columns()) is None ==> r == SqliteResult::<T>::Err(
                ResultError::SQLITE_MISUSE,
            ),
            idx.spec_idx(self.columns()) matches Some(i) && !(0 <= i < self.columns().len())
                ==> r == SqliteResult::<T>::Err(ResultError::SQLITE_MISUSE),
            idx.spec_idx(self.columns()) matches Some(i) && 0 <= i < self.columns().len() ==> r
                is Ok,
    {
        match idx.idx(self) {
            Some(i) => {
                if i < self.get_column_count() {
                    T::from_sql(self, i)
                } else {
                    Err(ResultError::SQLITE_MISUSE)
                }
            },
            None => Err(ResultError::SQLITE_MISUSE),
        }
    }

    /// The convenience form of `get_opt` for call sites that know the
    /// locator resolves: the precondition demands it, and the body then
    /// cannot see an error.
    pub fn get<I: RowIndex, T: FromSql>(&self, idx: I) -> (r: T)
        requires
            idx.spec_idx(self.columns()) matches Some(i) && 0 <= i < self.columns().len(),
    {
        match self.get_opt::<I, T>(idx) {
            Ok(v) => v,
            Err(_) => vstd::pervasive::unreached(),
        }
    }
}

} // verus!
