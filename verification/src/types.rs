//! The shared result/type vocabulary: engine status codes, the dynamic
//! column-type tag set, and the tagged union used both for bound parameters
//! and for retrieved column values.

#![allow(non_camel_case_types)]

use vstd::prelude::*;

verus! {

/// The engine's success status code.
#[derive(Clone, Copy, Debug, PartialEq, Eq, Structural)]
pub enum ResultOk {
    SQLITE_OK,
}

/// The engine's error status codes, a contiguous family numbered 1 to 26.
#[derive(Clone, Copy, Debug, PartialEq, Eq, Structural)]
pub enum ResultError {
    SQLITE_ERROR,
    SQLITE_INTERNAL,
    SQLITE_PERM,
    SQLITE_ABORT,
    SQLITE_BUSY,
    SQLITE_LOCKED,
    SQLITE_NOMEM,
    SQLITE_READONLY,
    SQLITE_INTERRUPT,
    SQLITE_IOERR,
    SQLITE_CORRUPT,
    SQLITE_NOTFOUND,
    SQLITE_FULL,
    SQLITE_CANTOPEN,
    SQLITE_PROTOCOL,
    SQLITE_EMPTY,
    SQLITE_SCHEMA,
    SQLITE_TOOBIG,
    SQLITE_CONSTRAINT,
    SQLITE_MISMATCH,
    SQLITE_MISUSE,
    SQLITE_NOLFS,
    SQLITE_AUTH,
    SQLITE_FORMAT,
    SQLITE_RANGE,
    SQLITE_NOTADB,
}

/// The engine's logging status codes.
#[derive(Clone, Copy, Debug, PartialEq, Eq, Structural)]
pub enum ResultLog {
    SQLITE_NOTICE,
    SQLITE_WARNING,
}

/// The step-status family: a result row is available, or execution finished.
#[derive(Clone, Copy, Debug, PartialEq, Eq, Structural)]
pub enum ResultStep {
    SQLITE_ROW,
    SQLITE_DONE,
}

/// The dynamic column-type tag the engine assigns to each cell of a result
/// row, independent of any declared schema type.
#[derive(Clone, Copy, Debug, PartialEq, Eq, Structural)]
pub enum ColumnType {
    SQLITE_INTEGER,
    SQLITE_FLOAT,
    SQLITE_TEXT,
    SQLITE_BLOB,
    SQLITE_NULL,
}

/// The numeric status code of an error, as the engine reports it.
pub open spec fn spec_error_code(e: ResultError) -> int {
    match e {
        ResultError::SQLITE_ERROR => 1,
        ResultError::SQLITE_INTERNAL => 2,
        ResultError::SQLITE_PERM => 3,
        ResultError::SQLITE_ABORT => 4,
        ResultError::SQLITE_BUSY => 5,
        ResultError::SQLITE_LOCKED => 6,
        ResultError::SQLITE_NOMEM => 7,
        ResultError::SQLITE_READONLY => 8,
        ResultError::SQLITE_INTERRUPT => 9,
        ResultError::SQLITE_IOERR => 10,
        ResultError::SQLITE_CORRUPT => 11,
        ResultError::SQLITE_NOTFOUND => 12,
        ResultError::SQLITE_FULL => 13,
        ResultError::SQLITE_CANTOPEN => 14,
        ResultError::SQLITE_PROTOCOL => 15,
        ResultError::SQLITE_EMPTY => 16,
        ResultError::SQLITE_SCHEMA => 17,
        ResultError::SQLITE_TOOBIG => 18,
        ResultError::SQLITE_CONSTRAINT => 19,
        ResultError::SQLITE_MISMATCH => 20,
        ResultError::SQLITE_MISUSE => 21,
        ResultError::SQLITE_NOLFS => 22,
        ResultError::SQLITE_AUTH => 23,
        ResultError::SQLITE_FORMAT => 24,
        ResultError::SQLITE_RANGE => 25,
        ResultError::SQLITE_NOTADB => 26,
    }
}

/// The numeric code of the success status.
pub open spec fn spec_ok_code(s: ResultOk) -> int {
    match s {
        ResultOk::SQLITE_OK => 0,
    }
}

/// The numeric status code of a logging status.
pub open spec fn spec_log_code(s: ResultLog) -> int {
    match s {
        ResultLog::SQLITE_NOTICE => 27,
        ResultLog::SQLITE_WARNING => 28,
    }
}

/// The numeric status code of a step status.
pub open spec fn spec_step_code(s: ResultStep) -> int {
    match s {
        ResultStep::SQLITE_ROW => 100,
        ResultStep::SQLITE_DONE => 101,
    }
}

/// Law: the status-code families occupy disjoint numeric ranges — success
/// is zero, the errors run from 1 through 26, the logging codes are 27 and
/// 28, and the step statuses are 100 and 101 — so a returned integer
/// decodes into at most one family.
pub proof fn lemma_status_families_disjoint(
    ok: ResultOk,
    e: ResultError,
    l: ResultLog,
    s: ResultStep,
)
    ensures
        spec_ok_code(ok) == 0,
        1 <= spec_error_code(e) <= 26,
        27 <= spec_log_code(l) <= 28,
        100 <= spec_step_code(s) <= 101,
        spec_ok_code(ok) != spec_error_code(e),
        spec_ok_code(ok) != spec_log_code(l),
        spec_ok_code(ok) != spec_step_code(s),
        spec_error_code(e) != spec_log_code(l),
        spec_error_code(e) != spec_step_code(s),
        spec_log_code(l) != spec_step_code(s),
{
}

/// Decodes a numeric status code into an error, the exact inverse of
/// `spec_error_code` on the range 1 to 26.
pub fn decode_error(code: i64) -> (r: Option<ResultError>)
    ensures
        r is Some <==> 1 <= code <= 26,
        r is Some ==> spec_error_code(r->0) == code,
{
    match code {
        1 => Some(ResultError::SQLITE_ERROR),
        2 => Some(ResultError::SQLITE_INTERNAL),
        3 => Some(ResultError::SQLITE_PERM),
        4 => Some(ResultError::SQLITE_ABORT),
        5 => Some(ResultError::SQLITE_BUSY),
        6 => Some(ResultError::SQLITE_LOCKED),
        7 => Some(ResultError::SQLITE_NOMEM),
        8 => Some(ResultError::SQLITE_READONLY),
        9 => Some(ResultError::SQLITE_INTERRUPT),
        10 => Some(ResultError::SQLITE_IOERR),
        11 => Some(ResultError::SQLITE_CORRUPT),
        12 => Some(ResultError::SQLITE_NOTFOUND),
        13 => Some(ResultError::SQLITE_FULL),
        14 => Some(ResultError::SQLITE_CANTOPEN),
        15 => Some(ResultError::SQLITE_PROTOCOL),
        16 => Some(ResultError::SQLITE_EMPTY),
        17 => Some(ResultError::SQLITE_SCHEMA),
        18 => Some(ResultError::SQLITE_TOOBIG),
        19 => Some(ResultError::SQLITE_CONSTRAINT),
        20 => Some(ResultError::SQLITE_MISMATCH),
        21 => Some(ResultError::SQLITE_MISUSE),
        22 => Some(ResultError::SQLITE_NOLFS),
        23 => Some(ResultError::SQLITE_AUTH),
        24 => Some(ResultError::SQLITE_FORMAT),
        25 => Some(ResultError::SQLITE_RANGE),
        26 => Some(ResultError::SQLITE_NOTADB),
        _ => None,
    }
}

/// The result type of every fallible engine operation.
pub type SqliteResult<T> = Result<T, ResultError>;

/// Decodes the return code of an engine call that yields no data: code 0 is
/// success, codes 1 to 26 decode to the matching error.
///
/// Codes outside the success and error families (logging and step-status
/// codes) are not meaningful returns for such calls and are excluded.
pub fn check(r: i32) -> (res: SqliteResult<()>)
    requires
        r == 0 || 1 <= r <= 26,
    ensures
        res is Ok <==> r == 0,
        res is Err ==> spec_error_code(res->Err_0) == r,
{
    if r == 0 {
        Ok(())
    } else {
        match decode_error(r as i64) {
            Some(e) => Err(e),
            None => Err(ResultError::SQLITE_ERROR),
        }
    }
}

/// A tagged value, used both for binding parameters and for retrieved cells.
///
/// `Float64` carries the IEEE-754 bit pattern of the 64-bit float it stands
/// for, so that the variant can flow through verified code, which holds no
/// floating-point values; `f64::to_bits`/`f64::from_bits` convert losslessly
/// at the boundary. Binding a NaN pattern stores null, as the engine
/// defines it.
///
/// `StaticText` names the engine's zero-copy binding path for static
/// buffers. Through this crate it binds exactly like `Text` — the engine
/// copies the bytes — so the variant is always safe to use; it is kept so
/// that callers written against the zero-copy path keep working.
#[derive(Clone, Debug, PartialEq)]
pub enum BindArg {
    Text(String),
    StaticText(&'static str),
    Float64(u64),
    Integer(isize),
    Integer64(i64),
    Blob(Vec<u8>),
    Null,
}

/// Folds an engine error as reported across the trusted boundary into the
/// error-code family: a code between 1 and 26 decodes exactly; a missing or
/// out-of-family code falls back to the generic error.
pub fn engine_error_of(code: Option<i64>) -> (r: ResultError)
    ensures
        match code {
            Some(c) => if 1 <= c <= 26 {
                spec_error_code(r) == c
            } else {
                r == ResultError::SQLITE_ERROR
            },
            None => r == ResultError::SQLITE_ERROR,
        },
{
    match code {
        Some(c) => match decode_error(c) {
            Some(e) => e,
            None => ResultError::SQLITE_ERROR,
        },
        None => ResultError::SQLITE_ERROR,
    }
}

/// The mathematical model of one bound parameter, as the engine stores it:
/// a 64-bit integer, the bit pattern of a 64-bit float, a character
/// sequence, a byte sequence, or null.
pub enum BoundParam {
    Int(i64),
    Real(u64),
    Text(Seq<char>),
    Bytes(Seq<u8>),
    Null,
}

/// Whether a 64-bit pattern encodes an IEEE-754 NaN: exponent all ones and
/// a nonzero fraction. The engine stores a NaN float parameter as null.
pub open spec fn is_nan_bits(bits: u64) -> bool {
    (bits >> 52) & 0x7ff == 0x7ff && bits & 0x000f_ffff_ffff_ffff != 0
}

/// Whether a value is too large for the engine's bind interface, which
/// takes text and blob lengths as 32-bit signed byte counts. Text is
/// measured in UTF-8 bytes as the machine reports the length.
pub open spec fn exceeds_bind_length(a: BindArg) -> bool {
    match a {
        BindArg::Text(s) => vstd::utf8::encode_utf8(s@).len() as usize > 0x7fff_ffff,
        BindArg::StaticText(s) => vstd::utf8::encode_utf8(s@).len() as usize > 0x7fff_ffff,
        BindArg::Blob(b) => b@.len() > 0x7fff_ffff,
        _ => false,
    }
}

/// What binding a `BindArg` stores in the engine: both text variants store
/// their characters (the engine copies either way through this crate),
/// machine-word integers widen losslessly to 64 bits, blobs store their
/// bytes, and a NaN float is stored as null, as the engine defines it.
pub open spec fn bound_of(a: BindArg) -> BoundParam {
    match a {
        BindArg::Text(s) => BoundParam::Text(s@),
        BindArg::StaticText(s) => BoundParam::Text(s@),
        BindArg::Float64(bits) => if is_nan_bits(bits) {
            BoundParam::Null
        } else {
            BoundParam::Real(bits)
        },
        BindArg::Integer(v) => BoundParam::Int(v as i64),
        BindArg::Integer64(v) => BoundParam::Int(v),
        BindArg::Blob(b) => BoundParam::Bytes(b@),
        BindArg::Null => BoundParam::Null,
    }
}

/// Binding a sequence of values at consecutive 1-based indices, starting at
/// `start`: the model shared by ordered binding and the generic value
/// encoder.
pub open spec fn bind_seq(
    m: Map<int, BoundParam>,
    start: int,
    vals: Seq<BoundParam>,
) -> Map<int, BoundParam>
    decreases vals.len(),
{
    if vals.len() == 0 {
        m
    } else {
        bind_seq(m.insert(start, vals[0]), start + 1, vals.drop_first())
    }
}

/// Binding one more value after a sequence lands it at the next index.
pub proof fn lemma_bind_seq_push(
    m: Map<int, BoundParam>,
    start: int,
    vals: Seq<BoundParam>,
    v: BoundParam,
)
    ensures
        bind_seq(m, start, vals.push(v)) == bind_seq(m, start, vals).insert(
            start + vals.len(),
            v,
        ),
    decreases vals.len(),
{
    assert(vals.push(v).len() == vals.len() + 1);
    if vals.len() == 0 {
        assert(vals.push(v)[0] == v);
        assert(vals.push(v).drop_first() =~= Seq::<BoundParam>::empty());
        assert(bind_seq(m, start, vals.push(v)) == bind_seq(
            m.insert(start, v),
            start + 1,
            Seq::<BoundParam>::empty(),
        ));
        assert(bind_seq(m.insert(start, v), start + 1, Seq::<BoundParam>::empty()) == m.insert(
            start,
            v,
        ));
        assert(bind_seq(m, start, vals) == m);
    } else {
        assert(vals.push(v)[0] == vals[0]);
        assert(vals.push(v).drop_first() =~= vals.drop_first().push(v));
        assert(bind_seq(m, start, vals.push(v)) == bind_seq(
            m.insert(start, vals[0]),
            start + 1,
            vals.drop_first().push(v),
        ));
        lemma_bind_seq_push(m.insert(start, vals[0]), start + 1, vals.drop_first(), v);
        assert(bind_seq(m, start, vals) == bind_seq(
            m.insert(start, vals[0]),
            start + 1,
            vals.drop_first(),
        ));
    }
}

/// Law: binding loses nothing. Every variant's stored engine value
/// determines the value that was bound: text and blob variants store their
/// exact characters and bytes, non-NaN float bit patterns are kept bit for
/// bit, 64-bit integers are stored as they are, and the machine-word
/// integer widens so that the original word is recovered exactly — so
/// reading a binding back yields an equal value, up to the two documented
/// foldings: both integer variants land in the engine's single 64-bit
/// integer kind, and a NaN float lands in null.
pub proof fn lemma_binding_is_faithful(a: BindArg)
    ensures
        a matches BindArg::Integer(v) ==> bound_of(a) == BoundParam::Int(v as i64) && (v as i64)
            as isize == v,
        a matches BindArg::Integer64(v) ==> bound_of(a) == BoundParam::Int(v),
        a matches BindArg::Float64(bits) ==> bound_of(a) == (if is_nan_bits(bits) {
            BoundParam::Null
        } else {
            BoundParam::Real(bits)
        }),
        a matches BindArg::Text(s) ==> bound_of(a) == BoundParam::Text(s@),
        a matches BindArg::StaticText(s) ==> bound_of(a) == BoundParam::Text(s@),
        a matches BindArg::Blob(b) ==> bound_of(a) == BoundParam::Bytes(b@),
        a is Null ==> bound_of(a) == BoundParam::Null,
{
}

/// Law: the zero-copy text variant stores exactly what the owned-copy
/// variant with equal characters stores. Through this crate both paths
/// hand the engine a copy of the bytes, so neither bound value depends on
/// the host buffer's lifetime.
pub proof fn lemma_static_text_binds_like_owned(s: &'static str, t: String)
    requires
        t@ == s@,
    ensures
        bound_of(BindArg::StaticText(s)) == bound_of(BindArg::Text(t)),
{
}

/// Binding a single value is one insertion.
pub proof fn lemma_bind_seq_singleton(m: Map<int, BoundParam>, start: int, v: BoundParam)
    ensures
        bind_seq(m, start, seq![v]) == m.insert(start, v),
{
    assert(seq![v][0] == v);
    assert(seq![v].drop_first() =~= Seq::<BoundParam>::empty());
    assert(bind_seq(m.insert(start, v), start + 1, Seq::<BoundParam>::empty()) == m.insert(
        start,
        v,
    ));
}

/// Binding a concatenation binds the first part, then the second right
/// after it.
pub proof fn lemma_bind_seq_concat(
    m: Map<int, BoundParam>,
    start: int,
    v1: Seq<BoundParam>,
    v2: Seq<BoundParam>,
)
    ensures
        bind_seq(m, start, v1 + v2) == bind_seq(bind_seq(m, start, v1), start + v1.len(), v2),
    decreases v1.len(),
{
    if v1.len() == 0 {
        assert(v1 + v2 =~= v2);
        assert(bind_seq(m, start, v1) == m);
    } else {
        assert((v1 + v2)[0] == v1[0]);
        assert((v1 + v2).drop_first() =~= v1.drop_first() + v2);
        assert(bind_seq(m, start, v1 + v2) == bind_seq(
            m.insert(start, v1[0]),
            start + 1,
            v1.drop_first() + v2,
        ));
        lemma_bind_seq_concat(m.insert(start, v1[0]), start + 1, v1.drop_first(), v2);
        assert(bind_seq(m, start, v1) == bind_seq(
            m.insert(start, v1[0]),
            start + 1,
            v1.drop_first(),
        ));
    }
}

} // verus!
