//! The generic value encoder: a visitor-style bridge that walks a
//! structured host value and emits a sequence of positional parameter
//! bindings against a cursor, so host data structures can be inserted
//! without per-type boilerplate.
//!
//! The encoder borrows the cursor and keeps a one-based running column
//! counter. Starting a record (`emit_tuple`) sets the counter to zero, and
//! the first emit after that resets the statement as a side effect:
//! encoding a new record into the same cursor implicitly resets it first.
//! Unsupported shapes (sequences, maps, enum variants with payload) fail
//! closed with an error kind distinct from any engine error.

use vstd::prelude::*;

use crate::cursor::Cursor;
use crate::engine;
use crate::types::BindArg;
use crate::types::BoundParam;
use crate::types::ResultError;
use crate::types::ResultStep;
use crate::types::SqliteResult;
use crate::types::bind_seq;
use crate::types::bound_of;

verus! {

/// Why an encoding run stopped: the engine rejected an operation, or the
/// value's shape is one this bridge does not support. The two are distinct,
/// so callers can tell a rejected value from an unsupported shape.
#[derive(Clone, Copy, Debug, PartialEq, Eq, Structural)]
pub enum EncodeError {
    /// The engine reported this status while resetting or binding.
    Engine(ResultError),
    /// The value's shape (a sequence, a map, an enum variant with payload)
    /// has no defined parameter encoding.
    Unsupported,
}

/// The result of one encoding operation.
pub type EncodeResult = Result<(), EncodeError>;

/// One encoding run against a borrowed cursor: the cursor and a one-based
/// running column counter. Counter zero means "at the start of a record":
/// the next scalar emitted resets the statement and binds at index 1.
pub struct BindEncoder<'a, 'db> {
    cursor: &'a mut Cursor<'db>,
    col: usize,
}

impl<'a, 'db> BindEncoder<'a, 'db> {
    /// The running column counter: how many parameters the current record
    /// has emitted so far.
    pub closed spec fn col(&self) -> int {
        self.col as int
    }

    /// The borrowed cursor's parameter bindings.
    pub closed spec fn params(&self) -> Map<int, BoundParam> {
        self.cursor.params()
    }

    /// The borrowed cursor's column names.
    pub closed spec fn columns(&self) -> Seq<Seq<char>> {
        self.cursor.columns()
    }

    /// The borrowed cursor is well formed.
    pub closed spec fn wf(&self) -> bool {
        self.cursor.wf()
    }

    /// A fresh encoder over the cursor, at the start of its first record.
    pub fn new(cursor: &'a mut Cursor<'db>) -> (r: BindEncoder<'a, 'db>)
        requires
            old(cursor).wf(),
        ensures
            r.wf(),
            r.col() == 0,
            r.params() == old(cursor).params(),
            r.columns() == old(cursor).columns(),
    {
        BindEncoder { cursor, col: 0 }
    }

    /// Steps the borrowed cursor; the counter is untouched, so a caller
    /// can run the statement between the records of one encoding session.
    pub fn step(&mut self) -> (r: Result<ResultStep, ResultError>)
        requires
            old(self).wf(),
        ensures
            final(self).wf(),
            final(self).col() == old(self).col(),
            final(self).params() == old(self).params(),
            final(self).columns() == old(self).columns(),
    {
        self.cursor.step()
    }

    /// Resets the borrowed cursor; the bindings and the counter survive.
    pub fn reset(&mut self) -> (r: SqliteResult<()>)
        requires
            old(self).wf(),
        ensures
            final(self).wf(),
            final(self).col() == old(self).col(),
            final(self).params() == old(self).params(),
            final(self).columns() == old(self).columns(),
    {
        self.cursor.reset()
    }

    /// Emits one already-folded value: resets the statement when at the
    /// start of a record, advances the counter, and binds at the new
    /// counter value.
    fn push(&mut self, arg: &BindArg) -> (r: EncodeResult)
        requires
            old(self).wf(),
            old(self).col() < usize::MAX,
        ensures
            final(self).wf(),
            final(self).columns() == old(self).columns(),
            r is Ok ==> final(self).col() == old(self).col() + 1 && final(self).params() == old(
                self,
            ).params().insert(old(self).col() + 1, bound_of(*arg)),
    {
        if self.col == 0 {
            match self.cursor.reset() {
                Ok(()) => {},
                Err(e) => {
                    return Err(EncodeError::Engine(e));
                },
            }
        }
        self.col = self.col + 1;
        match self.cursor.bind_param(self.col, arg) {
            Ok(()) => Ok(()),
            Err(e) => Err(EncodeError::Engine(e)),
        }
    }

    /// Emits a null parameter.
    pub fn emit_nil(&mut self) -> (r: EncodeResult)
        requires
            old(self).wf(),
            old(self).col() < usize::MAX,
        ensures
            final(self).wf(),
            final(self).columns() == old(self).columns(),
            r is Ok ==> final(self).col() == old(self).col() + 1 && final(self).params() == old(
                self,
            ).params().insert(old(self).col() + 1, BoundParam::Null),
    {
        self.push(&BindArg::Null)
    }

    /// Emits a boolean as the integer 0 or 1.
    pub fn emit_bool(&mut self, v: bool) -> (r: EncodeResult)
        requires
            old(self).wf(),
            old(self).col() < usize::MAX,
        ensures
            final(self).wf(),
            final(self).columns() == old(self).columns(),
            r is Ok ==> final(self).col() == old(self).col() + 1 && final(self).params() == old(
                self,
            ).params().insert(old(self).col() + 1, BoundParam::Int(if v { 1i64 } else { 0i64 })),
    {
        self.push(&BindArg::Integer(if v { 1 } else { 0 }))
    }

    /// Emits a machine-word integer.
    pub fn emit_int(&mut self, v: isize) -> (r: EncodeResult)
        requires
            old(self).wf(),
            old(self).col() < usize::MAX,
        ensures
            final(self).wf(),
            final(self).columns() == old(self).columns(),
            r is Ok ==> final(self).col() == old(self).col() + 1 && final(self).params() == old(
                self,
            ).params().insert(old(self).col() + 1, BoundParam::Int(v as i64)),
    {
        self.push(&BindArg::Integer(v))
    }

    /// Emits an unsigned machine-word integer, folded into the machine-word
    /// integer variant; a value above the signed maximum wraps, a
    /// documented narrowing of this bridge.
    pub fn emit_uint(&mut self, v: usize) -> (r: EncodeResult)
        requires
            old(self).wf(),
            old(self).col() < usize::MAX,
        ensures
            final(self).wf(),
            final(self).columns() == old(self).columns(),
            r is Ok ==> final(self).col() == old(self).col() + 1 && final(self).params() == old(
                self,
            ).params().insert(old(self).col() + 1, BoundParam::Int((v as isize) as i64)),
    {
        self.push(&BindArg::Integer(v as isize))
    }

    /// Emits an 8-bit signed integer, widened losslessly.
    pub fn emit_i8(&mut self, v: i8) -> (r: EncodeResult)
        requires
            old(self).wf(),
            old(self).col() < usize::MAX,
        ensures
            final(self).wf(),
            final(self).columns() == old(self).columns(),
            r is Ok ==> final(self).col() == old(self).col() + 1 && final(self).params() == old(
                self,
            ).params().insert(old(self).col() + 1, BoundParam::Int(v as i64)),
    {
        self.push(&BindArg::Integer(v as isize))
    }

    /// Emits an 8-bit unsigned integer, widened losslessly.
    pub fn emit_u8(&mut self, v: u8) -> (r: EncodeResult)
        requires
            old(self).wf(),
            old(self).col() < usize::MAX,
        ensures
            final(self).wf(),
            final(self).columns() == old(self).columns(),
            r is Ok ==> final(self).col() == old(self).col() + 1 && final(self).params() == old(
                self,
            ).params().insert(old(self).col() + 1, BoundParam::Int(v as i64)),
    {
        self.push(&BindArg::Integer(v as isize))
    }

    /// Emits a 16-bit signed integer, widened losslessly.
    pub fn emit_i16(&mut self, v: i16) -> (r: EncodeResult)
        requires
            old(self).wf(),
            old(self).col() < usize::MAX,
        ensures
            final(self).wf(),
            final(self).columns() == old(self).columns(),
            r is Ok ==> final(self).col() == old(self).col() + 1 && final(self).params() == old(
                self,
            ).params().insert(old(self).col() + 1, BoundParam::Int(v as i64)),
    {
        self.push(&BindArg::Integer(v as isize))
    }

    /// Emits a 16-bit unsigned integer, widened losslessly.
    pub fn emit_u16(&mut self, v: u16) -> (r: EncodeResult)
        requires
            old(self).wf(),
            old(self).col() < usize::MAX,
        ensures
            final(self).wf(),
            final(self).columns() == old(self).columns(),
            r is Ok ==> final(self).col() == old(self).col() + 1 && final(self).params() == old(
                self,
            ).params().insert(old(self).col() + 1, BoundParam::Int(v as i64)),
    {
        self.push(&BindArg::Integer(v as isize))
    }

    /// Emits a 32-bit signed integer, widened losslessly.
    pub fn emit_i32(&mut self, v: i32) -> (r: EncodeResult)
        requires
            old(self).wf(),
            old(self).col() < usize::MAX,
        ensures
            final(self).wf(),
            final(self).columns() == old(self).columns(),
            r is Ok ==> final(self).col() == old(self).col() + 1 && final(self).params() == old(
                self,
            ).params().insert(old(self).col() + 1, BoundParam::Int(v as i64)),
    {
        self.push(&BindArg::Integer(v as isize))
    }

    /// Emits a 32-bit unsigned integer, widened losslessly into the 64-bit
    /// integer variant.
    pub fn emit_u32(&mut self, v: u32) -> (r: EncodeResult)
        requires
            old(self).wf(),
            old(self).col() < usize::MAX,
        ensures
            final(self).wf(),
            final(self).columns() == old(self).columns(),
            r is Ok ==> final(self).col() == old(self).col() + 1 && final(self).params() == old(
                self,
            ).params().insert(old(self).col() + 1, BoundParam::Int(v as i64)),
    {
        self.push(&BindArg::Integer64(v as i64))
    }

    /// Emits a 64-bit signed integer.
    pub fn emit_i64(&mut self, v: i64) -> (r: EncodeResult)
        requires
            old(self).wf(),
            old(self).col() < usize::MAX,
        ensures
            final(self).wf(),
            final(self).columns() == old(self).columns(),
            r is Ok ==> final(self).col() == old(self).col() + 1 && final(self).params() == old(
                self,
            ).params().insert(old(self).col() + 1, BoundParam::Int(v)),
    {
        self.push(&BindArg::Integer64(v))
    }

    /// Emits a 64-bit unsigned integer, folded into the 64-bit signed
    /// variant; a value above the signed maximum wraps, a documented
    /// narrowing of this bridge.
    pub fn emit_u64(&mut self, v: u64) -> (r: EncodeResult)
        requires
            old(self).wf(),
            old(self).col() < usize::MAX,
        ensures
            final(self).wf(),
            final(self).columns() == old(self).columns(),
            r is Ok ==> final(self).col() == old(self).col() + 1 && final(self).params() == old(
                self,
            ).params().insert(old(self).col() + 1, BoundParam::Int(v as i64)),
    {
        self.push(&BindArg::Integer64(v as i64))
    }

    /// Emits a 64-bit float, given as its IEEE-754 bit pattern; a NaN
    /// pattern is stored by the engine as null.
    pub fn emit_f64(&mut self, bits: u64) -> (r: EncodeResult)
        requires
            old(self).wf(),
            old(self).col() < usize::MAX,
        ensures
            final(self).wf(),
            final(self).columns() == old(self).columns(),
            r is Ok ==> final(self).col() == old(self).col() + 1 && final(self).params() == old(
                self,
            ).params().insert(old(self).col() + 1, bound_of(BindArg::Float64(bits))),
    {
        self.push(&BindArg::Float64(bits))
    }

    /// Emits a single character as a one-character text parameter.
    pub fn emit_char(&mut self, v: char) -> (r: EncodeResult)
        requires
            old(self).wf(),
            old(self).col() < usize::MAX,
        ensures
            final(self).wf(),
            final(self).columns() == old(self).columns(),
            r is Ok ==> final(self).col() == old(self).col() + 1 && final(self).params() == old(
                self,
            ).params().insert(old(self).col() + 1, BoundParam::Text(seq![v])),
    {
        self.push(&BindArg::Text(engine::char_to_string(v)))
    }

    /// Emits a string as a text parameter.
    pub fn emit_str(&mut self, v: &str) -> (r: EncodeResult)
        requires
            old(self).wf(),
            old(self).col() < usize::MAX,
        ensures
            final(self).wf(),
            final(self).columns() == old(self).columns(),
            r is Ok ==> final(self).col() == old(self).col() + 1 && final(self).params() == old(
                self,
            ).params().insert(old(self).col() + 1, BoundParam::Text(v@)),
    {
        self.push(&BindArg::Text(v.to_owned()))
    }

    /// Emits an enum variant: one with no fields emits its tag name as a
    /// text parameter; one with fields has no defined encoding and fails
    /// closed, leaving the counter and the bindings untouched.
    pub fn emit_enum_variant(&mut self, v_name: &str, len: usize) -> (r: EncodeResult)
        requires
            old(self).wf(),
            old(self).col() < usize::MAX,
        ensures
            final(self).wf(),
            final(self).columns() == old(self).columns(),
            len == 0 && r is Ok ==> final(self).col() == old(self).col() + 1 && final(self).params() == old(self).params().insert(old(self).col() + 1, BoundParam::Text(v_name@)),
            len != 0 ==> r == EncodeResult::Err(EncodeError::Unsupported) && final(self).col()
                == old(self).col() && final(self).params() == old(self).params(),
    {
        if len == 0 {
            self.push(&BindArg::Text(v_name.to_owned()))
        } else {
            Err(EncodeError::Unsupported)
        }
    }

    /// Starts a record (a tuple or a struct): the column counter returns to
    /// zero, so the record's first scalar resets the statement and binds at
    /// index 1.
    pub fn emit_tuple(&mut self, _len: usize)
        requires
            old(self).wf(),
        ensures
            final(self).wf(),
            final(self).col() == 0,
            final(self).params() == old(self).params(),
            final(self).columns() == old(self).columns(),
    {
        self.col = 0;
    }

    /// An absent optional value emits a null parameter.
    pub fn emit_option_none(&mut self) -> (r: EncodeResult)
        requires
            old(self).wf(),
            old(self).col() < usize::MAX,
        ensures
            final(self).wf(),
            final(self).columns() == old(self).columns(),
            r is Ok ==> final(self).col() == old(self).col() + 1 && final(self).params() == old(
                self,
            ).params().insert(old(self).col() + 1, BoundParam::Null),
    {
        self.emit_nil()
    }

    /// A sequence has no defined parameter encoding; fails closed.
    pub fn emit_seq(&mut self, _len: usize) -> (r: EncodeResult)
        requires
            old(self).wf(),
        ensures
            final(self).wf(),
            r == EncodeResult::Err(EncodeError::Unsupported),
            final(self).col() == old(self).col(),
            final(self).params() == old(self).params(),
            final(self).columns() == old(self).columns(),
    {
        Err(EncodeError::Unsupported)
    }

    /// A map has no defined parameter encoding; fails closed.
    pub fn emit_map(&mut self, _len: usize) -> (r: EncodeResult)
        requires
            old(self).wf(),
        ensures
            final(self).wf(),
            r == EncodeResult::Err(EncodeError::Unsupported),
            final(self).col() == old(self).col(),
            final(self).params() == old(self).params(),
            final(self).columns() == old(self).columns(),
    {
        Err(EncodeError::Unsupported)
    }
}

/// A value that can report its shape to the encoder: it emits one
/// parameter per scalar element, in a fixed order. On success, the values
/// of `bind_values` stand bound at consecutive indices, starting right
/// after the encoder's counter — or at index 1 for a value that starts a
/// record.
pub trait SqlEncodable {
    /// The engine values this value emits, in order.
    spec fn bind_values(&self) -> Seq<BoundParam>;

    /// Whether encoding this value starts a fresh record, returning the
    /// encoder's column counter to zero first.
    spec fn starts_record(&self) -> bool;

    /// Whether this value's shape has a defined encoding; a record's
    /// fields, for one, must not themselves start records.
    spec fn encodable(&self) -> bool;

    /// Emits this value's parameters through the encoder.
    fn encode(&self, enc: &mut BindEncoder) -> (r: EncodeResult)
        requires
            old(enc).wf(),
            self.encodable(),
            (if self.starts_record() {
                0int
            } else {
                old(enc).col()
            }) + self.bind_values().len() <= usize::MAX,
        ensures
            final(enc).wf(),
            final(enc).columns() == old(enc).columns(),
            r is Ok ==> final(enc).col() == (if self.starts_record() {
                0int
            } else {
                old(enc).col()
            }) + self.bind_values().len() && final(enc).params() == bind_seq(
                old(enc).params(),
                (if self.starts_record() {
                    0int
                } else {
                    old(enc).col()
                }) + 1,
                self.bind_values(),
            ),
    ;
}

impl SqlEncodable for bool {
    open spec fn bind_values(&self) -> Seq<BoundParam> {
        seq![BoundParam::Int(if *self { 1i64 } else { 0i64 })]
    }

    open spec fn starts_record(&self) -> bool {
        false
    }

    open spec fn encodable(&self) -> bool {
        true
    }

    fn encode(&self, enc: &mut BindEncoder) -> (r: EncodeResult) {
        let r = enc.emit_bool(*self);
        proof {
            crate::types::lemma_bind_seq_singleton(
                old(enc).params(),
                old(enc).col() + 1,
                self.bind_values()[0],
            );
        }
        r
    }
}

impl SqlEncodable for isize {
    open spec fn bind_values(&self) -> Seq<BoundParam> {
        seq![BoundParam::Int(*self as i64)]
    }

    open spec fn starts_record(&self) -> bool {
        false
    }

    open spec fn encodable(&self) -> bool {
        true
    }

    fn encode(&self, enc: &mut BindEncoder) -> (r: EncodeResult) {
        let r = enc.emit_int(*self);
        proof {
            crate::types::lemma_bind_seq_singleton(
                old(enc).params(),
                old(enc).col() + 1,
                self.bind_values()[0],
            );
        }
        r
    }
}

impl SqlEncodable for i64 {
    open spec fn bind_values(&self) -> Seq<BoundParam> {
        seq![BoundParam::Int(*self)]
    }

    open spec fn starts_record(&self) -> bool {
        false
    }

    open spec fn encodable(&self) -> bool {
        true
    }

    fn encode(&self, enc: &mut BindEncoder) -> (r: EncodeResult) {
        let r = enc.emit_i64(*self);
        proof {
            crate::types::lemma_bind_seq_singleton(
                old(enc).params(),
                old(enc).col() + 1,
                self.bind_values()[0],
            );
        }
        r
    }
}

impl SqlEncodable for String {
    open spec fn bind_values(&self) -> Seq<BoundParam> {
        seq![BoundParam::Text(self@)]
    }

    open spec fn starts_record(&self) -> bool {
        false
    }

    open spec fn encodable(&self) -> bool {
        true
    }

    fn encode(&self, enc: &mut BindEncoder) -> (r: EncodeResult) {
        let r = enc.emit_str(self.as_str());
        proof {
            crate::types::lemma_bind_seq_singleton(
                old(enc).params(),
                old(enc).col() + 1,
                self.bind_values()[0],
            );
        }
        r
    }
}

impl SqlEncodable for &str {
    open spec fn bind_values(&self) -> Seq<BoundParam> {
        seq![BoundParam::Text((*self)@)]
    }

    open spec fn starts_record(&self) -> bool {
        false
    }

    open spec fn encodable(&self) -> bool {
        true
    }

    fn encode(&self, enc: &mut BindEncoder) -> (r: EncodeResult) {
        let r = enc.emit_str(self);
        proof {
            crate::types::lemma_bind_seq_singleton(
                old(enc).params(),
                old(enc).col() + 1,
                self.bind_values()[0],
            );
        }
        r
    }
}

impl<T: SqlEncodable> SqlEncodable for Option<T> {
    open spec fn bind_values(&self) -> Seq<BoundParam> {
        match self {
            Option::Some(x) => x.bind_values(),
            Option::None => seq![BoundParam::Null],
        }
    }

    open spec fn starts_record(&self) -> bool {
        false
    }

    open spec fn encodable(&self) -> bool {
        match self {
            Option::Some(x) => x.encodable() && !x.starts_record(),
            Option::None => true,
        }
    }

    fn encode(&self, enc: &mut BindEncoder) -> (r: EncodeResult) {
        match self {
            Option::Some(x) => x.encode(enc),
            Option::None => {
                let r = enc.emit_option_none();
                proof {
                    crate::types::lemma_bind_seq_singleton(
                        old(enc).params(),
                        old(enc).col() + 1,
                        BoundParam::Null,
                    );
                }
                r
            },
        }
    }
}

impl<A: SqlEncodable, B: SqlEncodable> SqlEncodable for (A, B) {
    open spec fn bind_values(&self) -> Seq<BoundParam> {
        self.0.bind_values() + self.1.bind_values()
    }

    open spec fn starts_record(&self) -> bool {
        true
    }

    open spec fn encodable(&self) -> bool {
        &&& self.0.encodable()
        &&& self.1.encodable()
        &&& !self.0.starts_record()
        &&& !self.1.starts_record()
    }

    fn encode(&self, enc: &mut BindEncoder) -> (r: EncodeResult) {
        enc.emit_tuple(2);
        match self.0.encode(enc) {
            Ok(()) => {},
            Err(e) => {
                return Err(e);
            },
        }
        match self.1.encode(enc) {
            Ok(()) => {},
            Err(e) => {
                return Err(e);
            },
        }
        proof {
            crate::types::lemma_bind_seq_concat(
                old(enc).params(),
                1,
                self.0.bind_values(),
                self.1.bind_values(),
            );
        }
        Ok(())
    }
}

impl<A: SqlEncodable, B: SqlEncodable, C: SqlEncodable> SqlEncodable for (A, B, C) {
    open spec fn bind_values(&self) -> Seq<BoundParam> {
        self.0.bind_values() + self.1.bind_values() + self.2.bind_values()
    }

    open spec fn starts_record(&self) -> bool {
        true
    }

    open spec fn encodable(&self) -> bool {
        &&& self.0.encodable()
        &&& self.1.encodable()
        &&& self.2.encodable()
        &&& !self.0.starts_record()
        &&& !self.1.starts_record()
        &&& !self.2.starts_record()
    }

    fn encode(&self, enc: &mut BindEncoder) -> (r: EncodeResult) {
        enc.emit_tuple(3);
        match self.0.encode(enc) {
            Ok(()) => {},
            Err(e) => {
                return Err(e);
            },
        }
        match self.1.encode(enc) {
            Ok(()) => {},
            Err(e) => {
                return Err(e);
            },
        }
        match self.2.encode(enc) {
            Ok(()) => {},
            Err(e) => {
                return Err(e);
            },
        }
        proof {
            crate::types::lemma_bind_seq_concat(
                old(enc).params(),
                1,
                self.0.bind_values(),
                self.1.bind_values(),
            );
            crate::types::lemma_bind_seq_concat(
                old(enc).params(),
                1,
                self.0.bind_values() + self.1.bind_values(),
                self.2.bind_values(),
            );
        }
        Ok(())
    }
}

/// Law: encoding a three-field record of an integer and two strings
/// through the generic value encoder stores exactly what the manual
/// ordered bind of the matching argument vector stores — same parameter
/// indices, same stored values, over any prior bindings.
pub proof fn lemma_encode_matches_bind_params(
    m: Map<int, BoundParam>,
    a: isize,
    b: String,
    c: String,
)
    ensures
        bind_seq(m, 1, (a, b, c).bind_values()) == bind_seq(
            m,
            1,
            seq![BindArg::Integer(a), BindArg::Text(b), BindArg::Text(c)].map(
                |_i: int, x: BindArg| bound_of(x),
            ),
        ),
{
    let vals = (a, b, c).bind_values();
    let args = seq![BindArg::Integer(a), BindArg::Text(b), BindArg::Text(c)];
    let mapped = args.map(|_i: int, x: BindArg| bound_of(x));
    assert(vals =~= mapped) by {
        assert(mapped[0] == bound_of(args[0]));
        assert(mapped[1] == bound_of(args[1]));
        assert(mapped[2] == bound_of(args[2]));
        assert(vals[0] == BoundParam::Int(a as i64));
        assert(vals[1] == BoundParam::Text(b@));
        assert(vals[2] == BoundParam::Text(c@));
    }
}

} // verus!
