//! Finding where the first SQL statement of a text ends.
//!
//! The engine compiles only the first statement of a multi-statement text;
//! the safe engine interface does not hand back the parse tail, so the
//! library locates the boundary itself: the byte just past the first `;`
//! that stands outside string literals (`'…'`), quoted identifiers (`"…"`,
//! `` `…` ``, `[…]`), line comments (`-- …`) and block comments (`/* … */`),
//! or the end of the text when no such `;` exists. A doubled closing quote
//! (`''`) reads as close-then-reopen, which leaves statement boundaries
//! exactly where the engine's lexer puts them.
//!
//! The scan is lexical, not grammatical: a compound statement whose body
//! holds its own semicolons (a CREATE TRIGGER body's BEGIN…END block) ends,
//! to this scan, at the first of them — earlier than the engine's parser
//! stops. Scripts holding trigger definitions should be split by hand or
//! run whole through `exec`.

use vstd::prelude::*;

verus! {

use vstd::string::StringSliceAdditionalSpecFns;

/// The lexical context while scanning SQL bytes left to right.
#[derive(Clone, Copy, Debug, PartialEq, Eq, Structural)]
pub enum ScanState {
    /// Outside any literal or comment.
    Normal,
    /// A lone `-` seen in normal context.
    Dash,
    /// A lone `/` seen in normal context.
    Slash,
    /// Inside `'…'`.
    SingleQuote,
    /// Inside `"…"`.
    DoubleQuote,
    /// Inside `` `…` ``.
    Backtick,
    /// Inside `[…]`.
    Bracket,
    /// Inside `-- …`, until the end of the line.
    LineComment,
    /// Inside `/* … */`.
    BlockComment,
    /// A `*` seen inside a block comment.
    BlockStar,
}

/// The context after reading byte `b` in normal context.
pub open spec fn scan_normal(b: u8) -> ScanState {
    if b == 45 {
        ScanState::Dash
    } else if b == 47 {
        ScanState::Slash
    } else if b == 39 {
        ScanState::SingleQuote
    } else if b == 34 {
        ScanState::DoubleQuote
    } else if b == 96 {
        ScanState::Backtick
    } else if b == 91 {
        ScanState::Bracket
    } else {
        ScanState::Normal
    }
}

/// The context after reading one byte. A pending `-` or `/` that does not
/// open a comment falls back to reading the byte in normal context.
pub open spec fn scan_step(s: ScanState, b: u8) -> ScanState {
    match s {
        ScanState::Normal => scan_normal(b),
        ScanState::Dash => if b == 45 {
            ScanState::LineComment
        } else {
            scan_normal(b)
        },
        ScanState::Slash => if b == 42 {
            ScanState::BlockComment
        } else {
            scan_normal(b)
        },
        ScanState::SingleQuote => if b == 39 {
            ScanState::Normal
        } else {
            ScanState::SingleQuote
        },
        ScanState::DoubleQuote => if b == 34 {
            ScanState::Normal
        } else {
            ScanState::DoubleQuote
        },
        ScanState::Backtick => if b == 96 {
            ScanState::Normal
        } else {
            ScanState::Backtick
        },
        ScanState::Bracket => if b == 93 {
            ScanState::Normal
        } else {
            ScanState::Bracket
        },
        ScanState::LineComment => if b == 10 {
            ScanState::Normal
        } else {
            ScanState::LineComment
        },
        ScanState::BlockComment => if b == 42 {
            ScanState::BlockStar
        } else {
            ScanState::BlockComment
        },
        ScanState::BlockStar => if b == 47 {
            ScanState::Normal
        } else if b == 42 {
            ScanState::BlockStar
        } else {
            ScanState::BlockComment
        },
    }
}

/// Whether the byte ends the current statement: a `;` read in a context
/// that is not a literal or comment. A pending `-` or `/` was not a
/// comment opener, so a `;` right after it still counts.
pub open spec fn ends_statement(s: ScanState, b: u8) -> bool {
    b == 59 && (s is Normal || s is Dash || s is Slash)
}

/// The offset just past the end of the first statement, scanning from
/// position `i` in context `s`; the end of the text when no terminator
/// follows.
pub open spec fn scan_from(bytes: Seq<u8>, i: int, s: ScanState) -> int
    decreases bytes.len() - i,
{
    if i < 0 || i >= bytes.len() {
        bytes.len() as int
    } else if ends_statement(s, bytes[i]) {
        i + 1
    } else {
        scan_from(bytes, i + 1, scan_step(s, bytes[i]))
    }
}

/// The offset just past the end of the first statement of the text.
pub open spec fn first_stmt_end(bytes: Seq<u8>) -> int {
    scan_from(bytes, 0, ScanState::Normal)
}

/// The scan never points past the end of the text.
pub proof fn lemma_scan_from_le(bytes: Seq<u8>, i: int, s: ScanState)
    ensures
        scan_from(bytes, i, s) <= bytes.len(),
    decreases bytes.len() - i,
{
    if i < 0 || i >= bytes.len() {
    } else if ends_statement(s, bytes[i]) {
    } else {
        lemma_scan_from_le(bytes, i + 1, scan_step(s, bytes[i]));
    }
}

/// One step of the scanner, mirroring `scan_step` exactly.
fn scan_step_exec(s: ScanState, b: u8) -> (r: ScanState)
    ensures
        r == scan_step(s, b),
{
    match s {
        ScanState::Normal => scan_normal_exec(b),
        ScanState::Dash => if b == 45 {
            ScanState::LineComment
        } else {
            scan_normal_exec(b)
        },
        ScanState::Slash => if b == 42 {
            ScanState::BlockComment
        } else {
            scan_normal_exec(b)
        },
        ScanState::SingleQuote => if b == 39 {
            ScanState::Normal
        } else {
            ScanState::SingleQuote
        },
        ScanState::DoubleQuote => if b == 34 {
            ScanState::Normal
        } else {
            ScanState::DoubleQuote
        },
        ScanState::Backtick => if b == 96 {
            ScanState::Normal
        } else {
            ScanState::Backtick
        },
        ScanState::Bracket => if b == 93 {
            ScanState::Normal
        } else {
            ScanState::Bracket
        },
        ScanState::LineComment => if b == 10 {
            ScanState::Normal
        } else {
            ScanState::LineComment
        },
        ScanState::BlockComment => if b == 42 {
            ScanState::BlockStar
        } else {
            ScanState::BlockComment
        },
        ScanState::BlockStar => if b == 47 {
            ScanState::Normal
        } else if b == 42 {
            ScanState::BlockStar
        } else {
            ScanState::BlockComment
        },
    }
}

/// One step of the scanner in normal context, mirroring `scan_normal`.
fn scan_normal_exec(b: u8) -> (r: ScanState)
    ensures
        r == scan_normal(b),
{
    if b == 45 {
        ScanState::Dash
    } else if b == 47 {
        ScanState::Slash
    } else if b == 39 {
        ScanState::SingleQuote
    } else if b == 34 {
        ScanState::DoubleQuote
    } else if b == 96 {
        ScanState::Backtick
    } else if b == 91 {
        ScanState::Bracket
    } else {
        ScanState::Normal
    }
}

/// The byte offset just past the end of the first SQL statement of `sql`:
/// past its terminating `;`, or the whole length when none terminates it.
pub fn statement_boundary(sql: &str) -> (r: usize)
    ensures
        r == first_stmt_end(sql.spec_bytes()),
        r <= sql.spec_bytes().len(),
{
    let bytes = sql.as_bytes();
    let n = bytes.len();
    let mut i: usize = 0;
    let mut st = ScanState::Normal;
    proof {
        lemma_scan_from_le(bytes@, 0, ScanState::Normal);
    }
    while i < n
        invariant
            bytes@ == sql.spec_bytes(),
            n == bytes@.len(),
            i <= n,
            first_stmt_end(sql.spec_bytes()) == scan_from(bytes@, i as int, st),
            first_stmt_end(sql.spec_bytes()) <= n,
        decreases n - i,
    {
        let b = bytes[i];
        let at_end = b == 59 && match st {
            ScanState::Normal => true,
            ScanState::Dash => true,
            ScanState::Slash => true,
            _ => false,
        };
        if at_end {
            proof {
                assert(ends_statement(st, bytes@[i as int]));
                assert(scan_from(bytes@, i as int, st) == i + 1);
            }
            return i + 1;
        }
        let ghost st_before = st;
        st = scan_step_exec(st, b);
        proof {
            assert(!ends_statement(st_before, bytes@[i as int]));
            assert(scan_from(bytes@, i as int, st_before) == scan_from(
                bytes@,
                i as int + 1,
                scan_step(st_before, bytes@[i as int]),
            ));
        }
        i = i + 1;
    }
    n
}

} // verus!
