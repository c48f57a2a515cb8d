//! Recognizer for the type written in a formal argument: an optional `&`,
//! then a name, `[type]` or `(type, ...)`, then an optional `<type, ...>`.
//! It builds nothing; it finds where the type ends.
//!
//! Where a recursive step continues from a position that a sub-parse
//! returned, the definitions test that it lies past the previous one and
//! within the input before recursing, which keeps them well founded.
use vstd::prelude::*;
use crate::lexical::{at, is_name_start, name_end, name_start, scan_name};

verus! {

/// What the grammar found missing or malformed.
#[derive(Clone, Copy, Debug, PartialEq, Eq, Structural)]
pub enum ErrorKind {
    /// No type expression where one must stand.
    ExpectedType,
    /// No `@(` argument list where one must stand.
    ExpectedArguments,
    /// The argument list is not closed by `)`.
    ExpectedParen,
    /// A body construct that is not well formed.
    BadExpression,
}

/// A grammar error at character position `pos` of the template.
#[derive(Clone, Copy, Debug, PartialEq, Eq, Structural)]
pub struct GrammarError {
    pub kind: ErrorKind,
    pub pos: usize,
}

/// A grammar error as reported to callers: at byte `offset` of the
/// template's UTF-8 text.
#[derive(Clone, Copy, Debug, PartialEq, Eq, Structural)]
pub struct ParseError {
    pub kind: ErrorKind,
    pub offset: usize,
}

pub open spec fn perr(kind: ErrorKind, i: int) -> GrammarError {
    GrammarError { kind, pos: i as usize }
}

/// The end of the type expression that starts at `i`.
pub open spec fn type_end(s: Seq<char>, i: int) -> Result<int, GrammarError>
    decreases s.len() - i, 0nat,
{
    let j = if at(s, i, '&') { i + 1 } else { i };
    let core = if 0 <= j < s.len() && is_name_start(s[j]) {
        Ok(name_end(s, j + 1))
    } else if at(s, j, '[') {
        match type_end(s, j + 1) {
            Ok(t) => if at(s, t, ']') { Ok(t + 1) } else { Err(perr(ErrorKind::ExpectedType, j)) },
            Err(e) => Err(e),
        }
    } else if at(s, j, '(') {
        match types_end(s, j + 1) {
            Ok(t) => if at(s, t, ')') { Ok(t + 1) } else { Err(perr(ErrorKind::ExpectedType, j)) },
            Err(e) => Err(e),
        }
    } else {
        Err(perr(ErrorKind::ExpectedType, j))
    };
    match core {
        Err(e) => Err(e),
        Ok(k) => if at(s, k, '<') && i <= k {
            match types_end(s, k + 1) {
                Ok(t) => if at(s, t, '>') { Ok(t + 1) } else { Ok(k) },
                Err(e) => Err(e),
            }
        } else {
            Ok(k)
        },
    }
}

/// Whether a type expression starts at `i`.
pub open spec fn starts_type(s: Seq<char>, i: int) -> bool {
    at(s, i, '&') || (0 <= i < s.len() && is_name_start(s[i])) || at(s, i, '[') || at(s, i, '(')
}

/// The end of a list of types separated by `, `, from `i`; the list may be
/// empty.
pub open spec fn types_end(s: Seq<char>, i: int) -> Result<int, GrammarError>
    decreases s.len() - i, 2nat,
{
    if !starts_type(s, i) {
        Ok(i)
    } else {
        match type_end(s, i) {
            Err(e) => Err(e),
            Ok(t) => if i <= t <= s.len() { types_rest(s, t) } else { Ok(t) },
        }
    }
}

/// The end of the further `, type` items of a list, from `p`.
pub open spec fn types_rest(s: Seq<char>, p: int) -> Result<int, GrammarError>
    decreases s.len() - p, 1nat,
{
    if at(s, p, ',') && at(s, p + 1, ' ') {
        match type_end(s, p + 2) {
            Err(e) => Err(e),
            Ok(t) => if p + 2 <= t <= s.len() { types_rest(s, t) } else { Ok(t) },
        }
    } else {
        Ok(p)
    }
}

pub open spec fn pos_result(r: Result<usize, GrammarError>, v: Result<int, GrammarError>, n: int) -> bool {
    match r {
        Ok(t) => v == Ok::<int, GrammarError>(t as int) && t <= n,
        Err(e) => v == Err::<int, GrammarError>(e),
    }
}

/// Finds the end of the type expression that starts at `i`.
pub fn scan_type(s: &Vec<char>, i: usize) -> (r: Result<usize, GrammarError>)
    requires
        i <= s.len(),
    ensures
        pos_result(r, type_end(s@, i as int), s.len() as int),
    decreases s.len() - i, 0nat,
{
    let j = if i < s.len() && s[i] == '&' { i + 1 } else { i };
    let core: Result<usize, GrammarError> = if j < s.len() && name_start(s[j]) {
        Ok(scan_name(s, j + 1))
    } else if j < s.len() && s[j] == '[' {
        match scan_type(s, j + 1) {
            Ok(t) => if t < s.len() && s[t] == ']' {
                Ok(t + 1)
            } else {
                Err(GrammarError { kind: ErrorKind::ExpectedType, pos: j })
            },
            Err(e) => Err(e),
        }
    } else if j < s.len() && s[j] == '(' {
        match scan_types(s, j + 1) {
            Ok(t) => if t < s.len() && s[t] == ')' {
                Ok(t + 1)
            } else {
                Err(GrammarError { kind: ErrorKind::ExpectedType, pos: j })
            },
            Err(e) => Err(e),
        }
    } else {
        Err(GrammarError { kind: ErrorKind::ExpectedType, pos: j })
    };
    match core {
        Err(e) => Err(e),
        Ok(k) => if k < s.len() && s[k] == '<' && i <= k {
            match scan_types(s, k + 1) {
                Ok(t) => if t < s.len() && s[t] == '>' { Ok(t + 1) } else { Ok(k) },
                Err(e) => Err(e),
            }
        } else {
            Ok(k)
        },
    }
}

/// Finds the end of a possibly empty list of types separated by `, `.
pub fn scan_types(s: &Vec<char>, i: usize) -> (r: Result<usize, GrammarError>)
    requires
        i <= s.len(),
    ensures
        pos_result(r, types_end(s@, i as int), s.len() as int),
    decreases s.len() - i, 2nat,
{
    if !(i < s.len() && (s[i] == '&' || name_start(s[i]) || s[i] == '[' || s[i] == '(')) {
        return Ok(i);
    }
    match scan_type(s, i) {
        Err(e) => Err(e),
        Ok(t) => if i <= t { scan_types_rest(s, t) } else { Ok(t) },
    }
}

fn scan_types_rest(s: &Vec<char>, p: usize) -> (r: Result<usize, GrammarError>)
    requires
        p <= s.len(),
    ensures
        pos_result(r, types_rest(s@, p as int), s.len() as int),
    decreases s.len() - p, 1nat,
{
    if p < s.len() && p + 1 < s.len() && s[p] == ',' && s[p + 1] == ' ' {
        match scan_type(s, p + 2) {
            Err(e) => Err(e),
            Ok(t) => if p + 2 <= t { scan_types_rest(s, t) } else { Ok(t) },
        }
    } else {
        Ok(p)
    }
}

} // verus!
