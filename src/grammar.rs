//! The template grammar: leading white space, `@code;` preamble lines, one
//! `@(name: type, ...)` argument list, then body nodes up to the end of input.
//!
//! Each spec function below states one production over the template's
//! characters and positions; each scanner is proved to compute it. Where a
//! repetition continues from a position that a sub-parse returned, the
//! definition tests that the position moved forward within the input, which
//! keeps the recursion well founded.
//!
//! Positions are character indices; `template` reports an error's position
//! to callers as a byte offset into the UTF-8 text.
use vstd::prelude::*;
use crate::lexical::{
    at, chars_of, comment_end, find_comment_end, is_name_start, name_end, name_start, scan_name,
    skip_space, space_end,
};
use crate::template::{nodes_view, strings_view, Node, Template, TemplateExpression, TemplateModel};
use crate::text::push_char;
use crate::types::{perr, scan_type, type_end, ErrorKind, GrammarError, ParseError};
use vstd::utf8::encode_utf8;

verus! {

/// The first position at or after `j` that holds `;`, `(` or `)`.
pub open spec fn line_end(s: Seq<char>, j: int) -> int
    decreases s.len() - j,
{
    if 0 <= j < s.len() && s[j] != ';' && s[j] != '(' && s[j] != ')' {
        line_end(s, j + 1)
    } else {
        j
    }
}

/// A preamble line `@code;` at `i`: its code, and where the next item starts.
pub open spec fn preamble_line(s: Seq<char>, i: int) -> Option<(Seq<char>, int)> {
    if at(s, i, '@') {
        let e = line_end(s, i + 1);
        if e > i + 1 && at(s, e, ';') {
            Some((s.subrange(i + 1, e), space_end(s, e + 1)))
        } else {
            None
        }
    } else {
        None
    }
}

/// The preamble lines from `i`, after those in `acc`, and where they end.
pub open spec fn preamble_from(s: Seq<char>, i: int, acc: Seq<Seq<char>>) -> (Seq<Seq<char>>, int)
    decreases s.len() - i,
{
    match preamble_line(s, i) {
        Some((l, j)) => if i < j <= s.len() {
            preamble_from(s, j, acc.push(l))
        } else {
            (acc.push(l), j)
        },
        None => (acc, i),
    }
}

/// A formal argument `name: type` at `i`: where it ends, `None` where no
/// name and colon start it, and an error where its type is malformed.
pub open spec fn formal_end(s: Seq<char>, i: int) -> Result<Option<int>, GrammarError> {
    if 0 <= i < s.len() && is_name_start(s[i]) {
        let c = space_end(s, name_end(s, i + 1));
        if at(s, c, ':') {
            match type_end(s, space_end(s, c + 1)) {
                Ok(t) => Ok(Some(t)),
                Err(e) => Err(e),
            }
        } else {
            Ok(None)
        }
    } else {
        Ok(None)
    }
}

/// The further `, name: type` arguments from `p`, after those in `acc`, and
/// where the list ends.
pub open spec fn args_from(s: Seq<char>, p: int, acc: Seq<Seq<char>>) -> Result<(Seq<Seq<char>>, int), GrammarError>
    decreases s.len() - p,
{
    if at(s, p, ',') && at(s, p + 1, ' ') {
        match formal_end(s, p + 2) {
            Err(e) => Err(e),
            Ok(Some(t)) => if p + 2 <= t <= s.len() {
                args_from(s, t, acc.push(s.subrange(p + 2, t)))
            } else {
                Ok((acc, p))
            },
            Ok(None) => Ok((acc, p)),
        }
    } else {
        Ok((acc, p))
    }
}

/// The argument list `@( ... )` at `i`, and where the body starts.
pub open spec fn args_part(s: Seq<char>, i: int) -> Result<(Seq<Seq<char>>, int), GrammarError> {
    if at(s, i, '@') && at(s, i + 1, '(') {
        let list = match formal_end(s, i + 2) {
            Err(e) => Err(e),
            Ok(Some(t)) => if i + 2 <= t <= s.len() {
                args_from(s, t, seq![s.subrange(i + 2, t)])
            } else {
                Ok((Seq::empty(), i + 2))
            },
            Ok(None) => Ok((Seq::empty(), i + 2)),
        };
        match list {
            Err(e) => Err(e),
            Ok((a, p)) => if at(s, p, ')') {
                Ok((a, space_end(s, p + 1)))
            } else {
                Err(perr(ErrorKind::ExpectedParen, p))
            },
        }
    } else {
        Err(perr(ErrorKind::ExpectedArguments, i))
    }
}

/// The first position at or after `j` that holds `@`, or, inside a block,
/// the `}` that closes it.
pub open spec fn text_end(s: Seq<char>, j: int, nested: bool) -> int
    decreases s.len() - j,
{
    if 0 <= j < s.len() && s[j] != '@' && !(nested && s[j] == '}') {
        text_end(s, j + 1, nested)
    } else {
        j
    }
}

/// Whether ` else {` stands at `k`.
pub open spec fn else_at(s: Seq<char>, k: int) -> bool {
    at(s, k, ' ') && at(s, k + 1, 'e') && at(s, k + 2, 'l') && at(s, k + 3, 's') && at(s, k + 4, 'e')
        && at(s, k + 5, ' ') && at(s, k + 6, '{')
}

/// The end of a chain `name.name...` whose first character precedes `j`.
pub open spec fn chain_end(s: Seq<char>, j: int) -> int
    decreases s.len() - j,
{
    if 0 <= j < s.len() && crate::lexical::is_name_char(s[j]) {
        chain_end(s, j + 1)
    } else if at(s, j, '.') && j + 1 < s.len() && is_name_start(s[j + 1]) {
        chain_end(s, j + 2)
    } else {
        j
    }
}

/// The first position at or after `j` that holds `(` or `)`.
pub open spec fn call_args_end(s: Seq<char>, j: int) -> int
    decreases s.len() - j,
{
    if 0 <= j < s.len() && s[j] != '(' && s[j] != ')' {
        call_args_end(s, j + 1)
    } else {
        j
    }
}

/// The body node that starts at `i`, and where it ends; an error at `i`
/// where no well-formed node starts there. Inside a block (`nested`), text
/// stops at the closing `}`.
pub open spec fn node_at(s: Seq<char>, i: int, nested: bool) -> Result<(Node, int), GrammarError>
    decreases s.len() - i, 0nat,
{
    if !at(s, i, '@') {
        let e = text_end(s, i + 1, nested);
        Ok((Node::Text(s.subrange(i, e)), e))
    } else if at(s, i + 1, '@') {
        Ok((Node::Text(seq!['@']), i + 2))
    } else if at(s, i + 1, '*') {
        match comment_end(s, i + 2) {
            Some(e) => Ok((Node::Comment, e)),
            None => Err(perr(ErrorKind::BadExpression, i)),
        }
    } else if at(s, i + 1, ':') && i + 2 < s.len() && is_name_start(s[i + 2]) {
        let n = name_end(s, i + 3);
        let c = call_args_end(s, n + 1);
        if at(s, n, '(') && at(s, c, ')') {
            Ok((Node::Call(s.subrange(i + 2, n), s.subrange(n + 1, c)), c + 1))
        } else {
            Err(perr(ErrorKind::BadExpression, i))
        }
    } else if at(s, i + 1, 'i') && at(s, i + 2, 'f') && at(s, i + 3, ' ') {
        let e = chain_end(s, i + 5);
        if i + 4 < s.len() && is_name_start(s[i + 4]) && i < e && at(s, e, ' ') && at(s, e + 1, '{') {
            match block_from(s, e + 2, Seq::empty(), i) {
                Err(x) => Err(x),
                Ok((t, k)) => if i < k && else_at(s, k) {
                    match block_from(s, k + 7, Seq::empty(), i) {
                        Err(x) => Err(x),
                        Ok((o, m)) => Ok((Node::If(s.subrange(i + 4, e), t, o), m)),
                    }
                } else {
                    Ok((Node::If(s.subrange(i + 4, e), t, Seq::empty()), k))
                },
            }
        } else {
            Err(perr(ErrorKind::BadExpression, i))
        }
    } else if at(s, i + 1, 'f') && at(s, i + 2, 'o') && at(s, i + 3, 'r') && at(s, i + 4, ' ') {
        let n = name_end(s, i + 6);
        let e = chain_end(s, n + 5);
        if i + 5 < s.len() && is_name_start(s[i + 5]) && at(s, n, ' ') && at(s, n + 1, 'i') && at(
            s,
            n + 2,
            'n',
        ) && at(s, n + 3, ' ') && n + 4 < s.len() && is_name_start(s[n + 4]) && i < e && at(s, e, ' ')
            && at(s, e + 1, '{') {
            match block_from(s, e + 2, Seq::empty(), i) {
                Err(x) => Err(x),
                Ok((b, k)) => Ok((Node::For(s.subrange(i + 5, n), s.subrange(n + 4, e), b), k)),
            }
        } else {
            Err(perr(ErrorKind::BadExpression, i))
        }
    } else if i + 1 < s.len() && is_name_start(s[i + 1]) {
        let e = chain_end(s, i + 2);
        Ok((Node::Expression(s.subrange(i + 1, e)), e))
    } else {
        Err(perr(ErrorKind::BadExpression, i))
    }
}

/// The nodes of a block from `i` up to its closing `}`, after those in
/// `acc`, and the position after that `}`; a block that the input leaves
/// open is an error at `start`, where its node began.
pub open spec fn block_from(s: Seq<char>, i: int, acc: Seq<Node>, start: int) -> Result<(Seq<Node>, int), GrammarError>
    decreases s.len() - i, 1nat,
{
    if i < 0 || i >= s.len() {
        Err(perr(ErrorKind::BadExpression, start))
    } else if s[i] == '}' {
        Ok((acc, i + 1))
    } else {
        match node_at(s, i, true) {
            Err(e) => Err(e),
            Ok((n, j)) => if i < j <= s.len() {
                block_from(s, j, acc.push(n), start)
            } else {
                Ok((acc.push(n), j))
            },
        }
    }
}

/// The body nodes from `i` to the end of input, after those in `acc`; the
/// first malformed node ends the parse with its error.
pub open spec fn body_from(s: Seq<char>, i: int, acc: Seq<Node>) -> Result<Seq<Node>, GrammarError>
    decreases s.len() - i,
{
    if i < 0 || i >= s.len() {
        Ok(acc)
    } else {
        match node_at(s, i, false) {
            Err(e) => Err(e),
            Ok((n, j)) => if i < j <= s.len() {
                body_from(s, j, acc.push(n))
            } else {
                Ok(acc.push(n))
            },
        }
    }
}

/// The template that the characters `s` denote.
pub open spec fn parse_template(s: Seq<char>) -> Result<TemplateModel, GrammarError> {
    let (preamble, i) = preamble_from(s, space_end(s, 0), Seq::empty());
    match args_part(s, i) {
        Err(e) => Err(e),
        Ok((args, j)) => match body_from(s, j, Seq::empty()) {
            Err(e) => Err(e),
            Ok(body) => Ok(TemplateModel { preamble, args, body }),
        },
    }
}

/// The characters of `s` from `from` up to `to`, as a `String`.
pub(crate) fn collect(s: &Vec<char>, from: usize, to: usize) -> (r: String)
    requires
        from <= to <= s.len(),
    ensures
        r@ == s@.subrange(from as int, to as int),
{
    let mut r = String::new();
    let mut k = from;
    while k < to
        invariant
            from <= k <= to <= s.len(),
            r@ == s@.subrange(from as int, k as int),
        decreases to - k,
    {
        push_char(&mut r, s[k]);
        proof {
            assert(r@ == s@.subrange(from as int, k + 1));
        }
        k = k + 1;
    }
    r
}

/// Finds the first position at or after `j` that holds `;`, `(` or `)`.
fn scan_line(s: &Vec<char>, j: usize) -> (r: usize)
    requires
        j <= s.len(),
    ensures
        r as int == line_end(s@, j as int),
        j <= r <= s.len(),
{
    let mut p = j;
    while p < s.len() && s[p] != ';' && s[p] != '(' && s[p] != ')'
        invariant
            j <= p <= s.len(),
            line_end(s@, p as int) == line_end(s@, j as int),
        decreases s.len() - p,
    {
        p = p + 1;
    }
    p
}

fn scan_text(s: &Vec<char>, j: usize, nested: bool) -> (r: usize)
    requires
        j <= s.len(),
    ensures
        r as int == text_end(s@, j as int, nested),
        j <= r <= s.len(),
{
    let mut p = j;
    while p < s.len() && s[p] != '@' && !(nested && s[p] == '}')
        invariant
            j <= p <= s.len(),
            text_end(s@, p as int, nested) == text_end(s@, j as int, nested),
        decreases s.len() - p,
    {
        p = p + 1;
    }
    p
}

fn scan_call_args(s: &Vec<char>, j: usize) -> (r: usize)
    requires
        j <= s.len(),
    ensures
        r as int == call_args_end(s@, j as int),
        j <= r <= s.len(),
{
    let mut p = j;
    while p < s.len() && s[p] != '(' && s[p] != ')'
        invariant
            j <= p <= s.len(),
            call_args_end(s@, p as int) == call_args_end(s@, j as int),
        decreases s.len() - p,
    {
        p = p + 1;
    }
    p
}

fn scan_chain(s: &Vec<char>, j: usize) -> (r: usize)
    requires
        j <= s.len(),
    ensures
        r as int == chain_end(s@, j as int),
        j <= r <= s.len(),
{
    let mut p = j;
    loop
        invariant
            j <= p <= s.len(),
            chain_end(s@, p as int) == chain_end(s@, j as int),
        decreases s.len() - p,
    {
        if p < s.len() && crate::lexical::name_char(s[p]) {
            p = p + 1;
        } else if p < s.len() && s[p] == '.' && p + 1 < s.len() && name_start(s[p + 1]) {
            p = p + 2;
        } else {
            return p;
        }
    }
}

fn scan_preamble_line(s: &Vec<char>, i: usize) -> (r: Option<(String, usize)>)
    requires
        i <= s.len(),
    ensures
        match r {
            Some((l, j)) => preamble_line(s@, i as int) == Some((l@, j as int)) && j <= s.len(),
            None => preamble_line(s@, i as int) is None,
        },
{
    if i < s.len() && s[i] == '@' {
        let e = scan_line(s, i + 1);
        if e > i + 1 && e < s.len() && s[e] == ';' {
            let l = collect(s, i + 1, e);
            Some((l, skip_space(s, e + 1)))
        } else {
            None
        }
    } else {
        None
    }
}

/// Reads the preamble lines from `i`.
fn scan_preamble(s: &Vec<char>, i: usize) -> (r: (Vec<String>, usize))
    requires
        i <= s.len(),
    ensures
        preamble_from(s@, i as int, Seq::empty()) == (strings_view(r.0@), r.1 as int),
        r.1 <= s.len(),
{
    let mut acc: Vec<String> = Vec::new();
    let mut p = i;
    proof {
        assert(strings_view(acc@) == Seq::<Seq<char>>::empty());
    }
    loop
        invariant
            p <= s.len(),
            preamble_from(s@, p as int, strings_view(acc@)) == preamble_from(s@, i as int, Seq::empty()),
        decreases s.len() - p,
    {
        match scan_preamble_line(s, p) {
            Some((l, j)) => {
                let ghost old_acc = acc@;
                acc.push(l);
                proof {
                    assert(strings_view(acc@) == strings_view(old_acc).push(l@));
                }
                if p < j {
                    p = j;
                } else {
                    return (acc, j);
                }
            },
            None => {
                return (acc, p);
            },
        }
    }
}

fn scan_formal(s: &Vec<char>, i: usize) -> (r: Result<Option<usize>, GrammarError>)
    requires
        i <= s.len(),
    ensures
        match r {
            Ok(Some(t)) => formal_end(s@, i as int) == Ok::<Option<int>, GrammarError>(Some(t as int)) && t <= s.len(),
            Ok(None) => formal_end(s@, i as int) == Ok::<Option<int>, GrammarError>(None),
            Err(e) => formal_end(s@, i as int) == Err::<Option<int>, GrammarError>(e),
        },
{
    if i < s.len() && name_start(s[i]) {
        let c = skip_space(s, scan_name(s, i + 1));
        if c < s.len() && s[c] == ':' {
            match scan_type(s, skip_space(s, c + 1)) {
                Ok(t) => Ok(Some(t)),
                Err(e) => Err(e),
            }
        } else {
            Ok(None)
        }
    } else {
        Ok(None)
    }
}

pub open spec fn list_result(
    r: Result<(Vec<String>, usize), GrammarError>,
    v: Result<(Seq<Seq<char>>, int), GrammarError>,
    n: int,
) -> bool {
    match r {
        Ok((a, p)) => v == Ok::<(Seq<Seq<char>>, int), GrammarError>((strings_view(a@), p as int)) && p <= n,
        Err(e) => v == Err::<(Seq<Seq<char>>, int), GrammarError>(e),
    }
}

/// Reads the further `, name: type` arguments from `p`, after those in `acc`.
fn scan_args_from(s: &Vec<char>, start: usize, first: Vec<String>) -> (r: Result<(Vec<String>, usize), GrammarError>)
    requires
        start <= s.len(),
    ensures
        list_result(r, args_from(s@, start as int, strings_view(first@)), s.len() as int),
{
    let mut acc = first;
    let ghost a0 = strings_view(acc@);
    let mut p = start;
    let ghost p0 = p as int;
    loop
        invariant
            p <= s.len(),
            a0 == strings_view(first@),
            p0 == start,
            args_from(s@, p as int, strings_view(acc@)) == args_from(s@, p0, a0),
        decreases s.len() - p,
    {
        if p < s.len() && p + 1 < s.len() && s[p] == ',' && s[p + 1] == ' ' {
            match scan_formal(s, p + 2) {
                Err(e) => {
                    return Err(e);
                },
                Ok(Some(t)) => {
                    if p + 2 <= t {
                        let ghost old_acc = acc@;
                        let a = collect(s, p + 2, t);
                        acc.push(a);
                        proof {
                            assert(strings_view(acc@) == strings_view(old_acc).push(a@));
                        }
                        p = t;
                    } else {
                        return Ok((acc, p));
                    }
                },
                Ok(None) => {
                    return Ok((acc, p));
                },
            }
        } else {
            return Ok((acc, p));
        }
    }
}

/// Reads the argument list `@( ... )` at `i`.
fn scan_args(s: &Vec<char>, i: usize) -> (r: Result<(Vec<String>, usize), GrammarError>)
    requires
        i <= s.len(),
    ensures
        list_result(r, args_part(s@, i as int), s.len() as int),
{
    if i < s.len() && i + 1 < s.len() && s[i] == '@' && s[i + 1] == '(' {
        let list = match scan_formal(s, i + 2) {
            Err(e) => Err(e),
            Ok(Some(t)) => {
                if i + 2 <= t {
                    let mut first: Vec<String> = Vec::new();
                    first.push(collect(s, i + 2, t));
                    proof {
                        assert(strings_view(first@) == seq![s@.subrange(i + 2, t as int)]);
                    }
                    scan_args_from(s, t, first)
                } else {
                    Ok((Vec::new(), i + 2))
                }
            },
            Ok(None) => Ok((Vec::new(), i + 2)),
        };
        proof {
            assert(strings_view(Seq::<String>::empty()) == Seq::<Seq<char>>::empty());
        }
        match list {
            Err(e) => Err(e),
            Ok((a, p)) => {
                if p < s.len() && s[p] == ')' {
                    Ok((a, skip_space(s, p + 1)))
                } else {
                    Err(GrammarError { kind: ErrorKind::ExpectedParen, pos: p })
                }
            },
        }
    } else {
        Err(GrammarError { kind: ErrorKind::ExpectedArguments, pos: i })
    }
}

pub open spec fn node_result(
    r: Result<(TemplateExpression, usize), GrammarError>,
    v: Result<(Node, int), GrammarError>,
    n: int,
) -> bool {
    match r {
        Ok((e, j)) => v == Ok::<(Node, int), GrammarError>((e@, j as int)) && j <= n,
        Err(x) => v == Err::<(Node, int), GrammarError>(x),
    }
}

pub open spec fn block_result(
    r: Result<(Vec<TemplateExpression>, usize), GrammarError>,
    v: Result<(Seq<Node>, int), GrammarError>,
    n: int,
) -> bool {
    match r {
        Ok((b, k)) => v == Ok::<(Seq<Node>, int), GrammarError>((nodes_view(b@), k as int)) && k <= n,
        Err(x) => v == Err::<(Seq<Node>, int), GrammarError>(x),
    }
}

/// Reads the body node that starts at `i`.
fn scan_node(s: &Vec<char>, i: usize, nested: bool) -> (r: Result<(TemplateExpression, usize), GrammarError>)
    requires
        i < s.len(),
    ensures
        node_result(r, node_at(s@, i as int, nested), s.len() as int),
    decreases s.len() - i, 0nat,
{
    let bad = GrammarError { kind: ErrorKind::BadExpression, pos: i };
    if s[i] != '@' {
        let e = scan_text(s, i + 1, nested);
        Ok((TemplateExpression::Text { text: collect(s, i, e) }, e))
    } else if i + 1 < s.len() && s[i + 1] == '@' {
        let t = collect(s, i + 1, i + 2);
        proof {
            assert(t@ == seq!['@']);
        }
        Ok((TemplateExpression::Text { text: t }, i + 2))
    } else if i + 1 < s.len() && s[i + 1] == '*' {
        match find_comment_end(s, i + 2) {
            Some(e) => Ok((TemplateExpression::Comment, e)),
            None => Err(bad),
        }
    } else if i + 1 < s.len() && i + 2 < s.len() && s[i + 1] == ':' && name_start(s[i + 2]) {
        let n = scan_name(s, i + 3);
        if n < s.len() && s[n] == '(' {
            let c = scan_call_args(s, n + 1);
            if c < s.len() && s[c] == ')' {
                let name = collect(s, i + 2, n);
                let args = collect(s, n + 1, c);
                Ok((TemplateExpression::Call { name, args }, c + 1))
            } else {
                Err(bad)
            }
        } else {
            Err(bad)
        }
    } else if s.len() - i > 3 && s[i + 1] == 'i' && s[i + 2] == 'f' && s[i + 3] == ' ' {
        if i + 4 < s.len() && name_start(s[i + 4]) {
            let e = scan_chain(s, i + 5);
            if e < s.len() && s.len() - e > 1 && s[e] == ' ' && s[e + 1] == '{' {
                match scan_block(s, e + 2, i) {
                    Err(x) => Err(x),
                    Ok((then, k)) => {
                        let expr = collect(s, i + 4, e);
                        if i < k && k < s.len() && s.len() - k > 6 && s[k] == ' ' && s[k + 1] == 'e' && s[k + 2] == 'l'
                            && s[k + 3] == 's' && s[k + 4] == 'e' && s[k + 5] == ' ' && s[k + 6] == '{' {
                            match scan_block(s, k + 7, i) {
                                Err(x) => Err(x),
                                Ok((otherwise, m)) => Ok((TemplateExpression::IfBlock { expr, then, otherwise }, m)),
                            }
                        } else {
                            let otherwise: Vec<TemplateExpression> = Vec::new();
                            proof {
                                assert(nodes_view(otherwise@) == Seq::<Node>::empty());
                            }
                            Ok((TemplateExpression::IfBlock { expr, then, otherwise }, k))
                        }
                    },
                }
            } else {
                Err(bad)
            }
        } else {
            Err(bad)
        }
    } else if s.len() - i > 4 && s[i + 1] == 'f' && s[i + 2] == 'o' && s[i + 3] == 'r' && s[i + 4] == ' ' {
        if i + 5 < s.len() && name_start(s[i + 5]) {
            let n = scan_name(s, i + 6);
            if n < s.len() && s.len() - n > 4 && s[n] == ' ' && s[n + 1] == 'i' && s[n + 2] == 'n' && s[n + 3] == ' '
                && name_start(s[n + 4]) {
                let e = scan_chain(s, n + 5);
                if e < s.len() && s.len() - e > 1 && s[e] == ' ' && s[e + 1] == '{' {
                    match scan_block(s, e + 2, i) {
                        Err(x) => Err(x),
                        Ok((body, k)) => {
                            let name = collect(s, i + 5, n);
                            let expr = collect(s, n + 4, e);
                            Ok((TemplateExpression::ForLoop { name, expr, body }, k))
                        },
                    }
                } else {
                    Err(bad)
                }
            } else {
                Err(bad)
            }
        } else {
            Err(bad)
        }
    } else if i + 1 < s.len() && name_start(s[i + 1]) {
        let e = scan_chain(s, i + 2);
        Ok((TemplateExpression::Expression { expr: collect(s, i + 1, e) }, e))
    } else {
        Err(bad)
    }
}

/// Reads the nodes of a block from `i` up to its closing `}`.
fn scan_block(s: &Vec<char>, i: usize, start: usize) -> (r: Result<(Vec<TemplateExpression>, usize), GrammarError>)
    requires
        i <= s.len(),
    ensures
        block_result(r, block_from(s@, i as int, Seq::empty(), start as int), s.len() as int),
    decreases s.len() - i, 1nat,
{
    let mut acc: Vec<TemplateExpression> = Vec::new();
    let mut p = i;
    proof {
        assert(nodes_view(acc@) == Seq::<Node>::empty());
    }
    loop
        invariant
            i <= p <= s.len(),
            block_from(s@, p as int, nodes_view(acc@), start as int) == block_from(
                s@,
                i as int,
                Seq::empty(),
                start as int,
            ),
        decreases s.len() - p,
    {
        if p >= s.len() {
            return Err(GrammarError { kind: ErrorKind::BadExpression, pos: start });
        }
        if s[p] == '}' {
            return Ok((acc, p + 1));
        }
        match scan_node(s, p, true) {
            Err(e) => {
                return Err(e);
            },
            Ok((n, j)) => {
                let ghost old_acc = acc@;
                let ghost nv = n@;
                acc.push(n);
                proof {
                    assert(acc@.drop_last() == old_acc);
                    assert(nodes_view(acc@) == nodes_view(old_acc).push(nv));
                }
                if p < j {
                    p = j;
                } else {
                    return Ok((acc, j));
                }
            },
        }
    }
}

/// Reads body nodes from `i` to the end of input.
fn scan_body(s: &Vec<char>, i: usize) -> (r: Result<Vec<TemplateExpression>, GrammarError>)
    requires
        i <= s.len(),
    ensures
        match r {
            Ok(b) => body_from(s@, i as int, Seq::empty()) == Ok::<Seq<Node>, GrammarError>(nodes_view(b@)),
            Err(e) => body_from(s@, i as int, Seq::empty()) == Err::<Seq<Node>, GrammarError>(e),
        },
{
    let mut acc: Vec<TemplateExpression> = Vec::new();
    let mut p = i;
    proof {
        assert(nodes_view(acc@) == Seq::<Node>::empty());
    }
    loop
        invariant
            p <= s.len(),
            body_from(s@, p as int, nodes_view(acc@)) == body_from(s@, i as int, Seq::empty()),
        decreases s.len() - p,
    {
        if p >= s.len() {
            return Ok(acc);
        }
        match scan_node(s, p, false) {
            Err(e) => {
                return Err(e);
            },
            Ok((n, j)) => {
                let ghost old_acc = acc@;
                let ghost nv = n@;
                acc.push(n);
                proof {
                    assert(acc@.drop_last() == old_acc);
                    assert(nodes_view(acc@) == nodes_view(old_acc).push(nv));
                }
                if p < j {
                    p = j;
                } else {
                    return Ok(acc);
                }
            },
        }
    }
}

/// The byte offset in the UTF-8 encoding of `s` of character position `k`;
/// a position past the end stands for the end.
pub open spec fn byte_offset(s: Seq<char>, k: int) -> int {
    if k <= s.len() {
        encode_utf8(s.take(k)).len() as int
    } else {
        encode_utf8(s).len() as int
    }
}

/// What `template` returns for the characters `s`: the parsed template, or
/// the first grammar error with its byte offset.
pub open spec fn template_result(s: Seq<char>) -> Result<TemplateModel, ParseError> {
    match parse_template(s) {
        Ok(t) => Ok(t),
        Err(g) => Err(ParseError { kind: g.kind, offset: byte_offset(s, g.pos as int) as usize }),
    }
}

pub proof fn lemma_encode_concat(a: Seq<char>, b: Seq<char>)
    ensures
        encode_utf8(a + b) == encode_utf8(a) + encode_utf8(b),
    decreases a.len(),
{
    if a.len() > 0 {
        assert((a + b).drop_first() == a.drop_first() + b);
        lemma_encode_concat(a.drop_first(), b);
    }
}

/// The length of the UTF-8 encoding of `c`.
fn utf8_width(c: char) -> (r: usize)
    ensures
        r == encode_utf8(seq![c]).len(),
{
    broadcast use vstd::utf8::char_is_scalar;
    proof {
        assert(seq![c].drop_first() == Seq::<char>::empty());
        assert(seq![c][0] == c);
        assert(encode_utf8(Seq::<char>::empty()) == Seq::<u8>::empty());
        assert(vstd::utf8::encode_scalar(c as u32) + Seq::<u8>::empty() == vstd::utf8::encode_scalar(
            c as u32,
        ));
        assert(encode_utf8(seq![c]) == vstd::utf8::encode_scalar(c as u32));
        assert(vstd::utf8::is_scalar(c as u32));
    }
    let u = c as u32;
    if u < 0x80 {
        1
    } else if u < 0x800 {
        2
    } else if u < 0x10000 {
        3
    } else {
        4
    }
}

/// The byte offset in `input` of character position `k`.
fn byte_offset_of(input: &str, s: &Vec<char>, k: usize) -> (r: usize)
    requires
        s@ == input@,
    ensures
        r as int == byte_offset(s@, k as int),
{
    let bytes = input.as_bytes();
    let blen = bytes.len();
    let n = if k <= s.len() { k } else { s.len() };
    let mut acc: usize = 0;
    let mut i: usize = 0;
    proof {
        assert(s@.take(0) == Seq::<char>::empty());
        assert(s@.take(s@.len() as int) == s@);
    }
    while i < n
        invariant
            i <= n <= s.len(),
            s@ == input@,
            bytes@ == encode_utf8(s@),
            bytes@.len() == blen,
            acc as int == encode_utf8(s@.take(i as int)).len(),
        decreases n - i,
    {
        let w = utf8_width(s[i]);
        proof {
            assert(s@.take(i + 1) == s@.take(i as int) + seq![s@[i as int]]);
            lemma_encode_concat(s@.take(i as int), seq![s@[i as int]]);
            assert(s@ == s@.take(i + 1) + s@.skip(i + 1));
            lemma_encode_concat(s@.take(i + 1), s@.skip(i + 1));
            assert(encode_utf8(s@.take(i + 1)).len() <= blen);
        }
        acc = acc + w;
        i = i + 1;
    }
    acc
}

/// Parses template text into its preamble, formal arguments and body; the
/// first grammar error, with its kind and byte offset, otherwise.
pub fn template(input: &str) -> (r: Result<Template, ParseError>)
    ensures
        match r {
            Ok(t) => template_result(input@) == Ok::<TemplateModel, ParseError>(t@),
            Err(e) => template_result(input@) == Err::<TemplateModel, ParseError>(e),
        },
{
    let s = chars_of(input);
    let (preamble, i) = scan_preamble(&s, skip_space(&s, 0));
    let parsed = match scan_args(&s, i) {
        Err(e) => Err(e),
        Ok((args, j)) => match scan_body(&s, j) {
            Err(e) => Err(e),
            Ok(body) => Ok(Template { preamble, args, body }),
        },
    };
    match parsed {
        Ok(t) => Ok(t),
        Err(g) => Err(ParseError { kind: g.kind, offset: byte_offset_of(input, &s, g.pos) }),
    }
}

} // verus!
