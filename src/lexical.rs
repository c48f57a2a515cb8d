//! Lexical helpers shared by the template grammar: white space and comments,
//! and names. Positions are indices into the template's characters.
use vstd::prelude::*;

verus! {

pub open spec fn is_space(c: char) -> bool {
    c == ' ' || c == '\t' || c == '\n' || c == '\r'
}

pub open spec fn is_name_start(c: char) -> bool {
    ('a' <= c && c <= 'z') || ('A' <= c && c <= 'Z') || c == '_'
}

pub open spec fn is_name_char(c: char) -> bool {
    is_name_start(c) || ('0' <= c && c <= '9')
}

/// Whether position `i` of `s` holds `c`.
pub open spec fn at(s: Seq<char>, i: int, c: char) -> bool {
    0 <= i < s.len() && s[i] == c
}

/// The position just after the first `*@` at or after `j`, if any.
pub open spec fn comment_end(s: Seq<char>, j: int) -> Option<int>
    decreases s.len() - j,
{
    if j < 0 || j + 1 >= s.len() {
        None
    } else if s[j] == '*' && s[j + 1] == '@' {
        Some(j + 2)
    } else {
        comment_end(s, j + 1)
    }
}

/// The first position at or after `i` that is neither white space nor part
/// of a comment `@* ... *@`.
pub open spec fn space_end(s: Seq<char>, i: int) -> int
    decreases s.len() - i,
{
    if i < 0 || i >= s.len() {
        i
    } else if is_space(s[i]) {
        space_end(s, i + 1)
    } else if s[i] == '@' && at(s, i + 1, '*') {
        match comment_end(s, i + 2) {
            Some(e) => if i < e <= s.len() {
                space_end(s, e)
            } else {
                i
            },
            None => i,
        }
    } else {
        i
    }
}

/// The first position at or after `i` that does not hold a name character.
pub open spec fn name_end(s: Seq<char>, i: int) -> int
    decreases s.len() - i,
{
    if 0 <= i < s.len() && is_name_char(s[i]) {
        name_end(s, i + 1)
    } else {
        i
    }
}

pub fn space_char(c: char) -> (r: bool)
    ensures
        r == is_space(c),
{
    c == ' ' || c == '\t' || c == '\n' || c == '\r'
}

pub fn name_start(c: char) -> (r: bool)
    ensures
        r == is_name_start(c),
{
    ('a' <= c && c <= 'z') || ('A' <= c && c <= 'Z') || c == '_'
}

pub fn name_char(c: char) -> (r: bool)
    ensures
        r == is_name_char(c),
{
    name_start(c) || ('0' <= c && c <= '9')
}

/// The characters of `t`, in order.
pub fn chars_of(t: &str) -> (r: Vec<char>)
    ensures
        r@ == t@,
{
    broadcast use vstd::string::axiom_spec_iter;
    let mut r: Vec<char> = Vec::new();
    for c in it: t.chars()
        invariant
            it.seq() == t@,
            r@ == t@.take(it.index() as int),
    {
        r.push(c);
        proof {
            assert(r@ == t@.take(it.index() + 1));
        }
    }
    proof {
        assert(t@.take(t@.len() as int) == t@);
    }
    r
}

pub fn find_comment_end(s: &Vec<char>, j: usize) -> (r: Option<usize>)
    requires
        j <= s.len(),
    ensures
        match r {
            Some(e) => comment_end(s@, j as int) == Some(e as int) && e <= s.len(),
            None => comment_end(s@, j as int) is None,
        },
{
    let mut p = j;
    loop
        invariant
            j <= p <= s.len(),
            comment_end(s@, p as int) == comment_end(s@, j as int),
        decreases s.len() - p,
    {
        if p >= s.len() || p + 1 >= s.len() {
            return None;
        }
        if s[p] == '*' && s[p + 1] == '@' {
            return Some(p + 2);
        }
        p = p + 1;
    }
}

/// Skips white space and comments from `i`.
pub fn skip_space(s: &Vec<char>, i: usize) -> (r: usize)
    requires
        i <= s.len(),
    ensures
        r as int == space_end(s@, i as int),
        i <= r <= s.len(),
{
    let mut p = i;
    loop
        invariant
            i <= p <= s.len(),
            space_end(s@, p as int) == space_end(s@, i as int),
        decreases s.len() - p,
    {
        if p >= s.len() {
            return p;
        }
        if space_char(s[p]) {
            p = p + 1;
        } else if s[p] == '@' && p + 1 < s.len() && s[p + 1] == '*' {
            match find_comment_end(s, p + 2) {
                Some(e) => {
                    if p < e && e <= s.len() {
                        p = e;
                    } else {
                        return p;
                    }
                },
                None => {
                    return p;
                },
            }
        } else {
            return p;
        }
    }
}

/// Skips name characters from `i`.
pub fn scan_name(s: &Vec<char>, i: usize) -> (r: usize)
    requires
        i <= s.len(),
    ensures
        r as int == name_end(s@, i as int),
        i <= r <= s.len(),
{
    let mut p = i;
    while p < s.len() && name_char(s[p])
        invariant
            i <= p <= s.len(),
            name_end(s@, p as int) == name_end(s@, i as int),
        decreases s.len() - p,
    {
        p = p + 1;
    }
    p
}

} // verus!
