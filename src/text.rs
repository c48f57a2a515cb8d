//! Character-level helpers for building generated source text.
use vstd::prelude::*;

verus! {

/// Relies on `String::push`: the character is appended at the end.
#[verifier::external_body]
pub(crate) fn push_char(s: &mut String, c: char)
    ensures
        final(s)@ == old(s)@.push(c),
{
    s.push(c)
}

/// How one character is written inside a Rust string literal.
pub open spec fn escape_char(c: char) -> Seq<char> {
    if c == '"' {
        seq!['\\', '"']
    } else if c == '\\' {
        seq!['\\', '\\']
    } else if c == '\n' {
        seq!['\\', 'n']
    } else if c == '\r' {
        seq!['\\', 'r']
    } else if c == '\t' {
        seq!['\\', 't']
    } else {
        seq![c]
    }
}

/// The body of a Rust string literal that denotes `t`.
pub open spec fn escape(t: Seq<char>) -> Seq<char>
    decreases t.len(),
{
    if t.len() == 0 {
        Seq::empty()
    } else {
        escape(t.drop_last()) + escape_char(t.last())
    }
}

/// Appends `t`, escaped for a Rust string literal, to `out`.
pub fn push_escaped(out: &mut String, t: &str)
    ensures
        final(out)@ == old(out)@ + escape(t@),
{
    broadcast use vstd::string::axiom_spec_iter;
    let ghost start = out@;
    for c in it: t.chars()
        invariant
            it.seq() == t@,
            out@ == start + escape(t@.take(it.index() as int)),
    {
        proof {
            let k = it.index() as int;
            assert(t@.take(k + 1).drop_last() == t@.take(k));
            assert(t@.take(k + 1).last() == c);
        }
        if c == '"' {
            proof { reveal_strlit("\\\""); }
            out.append("\\\"");
        } else if c == '\\' {
            proof { reveal_strlit("\\\\"); }
            out.append("\\\\");
        } else if c == '\n' {
            proof { reveal_strlit("\\n"); }
            out.append("\\n");
        } else if c == '\r' {
            proof { reveal_strlit("\\r"); }
            out.append("\\r");
        } else if c == '\t' {
            proof { reveal_strlit("\\t"); }
            out.append("\\t");
        } else {
            push_char(out, c);
        }
    }
    proof {
        assert(t@.take(t@.len() as int) == t@);
    }
}

} // verus!
