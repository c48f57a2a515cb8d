//! Properties of the parser, the code generator and the module tree.
use vstd::prelude::*;
use crate::engine::{
    body_code, closing, content_type, declared_type, flatten, generic_params, header, lines, params, rust_code,
    signature, where_clause, EngineState,
};
use crate::grammar::{
    args_part, block_from, body_from, byte_offset, chain_end, else_at, lemma_encode_concat, node_at,
    parse_template, preamble_from, template_result,
};
use crate::lexical::{at, is_name_start, name_end, space_end};
use vstd::utf8::encode_utf8;
use crate::template::{Node, TemplateModel};
use crate::types::GrammarError;

verus! {

/// Each preamble line followed by a line break.
pub open spec fn line_pieces(p: Seq<Seq<char>>) -> Seq<Seq<char>> {
    p.map_values(|x: Seq<char>| x + "\n"@)
}

/// Each formal argument preceded by its separator.
pub open spec fn param_pieces(a: Seq<Seq<char>>) -> Seq<Seq<char>> {
    a.map_values(|x: Seq<char>| ", "@ + x)
}

/// Parsing is a function of the input, and so is generated code: equal
/// inputs parse to equal templates, and equal templates give identical code.
pub proof fn lemma_deterministic(a: Seq<char>, b: Seq<char>, name: Seq<char>, top: Seq<char>)
    requires
        a == b,
    ensures
        parse_template(a) == parse_template(b),
        parse_template(a) matches Ok(t) ==> parse_template(b) matches Ok(u) && rust_code(t, name, top)
            == rust_code(u, name, top),
{
}

pub proof fn lemma_lines_pieces(p: Seq<Seq<char>>)
    ensures
        lines(p) == flatten(line_pieces(p)),
    decreases p.len(),
{
    if p.len() > 0 {
        lemma_lines_pieces(p.drop_last());
        assert(line_pieces(p).drop_last() == line_pieces(p.drop_last()));
    }
}

pub proof fn lemma_params_pieces(a: Seq<Seq<char>>)
    ensures
        params(a) == flatten(param_pieces(a)),
    decreases a.len(),
{
    if a.len() > 0 {
        lemma_params_pieces(a.drop_last());
        assert(param_pieces(a).drop_last() == param_pieces(a.drop_last()));
    }
}

/// The generated code starts with the imports and then every preamble line,
/// verbatim and in order, each on a line of its own, before any other
/// statement.
pub proof fn lemma_preamble_preserved(t: TemplateModel, name: Seq<char>, top: Seq<char>)
    ensures
        line_pieces(t.preamble).len() == t.preamble.len(),
        forall|k: int| 0 <= k < t.preamble.len() ==> #[trigger] line_pieces(t.preamble)[k]
            == t.preamble[k] + "\n"@,
        rust_code(t, name, top) == header(top) + flatten(line_pieces(t.preamble)) + signature(
            t.args,
            name,
        ) + body_code(t.body) + "Ok(())\n}\n"@,
{
    lemma_lines_pieces(t.preamble);
}

/// The generated signature declares, after the output sink, one parameter
/// per formal argument, verbatim and in order, and nothing else.
pub proof fn lemma_argument_arity(t: TemplateModel, name: Seq<char>)
    ensures
        param_pieces(t.args).len() == t.args.len(),
        forall|k: int| 0 <= k < t.args.len() ==> #[trigger] param_pieces(t.args)[k] == ", "@
            + t.args[k],
        signature(t.args, name) == "\npub fn "@ + name + generic_params(t.args)
            + "(out: &mut Write"@ + flatten(param_pieces(t.args)) + ")\n-> io::Result<()> "@
            + where_clause(t.args) + "{\n"@,
{
    lemma_params_pieces(t.args);
}

/// The generated function has one generic parameter, bound to a content
/// block, exactly when some formal argument is declared with the
/// content-block type.
pub proof fn lemma_generic_trigger(args: Seq<Seq<char>>)
    ensures
        (exists|i: int| 0 <= i < args.len() && #[trigger] declared_type(args[i]) == content_type()) ==> generic_params(args) == "<Content>"@ && where_clause(args)
            == "\nwhere Content: FnOnce(&mut Write) -> io::Result<()>"@,
        !(exists|i: int| 0 <= i < args.len() && #[trigger] declared_type(args[i]) == content_type()) ==> generic_params(args) == Seq::<char>::empty()
            && where_clause(args) == Seq::<char>::empty(),
{
}

/// An error from the node at `i` is reported at or after `i`.
pub proof fn lemma_node_error_offset(s: Seq<char>, i: int, nested: bool)
    requires
        s.len() <= usize::MAX,
        0 <= i < s.len(),
    ensures
        node_at(s, i, nested) is Err ==> i <= node_at(s, i, nested)->Err_0.pos,
    decreases s.len() - i, 0nat,
{
    if at(s, i, '@') && !at(s, i + 1, '@') && !at(s, i + 1, '*') && !(at(s, i + 1, ':') && i + 2
        < s.len() && is_name_start(s[i + 2])) {
        if at(s, i + 1, 'i') && at(s, i + 2, 'f') && at(s, i + 3, ' ') {
            let e = chain_end(s, i + 5);
            if i + 4 < s.len() && is_name_start(s[i + 4]) && i < e && at(s, e, ' ') && at(
                s,
                e + 1,
                '{',
            ) {
                lemma_block_error_offset(s, e + 2, Seq::empty(), i);
                if let Ok((t, k)) = block_from(s, e + 2, Seq::empty(), i) {
                    if i < k && else_at(s, k) {
                        lemma_block_error_offset(s, k + 7, Seq::empty(), i);
                    }
                }
            }
        } else if at(s, i + 1, 'f') && at(s, i + 2, 'o') && at(s, i + 3, 'r') && at(s, i + 4, ' ') {
            let n = name_end(s, i + 6);
            let e = chain_end(s, n + 5);
            if i < e && at(s, e, ' ') && at(s, e + 1, '{') {
                lemma_block_error_offset(s, e + 2, Seq::empty(), i);
            }
        }
    }
}

/// An error from a block whose node began at `start` is reported at or
/// after `start`.
pub proof fn lemma_block_error_offset(s: Seq<char>, i: int, acc: Seq<Node>, start: int)
    requires
        s.len() <= usize::MAX,
        0 <= start <= i <= s.len(),
    ensures
        block_from(s, i, acc, start) is Err ==> start <= block_from(s, i, acc, start)->Err_0.pos,
    decreases s.len() - i, 1nat,
{
    if i < s.len() && s[i] != '}' {
        lemma_node_error_offset(s, i, true);
        if let Ok((n, j)) = node_at(s, i, true) {
            if i < j <= s.len() {
                lemma_block_error_offset(s, j, acc.push(n), start);
            }
        }
    }
}

/// A well-formed body node followed by a malformed one ends the parse with
/// the error of the malformed node, reported at or after its start.
pub proof fn lemma_fatal_at_first_error(s: Seq<char>, i: int, acc: Seq<Node>)
    requires
        s.len() <= usize::MAX,
        0 <= i < s.len(),
        node_at(s, i, false) is Ok,
        i < node_at(s, i, false)->Ok_0.1 < s.len(),
        node_at(s, node_at(s, i, false)->Ok_0.1, false) is Err,
    ensures
        body_from(s, i, acc) == Err::<Seq<Node>, GrammarError>(
            node_at(s, node_at(s, i, false)->Ok_0.1, false)->Err_0,
        ),
        node_at(s, i, false)->Ok_0.1 <= body_from(s, i, acc)->Err_0.pos,
{
    let j = node_at(s, i, false)->Ok_0.1;
    assert(body_from(s, i, acc) == body_from(s, j, acc.push(node_at(s, i, false)->Ok_0.0)));
    lemma_node_error_offset(s, j, false);
}

/// Where the body of template `s` starts: the result of its argument list,
/// after the preamble.
pub open spec fn header_end(s: Seq<char>) -> Result<(Seq<Seq<char>>, int), GrammarError> {
    args_part(s, preamble_from(s, space_end(s, 0), Seq::empty()).1)
}

/// Byte offsets grow with character positions.
pub proof fn lemma_byte_offset_monotone(s: Seq<char>, a: int, b: int)
    requires
        0 <= a <= b,
    ensures
        byte_offset(s, a) <= byte_offset(s, b),
{
    if b <= s.len() {
        assert(s.take(b) == s.take(a) + s.take(b).skip(a));
        lemma_encode_concat(s.take(a), s.take(b).skip(a));
    } else if a <= s.len() {
        assert(s == s.take(a) + s.skip(a));
        lemma_encode_concat(s.take(a), s.skip(a));
    }
}

/// A template whose body holds a well-formed node followed by a malformed
/// one is rejected, with the error reported at or after the byte offset
/// where the malformed node starts.
pub proof fn lemma_fatal_error_byte_offset(s: Seq<char>)
    requires
        s.len() <= usize::MAX,
        encode_utf8(s).len() <= usize::MAX,
        header_end(s) is Ok,
        0 <= header_end(s)->Ok_0.1 < s.len(),
        node_at(s, header_end(s)->Ok_0.1, false) is Ok,
        header_end(s)->Ok_0.1 < node_at(s, header_end(s)->Ok_0.1, false)->Ok_0.1 < s.len(),
        node_at(s, node_at(s, header_end(s)->Ok_0.1, false)->Ok_0.1, false) is Err,
    ensures
        template_result(s) is Err,
        byte_offset(s, node_at(s, header_end(s)->Ok_0.1, false)->Ok_0.1)
            <= template_result(s)->Err_0.offset,
{
    let i = header_end(s)->Ok_0.1;
    let j = node_at(s, i, false)->Ok_0.1;
    lemma_fatal_at_first_error(s, i, Seq::empty());
    let g = body_from(s, i, Seq::empty())->Err_0;
    assert(parse_template(s) == Err::<TemplateModel, GrammarError>(g));
    lemma_byte_offset_monotone(s, j, g.pos as int);
    if g.pos as int <= s.len() {
        lemma_byte_offset_monotone(s, g.pos as int, s.len() + 1int);
    }
}

/// A closed root level's module file holds its header, then every
/// registration in order, then exactly one closing delimiter at the end;
/// other levels hold no closing delimiter. A closed level takes no further
/// registration, as each registration requires an open level.
pub proof fn lemma_module_closed(st: EngineState)
    requires
        st.wf(),
        st.closed,
    ensures
        st.top_level ==> st.text == st.header + flatten(st.entries) + closing(),
        !st.top_level ==> st.text == flatten(st.entries),
{
    if !st.top_level {
        assert(st.text == flatten(st.entries));
    }
}

} // verus!
