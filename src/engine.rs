//! Lowering a parsed template to a Rust rendering function, and the state of
//! one level of the generated module tree.
use vstd::prelude::*;
use crate::template::{nodes_view, Node, Template, TemplateExpression, TemplateModel};
use crate::grammar::collect;
use crate::lexical::{chars_of, is_space, space_char};
use crate::text::{escape, push_escaped};

verus! {

/// The declared type that marks a caller-supplied content block.
pub open spec fn content_type() -> Seq<char> {
    "Content"@
}

/// The first position at or after `j` of `a` that holds `:`.
pub open spec fn colon_at(a: Seq<char>, j: int) -> int
    decreases a.len() - j,
{
    if 0 <= j < a.len() && a[j] != ':' {
        colon_at(a, j + 1)
    } else {
        j
    }
}

/// The first position at or after `j` of `a` that is not white space.
pub open spec fn spaces_end(a: Seq<char>, j: int) -> int
    decreases a.len() - j,
{
    if 0 <= j < a.len() && is_space(a[j]) {
        spaces_end(a, j + 1)
    } else {
        j
    }
}

/// The declared type of argument declaration `a`: what follows its colon
/// and the white space after it.
pub open spec fn declared_type(a: Seq<char>) -> Seq<char> {
    let c = colon_at(a, 0);
    if c < a.len() {
        a.subrange(spaces_end(a, c + 1), a.len() as int)
    } else {
        Seq::empty()
    }
}

/// Whether the generated function must be generic over a content block:
/// some argument is declared with the content-block type.
pub open spec fn uses_content(args: Seq<Seq<char>>) -> bool {
    exists|i: int| 0 <= i < args.len() && #[trigger] declared_type(args[i]) == content_type()
}

/// The imports that open every generated file.
pub open spec fn header(top: Seq<char>) -> Seq<char> {
    "use std::io::{self, Write};\n#[cfg_attr(feature=\"cargo-clippy\", allow(useless_attribute))]\n#[allow(unused)]\nuse ::"@
        + top + "::{Html,ToHtml};\n"@
}

/// Preamble lines, each followed by a line break.
pub open spec fn lines(p: Seq<Seq<char>>) -> Seq<char>
    decreases p.len(),
{
    if p.len() == 0 {
        Seq::empty()
    } else {
        lines(p.drop_last()) + p.last() + "\n"@
    }
}

/// The formal parameters that follow the output sink.
pub open spec fn params(a: Seq<Seq<char>>) -> Seq<char>
    decreases a.len(),
{
    if a.len() == 0 {
        Seq::empty()
    } else {
        params(a.drop_last()) + ", "@ + a.last()
    }
}

pub open spec fn generic_params(args: Seq<Seq<char>>) -> Seq<char> {
    if uses_content(args) {
        "<Content>"@
    } else {
        Seq::empty()
    }
}

pub open spec fn where_clause(args: Seq<Seq<char>>) -> Seq<char> {
    if uses_content(args) {
        "\nwhere Content: FnOnce(&mut Write) -> io::Result<()>"@
    } else {
        Seq::empty()
    }
}

/// The signature of the generated function, through its opening brace.
pub open spec fn signature(args: Seq<Seq<char>>, name: Seq<char>) -> Seq<char> {
    "\npub fn "@ + name + generic_params(args) + "(out: &mut Write"@ + params(args)
        + ")\n-> io::Result<()> "@ + where_clause(args) + "{\n"@
}

/// The statements that render one body node.
pub open spec fn node_code(n: Node) -> Seq<char>
    decreases n,
{
    match n {
        Node::Text(t) => "out.write_all(\""@ + escape(t) + "\".as_bytes())?;\n"@,
        Node::Expression(e) => e + ".to_html(out)?;\n"@,
        Node::Call(name, args) => if args.len() == 0 {
            name + "(out)?;\n"@
        } else {
            name + "(out, "@ + args + ")?;\n"@
        },
        Node::Comment => Seq::empty(),
        Node::If(e, t, o) => "if "@ + e + " {\n"@ + body_code(t) + "} else {\n"@ + body_code(o)
            + "}\n"@,
        Node::For(x, e, b) => "for "@ + x + " in "@ + e + " {\n"@ + body_code(b) + "}\n"@,
    }
}

/// The statements that render a body, in order.
pub open spec fn body_code(b: Seq<Node>) -> Seq<char>
    decreases b,
{
    if b.len() == 0 {
        Seq::empty()
    } else {
        body_code(b.drop_last()) + node_code(b.last())
    }
}

/// The complete generated file for template `t`, as function `name` of the
/// module tree rooted at `top`.
pub open spec fn rust_code(t: TemplateModel, name: Seq<char>, top: Seq<char>) -> Seq<char> {
    header(top) + lines(t.preamble) + signature(t.args, name) + body_code(t.body)
        + "Ok(())\n}\n"@
}

/// Whether argument declaration `a` has the content-block type.
pub fn is_content_arg(a: &str) -> (r: bool)
    ensures
        r == (declared_type(a@) == content_type()),
{
    let s = chars_of(a);
    let marker = chars_of("Content");
    let mut c: usize = 0;
    while c < s.len() && s[c] != ':'
        invariant
            c <= s.len(),
            colon_at(s@, c as int) == colon_at(s@, 0),
        decreases s.len() - c,
    {
        c = c + 1;
    }
    if c >= s.len() {
        proof {
            reveal_strlit("Content");
            assert(content_type().len() == 7);
        }
        return false;
    }
    let mut t: usize = c + 1;
    while t < s.len() && space_char(s[t])
        invariant
            c < t <= s.len(),
            spaces_end(s@, t as int) == spaces_end(s@, c + 1),
        decreases s.len() - t,
    {
        t = t + 1;
    }
    let ghost d = s@.subrange(t as int, s@.len() as int);
    assert(d == declared_type(a@));
    if s.len() - t != marker.len() {
        assert(d.len() != marker@.len());
        return false;
    }
    let mut k: usize = 0;
    while k < marker.len()
        invariant
            k <= marker.len(),
            t + marker.len() == s.len(),
            d == s@.subrange(t as int, s@.len() as int),
            d == declared_type(a@),
            marker@ == content_type(),
            forall|j: int| 0 <= j < k ==> d[j] == marker@[j],
        decreases marker.len() - k,
    {
        if s[t + k] != marker[k] {
            assert(d[k as int] != marker@[k as int]);
            return false;
        }
        k = k + 1;
    }
    assert(d == marker@);
    true
}

/// Whether some argument declaration has the content-block type.
pub fn has_content_arg(args: &Vec<String>) -> (r: bool)
    ensures
        r == uses_content(args@.map_values(|x: String| x@)),
{
    let ghost v = args@.map_values(|x: String| x@);
    let mut i: usize = 0;
    while i < args.len()
        invariant
            i <= args.len(),
            v == args@.map_values(|x: String| x@),
            forall|j: int| 0 <= j < i ==> declared_type(#[trigger] v[j]) != content_type(),
        decreases args.len() - i,
    {
        if is_content_arg(args[i].as_str()) {
            assert(declared_type(v[i as int]) == content_type());
            return true;
        }
        i = i + 1;
    }
    false
}

/// Appends the statements that render `e`.
fn write_node(out: &mut String, e: &TemplateExpression)
    ensures
        final(out)@ == old(out)@ + node_code(e@),
    decreases e,
{
    match e {
        TemplateExpression::Text { text } => {
            out.append("out.write_all(\"");
            push_escaped(out, text.as_str());
            out.append("\".as_bytes())?;\n");
        },
        TemplateExpression::Expression { expr } => {
            out.append(expr.as_str());
            out.append(".to_html(out)?;\n");
        },
        TemplateExpression::Call { name, args } => {
            out.append(name.as_str());
            if args.as_str().is_empty() {
                out.append("(out)?;\n");
            } else {
                out.append("(out, ");
                out.append(args.as_str());
                out.append(")?;\n");
            }
        },
        TemplateExpression::Comment => {},
        TemplateExpression::IfBlock { expr, then, otherwise } => {
            out.append("if ");
            out.append(expr.as_str());
            out.append(" {\n");
            write_body(out, then);
            out.append("} else {\n");
            write_body(out, otherwise);
            out.append("}\n");
        },
        TemplateExpression::ForLoop { name, expr, body } => {
            out.append("for ");
            out.append(name.as_str());
            out.append(" in ");
            out.append(expr.as_str());
            out.append(" {\n");
            write_body(out, body);
            out.append("}\n");
        },
    }
}

/// Appends the statements that render the body `b`, in order.
fn write_body(out: &mut String, b: &Vec<TemplateExpression>)
    ensures
        final(out)@ == old(out)@ + body_code(nodes_view(b@)),
    decreases b,
{
    broadcast use vstd::std_specs::vec::axiom_vec_index_decreases;
    let ghost start = out@;
    let mut i: usize = 0;
    while i < b.len()
        invariant
            i <= b.len(),
            out@ == start + body_code(nodes_view(b@.take(i as int))),
        decreases b.len() - i,
    {
        proof {
            assert(b@.take(i + 1).drop_last() == b@.take(i as int));
            assert(b@.take(i + 1).last() == b@[i as int]);
            assert(decreases_to!(b => b[i as int]));
            assert(nodes_view(b@.take(i + 1)) == nodes_view(b@.take(i as int)).push(b@[i as int]@));
            assert(body_code(nodes_view(b@.take(i + 1))) == body_code(nodes_view(b@.take(i as int)))
                + node_code(b@[i as int]@)) by {
                let v = nodes_view(b@.take(i + 1));
                assert(v.drop_last() == nodes_view(b@.take(i as int)));
            }
        }
        write_node(out, &b[i]);
        i = i + 1;
    }
    proof {
        assert(b@.take(b@.len() as int) == b@);
    }
}

/// Appends to `out` the generated rendering function for `tpl`, named
/// `name`, in the module tree rooted at `top_level_name`.
pub fn write_rust(out: &mut String, tpl: &Template, name: &str, top_level_name: &str)
    ensures
        final(out)@ == old(out)@ + rust_code(tpl@, name@, top_level_name@),
{
    let ghost start = out@;
    let ghost t = tpl@;
    out.append(
        "use std::io::{self, Write};\n#[cfg_attr(feature=\"cargo-clippy\", allow(useless_attribute))]\n#[allow(unused)]\nuse ::",
    );
    out.append(top_level_name);
    out.append("::{Html,ToHtml};\n");
    let ghost p1 = out@;
    let mut i: usize = 0;
    while i < tpl.preamble.len()
        invariant
            i <= tpl.preamble.len(),
            t == tpl@,
            out@ == p1 + lines(t.preamble.take(i as int)),
        decreases tpl.preamble.len() - i,
    {
        proof {
            assert(t.preamble.take(i + 1).drop_last() == t.preamble.take(i as int));
        }
        out.append(tpl.preamble[i].as_str());
        out.append("\n");
        i = i + 1;
    }
    proof {
        assert(t.preamble.take(t.preamble.len() as int) == t.preamble);
    }
    let content = has_content_arg(&tpl.args);
    out.append("\npub fn ");
    out.append(name);
    if content {
        out.append("<Content>");
    }
    out.append("(out: &mut Write");
    let ghost p2 = out@;
    let mut i: usize = 0;
    while i < tpl.args.len()
        invariant
            i <= tpl.args.len(),
            t == tpl@,
            out@ == p2 + params(t.args.take(i as int)),
        decreases tpl.args.len() - i,
    {
        proof {
            assert(t.args.take(i + 1).drop_last() == t.args.take(i as int));
        }
        out.append(", ");
        out.append(tpl.args[i].as_str());
        i = i + 1;
    }
    proof {
        assert(t.args.take(t.args.len() as int) == t.args);
    }
    out.append(")\n-> io::Result<()> ");
    if content {
        out.append("\nwhere Content: FnOnce(&mut Write) -> io::Result<()>");
    }
    out.append("{\n");
    write_body(out, &tpl.body);
    out.append("Ok(())\n}\n");
    proof {
        assert(out@ == start + rust_code(t, name@, top_level_name@));
    }
}

/// The file-name suffix of a template.
pub open spec fn template_suffix() -> Seq<char> {
    ".rs.html"@
}

/// The function name of the template in file `f`: `f` without its
/// template suffix, where `f` is longer than that suffix and ends with it.
pub open spec fn template_stem(f: Seq<char>) -> Option<Seq<char>> {
    let n = template_suffix().len();
    if f.len() > n && f.subrange(f.len() - n, f.len() as int) == template_suffix() {
        Some(f.subrange(0, f.len() - n))
    } else {
        None
    }
}

/// The function name of the template in file `file_name`, if it is one.
pub fn template_name(file_name: &str) -> (r: Option<String>)
    ensures
        match r {
            Some(n) => template_stem(file_name@) == Some(n@),
            None => template_stem(file_name@) is None,
        },
{
    let f = chars_of(file_name);
    let suffix = chars_of(".rs.html");
    if f.len() <= suffix.len() {
        return None;
    }
    let base = f.len() - suffix.len();
    let ghost tail = f@.subrange(base as int, f@.len() as int);
    let mut k: usize = 0;
    while k < suffix.len()
        invariant
            k <= suffix.len(),
            base + suffix.len() == f.len(),
            tail == f@.subrange(base as int, f@.len() as int),
            suffix@ == template_suffix(),
            f@ == file_name@,
            forall|j: int| 0 <= j < k ==> tail[j] == suffix@[j],
        decreases suffix.len() - k,
    {
        if f[base + k] != suffix[k] {
            assert(tail[k as int] != suffix@[k as int]);
            return None;
        }
        k = k + 1;
    }
    assert(tail == suffix@);
    Some(collect(&f, 0, base))
}

/// The opening of the root module file: the module header, then the
/// runtime support code `utils`.
pub open spec fn root_header(name: Seq<char>, utils: Seq<char>) -> Seq<char> {
    "pub mod "@ + name + " {\nuse std::io::{self, Write};\nuse std::fmt::Display;\n\n"@ + utils
}

/// The registration of a sub-module.
pub open spec fn mod_decl(name: Seq<char>) -> Seq<char> {
    "pub mod "@ + name + ";\n\n"@
}

/// The registration of a generated function.
pub open spec fn template_decl(name: Seq<char>) -> Seq<char> {
    "mod template_"@ + name + ";\npub use self::template_"@ + name + "::"@ + name + ";\n\n"@
}

/// The delimiter that closes the root module.
pub open spec fn closing() -> Seq<char> {
    "}\n"@
}

/// All registrations, in order.
pub open spec fn flatten(entries: Seq<Seq<char>>) -> Seq<char>
    decreases entries.len(),
{
    if entries.len() == 0 {
        Seq::empty()
    } else {
        flatten(entries.drop_last()) + entries.last()
    }
}

/// The abstract state of one level of the module tree.
pub struct EngineState {
    /// Whether this is the root level.
    pub top_level: bool,
    /// The name of the root module.
    pub root_name: Seq<char>,
    /// Directory names from the output root down to this level.
    pub path: Seq<Seq<char>>,
    /// What the module file holds before any registration.
    pub header: Seq<char>,
    /// The registrations made, in order.
    pub entries: Seq<Seq<char>>,
    /// Whether the level has been closed.
    pub closed: bool,
    /// The text of the module file.
    pub text: Seq<char>,
}

/// One level of the generated module tree: the text of its module file, and
/// where it stands.
pub struct Engine {
    top_level: bool,
    top_level_name: String,
    outpath: Vec<String>,
    mod_text: String,
    header: Ghost<Seq<char>>,
    entries: Ghost<Seq<Seq<char>>>,
    closed: bool,
}

impl View for Engine {
    type V = EngineState;

    closed spec fn view(&self) -> EngineState {
        EngineState {
            top_level: self.top_level,
            root_name: self.top_level_name@,
            path: self.outpath@.map_values(|x: String| x@),
            header: self.header@,
            entries: self.entries@,
            closed: self.closed,
            text: self.mod_text@,
        }
    }
}

impl EngineState {
    /// The module text is the header, the registrations in order, and, once
    /// a root level is closed, one closing delimiter; only the root level
    /// has a header.
    pub open spec fn wf(&self) -> bool {
        &&& self.text == self.header + flatten(self.entries) + (if self.top_level && self.closed {
            closing()
        } else {
            Seq::empty()
        })
        &&& !self.top_level ==> self.header == Seq::<char>::empty()
        &&& self.path.len() >= 1
    }

    /// The state after appending registration `entry`.
    pub open spec fn registered(self, entry: Seq<char>) -> EngineState {
        EngineState {
            entries: self.entries.push(entry),
            text: self.text + entry,
            ..self
        }
    }
}

impl Engine {
    /// The root level for module `name`; its module file opens with the
    /// module header and the runtime support code `utils`.
    pub fn new(name: &str, utils: &str) -> (r: Engine)
        ensures
            r@.wf(),
            r@.top_level,
            r@.root_name == name@,
            r@.path == seq![name@],
            r@.header == root_header(name@, utils@),
            r@.entries == Seq::<Seq<char>>::empty(),
            !r@.closed,
            r@.text == root_header(name@, utils@),
    {
        let mut t = String::from_str("pub mod ");
        t.append(name);
        t.append(" {\nuse std::io::{self, Write};\nuse std::fmt::Display;\n\n");
        t.append(utils);
        let mut path: Vec<String> = Vec::new();
        path.push(String::from_str(name));
        let r = Engine {
            top_level: true,
            top_level_name: String::from_str(name),
            outpath: path,
            mod_text: t,
            header: Ghost(root_header(name@, utils@)),
            entries: Ghost(Seq::empty()),
            closed: false,
        };
        proof {
            assert(r@.path == seq![name@]);
            assert(r@.text == r@.header + flatten(r@.entries));
        }
        r
    }

    fn register(&mut self, entry: &String)
        requires
            old(self)@.wf(),
            !old(self)@.closed,
        ensures
            final(self)@ == old(self)@.registered(entry@),
            final(self)@.wf(),
    {
        self.mod_text.append(entry.as_str());
        self.entries = Ghost(self.entries@.push(entry@));
        proof {
            assert(self.entries@.drop_last() == old(self)@.entries);
            assert(flatten(self.entries@) == flatten(old(self)@.entries) + entry@);
            assert(self@.text == self@.header + flatten(self@.entries) + Seq::<char>::empty());
        }
    }

    /// Registers sub-module `name` in this level's module file.
    pub fn add_mod(&mut self, name: &str)
        requires
            old(self)@.wf(),
            !old(self)@.closed,
        ensures
            final(self)@ == old(self)@.registered(mod_decl(name@)),
            final(self)@.wf(),
    {
        let mut line = String::from_str("pub mod ");
        line.append(name);
        line.append(";\n\n");
        self.register(&line);
    }

    /// The generated file for template `tpl` as function `name` of this
    /// module tree; nothing is registered.
    pub fn generate(&self, name: &str, tpl: &Template) -> (code: String)
        ensures
            code@ == rust_code(tpl@, name@, self@.root_name),
    {
        let mut code = String::new();
        write_rust(&mut code, tpl, name, self.top_level_name.as_str());
        code
    }

    /// Registers generated function `name` in this level's module file.
    pub fn add_template(&mut self, name: &str)
        requires
            old(self)@.wf(),
            !old(self)@.closed,
        ensures
            final(self)@ == old(self)@.registered(template_decl(name@)),
            final(self)@.wf(),
    {
        let mut line = String::from_str("mod template_");
        line.append(name);
        line.append(";\npub use self::template_");
        line.append(name);
        line.append("::");
        line.append(name);
        line.append(";\n\n");
        self.register(&line);
    }

    /// Closes this level: a root level appends its closing delimiter.
    pub fn close(&mut self)
        requires
            old(self)@.wf(),
            !old(self)@.closed,
        ensures
            final(self)@ == (EngineState {
                closed: true,
                text: old(self)@.text + if old(self)@.top_level {
                    closing()
                } else {
                    Seq::empty()
                },
                ..old(self)@
            }),
            final(self)@.wf(),
    {
        if self.top_level {
            self.mod_text.append("}\n");
        }
        self.closed = true;
    }

    /// Whether this is the root level.
    pub fn is_top_level(&self) -> (r: bool)
        ensures
            r == self@.top_level,
    {
        self.top_level
    }

    /// Whether this level has been closed.
    pub fn is_closed(&self) -> (r: bool)
        ensures
            r == self@.closed,
    {
        self.closed
    }

    /// The text of this level's module file.
    pub fn module_text(&self) -> (r: &str)
        ensures
            r@ == self@.text,
    {
        self.mod_text.as_str()
    }

    /// Directory names from the output root down to this level.
    pub fn path(&self) -> (r: &Vec<String>)
        ensures
            r@.map_values(|x: String| x@) == self@.path,
    {
        &self.outpath
    }
}

/// A level of the generated module tree that sub-levels and rendered
/// templates are registered in.
pub trait RenderEngine: Sized {
    /// The abstract state of the level.
    spec fn state(&self) -> EngineState;

    /// Opens sub-level `name` below this one and registers it here.
    fn sublevel(&mut self, name: &str) -> (child: Self)
        requires
            old(self).state().wf(),
            !old(self).state().closed,
        ensures
            final(self).state() == old(self).state().registered(mod_decl(name@)),
            final(self).state().wf(),
            child.state() == (EngineState {
                top_level: false,
                root_name: old(self).state().root_name,
                path: old(self).state().path.push(name@),
                header: Seq::empty(),
                entries: Seq::empty(),
                closed: false,
                text: Seq::empty(),
            }),
            child.state().wf(),
    ;

    /// Generates the file for template `tpl` as function `name`, and
    /// registers that function here.
    fn render(&mut self, name: &str, tpl: &Template) -> (code: String)
        requires
            old(self).state().wf(),
            !old(self).state().closed,
        ensures
            code@ == rust_code(tpl@, name@, old(self).state().root_name),
            final(self).state() == old(self).state().registered(template_decl(name@)),
            final(self).state().wf(),
    ;
}

impl RenderEngine for Engine {
    open spec fn state(&self) -> EngineState {
        self@
    }

    fn sublevel(&mut self, name: &str) -> (child: Self) {
        let mut path: Vec<String> = self.outpath.clone();
        path.push(String::from_str(name));
        let child = Engine {
            top_level: false,
            top_level_name: self.top_level_name.clone(),
            outpath: path,
            mod_text: String::new(),
            header: Ghost(Seq::empty()),
            entries: Ghost(Seq::empty()),
            closed: false,
        };
        self.add_mod(name);
        proof {
            assert(child@.path == old(self)@.path.push(name@));
            assert(child@.text == child@.header + flatten(child@.entries));
        }
        child
    }

    fn render(&mut self, name: &str, tpl: &Template) -> (code: String) {
        let code = self.generate(name, tpl);
        self.add_template(name);
        code
    }
}

} // verus!
