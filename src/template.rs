//! Parsed templates and their abstract model.
use vstd::prelude::*;
use crate::engine::rust_code;

verus! {

/// One node of a template body.
#[derive(Debug, PartialEq, Eq)]
pub enum TemplateExpression {
    /// Literal text, written as it is.
    Text { text: String },
    /// An expression whose value is escaped and written.
    Expression { expr: String },
    /// A call of another template's rendering function.
    Call { name: String, args: String },
    /// A comment `@* ... *@`, which renders nothing.
    Comment,
    /// `@if expr { ... } else { ... }`: renders `then` where `expr` holds,
    /// else `otherwise`.
    IfBlock { expr: String, then: Vec<TemplateExpression>, otherwise: Vec<TemplateExpression> },
    /// `@for name in expr { ... }`: renders `body` once per item of `expr`.
    ForLoop { name: String, expr: String, body: Vec<TemplateExpression> },
}

/// The abstract value of a body node.
pub enum Node {
    Text(Seq<char>),
    Expression(Seq<char>),
    Call(Seq<char>, Seq<char>),
    Comment,
    If(Seq<char>, Seq<Node>, Seq<Node>),
    For(Seq<char>, Seq<char>, Seq<Node>),
}

/// The abstract value of body node `e`.
pub open spec fn node_view(e: TemplateExpression) -> Node
    decreases e,
{
    match e {
        TemplateExpression::IfBlock { expr, then, otherwise } => Node::If(
            expr@,
            nodes_view(then@),
            nodes_view(otherwise@),
        ),
        TemplateExpression::ForLoop { name, expr, body } => Node::For(name@, expr@, nodes_view(body@)),
        TemplateExpression::Text { text } => Node::Text(text@),
        TemplateExpression::Expression { expr } => Node::Expression(expr@),
        TemplateExpression::Call { name, args } => Node::Call(name@, args@),
        TemplateExpression::Comment => Node::Comment,
    }
}

/// The abstract values of a sequence of body nodes.
pub open spec fn nodes_view(v: Seq<TemplateExpression>) -> Seq<Node>
    decreases v,
{
    if v.len() == 0 {
        Seq::empty()
    } else {
        nodes_view(v.drop_last()).push(node_view(v.last()))
    }
}

impl View for TemplateExpression {
    type V = Node;

    open spec fn view(&self) -> Node {
        node_view(*self)
    }
}

/// One parsed template file.
#[derive(Debug, PartialEq, Eq)]
pub struct Template {
    /// Code lines copied into the generated function, in order.
    pub preamble: Vec<String>,
    /// Formal arguments, each the verbatim text `name: type`.
    pub args: Vec<String>,
    /// The body, in render order.
    pub body: Vec<TemplateExpression>,
}

/// The abstract value of a template.
pub struct TemplateModel {
    pub preamble: Seq<Seq<char>>,
    pub args: Seq<Seq<char>>,
    pub body: Seq<Node>,
}

pub open spec fn strings_view(v: Seq<String>) -> Seq<Seq<char>> {
    v.map_values(|x: String| x@)
}


impl View for Template {
    type V = TemplateModel;

    open spec fn view(&self) -> TemplateModel {
        TemplateModel {
            preamble: strings_view(self.preamble@),
            args: strings_view(self.args@),
            body: nodes_view(self.body@),
        }
    }
}

impl Template {
    /// Appends the generated rendering function `name` to `out`, for the
    /// module tree rooted at `templates`.
    pub fn write_rust(&self, out: &mut String, name: &str)
        ensures
            final(out)@ == old(out)@ + rust_code(self@, name@, "templates"@),
    {
        crate::engine::write_rust(out, self, name, "templates");
    }
}

} // verus!
