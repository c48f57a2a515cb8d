use ructe::{template, ErrorKind, ParseError, Template, TemplateExpression};

fn text(t: &str) -> TemplateExpression {
    TemplateExpression::Text { text: t.to_string() }
}

fn expr(e: &str) -> TemplateExpression {
    TemplateExpression::Expression { expr: e.to_string() }
}

#[test]
fn hello_name_parses() {
    let t = template("@(name: &str)\nHello, @name!").unwrap();
    assert_eq!(
        t,
        Template {
            preamble: vec![],
            args: vec!["name: &str".to_string()],
            body: vec![text("Hello, "), expr("name"), text("!")],
        }
    );
}

#[test]
fn empty_argument_list() {
    let t = template("@()\nStatic text only.").unwrap();
    assert!(t.args.is_empty());
    assert_eq!(t.body, vec![text("Static text only.")]);
}

#[test]
fn missing_close_paren_reported_after_last_argument() {
    let r = template("@(a: u8, b: u8\nText");
    assert_eq!(r, Err(ParseError { kind: ErrorKind::ExpectedParen, offset: 14 }));
}

#[test]
fn missing_close_paren_at_end_of_input() {
    let r = template("@(a: u8");
    assert_eq!(r, Err(ParseError { kind: ErrorKind::ExpectedParen, offset: 7 }));
}

#[test]
fn malformed_node_after_good_one_is_fatal() {
    let r = template("@()\n@name @!");
    assert_eq!(r, Err(ParseError { kind: ErrorKind::BadExpression, offset: 10 }));
}

#[test]
fn unterminated_comment_in_body_is_an_error() {
    let r = template("@()\nab@* open");
    assert_eq!(r, Err(ParseError { kind: ErrorKind::BadExpression, offset: 6 }));
}

#[test]
fn missing_argument_list() {
    let r = template("Hello");
    assert_eq!(r, Err(ParseError { kind: ErrorKind::ExpectedArguments, offset: 0 }));
}

#[test]
fn empty_input_has_no_argument_list() {
    let r = template("");
    assert_eq!(r, Err(ParseError { kind: ErrorKind::ExpectedArguments, offset: 0 }));
}

#[test]
fn parsing_twice_gives_equal_templates() {
    let src = "@use x::Y;\n@(a: &[u8], b: Option<(u8, String)>)\n<p>@a.len</p>@:other(a)";
    assert_eq!(template(src), template(src));
    assert!(template(src).is_ok());
}

#[test]
fn preamble_lines_in_order() {
    let t = template("  @use a::b;\n@use c::d;\n@()\nx").unwrap();
    assert_eq!(t.preamble, vec!["use a::b".to_string(), "use c::d".to_string()]);
    assert_eq!(t.body, vec![text("x")]);
}

#[test]
fn nested_argument_types() {
    let t = template("@(x: &[Vec<(u8, String)>], content: Content)\n").unwrap();
    assert_eq!(
        t.args,
        vec!["x: &[Vec<(u8, String)>]".to_string(), "content: Content".to_string()]
    );
    assert!(t.body.is_empty());
}

#[test]
fn missing_type_expression() {
    let r = template("@(x: )\n");
    assert_eq!(r, Err(ParseError { kind: ErrorKind::ExpectedType, offset: 5 }));
}

#[test]
fn unclosed_bracket_type() {
    let r = template("@(x: [u8)\n");
    assert_eq!(r, Err(ParseError { kind: ErrorKind::ExpectedType, offset: 5 }));
}

#[test]
fn unit_tuple_is_a_type() {
    let t = template("@(x: ())\n").unwrap();
    assert_eq!(t.args, vec!["x: ()".to_string()]);
}

#[test]
fn empty_generic_list_is_allowed() {
    let t = template("@(x: Vec<>, y: (u8, ))").map(|t| t.args);
    assert_eq!(t, Err(ParseError { kind: ErrorKind::ExpectedType, offset: 20 }));
    let t = template("@(x: Vec<>)").unwrap();
    assert_eq!(t.args, vec!["x: Vec<>".to_string()]);
}

#[test]
fn error_offset_counts_bytes() {
    let r = template("@()\nGrüße @!");
    assert_eq!(r, Err(ParseError { kind: ErrorKind::BadExpression, offset: 12 }));
}

#[test]
fn unclosed_generic_list_ends_the_type_before_it() {
    let r = template("@(x: Vec<u8)\n");
    assert_eq!(r, Err(ParseError { kind: ErrorKind::ExpectedParen, offset: 8 }));
}

#[test]
fn space_around_colon_is_allowed() {
    let t = template("@(x : u8)").unwrap();
    assert_eq!(t.args, vec!["x : u8".to_string()]);
}

#[test]
fn comments_and_space_before_arguments() {
    let t = template("@* a comment *@\n  @()\nhi").unwrap();
    assert!(t.preamble.is_empty());
    assert_eq!(t.body, vec![text("hi")]);
}

#[test]
fn body_nodes() {
    let t = template("@()\na@@b @* c *@@user.name. @:footer(x, y)@:bare()").unwrap();
    assert_eq!(
        t.body,
        vec![
            text("a"),
            text("@"),
            text("b "),
            TemplateExpression::Comment,
            expr("user.name"),
            text(". "),
            TemplateExpression::Call { name: "footer".to_string(), args: "x, y".to_string() },
            TemplateExpression::Call { name: "bare".to_string(), args: "".to_string() },
        ]
    );
}

#[test]
fn call_without_parens_is_an_error() {
    let r = template("@()\n@:footer x");
    assert_eq!(r, Err(ParseError { kind: ErrorKind::BadExpression, offset: 4 }));
}

#[test]
fn non_ascii_text_kept() {
    let t = template("@()\nGrüße, @n").unwrap();
    assert_eq!(t.body, vec![text("Grüße, "), expr("n")]);
}

#[test]
fn if_else_block() {
    let t = template("@(x: bool)\n@if x {yes @x} else {no}").unwrap();
    assert_eq!(
        t.body,
        vec![TemplateExpression::IfBlock {
            expr: "x".to_string(),
            then: vec![text("yes "), expr("x")],
            otherwise: vec![text("no")],
        }]
    );
}

#[test]
fn if_without_else() {
    let t = template("@()\n@if a.b {t}!").unwrap();
    assert_eq!(
        t.body,
        vec![
            TemplateExpression::IfBlock { expr: "a.b".to_string(), then: vec![text("t")], otherwise: vec![] },
            text("!"),
        ]
    );
}

#[test]
fn for_loop_block() {
    let t = template("@(items: &[u8])\n<ul>@for i in items {<li>@i</li>}</ul>").unwrap();
    assert_eq!(
        t.body,
        vec![
            text("<ul>"),
            TemplateExpression::ForLoop {
                name: "i".to_string(),
                expr: "items".to_string(),
                body: vec![text("<li>"), expr("i"), text("</li>")],
            },
            text("</ul>"),
        ]
    );
}

#[test]
fn nested_blocks() {
    let t = template("@()\n@for r in rows {@if r.on {@r.name}}").unwrap();
    assert_eq!(
        t.body,
        vec![TemplateExpression::ForLoop {
            name: "r".to_string(),
            expr: "rows".to_string(),
            body: vec![TemplateExpression::IfBlock {
                expr: "r.on".to_string(),
                then: vec![expr("r.name")],
                otherwise: vec![],
            }],
        }]
    );
}

#[test]
fn unclosed_block_reported_at_its_start() {
    let r = template("@()\n@if x {open");
    assert_eq!(r, Err(ParseError { kind: ErrorKind::BadExpression, offset: 4 }));
}

#[test]
fn malformed_node_inside_block_reported_at_its_start() {
    let r = template("@()\n@for i in v {@!}");
    assert_eq!(r, Err(ParseError { kind: ErrorKind::BadExpression, offset: 17 }));
}

#[test]
fn closing_brace_at_top_level_is_text() {
    let t = template("@()\na}b").unwrap();
    assert_eq!(t.body, vec![text("a}b")]);
}
