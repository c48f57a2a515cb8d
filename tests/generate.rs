use ructe::engine::is_content_arg;
use ructe::{template, template_name, write_rust, Engine, RenderEngine, Template, TemplateExpression};

const HEADER: &str = "use std::io::{self, Write};\n#[cfg_attr(feature=\"cargo-clippy\", allow(useless_attribute))]\n#[allow(unused)]\nuse ::templates::{Html,ToHtml};\n";

fn generate(src: &str, name: &str) -> String {
    let t = template(src).unwrap();
    let mut out = String::new();
    write_rust(&mut out, &t, name, "templates");
    out
}

#[test]
fn hello_name_generates() {
    let code = generate("@(name: &str)\nHello, @name!", "hello");
    let expected = String::from(HEADER)
        + "\npub fn hello(out: &mut Write, name: &str)\n-> io::Result<()> {\n"
        + "out.write_all(\"Hello, \".as_bytes())?;\n"
        + "name.to_html(out)?;\n"
        + "out.write_all(\"!\".as_bytes())?;\n"
        + "Ok(())\n}\n";
    assert_eq!(code, expected);
    assert!(!code.contains("<Content>"));
}

#[test]
fn static_text_generates_one_write() {
    let code = generate("@()\nStatic text only.", "page");
    let expected = String::from(HEADER)
        + "\npub fn page(out: &mut Write)\n-> io::Result<()> {\n"
        + "out.write_all(\"Static text only.\".as_bytes())?;\n"
        + "Ok(())\n}\n";
    assert_eq!(code, expected);
    assert_eq!(code.matches("write_all").count(), 1);
}

#[test]
fn generation_is_deterministic() {
    let src = "@use a::b;\n@(x: u8, content: Content)\n@x @:inner(x)";
    assert_eq!(generate(src, "f"), generate(src, "f"));
}

#[test]
fn preamble_comes_first_in_order() {
    let code = generate("@use a::b;\n@use c::d;\n@()\nx", "f");
    assert!(code.starts_with(&(String::from(HEADER) + "use a::b\nuse c::d\n\npub fn f(")));
}

#[test]
fn parameters_follow_arguments_in_order() {
    let code = generate("@(a: u8, b: &[(u8, u16)], c: String)\n", "f");
    assert!(code.contains("(out: &mut Write, a: u8, b: &[(u8, u16)], c: String)\n"));
}

#[test]
fn content_argument_makes_function_generic() {
    let code = generate("@(title: &str, content: Content)\n@:content()", "layout");
    assert!(code.contains(
        "pub fn layout<Content>(out: &mut Write, title: &str, content: Content)\n-> io::Result<()> \nwhere Content: FnOnce(&mut Write) -> io::Result<()>{\n"
    ));
    assert!(code.contains("content(out)?;\n"));
    assert_eq!(code.matches("<Content>").count(), 1);
}

#[test]
fn any_argument_of_content_type_makes_function_generic() {
    let code = generate("@(body:  Content)\n", "f");
    assert!(code.contains("pub fn f<Content>(out: &mut Write, body:  Content)\n-> io::Result<()> \nwhere Content:"));
    assert_eq!(code.matches("<Content>").count(), 1);
}

#[test]
fn other_types_are_not_generic() {
    let code = generate("@(c: Contents, d: &Content, content: u8)\n", "f");
    assert!(!code.contains("<Content>"));
    assert!(!code.contains("where"));
}

#[test]
fn content_arg_detection() {
    assert!(is_content_arg("content: Content"));
    assert!(is_content_arg("x :Content"));
    assert!(!is_content_arg("Content"));
    assert!(!is_content_arg("x: Content2"));
    assert!(!is_content_arg("x: "));
}

#[test]
fn text_is_escaped_in_literal() {
    let t = Template {
        preamble: vec![],
        args: vec![],
        body: vec![TemplateExpression::Text { text: "a \"q\" \\ b\n\tc\r".to_string() }],
    };
    let mut out = String::new();
    write_rust(&mut out, &t, "f", "templates");
    assert!(out.contains("out.write_all(\"a \\\"q\\\" \\\\ b\\n\\tc\\r\".as_bytes())?;\n"));
}

#[test]
fn call_with_arguments_generates() {
    let code = generate("@(x: u8)\n@:footer(x, 2)", "f");
    assert!(code.contains("footer(out, x, 2)?;\n"));
}

#[test]
fn template_method_uses_templates_root() {
    let t = template("@()\nhi").unwrap();
    let mut out = String::from("// start\n");
    t.write_rust(&mut out, "hi");
    let mut expected = String::from("// start\n");
    write_rust(&mut expected, &t, "hi", "templates");
    assert_eq!(out, expected);
}

#[test]
fn root_module_closed_once_after_registrations() {
    let mut root = Engine::new("templates", "// utils\n");
    let mut sub = root.sublevel("admin");
    let t = template("@()\nhi").unwrap();
    let code = root.render("index", &t);
    assert!(code.contains("pub fn index(out: &mut Write)"));
    let code_sub = sub.render("login", &t);
    assert!(code_sub.contains("use ::templates::{Html,ToHtml};"));
    sub.close();
    root.close();
    let expected = String::from("pub mod templates {\nuse std::io::{self, Write};\nuse std::fmt::Display;\n\n// utils\n")
        + "pub mod admin;\n\n"
        + "mod template_index;\npub use self::template_index::index;\n\n"
        + "}\n";
    assert_eq!(root.module_text(), expected);
    assert_eq!(root.module_text().matches("}\n").count(), 1);
    assert_eq!(sub.module_text(), "mod template_login;\npub use self::template_login::login;\n\n");
    assert!(root.is_top_level() && root.is_closed());
    assert!(!sub.is_top_level());
    assert_eq!(sub.path(), &vec!["templates".to_string(), "admin".to_string()]);
}

#[test]
fn nested_levels_never_close_with_delimiter() {
    let mut root = Engine::new("t", "");
    let mut a = root.sublevel("a");
    let mut b = a.sublevel("b");
    b.close();
    a.close();
    root.close();
    assert_eq!(b.module_text(), "");
    assert_eq!(a.module_text(), "pub mod b;\n\n");
    assert!(root.module_text().ends_with("pub mod a;\n\n}\n"));
}

#[test]
fn add_mod_registers_sub_module() {
    let mut root = Engine::new("t", "");
    root.add_mod("x");
    assert!(root.module_text().ends_with("pub mod x;\n\n"));
    assert!(!root.is_closed());
}

#[test]
fn if_else_generates_branches() {
    let code = generate("@(x: bool)\n@if x {yes @x} else {no}", "f");
    assert!(code.contains(
        "if x {\nout.write_all(\"yes \".as_bytes())?;\nx.to_html(out)?;\n} else {\nout.write_all(\"no\".as_bytes())?;\n}\nOk(())\n}\n"
    ));
}

#[test]
fn for_loop_generates_loop() {
    let code = generate("@(v: &[u8])\n@for i in v {@i,}", "f");
    assert!(code.contains(
        "for i in v {\ni.to_html(out)?;\nout.write_all(\",\".as_bytes())?;\n}\nOk(())\n}\n"
    ));
}

#[test]
fn generate_then_register() {
    let mut root = Engine::new("templates", "");
    let t = template("@()\nhi").unwrap();
    let code = root.generate("page", &t);
    assert_eq!(root.module_text(), "pub mod templates {\nuse std::io::{self, Write};\nuse std::fmt::Display;\n\n");
    let mut expected = String::new();
    write_rust(&mut expected, &t, "page", "templates");
    assert_eq!(code, expected);
    root.add_template("page");
    assert!(root.module_text().ends_with("mod template_page;\npub use self::template_page::page;\n\n"));
}

#[test]
fn template_file_names() {
    assert_eq!(template_name("index.rs.html"), Some("index".to_string()));
    assert_eq!(template_name("a.b.rs.html"), Some("a.b".to_string()));
    assert_eq!(template_name(".rs.html"), None);
    assert_eq!(template_name("index.html"), None);
    assert_eq!(template_name("style.css"), None);
}

#[test]
fn preamble_written_verbatim() {
    let code = generate("@use foo::Bar;\n@use baz;\n@()\nx", "p");
    assert!(code.contains("use foo::Bar\nuse baz\n\npub fn p(out: &mut Write)\n"));
}
