use deno_parts::lsp::docs::display_parts_to_string;
use deno_parts::lsp::docs::document_named_tag;
use deno_parts::lsp::docs::document_plain_tag;
use deno_parts::lsp::docs::get_tag_body_text;
use deno_parts::lsp::docs::get_tag_documentation;
use deno_parts::lsp::docs::make_codeblock;
use deno_parts::lsp::docs::make_link;
use deno_parts::lsp::docs::replace_links;
use deno_parts::lsp::docs::trim;
use deno_parts::lsp::docs::JSDocTagInfo;
use deno_parts::lsp::docs::SymbolDisplayPart;

#[test]
fn test_replace_links() {
    let actual = replace_links(r"test {@link http://deno.land/x/mod.ts} test");
    assert_eq!(
        actual,
        r"test [http://deno.land/x/mod.ts](http://deno.land/x/mod.ts) test"
    );
    let actual = replace_links(r"test {@link http://deno.land/x/mod.ts a link} test");
    assert_eq!(actual, r"test [a link](http://deno.land/x/mod.ts) test");
    let actual = replace_links(r"test {@linkcode http://deno.land/x/mod.ts a link} test");
    assert_eq!(actual, r"test [`a link`](http://deno.land/x/mod.ts) test");
}

#[test]
fn several_links() {
    assert_eq!(
        replace_links("{@link https://a.b|x} é {@LinkPlain https://c.d  y } {@link c.d}"),
        "[x](https://a.b) é [y](https://c.d) {@link c.d}"
    );
    assert_eq!(replace_links("no links"), "no links");
    assert_eq!(replace_links(""), "");
}

fn tag(name: &str, text: Option<&str>) -> JSDocTagInfo {
    JSDocTagInfo { name: name.to_string(), text: text.map(|t| t.to_string()) }
}

#[test]
fn bodies_of_tags() {
    assert_eq!(get_tag_body_text(&tag("example", None)), None);
    assert_eq!(
        get_tag_body_text(&tag("example", Some("let a;"))),
        Some("```\nlet a;\n```".to_string())
    );
    assert_eq!(
        get_tag_body_text(&tag("example", Some("<caption>Cap</caption>\nlet a;"))),
        Some("Cap\n\n```\nlet a;\n```".to_string())
    );
    assert_eq!(
        get_tag_body_text(&tag("author", Some("Jo Doe <jo.doe@example.com> and others"))),
        Some("Jo Doe jo.doe@example.com and others".to_string())
    );
    assert_eq!(get_tag_body_text(&tag("author", Some("Jo"))), Some("Jo".to_string()));
    assert_eq!(
        get_tag_body_text(&tag("default", Some("~~~\n1\n~~~"))),
        Some("~~~\n1\n~~~".to_string())
    );
    assert_eq!(
        get_tag_body_text(&tag("see", Some("{@link http://a.b}"))),
        Some("[http://a.b](http://a.b)".to_string())
    );
}

#[test]
fn documentation_of_tags() {
    assert_eq!(get_tag_documentation(&tag("deprecated", None)), "*@deprecated*");
    assert_eq!(get_tag_documentation(&tag("see", Some("that"))), "*@see* - that");
    assert_eq!(get_tag_documentation(&tag("see", Some("a\nb"))), "*@see*  \na\nb");
    assert_eq!(get_tag_documentation(&tag("param", Some("name - doc"))), "*@param* - name - doc");
    assert_eq!(document_named_tag("param", "a", ""), "*@param* `a`");
    assert_eq!(document_named_tag("param", "a", "b"), "*@param* `a` - b");
    assert_eq!(document_named_tag("param", "a", "b\nc"), "*@param* `a`  \nb\nc");
    assert_eq!(document_plain_tag("x", &Some("y".to_string())), "*@x* - y");
}

#[test]
fn codeblocks() {
    assert_eq!(make_codeblock("a"), "```\na\n```");
    assert_eq!(make_codeblock("  ```ts\na\n```"), "  ```ts\na\n```");
    assert_eq!(make_codeblock("\u{2003}\n~`~"), "\u{2003}\n~`~");
    assert_eq!(make_codeblock("``"), "```\n``\n```");
    assert_eq!(make_codeblock("a```"), "```\na```\n```");
    assert_eq!(make_codeblock("\u{200b}```"), "```\n\u{200b}```\n```");
    assert_eq!(make_codeblock(&make_codeblock("a")), make_codeblock("a"));
    assert_eq!(make_codeblock(&make_codeblock("")), make_codeblock(""));
}

#[test]
fn links_and_trimming() {
    assert_eq!(make_link("link", "t", None), "[t](t)");
    assert_eq!(make_link("linkcode", "t", Some(" l ")), "[`l`](t)");
    assert_eq!(make_link("Linkcode", "t", Some("l")), "[l](t)");
    assert_eq!(trim(" \t\u{3000}a b\n\u{a0}"), "a b");
    assert_eq!(trim("  "), "");
    assert_eq!(trim("a"), "a");
}

#[test]
fn display_parts() {
    let part = |t: &str| SymbolDisplayPart { text: t.to_string(), kind: "text".to_string() };
    assert_eq!(display_parts_to_string(&vec![part("a"), part(""), part("bc")]), "abc");
    assert_eq!(display_parts_to_string(&vec![]), "");
}
