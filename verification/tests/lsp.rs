use deno_parts::lsp::assets::asset_from_isolate;
use deno_parts::lsp::assets::next_asset_step;
use deno_parts::lsp::assets::static_asset_name;
use deno_parts::lsp::assets::AssetDocument;
use deno_parts::lsp::assets::AssetStep;
use deno_parts::lsp::assets::Assets;
use deno_parts::lsp::completions::CompletionEntry;
use deno_parts::lsp::completions::CompletionInfo;
use deno_parts::lsp::completions::SignatureHelpItem;
use deno_parts::lsp::completions::SignatureHelpItems;
use deno_parts::lsp::completions::SignatureHelpParameter;
use deno_parts::lsp::docs::JSDocTagInfo;
use deno_parts::lsp::docs::SymbolDisplayPart;
use deno_parts::lsp::edits::FileTextChanges;
use deno_parts::lsp::edits::RenameLocation;
use deno_parts::lsp::edits::RenameLocations;
use deno_parts::lsp::edits::RenameTarget;
use deno_parts::lsp::edits::TextChange;
use deno_parts::lsp::json::Json;
use deno_parts::lsp::lines::slice;
use deno_parts::lsp::lines::utf16_length;
use deno_parts::lsp::lines::LineIndex;
use deno_parts::lsp::lines::Position;
use deno_parts::lsp::lines::Range;
use deno_parts::lsp::locations::DefinitionInfo;
use deno_parts::lsp::locations::DefinitionInfoAndBoundSpan;
use deno_parts::lsp::locations::DocumentHighlights;
use deno_parts::lsp::locations::HighlightSpan;
use deno_parts::lsp::locations::HighlightSpanKind;
use deno_parts::lsp::locations::ImplementationLocation;
use deno_parts::lsp::locations::ReferenceEntry;
use deno_parts::lsp::protocol::CompletionItemKind;
use deno_parts::lsp::protocol::DocumentHighlightKind;
use deno_parts::lsp::protocol::MarkedString;
use deno_parts::lsp::results::DocumentSpan;
use deno_parts::lsp::results::LinkTarget;
use deno_parts::lsp::results::NavigationTree;
use deno_parts::lsp::results::QuickInfo;
use deno_parts::lsp::results::ScriptElementKind;
use deno_parts::lsp::results::TextSpan;
use deno_parts::specifier::resolve_url;
use std::cell::RefCell;

fn pos(line: u32, character: u32) -> Position {
    Position { line, character }
}

fn range(a: (u32, u32), b: (u32, u32)) -> Range {
    Range { start: pos(a.0, a.1), end: pos(b.0, b.1) }
}

fn span(start: u32, length: u32) -> TextSpan {
    TextSpan { start, length }
}

fn part(t: &str) -> SymbolDisplayPart {
    SymbolDisplayPart { text: t.to_string(), kind: String::new() }
}

#[test]
fn positions_in_lines() {
    let lines = LineIndex::new("ab\n\u{1f600}c\n\nd");
    assert_eq!(lines.position_tsc(0), pos(0, 0));
    assert_eq!(lines.position_tsc(2), pos(0, 2));
    assert_eq!(lines.position_tsc(3), pos(1, 0));
    assert_eq!(lines.position_tsc(5), pos(1, 2));
    assert_eq!(lines.position_tsc(7), pos(2, 0));
    assert_eq!(lines.position_tsc(8), pos(3, 0));
    assert_eq!(lines.position_tsc(20), pos(3, 12));
    assert_eq!(LineIndex::new("").position_tsc(4), pos(0, 4));
}

#[test]
fn lengths_and_slices() {
    let text = "a\u{1f600}bé";
    assert_eq!(utf16_length(text), 5);
    assert_eq!(slice(text, 0, 5), text);
    assert_eq!(slice(text, 1, 3), "\u{1f600}");
    assert_eq!(format!("{}{}", slice(text, 0, 3), slice(text, 3, 5)), text);
    assert_eq!(slice(text, 2, 2), "");
    assert_eq!(slice(text, 4, 1), "");
    assert_eq!(slice(text, 4, 100), "é");
}

#[test]
fn spans_to_ranges() {
    let lines = LineIndex::new("one\ntwo\n");
    assert_eq!(span(1, 4).to_range(&lines), range((0, 1), (1, 1)));
    assert_eq!(span(4, 0).to_range(&lines), range((1, 0), (1, 0)));
}

#[test]
fn hovers() {
    let lines = LineIndex::new("abc");
    let mut info = QuickInfo {
        kind: ScriptElementKind::ConstElement,
        kind_modifiers: String::new(),
        text_span: span(0, 3),
        display_parts: Some(vec![part("const "), part("a")]),
        documentation: Some(vec![part("Docs.")]),
        tags: Some(vec![
            JSDocTagInfo { name: "deprecated".to_string(), text: None },
            JSDocTagInfo { name: "see".to_string(), text: Some("b".to_string()) },
        ]),
    };
    let hover = info.to_hover(&lines);
    assert_eq!(hover.range, Some(range((0, 0), (0, 3))));
    assert_eq!(hover.contents.len(), 3);
    match &hover.contents[0] {
        MarkedString::Code { language, value } => {
            assert_eq!((language.as_str(), value.as_str()), ("typescript", "const a"));
        }
        _ => panic!("no code"),
    }
    match (&hover.contents[1], &hover.contents[2]) {
        (MarkedString::Markdown(a), MarkedString::Markdown(b)) => {
            assert_eq!(a, "Docs.");
            assert_eq!(b, "\n\n*@deprecated*  \n\n*@see* - b");
        }
        _ => panic!("no markdown"),
    }
    info.tags = Some(vec![]);
    info.display_parts = None;
    info.documentation = None;
    assert_eq!(info.to_hover(&lines).contents.len(), 0);
}

fn document_span(file: &str) -> DocumentSpan {
    DocumentSpan {
        text_span: span(4, 3),
        file_name: file.to_string(),
        original_text_span: None,
        original_file_name: None,
        context_span: None,
        original_context_span: None,
    }
}

#[test]
fn links() {
    let lines = LineIndex::new("0123456789");
    let target = || LinkTarget {
        uri: "file:///b.ts".to_string(),
        line_index: LineIndex::new("one\ntwo\nthree"),
    };
    let mut document = document_span("file:///b.ts");
    assert_eq!(document.specifier().unwrap(), "file:///b.ts");
    assert!(document.to_link(&lines, &None).is_none());
    let link = document.to_link(&lines, &Some(target())).unwrap();
    assert_eq!(link.target_uri, "file:///b.ts");
    assert_eq!(link.target_range, range((1, 0), (1, 3)));
    assert_eq!(link.target_selection_range, range((1, 0), (1, 3)));
    assert_eq!(link.origin_selection_range, None);
    document.context_span = Some(span(0, 8));
    document.original_text_span = Some(span(1, 2));
    let link = document.to_link(&lines, &Some(target())).unwrap();
    assert_eq!(link.target_range, range((0, 0), (2, 0)));
    assert_eq!(link.target_selection_range, range((1, 0), (1, 3)));
    assert_eq!(link.origin_selection_range, Some(range((0, 1), (0, 3))));
    document.original_context_span = Some(span(0, 4));
    let link = document.to_link(&lines, &Some(target())).unwrap();
    assert_eq!(link.origin_selection_range, Some(range((0, 0), (0, 4))));
    let implementation = ImplementationLocation {
        document_span: document,
        kind: ScriptElementKind::ClassElement,
        display_parts: vec![],
    };
    assert!(implementation.to_link(&lines, &Some(target())).is_some());
    let location = implementation.to_location(&lines, "file:///c.ts");
    assert_eq!((location.uri.as_str(), location.range), ("file:///c.ts", range((0, 4), (0, 7))));
    let reference = ReferenceEntry {
        is_write_access: false,
        is_definition: true,
        is_in_string: None,
        document_span: document_span("file:///d.ts"),
    };
    assert_eq!(reference.specifier().unwrap(), "file:///d.ts");
    assert_eq!(reference.to_location(&lines, "u").range, range((0, 4), (0, 7)));
}

#[test]
fn definitions() {
    let lines = LineIndex::new("x");
    let info = |file: &str| DefinitionInfo {
        kind: ScriptElementKind::Alias,
        name: String::new(),
        container_kind: None,
        container_name: None,
        document_span: document_span(file),
    };
    let bound = DefinitionInfoAndBoundSpan {
        definitions: Some(vec![info("file:///a.ts"), info("file:///b.ts")]),
        text_span: span(0, 1),
    };
    let target =
        LinkTarget { uri: "file:///b.ts".to_string(), line_index: LineIndex::new("") };
    let links = bound.to_definition(&lines, &vec![None, Some(target)]).unwrap();
    assert_eq!(links.len(), 1);
    assert_eq!(links[0].target_uri, "file:///b.ts");
    let none = DefinitionInfoAndBoundSpan { definitions: None, text_span: span(0, 1) };
    assert!(none.to_definition(&lines, &vec![]).is_none());
}

#[test]
fn highlights() {
    let lines = LineIndex::new("abc");
    let h = |kind| HighlightSpan {
        file_name: None,
        is_in_string: None,
        text_span: span(1, 1),
        context_span: None,
        kind,
    };
    let highlights = DocumentHighlights {
        file_name: String::new(),
        highlight_spans: vec![
            h(HighlightSpanKind::WrittenReference),
            h(HighlightSpanKind::Reference),
            h(HighlightSpanKind::Unspecified),
            h(HighlightSpanKind::Definition),
        ],
    };
    let r = highlights.to_highlight(&lines);
    let kinds: Vec<_> = r.iter().map(|h| h.kind).collect();
    assert_eq!(
        kinds,
        vec![
            DocumentHighlightKind::Write,
            DocumentHighlightKind::Read,
            DocumentHighlightKind::Read,
            DocumentHighlightKind::Read
        ]
    );
    assert_eq!(r[0].range, range((0, 1), (0, 2)));
}

fn tree(text: &str, children: Option<Vec<NavigationTree>>) -> NavigationTree {
    NavigationTree {
        text: text.to_string(),
        kind: ScriptElementKind::ClassElement,
        kind_modifiers: String::new(),
        spans: vec![],
        name_span: None,
        child_items: children,
    }
}

#[test]
fn walks_visit_every_element_in_order() {
    let root = tree(
        "root",
        Some(vec![
            tree("a", Some(vec![tree("a1", None), tree("a2", Some(vec![]))])),
            tree("b", None),
        ]),
    );
    let list = root.visit_list();
    assert_eq!(list.len(), 5);
    assert_eq!((list[2].0.text.as_str(), list[2].1.unwrap().text.as_str()), ("a1", "a"));
    assert!(list[0].1.is_none());
    let seen = RefCell::new(Vec::new());
    root.walk(&|node: &NavigationTree, parent: Option<&NavigationTree>| {
        seen.borrow_mut().push((node.text.clone(), parent.map(|p| p.text.clone())));
    });
    let expected = [
        ("root", None),
        ("a", Some("root")),
        ("a1", Some("a")),
        ("a2", Some("a")),
        ("b", Some("root")),
    ];
    let seen = seen.into_inner();
    assert_eq!(seen.len(), expected.len());
    for (got, want) in seen.iter().zip(expected.iter()) {
        assert_eq!(got.0, want.0);
        assert_eq!(got.1.as_deref(), want.1);
    }
}

#[test]
fn walks_below_an_element() {
    let parent = tree("parent", None);
    let child = tree("child", Some(vec![tree("leaf", None)]));
    let seen = RefCell::new(Vec::new());
    child.walk_child(
        &|node: &NavigationTree, above: Option<&NavigationTree>| {
            seen.borrow_mut().push(format!("{} in {}", node.text, above.unwrap().text));
        },
        &parent,
    );
    assert_eq!(seen.into_inner(), vec!["child in parent", "leaf in child"]);
}

#[test]
fn code_lenses() {
    let lines = LineIndex::new("ab\ncd");
    let mut node = tree("n", None);
    let lens = node.to_code_lens(&lines, "file:///a.ts", Json::Text("references".to_string()));
    assert_eq!(lens.range, range((0, 0), (0, 0)));
    match lens.data {
        Json::Object(members) => {
            assert_eq!(members[0].0, "specifier");
            assert_eq!(members[1].0, "source");
            match (&members[0].1, &members[1].1) {
                (Json::Text(a), Json::Text(b)) => {
                    assert_eq!((a.as_str(), b.as_str()), ("file:///a.ts", "references"));
                }
                _ => panic!("no texts"),
            }
        }
        _ => panic!("no object"),
    }
    node.spans = vec![span(3, 2), span(0, 1)];
    assert_eq!(node.to_code_lens(&lines, "", Json::Null).range, range((1, 0), (1, 2)));
    node.name_span = Some(span(0, 1));
    assert_eq!(node.to_code_lens(&lines, "", Json::Null).range, range((0, 0), (0, 1)));
}

#[test]
fn renames() {
    let location = |file: &str, start: u32| {
        let mut document = document_span(file);
        document.text_span = span(start, 1);
        RenameLocation { document_span: document, prefix_text: None, suffix_text: None }
    };
    let target = |uri: &str, version: Option<i32>| RenameTarget {
        uri: uri.to_string(),
        version,
        line_index: LineIndex::new("abc"),
    };
    let locations = RenameLocations {
        locations: vec![
            location("file:///a.ts", 0),
            location("file:///b.ts", 1),
            location("file:///a.ts", 2),
        ],
    };
    assert_eq!(locations.specifier(1).unwrap(), "file:///b.ts");
    let targets = vec![
        target("file:///a.ts", Some(1)),
        target("file:///b.ts", None),
        target("file:///a.ts", Some(1)),
    ];
    let edit = locations.into_workspace_edit("new", &targets);
    assert_eq!(edit.document_changes.len(), 2);
    let a = &edit.document_changes[0];
    assert_eq!((a.uri.as_str(), a.version, a.edits.len()), ("file:///a.ts", Some(1), 2));
    assert_eq!(a.edits[0].range, range((0, 0), (0, 1)));
    assert_eq!(a.edits[1].range, range((0, 2), (0, 3)));
    assert_eq!(a.edits[1].new_text, "new");
    let b = &edit.document_changes[1];
    assert_eq!((b.uri.as_str(), b.version, b.edits.len()), ("file:///b.ts", None, 1));
}

#[test]
fn file_changes() {
    let lines = LineIndex::new("abc");
    let mut changes = FileTextChanges {
        file_name: "file:///x/../a.ts".to_string(),
        text_changes: vec![TextChange { span: span(1, 1), new_text: "z".to_string() }],
        is_new_file: None,
    };
    assert_eq!(changes.specifier().unwrap(), "file:///a.ts");
    let edit = changes.to_text_document_edit(&lines, Some(4)).unwrap();
    assert_eq!((edit.uri.as_str(), edit.version), ("file:///a.ts", Some(4)));
    assert_eq!(edit.edits[0].range, range((0, 1), (0, 2)));
    assert_eq!(edit.edits[0].new_text, "z");
    changes.file_name = "a.ts".to_string();
    let error = changes.to_text_document_edit(&lines, None).unwrap_err();
    assert_eq!(error.message, "invalid URL: relative URL without a base");
}

fn entry(kind: ScriptElementKind, name: &str) -> CompletionEntry {
    CompletionEntry {
        kind,
        kind_modifiers: None,
        name: name.to_string(),
        sort_text: "0".to_string(),
        insert_text: None,
        replacement_span: None,
        has_action: None,
        source: None,
        is_recommended: None,
    }
}

#[test]
fn completions_are_offered() {
    let lines = LineIndex::new("abc");
    let item = entry(ScriptElementKind::FunctionElement, "f").into_completion_item(&lines);
    assert_eq!(item.label, "f");
    assert_eq!(item.kind, CompletionItemKind::Function);
    assert!(item.snippet);
    assert_eq!((item.insert_text, item.filter_text, item.preselect), (None, None, None));
    assert!(item.text_edit.is_none());

    let mut optional = entry(ScriptElementKind::MemberVariableElement, "p");
    optional.kind_modifiers = Some("public\\optional\\".to_string());
    optional.source = Some("mod".to_string());
    let item = optional.into_completion_item(&lines);
    assert_eq!(item.label, "p?");
    assert_eq!(item.insert_text.as_deref(), Some("p"));
    assert_eq!(item.filter_text.as_deref(), Some("p"));
    assert_eq!(item.sort_text, "\u{ffff}0");
    assert!(!item.snippet);

    let mut replaced = entry(ScriptElementKind::Keyword, "k");
    replaced.insert_text = Some("new".to_string());
    replaced.replacement_span = Some(span(1, 2));
    replaced.is_recommended = Some(true);
    replaced.source = Some("mod".to_string());
    let item = replaced.into_completion_item(&lines);
    assert_eq!((item.preselect, item.sort_text.as_str()), (Some(true), "0"));
    assert_eq!(item.insert_text, None);
    let edit = item.text_edit.unwrap();
    assert_eq!((edit.range, edit.new_text.as_str()), (range((0, 1), (0, 3)), "new"));

    let mut spanned = entry(ScriptElementKind::Label, "l");
    spanned.replacement_span = Some(span(0, 1));
    let item = spanned.into_completion_item(&lines);
    assert!(item.text_edit.is_none() && item.insert_text.is_none());
    assert_eq!(item.kind, CompletionItemKind::Property);

    let info = CompletionInfo {
        entries: vec![
            entry(ScriptElementKind::LetElement, "a"),
            entry(ScriptElementKind::EnumElement, "b"),
        ],
        is_member_completion: false,
    };
    let items = info.into_completion_response(&lines);
    let labels: Vec<_> = items.iter().map(|i| (i.label.as_str(), i.kind)).collect();
    assert_eq!(
        labels,
        vec![("a", CompletionItemKind::Variable), ("b", CompletionItemKind::Enum)]
    );
}

#[test]
fn kinds_of_completions() {
    let kind = |k: ScriptElementKind| CompletionItemKind::from(k);
    assert_eq!(kind(ScriptElementKind::PrimitiveType), CompletionItemKind::Keyword);
    assert_eq!(kind(ScriptElementKind::String), CompletionItemKind::Constant);
    assert_eq!(kind(ScriptElementKind::IndexSignatureElement), CompletionItemKind::Method);
    assert_eq!(kind(ScriptElementKind::ExternalModuleName), CompletionItemKind::Module);
    assert_eq!(kind(ScriptElementKind::TypeElement), CompletionItemKind::Class);
    assert_eq!(kind(ScriptElementKind::Warning), CompletionItemKind::File);
    assert_eq!(kind(ScriptElementKind::Directory), CompletionItemKind::Folder);
    assert_eq!(kind(ScriptElementKind::Unknown), CompletionItemKind::Property);
}

#[test]
fn signatures() {
    let parameter = |name: &str| SignatureHelpParameter {
        name: name.to_string(),
        documentation: vec![part("doc "), part(name)],
        display_parts: vec![part(name), part(": T")],
        is_optional: false,
    };
    let items = SignatureHelpItems {
        items: vec![SignatureHelpItem {
            is_variadic: false,
            prefix_display_parts: vec![part("f(")],
            suffix_display_parts: vec![part("): void")],
            separator_display_parts: vec![part(";")],
            parameters: vec![parameter("a"), parameter("b")],
            documentation: vec![part("Calls.")],
            tags: vec![],
        }],
        applicable_span: span(0, 0),
        selected_item_index: 3,
        argument_index: 1,
        argument_count: 2,
    };
    let help = items.into_signature_help();
    assert_eq!((help.active_signature, help.active_parameter), (3, 1));
    let signature = &help.signatures[0];
    assert_eq!(signature.label, "f(a: T, b: T): void");
    assert_eq!(signature.documentation, "Calls.");
    assert_eq!(signature.parameters[1].label, "b: T");
    assert_eq!(signature.parameters[1].documentation, "doc b");
}

#[test]
fn assets() {
    let asset = AssetDocument::new("a\nb");
    assert_eq!((asset.text.as_str(), asset.length), ("a\nb", 3));
    assert_eq!(asset.line_index.position_tsc(2), pos(1, 0));
    let list = vec![("lib.a.d.ts".to_string(), "x".to_string())];
    let mut assets = Assets::from_static(&list).unwrap();
    assert!(assets.contains_key("asset:///lib.a.d.ts"));
    assert!(assets.get("asset:///lib.b.d.ts").is_none());
    let before = assets.insert("asset:///lib.a.d.ts".to_string(), None);
    assert_eq!(before.unwrap().unwrap().text, "x");
    assert!(assets.get("asset:///lib.a.d.ts").unwrap().is_none());
    assert!(assets.insert("asset:///n".to_string(), None).is_none());
    assert_eq!(static_asset_name("asset:///lib.a.d.ts"), "lib.a.d.ts");
    assert_eq!(asset_from_isolate(Some("i")).unwrap().text, "i");
    assert!(asset_from_isolate(None).is_none());
}

#[test]
fn steps_of_getting_an_asset() {
    let mut assets = Assets::new();
    let step = |text: Option<&str>, assets: &Assets| {
        match next_asset_step("asset:///lib.a.d.ts", text, assets) {
            AssetStep::Found(asset) => asset.text,
            AssetStep::AskIsolate(specifier) => format!("ask for {}", specifier),
        }
    };
    assert_eq!(step(None, &assets), "ask for asset:///lib.a.d.ts");
    assert_eq!(step(Some("static"), &assets), "static");
    assets.insert("asset:///lib.a.d.ts".to_string(), None);
    assert_eq!(step(None, &assets), "ask for asset:///lib.a.d.ts");
    assets.insert("asset:///lib.a.d.ts".to_string(), Some(AssetDocument::new("retrieved")));
    assert_eq!(step(None, &assets), "retrieved");
    assert_eq!(step(Some("static"), &assets), "static");
    let (a, b) = ("a\u{1f600}", "\nb");
    assert_eq!(AssetDocument::new(a).length + AssetDocument::new(b).length, 5);
    assert_eq!(AssetDocument::new(&format!("{}{}", a, b)).length, 5);
}

#[test]
fn urls_are_normalized() {
    assert_eq!(resolve_url("HTTPS://Example.com/a/../b").unwrap(), "https://example.com/b");
    assert_eq!(
        resolve_url("x").unwrap_err().message,
        "invalid URL: relative URL without a base"
    );
}
