use deno_parts::error::bad_resource_id;
use deno_parts::fs::FileSystemHandle;
use deno_parts::fs::FileSystemHandleKind;
use deno_parts::http::begin_response;
use deno_parts::http::end_response;
use deno_parts::http::extract_host;
use deno_parts::http::header_to_str;
use deno_parts::http::next_request;
use deno_parts::http::plan_response;
use deno_parts::http::respond;
use deno_parts::http::respond_json;
use deno_parts::http::start_json;
use deno_parts::http::HttpVersion;
use deno_parts::http::RequestHead;
use deno_parts::http::ResponseBody;
use deno_parts::js::may_start;
use deno_parts::js::DENO_RT_SNAPSHOT_SECTION_NAME;
use deno_parts::lsp::json::Json;
use deno_parts::lsp::rooted::is_rooted;
use deno_parts::lsp::rooted::rooted_url;
use deno_parts::lsp::session::choose_import_map_url;
use deno_parts::lsp::session::import_map_load_error;
use deno_parts::lsp::session::import_map_url;
use deno_parts::lsp::session::next_lookup;
use deno_parts::lsp::session::rooted_path;
use deno_parts::lsp::session::LookupEvent;
use deno_parts::lsp::session::LookupStep;
use deno_parts::lsp::session::logs_method_only;
use deno_parts::lsp::session::DocumentData;
use deno_parts::lsp::session::ImportMapFile;
use deno_parts::lsp::session::RequestId;
use deno_parts::lsp::session::RootLookup;
use deno_parts::lsp::session::ServerState;
use deno_parts::lsp::session::Status;
use deno_parts::text::decimal_string;
use deno_parts::text::hexadecimal_string;
use deno_parts::text::join;
use deno_parts::text::signed_decimal_string;
use deno_parts::text::str_contains;
use deno_parts::text::str_eq;
use deno_parts::text::str_starts_with;
use deno_parts::text::str_without;
use deno_parts::text::utf8_text;
use deno_parts::media_type::MediaType;
use deno_parts::resources::ResourceKind;
use deno_parts::resources::ResourceTable;
use deno_parts::transpile::cache_files;
use deno_parts::transpile::classify;
use deno_parts::transpile::files_of_kind;
use deno_parts::transpile::finish_transpile;
use deno_parts::transpile::from_cache;
use deno_parts::transpile::js_file;
use deno_parts::transpile::map_file;
use deno_parts::transpile::maybe_transpile_source;
use deno_parts::transpile::outcome_of_kind;
use deno_parts::transpile::source_kind;
use deno_parts::transpile::store_steps;
use deno_parts::transpile::strip_mark;
use deno_parts::transpile::transpile_source;
use deno_parts::transpile::CacheLookup;
use deno_parts::transpile::FileStep;
use deno_parts::transpile::ModuleSource;
use deno_parts::transpile::SourceKind;
use deno_parts::transpile::SourceOutcome;
use std::collections::HashMap;

fn s(text: &str) -> String {
    text.to_string()
}

fn head(version: HttpVersion) -> RequestHead {
    RequestHead {
        version,
        method: s("GET"),
        uri_host: Some(s("uri.host")),
        uri_port: Some(8080),
        path_and_query: s("/p?q=1"),
        headers: vec![
            (s("accept"), b"*/*".to_vec()),
            (s("host"), b"header.host:1".to_vec()),
            (s("host"), b"second".to_vec()),
            (s("x"), vec![0xff]),
        ],
        exact_body_size: Some(0),
    }
}

#[test]
fn hosts_of_requests() {
    assert_eq!(extract_host(&head(HttpVersion::Http2)), Some(s("uri.host:8080")));
    assert_eq!(extract_host(&head(HttpVersion::Other)), Some(s("header.host:1")));
    let mut h = head(HttpVersion::Http2);
    h.uri_port = None;
    assert_eq!(extract_host(&h), Some(s("uri.host")));
    h.uri_host = None;
    assert_eq!(extract_host(&h), None);
    let mut h = head(HttpVersion::Other);
    h.headers[1].1 = vec![0x80];
    assert_eq!(extract_host(&h), None);
    h.headers = vec![];
    assert_eq!(extract_host(&h), None);
}

#[test]
fn headers_as_text() {
    assert_eq!(header_to_str(&b"a b\t~".to_vec()), Some(s("a b\t~")));
    assert_eq!(header_to_str(&vec![127]), None);
    assert_eq!(header_to_str(&vec![31]), None);
    assert_eq!(header_to_str(&vec![]), Some(s("")));
    for b in 0..=255u8 {
        let outside = hyper::header::HeaderValue::from_bytes(&[b]);
        if let Ok(value) = outside {
            assert_eq!(
                value.to_str().ok().map(|t| t.to_string()),
                header_to_str(&vec![b])
            );
        }
    }
}

#[test]
fn requests_for_javascript() {
    let request = next_request(&head(HttpVersion::Other));
    assert_eq!(request.url, "https://header.host:1/p?q=1");
    assert_eq!(request.headers.len(), 4);
    assert_eq!(request.headers[3], (s("x"), s("")));
    assert!(!request.has_body);
    let mut h = head(HttpVersion::Http2);
    h.exact_body_size = None;
    assert!(next_request(&h).has_body);
    h.exact_body_size = Some(3);
    assert!(next_request(&h).has_body);
    match request.to_json(None, 5) {
        Json::Object(members) => {
            let names: Vec<_> = members.iter().map(|m| m.0.as_str()).collect();
            assert_eq!(
                names,
                vec!["requestBodyRid", "responseSenderRid", "method", "headers", "url"]
            );
            assert!(matches!(members[0].1, Json::Null));
            assert!(matches!(&members[1].1, Json::Number(n) if n == "5"));
            match &members[3].1 {
                Json::Array(pairs) => assert_eq!(pairs.len(), 4),
                _ => panic!("no headers"),
            }
        }
        _ => panic!("no object"),
    }
}

#[test]
fn errors_say_their_class() {
    let error = bad_resource_id();
    assert_eq!(
        (error.class.as_str(), error.message.as_str()),
        ("BadResource", "Bad resource ID")
    );
}

#[test]
fn responses() {
    let headers = vec![(s("x-a"), s("b"))];
    assert!(matches!(respond(200, &headers, &vec![]), Ok(ResponseBody::Stream)));
    assert!(matches!(
        respond(200, &headers, &vec![vec![1, 2]]),
        Ok(ResponseBody::Full(b)) if b == vec![1, 2]
    ));
    let error = respond(99, &headers, &vec![]).unwrap_err();
    assert_eq!((error.class.as_str(), error.message.as_str()), ("Error", "invalid status code"));
    let error = respond(200, &vec![(s("bad name"), s("b"))], &vec![]).unwrap_err();
    assert_eq!(error.message, "invalid HTTP header name");
    let error = plan_response(Some(s("no")), &vec![]).unwrap_err();
    assert_eq!(error.message, "no");
    assert!(matches!(respond_json(Some(3)), Json::Object(m) if m[0].0 == "responseBodyRid"));
    assert!(matches!(start_json(3), Json::Object(m) if m[0].0 == "rid"));
}

#[test]
fn resources_are_taken_once() {
    let mut table = ResourceTable::new();
    let sender = table.add_resource(ResourceKind::ResponseSender, "sender");
    let body = table.add_resource(ResourceKind::RequestBody, "body");
    assert_eq!((sender, body), (0, 1));
    assert_eq!(*table.get(sender, ResourceKind::ResponseSender).unwrap(), "sender");
    let error = table.get(sender, ResourceKind::HttpListener).unwrap_err();
    assert_eq!((error.class.as_str(), error.message.as_str()), ("BadResource", "Bad resource ID"));
    assert!(table.take(body, ResourceKind::ResponseSender).is_err());
    assert_eq!(table.take(sender, ResourceKind::ResponseSender).unwrap(), "sender");
    let error = table.take(sender, ResourceKind::ResponseSender).unwrap_err();
    assert_eq!(error.class, "BadResource");
    assert_eq!(table.add_resource(ResourceKind::ResponseSender, "next"), 2);
    assert!(table.take(sender, ResourceKind::ResponseSender).is_err());
    assert_eq!(*table.get(body, ResourceKind::RequestBody).unwrap(), "body");
    assert!(table.has_room());
}

#[test]
fn requests_are_answered_once() {
    let mut table = ResourceTable::new();
    let rid = table.add_resource(ResourceKind::ResponseSender, "sender");
    let headers = vec![(s("a"), s("b"))];
    let (sender, body) = begin_response(&mut table, rid, 200, &headers, &vec![]).unwrap();
    assert_eq!(sender, "sender");
    assert!(matches!(body, ResponseBody::Stream));
    match end_response(&mut table, Some("stream")) {
        Json::Object(members) => {
            assert_eq!(members[0].0, "responseBodyRid");
            assert!(matches!(&members[0].1, Json::Number(n) if n == "1"));
        }
        _ => panic!("no object"),
    }
    assert_eq!(*table.get(1, ResourceKind::ResponseBody).unwrap(), "stream");
    let error = begin_response(&mut table, rid, 200, &headers, &vec![]).unwrap_err();
    assert_eq!(error.class, "BadResource");
    let rid = table.add_resource(ResourceKind::ResponseSender, "other");
    assert!(begin_response(&mut table, rid, 99, &headers, &vec![vec![1]]).is_err());
    assert!(table.get(rid, ResourceKind::ResponseSender).is_err());
    match end_response(&mut table, None) {
        Json::Object(members) => assert!(matches!(members[0].1, Json::Null)),
        _ => panic!("no object"),
    }
}

#[test]
fn places_in_the_cache() {
    let files = cache_files("ext:a/b.ts", "let a;", true).unwrap();
    assert_eq!(files.js, js_file(files.hash));
    assert_eq!(files.map, Some(map_file(files.hash)));
    let same = cache_files("node:b", "let a;", true).unwrap();
    assert_eq!(same.hash, files.hash);
    assert_ne!(cache_files("ext:a/b.ts", "let b;", true).unwrap().hash, files.hash);
    let without = cache_files("ext:a/b.ts", "let a;", false).unwrap();
    assert_eq!(without.map, None);
    assert_ne!(without.hash, files.hash);
    assert!(cache_files("ext:a/b.js", "let a;", true).is_none());
    assert!(cache_files("ext:a/b.json", "{}", true).is_none());
    assert!(files_of_kind("x", MediaType::Mts, 1, false).is_none());
    assert_eq!(files_of_kind("x", MediaType::TypeScript, 255, false).unwrap().js, "ff.js");
}

#[test]
fn kinds_of_sources() {
    assert!(matches!(classify("node:fs"), SourceKind::TypeScript));
    assert!(matches!(classify("ext:a/b.ts"), SourceKind::TypeScript));
    assert!(matches!(classify("ext:a/b.js"), SourceKind::JavaScript));
    assert!(matches!(classify("ext:a/b.mjs"), SourceKind::JavaScript));
    match classify("ext:a/b.json") {
        SourceKind::Unsupported(message) => assert_eq!(
            message,
            "Unsupported media type for snapshotting Json for file ext:a/b.json"
        ),
        _ => panic!("supported"),
    }
    match classify("ext:a/b.d.ts") {
        SourceKind::Unsupported(message) => assert!(message.contains(" Dts ")),
        _ => panic!("supported"),
    }
    assert!(matches!(source_kind("node:x", MediaType::Json), SourceKind::TypeScript));
    assert!(matches!(source_kind("x", MediaType::Mts), SourceKind::Unsupported(_)));
}

#[test]
fn sources_are_compiled() {
    let source = transpile_source("ext:a/b.ts", "const a: number = 1;\nexport { a };\n", false)
        .unwrap()
        .unwrap();
    assert_eq!(source.text, "const a = 1;\nexport { a };\n");
    assert!(source.source_map.is_none());
    let source = transpile_source("ext:a/b.ts", "export const a: number = 1;", true)
        .unwrap()
        .unwrap();
    assert!(source.source_map.is_some());
    assert!(transpile_source("b.ts", "", false).is_none());
    let error = transpile_source("ext:a/b.ts", "const = ;", false).unwrap().unwrap_err();
    assert_eq!(error.class, "Error");
    let error = finish_transpile(vec![0xff], None).unwrap_err();
    assert_eq!(error.message, "invalid utf-8 sequence of 1 bytes from index 0");
    assert_eq!(finish_transpile(vec![0x61], Some(vec![1])).unwrap().text, "a");
}

#[test]
fn cached_sources_are_not_compiled() {
    let lookup = |js: Option<&str>, map: Option<Vec<u8>>| CacheLookup {
        hash: 16,
        suffix: 1,
        js: js.map(|t| t.to_string()),
        map,
    };
    let ready = |outcome: SourceOutcome| match outcome {
        SourceOutcome::Ready(t) => t,
        _ => panic!("not ready"),
    };
    let cached = ready(maybe_transpile_source(
        "no url.ts",
        s("let a;"),
        false,
        lookup(Some("cached"), None),
    ));
    assert_eq!((cached.source.text.as_str(), cached.store.len()), ("cached", 0));
    let cached = ready(maybe_transpile_source("node:fs", s(""), false, lookup(Some("x"), None)));
    assert_eq!(cached.source.text, "x");
    let fresh = ready(maybe_transpile_source(
        "ext:a.ts",
        s("let a: T;"),
        true,
        lookup(Some("x"), None),
    ));
    assert_eq!(fresh.source.text, "let a;\n");
    assert_eq!(fresh.store.len(), 4);
    match &fresh.store[2] {
        FileStep::Rename { from, to } => {
            assert_eq!((from.as_str(), to.as_str()), ("10-1.js", "10.js"));
        }
        _ => panic!("not a rename"),
    }
    assert!(matches!(
        maybe_transpile_source("no url.ts", s(""), false, lookup(None, None)),
        SourceOutcome::NotCompilable
    ));
    let marked = ready(maybe_transpile_source(
        "ext:a.ts",
        s("\u{feff}let a: T;"),
        false,
        lookup(None, None),
    ));
    assert_eq!(marked.source.text, "let a;\n");
    assert!(matches!(
        maybe_transpile_source("ext:a.ts", s("\u{feff}\u{feff}a;"), false, lookup(None, None)),
        SourceOutcome::NotCompilable
    ));
    assert_eq!((strip_mark("\u{feff}\u{feff}a"), strip_mark("a\u{feff}")), ("\u{feff}a", "a\u{feff}"));
    assert!(matches!(
        maybe_transpile_source("ext:a.ts", s("("), false, lookup(None, None)),
        SourceOutcome::Failed(_)
    ));
}

#[test]
fn scripts_stay_as_they_are() {
    let lookup = || CacheLookup { hash: 1, suffix: 2, js: Some(s("cached")), map: Some(vec![1]) };
    for name in ["ext:foo/a.js", "a.mjs", "/x/y/z0.JS", "ext:b.c/a.d.js"] {
        match maybe_transpile_source(name, s("\u{feff}let a: T;"), true, lookup()) {
            SourceOutcome::Ready(t) => {
                assert_eq!(t.source.text, "\u{feff}let a: T;");
                assert!(t.source.source_map.is_none());
                assert!(t.store.is_empty());
            }
            _ => panic!("not ready"),
        }
    }
    match maybe_transpile_source("ext:a/b.json", s("{}"), false, lookup()) {
        SourceOutcome::Unsupported(message) => assert_eq!(
            message,
            "Unsupported media type for snapshotting Json for file ext:a/b.json"
        ),
        _ => panic!("supported"),
    }
    match outcome_of_kind("x", s("a"), MediaType::Mjs, false, lookup()) {
        SourceOutcome::Ready(t) => assert_eq!(t.source.text, "a"),
        _ => panic!("not ready"),
    }
}

#[test]
fn types_of_plain_paths() {
    let unsupported = |name: &str, of: &str| match classify(name) {
        SourceKind::Unsupported(message) => assert_eq!(
            message,
            format!("Unsupported media type for snapshotting {} for file {}", of, name)
        ),
        _ => panic!("supported"),
    };
    unsupported("ext:a/b.mts", "Mts");
    unsupported("ext:a/b.d.mts", "Dmts");
    unsupported("ext:a/b.cts", "Cts");
    unsupported("ext:a/b.d.cts", "Dcts");
    unsupported("ext:a/b.tsx", "Tsx");
    unsupported("ext:a/b.jsx", "Jsx");
    unsupported("ext:a/b.cjs", "Cjs");
    unsupported("ext:a/b.wasm", "Wasm");
    unsupported("ext:a/b.tsbuildinfo", "TsBuildInfo");
    unsupported("ext:a/b.js.map", "SourceMap");
    unsupported("ext:a/b.d.x.ts", "Dts");
    unsupported("ext:a.ts/b", "Unknown");
    unsupported("ext:a/b.", "Unknown");
    unsupported("ext:a/b.mp4", "Unknown");
    unsupported("ext:a/B.d.TS", "Dts");
    unsupported("ext:a/B.JSON", "Json");
    unsupported("ext:a/b.c-d", "Unknown");
    assert!(matches!(classify("ext:a/B.D.TS"), SourceKind::TypeScript));
    assert!(matches!(classify("ext:a/b.d.x.TS"), SourceKind::TypeScript));
    assert!(matches!(classify("ext:a/A.Ts"), SourceKind::TypeScript));
    assert!(matches!(classify("ext:a/A.MJS"), SourceKind::JavaScript));
    assert!(matches!(classify("ext:a.d/b.ts"), SourceKind::TypeScript));
    assert!(matches!(classify("ext:a/bd.ts"), SourceKind::TypeScript));
    assert!(matches!(classify("ext:a/b.dd.ts"), SourceKind::TypeScript));
}

#[test]
fn names_of_cached_files() {
    assert_eq!(js_file(0xabc0), "abc0.js");
    assert_eq!(map_file(0), "0.js.map");
    assert_eq!(js_file(u64::MAX), "ffffffffffffffff.js");
}

#[test]
fn stored_sources_are_found() {
    for map in [None, Some(vec![1u8, 2])] {
        let source = ModuleSource { text: s("let é;"), source_map: map.clone() };
        let mut files: HashMap<String, Vec<u8>> = HashMap::new();
        for step in store_steps(255, 42, &source) {
            match step {
                FileStep::Write { name, bytes } => {
                    assert!(name.starts_with("ff-42.js"));
                    files.insert(name, bytes);
                }
                FileStep::Rename { from, to } => {
                    let bytes = files.remove(&from).unwrap();
                    files.insert(to, bytes);
                }
            }
        }
        assert_eq!(files.len(), if map.is_some() { 2 } else { 1 });
        let js = files.get(&js_file(255)).map(|b| String::from_utf8(b.clone()).unwrap());
        let found = from_cache(js, map.is_some(), files.get(&map_file(255)).cloned()).unwrap();
        assert_eq!((found.text, found.source_map), (s("let é;"), map));
    }
    assert!(from_cache(None, false, None).is_none());
    assert!(from_cache(Some(s("a")), true, None).is_none());
    assert!(from_cache(Some(s("a")), false, Some(vec![1])).unwrap().source_map.is_none());
}

#[test]
fn requests_of_the_editor_are_answered_once() {
    let mut state = ServerState::new();
    let id = RequestId::Text(s("a"));
    state.register_request(&id, "m", 5);
    state.register_request(&RequestId::Number(1), "n", 6);
    assert!(state.respond(&id));
    assert!(!state.respond(&id));
    assert!(state.cancel(&id).is_none());
    let cancellation = state.cancel(&RequestId::Number(1)).unwrap();
    assert_eq!((cancellation.code, cancellation.message.as_str()), (-32800, "canceled by client"));
    assert!(!state.respond(&RequestId::Number(1)));
}

#[test]
fn requests_to_the_editor_are_numbered() {
    let mut state = ServerState::new();
    let a = state.send_request("a", Json::Null, 10);
    let b = state.send_request("b", Json::Bool(true), 20);
    assert_eq!((a.id, b.id, b.method.as_str()), (0, 1, "b"));
    assert_eq!(state.complete_request(&RequestId::Number(1)), 20);
    assert_eq!(state.complete_request(&RequestId::Number(0)), 10);
}

#[test]
fn sessions() {
    let mut state = ServerState::new();
    assert_eq!(state.status, Status::Loading);
    assert_eq!(Status::default(), Status::Loading);
    state.transition(Status::Ready);
    assert_eq!(state.status, Status::Ready);
    assert!(!state.process_changes());
    state.note_change(s("file:///a.ts"));
    state.note_change(s("file:///b.ts"));
    assert_eq!(state.changed_files.len(), 2);
    assert!(state.process_changes());
    assert!(state.changed_files.is_empty());
    assert!(!state.process_changes());
    let mut document = DocumentData::new(s("file:///a.ts"), 1, None);
    document.update(2, Some(vec![]));
    assert_eq!((document.version, document.dependencies.is_some()), (Some(2), true));
    state.doc_data.push(document);
    let snapshot = state.snapshot();
    state.doc_data[0].update(3, None);
    assert_eq!(snapshot.doc_data[0].version, Some(2));
    assert_eq!(snapshot.doc_data[0].specifier, "file:///a.ts");
    assert!(logs_method_only("textDocument/didOpen"));
    assert!(logs_method_only("textDocument/didChange"));
    assert!(!logs_method_only("textDocument/didClose"));
}

#[test]
fn steps_of_looking_for_an_import_map() {
    let root = Some("file:///root/");
    assert!(matches!(
        next_lookup("map.json", root, LookupEvent::Start),
        LookupStep::UrlOf(path) if path == "map.json"
    ));
    assert!(matches!(
        next_lookup("map.json", root, LookupEvent::Direct(Some(s("file:///map.json")))),
        LookupStep::Done(Ok(url)) if url == "file:///map.json"
    ));
    assert!(matches!(
        next_lookup("map.json", root, LookupEvent::Direct(None)),
        LookupStep::PathOf(url) if url == "file:///root/"
    ));
    assert!(matches!(
        next_lookup("map.json", root, LookupEvent::Root(Some("/root".into()))),
        LookupStep::UrlUnder(root, path) if root.to_str() == Some("/root") && path == "map.json"
    ));
    assert!(matches!(
        next_lookup("map.json", root, LookupEvent::Joined(Some(s("file:///root/map.json")))),
        LookupStep::Done(Ok(url)) if url == "file:///root/map.json"
    ));
    assert!(matches!(
        next_lookup("m", root, LookupEvent::Root(None)),
        LookupStep::Done(Err(e)) if e.message == "Bad root_uri: file:///root/"
    ));
    assert!(matches!(
        next_lookup("m", root, LookupEvent::Joined(None)),
        LookupStep::Done(Err(e)) if e.message == "Bad file path for import map: \"m\""
    ));
    assert!(matches!(
        next_lookup("m", None, LookupEvent::Direct(None)),
        LookupStep::Done(Err(e)) if e.message == "The path to the import map (\"m\") is not resolvable."
    ));
}

#[test]
fn urls_with_a_path_from_the_root() {
    for url in [
        "file:///",
        "file:///a/b",
        "file:///C:/",
        "file:///C:/a",
        "file:///CC:",
        "file:///C:x",
        "file:///1:",
        "file://localhost/",
        "file://host/share",
        "file://host/%2E",
        "file://host/share/C:",
        "https://host/",
        "data:C:",
        "file:///a?/C:",
    ] {
        assert!(is_rooted(url), "{}", url);
        assert_eq!(rooted_url(url).as_deref(), Some(url));
    }
    for url in ["file://host/", "file://host/?/a", "file://host/%2Fa", "file://host/%5c"] {
        assert!(!is_rooted(url), "{}", url);
        assert_eq!(rooted_url(url), None);
        assert_eq!(rooted_path(url), None);
    }
    assert_eq!(rooted_url("file:///C:").as_deref(), Some("file:///C:/"));
    assert_eq!(rooted_url("file:///p:?../").as_deref(), Some("file:///p:/?../"));
    assert_eq!(rooted_url("file:///c%3A#x").as_deref(), Some("file:///c%3A/#x"));
    assert_eq!(rooted_url("foo:/C%3a").as_deref(), Some("foo:/C%3a/"));
    assert_eq!(rooted_url("http://u@localhost:1/C:").as_deref(), Some("http://u@localhost:1/C:/"));
    assert!(is_rooted(&rooted_url("file:///p:?../").unwrap()));
    assert_eq!(rooted_path("no url"), None);
    assert_eq!(rooted_path("file:///C:"), Some("/C:/".into()));
    assert_eq!(rooted_path("file:///a%20b"), Some("/a b".into()));
    assert_eq!(rooted_path("file://host/share"), None);
    assert_eq!(
        import_map_url("map.json", Some("file:///C:")).unwrap(),
        "file:///C:/map.json"
    );
    assert_eq!(
        import_map_url("map.json", Some("file://host/")).unwrap_err().message,
        "Bad root_uri: file://host/"
    );
}

#[test]
fn urls_of_import_maps() {
    assert_eq!(import_map_url("map.json", Some("file:///%FF")).unwrap(), "file:///%FF/map.json");
    assert_eq!(
        import_map_url("map.json", Some("no url")).unwrap_err().message,
        "Bad root_uri: no url"
    );
    assert_eq!(import_map_url("/a/map.json", None).unwrap(), "file:///a/map.json");
    assert_eq!(
        import_map_url("map.json", Some("file:///root/")).unwrap(),
        "file:///root/map.json"
    );
    assert_eq!(
        import_map_url("map.json", None).unwrap_err().message,
        "The path to the import map (\"map.json\") is not resolvable."
    );
    assert_eq!(
        import_map_url("map.json", Some("https://a.b/")).unwrap_err().message,
        "Bad root_uri: https://a.b/"
    );
    let error = choose_import_map_url("a\"b", None, RootLookup::Joined(None)).unwrap_err();
    assert_eq!(error.message, "Bad file path for import map: \"a\\\"b\"");
    assert_eq!(
        import_map_load_error("file:///m", "gone").message,
        "Failed to load the import map at: file:///m. [gone]"
    );
    let mut state = ServerState::new();
    state.set_import_map(Some(ImportMapFile { url: s("file:///m"), json: s("{}") }));
    assert_eq!(state.maybe_import_map.as_deref(), Some("{}"));
    state.set_import_map(None);
    assert_eq!(state.maybe_import_map, None);
    assert_eq!(state.maybe_import_map_uri.as_deref(), Some("file:///m"));
}

#[test]
fn starts_of_the_program() {
    assert_eq!(DENO_RT_SNAPSHOT_SECTION_NAME, "deno_rt_snapshot");
    assert!(may_start(true, false));
    assert!(may_start(false, true));
    assert!(!may_start(false, false));
    let handle = FileSystemHandle { kind: FileSystemHandleKind::File, path: s("/a") };
    assert_eq!((handle.kind, handle.path.as_str()), (FileSystemHandleKind::File, "/a"));
}

#[test]
fn operations_on_text() {
    assert!(str_eq("é", "é"));
    assert!(!str_eq("a", "ab"));
    assert_eq!(decimal_string(0), "0");
    assert_eq!(decimal_string(1230), "1230");
    assert_eq!(hexadecimal_string(0xdead), "dead");
    assert_eq!(signed_decimal_string(i32::MIN), "-2147483648");
    assert_eq!(join(&vec![s("a"), s("b"), s("")], ", "), "a, b, ");
    assert!(str_starts_with("asset:///x", "asset:///"));
    assert!(!str_starts_with("ass", "asset"));
    assert!(str_contains("aéb", "éb"));
    assert!(!str_contains("ab", "ba"));
    assert_eq!(str_without("asset:///asset:///x", "asset:///"), "x");
    assert_eq!(utf8_text(b"a\xc3").unwrap_err(), 1);
    assert_eq!(utf8_text(b"ab").unwrap(), "ab");
}
