use deno_parts::lsp::assets::AssetDocument;
use deno_parts::lsp::assets::Assets;
use deno_parts::lsp::json::json_clone;
use deno_parts::lsp::json::Json;
use deno_parts::lsp::request::init_config;
use deno_parts::lsp::request::init_source;
use deno_parts::lsp::request::request_source;
use deno_parts::lsp::request::EditorTriggerKind;
use deno_parts::lsp::request::ImportModuleSpecifierPreference;
use deno_parts::lsp::request::QuotePreference;
use deno_parts::lsp::request::RequestMethod;
use deno_parts::lsp::request::SignatureHelpItemsOptions;
use deno_parts::lsp::request::SignatureHelpTriggerKind;
use deno_parts::lsp::request::SignatureHelpTriggerReason;
use deno_parts::lsp::request::UserPreferences;
use deno_parts::lsp::server::diagnostics_method;
use deno_parts::lsp::server::diagnostics_request;
use deno_parts::lsp::server::first;
use deno_parts::lsp::server::next;
use deno_parts::lsp::server::Action;
use deno_parts::lsp::server::Event;
use deno_parts::lsp::service::begin_request;
use deno_parts::lsp::service::cache_snapshot_if_present;
use deno_parts::lsp::service::dispose;
use deno_parts::lsp::service::end_request;
use deno_parts::lsp::service::get_change_range_if_present;
use deno_parts::lsp::service::get_length;
use deno_parts::lsp::service::get_text;
use deno_parts::lsp::service::resolve;
use deno_parts::lsp::service::resolve_from_sources;
use deno_parts::lsp::service::resolve_step;
use deno_parts::lsp::service::respond;
use deno_parts::lsp::service::script_names;
use deno_parts::lsp::service::script_version;
use deno_parts::lsp::service::set_asset;
use deno_parts::lsp::service::ChangeRange;
use deno_parts::lsp::service::Dependency;
use deno_parts::lsp::service::Document;
use deno_parts::lsp::service::GetChangeRangeArgs;
use deno_parts::lsp::service::GetTextArgs;
use deno_parts::lsp::service::LengthAnswer;
use deno_parts::lsp::service::ResolveArgs;
use deno_parts::lsp::service::ResolvePlan;
use deno_parts::lsp::service::ResolveStep;
use deno_parts::lsp::service::ResolvedDependency;
use deno_parts::lsp::service::Response;
use deno_parts::lsp::service::SourceSnapshotArgs;
use deno_parts::lsp::service::State;
use deno_parts::lsp::service::StateSnapshot;
use deno_parts::lsp::service::TextSource;
use deno_parts::lsp::service::VersionAnswer;
use deno_parts::media_type::MediaType;

fn to_serde(json: &Json) -> serde_json::Value {
    match json {
        Json::Null => serde_json::Value::Null,
        Json::Bool(b) => serde_json::Value::Bool(*b),
        Json::Number(n) => serde_json::from_str(n).unwrap(),
        Json::Text(t) => serde_json::Value::String(t.clone()),
        Json::Array(items) => serde_json::Value::Array(items.iter().map(to_serde).collect()),
        Json::Object(members) => serde_json::Value::Object(
            members.iter().map(|(k, v)| (k.clone(), to_serde(v))).collect(),
        ),
    }
}

fn parsed(text: &str) -> serde_json::Value {
    serde_json::from_str(text).unwrap()
}

fn s(text: &str) -> String {
    text.to_string()
}

#[test]
fn requests_are_written_as_json() {
    let value = |m: RequestMethod| to_serde(&m.to_value(7));
    assert_eq!(
        value(RequestMethod::Configure(Json::Object(vec![(s("strict"), Json::Bool(true))]))),
        parsed(r#"{"id":7,"method":"configure","compilerOptions":{"strict":true}}"#)
    );
    assert_eq!(
        value(RequestMethod::FindRenameLocations((s("file:///a"), 3, true, false, true))),
        parsed(
            r#"{"id":7,"method":"findRenameLocations","specifier":"file:///a","position":3,
            "findInStrings":true,"findInComments":false,
            "providePrefixAndSuffixTextForRename":true}"#
        )
    );
    assert_eq!(
        value(RequestMethod::GetAsset(s("asset:///a"))),
        parsed(r#"{"id":7,"method":"getAsset","specifier":"asset:///a"}"#)
    );
    assert_eq!(
        value(RequestMethod::GetCodeFixes((s("u"), 1, 2, vec![s("a"), s("b")]))),
        parsed(
            r#"{"id":7,"method":"getCodeFixes","specifier":"u","startPosition":1,
            "endPosition":2,"errorCodes":["a","b"]}"#
        )
    );
    assert_eq!(
        value(RequestMethod::GetCombinedCodeFix((s("u"), Json::Text(s("fix"))))),
        parsed(r#"{"id":7,"method":"getCombinedCodeFix","specifier":"u","fixId":"fix"}"#)
    );
    assert_eq!(
        value(RequestMethod::GetDefinition((s("u"), 1))),
        parsed(r#"{"id":7,"method":"getDefinition","specifier":"u","position":1}"#)
    );
    assert_eq!(
        value(RequestMethod::GetDiagnostics(vec![s("u")])),
        parsed(r#"{"id":7,"method":"getDiagnostics","specifiers":["u"]}"#)
    );
    assert_eq!(
        value(RequestMethod::GetDocumentHighlights((s("u"), 1, vec![]))),
        parsed(
            r#"{"id":7,"method":"getDocumentHighlights","specifier":"u","position":1,
            "filesToSearch":[]}"#
        )
    );
    assert_eq!(
        value(RequestMethod::GetImplementation((s("u"), 1))),
        parsed(r#"{"id":7,"method":"getImplementation","specifier":"u","position":1}"#)
    );
    assert_eq!(
        value(RequestMethod::GetNavigationTree(s("u"))),
        parsed(r#"{"id":7,"method":"getNavigationTree","specifier":"u"}"#)
    );
    assert_eq!(
        value(RequestMethod::GetQuickInfo((s("u"), 1))),
        parsed(r#"{"id":7,"method":"getQuickInfo","specifier":"u","position":1}"#)
    );
    assert_eq!(
        value(RequestMethod::GetReferences((s("u"), 1))),
        parsed(r#"{"id":7,"method":"getReferences","specifier":"u","position":1}"#)
    );
    assert_eq!(
        value(RequestMethod::GetSupportedCodeFixes),
        parsed(r#"{"id":7,"method":"getSupportedCodeFixes"}"#)
    );
}

#[test]
fn preferences_and_options_are_written() {
    let value = |m: RequestMethod| to_serde(&m.to_value(1));
    let mut preferences = UserPreferences::default();
    assert_eq!(to_serde(&preferences.to_json()), parsed("{}"));
    preferences.quote_preference = Some(QuotePreference::Single);
    preferences.import_module_specifier_preference =
        Some(ImportModuleSpecifierPreference::NonRelative);
    preferences.disable_suggestions = Some(false);
    assert_eq!(
        value(RequestMethod::GetCompletions((s("u"), 2, preferences))),
        parsed(
            r#"{"id":1,"method":"getCompletions","specifier":"u","position":2,"preferences":
            {"disableSuggestions":false,"quotePreference":"single",
            "importModuleSpecifierPreference":"non-relative"}}"#
        )
    );
    let options = |trigger_reason| SignatureHelpItemsOptions { trigger_reason };
    assert_eq!(
        value(RequestMethod::GetSignatureHelpItems((s("u"), 2, options(None)))),
        parsed(
            r#"{"id":1,"method":"getSignatureHelpItems","specifier":"u","position":2,
            "options":{}}"#
        )
    );
    let reason = SignatureHelpTriggerReason {
        kind: SignatureHelpTriggerKind::from_editor(EditorTriggerKind::TriggerCharacter),
        trigger_character: Some(s("(")),
    };
    assert_eq!(
        to_serde(&options(Some(reason)).to_json()),
        parsed(r#"{"triggerReason":{"kind":"characterTyped","triggerCharacter":"("}}"#)
    );
    assert_eq!(
        SignatureHelpTriggerKind::from_editor(EditorTriggerKind::ContentChange),
        SignatureHelpTriggerKind::Retrigger
    );
    assert_eq!(
        SignatureHelpTriggerKind::from_editor(EditorTriggerKind::Invoked),
        SignatureHelpTriggerKind::Invoked
    );
}

#[test]
fn scripts_for_the_isolate() {
    assert_eq!(request_source("{}"), "globalThis.serverRequest({});");
    assert_eq!(init_source("{}"), "globalThis.serverInit({});");
    assert_eq!(to_serde(&init_config(true)), parsed(r#"{"debug":true}"#));
}

#[test]
fn json_values_are_copied() {
    let value = Json::Object(vec![
        (s("a"), Json::Array(vec![Json::Null, Json::Number(s("1.5")), Json::Bool(true)])),
        (s("b"), Json::Text(s("t"))),
    ]);
    assert_eq!(to_serde(&json_clone(&value)), to_serde(&value));
}

fn document(specifier: &str, version: Option<i32>, content: &str) -> Document {
    Document { specifier: s(specifier), version, content: s(content), dependencies: None }
}

fn snapshot(documents: Vec<Document>) -> StateSnapshot {
    let mut assets = Assets::new();
    assets.insert(s("asset:///a.ts"), Some(AssetDocument::new("asset \u{1f600}")));
    assets.insert(s("asset:///missing.ts"), None);
    StateSnapshot { assets, documents }
}

fn state(documents: Vec<Document>) -> State {
    State::new(snapshot(documents))
}

fn args(specifier: &str, version: &str) -> SourceSnapshotArgs {
    SourceSnapshotArgs { specifier: s(specifier), version: s(version) }
}

fn text_of(state: &mut State, specifier: &str, version: &str, start: usize, end: usize) -> String {
    let args = GetTextArgs { specifier: s(specifier), version: s(version), start, end };
    match get_text(state, &args) {
        Ok(TextSource::Found(text)) => text,
        Ok(TextSource::Sources(specifier)) => format!("sources {specifier}"),
        Err(e) => e.message,
    }
}

#[test]
fn texts_come_from_assets_documents_or_sources() {
    let mut state = state(vec![document("file:///a.ts", Some(1), "const \u{1f600} = 1;")]);
    assert_eq!(text_of(&mut state, "asset:///a.ts", "1", 0, 5), "asset");
    assert_eq!(text_of(&mut state, "file:///a.ts", "1", 6, 8), "\u{1f600}");
    assert_eq!(text_of(&mut state, "file:///b.ts", "1", 0, 1), "sources file:///b.ts");
    assert_eq!(
        text_of(&mut state, "b.ts", "1", 0, 1),
        "invalid URL: relative URL without a base"
    );
    match get_length(&mut state, &args("asset:///a.ts", "1")).unwrap() {
        LengthAnswer::Known(n) => assert_eq!(n, 8),
        _ => panic!("not known"),
    }
    match get_length(&mut state, &args("file:///a.ts", "1")).unwrap() {
        LengthAnswer::Known(n) => assert_eq!(n, 13),
        _ => panic!("not known"),
    }
    match get_length(&mut state, &args("file:///c.ts", "1")).unwrap() {
        LengthAnswer::Sources(t) => assert_eq!(t, "file:///c.ts"),
        _ => panic!("not in sources"),
    }
    assert!(get_length(&mut state, &args("c.ts", "1")).is_err());
}

#[test]
fn kept_texts_stay_until_they_are_disposed_of() {
    let mut state = state(vec![document("file:///a.ts", Some(1), "old")]);
    assert_eq!(text_of(&mut state, "file:///a.ts", "1", 0, 9), "old");
    state.state_snapshot.documents[0].content = s("new");
    assert_eq!(text_of(&mut state, "file:///a.ts", "1", 0, 9), "old");
    assert_eq!(text_of(&mut state, "file:///a.ts", "2", 0, 9), "new");
    assert!(dispose(&mut state, &args("file:///a.ts", "1")));
    assert_eq!(text_of(&mut state, "file:///a.ts", "1", 0, 9), "new");
    assert!(cache_snapshot_if_present(&mut state, "file:///z.ts", "1").is_none());
    assert!(cache_snapshot_if_present(&mut state, "file:///a.ts", "9").unwrap().is_ok());
    assert!(cache_snapshot_if_present(&mut state, "z.ts", "1").unwrap().is_err());
    assert_eq!(state.snapshots.get("file:///a.ts", "9").unwrap(), "new");
}

#[test]
fn changes_between_texts() {
    let mut state = state(vec![document("file:///a.ts", Some(1), "old")]);
    let change = |version: &str, old_version: &str| GetChangeRangeArgs {
        specifier: s("file:///a.ts"),
        old_length: 9,
        old_version: s(old_version),
        version: s(version),
    };
    match get_change_range_if_present(&mut state, &change("1", "0")).unwrap().unwrap() {
        ChangeRange::Whole { start, length, new_length } => {
            assert_eq!((start, length, new_length), (0, 9, 3));
        }
        _ => panic!("not the whole"),
    }
    state.state_snapshot.documents[0].content = s("newer");
    match get_change_range_if_present(&mut state, &change("2", "1")).unwrap().unwrap() {
        ChangeRange::Compare { prev, current } => {
            assert_eq!((prev.as_str(), current.as_str()), ("old", "newer"));
        }
        _ => panic!("nothing to compare"),
    }
    let mut other = change("1", "0");
    other.specifier = s("file:///b.ts");
    assert!(get_change_range_if_present(&mut state, &other).is_none());
    other.specifier = s("b.ts");
    assert!(get_change_range_if_present(&mut state, &other).unwrap().is_err());
}

fn dependency(t: Option<&str>, c: Option<&str>) -> Dependency {
    let resolved = |r: &str| {
        if r.is_empty() {
            ResolvedDependency::Unresolved
        } else {
            ResolvedDependency::Resolved(s(r))
        }
    };
    Dependency { maybe_type: t.map(resolved), maybe_code: c.map(resolved) }
}

#[test]
fn imports_are_resolved() {
    let mut importer = document("file:///a.ts", Some(1), "");
    importer.dependencies = Some(vec![
        (s("./b.ts"), dependency(None, Some("file:///b.ts"))),
        (s("./c.js"), dependency(Some("file:///c.d.ts"), Some("file:///c.js"))),
        (s("./bad"), dependency(Some(""), Some("file:///c.js"))),
        (s("./none"), dependency(None, None)),
    ]);
    let state = state(vec![importer, document("file:///b.ts", None, "")]);
    let ask = |base: &str, specifiers: &[&str]| {
        resolve(
            &state,
            &ResolveArgs {
                base: s(base),
                specifiers: specifiers.iter().map(|x| s(x)).collect(),
            },
        )
    };
    let steps = match ask(
        "file:///a.ts",
        &["asset:///x.d.ts", "./b.ts", "./c.js", "./bad", "./none", "./unknown"],
    )
    .unwrap()
    {
        ResolvePlan::Steps(steps) => steps,
        _ => panic!("no steps"),
    };
    assert_eq!(steps.len(), 5);
    let module = |i: usize, in_sources: bool, extension: Option<&str>| {
        resolve_step(&steps[i], in_sources, extension).unwrap()
    };
    assert_eq!(module(0, false, None), Some((s("asset:///x.d.ts"), s(".d.ts"))));
    assert_eq!(module(1, false, None), Some((s("file:///b.ts"), s(".ts"))));
    assert_eq!(module(2, false, Some(".js")), None);
    assert_eq!(module(2, true, Some(".mjs")), Some((s("file:///c.d.ts"), s(".mjs"))));
    assert_eq!(module(2, true, None), Some((s("file:///c.d.ts"), s(".d.ts"))));
    assert!(resolve_step(&ResolveStep::Known(s("no url")), false, None).is_err());
    assert_eq!(MediaType::Wasm.as_ts_extension(), ".js");
    assert_eq!(MediaType::Dcts.as_ts_extension(), ".d.cts");
    assert!(matches!(steps[3], ResolveStep::Nothing));
    assert!(matches!(steps[4], ResolveStep::Nothing));
    assert_eq!(module(4, true, None), None);
    match ask("file:///b.ts", &["./x"]).unwrap() {
        ResolvePlan::Steps(steps) => assert_eq!(steps.len(), 0),
        _ => panic!("no steps"),
    }
    match ask("file:///z.ts", &["./x"]).unwrap() {
        ResolvePlan::Sources { referrer } => {
            assert_eq!(referrer, "file:///z.ts");
            assert!(resolve_from_sources(&referrer, true).is_ok());
            let error = resolve_from_sources(&referrer, false).unwrap_err();
            assert_eq!(error.class, "NotFound");
            assert_eq!(
                error.message,
                "the referring (file:///z.ts) specifier is unexpectedly missing"
            );
        }
        _ => panic!("not in sources"),
    }
    assert!(ask("z.ts", &[]).is_err());
}

#[test]
fn names_and_versions_of_scripts() {
    let state = state(vec![
        document("file:///a.ts", Some(-3), ""),
        document("file:///b.ts", None, ""),
        document("file:///c.ts", Some(12), ""),
    ]);
    assert_eq!(script_names(&state), vec![s("file:///a.ts"), s("file:///c.ts")]);
    let version = |specifier: &str| match script_version(&state, specifier) {
        Ok(VersionAnswer::Version(v)) => v,
        Ok(VersionAnswer::NoVersion) => s("none"),
        Ok(VersionAnswer::Sources(specifier)) => format!("sources {specifier}"),
        Err(e) => e.message,
    };
    assert_eq!(version("asset:///a.ts"), "1");
    assert_eq!(version("asset:///missing.ts"), "1");
    assert_eq!(version("asset:///b.ts"), "none");
    assert_eq!(version("file:///a.ts"), "-3");
    assert_eq!(version("file:///b.ts"), "sources file:///b.ts");
    assert_eq!(version("file:///c.ts"), "12");
    assert_eq!(version("file:///d.ts"), "sources file:///d.ts");
    assert_eq!(version("d.ts"), "invalid URL: relative URL without a base");
}

#[test]
fn requests_and_responses() {
    let mut state = state(vec![]);
    let request = begin_request(&mut state, snapshot(vec![]), &RequestMethod::GetSupportedCodeFixes);
    assert_eq!(to_serde(&request), parsed(r#"{"id":2,"method":"getSupportedCodeFixes"}"#));
    let error = end_request(&mut state).unwrap_err();
    assert_eq!(error.class, "RequestError");
    assert_eq!(error.message, "The response was not received for the request.");
    assert!(respond(&mut state, Response { id: 2, data: Json::Bool(true) }));
    assert_eq!(to_serde(&end_request(&mut state).unwrap()), parsed("true"));
    assert!(end_request(&mut state).is_err());
    assert!(set_asset(&mut state, Some(s("text"))));
    assert_eq!(state.asset.as_deref(), Some("text"));
    let request = begin_request(&mut state, snapshot(vec![]), &RequestMethod::GetSupportedCodeFixes);
    assert_eq!(to_serde(&request), parsed(r#"{"id":3,"method":"getSupportedCodeFixes"}"#));
}

#[test]
fn requests_come_before_diagnostics() {
    assert!(matches!(first::<u8, u8>(), Action::PollQueue));
    assert!(matches!(next::<u8, u8>(Event::Queued(Some(5))), Action::Handle(5)));
    assert!(matches!(next::<u8, u8>(Event::Handled), Action::PollQueue));
    assert!(matches!(next::<u8, u8>(Event::NothingQueued), Action::TakeDiagnostics));
    assert!(matches!(next::<u8, u8>(Event::Taken(Some(9))), Action::HandleDiagnostics(9)));
    assert!(matches!(next::<u8, u8>(Event::Taken(None)), Action::Wait));
    assert!(matches!(next::<u8, u8>(Event::DiagnosticsHandled), Action::Wait));
    assert!(matches!(next::<u8, u8>(Event::Noticed(true)), Action::PollQueue));
    assert!(matches!(next::<u8, u8>(Event::Noticed(false)), Action::Stop));
    assert!(matches!(next::<u8, u8>(Event::Queued(None)), Action::Stop));
}

#[test]
fn diagnostics_are_merged() {
    let (pending, superseded) =
        diagnostics_request(None, "one", vec![s("a"), s("b"), s("a")], 1);
    assert_eq!(superseded, None);
    assert_eq!(pending.specifiers, vec![s("a"), s("b")]);
    let (pending, superseded) = diagnostics_request(Some(pending), "two", vec![s("b"), s("c")], 2);
    assert_eq!(superseded, Some(1));
    let (method, snapshot, reply) = diagnostics_method(pending);
    assert_eq!((snapshot, reply), ("two", 2));
    assert_eq!(
        to_serde(&method.to_value(4)),
        parsed(r#"{"id":4,"method":"getDiagnostics","specifiers":["a","b","c"]}"#)
    );
}
