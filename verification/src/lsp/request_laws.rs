//! What is sent to the compiler, member by member.
use vstd::prelude::*;
use crate::lsp::json::number_view;
use crate::lsp::json::texts_view;
use crate::lsp::json::Json;
use crate::lsp::json::JsonView;
use crate::lsp::request::init_config_view;
use crate::lsp::request::with_some;
use crate::lsp::request::ImportModuleSpecifierEnding;
use crate::lsp::request::ImportModuleSpecifierPreference;
use crate::lsp::request::IncludePackageJsonAutoImports;
use crate::lsp::request::QuotePreference;
use crate::lsp::request::RequestMethod;
use crate::lsp::request::SignatureHelpItemsOptions;
use crate::lsp::request::SignatureHelpTriggerKind;
use crate::lsp::request::UserPreferences;
use crate::text::law_digits_stand_for_number;
use crate::text::number_of;

verus! {

/// A JSON value is a number.
pub open spec fn is_number(json: JsonView, n: nat) -> bool {
    json matches JsonView::Number(text) && number_of(text, 10) == n
}

/// A JSON value is a list of texts.
pub open spec fn is_text_list(json: JsonView, list: Seq<String>) -> bool {
    &&& json matches JsonView::Array(items)
    &&& items.len() == list.len()
    &&& forall|i: int| 0 <= i < list.len() ==> items[i] == JsonView::Text((#[trigger] list[i])@)
}

/// A request has its number first, then the name of its method, and then each
/// parameter of the method under its name, and nothing else.
pub proof fn law_request_says_its_parameters(method: RequestMethod, id: nat)
    ensures
        method.request_view(id) matches JsonView::Object(members) && members.len() >= 2
            && members[0].0 == "id"@ && is_number(members[0].1, id) && members[1].0 == "method"@
            && match method {
            RequestMethod::Configure(config) => {
                &&& members.len() == 3
                &&& members[1].1 == JsonView::Text("configure"@)
                &&& members[2].0 == "compilerOptions"@
                &&& members[2].1 == config@
            },
            RequestMethod::FindRenameLocations((specifier, position, strings, comments, affixes)) => {
                &&& members.len() == 7
                &&& members[1].1 == JsonView::Text("findRenameLocations"@)
                &&& members[2].0 == "specifier"@
                &&& members[2].1 == JsonView::Text(specifier@)
                &&& members[3].0 == "position"@
                &&& is_number(members[3].1, position as nat)
                &&& members[4].0 == "findInStrings"@
                &&& members[4].1 == JsonView::Bool(strings)
                &&& members[5].0 == "findInComments"@
                &&& members[5].1 == JsonView::Bool(comments)
                &&& members[6].0 == "providePrefixAndSuffixTextForRename"@
                &&& members[6].1 == JsonView::Bool(affixes)
            },
            RequestMethod::GetAsset(specifier) => {
                &&& members.len() == 3
                &&& members[1].1 == JsonView::Text("getAsset"@)
                &&& members[2].0 == "specifier"@
                &&& members[2].1 == JsonView::Text(specifier@)
            },
            RequestMethod::GetCodeFixes((specifier, start, end, codes)) => {
                &&& members.len() == 6
                &&& members[1].1 == JsonView::Text("getCodeFixes"@)
                &&& members[2].0 == "specifier"@
                &&& members[2].1 == JsonView::Text(specifier@)
                &&& members[3].0 == "startPosition"@
                &&& is_number(members[3].1, start as nat)
                &&& members[4].0 == "endPosition"@
                &&& is_number(members[4].1, end as nat)
                &&& members[5].0 == "errorCodes"@
                &&& is_text_list(members[5].1, codes@)
            },
            RequestMethod::GetCombinedCodeFix((specifier, fix)) => {
                &&& members.len() == 4
                &&& members[1].1 == JsonView::Text("getCombinedCodeFix"@)
                &&& members[2].0 == "specifier"@
                &&& members[2].1 == JsonView::Text(specifier@)
                &&& members[3].0 == "fixId"@
                &&& members[3].1 == fix@
            },
            RequestMethod::GetCompletions((specifier, position, preferences)) => {
                &&& members.len() == 5
                &&& members[1].1 == JsonView::Text("getCompletions"@)
                &&& members[2].0 == "specifier"@
                &&& members[2].1 == JsonView::Text(specifier@)
                &&& members[3].0 == "position"@
                &&& is_number(members[3].1, position as nat)
                &&& members[4].0 == "preferences"@
                &&& members[4].1 == preferences.to_view()
            },
            RequestMethod::GetDefinition((specifier, position)) => {
                &&& members.len() == 4
                &&& members[1].1 == JsonView::Text("getDefinition"@)
                &&& members[2].0 == "specifier"@
                &&& members[2].1 == JsonView::Text(specifier@)
                &&& members[3].0 == "position"@
                &&& is_number(members[3].1, position as nat)
            },
            RequestMethod::GetDiagnostics(specifiers) => {
                &&& members.len() == 3
                &&& members[1].1 == JsonView::Text("getDiagnostics"@)
                &&& members[2].0 == "specifiers"@
                &&& is_text_list(members[2].1, specifiers@)
            },
            RequestMethod::GetDocumentHighlights((specifier, position, files)) => {
                &&& members.len() == 5
                &&& members[1].1 == JsonView::Text("getDocumentHighlights"@)
                &&& members[2].0 == "specifier"@
                &&& members[2].1 == JsonView::Text(specifier@)
                &&& members[3].0 == "position"@
                &&& is_number(members[3].1, position as nat)
                &&& members[4].0 == "filesToSearch"@
                &&& is_text_list(members[4].1, files@)
            },
            RequestMethod::GetImplementation((specifier, position)) => {
                &&& members.len() == 4
                &&& members[1].1 == JsonView::Text("getImplementation"@)
                &&& members[2].0 == "specifier"@
                &&& members[2].1 == JsonView::Text(specifier@)
                &&& members[3].0 == "position"@
                &&& is_number(members[3].1, position as nat)
            },
            RequestMethod::GetNavigationTree(specifier) => {
                &&& members.len() == 3
                &&& members[1].1 == JsonView::Text("getNavigationTree"@)
                &&& members[2].0 == "specifier"@
                &&& members[2].1 == JsonView::Text(specifier@)
            },
            RequestMethod::GetQuickInfo((specifier, position)) => {
                &&& members.len() == 4
                &&& members[1].1 == JsonView::Text("getQuickInfo"@)
                &&& members[2].0 == "specifier"@
                &&& members[2].1 == JsonView::Text(specifier@)
                &&& members[3].0 == "position"@
                &&& is_number(members[3].1, position as nat)
            },
            RequestMethod::GetReferences((specifier, position)) => {
                &&& members.len() == 4
                &&& members[1].1 == JsonView::Text("getReferences"@)
                &&& members[2].0 == "specifier"@
                &&& members[2].1 == JsonView::Text(specifier@)
                &&& members[3].0 == "position"@
                &&& is_number(members[3].1, position as nat)
            },
            RequestMethod::GetSignatureHelpItems((specifier, position, options)) => {
                &&& members.len() == 5
                &&& members[1].1 == JsonView::Text("getSignatureHelpItems"@)
                &&& members[2].0 == "specifier"@
                &&& members[2].1 == JsonView::Text(specifier@)
                &&& members[3].0 == "position"@
                &&& is_number(members[3].1, position as nat)
                &&& members[4].0 == "options"@
                &&& members[4].1 == options.to_view()
            },
            RequestMethod::GetSupportedCodeFixes => {
                &&& members.len() == 2
                &&& members[1].1 == JsonView::Text("getSupportedCodeFixes"@)
            },
        },
{
    law_digits_stand_for_number(id, 10);
    match method {
        RequestMethod::FindRenameLocations((_, n, _, _, _)) => {
            law_digits_stand_for_number(n as nat, 10);
        },
        RequestMethod::GetCodeFixes((_, m, n, _)) => {
            law_digits_stand_for_number(m as nat, 10);
            law_digits_stand_for_number(n as nat, 10);
        },
        RequestMethod::GetCompletions((_, n, _)) => {
            law_digits_stand_for_number(n as nat, 10);
        },
        RequestMethod::GetDefinition((_, n)) => {
            law_digits_stand_for_number(n as nat, 10);
        },
        RequestMethod::GetDocumentHighlights((_, n, _)) => {
            law_digits_stand_for_number(n as nat, 10);
        },
        RequestMethod::GetImplementation((_, n)) => {
            law_digits_stand_for_number(n as nat, 10);
        },
        RequestMethod::GetQuickInfo((_, n)) => {
            law_digits_stand_for_number(n as nat, 10);
        },
        RequestMethod::GetReferences((_, n)) => {
            law_digits_stand_for_number(n as nat, 10);
        },
        RequestMethod::GetSignatureHelpItems((_, n, _)) => {
            law_digits_stand_for_number(n as nat, 10);
        },
        _ => {},
    }
}

/// The value of the first member with a name.
pub open spec fn first_member(members: Seq<(Seq<char>, JsonView)>, name: Seq<char>) -> Option<
    JsonView,
>
    decreases members.len(),
{
    if members.len() == 0 {
        None
    } else if first_member(members.drop_last(), name) is Some {
        first_member(members.drop_last(), name)
    } else if members.last().0 == name {
        Some(members.last().1)
    } else {
        None
    }
}

/// The value of a member of an object.
pub open spec fn member(json: JsonView, name: Seq<char>) -> Option<JsonView> {
    match json {
        JsonView::Object(members) => first_member(members, name),
        _ => None,
    }
}

/// A member that is put behind others changes nothing about them.
proof fn lemma_member_of_more(
    members: Seq<(Seq<char>, JsonView)>,
    put: Seq<char>,
    value: Option<JsonView>,
    name: Seq<char>,
)
    ensures
        first_member(with_some(members, put, value), name) == if first_member(
            members,
            name,
        ) is Some {
            first_member(members, name)
        } else if put == name {
            value
        } else {
            None
        },
{
    if let Some(v) = value {
        assert(members.push((put, v)).drop_last() =~= members);
    }
}

/// Each preference is sent under its own name, as it is, exactly where there is
/// one.
#[verifier::rlimit(60)]
pub proof fn law_preferences_are_sent(p: UserPreferences)
    ensures
        member(p.to_view(), "disableSuggestions"@) == match p.disable_suggestions {
            Some(b) => Some(JsonView::Bool(b)),
            None => None,
        },
        member(p.to_view(), "quotePreference"@) == match p.quote_preference {
            Some(choice) => Some(JsonView::Text(choice.name())),
            None => None,
        },
        member(p.to_view(), "includeCompletionsForModuleExports"@) == match p.include_completions_for_module_exports {
            Some(b) => Some(JsonView::Bool(b)),
            None => None,
        },
        member(p.to_view(), "includeAutomaticOptionalChainCompletions"@) == match p.include_automatic_optional_chain_completions {
            Some(b) => Some(JsonView::Bool(b)),
            None => None,
        },
        member(p.to_view(), "includeCompletionsWithInsertText"@) == match p.include_completions_with_insert_text {
            Some(b) => Some(JsonView::Bool(b)),
            None => None,
        },
        member(p.to_view(), "importModuleSpecifierPreference"@) == match p.import_module_specifier_preference {
            Some(choice) => Some(JsonView::Text(choice.name())),
            None => None,
        },
        member(p.to_view(), "importModuleSpecifierEnding"@) == match p.import_module_specifier_ending {
            Some(choice) => Some(JsonView::Text(choice.name())),
            None => None,
        },
        member(p.to_view(), "allowTextChangesInNewFiles"@) == match p.allow_text_changes_in_new_files {
            Some(b) => Some(JsonView::Bool(b)),
            None => None,
        },
        member(p.to_view(), "providePrefixAndSuffixTextForRename"@) == match p.provide_prefix_and_suffix_text_for_rename {
            Some(b) => Some(JsonView::Bool(b)),
            None => None,
        },
        member(p.to_view(), "includePackageJsonAutoImports"@) == match p.include_package_json_auto_imports {
            Some(choice) => Some(JsonView::Text(choice.name())),
            None => None,
        },
        member(p.to_view(), "provideRefactorNotApplicableReason"@) == match p.provide_refactor_not_applicable_reason {
            Some(b) => Some(JsonView::Bool(b)),
            None => None,
        },
{
    assert("disableSuggestions"@.len() == 18) by {
        reveal_strlit("disableSuggestions");
    }
    assert("quotePreference"@.len() == 15) by {
        reveal_strlit("quotePreference");
    }
    assert("includeCompletionsForModuleExports"@.len() == 34) by {
        reveal_strlit("includeCompletionsForModuleExports");
    }
    assert("includeAutomaticOptionalChainCompletions"@.len() == 40) by {
        reveal_strlit("includeAutomaticOptionalChainCompletions");
    }
    assert("includeCompletionsWithInsertText"@.len() == 32) by {
        reveal_strlit("includeCompletionsWithInsertText");
    }
    assert("importModuleSpecifierPreference"@.len() == 31) by {
        reveal_strlit("importModuleSpecifierPreference");
    }
    assert("importModuleSpecifierEnding"@.len() == 27) by {
        reveal_strlit("importModuleSpecifierEnding");
    }
    assert("allowTextChangesInNewFiles"@.len() == 26) by {
        reveal_strlit("allowTextChangesInNewFiles");
    }
    assert("providePrefixAndSuffixTextForRename"@.len() == 35) by {
        reveal_strlit("providePrefixAndSuffixTextForRename");
    }
    assert("includePackageJsonAutoImports"@.len() == 29) by {
        reveal_strlit("includePackageJsonAutoImports");
    }
    assert("provideRefactorNotApplicableReason"@.len() == 34) by {
        reveal_strlit("provideRefactorNotApplicableReason");
    }
    assert("includeCompletionsForModuleExports"@[0] != "provideRefactorNotApplicableReason"@[0])
        by {
        reveal_strlit("includeCompletionsForModuleExports");
        reveal_strlit("provideRefactorNotApplicableReason");
    }
    assert forall|
        members: Seq<(Seq<char>, JsonView)>,
        put: Seq<char>,
        value: Option<JsonView>,
        name: Seq<char>,
    | #[trigger]
        first_member(with_some(members, put, value), name) == (if first_member(
            members,
            name,
        ) is Some {
            first_member(members, name)
        } else if put == name {
            value
        } else {
            None
        }) by {
        lemma_member_of_more(members, put, value, name);
    }
}

/// The names of the choices that are sent.
pub proof fn law_names_of_choices(
    quote: QuotePreference,
    module: ImportModuleSpecifierPreference,
    ending: ImportModuleSpecifierEnding,
    packages: IncludePackageJsonAutoImports,
    trigger: SignatureHelpTriggerKind,
)
    ensures
        quote.name() == "auto"@ && quote == QuotePreference::Auto || quote.name() == "double"@
            && quote == QuotePreference::Double || quote.name() == "single"@ && quote
            == QuotePreference::Single,
        module.name() == "auto"@ && module == ImportModuleSpecifierPreference::Auto
            || module.name() == "relative"@ && module == ImportModuleSpecifierPreference::Relative
            || module.name() == "non-relative"@ && module
            == ImportModuleSpecifierPreference::NonRelative,
        ending.name() == "auto"@ && ending == ImportModuleSpecifierEnding::Auto || ending.name()
            == "minimal"@ && ending == ImportModuleSpecifierEnding::Minimal || ending.name()
            == "index"@ && ending == ImportModuleSpecifierEnding::Index || ending.name() == "js"@
            && ending == ImportModuleSpecifierEnding::Js,
        packages.name() == "auto"@ && packages == IncludePackageJsonAutoImports::Auto
            || packages.name() == "on"@ && packages == IncludePackageJsonAutoImports::On
            || packages.name() == "off"@ && packages == IncludePackageJsonAutoImports::Off,
        trigger.name() == "characterTyped"@ && trigger == SignatureHelpTriggerKind::CharacterTyped
            || trigger.name() == "invoked"@ && trigger == SignatureHelpTriggerKind::Invoked
            || trigger.name() == "retrigger"@ && trigger == SignatureHelpTriggerKind::Retrigger,
{
}

/// Help with a signature is asked for with its reason, where there is one: what
/// asked for it, and the character that was typed, where one was.
pub proof fn law_reason_is_sent(options: SignatureHelpItemsOptions)
    ensures
        match options.trigger_reason {
            None => options.to_view() == JsonView::Object(Seq::empty()),
            Some(reason) => {
                &&& options.to_view() matches JsonView::Object(members)
                &&& members.len() == 1
                &&& members[0].0 == "triggerReason"@
                &&& members[0].1 matches JsonView::Object(inner)
                &&& inner[0] == ("kind"@, JsonView::Text(reason.kind.name()))
                &&& match reason.trigger_character {
                    None => inner.len() == 1,
                    Some(c) => inner.len() == 2 && inner[1] == (
                        "triggerCharacter"@,
                        JsonView::Text(c@),
                    ),
                }
            },
        },
{
}

/// The language service is started with or without debugging, as was asked.
pub proof fn law_service_is_configured(debug: bool)
    ensures
        init_config_view(debug) matches JsonView::Object(members) && members.len() == 1
            && members[0].0 == "debug"@ && members[0].1 == JsonView::Bool(debug),
{
}

/// What a JSON value says is what it is made of, down to the last value.
pub proof fn law_json_says_what_it_holds(json: Json)
    ensures
        match (json, json@) {
            (Json::Null, JsonView::Null) => true,
            (Json::Bool(a), JsonView::Bool(b)) => a == b,
            (Json::Number(a), JsonView::Number(b)) => a@ == b,
            (Json::Text(a), JsonView::Text(b)) => a@ == b,
            (Json::Array(a), JsonView::Array(b)) => a@.len() == b.len() && forall|i: int|
                0 <= i < b.len() ==> #[trigger] b[i] == a@[i]@,
            (Json::Object(a), JsonView::Object(b)) => a@.len() == b.len() && forall|i: int|
                0 <= i < b.len() ==> (#[trigger] b[i]).0 == a@[i].0@ && b[i].1 == a@[i].1@,
            _ => false,
        },
{
}

/// A whole number in JSON is written in decimal, and a list of texts as an array of
/// them.
pub proof fn law_json_of_numbers_and_texts(n: nat, list: Seq<String>)
    ensures
        is_number(number_view(n), n),
        is_text_list(texts_view(list), list),
{
    law_digits_stand_for_number(n, 10);
}

} // verus!
