//! The requests that are sent to the language service in the compiler isolate.
use vstd::prelude::*;
use crate::lsp::json::json_clone;
use crate::lsp::json::number;
use crate::lsp::json::number_view;
use crate::lsp::json::text;
use crate::lsp::json::text_array;
use crate::lsp::json::texts_view;
use crate::lsp::json::Json;
use crate::lsp::json::JsonView;
use crate::lsp::json::Members;
use crate::text::concat3;

verus! {

/// How quotes are written.
#[derive(Clone, Copy, PartialEq, Eq, Structural, Debug)]
pub enum QuotePreference {
    Auto,
    Double,
    Single,
}

impl QuotePreference {
    /// The name that is sent.
    pub open spec fn name(self) -> Seq<char> {
        match self {
            QuotePreference::Auto => "auto"@,
            QuotePreference::Double => "double"@,
            QuotePreference::Single => "single"@,
        }
    }

    /// The name that is sent.
    pub fn to_json(self) -> (r: Json)
        ensures
            r@ == JsonView::Text(self.name()),
    {
        match self {
            QuotePreference::Auto => text("auto"),
            QuotePreference::Double => text("double"),
            QuotePreference::Single => text("single"),
        }
    }
}

/// How the modules in imports are named.
#[derive(Clone, Copy, PartialEq, Eq, Structural, Debug)]
pub enum ImportModuleSpecifierPreference {
    Auto,
    Relative,
    NonRelative,
}

impl ImportModuleSpecifierPreference {
    /// The name that is sent.
    pub open spec fn name(self) -> Seq<char> {
        match self {
            ImportModuleSpecifierPreference::Auto => "auto"@,
            ImportModuleSpecifierPreference::Relative => "relative"@,
            ImportModuleSpecifierPreference::NonRelative => "non-relative"@,
        }
    }

    /// The name that is sent.
    pub fn to_json(self) -> (r: Json)
        ensures
            r@ == JsonView::Text(self.name()),
    {
        match self {
            ImportModuleSpecifierPreference::Auto => text("auto"),
            ImportModuleSpecifierPreference::Relative => text("relative"),
            ImportModuleSpecifierPreference::NonRelative => text("non-relative"),
        }
    }
}

/// How the names of modules in imports end.
#[derive(Clone, Copy, PartialEq, Eq, Structural, Debug)]
pub enum ImportModuleSpecifierEnding {
    Auto,
    Minimal,
    Index,
    Js,
}

impl ImportModuleSpecifierEnding {
    /// The name that is sent.
    pub open spec fn name(self) -> Seq<char> {
        match self {
            ImportModuleSpecifierEnding::Auto => "auto"@,
            ImportModuleSpecifierEnding::Minimal => "minimal"@,
            ImportModuleSpecifierEnding::Index => "index"@,
            ImportModuleSpecifierEnding::Js => "js"@,
        }
    }

    /// The name that is sent.
    pub fn to_json(self) -> (r: Json)
        ensures
            r@ == JsonView::Text(self.name()),
    {
        match self {
            ImportModuleSpecifierEnding::Auto => text("auto"),
            ImportModuleSpecifierEnding::Minimal => text("minimal"),
            ImportModuleSpecifierEnding::Index => text("index"),
            ImportModuleSpecifierEnding::Js => text("js"),
        }
    }
}

/// Whether imports are offered from a package file.
#[derive(Clone, Copy, PartialEq, Eq, Structural, Debug)]
pub enum IncludePackageJsonAutoImports {
    Auto,
    On,
    Off,
}

impl IncludePackageJsonAutoImports {
    /// The name that is sent.
    pub open spec fn name(self) -> Seq<char> {
        match self {
            IncludePackageJsonAutoImports::Auto => "auto"@,
            IncludePackageJsonAutoImports::On => "on"@,
            IncludePackageJsonAutoImports::Off => "off"@,
        }
    }

    /// The name that is sent.
    pub fn to_json(self) -> (r: Json)
        ensures
            r@ == JsonView::Text(self.name()),
    {
        match self {
            IncludePackageJsonAutoImports::Auto => text("auto"),
            IncludePackageJsonAutoImports::On => text("on"),
            IncludePackageJsonAutoImports::Off => text("off"),
        }
    }
}

/// What asked for help with a signature.
#[derive(Clone, Copy, PartialEq, Eq, Structural, Debug)]
pub enum SignatureHelpTriggerKind {
    CharacterTyped,
    Invoked,
    Retrigger,
}

impl SignatureHelpTriggerKind {
    /// The name that is sent.
    pub open spec fn name(self) -> Seq<char> {
        match self {
            SignatureHelpTriggerKind::CharacterTyped => "characterTyped"@,
            SignatureHelpTriggerKind::Invoked => "invoked"@,
            SignatureHelpTriggerKind::Retrigger => "retrigger"@,
        }
    }

    /// The name that is sent.
    pub fn to_json(self) -> (r: Json)
        ensures
            r@ == JsonView::Text(self.name()),
    {
        match self {
            SignatureHelpTriggerKind::CharacterTyped => text("characterTyped"),
            SignatureHelpTriggerKind::Invoked => text("invoked"),
            SignatureHelpTriggerKind::Retrigger => text("retrigger"),
        }
    }
}

/// What the editor says asked for help with a signature.
#[derive(Clone, Copy, PartialEq, Eq, Structural, Debug)]
pub enum EditorTriggerKind {
    Invoked,
    TriggerCharacter,
    ContentChange,
}

impl SignatureHelpTriggerKind {
    /// What asked for help, in the words of the language service.
    pub fn from_editor(kind: EditorTriggerKind) -> (r: SignatureHelpTriggerKind)
        ensures
            r == match kind {
                EditorTriggerKind::Invoked => SignatureHelpTriggerKind::Invoked,
                EditorTriggerKind::TriggerCharacter => SignatureHelpTriggerKind::CharacterTyped,
                EditorTriggerKind::ContentChange => SignatureHelpTriggerKind::Retrigger,
            },
    {
        match kind {
            EditorTriggerKind::Invoked => SignatureHelpTriggerKind::Invoked,
            EditorTriggerKind::TriggerCharacter => SignatureHelpTriggerKind::CharacterTyped,
            EditorTriggerKind::ContentChange => SignatureHelpTriggerKind::Retrigger,
        }
    }
}

/// Members, with one more where it has a value.
pub open spec fn with_some(
    members: Seq<(Seq<char>, JsonView)>,
    name: Seq<char>,
    value: Option<JsonView>,
) -> Seq<(Seq<char>, JsonView)> {
    match value {
        Some(value) => members.push((name, value)),
        None => members,
    }
}

/// An optional truth value in JSON.
pub open spec fn bool_view(b: Option<bool>) -> Option<JsonView> {
    match b {
        Some(b) => Some(JsonView::Bool(b)),
        None => None,
    }
}

/// An optional truth value in JSON.
fn bool_json(b: Option<bool>) -> (r: Option<Json>)
    ensures
        match r {
            Some(json) => bool_view(b) == Some(json@),
            None => b is None,
        },
{
    match b {
        Some(b) => Some(Json::Bool(b)),
        None => None,
    }
}

/// What the user prefers in completions and edits.
#[derive(Debug)]
pub struct UserPreferences {
    pub disable_suggestions: Option<bool>,
    pub quote_preference: Option<QuotePreference>,
    pub include_completions_for_module_exports: Option<bool>,
    pub include_automatic_optional_chain_completions: Option<bool>,
    pub include_completions_with_insert_text: Option<bool>,
    pub import_module_specifier_preference: Option<ImportModuleSpecifierPreference>,
    pub import_module_specifier_ending: Option<ImportModuleSpecifierEnding>,
    pub allow_text_changes_in_new_files: Option<bool>,
    pub provide_prefix_and_suffix_text_for_rename: Option<bool>,
    pub include_package_json_auto_imports: Option<IncludePackageJsonAutoImports>,
    pub provide_refactor_not_applicable_reason: Option<bool>,
}

impl Default for UserPreferences {
    /// Nothing is preferred.
    fn default() -> (r: UserPreferences)
        ensures
            r.to_view() == JsonView::Object(Seq::empty()),
    {
        UserPreferences {
            disable_suggestions: None,
            quote_preference: None,
            include_completions_for_module_exports: None,
            include_automatic_optional_chain_completions: None,
            include_completions_with_insert_text: None,
            import_module_specifier_preference: None,
            import_module_specifier_ending: None,
            allow_text_changes_in_new_files: None,
            provide_prefix_and_suffix_text_for_rename: None,
            include_package_json_auto_imports: None,
            provide_refactor_not_applicable_reason: None,
        }
    }
}

impl UserPreferences {
    /// The preferences that are sent: those that there are.
    pub open spec fn to_view(self) -> JsonView {
        let m = Seq::empty();
        let m = with_some(m, "disableSuggestions"@, bool_view(self.disable_suggestions));
        let m = with_some(
            m,
            "quotePreference"@,
            match self.quote_preference {
                Some(p) => Some(JsonView::Text(p.name())),
                None => None,
            },
        );
        let m = with_some(
            m,
            "includeCompletionsForModuleExports"@,
            bool_view(self.include_completions_for_module_exports),
        );
        let m = with_some(
            m,
            "includeAutomaticOptionalChainCompletions"@,
            bool_view(self.include_automatic_optional_chain_completions),
        );
        let m = with_some(
            m,
            "includeCompletionsWithInsertText"@,
            bool_view(self.include_completions_with_insert_text),
        );
        let m = with_some(
            m,
            "importModuleSpecifierPreference"@,
            match self.import_module_specifier_preference {
                Some(p) => Some(JsonView::Text(p.name())),
                None => None,
            },
        );
        let m = with_some(
            m,
            "importModuleSpecifierEnding"@,
            match self.import_module_specifier_ending {
                Some(p) => Some(JsonView::Text(p.name())),
                None => None,
            },
        );
        let m = with_some(
            m,
            "allowTextChangesInNewFiles"@,
            bool_view(self.allow_text_changes_in_new_files),
        );
        let m = with_some(
            m,
            "providePrefixAndSuffixTextForRename"@,
            bool_view(self.provide_prefix_and_suffix_text_for_rename),
        );
        let m = with_some(
            m,
            "includePackageJsonAutoImports"@,
            match self.include_package_json_auto_imports {
                Some(p) => Some(JsonView::Text(p.name())),
                None => None,
            },
        );
        let m = with_some(
            m,
            "provideRefactorNotApplicableReason"@,
            bool_view(self.provide_refactor_not_applicable_reason),
        );
        JsonView::Object(m)
    }

    /// The preferences that are sent: those that there are.
    pub fn to_json(&self) -> (r: Json)
        ensures
            r@ == self.to_view(),
    {
        let m: Members = Members::new();
        let m: Members = m.put_some("disableSuggestions", bool_json(self.disable_suggestions));
        let m: Members = match self.quote_preference {
            Some(p) => m.put("quotePreference", p.to_json()),
            None => m,
        };
        let m: Members = m.put_some(
            "includeCompletionsForModuleExports",
            bool_json(self.include_completions_for_module_exports),
        );
        let m: Members = m.put_some(
            "includeAutomaticOptionalChainCompletions",
            bool_json(self.include_automatic_optional_chain_completions),
        );
        let m: Members = m.put_some(
            "includeCompletionsWithInsertText",
            bool_json(self.include_completions_with_insert_text),
        );
        let m: Members = match self.import_module_specifier_preference {
            Some(p) => m.put("importModuleSpecifierPreference", p.to_json()),
            None => m,
        };
        let m: Members = match self.import_module_specifier_ending {
            Some(p) => m.put("importModuleSpecifierEnding", p.to_json()),
            None => m,
        };
        let m: Members = m.put_some(
            "allowTextChangesInNewFiles",
            bool_json(self.allow_text_changes_in_new_files),
        );
        let m: Members = m.put_some(
            "providePrefixAndSuffixTextForRename",
            bool_json(self.provide_prefix_and_suffix_text_for_rename),
        );
        let m: Members = match self.include_package_json_auto_imports {
            Some(p) => m.put("includePackageJsonAutoImports", p.to_json()),
            None => m,
        };
        let m: Members = m.put_some(
            "provideRefactorNotApplicableReason",
            bool_json(self.provide_refactor_not_applicable_reason),
        );
        m.object()
    }
}

/// What asked for help with a signature, and the character that was typed.
#[derive(Debug)]
pub struct SignatureHelpTriggerReason {
    pub kind: SignatureHelpTriggerKind,
    pub trigger_character: Option<String>,
}

impl SignatureHelpTriggerReason {
    /// The reason that is sent.
    pub open spec fn to_view(self) -> JsonView {
        JsonView::Object(
            with_some(
                seq![("kind"@, JsonView::Text(self.kind.name()))],
                "triggerCharacter"@,
                match self.trigger_character {
                    Some(c) => Some(JsonView::Text(c@)),
                    None => None,
                },
            ),
        )
    }

    /// The reason that is sent.
    pub fn to_json(&self) -> (r: Json)
        ensures
            r@ == self.to_view(),
    {
        let m: Members = Members::new().put("kind", self.kind.to_json());
        assert(m@ =~= seq![("kind"@, JsonView::Text(self.kind.name()))]);
        let m: Members = match &self.trigger_character {
            Some(c) => m.put("triggerCharacter", text(c.as_str())),
            None => m,
        };
        m.object()
    }
}

/// How help with a signature is asked for.
#[derive(Debug)]
pub struct SignatureHelpItemsOptions {
    pub trigger_reason: Option<SignatureHelpTriggerReason>,
}

impl SignatureHelpItemsOptions {
    /// The options that are sent.
    pub open spec fn to_view(self) -> JsonView {
        JsonView::Object(
            with_some(
                Seq::empty(),
                "triggerReason"@,
                match self.trigger_reason {
                    Some(reason) => Some(reason.to_view()),
                    None => None,
                },
            ),
        )
    }

    /// The options that are sent.
    pub fn to_json(&self) -> (r: Json)
        ensures
            r@ == self.to_view(),
    {
        let m: Members = Members::new();
        let m: Members = match &self.trigger_reason {
            Some(reason) => m.put("triggerReason", reason.to_json()),
            None => m,
        };
        m.object()
    }
}

/// Methods that are supported by the Language Service in the compiler isolate.
/// A module is named by its specifier, the compiler options and the identifier
/// of a fix are passed on as they are.
#[derive(Debug)]
pub enum RequestMethod {
    /// Configure the compilation settings for the server.
    Configure(Json),
    /// Get rename locations at a given position.
    FindRenameLocations((String, u32, bool, bool, bool)),
    /// Retrieve the text of an assets that exists in memory in the isolate.
    GetAsset(String),
    /// Retrieve code fixes for a range of a file with the provided error codes.
    GetCodeFixes((String, u32, u32, Vec<String>)),
    /// Get completion information at a given position (IntelliSense).
    GetCompletions((String, u32, UserPreferences)),
    /// Retrieve the combined code fixes for a fix id for a module.
    GetCombinedCodeFix((String, Json)),
    /// Get declaration information for a specific position.
    GetDefinition((String, u32)),
    /// Return diagnostics for given file.
    GetDiagnostics(Vec<String>),
    /// Return document highlights at position.
    GetDocumentHighlights((String, u32, Vec<String>)),
    /// Get implementation information for a specific position.
    GetImplementation((String, u32)),
    /// Get a "navigation tree" for a specifier.
    GetNavigationTree(String),
    /// Return quick info at position (hover information).
    GetQuickInfo((String, u32)),
    /// Get document references for a specific position.
    GetReferences((String, u32)),
    /// Get signature help items for a specific position.
    GetSignatureHelpItems((String, u32, SignatureHelpItemsOptions)),
    /// Get the diagnostic codes that support some form of code fix.
    GetSupportedCodeFixes,
}

impl RequestMethod {
    /// The name of the method.
    pub open spec fn method_name(self) -> Seq<char> {
        match self {
            RequestMethod::Configure(_) => "configure"@,
            RequestMethod::FindRenameLocations(_) => "findRenameLocations"@,
            RequestMethod::GetAsset(_) => "getAsset"@,
            RequestMethod::GetCodeFixes(_) => "getCodeFixes"@,
            RequestMethod::GetCombinedCodeFix(_) => "getCombinedCodeFix"@,
            RequestMethod::GetCompletions(_) => "getCompletions"@,
            RequestMethod::GetDefinition(_) => "getDefinition"@,
            RequestMethod::GetDiagnostics(_) => "getDiagnostics"@,
            RequestMethod::GetDocumentHighlights(_) => "getDocumentHighlights"@,
            RequestMethod::GetImplementation(_) => "getImplementation"@,
            RequestMethod::GetNavigationTree(_) => "getNavigationTree"@,
            RequestMethod::GetQuickInfo(_) => "getQuickInfo"@,
            RequestMethod::GetReferences(_) => "getReferences"@,
            RequestMethod::GetSignatureHelpItems(_) => "getSignatureHelpItems"@,
            RequestMethod::GetSupportedCodeFixes => "getSupportedCodeFixes"@,
        }
    }

    /// The parameters of the method.
    pub open spec fn parameters(self) -> Seq<(Seq<char>, JsonView)> {
        match self {
            RequestMethod::Configure(config) => seq![
                ("compilerOptions"@, config@),
            ],
            RequestMethod::FindRenameLocations(
                (specifier, position, find_in_strings, find_in_comments, provide_text),
            ) => seq![
                ("specifier"@, JsonView::Text(specifier@)),
                ("position"@, number_view(position as nat)),
                ("findInStrings"@, JsonView::Bool(find_in_strings)),
                ("findInComments"@, JsonView::Bool(find_in_comments)),
                ("providePrefixAndSuffixTextForRename"@, JsonView::Bool(provide_text)),
            ],
            RequestMethod::GetAsset(specifier) => seq![
                ("specifier"@, JsonView::Text(specifier@)),
            ],
            RequestMethod::GetCodeFixes((specifier, start_pos, end_pos, error_codes)) => seq![
                ("specifier"@, JsonView::Text(specifier@)),
                ("startPosition"@, number_view(start_pos as nat)),
                ("endPosition"@, number_view(end_pos as nat)),
                ("errorCodes"@, texts_view(error_codes@)),
            ],
            RequestMethod::GetCombinedCodeFix((specifier, fix_id)) => seq![
                ("specifier"@, JsonView::Text(specifier@)),
                ("fixId"@, fix_id@),
            ],
            RequestMethod::GetCompletions((specifier, position, preferences)) => seq![
                ("specifier"@, JsonView::Text(specifier@)),
                ("position"@, number_view(position as nat)),
                ("preferences"@, preferences.to_view()),
            ],
            RequestMethod::GetDefinition((specifier, position)) => seq![
                ("specifier"@, JsonView::Text(specifier@)),
                ("position"@, number_view(position as nat)),
            ],
            RequestMethod::GetDiagnostics(specifiers) => seq![
                ("specifiers"@, texts_view(specifiers@)),
            ],
            RequestMethod::GetDocumentHighlights((specifier, position, files_to_search)) => seq![
                ("specifier"@, JsonView::Text(specifier@)),
                ("position"@, number_view(position as nat)),
                ("filesToSearch"@, texts_view(files_to_search@)),
            ],
            RequestMethod::GetImplementation((specifier, position)) => seq![
                ("specifier"@, JsonView::Text(specifier@)),
                ("position"@, number_view(position as nat)),
            ],
            RequestMethod::GetNavigationTree(specifier) => seq![
                ("specifier"@, JsonView::Text(specifier@)),
            ],
            RequestMethod::GetQuickInfo((specifier, position)) => seq![
                ("specifier"@, JsonView::Text(specifier@)),
                ("position"@, number_view(position as nat)),
            ],
            RequestMethod::GetReferences((specifier, position)) => seq![
                ("specifier"@, JsonView::Text(specifier@)),
                ("position"@, number_view(position as nat)),
            ],
            RequestMethod::GetSignatureHelpItems((specifier, position, options)) => seq![
                ("specifier"@, JsonView::Text(specifier@)),
                ("position"@, number_view(position as nat)),
                ("options"@, options.to_view()),
            ],
            RequestMethod::GetSupportedCodeFixes => seq![],
        }
    }

    /// The request: its number, the name of the method and the parameters.
    pub open spec fn request_view(self, id: nat) -> JsonView {
        JsonView::Object(
            seq![("id"@, number_view(id)), ("method"@, JsonView::Text(self.method_name()))]
                + self.parameters(),
        )
    }

    /// The request with a number.
    pub fn to_value(&self, id: usize) -> (r: Json)
        ensures
            r@ == self.request_view(id as nat),
    {
        let start: Members = Members::new().put("id", number(id as u64));
        let members: Members = match self {
            RequestMethod::Configure(config) => start.put("method", text("configure")).put(
                "compilerOptions",
                json_clone(config),
            ),
            RequestMethod::FindRenameLocations(
                (specifier, position, find_in_strings, find_in_comments, provide_text),
            ) => start.put("method", text("findRenameLocations")).put(
                "specifier",
                text(specifier.as_str()),
            ).put(
                "position",
                number(*position as u64),
            ).put(
                "findInStrings",
                Json::Bool(*find_in_strings),
            ).put(
                "findInComments",
                Json::Bool(*find_in_comments),
            ).put(
                "providePrefixAndSuffixTextForRename",
                Json::Bool(*provide_text),
            ),
            RequestMethod::GetAsset(specifier) => start.put("method", text("getAsset")).put(
                "specifier",
                text(specifier.as_str()),
            ),
            RequestMethod::GetCodeFixes(
                (specifier, start_pos, end_pos, error_codes),
            ) => start.put("method", text("getCodeFixes")).put(
                "specifier",
                text(specifier.as_str()),
            ).put(
                "startPosition",
                number(*start_pos as u64),
            ).put(
                "endPosition",
                number(*end_pos as u64),
            ).put(
                "errorCodes",
                text_array(error_codes),
            ),
            RequestMethod::GetCombinedCodeFix(
                (specifier, fix_id),
            ) => start.put("method", text("getCombinedCodeFix")).put(
                "specifier",
                text(specifier.as_str()),
            ).put(
                "fixId",
                json_clone(fix_id),
            ),
            RequestMethod::GetCompletions(
                (specifier, position, preferences),
            ) => start.put("method", text("getCompletions")).put(
                "specifier",
                text(specifier.as_str()),
            ).put(
                "position",
                number(*position as u64),
            ).put(
                "preferences",
                preferences.to_json(),
            ),
            RequestMethod::GetDefinition(
                (specifier, position),
            ) => start.put("method", text("getDefinition")).put(
                "specifier",
                text(specifier.as_str()),
            ).put(
                "position",
                number(*position as u64),
            ),
            RequestMethod::GetDiagnostics(specifiers) => start.put("method", text("getDiagnostics")).put(
                "specifiers",
                text_array(specifiers),
            ),
            RequestMethod::GetDocumentHighlights(
                (specifier, position, files_to_search),
            ) => start.put("method", text("getDocumentHighlights")).put(
                "specifier",
                text(specifier.as_str()),
            ).put(
                "position",
                number(*position as u64),
            ).put(
                "filesToSearch",
                text_array(files_to_search),
            ),
            RequestMethod::GetImplementation(
                (specifier, position),
            ) => start.put("method", text("getImplementation")).put(
                "specifier",
                text(specifier.as_str()),
            ).put(
                "position",
                number(*position as u64),
            ),
            RequestMethod::GetNavigationTree(specifier) => start.put("method", text("getNavigationTree")).put(
                "specifier",
                text(specifier.as_str()),
            ),
            RequestMethod::GetQuickInfo(
                (specifier, position),
            ) => start.put("method", text("getQuickInfo")).put(
                "specifier",
                text(specifier.as_str()),
            ).put(
                "position",
                number(*position as u64),
            ),
            RequestMethod::GetReferences(
                (specifier, position),
            ) => start.put("method", text("getReferences")).put(
                "specifier",
                text(specifier.as_str()),
            ).put(
                "position",
                number(*position as u64),
            ),
            RequestMethod::GetSignatureHelpItems(
                (specifier, position, options),
            ) => start.put("method", text("getSignatureHelpItems")).put(
                "specifier",
                text(specifier.as_str()),
            ).put(
                "position",
                number(*position as u64),
            ).put(
                "options",
                options.to_json(),
            ),
            RequestMethod::GetSupportedCodeFixes => start.put("method", text("getSupportedCodeFixes")),
        };
        assert(members@ =~= self.request_view(id as nat)->Object_0);
        members.object()
    }
}

/// The script that hands a request to the language service.
pub fn request_source(request_params: &str) -> (r: String)
    ensures
        r@ == "globalThis.serverRequest("@ + request_params@ + ");"@,
{
    concat3("globalThis.serverRequest(", request_params, ");")
}

/// The configuration that the language service is started with.
pub open spec fn init_config_view(debug: bool) -> JsonView {
    JsonView::Object(seq![("debug"@, JsonView::Bool(debug))])
}

/// The configuration that the language service is started with.
pub fn init_config(debug: bool) -> (r: Json)
    ensures
        r@ == init_config_view(debug),
{
    let members: Members = Members::new().put("debug", Json::Bool(debug));
    assert(members@ =~= seq![("debug"@, JsonView::Bool(debug))]);
    members.object()
}

/// The script that starts the language service.
pub fn init_source(init_config: &str) -> (r: String)
    ensures
        r@ == "globalThis.serverInit("@ + init_config@ + ");"@,
{
    concat3("globalThis.serverInit(", init_config, ");")
}

/// The method that a request names tells which request it is: requests of
/// different methods are never sent as the same value.
pub proof fn law_requests_of_different_methods_differ(
    a: RequestMethod,
    b: RequestMethod,
    m: nat,
    n: nat,
)
    requires
        a.method_name() != b.method_name(),
    ensures
        a.request_view(m) != b.request_view(n),
{
    let x = a.request_view(m)->Object_0;
    let y = b.request_view(n)->Object_0;
    assert(x[1] == ("method"@, JsonView::Text(a.method_name())));
    assert(y[1] == ("method"@, JsonView::Text(b.method_name())));
}

} // verus!
