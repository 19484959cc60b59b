//! What the editor is sent.
use vstd::prelude::*;
use crate::lsp::json::Json;
use crate::lsp::json::JsonView;
use crate::lsp::lines::Range;
use crate::text::opt_text;

verus! {

/// What the items of a list say.
pub open spec fn views<T: View>(list: Seq<T>) -> Seq<T::V> {
    Seq::new(list.len(), |i: int| list[i]@)
}

/// A piece of a hover: Markdown, or code in a language.
#[derive(Debug)]
pub enum MarkedString {
    Markdown(String),
    Code { language: String, value: String },
}

/// What a piece of a hover says.
#[verifier::ext_equal]
pub enum MarkedView {
    Markdown(Seq<char>),
    Code { language: Seq<char>, value: Seq<char> },
}

impl View for MarkedString {
    type V = MarkedView;

    open spec fn view(&self) -> MarkedView {
        match self {
            MarkedString::Markdown(text) => MarkedView::Markdown(text@),
            MarkedString::Code { language, value } => MarkedView::Code {
                language: language@,
                value: value@,
            },
        }
    }
}

/// What is shown over a range.
#[derive(Debug)]
pub struct Hover {
    pub contents: Vec<MarkedString>,
    pub range: Option<Range>,
}

/// A place in a document.
#[derive(Debug)]
pub struct Location {
    pub uri: String,
    pub range: Range,
}

/// A link from one place to another.
#[derive(Debug)]
pub struct LocationLink {
    pub origin_selection_range: Option<Range>,
    pub target_uri: String,
    pub target_range: Range,
    pub target_selection_range: Range,
}

/// What a link says.
#[verifier::ext_equal]
pub struct LinkView {
    pub origin_selection_range: Option<Range>,
    pub target_uri: Seq<char>,
    pub target_range: Range,
    pub target_selection_range: Range,
}

impl View for LocationLink {
    type V = LinkView;

    open spec fn view(&self) -> LinkView {
        LinkView {
            origin_selection_range: self.origin_selection_range,
            target_uri: self.target_uri@,
            target_range: self.target_range,
            target_selection_range: self.target_selection_range,
        }
    }
}

/// A replacement of a range by a text.
#[derive(Debug)]
pub struct TextEdit {
    pub range: Range,
    pub new_text: String,
}

/// What a replacement says.
#[verifier::ext_equal]
pub struct EditView {
    pub range: Range,
    pub new_text: Seq<char>,
}

impl View for TextEdit {
    type V = EditView;

    open spec fn view(&self) -> EditView {
        EditView { range: self.range, new_text: self.new_text@ }
    }
}

/// Replacements in a document of a known version.
#[derive(Debug)]
pub struct TextDocumentEdit {
    pub uri: String,
    pub version: Option<i32>,
    pub edits: Vec<TextEdit>,
}

/// What the replacements in a document say.
#[verifier::ext_equal]
pub struct DocumentEditView {
    pub uri: Seq<char>,
    pub version: Option<i32>,
    pub edits: Seq<EditView>,
}

impl View for TextDocumentEdit {
    type V = DocumentEditView;

    open spec fn view(&self) -> DocumentEditView {
        DocumentEditView { uri: self.uri@, version: self.version, edits: views(self.edits@) }
    }
}

/// Replacements in several documents.
#[derive(Debug)]
pub struct WorkspaceEdit {
    pub document_changes: Vec<TextDocumentEdit>,
}

/// Whether a highlighted place reads or writes.
#[derive(Clone, Copy, PartialEq, Eq, Structural, Debug)]
pub enum DocumentHighlightKind {
    Read,
    Write,
}

/// A highlighted place.
#[derive(Clone, Copy, PartialEq, Eq, Structural, Debug)]
pub struct DocumentHighlight {
    pub range: Range,
    pub kind: DocumentHighlightKind,
}

/// The kinds of completions that are offered.
#[derive(Clone, Copy, PartialEq, Eq, Structural, Debug)]
pub enum CompletionItemKind {
    Keyword,
    Constant,
    Variable,
    Field,
    Function,
    Method,
    Enum,
    Module,
    Class,
    Interface,
    File,
    Folder,
    Property,
}

/// A completion that is offered. Where `snippet` holds, the text to insert is
/// one.
#[derive(Debug)]
pub struct CompletionItem {
    pub label: String,
    pub kind: CompletionItemKind,
    pub sort_text: String,
    pub preselect: Option<bool>,
    pub snippet: bool,
    pub filter_text: Option<String>,
    pub insert_text: Option<String>,
    pub text_edit: Option<TextEdit>,
}

/// What an offered completion says.
#[verifier::ext_equal]
pub struct CompletionItemView {
    pub label: Seq<char>,
    pub kind: CompletionItemKind,
    pub sort_text: Seq<char>,
    pub preselect: Option<bool>,
    pub snippet: bool,
    pub filter_text: Option<Seq<char>>,
    pub insert_text: Option<Seq<char>>,
    pub text_edit: Option<EditView>,
}

impl View for CompletionItem {
    type V = CompletionItemView;

    open spec fn view(&self) -> CompletionItemView {
        CompletionItemView {
            label: self.label@,
            kind: self.kind,
            sort_text: self.sort_text@,
            preselect: self.preselect,
            snippet: self.snippet,
            filter_text: opt_text(self.filter_text),
            insert_text: opt_text(self.insert_text),
            text_edit: match self.text_edit {
                Some(edit) => Some(edit@),
                None => None,
            },
        }
    }
}

/// A parameter of a signature.
#[derive(Debug)]
pub struct ParameterInformation {
    pub label: String,
    pub documentation: String,
}

/// What a parameter of a signature says.
#[verifier::ext_equal]
pub struct ParameterView {
    pub label: Seq<char>,
    pub documentation: Seq<char>,
}

impl View for ParameterInformation {
    type V = ParameterView;

    open spec fn view(&self) -> ParameterView {
        ParameterView { label: self.label@, documentation: self.documentation@ }
    }
}

/// A signature.
#[derive(Debug)]
pub struct SignatureInformation {
    pub label: String,
    pub documentation: String,
    pub parameters: Vec<ParameterInformation>,
}

/// What a signature says.
#[verifier::ext_equal]
pub struct SignatureView {
    pub label: Seq<char>,
    pub documentation: Seq<char>,
    pub parameters: Seq<ParameterView>,
}

impl View for SignatureInformation {
    type V = SignatureView;

    open spec fn view(&self) -> SignatureView {
        SignatureView {
            label: self.label@,
            documentation: self.documentation@,
            parameters: views(self.parameters@),
        }
    }
}

/// Help with a call: the signatures, and which of them and which parameter are
/// active.
#[derive(Debug)]
pub struct SignatureHelp {
    pub signatures: Vec<SignatureInformation>,
    pub active_signature: u32,
    pub active_parameter: u32,
}

/// A command that is offered over a range, to be resolved from its data.
#[derive(Debug)]
pub struct CodeLens {
    pub range: Range,
    pub data: Json,
}

/// The data of a code lens.
pub open spec fn lens_data(specifier: Seq<char>, source: JsonView) -> JsonView {
    JsonView::Object(seq![("specifier"@, JsonView::Text(specifier)), ("source"@, source)])
}

/// What the items of a list say is what each of them says, in its place.
pub proof fn law_views_of_a_list<T: View>(list: Seq<T>, i: int)
    requires
        0 <= i < list.len(),
    ensures
        views(list).len() == list.len(),
        views(list)[i] == list[i]@,
{
}

/// What is sent to the editor says all that it holds.
pub proof fn law_editor_gets_what_is_said(
    marked: MarkedString,
    link: LocationLink,
    edit: TextEdit,
    document: TextDocumentEdit,
    item: CompletionItem,
    parameter: ParameterInformation,
    signature: SignatureInformation,
)
    ensures
        match (marked, marked@) {
            (MarkedString::Markdown(a), MarkedView::Markdown(b)) => a@ == b,
            (
                MarkedString::Code { language: a, value: x },
                MarkedView::Code { language: b, value: y },
            ) => a@ == b && x@ == y,
            _ => false,
        },
        link@.origin_selection_range == link.origin_selection_range,
        link@.target_uri == link.target_uri@,
        link@.target_range == link.target_range,
        link@.target_selection_range == link.target_selection_range,
        edit@.range == edit.range && edit@.new_text == edit.new_text@,
        document@.uri == document.uri@ && document@.version == document.version,
        document@.edits == views(document.edits@),
        item@.label == item.label@ && item@.kind == item.kind && item@.sort_text
            == item.sort_text@,
        item@.preselect == item.preselect && item@.snippet == item.snippet,
        item@.filter_text == opt_text(item.filter_text),
        item@.insert_text == opt_text(item.insert_text),
        item.text_edit is None ==> item@.text_edit is None,
        item.text_edit matches Some(e) ==> item@.text_edit == Some(e@),
        parameter@.label == parameter.label@ && parameter@.documentation
            == parameter.documentation@,
        signature@.label == signature.label@ && signature@.documentation
            == signature.documentation@,
        signature@.parameters == views(signature.parameters@),
{
}

} // verus!
