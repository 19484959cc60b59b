//! Definitions, implementations, references and highlights.
use vstd::prelude::*;
use crate::error::result_view;
use crate::error::AnyError;
use crate::lsp::docs::SymbolDisplayPart;
use crate::lsp::lines::LineIndex;
use crate::lsp::lines::Range;
use crate::lsp::protocol::views;
use crate::lsp::protocol::DocumentHighlight;
use crate::lsp::protocol::DocumentHighlightKind;
use crate::lsp::protocol::LinkView;
use crate::lsp::protocol::Location;
use crate::lsp::protocol::LocationLink;
use crate::lsp::results::DocumentSpan;
use crate::lsp::results::LinkTarget;
use crate::lsp::results::ScriptElementKind;
use crate::lsp::results::TextSpan;
use crate::specifier::specifier_of;

verus! {

/// A place where something is implemented.
#[derive(Debug)]
pub struct ImplementationLocation {
    pub document_span: DocumentSpan,
    pub kind: ScriptElementKind,
    pub display_parts: Vec<SymbolDisplayPart>,
}

impl ImplementationLocation {
    /// The specifier of the document.
    pub fn specifier(&self) -> (r: Result<String, AnyError>)
        ensures
            result_view(r) == specifier_of(self.document_span.file_name@),
    {
        self.document_span.specifier()
    }

    /// The place, given the URI that the editor knows the document by.
    pub fn to_location(&self, line_index: &LineIndex, uri: &str) -> (r: Location)
        requires
            self.document_span.text_span.fits(),
        ensures
            r.uri@ == uri@,
            r.range == self.document_span.text_span.range(line_index@),
    {
        Location {
            uri: uri.to_owned(),
            range: self.document_span.text_span.to_range(line_index),
        }
    }

    /// The link to the place, where the lines of its document are known.
    pub fn to_link(&self, line_index: &LineIndex, target: &Option<LinkTarget>) -> (r: Option<
        LocationLink,
    >)
        requires
            self.document_span.fits(),
        ensures
            match (*target, r) {
                (Some(t), Some(link)) => link@ == self.document_span.link(
                    line_index@,
                    t.line_index@,
                    t.uri@,
                ),
                (None, None) => true,
                _ => false,
            },
    {
        self.document_span.to_link(line_index, target)
    }
}

/// A place where something is referred to.
#[derive(Debug)]
pub struct ReferenceEntry {
    pub is_write_access: bool,
    pub is_definition: bool,
    pub is_in_string: Option<bool>,
    pub document_span: DocumentSpan,
}

impl ReferenceEntry {
    /// The specifier of the document.
    pub fn specifier(&self) -> (r: Result<String, AnyError>)
        ensures
            result_view(r) == specifier_of(self.document_span.file_name@),
    {
        self.document_span.specifier()
    }

    /// The place, given the URI that the editor knows the document by.
    pub fn to_location(&self, line_index: &LineIndex, uri: &str) -> (r: Location)
        requires
            self.document_span.text_span.fits(),
        ensures
            r.uri@ == uri@,
            r.range == self.document_span.text_span.range(line_index@),
    {
        Location {
            uri: uri.to_owned(),
            range: self.document_span.text_span.to_range(line_index),
        }
    }
}

/// A place where something is defined.
#[derive(Debug)]
pub struct DefinitionInfo {
    pub kind: ScriptElementKind,
    pub name: String,
    pub container_kind: Option<ScriptElementKind>,
    pub container_name: Option<String>,
    pub document_span: DocumentSpan,
}

/// The places where the thing at a place is defined.
#[derive(Debug)]
pub struct DefinitionInfoAndBoundSpan {
    pub definitions: Option<Vec<DefinitionInfo>>,
    pub text_span: TextSpan,
}

/// The links to those of the first `n` definitions whose documents are known.
pub open spec fn definition_links(
    definitions: Seq<DefinitionInfo>,
    targets: Seq<Option<LinkTarget>>,
    starts: Seq<u32>,
    n: nat,
) -> Seq<LinkView>
    decreases n,
{
    if n == 0 {
        Seq::empty()
    } else {
        let before = definition_links(definitions, targets, starts, (n - 1) as nat);
        match targets[n - 1] {
            Some(t) => before.push(
                definitions[n - 1].document_span.link(starts, t.line_index@, t.uri@),
            ),
            None => before,
        }
    }
}

impl DefinitionInfoAndBoundSpan {
    /// The links to the definitions, given the document of each, where its lines
    /// are known.
    pub fn to_definition(&self, line_index: &LineIndex, targets: &Vec<Option<LinkTarget>>) -> (r:
        Option<Vec<LocationLink>>)
        requires
            self.definitions matches Some(definitions) ==> {
                &&& targets@.len() == definitions@.len()
                &&& forall|i: int|
                    0 <= i < definitions@.len() ==> (
                    #[trigger] definitions@[i]).document_span.fits()
            },
        ensures
            match (self.definitions, r) {
                (Some(definitions), Some(links)) => views(links@) == definition_links(
                    definitions@,
                    targets@,
                    line_index@,
                    definitions@.len(),
                ),
                (None, None) => true,
                _ => false,
            },
    {
        match &self.definitions {
            None => None,
            Some(definitions) => {
                let mut links: Vec<LocationLink> = Vec::new();
                let mut n: usize = 0;
                assert(views(links@) =~= Seq::empty());
                while n < definitions.len()
                    invariant
                        n <= definitions@.len(),
                        targets@.len() == definitions@.len(),
                        forall|i: int|
                            0 <= i < definitions@.len() ==> (
                            #[trigger] definitions@[i]).document_span.fits(),
                        views(links@) == definition_links(
                            definitions@,
                            targets@,
                            line_index@,
                            n as nat,
                        ),
                    decreases definitions.len() - n,
                {
                    let ghost before = links@;
                    if let Some(link) = definitions[n].document_span.to_link(
                        line_index,
                        &targets[n],
                    ) {
                        links.push(link);
                        assert(views(links@) =~= views(before).push(link@));
                    }
                    n = n + 1;
                }
                Some(links)
            },
        }
    }
}

/// What a highlighted stretch does.
#[derive(Clone, Copy, PartialEq, Eq, Structural, Debug)]
pub enum HighlightSpanKind {
    Unspecified,
    Definition,
    Reference,
    WrittenReference,
}

/// A highlighted stretch.
#[derive(Debug)]
pub struct HighlightSpan {
    pub file_name: Option<String>,
    pub is_in_string: Option<bool>,
    pub text_span: TextSpan,
    pub context_span: Option<TextSpan>,
    pub kind: HighlightSpanKind,
}

impl HighlightSpan {
    /// The stretch as the editor is sent it: it writes only where it is a
    /// reference that is written.
    pub open spec fn highlight(self, starts: Seq<u32>) -> DocumentHighlight {
        DocumentHighlight {
            range: self.text_span.range(starts),
            kind: if self.kind == HighlightSpanKind::WrittenReference {
                DocumentHighlightKind::Write
            } else {
                DocumentHighlightKind::Read
            },
        }
    }
}

/// The highlighted stretches of a file.
#[derive(Debug)]
pub struct DocumentHighlights {
    pub file_name: String,
    pub highlight_spans: Vec<HighlightSpan>,
}

impl DocumentHighlights {
    /// The stretches as the editor is sent them.
    pub fn to_highlight(&self, line_index: &LineIndex) -> (r: Vec<DocumentHighlight>)
        requires
            forall|i: int|
                0 <= i < self.highlight_spans@.len() ==> (
                #[trigger] self.highlight_spans@[i]).text_span.fits(),
        ensures
            r@ == Seq::new(
                self.highlight_spans@.len(),
                |i: int| self.highlight_spans@[i].highlight(line_index@),
            ),
    {
        let mut highlights: Vec<DocumentHighlight> = Vec::new();
        let mut i: usize = 0;
        while i < self.highlight_spans.len()
            invariant
                i <= self.highlight_spans@.len(),
                highlights@.len() == i,
                forall|i: int|
                    0 <= i < self.highlight_spans@.len() ==> (
                    #[trigger] self.highlight_spans@[i]).text_span.fits(),
                forall|j: int|
                    0 <= j < i ==> #[trigger] highlights@[j] == self.highlight_spans@[j].highlight(
                        line_index@,
                    ),
            decreases self.highlight_spans.len() - i,
        {
            let span: &HighlightSpan = &self.highlight_spans[i];
            let range: Range = span.text_span.to_range(line_index);
            let kind: DocumentHighlightKind = match span.kind {
                HighlightSpanKind::WrittenReference => DocumentHighlightKind::Write,
                _ => DocumentHighlightKind::Read,
            };
            highlights.push(DocumentHighlight { range, kind });
            i = i + 1;
        }
        assert(highlights@ =~= Seq::new(
            self.highlight_spans@.len(),
            |i: int| self.highlight_spans@[i].highlight(line_index@),
        ));
        highlights
    }
}

} // verus!
