//! The answers of the language service, and what the editor is sent for them.
use vstd::prelude::*;
use crate::error::result_view;
use crate::error::AnyError;
use crate::lsp::docs::display_parts_to_string;
use crate::lsp::docs::display_text;
use crate::lsp::docs::get_tag_documentation;
use crate::lsp::docs::tag_documentation;
use crate::lsp::docs::JSDocTagInfo;
use crate::lsp::docs::SymbolDisplayPart;
use crate::lsp::json::text;
use crate::lsp::json::Json;
use crate::lsp::json::Members;
use crate::lsp::lines::empty_range;
use crate::lsp::lines::increasing;
use crate::lsp::lines::law_positions_keep_order;
use crate::lsp::lines::position;
use crate::lsp::lines::LineIndex;
use crate::lsp::lines::Position;
use crate::lsp::lines::Range;
use crate::lsp::protocol::lens_data;
use crate::lsp::protocol::views;
use crate::lsp::protocol::CodeLens;
use crate::lsp::protocol::CompletionItemKind;
use crate::lsp::protocol::Hover;
use crate::lsp::protocol::LinkView;
use crate::lsp::protocol::LocationLink;
use crate::lsp::protocol::MarkedString;
use crate::lsp::protocol::MarkedView;
use crate::specifier::resolve_url;
use crate::specifier::specifier_of;
use crate::text::concat2;
use crate::text::join;
use crate::text::joined;
use crate::text::opt_text;
use crate::text::texts;

verus! {

/// What an element of a script is.
#[derive(Clone, Copy, PartialEq, Eq, Structural, Debug)]
pub enum ScriptElementKind {
    Unknown,
    Warning,
    Keyword,
    ScriptElement,
    ModuleElement,
    ClassElement,
    LocalClassElement,
    InterfaceElement,
    TypeElement,
    EnumElement,
    EnumMemberElement,
    VariableElement,
    LocalVariableElement,
    FunctionElement,
    LocalFunctionElement,
    MemberFunctionElement,
    MemberGetAccessorElement,
    MemberSetAccessorElement,
    MemberVariableElement,
    ConstructorImplementationElement,
    CallSignatureElement,
    IndexSignatureElement,
    ConstructSignatureElement,
    ParameterElement,
    TypeParameterElement,
    PrimitiveType,
    Label,
    Alias,
    ConstElement,
    LetElement,
    Directory,
    ExternalModuleName,
    JsxAttribute,
    String,
}

impl ScriptElementKind {
    /// The kind of completion that an element is offered as.
    pub open spec fn item_kind(self) -> CompletionItemKind {
        match self {
            ScriptElementKind::PrimitiveType => CompletionItemKind::Keyword,
            ScriptElementKind::Keyword => CompletionItemKind::Keyword,
            ScriptElementKind::ConstElement => CompletionItemKind::Constant,
            ScriptElementKind::LetElement => CompletionItemKind::Variable,
            ScriptElementKind::VariableElement => CompletionItemKind::Variable,
            ScriptElementKind::LocalVariableElement => CompletionItemKind::Variable,
            ScriptElementKind::Alias => CompletionItemKind::Variable,
            ScriptElementKind::MemberVariableElement => CompletionItemKind::Field,
            ScriptElementKind::MemberGetAccessorElement => CompletionItemKind::Field,
            ScriptElementKind::MemberSetAccessorElement => CompletionItemKind::Field,
            ScriptElementKind::FunctionElement => CompletionItemKind::Function,
            ScriptElementKind::MemberFunctionElement => CompletionItemKind::Method,
            ScriptElementKind::ConstructSignatureElement => CompletionItemKind::Method,
            ScriptElementKind::CallSignatureElement => CompletionItemKind::Method,
            ScriptElementKind::IndexSignatureElement => CompletionItemKind::Method,
            ScriptElementKind::EnumElement => CompletionItemKind::Enum,
            ScriptElementKind::ModuleElement => CompletionItemKind::Module,
            ScriptElementKind::ExternalModuleName => CompletionItemKind::Module,
            ScriptElementKind::ClassElement => CompletionItemKind::Class,
            ScriptElementKind::TypeElement => CompletionItemKind::Class,
            ScriptElementKind::InterfaceElement => CompletionItemKind::Interface,
            ScriptElementKind::Warning => CompletionItemKind::File,
            ScriptElementKind::ScriptElement => CompletionItemKind::File,
            ScriptElementKind::Directory => CompletionItemKind::Folder,
            ScriptElementKind::String => CompletionItemKind::Constant,
            _ => CompletionItemKind::Property,
        }
    }
}

impl From<ScriptElementKind> for CompletionItemKind {
    fn from(kind: ScriptElementKind) -> (r: Self) {
        match kind {
            ScriptElementKind::PrimitiveType
            | ScriptElementKind::Keyword => CompletionItemKind::Keyword,
            ScriptElementKind::ConstElement => CompletionItemKind::Constant,
            ScriptElementKind::LetElement
            | ScriptElementKind::VariableElement
            | ScriptElementKind::LocalVariableElement
            | ScriptElementKind::Alias => CompletionItemKind::Variable,
            ScriptElementKind::MemberVariableElement
            | ScriptElementKind::MemberGetAccessorElement
            | ScriptElementKind::MemberSetAccessorElement => CompletionItemKind::Field,
            ScriptElementKind::FunctionElement => CompletionItemKind::Function,
            ScriptElementKind::MemberFunctionElement
            | ScriptElementKind::ConstructSignatureElement
            | ScriptElementKind::CallSignatureElement
            | ScriptElementKind::IndexSignatureElement => CompletionItemKind::Method,
            ScriptElementKind::EnumElement => CompletionItemKind::Enum,
            ScriptElementKind::ModuleElement
            | ScriptElementKind::ExternalModuleName => CompletionItemKind::Module,
            ScriptElementKind::ClassElement
            | ScriptElementKind::TypeElement => CompletionItemKind::Class,
            ScriptElementKind::InterfaceElement => CompletionItemKind::Interface,
            ScriptElementKind::Warning
            | ScriptElementKind::ScriptElement => CompletionItemKind::File,
            ScriptElementKind::Directory => CompletionItemKind::Folder,
            ScriptElementKind::String => CompletionItemKind::Constant,
            _ => CompletionItemKind::Property,
        }
    }
}

impl vstd::std_specs::convert::FromSpecImpl<ScriptElementKind> for CompletionItemKind {
    open spec fn obeys_from_spec() -> bool {
        true
    }

    open spec fn from_spec(kind: ScriptElementKind) -> Self {
        kind.item_kind()
    }
}

/// A stretch of text: where it starts and how long it is, in UTF-16 code units.
#[derive(Clone, Copy, PartialEq, Eq, Structural, Debug)]
pub struct TextSpan {
    pub start: u32,
    pub length: u32,
}

impl TextSpan {
    /// The end of the stretch can be counted.
    pub open spec fn fits(self) -> bool {
        self.start + self.length <= u32::MAX
    }

    /// The range of the stretch in a text whose lines start at these offsets.
    pub open spec fn range(self, starts: Seq<u32>) -> Range {
        Range {
            start: position(starts, self.start),
            end: position(starts, (self.start + self.length) as u32),
        }
    }

    /// The range of the stretch.
    pub fn to_range(&self, line_index: &LineIndex) -> (r: Range)
        requires
            self.fits(),
        ensures
            r == self.range(line_index@),
    {
        Range {
            start: line_index.position_tsc(self.start),
            end: line_index.position_tsc(self.start + self.length),
        }
    }
}

/// An optional stretch can be counted.
pub open spec fn opt_fits(span: Option<TextSpan>) -> bool {
    span matches Some(span) ==> span.fits()
}

/// What is known of the symbol at a place.
#[derive(Debug)]
pub struct QuickInfo {
    pub kind: ScriptElementKind,
    pub kind_modifiers: String,
    pub text_span: TextSpan,
    pub display_parts: Option<Vec<SymbolDisplayPart>>,
    pub documentation: Option<Vec<SymbolDisplayPart>>,
    pub tags: Option<Vec<JSDocTagInfo>>,
}

/// The documentation of tags, one under the other.
pub open spec fn tags_preview(tags: Seq<JSDocTagInfo>) -> Seq<char> {
    joined(
        Seq::new(tags.len(), |i: int| tag_documentation(tags[i].name@, opt_text(tags[i].text))),
        "  \n\n"@,
    )
}

impl QuickInfo {
    /// What the hover shows: the display of the symbol as TypeScript, its
    /// documentation, and that of its tags where it is not empty.
    pub open spec fn hover_contents(self) -> Seq<MarkedView> {
        let display = match self.display_parts {
            Some(parts) => seq![
                MarkedView::Code { language: "typescript"@, value: display_text(parts@) },
            ],
            None => Seq::empty(),
        };
        let documentation = match self.documentation {
            Some(parts) => seq![MarkedView::Markdown(display_text(parts@))],
            None => Seq::empty(),
        };
        let tags = match self.tags {
            Some(tags) => if tags_preview(tags@).len() > 0 {
                seq![MarkedView::Markdown("\n\n"@ + tags_preview(tags@))]
            } else {
                Seq::empty()
            },
            None => Seq::empty(),
        };
        display + documentation + tags
    }

    /// What is shown over the symbol.
    pub fn to_hover(&self, line_index: &LineIndex) -> (r: Hover)
        requires
            self.text_span.fits(),
        ensures
            views(r.contents@) == self.hover_contents(),
            r.range == Some(self.text_span.range(line_index@)),
    {
        let mut contents: Vec<MarkedString> = Vec::new();
        if let Some(parts) = &self.display_parts {
            let value: String = display_parts_to_string(parts);
            contents.push(MarkedString::Code { language: "typescript".to_owned(), value });
        }
        if let Some(parts) = &self.documentation {
            contents.push(MarkedString::Markdown(display_parts_to_string(parts)));
        }
        if let Some(tags) = &self.tags {
            let preview: String = preview_of_tags(tags);
            if preview.as_str().unicode_len() > 0 {
                contents.push(MarkedString::Markdown(concat2("\n\n", preview.as_str())));
            }
        }
        assert(views(contents@) =~= self.hover_contents());
        Hover { contents, range: Some(self.text_span.to_range(line_index)) }
    }
}

/// The documentation of tags, one under the other.
fn preview_of_tags(tags: &Vec<JSDocTagInfo>) -> (r: String)
    ensures
        r@ == tags_preview(tags@),
{
    let mut pieces: Vec<String> = Vec::new();
    let mut i: usize = 0;
    while i < tags.len()
        invariant
            i <= tags.len(),
            pieces@.len() == i,
            forall|j: int|
                0 <= j < i ==> #[trigger] pieces@[j]@ == tag_documentation(
                    tags@[j].name@,
                    opt_text(tags@[j].text),
                ),
        decreases tags.len() - i,
    {
        pieces.push(get_tag_documentation(&tags[i]));
        i = i + 1;
    }
    assert(texts(pieces@) =~= Seq::new(
        tags@.len(),
        |i: int| tag_documentation(tags@[i].name@, opt_text(tags@[i].text)),
    ));
    join(&pieces, "  \n\n")
}

/// A stretch of a document, and the stretch of another that it was generated
/// from.
#[derive(Debug)]
pub struct DocumentSpan {
    pub text_span: TextSpan,
    pub file_name: String,
    pub original_text_span: Option<TextSpan>,
    pub original_file_name: Option<String>,
    pub context_span: Option<TextSpan>,
    pub original_context_span: Option<TextSpan>,
}

impl DocumentSpan {
    /// The ends of the stretches can be counted.
    pub open spec fn fits(self) -> bool {
        &&& self.text_span.fits()
        &&& opt_fits(self.original_text_span)
        &&& opt_fits(self.context_span)
        &&& opt_fits(self.original_context_span)
    }

    /// The link from a document with lines that start at `starts` to the document
    /// of the stretch.
    pub open spec fn link(
        self,
        starts: Seq<u32>,
        target_starts: Seq<u32>,
        target_uri: Seq<char>,
    ) -> LinkView {
        LinkView {
            origin_selection_range: match (self.original_context_span, self.original_text_span) {
                (Some(span), _) => Some(span.range(starts)),
                (None, Some(span)) => Some(span.range(starts)),
                (None, None) => None,
            },
            target_uri,
            target_range: match self.context_span {
                Some(span) => span.range(target_starts),
                None => self.text_span.range(target_starts),
            },
            target_selection_range: self.text_span.range(target_starts),
        }
    }

    /// The specifier of the document.
    pub fn specifier(&self) -> (r: Result<String, AnyError>)
        ensures
            result_view(r) == specifier_of(self.file_name@),
    {
        resolve_url(self.file_name.as_str())
    }

    /// The link to the stretch, where the lines of its document are known.
    pub fn to_link(&self, line_index: &LineIndex, target: &Option<LinkTarget>) -> (r: Option<
        LocationLink,
    >)
        requires
            self.fits(),
        ensures
            match (*target, r) {
                (Some(t), Some(link)) => link@ == self.link(line_index@, t.line_index@, t.uri@),
                (None, None) => true,
                _ => false,
            },
    {
        match target {
            None => None,
            Some(target) => {
                let target_selection_range: Range = self.text_span.to_range(&target.line_index);
                let target_range: Range = match &self.context_span {
                    Some(span) => span.to_range(&target.line_index),
                    None => self.text_span.to_range(&target.line_index),
                };
                let origin_selection_range: Option<Range> = match &self.original_context_span {
                    Some(span) => Some(span.to_range(line_index)),
                    None => match &self.original_text_span {
                        Some(span) => Some(span.to_range(line_index)),
                        None => None,
                    },
                };
                Some(
                    LocationLink {
                        origin_selection_range,
                        target_uri: target.uri.clone(),
                        target_range,
                        target_selection_range,
                    },
                )
            },
        }
    }
}

/// A document that a link leads to: the URI that the editor knows it by, and its
/// lines.
#[derive(Debug)]
pub struct LinkTarget {
    pub uri: String,
    pub line_index: LineIndex,
}

/// An element of a document with the elements inside it.
#[derive(Debug)]
pub struct NavigationTree {
    pub text: String,
    pub kind: ScriptElementKind,
    pub kind_modifiers: String,
    pub spans: Vec<TextSpan>,
    pub name_span: Option<TextSpan>,
    pub child_items: Option<Vec<NavigationTree>>,
}

impl NavigationTree {
    /// The stretch that stands for the element: that of its name, or its first.
    pub open spec fn main_span(self) -> Option<TextSpan> {
        match self.name_span {
            Some(span) => Some(span),
            None => if self.spans@.len() > 0 {
                Some(self.spans@[0])
            } else {
                None
            },
        }
    }

    /// A code lens over the element.
    pub fn to_code_lens(&self, line_index: &LineIndex, specifier: &str, source: Json) -> (r:
        CodeLens)
        requires
            opt_fits(self.main_span()),
        ensures
            r.range == match self.main_span() {
                Some(span) => span.range(line_index@),
                None => empty_range(),
            },
            r.data@ == lens_data(specifier@, source@),
    {
        let range: Range = if let Some(name_span) = &self.name_span {
            name_span.to_range(line_index)
        } else if self.spans.len() > 0 {
            self.spans[0].to_range(line_index)
        } else {
            Range {
                start: Position { line: 0, character: 0 },
                end: Position { line: 0, character: 0 },
            }
        };
        let members: Members = Members::new().put("specifier", text(specifier)).put(
            "source",
            source,
        );
        assert(members@ =~= lens_data(specifier@, source@)->Object_0);
        CodeLens { range, data: members.object() }
    }

    /// The elements inside this one.
    pub open spec fn children(&self) -> Seq<NavigationTree> {
        match self.child_items {
            Some(items) => items@,
            None => Seq::empty(),
        }
    }

    /// The visits of a walk: the element, with the one it is inside of, and then
    /// the visits of the elements inside it, in order.
    pub open spec fn visits<'a>(&'a self, parent: Option<&'a NavigationTree>) -> Seq<
        (&'a NavigationTree, Option<&'a NavigationTree>),
    >
        decreases self, 1int, 0int,
    {
        seq![(self, parent)] + self.child_visits(self.children().len())
    }

    /// The visits of the first `n` elements inside this one.
    pub open spec fn child_visits<'a>(&'a self, n: nat) -> Seq<
        (&'a NavigationTree, Option<&'a NavigationTree>),
    >
        decreases self, 0int, n,
    {
        if n == 0 || n > self.children().len() {
            Seq::empty()
        } else {
            match &self.child_items {
                Some(items) => self.child_visits((n - 1) as nat) + items[n - 1].visits(Some(self)),
                None => Seq::empty(),
            }
        }
    }

    /// The visits of a walk, in the order in which they are made.
    pub fn visit_list(&self) -> (r: Vec<(&NavigationTree, Option<&NavigationTree>)>)
        ensures
            r@ == self.visits(None),
    {
        let mut list: Vec<(&NavigationTree, Option<&NavigationTree>)> = Vec::new();
        self.collect_visits(None, &mut list);
        assert(list@ =~= self.visits(None));
        list
    }

    /// Adds the visits of this element and of every element inside it.
    #[verifier::loop_isolation(false)]
    fn collect_visits<'a>(
        &'a self,
        parent: Option<&'a NavigationTree>,
        list: &mut Vec<(&'a NavigationTree, Option<&'a NavigationTree>)>,
    )
        ensures
            final(list)@ == old(list)@ + self.visits(parent),
        decreases self,
    {
        let ghost before = list@;
        list.push((self, parent));
        let ghost first = list@;
        assert(first =~= before + seq![(self, parent)]);
        if let Some(items) = &self.child_items {
            let mut n: usize = 0;
            assert(list@ =~= first + self.child_visits(0));
            while n < items.len()
                invariant
                    n <= items@.len(),
                    self.child_items == Some(*items),
                    list@ == first + self.child_visits(n as nat),
                decreases items.len() - n,
            {
                assert(decreases_to!(*items => items[n as int]));
                items[n].collect_visits(Some(self), list);
                assert(list@ =~= first + self.child_visits((n + 1) as nat));
                n = n + 1;
            }
        }
        assert(list@ =~= before + self.visits(parent));
    }

    /// Calls back for this element and for every element inside it, from the
    /// outside in and in order, each with the one that it is directly inside of.
    pub fn walk<F>(&self, callback: &F) where F: Fn(&NavigationTree, Option<&NavigationTree>)
        requires
            forall|i: int|
                0 <= i < self.visits(None).len() ==> call_requires(
                    *callback,
                    #[trigger] self.visits(None)[i],
                ),
        ensures
            forall|i: int|
                0 <= i < self.visits(None).len() ==> call_ensures(
                    *callback,
                    #[trigger] self.visits(None)[i],
                    (),
                ),
    {
        let list: Vec<(&NavigationTree, Option<&NavigationTree>)> = self.visit_list();
        make_visits(&list, callback);
    }

    /// Calls back for this element, which is inside `parent`, and for every
    /// element inside it.
    pub fn walk_child<F>(&self, callback: &F, parent: &NavigationTree) where
        F: Fn(&NavigationTree, Option<&NavigationTree>),

        requires
            forall|i: int|
                0 <= i < self.visits(Some(parent)).len() ==> call_requires(
                    *callback,
                    #[trigger] self.visits(Some(parent))[i],
                ),
        ensures
            forall|i: int|
                0 <= i < self.visits(Some(parent)).len() ==> call_ensures(
                    *callback,
                    #[trigger] self.visits(Some(parent))[i],
                    (),
                ),
    {
        let mut list: Vec<(&NavigationTree, Option<&NavigationTree>)> = Vec::new();
        self.collect_visits(Some(parent), &mut list);
        assert(list@ =~= self.visits(Some(parent)));
        make_visits(&list, callback);
    }
}

impl NavigationTree {
    /// The visits of the first elements come first among those of more.
    pub proof fn lemma_child_visits_prefix(&self, n: nat, m: nat)
        requires
            n <= m <= self.children().len(),
        ensures
            self.child_visits(n).len() <= self.child_visits(m).len(),
            forall|i: int|
                0 <= i < self.child_visits(n).len() ==> self.child_visits(n)[i]
                    == self.child_visits(m)[i],
        decreases m,
    {
        if n < m {
            self.lemma_child_visits_prefix(n, (m - 1) as nat);
        }
    }
}

/// Calls back for each visit of a list, in order.
fn make_visits<F>(list: &Vec<(&NavigationTree, Option<&NavigationTree>)>, callback: &F) where
    F: Fn(&NavigationTree, Option<&NavigationTree>),

    requires
        forall|i: int| 0 <= i < list@.len() ==> call_requires(*callback, #[trigger] list@[i]),
    ensures
        forall|i: int| 0 <= i < list@.len() ==> call_ensures(*callback, #[trigger] list@[i], ()),
{
    let mut n: usize = 0;
    while n < list.len()
        invariant
            n <= list@.len(),
            forall|i: int| 0 <= i < list@.len() ==> call_requires(*callback, #[trigger] list@[i]),
            forall|i: int| 0 <= i < n ==> call_ensures(*callback, #[trigger] list@[i], ()),
        decreases list.len() - n,
    {
        let (element, parent) = list[n];
        assert(list@[n as int] == (element, parent));
        callback(element, parent);
        n = n + 1;
    }
}

/// The range of a stretch does not end before it starts, and is empty where the
/// stretch is.
pub proof fn law_ranges_run_forward(span: TextSpan, starts: Seq<u32>)
    requires
        span.fits(),
        increasing(starts),
    ensures
        span.range(starts).start.line <= span.range(starts).end.line,
        span.range(starts).start.line == span.range(starts).end.line ==> span.range(
            starts,
        ).start.character <= span.range(starts).end.character,
        span.length == 0 ==> span.range(starts).start == span.range(starts).end,
{
    law_positions_keep_order(starts, span.start, (span.start + span.length) as u32);
}

} // verus!
