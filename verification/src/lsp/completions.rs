//! Completions and help with signatures.
use vstd::prelude::*;
use crate::lsp::docs::display_parts_to_string;
use crate::lsp::docs::display_text;
use crate::lsp::docs::JSDocTagInfo;
use crate::lsp::docs::SymbolDisplayPart;
use crate::lsp::lines::LineIndex;
use crate::lsp::lines::Range;
use crate::lsp::protocol::views;
use crate::lsp::protocol::CompletionItem;
use crate::lsp::protocol::CompletionItemKind;
use crate::lsp::protocol::CompletionItemView;
use crate::lsp::protocol::EditView;
use crate::lsp::protocol::ParameterInformation;
use crate::lsp::protocol::ParameterView;
use crate::lsp::protocol::SignatureHelp;
use crate::lsp::protocol::SignatureInformation;
use crate::lsp::protocol::SignatureView;
use crate::lsp::protocol::TextEdit;
use crate::lsp::results::opt_fits;
use crate::lsp::results::ScriptElementKind;
use crate::lsp::results::TextSpan;
use crate::text::concat2;
use crate::text::concat3;
use crate::text::contains_text;
use crate::text::join;
use crate::text::joined;
use crate::text::str_contains;
use crate::text::texts;

verus! {

/// A completion that the language service found.
#[derive(Debug)]
pub struct CompletionEntry {
    pub kind: ScriptElementKind,
    pub kind_modifiers: Option<String>,
    pub name: String,
    pub sort_text: String,
    pub insert_text: Option<String>,
    pub replacement_span: Option<TextSpan>,
    pub has_action: Option<bool>,
    pub source: Option<String>,
    pub is_recommended: Option<bool>,
}

impl CompletionEntry {
    /// The entry is for something that may be left out.
    pub open spec fn is_optional(self) -> bool {
        self.kind_modifiers matches Some(modifiers) && contains_text(
            modifiers@,
            "\\optional\\"@,
        )
    }

    /// The text that is inserted: what the entry gives, or its name where the
    /// entry is optional.
    pub open spec fn inserted(self) -> Option<Seq<char>> {
        match self.insert_text {
            Some(text) => Some(text@),
            None => if self.is_optional() {
                Some(self.name@)
            } else {
                None
            },
        }
    }

    /// The completion that is offered. A recommended one is preselected; one that
    /// would import something sorts behind all others; an optional one is shown
    /// with a question mark but found and inserted without.
    pub open spec fn item(self, starts: Seq<u32>) -> CompletionItemView {
        let kind = self.kind.item_kind();
        CompletionItemView {
            label: if self.is_optional() {
                self.name@ + "?"@
            } else {
                self.name@
            },
            kind,
            sort_text: if self.is_recommended != Some(true) && self.source is Some {
                "\u{ffff}"@ + self.sort_text@
            } else {
                self.sort_text@
            },
            preselect: if self.is_recommended == Some(true) {
                Some(true)
            } else {
                None
            },
            snippet: kind == CompletionItemKind::Function || kind == CompletionItemKind::Method,
            filter_text: if self.is_optional() {
                Some(self.name@)
            } else {
                None
            },
            insert_text: if self.replacement_span is None {
                self.inserted()
            } else {
                None
            },
            text_edit: match (self.inserted(), self.replacement_span) {
                (Some(new_text), Some(span)) => Some(
                    EditView { range: span.range(starts), new_text },
                ),
                _ => None,
            },
        }
    }

    /// The completion that is offered.
    pub fn into_completion_item(self, line_index: &LineIndex) -> (r: CompletionItem)
        requires
            opt_fits(self.replacement_span),
        ensures
            r@ == self.item(line_index@),
    {
        self.completion_item(line_index)
    }

    /// The completion that is offered.
    fn completion_item(&self, line_index: &LineIndex) -> (r: CompletionItem)
        requires
            opt_fits(self.replacement_span),
        ensures
            r@ == self.item(line_index@),
    {
        let kind: CompletionItemKind = CompletionItemKind::from(self.kind);
        let recommended: bool = match self.is_recommended {
            Some(recommended) => recommended,
            None => false,
        };
        let sort_text: String = if !recommended && self.source.is_some() {
            concat2("\u{ffff}", self.sort_text.as_str())
        } else {
            self.sort_text.clone()
        };
        let snippet: bool = match kind {
            CompletionItemKind::Function | CompletionItemKind::Method => true,
            _ => false,
        };
        let optional: bool = match &self.kind_modifiers {
            Some(modifiers) => str_contains(modifiers.as_str(), "\\optional\\"),
            None => false,
        };
        let replacement_range: Option<Range> = match &self.replacement_span {
            Some(span) => Some(span.to_range(line_index)),
            None => None,
        };
        let inserted: Option<String> = match &self.insert_text {
            Some(text) => Some(text.clone()),
            None => if optional {
                Some(self.name.clone())
            } else {
                None
            },
        };
        let (insert_text, text_edit) = match (inserted, replacement_range) {
            (Some(new_text), Some(range)) => (None, Some(TextEdit { range, new_text })),
            (inserted, _) => (
                if self.replacement_span.is_none() {
                    inserted
                } else {
                    None
                },
                None,
            ),
        };
        CompletionItem {
            label: if optional {
                concat2(self.name.as_str(), "?")
            } else {
                self.name.clone()
            },
            kind,
            sort_text,
            preselect: if recommended {
                Some(true)
            } else {
                None
            },
            snippet,
            filter_text: if optional {
                Some(self.name.clone())
            } else {
                None
            },
            insert_text,
            text_edit,
        }
    }
}

/// The completions that the language service found.
#[derive(Debug)]
pub struct CompletionInfo {
    pub entries: Vec<CompletionEntry>,
    pub is_member_completion: bool,
}

impl CompletionInfo {
    /// The completions that are offered, in the order in which they were found.
    pub fn into_completion_response(self, line_index: &LineIndex) -> (r: Vec<CompletionItem>)
        requires
            forall|i: int|
                0 <= i < self.entries@.len() ==> opt_fits(
                    (#[trigger] self.entries@[i]).replacement_span,
                ),
        ensures
            views(r@) == Seq::new(
                self.entries@.len(),
                |i: int| self.entries@[i].item(line_index@),
            ),
    {
        let mut items: Vec<CompletionItem> = Vec::new();
        let mut i: usize = 0;
        while i < self.entries.len()
            invariant
                i <= self.entries@.len(),
                items@.len() == i,
                forall|i: int|
                    0 <= i < self.entries@.len() ==> opt_fits(
                        (#[trigger] self.entries@[i]).replacement_span,
                    ),
                forall|j: int|
                    0 <= j < i ==> (#[trigger] items@[j])@ == self.entries@[j].item(line_index@),
            decreases self.entries.len() - i,
        {
            items.push(self.entries[i].completion_item(line_index));
            i = i + 1;
        }
        assert(views(items@) =~= Seq::new(
            self.entries@.len(),
            |i: int| self.entries@[i].item(line_index@),
        ));
        items
    }
}

/// A parameter of a signature.
#[derive(Debug)]
pub struct SignatureHelpParameter {
    pub name: String,
    pub documentation: Vec<SymbolDisplayPart>,
    pub display_parts: Vec<SymbolDisplayPart>,
    pub is_optional: bool,
}

impl SignatureHelpParameter {
    /// The parameter as it is shown.
    pub open spec fn information(self) -> ParameterView {
        ParameterView {
            label: display_text(self.display_parts@),
            documentation: display_text(self.documentation@),
        }
    }

    /// The parameter as it is shown.
    pub fn into_parameter_information(&self) -> (r: ParameterInformation)
        ensures
            r@ == self.information(),
    {
        ParameterInformation {
            label: display_parts_to_string(&self.display_parts),
            documentation: display_parts_to_string(&self.documentation),
        }
    }
}

/// A signature.
#[derive(Debug)]
pub struct SignatureHelpItem {
    pub is_variadic: bool,
    pub prefix_display_parts: Vec<SymbolDisplayPart>,
    pub suffix_display_parts: Vec<SymbolDisplayPart>,
    pub separator_display_parts: Vec<SymbolDisplayPart>,
    pub parameters: Vec<SignatureHelpParameter>,
    pub documentation: Vec<SymbolDisplayPart>,
    pub tags: Vec<JSDocTagInfo>,
}

impl SignatureHelpItem {
    /// The signature as it is shown: the parameters between its prefix and its
    /// suffix, with commas between them.
    pub open spec fn information(self) -> SignatureView {
        SignatureView {
            label: display_text(self.prefix_display_parts@) + joined(
                Seq::new(
                    self.parameters@.len(),
                    |i: int| display_text(self.parameters@[i].display_parts@),
                ),
                ", "@,
            ) + display_text(self.suffix_display_parts@),
            documentation: display_text(self.documentation@),
            parameters: Seq::new(
                self.parameters@.len(),
                |i: int| self.parameters@[i].information(),
            ),
        }
    }

    /// The signature as it is shown.
    pub fn into_signature_information(&self) -> (r: SignatureInformation)
        ensures
            r@ == self.information(),
    {
        let mut labels: Vec<String> = Vec::new();
        let mut parameters: Vec<ParameterInformation> = Vec::new();
        let mut i: usize = 0;
        while i < self.parameters.len()
            invariant
                i <= self.parameters@.len(),
                labels@.len() == i,
                parameters@.len() == i,
                forall|j: int|
                    0 <= j < i ==> (#[trigger] labels@[j])@ == display_text(
                        self.parameters@[j].display_parts@,
                    ),
                forall|j: int|
                    0 <= j < i ==> (#[trigger] parameters@[j])@ == self.parameters@[j].information(),
            decreases self.parameters.len() - i,
        {
            labels.push(display_parts_to_string(&self.parameters[i].display_parts));
            parameters.push(self.parameters[i].into_parameter_information());
            i = i + 1;
        }
        assert(texts(labels@) =~= Seq::new(
            self.parameters@.len(),
            |i: int| display_text(self.parameters@[i].display_parts@),
        ));
        assert(views(parameters@) =~= Seq::new(
            self.parameters@.len(),
            |i: int| self.parameters@[i].information(),
        ));
        let prefix_text: String = display_parts_to_string(&self.prefix_display_parts);
        let params_text: String = join(&labels, ", ");
        let suffix_text: String = display_parts_to_string(&self.suffix_display_parts);
        SignatureInformation {
            label: concat3(prefix_text.as_str(), params_text.as_str(), suffix_text.as_str()),
            documentation: display_parts_to_string(&self.documentation),
            parameters,
        }
    }
}

/// The signatures of a call.
#[derive(Debug)]
pub struct SignatureHelpItems {
    pub items: Vec<SignatureHelpItem>,
    pub applicable_span: TextSpan,
    pub selected_item_index: u32,
    pub argument_index: u32,
    pub argument_count: u32,
}

impl SignatureHelpItems {
    /// The help that is shown.
    pub fn into_signature_help(&self) -> (r: SignatureHelp)
        ensures
            views(r.signatures@) == Seq::new(
                self.items@.len(),
                |i: int| self.items@[i].information(),
            ),
            r.active_signature == self.selected_item_index,
            r.active_parameter == self.argument_index,
    {
        let mut signatures: Vec<SignatureInformation> = Vec::new();
        let mut i: usize = 0;
        while i < self.items.len()
            invariant
                i <= self.items@.len(),
                signatures@.len() == i,
                forall|j: int|
                    0 <= j < i ==> (#[trigger] signatures@[j])@ == self.items@[j].information(),
            decreases self.items.len() - i,
        {
            signatures.push(self.items[i].into_signature_information());
            i = i + 1;
        }
        assert(views(signatures@) =~= Seq::new(
            self.items@.len(),
            |i: int| self.items@[i].information(),
        ));
        SignatureHelp {
            signatures,
            active_signature: self.selected_item_index,
            active_parameter: self.argument_index,
        }
    }
}

/// A completion that would import something sorts behind every one that would
/// not, unless that one's own sort text starts with the last character there is
/// in sixteen bits or lies beyond it; and a recommended one is never put back.
pub proof fn law_imports_sort_last(
    import: CompletionEntry,
    other: CompletionEntry,
    starts: Seq<u32>,
)
    requires
        import.source is Some,
        import.is_recommended != Some(true),
        other.source is None || other.is_recommended == Some(true),
        other.sort_text@.len() > 0,
        (other.sort_text@[0] as u32) < 0xffff,
    ensures
        other.item(starts).sort_text == other.sort_text@,
        import.item(starts).sort_text.len() > 0,
        (other.item(starts).sort_text[0] as u32) < (import.item(starts).sort_text[0] as u32),
{
    reveal_strlit("\u{ffff}");
}

} // verus!
