//! What the editor gets for what the language service answers, said of the
//! stretches and texts in the answers.
use vstd::prelude::*;
use crate::lsp::completions::CompletionEntry;
use crate::lsp::completions::SignatureHelpItem;
use crate::lsp::docs::codeblock;
use crate::lsp::docs::display_text;
use crate::lsp::docs::is_white_space;
use crate::lsp::docs::link_markdown;
use crate::lsp::docs::names_something;
use crate::lsp::docs::tag_body;
use crate::lsp::docs::tag_documentation;
use crate::lsp::docs::tag_label;
use crate::lsp::docs::trimmed;
use crate::lsp::docs::trimmed_end;
use crate::lsp::docs::trimmed_start;
use crate::lsp::docs::JSDocTagInfo;
use crate::lsp::docs::SymbolDisplayPart;
use crate::lsp::edits::law_rename_edits_every_place_once;
use crate::lsp::edits::lemma_place_of;
use crate::lsp::edits::place_of;
use crate::lsp::edits::renamed;
use crate::lsp::edits::RenameLocation;
use crate::lsp::edits::RenameTarget;
use crate::lsp::edits::TextChange;
use crate::lsp::json::JsonView;
use crate::lsp::lines::empty_range;
use crate::lsp::lines::increasing;
use crate::lsp::lines::is_range;
use crate::lsp::lines::law_position_is_in_its_line;
use crate::lsp::locations::definition_links;
use crate::lsp::locations::DefinitionInfo;
use crate::lsp::locations::HighlightSpan;
use crate::lsp::locations::HighlightSpanKind;
use crate::lsp::patterns::is_fenced;
use crate::lsp::patterns::links_replaced;
use crate::lsp::patterns::regex_captures;
use crate::lsp::patterns::regex_split;
use crate::lsp::patterns::CAPTION_PATTERN;
use crate::lsp::patterns::EMAIL_PATTERN;
use crate::lsp::patterns::PART_PATTERN;
use crate::lsp::protocol::lens_data;
use crate::lsp::protocol::CompletionItemKind;
use crate::lsp::protocol::DocumentHighlightKind;
use crate::lsp::protocol::EditView;
use crate::lsp::protocol::MarkedView;
use crate::lsp::results::opt_fits;
use crate::lsp::results::tags_preview;
use crate::lsp::results::DocumentSpan;
use crate::lsp::results::LinkTarget;
use crate::lsp::results::NavigationTree;
use crate::lsp::results::QuickInfo;
use crate::lsp::results::ScriptElementKind;
use crate::lsp::results::TextSpan;
use crate::text::contains_text;
use crate::text::joined;
use crate::text::joined_start;
use crate::text::law_joined_holds_each;
use crate::text::occurs_at;
use crate::text::opt_text;

verus! {

/// An edit at a place replaces exactly the stretch of the name, and nothing else
/// that is known of the place, with the new name.
pub open spec fn replaces_name(
    edit: EditView,
    location: RenameLocation,
    target: RenameTarget,
    new_name: Seq<char>,
) -> bool {
    let span = location.document_span.text_span;
    &&& edit.new_text == new_name
    &&& is_range(target.line_index@, span.start as int, span.start + span.length, edit.range)
}

/// How many of the first `n` places are in the document with a URI.
pub open spec fn places_in(targets: Seq<RenameTarget>, uri: Seq<char>, n: nat) -> nat
    decreases n,
{
    if n == 0 {
        0
    } else {
        places_in(targets, uri, (n - 1) as nat) + if targets[n - 1].uri@ == uri {
            1nat
        } else {
            0
        }
    }
}

/// Fewer places come before an earlier one.
proof fn lemma_places_grow(targets: Seq<RenameTarget>, uri: Seq<char>, k: nat, n: nat)
    requires
        k < n,
    ensures
        places_in(targets, uri, k) <= places_in(targets, uri, n),
        targets[k as int].uri@ == uri ==> places_in(targets, uri, k) < places_in(targets, uri, n),
    decreases n,
{
    if k < n - 1 {
        lemma_places_grow(targets, uri, k, (n - 1) as nat);
    }
}

/// A rename has one document for every URI of a place, which is at the version of
/// its first place and has one edit for each of its places, in their order. Each of
/// these replaces the name there, from the start of its stretch to its end, with
/// the new name.
pub proof fn law_rename_replaces_each_name(
    locations: Seq<RenameLocation>,
    targets: Seq<RenameTarget>,
    new_name: Seq<char>,
    n: nat,
)
    requires
        n <= locations.len(),
        n <= targets.len(),
        forall|k: int|
            0 <= k < n ==> (#[trigger] locations[k]).document_span.text_span.fits() && increasing(
                targets[k].line_index@,
            ),
    ensures
        ({
            let documents = renamed(locations, targets, new_name, n);
            &&& forall|k: int|
                0 <= k < n ==> exists|d: int|
                    0 <= d < documents.len() && #[trigger] documents[d].uri == (
                    #[trigger] targets[k]).uri@
            &&& forall|d: int|
                0 <= d < documents.len() ==> {
                    &&& (#[trigger] documents[d]).edits.len() > 0
                    &&& documents[d].edits.len() == places_in(targets, documents[d].uri, n)
                }
            &&& forall|d: int, k: int|
                0 <= d < documents.len() && 0 <= k < n && (#[trigger] targets[k]).uri@
                    == (#[trigger] documents[d]).uri ==> {
                    let i = places_in(targets, documents[d].uri, k as nat);
                    &&& i < documents[d].edits.len()
                    &&& replaces_name(
                        documents[d].edits[i as int],
                        locations[k],
                        targets[k],
                        new_name,
                    )
                    &&& i == 0 ==> documents[d].version == targets[k].version
                }
            &&& forall|i: int, j: int|
                0 <= i < j < documents.len() ==> documents[i].uri != documents[j].uri
        }),
    decreases n,
{
    let documents = renamed(locations, targets, new_name, n);
    law_rename_edits_every_place_once(locations, targets, new_name, n);
    if n > 0 {
        let m = (n - 1) as nat;
        let before = renamed(locations, targets, new_name, m);
        law_rename_replaces_each_name(locations, targets, new_name, m);
        let (location, target) = (locations[m as int], targets[m as int]);
        let uri = target.uri@;
        lemma_place_of(before, uri);
        let p = place_of(before, uri);
        let span = location.document_span.text_span;
        law_position_is_in_its_line(target.line_index@, span.start);
        law_position_is_in_its_line(target.line_index@, (span.start + span.length) as u32);
        let edit = documents[p].edits.last();
        assert(replaces_name(edit, location, target, new_name));
        assert(documents[p].uri == uri);
        if p == before.len() {
            lemma_no_places(locations, targets, new_name, uri, m);
        }
        assert forall|k: int| 0 <= k < n implies exists|d: int|
            0 <= d < documents.len() && #[trigger] documents[d].uri == (
            #[trigger] targets[k]).uri@ by {
            if k < m {
                let d = choose|d: int|
                    0 <= d < before.len() && #[trigger] before[d].uri == targets[k].uri@;
                assert(documents[d].uri == targets[k].uri@);
            }
        }
        assert forall|d: int| 0 <= d < documents.len() implies {
            &&& (#[trigger] documents[d]).edits.len() > 0
            &&& documents[d].edits.len() == places_in(targets, documents[d].uri, n)
        } by {
            if d < before.len() {
                assert(before[d].edits.len() == places_in(targets, before[d].uri, m));
                if d != p {
                    assert(before[d].uri != uri) by {
                        if p < before.len() {
                            assert(before[d].uri != before[p].uri);
                        }
                    }
                }
            }
        }
        assert forall|d: int, k: int|
            0 <= d < documents.len() && 0 <= k < n && (#[trigger] targets[k]).uri@ == (
            #[trigger] documents[d]).uri implies {
            let i = places_in(targets, documents[d].uri, k as nat);
            &&& i < documents[d].edits.len()
            &&& replaces_name(documents[d].edits[i as int], locations[k], targets[k], new_name)
            &&& i == 0 ==> documents[d].version == targets[k].version
        } by {
            let i = places_in(targets, documents[d].uri, k as nat);
            if k == m {
                assert(d == p) by {
                    if d != p {
                        assert(documents[d].uri != documents[p].uri);
                    }
                }
                if p < before.len() {
                    assert(before[p].edits.len() == places_in(targets, uri, m));
                    assert(before[p].edits.len() > 0);
                }
            } else {
                lemma_places_grow(targets, documents[d].uri, k as nat, m);
                assert(d < before.len()) by {
                    if d == before.len() {
                        let e = choose|e: int|
                            0 <= e < before.len() && #[trigger] before[e].uri == targets[k].uri@;
                        assert(documents[e].uri == targets[k].uri@);
                        assert(documents[e].uri != documents[d].uri);
                    }
                }
                assert(before[d].uri == targets[k].uri@);
                assert(before[d].edits.len() == places_in(targets, before[d].uri, m));
                assert(documents[d].edits[i as int] == before[d].edits[i as int]);
            }
        }
    }
}

/// Where no document has the URI, none of the places is in one with it.
proof fn lemma_no_places(
    locations: Seq<RenameLocation>,
    targets: Seq<RenameTarget>,
    new_name: Seq<char>,
    uri: Seq<char>,
    n: nat,
)
    requires
        place_of(renamed(locations, targets, new_name, n), uri) == renamed(
            locations,
            targets,
            new_name,
            n,
        ).len(),
    ensures
        places_in(targets, uri, n) == 0,
    decreases n,
{
    if n > 0 {
        let documents = renamed(locations, targets, new_name, n);
        let before = renamed(locations, targets, new_name, (n - 1) as nat);
        let last = targets[n - 1].uri@;
        lemma_place_of(documents, uri);
        lemma_place_of(before, last);
        lemma_place_of(before, uri);
        let p = place_of(before, last);
        assert(documents[p].uri == last);
        let q = place_of(before, uri);
        if q < before.len() {
            assert(documents[q].uri == uri);
        }
        lemma_no_places(locations, targets, new_name, uri, (n - 1) as nat);
    }
}

/// A change of a stretch of text replaces it from its start to its end with the
/// text of the change.
pub proof fn law_change_replaces_its_stretch(change: TextChange, starts: Seq<u32>)
    requires
        change.span.fits(),
        increasing(starts),
    ensures
        change.edit(starts).new_text == change.new_text@,
        is_range(
            starts,
            change.span.start as int,
            change.span.start + change.span.length,
            change.edit(starts).range,
        ),
{
    law_range_of_stretch(change.span, starts);
}

/// The range of a stretch runs from its start to its end.
pub proof fn law_range_of_stretch(span: TextSpan, starts: Seq<u32>)
    requires
        span.fits(),
        increasing(starts),
    ensures
        is_range(starts, span.start as int, span.start + span.length, span.range(starts)),
{
    law_position_is_in_its_line(starts, span.start);
    law_position_is_in_its_line(starts, (span.start + span.length) as u32);
}

/// A completion is of something optional: its modifiers say so somewhere.
pub open spec fn says_optional(entry: CompletionEntry) -> bool {
    entry.kind_modifiers matches Some(modifiers) && exists|i: int|
        0 <= i && i + 10 <= modifiers@.len() && #[trigger] modifiers@.subrange(i, i + 10)
            == "\\optional\\"@
}

/// What a completion inserts: the text that the entry has, else the name of what is
/// optional, else nothing but the label. Where there is a stretch to replace, the
/// text replaces it, and else it is inserted; it is never both.
pub proof fn law_completion_inserts_its_text(entry: CompletionEntry, starts: Seq<u32>)
    requires
        opt_fits(entry.replacement_span),
        increasing(starts),
    ensures
        ({
            let item = entry.item(starts);
            let text = match entry.insert_text {
                Some(text) => Some(text@),
                None => if says_optional(entry) {
                    Some(entry.name@)
                } else {
                    None
                },
            };
            match (entry.replacement_span, text) {
                (None, _) => item.insert_text == text && item.text_edit is None,
                (Some(_), None) => item.insert_text is None && item.text_edit is None,
                (Some(span), Some(text)) => {
                    &&& item.insert_text is None
                    &&& item.text_edit matches Some(edit)
                    &&& edit.new_text == text
                    &&& is_range(starts, span.start as int, span.start + span.length, edit.range)
                },
            }
        }),
{
    lemma_optional(entry);
    if let Some(span) = entry.replacement_span {
        law_range_of_stretch(span, starts);
    }
}

/// Both ways to say that an entry is optional agree.
proof fn lemma_optional(entry: CompletionEntry)
    ensures
        says_optional(entry) == entry.is_optional(),
{
    reveal_strlit("\\optional\\");
    if let Some(modifiers) = entry.kind_modifiers {
        let needle = "\\optional\\"@;
        if entry.is_optional() {
            let i = choose|i: int| occurs_at(modifiers@, needle, i);
            assert(modifiers@.subrange(i, i + 10) == needle);
        }
        if says_optional(entry) {
            let i = choose|i: int|
                0 <= i && i + 10 <= modifiers@.len() && #[trigger] modifiers@.subrange(i, i + 10)
                    == needle;
            assert(occurs_at(modifiers@, needle, i));
        }
    }
}

/// A completion is shown under the name of its entry, with a question mark behind
/// it where it is optional, and is found by the name. It is preselected exactly
/// where it is recommended, is a snippet exactly where it is called, and keeps its
/// sort text, behind one more character where it would import something that is not
/// recommended.
pub proof fn law_completion_is_shown_by_its_name(entry: CompletionEntry, starts: Seq<u32>)
    ensures
        ({
            let item = entry.item(starts);
            let optional = says_optional(entry);
            &&& item.label.len() == entry.name@.len() + if optional {
                1int
            } else {
                0
            }
            &&& item.label.subrange(0, entry.name@.len() as int) == entry.name@
            &&& optional ==> item.label.last() == '?' && item.filter_text == Some(entry.name@)
            &&& !optional ==> item.filter_text is None
            &&& item.preselect == (if entry.is_recommended == Some(true) {
                Some(true)
            } else {
                None
            })
            &&& item.snippet <==> entry.kind == ScriptElementKind::FunctionElement || entry.kind
                == ScriptElementKind::MemberFunctionElement || entry.kind
                == ScriptElementKind::ConstructSignatureElement || entry.kind
                == ScriptElementKind::CallSignatureElement || entry.kind
                == ScriptElementKind::IndexSignatureElement
            &&& if entry.source is Some && entry.is_recommended != Some(true) {
                &&& item.sort_text.len() == entry.sort_text@.len() + 1
                &&& item.sort_text[0] == '\u{ffff}'
                &&& item.sort_text.skip(1) == entry.sort_text@
            } else {
                item.sort_text == entry.sort_text@
            }
        }),
{
    lemma_optional(entry);
    reveal_strlit("?");
    reveal_strlit("\u{ffff}");
    let item = entry.item(starts);
    assert(item.label.subrange(0, entry.name@.len() as int) =~= entry.name@);
    if entry.source is Some && entry.is_recommended != Some(true) {
        assert(item.sort_text.skip(1) =~= entry.sort_text@);
    }
}

/// Which elements are offered as which kind of completion.
pub proof fn law_kinds_of_completions(kind: ScriptElementKind)
    ensures
        kind.item_kind() == CompletionItemKind::Keyword <==> kind
            == ScriptElementKind::PrimitiveType || kind == ScriptElementKind::Keyword,
        kind.item_kind() == CompletionItemKind::Constant <==> kind
            == ScriptElementKind::ConstElement || kind == ScriptElementKind::String,
        kind.item_kind() == CompletionItemKind::Variable <==> kind == ScriptElementKind::LetElement
            || kind == ScriptElementKind::VariableElement || kind
            == ScriptElementKind::LocalVariableElement || kind == ScriptElementKind::Alias,
        kind.item_kind() == CompletionItemKind::Field <==> kind
            == ScriptElementKind::MemberVariableElement || kind
            == ScriptElementKind::MemberGetAccessorElement || kind
            == ScriptElementKind::MemberSetAccessorElement,
        kind.item_kind() == CompletionItemKind::Function <==> kind
            == ScriptElementKind::FunctionElement,
        kind.item_kind() == CompletionItemKind::Method <==> kind
            == ScriptElementKind::MemberFunctionElement || kind
            == ScriptElementKind::ConstructSignatureElement || kind
            == ScriptElementKind::CallSignatureElement || kind
            == ScriptElementKind::IndexSignatureElement,
        kind.item_kind() == CompletionItemKind::Enum <==> kind == ScriptElementKind::EnumElement,
        kind.item_kind() == CompletionItemKind::Module <==> kind
            == ScriptElementKind::ModuleElement || kind == ScriptElementKind::ExternalModuleName,
        kind.item_kind() == CompletionItemKind::Class <==> kind == ScriptElementKind::ClassElement
            || kind == ScriptElementKind::TypeElement,
        kind.item_kind() == CompletionItemKind::Interface <==> kind
            == ScriptElementKind::InterfaceElement,
        kind.item_kind() == CompletionItemKind::File <==> kind == ScriptElementKind::Warning
            || kind == ScriptElementKind::ScriptElement,
        kind.item_kind() == CompletionItemKind::Folder <==> kind == ScriptElementKind::Directory,
{
}

/// A link leads to the document of the target: to the stretch around what it is of,
/// where there is one, and selects the stretch of the name. It comes from the
/// stretch around what it was generated from, or from that itself.
pub proof fn law_link_leads_to_its_stretches(
    span: DocumentSpan,
    starts: Seq<u32>,
    target_starts: Seq<u32>,
    uri: Seq<char>,
)
    requires
        span.fits(),
        increasing(starts),
        increasing(target_starts),
    ensures
        ({
            let link = span.link(starts, target_starts, uri);
            let name = span.text_span;
            let whole = match span.context_span {
                Some(around) => around,
                None => name,
            };
            &&& link.target_uri == uri
            &&& is_range(
                target_starts,
                name.start as int,
                name.start + name.length,
                link.target_selection_range,
            )
            &&& is_range(
                target_starts,
                whole.start as int,
                whole.start + whole.length,
                link.target_range,
            )
            &&& match (span.original_context_span, span.original_text_span) {
                (Some(from), _) => {
                    &&& link.origin_selection_range matches Some(range)
                    &&& is_range(starts, from.start as int, from.start + from.length, range)
                },
                (None, Some(from)) => {
                    &&& link.origin_selection_range matches Some(range)
                    &&& is_range(starts, from.start as int, from.start + from.length, range)
                },
                (None, None) => link.origin_selection_range is None,
            }
        }),
{
    law_range_of_stretch(span.text_span, target_starts);
    if let Some(around) = span.context_span {
        law_range_of_stretch(around, target_starts);
    }
    if let Some(from) = span.original_context_span {
        law_range_of_stretch(from, starts);
    }
    if let Some(from) = span.original_text_span {
        law_range_of_stretch(from, starts);
    }
}

/// How many of the first `n` documents are known.
pub open spec fn known_before(targets: Seq<Option<LinkTarget>>, n: nat) -> nat
    decreases n,
{
    if n == 0 {
        0
    } else {
        known_before(targets, (n - 1) as nat) + if targets[n - 1] is Some {
            1nat
        } else {
            0
        }
    }
}

/// There is a link for each definition whose document is known, in the order of the
/// definitions, to the URI of that document, which selects the name of the
/// definition there.
pub proof fn law_link_for_each_definition(
    definitions: Seq<DefinitionInfo>,
    targets: Seq<Option<LinkTarget>>,
    starts: Seq<u32>,
    n: nat,
    k: int,
)
    requires
        0 <= k < n,
        definitions[k].document_span.text_span.fits(),
        targets[k] matches Some(target) ==> increasing(target.line_index@),
    ensures
        ({
            let links = definition_links(definitions, targets, starts, n);
            let name = definitions[k].document_span.text_span;
            &&& links.len() == known_before(targets, n)
            &&& targets[k] matches Some(target) ==> {
                let i = known_before(targets, k as nat);
                &&& i < links.len()
                &&& links[i as int].target_uri == target.uri@
                &&& is_range(
                    target.line_index@,
                    name.start as int,
                    name.start + name.length,
                    links[i as int].target_selection_range,
                )
            }
        }),
    decreases n,
{
    lemma_links_known(definitions, targets, starts, n);
    lemma_links_known(definitions, targets, starts, (n - 1) as nat);
    if k == n - 1 {
        if let Some(target) = targets[k] {
            law_range_of_stretch(definitions[k].document_span.text_span, target.line_index@);
        }
    } else {
        law_link_for_each_definition(definitions, targets, starts, (n - 1) as nat, k);
    }
}

/// There are as many links as known documents.
proof fn lemma_links_known(
    definitions: Seq<DefinitionInfo>,
    targets: Seq<Option<LinkTarget>>,
    starts: Seq<u32>,
    n: nat,
)
    ensures
        definition_links(definitions, targets, starts, n).len() == known_before(targets, n),
    decreases n,
{
    if n > 0 {
        lemma_links_known(definitions, targets, starts, (n - 1) as nat);
    }
}

/// A highlight is of its stretch, and is shown as written exactly where the stretch
/// is a reference that is written.
pub proof fn law_highlight_of_stretch(span: HighlightSpan, starts: Seq<u32>)
    requires
        span.text_span.fits(),
        increasing(starts),
    ensures
        is_range(
            starts,
            span.text_span.start as int,
            span.text_span.start + span.text_span.length,
            span.highlight(starts).range,
        ),
        span.highlight(starts).kind == DocumentHighlightKind::Write <==> span.kind
            == HighlightSpanKind::WrittenReference,
{
    law_range_of_stretch(span.text_span, starts);
}

/// Where the text of a part begins in the display.
pub open spec fn part_start(parts: Seq<SymbolDisplayPart>, i: nat) -> nat
    decreases i,
{
    if i == 0 {
        0
    } else {
        part_start(parts, (i - 1) as nat) + parts[i - 1].text@.len()
    }
}

/// The display of a symbol holds the text of each part in its place, one directly
/// behind the other, and nothing else.
pub proof fn law_display_holds_each_part(parts: Seq<SymbolDisplayPart>, i: nat)
    requires
        i < parts.len(),
    ensures
        ({
            let start = part_start(parts, i) as int;
            let end = start + parts[i as int].text@.len();
            &&& display_text(parts).len() == part_start(parts, parts.len())
            &&& end <= display_text(parts).len()
            &&& display_text(parts).subrange(start, end) == parts[i as int].text@
        }),
{
    let list = Seq::new(parts.len(), |i: int| parts[i].text@);
    law_joined_holds_each(list, Seq::empty(), i);
    lemma_part_start(parts, i);
    lemma_part_start(parts, (parts.len() - 1) as nat);
}

/// Where a part begins.
proof fn lemma_part_start(parts: Seq<SymbolDisplayPart>, i: nat)
    requires
        i < parts.len(),
    ensures
        joined_start(Seq::new(parts.len(), |i: int| parts[i].text@), Seq::empty(), i)
            == part_start(parts, i),
    decreases i,
{
    if i > 0 {
        lemma_part_start(parts, (i - 1) as nat);
    }
}

/// Nothing is displayed where there is no part.
pub proof fn law_display_of_nothing()
    ensures
        display_text(Seq::empty()).len() == 0,
{
}

/// The label of a signature begins with its prefix and ends with its suffix;
/// between them stands each parameter as it is displayed, with a comma and a space
/// behind each but the last. The parameters and their documentation are shown in
/// their order.
pub proof fn law_signature_shows_its_parameters(item: SignatureHelpItem, i: nat)
    requires
        i < item.parameters@.len(),
    ensures
        ({
            let shown = item.information();
            let (prefix, suffix) = (
                display_text(item.prefix_display_parts@),
                display_text(item.suffix_display_parts@),
            );
            let labels = Seq::new(
                item.parameters@.len(),
                |j: int| display_text(item.parameters@[j].display_parts@),
            );
            let start = prefix.len() + joined_start(labels, ", "@, i);
            let end = start + labels[i as int].len();
            let len = shown.label.len();
            &&& shown.documentation == display_text(item.documentation@)
            &&& shown.parameters.len() == item.parameters@.len()
            &&& shown.parameters[i as int].label == labels[i as int]
            &&& shown.parameters[i as int].documentation == display_text(
                item.parameters@[i as int].documentation@,
            )
            &&& prefix.len() <= start <= end <= len - suffix.len()
            &&& shown.label.subrange(0, prefix.len() as int) == prefix
            &&& shown.label.subrange(start as int, end as int) == labels[i as int]
            &&& i + 1 < labels.len() ==> end + 2 <= len && shown.label[end as int] == ','
                && shown.label[(end + 1) as int] == ' '
            &&& i + 1 == labels.len() ==> end == len - suffix.len()
            &&& shown.label.subrange(len - suffix.len(), len as int) == suffix
        }),
{
    let labels = Seq::new(
        item.parameters@.len(),
        |j: int| display_text(item.parameters@[j].display_parts@),
    );
    reveal_strlit(", ");
    law_joined_holds_each(labels, ", "@, i);
    let middle = joined(labels, ", "@);
    let shown = item.information().label;
    let prefix = display_text(item.prefix_display_parts@);
    let suffix = display_text(item.suffix_display_parts@);
    assert(shown =~= prefix + middle + suffix);
    let start = joined_start(labels, ", "@, i) as int;
    let end = start + labels[i as int].len();
    assert(shown.subrange(0, prefix.len() as int) =~= prefix);
    assert(shown.subrange(prefix.len() + start, prefix.len() + end) =~= middle.subrange(start, end));
    assert(shown.subrange(shown.len() - suffix.len(), shown.len() as int) =~= suffix);
    if i + 1 < labels.len() {
        let sep = middle.subrange(end, end + 2);
        assert(sep == ", "@);
        assert(sep[0] == middle[end] && sep[1] == middle[end + 1]);
    }
}

/// The label of a signature without parameters is its prefix and its suffix.
pub proof fn law_signature_without_parameters(item: SignatureHelpItem)
    requires
        item.parameters@.len() == 0,
    ensures
        item.information().label == display_text(item.prefix_display_parts@) + display_text(
            item.suffix_display_parts@,
        ),
        item.information().parameters.len() == 0,
{
    let labels = Seq::new(0, |j: int| display_text(item.parameters@[j].display_parts@));
    assert(joined(labels, ", "@) =~= Seq::empty());
    assert(item.information().label =~= display_text(item.prefix_display_parts@) + display_text(
        item.suffix_display_parts@,
    ));
}

/// A hover shows the display of the symbol as TypeScript, then its documentation as
/// Markdown, then that of its tags behind an empty line, each where it is there, the
/// tags where they say anything.
pub proof fn law_hover_shows_what_is_known(info: QuickInfo)
    ensures
        ({
            let contents = info.hover_contents();
            let (display, documentation) = (
                if info.display_parts is Some {
                    1int
                } else {
                    0
                },
                if info.documentation is Some {
                    1int
                } else {
                    0
                },
            );
            let says = info.tags matches Some(tags) && tags_preview(tags@).len() > 0;
            &&& contents.len() == display + documentation + if says {
                1int
            } else {
                0
            }
            &&& info.display_parts matches Some(parts) ==> {
                &&& contents[0] matches MarkedView::Code { language, value }
                &&& language == "typescript"@
                &&& value == display_text(parts@)
            }
            &&& info.documentation matches Some(parts) ==> contents[display]
                == MarkedView::Markdown(display_text(parts@))
            &&& info.tags matches Some(tags) ==> (says ==> {
                &&& contents.last() matches MarkedView::Markdown(text)
                &&& text.len() == tags_preview(tags@).len() + 2
                &&& text[0] == '\n'
                &&& text[1] == '\n'
                &&& text.skip(2) == tags_preview(tags@)
            })
        }),
{
    reveal_strlit("\n\n");
    if let Some(tags) = info.tags {
        assert(("\n\n"@ + tags_preview(tags@)).skip(2) =~= tags_preview(tags@));
    }
}

/// The documentation of tags holds that of each in its place, with an empty line
/// behind each but the last.
pub proof fn law_tags_are_previewed(tags: Seq<JSDocTagInfo>, i: nat)
    requires
        i < tags.len(),
    ensures
        ({
            let list = Seq::new(
                tags.len(),
                |j: int| tag_documentation(tags[j].name@, opt_text(tags[j].text)),
            );
            let all = tags_preview(tags);
            let start = joined_start(list, "  \n\n"@, i) as int;
            let end = start + list[i as int].len();
            &&& end <= all.len()
            &&& all.subrange(start, end) == list[i as int]
            &&& i + 1 < tags.len() ==> end + 4 <= all.len() && all.subrange(end, end + 4)
                == "  \n\n"@
            &&& i + 1 == tags.len() ==> end == all.len()
        }),
{
    reveal_strlit("  \n\n");
    let list = Seq::new(
        tags.len(),
        |j: int| tag_documentation(tags[j].name@, opt_text(tags[j].text)),
    );
    law_joined_holds_each(list, "  \n\n"@, i);
}

/// The stretch that stands for an element is that of its name; only an element
/// without one is stood for by its first stretch.
pub proof fn law_name_stands_for_element(element: NavigationTree)
    ensures
        element.name_span is Some ==> element.main_span() == element.name_span,
        element.name_span is None && element.spans@.len() > 0 ==> element.main_span() == Some(
            element.spans@[0],
        ),
        element.name_span is None && element.spans@.len() == 0 ==> element.main_span() is None,
        empty_range().start == empty_range().end && empty_range().start.line == 0
            && empty_range().start.character == 0,
{
}

/// The data of a code lens names the document and what the lens is for.
pub proof fn law_lens_names_its_document(specifier: Seq<char>, source: JsonView)
    ensures
        lens_data(specifier, source) matches JsonView::Object(members) && members.len() == 2
            && members[0].0 == "specifier"@ && members[0].1 == JsonView::Text(specifier)
            && members[1].0 == "source"@ && members[1].1 == source,
{
}

/// How many elements there are in the first `n` elements inside one, and all the
/// elements inside those.
pub open spec fn inner_elements(tree: NavigationTree, n: nat) -> nat
    decreases tree, n,
{
    if n == 0 {
        0
    } else {
        match tree.child_items {
            None => 0,
            Some(items) => if n > items@.len() {
                0
            } else {
                inner_elements(tree, (n - 1) as nat) + 1 + inner_elements(
                    items[n - 1],
                    items[n - 1].children().len(),
                )
            },
        }
    }
}

/// A walk visits the element first, with what it is inside of, and every element
/// inside it once: those of an earlier child before those of a later one, and each
/// child with the element it is in.
pub proof fn law_walk_visits_each_once<'a>(
    tree: &'a NavigationTree,
    parent: Option<&'a NavigationTree>,
    i: nat,
)
    requires
        i < tree.children().len(),
    ensures
        ({
            let visits = tree.visits(parent);
            let at = 1 + inner_elements(*tree, i) as int;
            let child = tree.children()[i as int];
            &&& visits[0] == (tree, parent)
            &&& visits.len() == 1 + inner_elements(*tree, tree.children().len())
            &&& at < visits.len()
            &&& *visits[at].0 == child
            &&& visits[at].1 == Some(tree)
            &&& at + 1 + inner_elements(child, child.children().len()) <= visits.len()
            &&& visits.subrange(at, at + 1 + inner_elements(child, child.children().len()))
                == (&tree.child_items->0@[i as int]).visits(Some(tree))
        }),
{
    let n = tree.children().len();
    lemma_visits(tree, n);
    lemma_visits(tree, i);
    lemma_visits(tree, i + 1);
    tree.lemma_child_visits_prefix(i + 1, n);
    tree.lemma_child_visits_prefix(i, i + 1);
    let items = tree.child_items->0;
    let child = &items@[i as int];
    lemma_visits(child, child.children().len());
    let visits = tree.visits(parent);
    let inner = tree.child_visits(n);
    let off = inner_elements(*tree, i) as int;
    let len = child.visits(Some(tree)).len() as int;
    assert(tree.child_visits(i + 1) == tree.child_visits(i) + child.visits(Some(tree)));
    assert forall|j: int| 0 <= j < len implies visits[1 + off + j] == #[trigger] child.visits(
        Some(tree),
    )[j] by {
        assert(visits[1 + off + j] == inner[off + j]);
        assert(inner[off + j] == tree.child_visits(i + 1)[off + j]);
    }
    assert(visits.subrange(1 + off, 1 + off + len) =~= child.visits(Some(tree)));
    assert(visits[1 + off] == child.visits(Some(tree))[0]);
}

/// There is a visit for each element inside.
proof fn lemma_visits<'a>(tree: &'a NavigationTree, n: nat)
    requires
        n <= tree.children().len(),
    ensures
        tree.child_visits(n).len() == inner_elements(*tree, n),
    decreases tree, n,
{
    if n > 0 {
        lemma_visits(tree, (n - 1) as nat);
        if let Some(items) = &tree.child_items {
            let child = &items@[n - 1];
            assert(decreases_to!(*tree => *items));
            assert(decreases_to!(*items => items@));
            assert(decreases_to!(items@ => items@[n - 1]));
            lemma_visits(child, child.children().len());
            assert(child.visits(Some(tree)).len() == 1 + child.child_visits(
                child.children().len(),
            ).len());
            assert(tree.child_visits(n) == tree.child_visits((n - 1) as nat) + child.visits(
                Some(tree),
            ));
            assert(inner_elements(*tree, n) == inner_elements(*tree, (n - 1) as nat) + 1
                + inner_elements(*child, child.children().len()));
        }
    }
}

/// A text without the white space around it is what stands between white space on
/// both sides, and neither begins nor ends with any.
pub proof fn law_trimmed_text(text: Seq<char>)
    ensures
        exists|i: int, j: int|
            0 <= i <= j <= text.len() && #[trigger] text.subrange(i, j) == trimmed(text) && (forall|
                k: int,
            |
                0 <= k < i || j <= k < text.len() ==> is_white_space(#[trigger] text[k])),
        trimmed(text).len() > 0 ==> !is_white_space(trimmed(text)[0]) && !is_white_space(
            trimmed(text).last(),
        ),
{
    let i = lemma_trimmed_start(text);
    let rest = text.skip(i);
    let n = lemma_trimmed_end(rest);
    let j = i + n;
    assert(text.subrange(i, j) =~= rest.take(n));
    assert forall|k: int| 0 <= k < i || j <= k < text.len() implies is_white_space(
        #[trigger] text[k],
    ) by {
        if k >= j {
            assert(rest[k - i] == text[k]);
        }
    }
    if trimmed(text).len() > 0 {
        assert(trimmed(text)[0] == rest[0]);
    }
}

/// How much white space a text begins with.
proof fn lemma_trimmed_start(text: Seq<char>) -> (i: int)
    ensures
        0 <= i <= text.len(),
        trimmed_start(text) == text.skip(i),
        forall|k: int| 0 <= k < i ==> is_white_space(#[trigger] text[k]),
        i < text.len() ==> !is_white_space(text[i]),
    decreases text.len(),
{
    if text.len() > 0 && is_white_space(text[0]) {
        let rest = text.skip(1);
        let i = lemma_trimmed_start(rest);
        assert(rest.skip(i) =~= text.skip(i + 1));
        assert forall|k: int| 0 <= k < i + 1 implies is_white_space(#[trigger] text[k]) by {
            if k > 0 {
                assert(rest[k - 1] == text[k]);
            }
        }
        i + 1
    } else {
        assert(text.skip(0) =~= text);
        0
    }
}

/// How much of a text is left without the white space at its end.
proof fn lemma_trimmed_end(text: Seq<char>) -> (n: int)
    ensures
        0 <= n <= text.len(),
        trimmed_end(text) == text.take(n),
        forall|k: int| n <= k < text.len() ==> is_white_space(#[trigger] text[k]),
        n > 0 ==> !is_white_space(text[n - 1]),
    decreases text.len(),
{
    if text.len() > 0 && is_white_space(text.last()) {
        let n = lemma_trimmed_end(text.drop_last());
        assert(text.drop_last().take(n) =~= text.take(n));
        assert forall|k: int| n <= k < text.len() implies is_white_space(#[trigger] text[k]) by {
            if k < text.len() - 1 {
                assert(text.drop_last()[k] == text[k]);
            }
        }
        n
    } else {
        assert(text.take(text.len() as int) =~= text);
        text.len() as int
    }
}

/// Among the characters of ASCII white space is the space and what moves on a line
/// or to another one.
pub proof fn law_white_space(c: char)
    requires
        (c as u32) < 0x80,
    ensures
        is_white_space(c) <==> c == ' ' || c == '\t' || c == '\n' || c == '\r' || c == '\u{b}' || c
            == '\u{c}',
{
}

/// A link in Markdown shows, in square brackets, its label without the white space
/// around it, or its target where it has none, and names its target in round ones;
/// what is shown is in code type exactly for the tag `linkcode`.
pub proof fn law_link_shows_label_and_target(
    tag: Seq<char>,
    target: Seq<char>,
    label: Option<Seq<char>>,
)
    ensures
        ({
            let link = link_markdown(tag, target, label);
            let shown = match label {
                Some(label) => trimmed(label),
                None => target,
            };
            let code = if tag == "linkcode"@ {
                1int
            } else {
                0
            };
            let close = 1 + code + shown.len();
            &&& link.len() == shown.len() + target.len() + 4 + 2 * code
            &&& link[0] == '['
            &&& link.subrange(1 + code, close) == shown
            &&& code == 1 ==> link[1] == '`' && link[close] == '`'
            &&& link[close + code] == ']'
            &&& link[close + code + 1] == '('
            &&& link.subrange(close + code + 2, link.len() - 1) == target
            &&& link.last() == ')'
        }),
{
    reveal_strlit("[`");
    reveal_strlit("`](");
    reveal_strlit("[");
    reveal_strlit("](");
    reveal_strlit(")");
    let link = link_markdown(tag, target, label);
    let shown = match label {
        Some(label) => trimmed(label),
        None => target,
    };
    let code = if tag == "linkcode"@ {
        1int
    } else {
        0
    };
    let close = 1 + code + shown.len();
    assert(link.subrange(1 + code, close) =~= shown);
    assert(link.subrange(close + code + 2, link.len() - 1) =~= target);
}

/// A code block is the text between two fences on lines of their own, or the text
/// as it is where that opens with a fence.
pub proof fn law_codeblock_holds_the_text(text: Seq<char>)
    ensures
        is_fenced(text) ==> codeblock(text) == text,
        !is_fenced(text) ==> {
            let block = codeblock(text);
            &&& block.len() == text.len() + 8
            &&& block.subrange(0, 4) == seq!['`', '`', '`', '\n']
            &&& block.subrange(4, 4 + text.len() as int) == text
            &&& block.skip(4 + text.len() as int) == seq!['\n', '`', '`', '`']
        },
{
    reveal_strlit("```\n");
    reveal_strlit("\n```");
    if !is_fenced(text) {
        let block = codeblock(text);
        assert(block.subrange(0, 4) =~= seq!['`', '`', '`', '\n']);
        assert(block.subrange(4, 4 + text.len() as int) =~= text);
        assert(block.skip(4 + text.len() as int) =~= seq!['\n', '`', '`', '`']);
    }
}

/// What becomes of the text of a tag: an example is a code block, behind its
/// caption where it has one; the address of an author loses its brackets; a default
/// is a code block; in any other text only links change.
pub proof fn law_text_of_a_tag(name: Seq<char>, text: Seq<char>)
    ensures
        name == "example"@ ==> match regex_captures(CAPTION_PATTERN@, text) {
            None => tag_body(name, text) == codeblock(text),
            Some(m) => tag_body(name, text) == m.before + m.groups[1]->0 + seq!['\n', '\n']
                + codeblock(m.groups[2]->0) + m.after,
        },
        name == "author"@ ==> match regex_captures(EMAIL_PATTERN@, text) {
            None => tag_body(name, text) == text,
            Some(m) => tag_body(name, text) == m.before + m.groups[1]->0 + seq![' ']
                + m.groups[2]->0 + m.after,
        },
        name == "default"@ ==> tag_body(name, text) == codeblock(text),
        name != "example"@ && name != "author"@ && name != "default"@ ==> tag_body(name, text)
            == links_replaced(text),
{
    reveal_strlit("example");
    reveal_strlit("author");
    reveal_strlit("default");
    reveal_strlit("\n\n");
    reveal_strlit(" ");
    assert("example"@[0] != "author"@[0] && "example"@[0] != "default"@[0] && "author"@[0]
        != "default"@[0]);
    if name == "example"@ {
        if let Some(m) = regex_captures(CAPTION_PATTERN@, text) {
            assert(tag_body(name, text) =~= m.before + m.groups[1]->0 + seq!['\n', '\n']
                + codeblock(m.groups[2]->0) + m.after);
        }
    } else if name == "author"@ {
        if let Some(m) = regex_captures(EMAIL_PATTERN@, text) {
            assert(tag_body(name, text) =~= m.before + m.groups[1]->0 + seq![' ']
                + m.groups[2]->0 + m.after);
        }
    }
}

/// A text has several lines where it holds a line feed.
pub open spec fn has_line_feed(text: Seq<char>) -> bool {
    exists|i: int| 0 <= i < text.len() && #[trigger] text[i] == '\n'
}

/// What stands between a label and a text: a line break where the text has several
/// lines, else a dash.
pub open spec fn after_label(text: Seq<char>) -> Seq<char> {
    if has_line_feed(text) {
        seq![' ', ' ', '\n']
    } else {
        seq![' ', '-', ' ']
    }
}

/// A line feed occurs where the text that is one does.
proof fn lemma_line_feed(text: Seq<char>)
    ensures
        contains_text(text, "\n"@) == has_line_feed(text),
{
    reveal_strlit("\n");
    if contains_text(text, "\n"@) {
        let i = choose|i: int| occurs_at(text, "\n"@, i);
        assert(text.subrange(i, i + 1)[0] == text[i]);
    }
    if has_line_feed(text) {
        let i = choose|i: int| 0 <= i < text.len() && #[trigger] text[i] == '\n';
        assert(text.subrange(i, i + 1) =~= "\n"@);
        assert(occurs_at(text, "\n"@, i));
    }
}

/// The documentation of a tag begins with its name in italics. Behind it stands the
/// text of the tag, on a line of its own where it has several. Where the text of
/// `augments`, `extends`, `param` or `template` parts into a name and a
/// description, the name stands first, in code type, and the description takes the
/// place of the text, where there is one.
pub proof fn law_documentation_of_a_tag(name: Seq<char>, text: Option<Seq<char>>)
    ensures
        ({
            let shown = tag_documentation(name, text);
            let label = seq!['*', '@'] + name + seq!['*'];
            let named = name == "augments"@ || name == "extends"@ || name == "param"@ || name
                == "template"@;
            match text {
                None => shown == label,
                Some(text) => {
                    let parts = regex_split(PART_PATTERN@, text);
                    if named && parts.len() == 3 {
                        let start = label + seq![' ', '`'] + parts[1] + seq!['`'];
                        if parts[2].len() == 0 {
                            shown == start
                        } else {
                            shown == start + after_label(parts[2]) + links_replaced(parts[2])
                        }
                    } else {
                        let body = tag_body(name, text);
                        shown == label + after_label(body) + body
                    }
                },
            }
        }),
{
    reveal_strlit("*@");
    reveal_strlit("*");
    reveal_strlit("* `");
    reveal_strlit("`");
    reveal_strlit("  \n");
    reveal_strlit(" - ");
    let shown = tag_documentation(name, text);
    let label = seq!['*', '@'] + name + seq!['*'];
    assert(tag_label(name) =~= label);
    if let Some(text) = text {
        let parts = regex_split(PART_PATTERN@, text);
        if names_something(name) && parts.len() == 3 {
            lemma_line_feed(parts[2]);
            let start = label + seq![' ', '`'] + parts[1] + seq!['`'];
            assert("*@"@ + name + "* `"@ + parts[1] + "`"@ =~= start);
            if parts[2].len() > 0 {
                assert(shown =~= start + after_label(parts[2]) + links_replaced(parts[2]));
            }
        } else {
            let body = tag_body(name, text);
            lemma_line_feed(body);
            assert(shown =~= label + after_label(body) + body);
        }
    }
}

} // verus!
