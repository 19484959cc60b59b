//! Edits that the language service asks for, and what the editor is sent for
//! them.
use vstd::prelude::*;
use crate::error::result_view;
use crate::error::AnyError;
use crate::lsp::json::Json;
use crate::lsp::lines::LineIndex;
use crate::lsp::protocol::views;
use crate::lsp::protocol::DocumentEditView;
use crate::lsp::protocol::EditView;
use crate::lsp::protocol::TextDocumentEdit;
use crate::lsp::protocol::TextEdit;
use crate::lsp::protocol::WorkspaceEdit;
use crate::lsp::results::DocumentSpan;
use crate::lsp::results::TextSpan;
use crate::specifier::resolve_url;
use crate::specifier::specifier_of;
use crate::text::str_eq;

verus! {

/// A place where a name is to be changed.
#[derive(Debug)]
pub struct RenameLocation {
    pub document_span: DocumentSpan,
    pub prefix_text: Option<String>,
    pub suffix_text: Option<String>,
}

/// The places where a name is to be changed.
#[derive(Debug)]
pub struct RenameLocations {
    pub locations: Vec<RenameLocation>,
}

/// The document of a place: the URI that the editor knows it by, its version and
/// its lines.
#[derive(Debug)]
pub struct RenameTarget {
    pub uri: String,
    pub version: Option<i32>,
    pub line_index: LineIndex,
}

/// The index of the first document with a URI, or the number of documents.
pub open spec fn place_of(documents: Seq<DocumentEditView>, uri: Seq<char>) -> int
    decreases documents.len(),
{
    if documents.len() == 0 {
        0
    } else {
        let before = place_of(documents.drop_last(), uri);
        if before < documents.len() - 1 {
            before
        } else if documents.last().uri == uri {
            documents.len() - 1
        } else {
            documents.len() as int
        }
    }
}

/// Documents with one more edit: behind the others in its document, or in a
/// document of its own.
pub open spec fn with_edit(
    documents: Seq<DocumentEditView>,
    uri: Seq<char>,
    version: Option<i32>,
    edit: EditView,
) -> Seq<DocumentEditView> {
    let i = place_of(documents, uri);
    if i < documents.len() {
        documents.update(
            i,
            DocumentEditView {
                uri: documents[i].uri,
                version: documents[i].version,
                edits: documents[i].edits.push(edit),
            },
        )
    } else {
        documents.push(DocumentEditView { uri, version, edits: seq![edit] })
    }
}

/// The edit at a place.
pub open spec fn rename_edit(
    location: RenameLocation,
    target: RenameTarget,
    new_name: Seq<char>,
) -> EditView {
    EditView {
        range: location.document_span.text_span.range(target.line_index@),
        new_text: new_name,
    }
}

/// The edits at the first `n` places, by document.
pub open spec fn renamed(
    locations: Seq<RenameLocation>,
    targets: Seq<RenameTarget>,
    new_name: Seq<char>,
    n: nat,
) -> Seq<DocumentEditView>
    decreases n,
{
    if n == 0 {
        Seq::empty()
    } else {
        with_edit(
            renamed(locations, targets, new_name, (n - 1) as nat),
            targets[n - 1].uri@,
            targets[n - 1].version,
            rename_edit(locations[n - 1], targets[n - 1], new_name),
        )
    }
}

/// What is known of the index of a document.
pub proof fn lemma_place_of(documents: Seq<DocumentEditView>, uri: Seq<char>)
    ensures
        0 <= place_of(documents, uri) <= documents.len(),
        forall|j: int| 0 <= j < place_of(documents, uri) ==> documents[j].uri != uri,
        place_of(documents, uri) < documents.len() ==> documents[place_of(documents, uri)].uri
            == uri,
    decreases documents.len(),
{
    if documents.len() > 0 {
        lemma_place_of(documents.drop_last(), uri);
        let before = place_of(documents.drop_last(), uri);
        assert forall|j: int| 0 <= j < place_of(documents, uri) implies documents[j].uri != uri by {
            if j < documents.len() - 1 {
                assert(documents.drop_last()[j].uri != uri);
            }
        }
        if before < documents.len() - 1 {
            assert(documents.drop_last()[before].uri == uri);
        }
    }
}

/// The index is the only one with what is known of it.
proof fn lemma_place_is(documents: Seq<DocumentEditView>, uri: Seq<char>, i: int)
    requires
        0 <= i <= documents.len(),
        forall|j: int| 0 <= j < i ==> documents[j].uri != uri,
        i < documents.len() ==> documents[i].uri == uri,
    ensures
        place_of(documents, uri) == i,
{
    lemma_place_of(documents, uri);
    let p = place_of(documents, uri);
    if p < i {
        assert(documents[p].uri != uri);
    } else if i < p {
        assert(documents[i].uri != uri);
    }
}

impl RenameLocations {
    /// The specifier of the document of the place with an index.
    pub fn specifier(&self, index: usize) -> (r: Result<String, AnyError>)
        requires
            index < self.locations@.len(),
        ensures
            result_view(r) == specifier_of(
                self.locations@[index as int].document_span.file_name@,
            ),
    {
        self.locations[index].document_span.specifier()
    }

    /// The edits that change the name at every place, by document, given the
    /// document of each place. The documents come in the order in which the
    /// places first name them.
    pub fn into_workspace_edit(self, new_name: &str, targets: &Vec<RenameTarget>) -> (r:
        WorkspaceEdit)
        requires
            targets@.len() == self.locations@.len(),
            forall|i: int|
                0 <= i < self.locations@.len() ==> (
                #[trigger] self.locations@[i]).document_span.text_span.fits(),
        ensures
            views(r.document_changes@) == renamed(
                self.locations@,
                targets@,
                new_name@,
                self.locations@.len(),
            ),
    {
        let mut documents: Vec<TextDocumentEdit> = Vec::new();
        let mut n: usize = 0;
        assert(views(documents@) =~= Seq::empty());
        while n < self.locations.len()
            invariant
                n <= self.locations@.len(),
                targets@.len() == self.locations@.len(),
                forall|i: int|
                    0 <= i < self.locations@.len() ==> (
                    #[trigger] self.locations@[i]).document_span.text_span.fits(),
                views(documents@) == renamed(self.locations@, targets@, new_name@, n as nat),
            decreases self.locations.len() - n,
        {
            let location: &RenameLocation = &self.locations[n];
            let target: &RenameTarget = &targets[n];
            let edit: TextEdit = TextEdit {
                range: location.document_span.text_span.to_range(&target.line_index),
                new_text: new_name.to_owned(),
            };
            put_edit(&mut documents, target.uri.as_str(), target.version, edit);
            n = n + 1;
        }
        WorkspaceEdit { document_changes: documents }
    }
}

/// Puts an edit behind the others in its document, or in a document of its own.
fn put_edit(
    documents: &mut Vec<TextDocumentEdit>,
    uri: &str,
    version: Option<i32>,
    edit: TextEdit,
)
    ensures
        views(final(documents)@) == with_edit(views(old(documents)@), uri@, version, edit@),
{
    let ghost before = documents@;
    let mut i: usize = 0;
    while i < documents.len() && !str_eq(documents[i].uri.as_str(), uri)
        invariant
            i <= documents@.len(),
            documents@ == before,
            forall|j: int| 0 <= j < i ==> documents@[j].uri@ != uri@,
        ensures
            i <= documents@.len(),
            documents@ == before,
            forall|j: int| 0 <= j < i ==> documents@[j].uri@ != uri@,
            i < documents@.len() ==> documents@[i as int].uri@ == uri@,
        decreases documents.len() - i,
    {
        i = i + 1;
    }
    proof {
        assert forall|j: int| 0 <= j < i implies views(before)[j].uri != uri@ by {}
        lemma_place_is(views(before), uri@, i as int);
    }
    if i < documents.len() {
        documents[i].edits.push(edit);
        assert(views(documents@[i as int].edits@) =~= views(before[i as int].edits@).push(edit@));
        assert(views(documents@) =~= with_edit(views(before), uri@, version, edit@));
    } else {
        let mut edits: Vec<TextEdit> = Vec::new();
        edits.push(edit);
        assert(views(edits@) =~= seq![edit@]);
        documents.push(TextDocumentEdit { uri: uri.to_owned(), version, edits });
        assert(views(documents@) =~= with_edit(views(before), uri@, version, edit@));
    }
}

/// The edits at those of the first `n` places that are in a document.
pub open spec fn edits_in(
    locations: Seq<RenameLocation>,
    targets: Seq<RenameTarget>,
    new_name: Seq<char>,
    uri: Seq<char>,
    n: nat,
) -> Seq<EditView>
    decreases n,
{
    if n == 0 {
        Seq::empty()
    } else {
        let before = edits_in(locations, targets, new_name, uri, (n - 1) as nat);
        if targets[n - 1].uri@ == uri {
            before.push(rename_edit(locations[n - 1], targets[n - 1], new_name))
        } else {
            before
        }
    }
}

/// Every document occurs once, holds exactly the edits at the places in it, in
/// their order, and every place is in one of the documents. So a rename changes
/// every place once and nothing else.
pub proof fn law_rename_edits_every_place_once(
    locations: Seq<RenameLocation>,
    targets: Seq<RenameTarget>,
    new_name: Seq<char>,
    n: nat,
)
    ensures
        ({
            let documents = renamed(locations, targets, new_name, n);
            &&& forall|i: int, j: int|
                0 <= i < j < documents.len() ==> documents[i].uri != documents[j].uri
            &&& forall|i: int|
                0 <= i < documents.len() ==> (#[trigger] documents[i]).edits == edits_in(
                    locations,
                    targets,
                    new_name,
                    documents[i].uri,
                    n,
                )
            &&& forall|k: int|
                0 <= k < n ==> place_of(documents, (#[trigger] targets[k]).uri@) < documents.len()
        }),
    decreases n,
{
    let documents = renamed(locations, targets, new_name, n);
    if n > 0 {
        let before = renamed(locations, targets, new_name, (n - 1) as nat);
        let uri = targets[n - 1].uri@;
        law_rename_edits_every_place_once(locations, targets, new_name, (n - 1) as nat);
        lemma_place_of(before, uri);
        let p = place_of(before, uri);
        if p == before.len() {
            lemma_no_edits_in(locations, targets, new_name, uri, (n - 1) as nat);
        }
        assert forall|i: int| 0 <= i < documents.len() implies (#[trigger] documents[i]).edits
            == edits_in(locations, targets, new_name, documents[i].uri, n) by {
            if i < before.len() {
                assert(before[i].edits == edits_in(
                    locations,
                    targets,
                    new_name,
                    before[i].uri,
                    (n - 1) as nat,
                ));
                if i != p && p < before.len() {
                    assert(before[i].uri != before[p].uri);
                }
            } else {
                assert(documents[i].edits =~= edits_in(
                    locations,
                    targets,
                    new_name,
                    documents[i].uri,
                    n,
                ));
            }
        }
        assert forall|k: int| 0 <= k < n implies place_of(documents, (#[trigger] targets[k]).uri@)
            < documents.len() by {
            lemma_place_of(documents, targets[k].uri@);
            lemma_place_of(before, targets[k].uri@);
            if k == n - 1 {
                assert(documents[p].uri == uri);
            } else {
                let q = place_of(before, targets[k].uri@);
                assert(q < before.len());
                assert(documents[q].uri == targets[k].uri@);
            }
        }
    }
}

/// Where no document has the URI, none of the places is in one with it.
proof fn lemma_no_edits_in(
    locations: Seq<RenameLocation>,
    targets: Seq<RenameTarget>,
    new_name: Seq<char>,
    uri: Seq<char>,
    n: nat,
)
    requires
        place_of(renamed(locations, targets, new_name, n), uri) == renamed(
            locations,
            targets,
            new_name,
            n,
        ).len(),
    ensures
        edits_in(locations, targets, new_name, uri, n).len() == 0,
    decreases n,
{
    if n > 0 {
        let documents = renamed(locations, targets, new_name, n);
        let before = renamed(locations, targets, new_name, (n - 1) as nat);
        let last = targets[n - 1].uri@;
        lemma_place_of(documents, uri);
        lemma_place_of(before, last);
        lemma_place_of(before, uri);
        let p = place_of(before, last);
        assert(documents[p].uri == last);
        let q = place_of(before, uri);
        if q < before.len() {
            assert(documents[q].uri == uri);
        }
        lemma_no_edits_in(locations, targets, new_name, uri, (n - 1) as nat);
    }
}

/// A replacement of a stretch of a file by a text.
#[derive(Debug)]
pub struct TextChange {
    pub span: TextSpan,
    pub new_text: String,
}

impl TextChange {
    /// The replacement in a document with lines that start at these offsets.
    pub open spec fn edit(self, starts: Seq<u32>) -> EditView {
        EditView { range: self.span.range(starts), new_text: self.new_text@ }
    }

    /// The replacement as the editor is sent it.
    pub fn as_text_edit(&self, line_index: &LineIndex) -> (r: TextEdit)
        requires
            self.span.fits(),
        ensures
            r@ == self.edit(line_index@),
    {
        TextEdit { range: self.span.to_range(line_index), new_text: self.new_text.clone() }
    }
}

/// The replacements in a file.
#[derive(Debug)]
pub struct FileTextChanges {
    pub file_name: String,
    pub text_changes: Vec<TextChange>,
    pub is_new_file: Option<bool>,
}

impl FileTextChanges {
    /// The specifier of the file.
    pub fn specifier(&self) -> (r: Result<String, AnyError>)
        ensures
            result_view(r) == specifier_of(self.file_name@),
    {
        resolve_url(self.file_name.as_str())
    }

    /// The replacements as the editor is sent them, given the lines and the
    /// version of the file.
    pub fn to_text_document_edit(&self, line_index: &LineIndex, version: Option<i32>) -> (r: Result<
        TextDocumentEdit,
        AnyError,
    >)
        requires
            forall|i: int|
                0 <= i < self.text_changes@.len() ==> (#[trigger] self.text_changes@[i]).span.fits(),
        ensures
            match specifier_of(self.file_name@) {
                Ok(uri) => r matches Ok(document) && document@ == (DocumentEditView {
                    uri,
                    version,
                    edits: Seq::new(
                        self.text_changes@.len(),
                        |i: int| self.text_changes@[i].edit(line_index@),
                    ),
                }),
                Err(e) => r matches Err(error) && error@ == e,
            },
    {
        let uri: String = match resolve_url(self.file_name.as_str()) {
            Ok(uri) => uri,
            Err(e) => {
                return Err(e);
            },
        };
        let mut edits: Vec<TextEdit> = Vec::new();
        let mut i: usize = 0;
        while i < self.text_changes.len()
            invariant
                i <= self.text_changes@.len(),
                edits@.len() == i,
                forall|i: int|
                    0 <= i < self.text_changes@.len() ==> (
                    #[trigger] self.text_changes@[i]).span.fits(),
                forall|j: int|
                    0 <= j < i ==> (#[trigger] edits@[j])@ == self.text_changes@[j].edit(
                        line_index@,
                    ),
            decreases self.text_changes.len() - i,
        {
            edits.push(self.text_changes[i].as_text_edit(line_index));
            i = i + 1;
        }
        assert(views(edits@) =~= Seq::new(
            self.text_changes@.len(),
            |i: int| self.text_changes@[i].edit(line_index@),
        ));
        Ok(TextDocumentEdit { uri, version, edits })
    }
}

/// A fix that is offered. The commands are passed back as they are when it is
/// applied.
#[derive(Debug)]
pub struct CodeFixAction {
    pub description: String,
    pub changes: Vec<FileTextChanges>,
    pub commands: Option<Vec<Json>>,
    pub fix_name: String,
    pub fix_id: Option<String>,
    pub fix_all_description: Option<String>,
}

/// Fixes that are applied together.
#[derive(Debug)]
pub struct CombinedCodeActions {
    pub changes: Vec<FileTextChanges>,
    pub commands: Option<Vec<Json>>,
}

} // verus!
