//! The state that the compiler isolate asks for while it handles a request.
//!
//! What is neither an asset nor an open document is in the source cache, which
//! reads files: where an answer has to come from there, it says so.
use vstd::pervasive::unreached;
use vstd::prelude::*;
use crate::error::custom_error;
use crate::error::custom_error_view;
use crate::error::result_view;
use crate::error::AnyError;
use crate::error::ErrorView;
use crate::lsp::assets::Assets;
use crate::lsp::json::Json;
use crate::lsp::lines::law_whole_slice;
use crate::lsp::lines::slice;
use crate::lsp::lines::utf16_len;
use crate::lsp::lines::utf16_length;
use crate::lsp::lines::utf16_slice;
use crate::lsp::request::RequestMethod;
use crate::lsp::snapshots::Snapshots;
use crate::media_type::media_type_of_url;
use crate::media_type::type_of_url;
use crate::specifier::resolve_url;
use crate::specifier::specifier_of;
use crate::text::concat3;
use crate::text::opt_str;
use crate::text::signed_decimal;
use crate::text::signed_decimal_string;
use crate::text::starts_with;
use crate::text::str_eq;
use crate::text::str_starts_with;
use crate::text::texts;

verus! {

/// What an import resolved to.
#[derive(Debug)]
pub enum ResolvedDependency {
    Resolved(String),
    Unresolved,
}

/// What an import of a document resolved to, for its types and for its code.
#[derive(Debug)]
pub struct Dependency {
    pub maybe_type: Option<ResolvedDependency>,
    pub maybe_code: Option<ResolvedDependency>,
}

impl Dependency {
    /// What the import resolved to: its types before its code.
    pub open spec fn resolved(self) -> Option<Seq<char>> {
        let import = match (self.maybe_type, self.maybe_code) {
            (Some(import), _) => import,
            (None, Some(import)) => import,
            (None, None) => ResolvedDependency::Unresolved,
        };
        match import {
            ResolvedDependency::Resolved(specifier) => Some(specifier@),
            ResolvedDependency::Unresolved => None,
        }
    }

    /// What the import resolved to: its types before its code.
    pub fn resolve(&self) -> (r: Option<&String>)
        ensures
            match r {
                Some(specifier) => self.resolved() == Some(specifier@),
                None => self.resolved() is None,
            },
    {
        let import: Option<&ResolvedDependency> = match &self.maybe_type {
            Some(import) => Some(import),
            None => match &self.maybe_code {
                Some(import) => Some(import),
                None => None,
            },
        };
        match import {
            Some(ResolvedDependency::Resolved(specifier)) => Some(specifier),
            _ => None,
        }
    }
}

/// A copy of what an import resolved to.
fn clone_resolved(import: &Option<ResolvedDependency>) -> (r: Option<ResolvedDependency>)
    ensures
        r == *import,
{
    match import {
        Some(ResolvedDependency::Resolved(specifier)) => Some(
            ResolvedDependency::Resolved(specifier.clone()),
        ),
        Some(ResolvedDependency::Unresolved) => Some(ResolvedDependency::Unresolved),
        None => None,
    }
}

impl Clone for Dependency {
    fn clone(&self) -> (r: Self)
        ensures
            r == *self,
    {
        Dependency {
            maybe_type: clone_resolved(&self.maybe_type),
            maybe_code: clone_resolved(&self.maybe_code),
        }
    }
}

/// A document: its specifier, the version that the editor has open, its text,
/// and what its imports resolved to.
#[derive(Debug)]
pub struct Document {
    pub specifier: String,
    pub version: Option<i32>,
    pub content: String,
    pub dependencies: Option<Vec<(String, Dependency)>>,
}

/// The first document with a specifier.
pub open spec fn document_at(documents: Seq<Document>, specifier: Seq<char>) -> Option<Document>
    decreases documents.len(),
{
    if documents.len() == 0 {
        None
    } else if documents[0].specifier@ == specifier {
        Some(documents[0])
    } else {
        document_at(documents.skip(1), specifier)
    }
}

/// The first document with a specifier.
pub fn find_document<'a>(documents: &'a Vec<Document>, specifier: &str) -> (r: Option<&'a Document>)
    ensures
        match r {
            Some(document) => document_at(documents@, specifier@) == Some(*document),
            None => document_at(documents@, specifier@) is None,
        },
{
    let mut i: usize = 0;
    assert(documents@.skip(0) =~= documents@);
    while i < documents.len()
        invariant
            i <= documents@.len(),
            document_at(documents@, specifier@) == document_at(
                documents@.skip(i as int),
                specifier@,
            ),
        decreases documents.len() - i,
    {
        assert(documents@.skip(i as int)[0] == documents@[i as int]);
        if str_eq(documents[i].specifier.as_str(), specifier) {
            return Some(&documents[i]);
        }
        assert(documents@.skip(i as int).skip(1) =~= documents@.skip(i + 1));
        i = i + 1;
    }
    None
}

/// The first dependency under a name.
pub open spec fn dependency_at(dependencies: Seq<(String, Dependency)>, name: Seq<char>) -> Option<
    Dependency,
>
    decreases dependencies.len(),
{
    if dependencies.len() == 0 {
        None
    } else if dependencies[0].0@ == name {
        Some(dependencies[0].1)
    } else {
        dependency_at(dependencies.skip(1), name)
    }
}

/// The first dependency under a name.
fn find_dependency<'a>(dependencies: &'a Vec<(String, Dependency)>, name: &str) -> (r: Option<
    &'a Dependency,
>)
    ensures
        match r {
            Some(dependency) => dependency_at(dependencies@, name@) == Some(*dependency),
            None => dependency_at(dependencies@, name@) is None,
        },
{
    let mut i: usize = 0;
    assert(dependencies@.skip(0) =~= dependencies@);
    while i < dependencies.len()
        invariant
            i <= dependencies@.len(),
            dependency_at(dependencies@, name@) == dependency_at(
                dependencies@.skip(i as int),
                name@,
            ),
        decreases dependencies.len() - i,
    {
        assert(dependencies@.skip(i as int)[0] == dependencies@[i as int]);
        let (key, dependency) = &dependencies[i];
        if str_eq(key.as_str(), name) {
            return Some(dependency);
        }
        assert(dependencies@.skip(i as int).skip(1) =~= dependencies@.skip(i + 1));
        i = i + 1;
    }
    None
}

/// What is known when a request is made.
pub struct StateSnapshot {
    pub assets: Assets,
    pub documents: Vec<Document>,
}

/// The response to a request.
#[derive(Debug)]
pub struct Response {
    pub id: usize,
    pub data: Json,
}

/// The state beside the compiler isolate.
pub struct State {
    pub asset: Option<String>,
    pub last_id: usize,
    pub response: Option<Response>,
    pub state_snapshot: StateSnapshot,
    pub snapshots: Snapshots,
}

impl State {
    /// The texts are kept once for each document and version.
    pub open spec fn wf(self) -> bool {
        self.snapshots.wf()
    }

    /// Nothing but the kept texts has changed.
    pub open spec fn same_but_snapshots(self, before: State) -> bool {
        &&& self.asset == before.asset
        &&& self.last_id == before.last_id
        &&& self.response == before.response
        &&& self.state_snapshot == before.state_snapshot
    }

    /// The state of an isolate that has had no request.
    pub fn new(state_snapshot: StateSnapshot) -> (r: State)
        ensures
            r.wf(),
            r.asset is None,
            r.last_id == 1,
            r.response is None,
            r.state_snapshot == state_snapshot,
            r.snapshots@ == Map::<(Seq<char>, Seq<char>), Seq<char>>::empty(),
    {
        State {
            asset: None,
            last_id: 1,
            response: None,
            state_snapshot,
            snapshots: Snapshots::new(),
        }
    }
}

/// The text of a document at a version is kept, or can be: the document is
/// there, or its name is no specifier at all.
pub open spec fn can_cache(state: State, specifier: Seq<char>, version: Seq<char>) -> bool {
    ||| state.snapshots@.contains_key((specifier, version))
    ||| specifier_of(specifier) is Err
    ||| document_at(state.state_snapshot.documents@, specifier_of(specifier)->Ok_0) is Some
}

/// The kept texts, with that of a document at a version among them.
pub open spec fn cached(state: State, specifier: Seq<char>, version: Seq<char>) -> Result<
    Map<(Seq<char>, Seq<char>), Seq<char>>,
    ErrorView,
> {
    if state.snapshots@.contains_key((specifier, version)) {
        Ok(state.snapshots@)
    } else {
        match specifier_of(specifier) {
            Err(e) => Err(e),
            Ok(s) => Ok(
                state.snapshots@.insert(
                    (specifier, version),
                    document_at(state.state_snapshot.documents@, s)->0.content@,
                ),
            ),
        }
    }
}

/// Whether the text of a document at a version is kept or can be.
pub fn is_cacheable(state: &State, specifier: &str, version: &str) -> (r: bool)
    requires
        state.wf(),
    ensures
        r == can_cache(*state, specifier@, version@),
{
    if state.snapshots.contains_key(specifier, version) {
        return true;
    }
    match resolve_url(specifier) {
        Err(_) => true,
        Ok(s) => find_document(&state.state_snapshot.documents, s.as_str()).is_some(),
    }
}

/// If a snapshot is missing from the state cache, add it.
pub fn cache_snapshot(state: &mut State, specifier: &str, version: &str) -> (r: Result<
    (),
    AnyError,
>)
    requires
        old(state).wf(),
        can_cache(*old(state), specifier@, version@),
    ensures
        final(state).wf(),
        final(state).same_but_snapshots(*old(state)),
        match cached(*old(state), specifier@, version@) {
            Ok(snapshots) => r is Ok && final(state).snapshots@ == snapshots,
            Err(e) => r matches Err(error) && error@ == e && final(state).snapshots@ == old(
                state,
            ).snapshots@,
        },
{
    if !state.snapshots.contains_key(specifier, version) {
        let s: String = match resolve_url(specifier) {
            Ok(s) => s,
            Err(e) => {
                return Err(e);
            },
        };
        let content: String = match find_document(&state.state_snapshot.documents, s.as_str()) {
            Some(document) => document.content.clone(),
            None => unreached(),
        };
        state.snapshots.insert(specifier.to_owned(), version.to_owned(), content);
    }
    Ok(())
}

/// Caches the text of a document at a version, unless there is no such document:
/// then there is no result, and nothing changes.
pub fn cache_snapshot_if_present(state: &mut State, specifier: &str, version: &str) -> (r: Option<
    Result<(), AnyError>,
>)
    requires
        old(state).wf(),
    ensures
        final(state).wf(),
        final(state).same_but_snapshots(*old(state)),
        r is Some <==> can_cache(*old(state), specifier@, version@),
        r is None ==> final(state).snapshots@ == old(state).snapshots@,
        r matches Some(result) ==> match cached(*old(state), specifier@, version@) {
            Ok(snapshots) => result is Ok && final(state).snapshots@ == snapshots,
            Err(e) => result matches Err(error) && error@ == e && final(state).snapshots@ == old(
                state,
            ).snapshots@,
        },
{
    if is_cacheable(state, specifier, version) {
        Some(cache_snapshot(state, specifier, version))
    } else {
        None
    }
}

/// Which text of which document is spoken of.
#[derive(Debug)]
pub struct SourceSnapshotArgs {
    pub specifier: String,
    pub version: String,
}

/// The language service is dropping a reference to a source file snapshot, and
/// we can drop our version of that document.
pub fn dispose(state: &mut State, args: &SourceSnapshotArgs) -> (r: bool)
    requires
        old(state).wf(),
    ensures
        r,
        final(state).wf(),
        final(state).same_but_snapshots(*old(state)),
        final(state).snapshots@ == old(state).snapshots@.remove((args.specifier@, args.version@)),
{
    state.snapshots.remove(args.specifier.as_str(), args.version.as_str());
    true
}

/// Which texts are to be compared.
#[derive(Debug)]
pub struct GetChangeRangeArgs {
    pub specifier: String,
    pub old_length: u32,
    pub old_version: String,
    pub version: String,
}

/// What changed between two texts: to be found by comparing them, or the whole of
/// the old one.
#[derive(Debug)]
pub enum ChangeRange {
    Compare { prev: String, current: String },
    Whole { start: u32, length: u32, new_length: usize },
}

/// What a change says.
#[verifier::ext_equal]
pub enum ChangeView {
    Compare { prev: Seq<char>, current: Seq<char> },
    Whole { start: nat, length: nat, new_length: nat },
}

impl View for ChangeRange {
    type V = ChangeView;

    open spec fn view(&self) -> ChangeView {
        match self {
            ChangeRange::Compare { prev, current } => ChangeView::Compare {
                prev: prev@,
                current: current@,
            },
            ChangeRange::Whole { start, length, new_length } => ChangeView::Whole {
                start: *start as nat,
                length: *length as nat,
                new_length: *new_length as nat,
            },
        }
    }
}

/// What changed from the old version to the current one, given the kept texts.
/// Where the old text is not kept, the whole document is to be read again.
pub open spec fn change_range(
    snapshots: Map<(Seq<char>, Seq<char>), Seq<char>>,
    args: GetChangeRangeArgs,
) -> ChangeView {
    let current = snapshots[(args.specifier@, args.version@)];
    if snapshots.contains_key((args.specifier@, args.old_version@)) {
        ChangeView::Compare { prev: snapshots[(args.specifier@, args.old_version@)], current }
    } else {
        ChangeView::Whole {
            start: 0,
            length: args.old_length as nat,
            new_length: utf16_len(current),
        }
    }
}

/// The language service wants to compare an old snapshot with a new snapshot to
/// determine what source hash changed.
pub fn get_change_range(state: &mut State, args: &GetChangeRangeArgs) -> (r: Result<
    ChangeRange,
    AnyError,
>)
    requires
        old(state).wf(),
        can_cache(*old(state), args.specifier@, args.version@),
    ensures
        final(state).wf(),
        final(state).same_but_snapshots(*old(state)),
        match cached(*old(state), args.specifier@, args.version@) {
            Ok(snapshots) => {
                &&& final(state).snapshots@ == snapshots
                &&& r matches Ok(change)
                &&& change@ == change_range(snapshots, *args)
            },
            Err(e) => {
                &&& final(state).snapshots@ == old(state).snapshots@
                &&& r matches Err(error)
                &&& error@ == e
            },
        },
{
    match cache_snapshot(state, args.specifier.as_str(), args.version.as_str()) {
        Ok(()) => {},
        Err(e) => {
            return Err(e);
        },
    }
    match state.snapshots.get(args.specifier.as_str(), args.version.as_str()) {
        Some(current) => match state.snapshots.get(
            args.specifier.as_str(),
            args.old_version.as_str(),
        ) {
            Some(prev) => Ok(ChangeRange::Compare { prev: prev.clone(), current: current.clone() }),
            None => Ok(
                ChangeRange::Whole {
                    start: 0,
                    length: args.old_length,
                    new_length: utf16_length(current.as_str()),
                },
            ),
        },
        None => unreached(),
    }
}

/// Says what changed, unless there is no such document: then there is no result,
/// and nothing changes.
pub fn get_change_range_if_present(state: &mut State, args: &GetChangeRangeArgs) -> (r: Option<
    Result<ChangeRange, AnyError>,
>)
    requires
        old(state).wf(),
    ensures
        final(state).wf(),
        final(state).same_but_snapshots(*old(state)),
        r is Some <==> can_cache(*old(state), args.specifier@, args.version@),
        r is None ==> final(state).snapshots@ == old(state).snapshots@,
        r matches Some(result) ==> match cached(*old(state), args.specifier@, args.version@) {
            Ok(snapshots) => {
                &&& final(state).snapshots@ == snapshots
                &&& result matches Ok(change)
                &&& change@ == change_range(snapshots, *args)
            },
            Err(e) => {
                &&& final(state).snapshots@ == old(state).snapshots@
                &&& result matches Err(error)
                &&& error@ == e
            },
        },
{
    if is_cacheable(state, args.specifier.as_str(), args.version.as_str()) {
        Some(get_change_range(state, args))
    } else {
        None
    }
}

/// Where the text of a document is found.
pub enum TextSource {
    /// Here it is.
    Found(String),
    /// In the source cache, under this specifier.
    Sources(String),
}

/// Where the text of a document is found.
#[verifier::ext_equal]
pub enum TextSourceView {
    Found(Seq<char>),
    Sources(Seq<char>),
}

impl View for TextSource {
    type V = TextSourceView;

    open spec fn view(&self) -> TextSourceView {
        match self {
            TextSource::Found(text) => TextSourceView::Found(text@),
            TextSource::Sources(specifier) => TextSourceView::Sources(specifier@),
        }
    }
}

/// The kept texts after the text of a document at a version was asked for: an
/// open document is kept, unless it is an asset.
pub open spec fn asked(state: State, specifier: Seq<char>, version: Seq<char>) -> Map<
    (Seq<char>, Seq<char>),
    Seq<char>,
> {
    match specifier_of(specifier) {
        Err(_) => state.snapshots@,
        Ok(s) => if state.state_snapshot.assets@.contains_key(s)
            && state.state_snapshot.assets@[s] is Some {
            state.snapshots@
        } else if document_at(state.state_snapshot.documents@, s) is Some {
            cached(state, specifier, version)->Ok_0
        } else {
            state.snapshots@
        },
    }
}

/// Where the text of a document at a version is found: among the assets, then
/// among the documents, then in the source cache.
pub open spec fn text_source(state: State, specifier: Seq<char>, version: Seq<char>) -> Result<
    TextSourceView,
    ErrorView,
> {
    match specifier_of(specifier) {
        Err(e) => Err(e),
        Ok(s) => if state.state_snapshot.assets@.contains_key(s)
            && state.state_snapshot.assets@[s] is Some {
            Ok(TextSourceView::Found(state.state_snapshot.assets@[s]->0.text))
        } else if document_at(state.state_snapshot.documents@, s) is Some {
            Ok(
                TextSourceView::Found(
                    cached(state, specifier, version)->Ok_0[(specifier, version)],
                ),
            )
        } else {
            Ok(TextSourceView::Sources(s))
        },
    }
}

/// Finds the text of a document at a version.
fn find_text(state: &mut State, specifier: &str, version: &str) -> (r: Result<
    TextSource,
    AnyError,
>)
    requires
        old(state).wf(),
    ensures
        final(state).wf(),
        final(state).same_but_snapshots(*old(state)),
        final(state).snapshots@ == asked(*old(state), specifier@, version@),
        result_view(r) == text_source(*old(state), specifier@, version@),
{
    let s: String = match resolve_url(specifier) {
        Ok(s) => s,
        Err(e) => {
            return Err(e);
        },
    };
    if let Some(Some(asset)) = state.state_snapshot.assets.get(s.as_str()) {
        return Ok(TextSource::Found(asset.text.clone()));
    }
    if find_document(&state.state_snapshot.documents, s.as_str()).is_some() {
        match cache_snapshot(state, specifier, version) {
            Ok(()) => {},
            Err(e) => {
                return Err(e);
            },
        }
        return match state.snapshots.get(specifier, version) {
            Some(content) => Ok(TextSource::Found(content.clone())),
            None => unreached(),
        };
    }
    Ok(TextSource::Sources(s))
}

/// The length of a text in UTF-16 code units.
#[derive(Debug)]
pub enum LengthAnswer {
    /// Here it is.
    Known(usize),
    /// The source cache knows it, under this specifier.
    Sources(String),
}

/// The length of a text: that of an asset as it was counted, else that of the
/// text.
pub open spec fn length_answer(state: State, specifier: Seq<char>, version: Seq<char>) -> Result<
    Result<nat, Seq<char>>,
    ErrorView,
> {
    match specifier_of(specifier) {
        Err(e) => Err(e),
        Ok(s) => if state.state_snapshot.assets@.contains_key(s)
            && state.state_snapshot.assets@[s] is Some {
            Ok(Ok(state.state_snapshot.assets@[s]->0.length))
        } else {
            match text_source(state, specifier, version) {
                Ok(TextSourceView::Found(text)) => Ok(Ok(utf16_len(text))),
                Ok(TextSourceView::Sources(s)) => Ok(Err(s)),
                Err(e) => Err(e),
            }
        },
    }
}

/// The length of the text of a document at a version.
pub fn get_length(state: &mut State, args: &SourceSnapshotArgs) -> (r: Result<
    LengthAnswer,
    AnyError,
>)
    requires
        old(state).wf(),
    ensures
        final(state).wf(),
        final(state).same_but_snapshots(*old(state)),
        final(state).snapshots@ == asked(*old(state), args.specifier@, args.version@),
        match length_answer(*old(state), args.specifier@, args.version@) {
            Ok(Ok(n)) => r matches Ok(LengthAnswer::Known(m)) && m == n,
            Ok(Err(s)) => r matches Ok(LengthAnswer::Sources(t)) && t@ == s,
            Err(e) => r matches Err(error) && error@ == e,
        },
{
    let s: String = match resolve_url(args.specifier.as_str()) {
        Ok(s) => s,
        Err(e) => {
            return Err(e);
        },
    };
    if let Some(Some(asset)) = state.state_snapshot.assets.get(s.as_str()) {
        return Ok(LengthAnswer::Known(asset.length));
    }
    match find_text(state, args.specifier.as_str(), args.version.as_str()) {
        Ok(TextSource::Found(text)) => Ok(LengthAnswer::Known(utf16_length(text.as_str()))),
        Ok(TextSource::Sources(s)) => Ok(LengthAnswer::Sources(s)),
        Err(e) => Err(e),
    }
}

/// Which stretch of which text is asked for.
#[derive(Debug)]
pub struct GetTextArgs {
    pub specifier: String,
    pub version: String,
    pub start: usize,
    pub end: usize,
}

/// A stretch of the text of a document at a version. Where the text is in the
/// source cache, the stretch is to be cut out of that.
pub fn get_text(state: &mut State, args: &GetTextArgs) -> (r: Result<TextSource, AnyError>)
    requires
        old(state).wf(),
    ensures
        final(state).wf(),
        final(state).same_but_snapshots(*old(state)),
        final(state).snapshots@ == asked(*old(state), args.specifier@, args.version@),
        match text_source(*old(state), args.specifier@, args.version@) {
            Ok(TextSourceView::Found(text)) => {
                &&& r matches Ok(TextSource::Found(part))
                &&& part@ == utf16_slice(text, args.start as nat, args.end as nat)
            },
            Ok(TextSourceView::Sources(s)) => r matches Ok(TextSource::Sources(t)) && t@ == s,
            Err(e) => r matches Err(error) && error@ == e,
        },
{
    match find_text(state, args.specifier.as_str(), args.version.as_str()) {
        Ok(TextSource::Found(text)) => Ok(
            TextSource::Found(slice(text.as_str(), args.start, args.end)),
        ),
        Ok(TextSource::Sources(s)) => Ok(TextSource::Sources(s)),
        Err(e) => Err(e),
    }
}

/// What is to be resolved from which module.
#[derive(Debug)]
pub struct ResolveArgs {
    pub base: String,
    pub specifiers: Vec<String>,
}

/// What an import leads to.
#[derive(Debug)]
pub enum ResolveStep {
    /// An asset or an open document; its extension follows from its type.
    Known(String),
    /// A module that is not open: found if the source cache has it, under the
    /// extension that the cache gives or else the one that follows from its type.
    Source(String),
    /// Nothing.
    Nothing,
}

/// What an import leads to.
#[verifier::ext_equal]
pub enum StepView {
    Known(Seq<char>),
    Source(Seq<char>),
    Nothing,
}

impl View for ResolveStep {
    type V = StepView;

    open spec fn view(&self) -> StepView {
        match self {
            ResolveStep::Known(specifier) => StepView::Known(specifier@),
            ResolveStep::Source(specifier) => StepView::Source(specifier@),
            ResolveStep::Nothing => StepView::Nothing,
        }
    }
}

/// What an import of a document leads to; nothing is said of one that is no
/// asset and that the document does not have.
pub open spec fn document_step(
    documents: Seq<Document>,
    dependencies: Seq<(String, Dependency)>,
    specifier: Seq<char>,
) -> Option<StepView> {
    if starts_with(specifier, "asset:///"@) {
        Some(StepView::Known(specifier))
    } else {
        match dependency_at(dependencies, specifier) {
            None => None,
            Some(dependency) => match dependency.resolved() {
                None => Some(StepView::Nothing),
                Some(s) => if document_at(documents, s) is Some {
                    Some(StepView::Known(s))
                } else {
                    Some(StepView::Source(s))
                },
            },
        }
    }
}

/// What the first `n` imports of a document lead to.
pub open spec fn document_steps(
    documents: Seq<Document>,
    dependencies: Seq<(String, Dependency)>,
    specifiers: Seq<String>,
    n: nat,
) -> Seq<StepView>
    decreases n,
{
    if n == 0 {
        Seq::empty()
    } else {
        let before = document_steps(documents, dependencies, specifiers, (n - 1) as nat);
        match document_step(documents, dependencies, specifiers[n - 1]@) {
            Some(step) => before.push(step),
            None => before,
        }
    }
}

/// How imports are resolved: step by step, where the importing module is an open
/// document, else by the source cache.
#[derive(Debug)]
pub enum ResolvePlan {
    Steps(Vec<ResolveStep>),
    Sources { referrer: String },
}

/// How imports are resolved.
#[verifier::ext_equal]
pub enum PlanView {
    Steps(Seq<StepView>),
    Sources { referrer: Seq<char> },
}

/// What the steps say.
pub open spec fn steps_view(steps: Seq<ResolveStep>) -> Seq<StepView> {
    Seq::new(steps.len(), |i: int| steps[i]@)
}

impl View for ResolvePlan {
    type V = PlanView;

    open spec fn view(&self) -> PlanView {
        match self {
            ResolvePlan::Steps(steps) => PlanView::Steps(steps_view(steps@)),
            ResolvePlan::Sources { referrer } => PlanView::Sources { referrer: referrer@ },
        }
    }
}

/// How the imports of a module are resolved.
pub open spec fn resolve_plan(documents: Seq<Document>, args: ResolveArgs) -> Result<
    PlanView,
    ErrorView,
> {
    match specifier_of(args.base@) {
        Err(e) => Err(e),
        Ok(referrer) => match document_at(documents, referrer) {
            None => Ok(PlanView::Sources { referrer }),
            Some(document) => match document.dependencies {
                None => Ok(PlanView::Steps(Seq::empty())),
                Some(dependencies) => Ok(
                    PlanView::Steps(
                        document_steps(
                            documents,
                            dependencies@,
                            args.specifiers@,
                            args.specifiers@.len(),
                        ),
                    ),
                ),
            },
        },
    }
}

/// What the imports of a document lead to.
fn resolve_in_document(
    documents: &Vec<Document>,
    dependencies: &Vec<(String, Dependency)>,
    specifiers: &Vec<String>,
) -> (r: Vec<ResolveStep>)
    ensures
        steps_view(r@) == document_steps(
            documents@,
            dependencies@,
            specifiers@,
            specifiers@.len(),
        ),
{
    let mut steps: Vec<ResolveStep> = Vec::new();
    let mut n: usize = 0;
    assert(steps_view(steps@) =~= Seq::empty());
    while n < specifiers.len()
        invariant
            n <= specifiers@.len(),
            steps_view(steps@) == document_steps(
                documents@,
                dependencies@,
                specifiers@,
                n as nat,
            ),
        decreases specifiers.len() - n,
    {
        let ghost before = steps@;
        let specifier: &str = specifiers[n].as_str();
        let step: Option<ResolveStep> = if str_starts_with(specifier, "asset:///") {
            Some(ResolveStep::Known(specifier.to_owned()))
        } else {
            match find_dependency(dependencies, specifier) {
                None => None,
                Some(dependency) => match dependency.resolve() {
                    None => Some(ResolveStep::Nothing),
                    Some(s) => if find_document(documents, s.as_str()).is_some() {
                        Some(ResolveStep::Known(s.clone()))
                    } else {
                        Some(ResolveStep::Source(s.clone()))
                    },
                },
            }
        };
        if let Some(step) = step {
            steps.push(step);
            assert(steps_view(steps@) =~= steps_view(before).push(step@));
        }
        n = n + 1;
    }
    steps
}

/// How the imports of a module are resolved.
pub fn resolve(state: &State, args: &ResolveArgs) -> (r: Result<ResolvePlan, AnyError>)
    ensures
        result_view(r) == resolve_plan(state.state_snapshot.documents@, *args),
{
    let referrer: String = match resolve_url(args.base.as_str()) {
        Ok(referrer) => referrer,
        Err(e) => {
            return Err(e);
        },
    };
    let documents: &Vec<Document> = &state.state_snapshot.documents;
    match find_document(documents, referrer.as_str()) {
        None => Ok(ResolvePlan::Sources { referrer }),
        Some(document) => match &document.dependencies {
            None => {
                let steps: Vec<ResolveStep> = Vec::new();
                assert(steps_view(steps@) =~= Seq::empty());
                Ok(ResolvePlan::Steps(steps))
            },
            Some(dependencies) => Ok(
                ResolvePlan::Steps(resolve_in_document(documents, dependencies, &args.specifiers)),
            ),
        },
    }
}

/// A module and the extension under which the compiler knows it: the one that is
/// given, or else the one that follows from the module's type. It is an error
/// where the type is asked for and the module is no URL.
pub open spec fn with_extension(specifier: Seq<char>, given: Option<Seq<char>>) -> Result<
    Option<(Seq<char>, Seq<char>)>,
    ErrorView,
> {
    match given {
        Some(extension) => Ok(Some((specifier, extension))),
        None => match specifier_of(specifier) {
            Ok(_) => Ok(Some((specifier, type_of_url(specifier).ts_extension()))),
            Err(e) => Err(e),
        },
    }
}

/// The module that a step of a document leads to, given what the source cache
/// says of it.
pub open spec fn step_module(
    step: StepView,
    in_sources: bool,
    source_extension: Option<Seq<char>>,
) -> Result<Option<(Seq<char>, Seq<char>)>, ErrorView> {
    match step {
        StepView::Known(specifier) => with_extension(specifier, None),
        StepView::Source(specifier) => if in_sources {
            with_extension(specifier, source_extension)
        } else {
            Ok(None)
        },
        StepView::Nothing => Ok(None),
    }
}

/// What came of resolving an import: a module and its extension, nothing or an
/// error.
pub open spec fn module_view(r: Result<Option<(String, String)>, AnyError>) -> Result<
    Option<(Seq<char>, Seq<char>)>,
    ErrorView,
> {
    match r {
        Ok(Some((specifier, extension))) => Ok(Some((specifier@, extension@))),
        Ok(None) => Ok(None),
        Err(e) => Err(e@),
    }
}

/// A module and the extension that follows from its type.
fn extend_by_type(specifier: &String) -> (r: Result<Option<(String, String)>, AnyError>)
    ensures
        module_view(r) == with_extension(specifier@, None),
{
    match resolve_url(specifier.as_str()) {
        Err(e) => Err(e),
        Ok(_) => {
            let extension: &str = media_type_of_url(specifier.as_str()).as_ts_extension();
            Ok(Some((specifier.clone(), extension.to_owned())))
        },
    }
}

/// The module that a step of a document leads to, given what the source cache
/// says of it: whether it has it, and under which extension.
pub fn resolve_step(step: &ResolveStep, in_sources: bool, source_extension: Option<&str>) -> (r:
    Result<Option<(String, String)>, AnyError>)
    ensures
        module_view(r) == step_module(step@, in_sources, opt_str(source_extension)),
{
    match step {
        ResolveStep::Known(specifier) => extend_by_type(specifier),
        ResolveStep::Source(specifier) => {
            if !in_sources {
                return Ok(None);
            }
            match source_extension {
                Some(given) => Ok(Some((specifier.clone(), given.to_owned()))),
                None => extend_by_type(specifier),
            }
        },
        ResolveStep::Nothing => Ok(None),
    }
}

/// The error where the importing module is not known at all.
pub open spec fn missing_referrer(referrer: Seq<char>) -> ErrorView {
    custom_error_view(
        "NotFound"@,
        "the referring ("@ + referrer + ") specifier is unexpectedly missing"@,
    )
}

/// Whether the source cache may resolve the imports of a module: it has to have
/// the module.
pub fn resolve_from_sources(referrer: &str, in_sources: bool) -> (r: Result<(), AnyError>)
    ensures
        in_sources ==> r is Ok,
        !in_sources ==> (r matches Err(e) && e@ == missing_referrer(referrer@)),
{
    if in_sources {
        Ok(())
    } else {
        Err(
            custom_error(
                "NotFound",
                concat3(
                    "the referring (",
                    referrer,
                    ") specifier is unexpectedly missing",
                ).as_str(),
            ),
        )
    }
}

/// The isolate hands over the response to a request.
pub fn respond(state: &mut State, response: Response) -> (r: bool)
    requires
        old(state).wf(),
    ensures
        r,
        *final(state) == (State { response: Some(response), ..*old(state) }),
{
    state.response = Some(response);
    true
}

/// The specifiers of the first `n` documents that are open: those with a version.
pub open spec fn open_specifiers(documents: Seq<Document>, n: nat) -> Seq<Seq<char>>
    decreases n,
{
    if n == 0 {
        Seq::empty()
    } else {
        let before = open_specifiers(documents, (n - 1) as nat);
        if documents[n - 1].version is Some {
            before.push(documents[n - 1].specifier@)
        } else {
            before
        }
    }
}

/// The specifiers of the open documents.
pub fn script_names(state: &State) -> (r: Vec<String>)
    ensures
        texts(r@) == open_specifiers(
            state.state_snapshot.documents@,
            state.state_snapshot.documents@.len(),
        ),
{
    let documents: &Vec<Document> = &state.state_snapshot.documents;
    let mut names: Vec<String> = Vec::new();
    let mut n: usize = 0;
    assert(texts(names@) =~= Seq::empty());
    while n < documents.len()
        invariant
            n <= documents@.len(),
            texts(names@) == open_specifiers(documents@, n as nat),
        decreases documents.len() - n,
    {
        let ghost before = names@;
        if documents[n].version.is_some() {
            names.push(documents[n].specifier.clone());
            assert(texts(names@) =~= texts(before).push(documents@[n as int].specifier@));
        }
        n = n + 1;
    }
    names
}

/// The version of a script.
#[derive(Debug)]
pub enum VersionAnswer {
    /// Here it is.
    Version(String),
    /// There is none.
    NoVersion,
    /// The source cache knows it, under this specifier.
    Sources(String),
}

/// The version of a script.
#[verifier::ext_equal]
pub enum VersionView {
    Version(Seq<char>),
    NoVersion,
    Sources(Seq<char>),
}

impl View for VersionAnswer {
    type V = VersionView;

    open spec fn view(&self) -> VersionView {
        match self {
            VersionAnswer::Version(version) => VersionView::Version(version@),
            VersionAnswer::NoVersion => VersionView::NoVersion,
            VersionAnswer::Sources(specifier) => VersionView::Sources(specifier@),
        }
    }
}

/// The version of a script: always the first for an asset that is known, and
/// none for one that is not; that of the document that is open; else the one
/// that the source cache knows.
pub open spec fn version_answer(snapshot: StateSnapshot, specifier: Seq<char>) -> Result<
    VersionView,
    ErrorView,
> {
    match specifier_of(specifier) {
        Err(e) => Err(e),
        Ok(s) => if starts_with(s, "asset:"@) {
            if snapshot.assets@.contains_key(s) {
                Ok(VersionView::Version("1"@))
            } else {
                Ok(VersionView::NoVersion)
            }
        } else {
            match document_at(snapshot.documents@, s) {
                Some(document) => match document.version {
                    Some(version) => Ok(VersionView::Version(signed_decimal(version as int))),
                    None => Ok(VersionView::Sources(s)),
                },
                None => Ok(VersionView::Sources(s)),
            }
        },
    }
}

/// The version of a script.
pub fn script_version(state: &State, specifier: &str) -> (r: Result<VersionAnswer, AnyError>)
    ensures
        result_view(r) == version_answer(state.state_snapshot, specifier@),
{
    let s: String = match resolve_url(specifier) {
        Ok(s) => s,
        Err(e) => {
            return Err(e);
        },
    };
    if str_starts_with(s.as_str(), "asset:") {
        return if state.state_snapshot.assets.contains_key(s.as_str()) {
            Ok(VersionAnswer::Version("1".to_owned()))
        } else {
            Ok(VersionAnswer::NoVersion)
        };
    }
    match find_document(&state.state_snapshot.documents, s.as_str()) {
        Some(document) => match document.version {
            Some(version) => Ok(VersionAnswer::Version(signed_decimal_string(version))),
            None => Ok(VersionAnswer::Sources(s)),
        },
        None => Ok(VersionAnswer::Sources(s)),
    }
}

/// The isolate hands over the text of an asset.
pub fn set_asset(state: &mut State, text: Option<String>) -> (r: bool)
    requires
        old(state).wf(),
    ensures
        r,
        *final(state) == (State { asset: text, ..*old(state) }),
{
    state.asset = text;
    true
}

/// Begins a request: the state is that of the snapshot, and the request gets the
/// next number.
pub fn begin_request(state: &mut State, state_snapshot: StateSnapshot, method: &RequestMethod) -> (r:
    Json)
    requires
        old(state).wf(),
        old(state).last_id < usize::MAX,
    ensures
        *final(state) == (State {
            state_snapshot,
            last_id: (old(state).last_id + 1) as usize,
            ..*old(state)
        }),
        r@ == method.request_view((old(state).last_id + 1) as nat),
{
    state.state_snapshot = state_snapshot;
    state.last_id = state.last_id + 1;
    method.to_value(state.last_id)
}

/// The error where no response came.
pub open spec fn no_response() -> ErrorView {
    custom_error_view("RequestError"@, "The response was not received for the request."@)
}

/// Ends a request: takes the response that was handed over meanwhile.
pub fn end_request(state: &mut State) -> (r: Result<Json, AnyError>)
    requires
        old(state).wf(),
    ensures
        *final(state) == (State { response: None, ..*old(state) }),
        match old(state).response {
            Some(response) => r matches Ok(data) && data == response.data,
            None => r matches Err(e) && e@ == no_response(),
        },
{
    match state.response.take() {
        Some(response) => Ok(response.data),
        None => Err(
            custom_error("RequestError", "The response was not received for the request."),
        ),
    }
}

/// The text that is kept for a document at a version stays what it was when it
/// was first asked for, whatever becomes of the document.
pub proof fn law_kept_text_stays(
    state: State,
    specifier: Seq<char>,
    version: Seq<char>,
    other_specifier: Seq<char>,
    other_version: Seq<char>,
)
    requires
        state.snapshots@.contains_key((specifier, version)),
    ensures
        asked(state, other_specifier, other_version).contains_key((specifier, version)),
        asked(state, other_specifier, other_version)[(specifier, version)] == state.snapshots@[(
            specifier,
            version,
        )],
{
}

/// Asking for the same text again changes nothing.
pub proof fn law_asking_again_changes_nothing(
    state: State,
    after: State,
    specifier: Seq<char>,
    version: Seq<char>,
)
    requires
        after.same_but_snapshots(state),
        after.snapshots@ == asked(state, specifier, version),
    ensures
        asked(after, specifier, version) == after.snapshots@,
        text_source(after, specifier, version) == text_source(state, specifier, version),
{
}

/// The assets are held with the lengths of their texts.
pub open spec fn assets_counted(snapshot: StateSnapshot) -> bool {
    forall|s: Seq<char>|
        snapshot.assets@.contains_key(s) ==> ((#[trigger] snapshot.assets@[s]) matches Some(asset)
            ==> asset.length == utf16_len(asset.text))
}

/// The length that is answered for a text that is found is that of the text: the
/// stretch from the start to there is all of it.
pub proof fn law_length_covers_text(
    state: State,
    specifier: Seq<char>,
    version: Seq<char>,
    text: Seq<char>,
)
    requires
        assets_counted(state.state_snapshot),
        text_source(state, specifier, version) == Ok::<_, ErrorView>(TextSourceView::Found(text)),
    ensures
        length_answer(state, specifier, version) == Ok::<Result<nat, Seq<char>>, ErrorView>(
            Ok(utf16_len(text)),
        ),
        utf16_slice(text, 0, utf16_len(text)) == text,
{
    law_whole_slice(text);
    let s = specifier_of(specifier)->Ok_0;
    if state.state_snapshot.assets@.contains_key(s) {
        assert(state.state_snapshot.assets@[s] matches Some(asset) ==> asset.length == utf16_len(
            asset.text,
        ));
    }
}

/// Where a document has every import that is asked for, or it is an asset, every
/// one is answered, in its place.
pub proof fn law_known_imports_are_answered_in_place(
    documents: Seq<Document>,
    dependencies: Seq<(String, Dependency)>,
    specifiers: Seq<String>,
    n: nat,
)
    requires
        n <= specifiers.len(),
        forall|i: int|
            0 <= i < specifiers.len() ==> document_step(
                documents,
                dependencies,
                (#[trigger] specifiers[i])@,
            ) is Some,
    ensures
        document_steps(documents, dependencies, specifiers, n).len() == n,
        forall|i: int|
            0 <= i < n ==> document_step(documents, dependencies, (#[trigger] specifiers[i])@)
                == Some(document_steps(documents, dependencies, specifiers, n)[i]),
    decreases n,
{
    if n > 0 {
        law_known_imports_are_answered_in_place(
            documents,
            dependencies,
            specifiers,
            (n - 1) as nat,
        );
        assert(document_step(documents, dependencies, specifiers[n - 1]@) is Some);
    }
}

/// The answers to the compiler say all that they hold, and a state in which nothing
/// but the kept texts has changed has everything else as it was.
pub proof fn law_answers_say_what_they_hold(
    change: ChangeRange,
    source: TextSource,
    step: ResolveStep,
    steps: Vec<ResolveStep>,
    version: VersionAnswer,
    after: State,
    before: State,
)
    ensures
        match (change, change@) {
            (
                ChangeRange::Compare { prev: a, current: b },
                ChangeView::Compare { prev: x, current: y },
            ) => a@ == x && b@ == y,
            (
                ChangeRange::Whole { start: a, length: b, new_length: c },
                ChangeView::Whole { start: x, length: y, new_length: z },
            ) => a == x && b == y && c == z,
            _ => false,
        },
        match (source, source@) {
            (TextSource::Found(a), TextSourceView::Found(b)) => a@ == b,
            (TextSource::Sources(a), TextSourceView::Sources(b)) => a@ == b,
            _ => false,
        },
        match (step, step@) {
            (ResolveStep::Known(a), StepView::Known(b)) => a@ == b,
            (ResolveStep::Source(a), StepView::Source(b)) => a@ == b,
            (ResolveStep::Nothing, StepView::Nothing) => true,
            _ => false,
        },
        steps_view(steps@).len() == steps@.len(),
        forall|i: int| 0 <= i < steps@.len() ==> #[trigger] steps_view(steps@)[i] == steps@[i]@,
        match (version, version@) {
            (VersionAnswer::Version(a), VersionView::Version(b)) => a@ == b,
            (VersionAnswer::NoVersion, VersionView::NoVersion) => true,
            (VersionAnswer::Sources(a), VersionView::Sources(b)) => a@ == b,
            _ => false,
        },
        after.same_but_snapshots(before) ==> after == (State {
            snapshots: after.snapshots,
            ..before
        }),
{
}

/// The errors where a module that imports is not known, and where no response came.
pub proof fn law_errors_of_the_service(referrer: Seq<char>)
    ensures
        missing_referrer(referrer) == custom_error_view(
            "NotFound"@,
            "the referring ("@ + referrer + ") specifier is unexpectedly missing"@,
        ),
        no_response() == custom_error_view(
            "RequestError"@,
            "The response was not received for the request."@,
        ),
{
}

/// The text of a document can be kept where it is kept already, the document is
/// there, or the name is no specifier, which is an error.
pub proof fn law_what_can_be_kept(state: State, name: Seq<char>, version: Seq<char>)
    ensures
        state.snapshots@.contains_key((name, version)) ==> can_cache(state, name, version)
            && cached(state, name, version) == Ok::<_, ErrorView>(state.snapshots@),
        !state.snapshots@.contains_key((name, version)) ==> match specifier_of(name) {
            Err(e) => can_cache(state, name, version) && cached(state, name, version) == Err::<
                Map<(Seq<char>, Seq<char>), Seq<char>>,
                _,
            >(e),
            Ok(s) => {
                &&& can_cache(state, name, version) <==> document_at(
                    state.state_snapshot.documents@,
                    s,
                ) is Some
                &&& document_at(state.state_snapshot.documents@, s) matches Some(document)
                    ==> cached(state, name, version) == Ok::<_, ErrorView>(
                    state.snapshots@.insert((name, version), document.content@),
                )
            },
        },
{
}

/// What came of resolving an import says what it holds.
pub proof fn law_modules_say_what_they_hold(specifier: String, extension: String, error: AnyError)
    ensures
        module_view(Ok(Some((specifier, extension)))) == Ok::<_, ErrorView>(
            Some((specifier@, extension@)),
        ),
        module_view(Ok(None)) == Ok::<Option<(Seq<char>, Seq<char>)>, ErrorView>(None),
        module_view(Err(error)) == Err::<Option<(Seq<char>, Seq<char>)>, _>(error@),
{
}

} // verus!
