//! The state of a session with an editor: its documents, its import map and the
//! requests that have not been answered.
use lsp_server::ReqQueue;
use std::path::PathBuf;
use vstd::prelude::*;
use crate::error::generic_error;
use crate::error::generic_error_view;
use crate::error::result_view;
use crate::error::AnyError;
use crate::error::ErrorView;
use crate::lsp::json::Json;
use crate::lsp::protocol::views;
use crate::lsp::rooted::has_rooted_path;
use crate::lsp::rooted::is_rooted;
use crate::lsp::rooted::rooted_form;
use crate::lsp::rooted::rooted_url;
use crate::lsp::service::Dependency;
use crate::specifier::parsed_url;
use crate::specifier::resolve_url;
use crate::text::concat2;
use crate::text::concat3;
use crate::text::concat4;
use crate::text::opt_str;
use crate::text::opt_text;
use crate::text::starts_with;
use crate::text::str_eq;

verus! {

/// Whether a session is being set up or ready.
#[derive(Clone, Copy, PartialEq, Eq, Structural, Debug)]
pub enum Status {
    Loading,
    Ready,
}

impl Default for Status {
    fn default() -> (r: Status)
        ensures
            r == Status::Loading,
    {
        Status::Loading
    }
}

/// What is known of a document: its version, and what its imports resolved to
/// where it could be analyzed.
#[derive(Debug)]
pub struct DocumentData {
    pub dependencies: Option<Vec<(String, Dependency)>>,
    pub version: Option<i32>,
    pub specifier: String,
}

/// What is known of a document.
#[verifier::ext_equal]
pub struct DocumentView {
    pub dependencies: Option<Seq<(String, Dependency)>>,
    pub version: Option<i32>,
    pub specifier: Seq<char>,
}

impl View for DocumentData {
    type V = DocumentView;

    open spec fn view(&self) -> DocumentView {
        DocumentView {
            dependencies: match self.dependencies {
                Some(dependencies) => Some(dependencies@),
                None => None,
            },
            version: self.version,
            specifier: self.specifier@,
        }
    }
}

impl Clone for DocumentData {
    fn clone(&self) -> (r: Self)
        ensures
            r@ == self@,
    {
        let dependencies: Option<Vec<(String, Dependency)>> = match &self.dependencies {
            None => None,
            Some(list) => {
                let mut copy: Vec<(String, Dependency)> = Vec::new();
                let mut i: usize = 0;
                while i < list.len()
                    invariant
                        i <= list@.len(),
                        copy@.len() == i,
                        forall|j: int| 0 <= j < i ==> copy@[j] == list@[j],
                    decreases list.len() - i,
                {
                    let (name, dependency) = &list[i];
                    copy.push((name.clone(), dependency.clone()));
                    i = i + 1;
                }
                assert(copy@ =~= list@);
                Some(copy)
            },
        };
        DocumentData { dependencies, version: self.version, specifier: self.specifier.clone() }
    }
}

impl DocumentData {
    /// What is known of a document that was opened, given what its imports
    /// resolved to.
    pub fn new(
        specifier: String,
        version: i32,
        dependencies: Option<Vec<(String, Dependency)>>,
    ) -> (r: DocumentData)
        ensures
            r.specifier == specifier,
            r.version == Some(version),
            r.dependencies == dependencies,
    {
        DocumentData { dependencies, version: Some(version), specifier }
    }

    /// What is known of a document after a change.
    pub fn update(&mut self, version: i32, dependencies: Option<Vec<(String, Dependency)>>)
        ensures
            final(self).specifier == old(self).specifier,
            final(self).version == Some(version),
            final(self).dependencies == dependencies,
    {
        self.dependencies = dependencies;
        self.version = Some(version);
    }
}

/// How a request is told from others.
#[derive(Debug)]
pub enum RequestId {
    Number(i32),
    Text(String),
}

/// How a request is told from others.
#[verifier::ext_equal]
pub enum IdView {
    Number(i32),
    Text(Seq<char>),
}

impl View for RequestId {
    type V = IdView;

    open spec fn view(&self) -> IdView {
        match self {
            RequestId::Number(n) => IdView::Number(*n),
            RequestId::Text(t) => IdView::Text(t@),
        }
    }
}

/// The queue of `lsp_server`: requests of the editor, each with its method and
/// when it came, and requests to the editor, each with the number of the handler
/// for its response.
#[verifier::external_type_specification]
#[verifier::external_body]
#[verifier::reject_recursive_types(I)]
#[verifier::reject_recursive_types(O)]
pub struct ExReqQueue<I, O>(ReqQueue<I, O>);

/// The requests of the editor that have not been answered.
pub uninterp spec fn incoming(queue: ReqQueue<(String, u64), u64>) -> Map<
    IdView,
    (Seq<char>, u64),
>;

/// The requests to the editor that have not been answered.
pub uninterp spec fn outgoing(queue: ReqQueue<(String, u64), u64>) -> Map<IdView, u64>;

/// The number of the next request to the editor.
pub uninterp spec fn next_id(queue: ReqQueue<(String, u64), u64>) -> int;

/// Calls `ReqQueue::default`: nothing waits for an answer.
#[verifier::external_body]
fn empty_queue() -> (r: ReqQueue<(String, u64), u64>)
    ensures
        (incoming(r) == Map::<IdView, (Seq<char>, u64)>::empty()),
        (outgoing(r) == Map::<IdView, u64>::empty()),
        next_id(r) == 0,
{
    ReqQueue::default()
}

/// Calls `Incoming::register`: the request waits for an answer, in place of an
/// earlier one with the same id.
#[verifier::external_body]
fn incoming_register(
    queue: &mut ReqQueue<(String, u64), u64>,
    id: &RequestId,
    method: &str,
    received: u64,
)
    ensures
        incoming(*final(queue)) == incoming(*old(queue)).insert(id@, (method@, received)),
        outgoing(*final(queue)) == outgoing(*old(queue)),
        next_id(*final(queue)) == next_id(*old(queue)),
{
    let id = match id {
        RequestId::Number(n) => lsp_server::RequestId::from(*n),
        RequestId::Text(t) => lsp_server::RequestId::from(t.clone()),
    };
    queue.incoming.register(id, (method.to_string(), received));
}

/// Calls `Incoming::complete`: the request no longer waits; its data, where it
/// did.
#[verifier::external_body]
fn incoming_complete(queue: &mut ReqQueue<(String, u64), u64>, id: &RequestId) -> (r: Option<
    (String, u64),
>)
    ensures
        incoming(*final(queue)) == incoming(*old(queue)).remove(id@),
        outgoing(*final(queue)) == outgoing(*old(queue)),
        next_id(*final(queue)) == next_id(*old(queue)),
        match r {
            Some((method, received)) => incoming(*old(queue)).contains_key(id@) && incoming(
                *old(queue),
            )[id@] == (method@, received),
            None => !incoming(*old(queue)).contains_key(id@),
        },
{
    let id = match id {
        RequestId::Number(n) => lsp_server::RequestId::from(*n),
        RequestId::Text(t) => lsp_server::RequestId::from(t.clone()),
    };
    queue.incoming.complete(id)
}

/// Calls `Incoming::cancel`: the request no longer waits; where it did, the code
/// and the message of the error that answers it.
#[verifier::external_body]
fn incoming_cancel(queue: &mut ReqQueue<(String, u64), u64>, id: &RequestId) -> (r: Option<
    (i32, String),
>)
    ensures
        incoming(*final(queue)) == incoming(*old(queue)).remove(id@),
        outgoing(*final(queue)) == outgoing(*old(queue)),
        next_id(*final(queue)) == next_id(*old(queue)),
        match r {
            Some((code, message)) => incoming(*old(queue)).contains_key(id@) && code == -32800
                && message@ == "canceled by client"@,
            None => !incoming(*old(queue)).contains_key(id@),
        },
{
    let id = match id {
        RequestId::Number(n) => lsp_server::RequestId::from(*n),
        RequestId::Text(t) => lsp_server::RequestId::from(t.clone()),
    };
    let error = queue.incoming.cancel(id)?.error?;
    Some((error.code, error.message))
}

/// Calls `Outgoing::register`: the request gets the next number and waits for an
/// answer.
#[verifier::external_body]
fn outgoing_register(queue: &mut ReqQueue<(String, u64), u64>, method: &str, handler: u64) -> (r:
    i32)
    requires
        next_id(*old(queue)) < i32::MAX,
    ensures
        r == next_id(*old(queue)),
        incoming(*final(queue)) == incoming(*old(queue)),
        outgoing(*final(queue)) == outgoing(*old(queue)).insert(IdView::Number(r), handler),
        next_id(*final(queue)) == r + 1,
{
    let request = queue.outgoing.register(method.to_string(), (), handler);
    request.id.to_string().parse().expect("the number of a request")
}

/// Calls `Outgoing::complete`: the request no longer waits; its handler.
#[verifier::external_body]
fn outgoing_complete(queue: &mut ReqQueue<(String, u64), u64>, id: &RequestId) -> (r: u64)
    requires
        outgoing(*old(queue)).contains_key(id@),
    ensures
        r == outgoing(*old(queue))[id@],
        incoming(*final(queue)) == incoming(*old(queue)),
        outgoing(*final(queue)) == outgoing(*old(queue)).remove(id@),
        next_id(*final(queue)) == next_id(*old(queue)),
{
    let id = match id {
        RequestId::Number(n) => lsp_server::RequestId::from(*n),
        RequestId::Text(t) => lsp_server::RequestId::from(t.clone()),
    };
    queue.outgoing.complete(id)
}

/// A request to the editor.
#[derive(Debug)]
pub struct OutgoingRequest {
    pub id: i32,
    pub method: String,
    pub params: Json,
}

/// The error that answers a request that was canceled.
#[derive(Debug)]
pub struct Cancellation {
    pub code: i32,
    pub message: String,
}

/// An import map and the URL it was read from.
#[derive(Debug)]
pub struct ImportMapFile {
    pub url: String,
    pub json: String,
}

/// An immutable snapshot of the server state at a point in time.
#[derive(Debug)]
pub struct ServerStateSnapshot {
    pub doc_data: Vec<DocumentData>,
}

/// The state of a session.
pub struct ServerState {
    pub changed_files: Vec<String>,
    pub doc_data: Vec<DocumentData>,
    pub maybe_import_map: Option<String>,
    pub maybe_import_map_uri: Option<String>,
    pub req_queue: ReqQueue<(String, u64), u64>,
    pub shutdown_requested: bool,
    pub status: Status,
}

impl ServerState {
    /// Nothing but the queue has changed.
    pub open spec fn same_but_queue(self, before: ServerState) -> bool {
        &&& self.changed_files == before.changed_files
        &&& self.doc_data == before.doc_data
        &&& self.maybe_import_map == before.maybe_import_map
        &&& self.maybe_import_map_uri == before.maybe_import_map_uri
        &&& self.shutdown_requested == before.shutdown_requested
        &&& self.status == before.status
    }

    /// The state at the start of a session.
    pub fn new() -> (r: ServerState)
        ensures
            r.changed_files@.len() == 0,
            r.doc_data@.len() == 0,
            r.maybe_import_map is None,
            r.maybe_import_map_uri is None,
            incoming(r.req_queue) == Map::<IdView, (Seq<char>, u64)>::empty(),
            outgoing(r.req_queue) == Map::<IdView, u64>::empty(),
            next_id(r.req_queue) == 0,
            !r.shutdown_requested,
            r.status == Status::Loading,
    {
        ServerState {
            changed_files: Vec::new(),
            doc_data: Vec::new(),
            maybe_import_map: None,
            maybe_import_map_uri: None,
            req_queue: empty_queue(),
            shutdown_requested: false,
            status: Status::default(),
        }
    }

    /// Cancels a request of the editor: where it waits for an answer, it gets an
    /// error, which is to be sent.
    pub fn cancel(&mut self, request_id: &RequestId) -> (r: Option<Cancellation>)
        ensures
            final(self).same_but_queue(*old(self)),
            incoming(final(self).req_queue) == incoming(old(self).req_queue).remove(request_id@),
            outgoing(final(self).req_queue) == outgoing(old(self).req_queue),
            next_id(final(self).req_queue) == next_id(old(self).req_queue),
            match r {
                Some(c) => {
                    &&& incoming(old(self).req_queue).contains_key(request_id@)
                    &&& c.code == -32800
                    &&& c.message@ == "canceled by client"@
                },
                None => !incoming(old(self).req_queue).contains_key(request_id@),
            },
    {
        match incoming_cancel(&mut self.req_queue, request_id) {
            Some((code, message)) => Some(Cancellation { code, message }),
            None => None,
        }
    }

    /// Takes the response to a request to the editor: the number of the handler
    /// that is to be called with it.
    pub fn complete_request(&mut self, response_id: &RequestId) -> (r: u64)
        requires
            outgoing(old(self).req_queue).contains_key(response_id@),
        ensures
            final(self).same_but_queue(*old(self)),
            r == outgoing(old(self).req_queue)[response_id@],
            incoming(final(self).req_queue) == incoming(old(self).req_queue),
            outgoing(final(self).req_queue) == outgoing(old(self).req_queue).remove(response_id@),
            next_id(final(self).req_queue) == next_id(old(self).req_queue),
    {
        outgoing_complete(&mut self.req_queue, response_id)
    }

    /// Handle any changes and return a `bool` that indicates if there were
    /// important changes to the state.
    pub fn process_changes(&mut self) -> (r: bool)
        ensures
            r == (old(self).changed_files@.len() > 0),
            final(self).changed_files@.len() == 0,
            *final(self) == (ServerState {
                changed_files: final(self).changed_files,
                ..*old(self)
            }),
    {
        let changed: bool = self.changed_files.len() > 0;
        self.changed_files = Vec::new();
        changed
    }

    /// Notes that a file has changed.
    pub fn note_change(&mut self, file: String)
        ensures
            final(self).changed_files@ == old(self).changed_files@.push(file),
            *final(self) == (ServerState {
                changed_files: final(self).changed_files,
                ..*old(self)
            }),
    {
        self.changed_files.push(file);
    }

    /// Notes a request of the editor, and when it came.
    pub fn register_request(&mut self, id: &RequestId, method: &str, received: u64)
        ensures
            final(self).same_but_queue(*old(self)),
            incoming(final(self).req_queue) == incoming(old(self).req_queue).insert(
                id@,
                (method@, received),
            ),
            outgoing(final(self).req_queue) == outgoing(old(self).req_queue),
            next_id(final(self).req_queue) == next_id(old(self).req_queue),
    {
        incoming_register(&mut self.req_queue, id, method, received);
    }

    /// Answers a request of the editor: whether the answer is to be sent, which
    /// it is where the request still waits for one.
    pub fn respond(&mut self, response_id: &RequestId) -> (r: bool)
        ensures
            final(self).same_but_queue(*old(self)),
            r == incoming(old(self).req_queue).contains_key(response_id@),
            incoming(final(self).req_queue) == incoming(old(self).req_queue).remove(response_id@),
            outgoing(final(self).req_queue) == outgoing(old(self).req_queue),
            next_id(final(self).req_queue) == next_id(old(self).req_queue),
    {
        incoming_complete(&mut self.req_queue, response_id).is_some()
    }

    /// Makes a request to the editor, which is to be sent.
    pub fn send_request(&mut self, method: &str, params: Json, handler: u64) -> (r: OutgoingRequest)
        requires
            next_id(old(self).req_queue) < i32::MAX,
        ensures
            final(self).same_but_queue(*old(self)),
            r.id == next_id(old(self).req_queue),
            r.method@ == method@,
            r.params == params,
            incoming(final(self).req_queue) == incoming(old(self).req_queue),
            outgoing(final(self).req_queue) == outgoing(old(self).req_queue).insert(
                IdView::Number(r.id),
                handler,
            ),
            next_id(final(self).req_queue) == r.id + 1,
    {
        let id: i32 = outgoing_register(&mut self.req_queue, method, handler);
        OutgoingRequest { id, method: method.to_owned(), params }
    }

    /// Goes over to another status.
    pub fn transition(&mut self, new_status: Status)
        ensures
            *final(self) == (ServerState { status: new_status, ..*old(self) }),
    {
        self.status = new_status;
    }

    /// What is known of the documents now.
    pub fn snapshot(&self) -> (r: ServerStateSnapshot)
        ensures
            views(r.doc_data@) == views(self.doc_data@),
    {
        let mut doc_data: Vec<DocumentData> = Vec::new();
        let mut i: usize = 0;
        while i < self.doc_data.len()
            invariant
                i <= self.doc_data@.len(),
                doc_data@.len() == i,
                forall|j: int| 0 <= j < i ==> (#[trigger] doc_data@[j])@ == self.doc_data@[j]@,
            decreases self.doc_data.len() - i,
        {
            doc_data.push(self.doc_data[i].clone());
            i = i + 1;
        }
        assert(views(doc_data@) =~= views(self.doc_data@));
        ServerStateSnapshot { doc_data }
    }

    /// Takes over an import map that was read, or drops the one there is where
    /// none is configured.
    pub fn set_import_map(&mut self, file: Option<ImportMapFile>)
        ensures
            match file {
                Some(file) => *final(self) == (ServerState {
                    maybe_import_map: Some(file.json),
                    maybe_import_map_uri: Some(file.url),
                    ..*old(self)
                }),
                None => *final(self) == (ServerState { maybe_import_map: None, ..*old(self) }),
            },
    {
        match file {
            Some(file) => {
                self.maybe_import_map_uri = Some(file.url);
                self.maybe_import_map = Some(file.json);
            },
            None => {
                self.maybe_import_map = None;
            },
        }
    }
}

/// Of answering a request and canceling it, only the first does anything: once a
/// request was answered or canceled, it is neither answered nor canceled again.
pub proof fn law_answered_once(queue: Map<IdView, (Seq<char>, u64)>, id: IdView)
    ensures
        !queue.remove(id).contains_key(id),
        queue.remove(id).remove(id) == queue.remove(id),
{
    assert(queue.remove(id).remove(id) =~= queue.remove(id));
}

/// The numbers of requests to the editor that wait are below the next one.
pub open spec fn numbered(queue: Map<IdView, u64>, next: int) -> bool {
    forall|id: IdView| #[trigger]
        queue.contains_key(id) ==> (id matches IdView::Number(n) && 0 <= n < next)
}

/// A request to the editor never takes the place of one that still waits, and the
/// numbers stay below the next one.
pub proof fn law_requests_have_their_own_numbers(queue: Map<IdView, u64>, next: int, handler: u64)
    requires
        numbered(queue, next),
        0 <= next < i32::MAX,
    ensures
        !queue.contains_key(IdView::Number(next as i32)),
        numbered(queue.insert(IdView::Number(next as i32), handler), next + 1),
{
}

/// A path of the machine, which need not be UTF-8.
#[verifier::external_type_specification]
#[verifier::external_body]
pub struct ExPathBuf(std::path::PathBuf);

/// Calls `PathBuf::from` on a text. Nothing is said of the path, which is the
/// machine's own form of the text.
#[verifier::external_body]
fn path_from(text: &str) -> (r: PathBuf) {
    PathBuf::from(text)
}

/// Calls `Url::from_file_path`. Which paths it takes depends on the machine; a
/// URL that it gives is one of a file.
#[verifier::external_body]
fn file_url(path: &PathBuf) -> (r: Option<String>)
    ensures
        r matches Some(url) ==> starts_with(url@, "file://"@),
{
    url::Url::from_file_path(path).ok().map(|url| url.to_string())
}

/// Calls `Url::to_file_path` on a URL, which on some machines asserts that the
/// path is one from the root. Which path it gives depends on the machine; what is
/// no URL has none.
#[verifier::external_body]
fn path_of_url(url: &str) -> (r: Option<PathBuf>)
    requires
        parsed_url(url@) matches Ok(u) ==> has_rooted_path(u),
    ensures
        parsed_url(url@) is Err ==> r is None,
{
    url::Url::parse(url).ok()?.to_file_path().ok()
}

/// The path of a URL, or, where its path is a lone drive letter, that of the root
/// of the drive. What is no URL has none, and a host that shares nothing neither;
/// else the machine decides.
pub fn rooted_path(url: &str) -> (r: Option<PathBuf>)
    ensures
        match parsed_url(url@) {
            Ok(u) => rooted_form(u) is None ==> r is None,
            Err(_) => r is None,
        },
{
    let normal: String = match resolve_url(url) {
        Ok(normal) => normal,
        Err(_) => {
            return None;
        },
    };
    if is_rooted(normal.as_str()) {
        return path_of_url(url);
    }
    match rooted_url(normal.as_str()) {
        None => None,
        Some(rooted) => match resolve_url(rooted.as_str()) {
            Ok(again) => if is_rooted(again.as_str()) {
                path_of_url(rooted.as_str())
            } else {
                None
            },
            Err(_) => None,
        },
    }
}

/// Calls `Path::join`. How paths are joined depends on the machine.
#[verifier::external_body]
fn join_path(root: &PathBuf, path: &str) -> (r: PathBuf) {
    root.join(path)
}

/// A text in quotes, with what is special in it escaped.
pub uninterp spec fn quoted(text: Seq<char>) -> Seq<char>;

/// Formats a text as its `Debug` does.
#[verifier::external_body]
fn quote(text: &str) -> (r: String)
    ensures
        r@ == quoted(text@),
{
    format!("{:?}", text)
}

/// What came of looking for the file of an import map under the root of the
/// workspace.
#[derive(Debug)]
pub enum RootLookup {
    /// There is no root.
    NoRoot,
    /// The root is no file.
    BadRoot(String),
    /// This is the URL of the file, where there is one.
    Joined(Option<String>),
}

/// The URL of an import map: that of its own path, else that of the path under
/// the root.
pub open spec fn import_map_url_of(
    import_map: Seq<char>,
    direct: Option<Seq<char>>,
    root: RootLookup,
) -> Result<Seq<char>, ErrorView> {
    match direct {
        Some(url) => Ok(url),
        None => match root {
            RootLookup::Joined(Some(url)) => Ok(url@),
            RootLookup::Joined(None) => Err(
                generic_error_view("Bad file path for import map: "@ + quoted(import_map)),
            ),
            RootLookup::BadRoot(uri) => Err(generic_error_view("Bad root_uri: "@ + uri@)),
            RootLookup::NoRoot => Err(
                generic_error_view(
                    "The path to the import map (\""@ + import_map + "\") is not resolvable."@,
                ),
            ),
        },
    }
}

/// The URL of an import map, given what came of looking for it.
pub fn choose_import_map_url(import_map: &str, direct: Option<String>, root: RootLookup) -> (r:
    Result<String, AnyError>)
    ensures
        result_view(r) == import_map_url_of(import_map@, opt_text(direct), root),
{
    match direct {
        Some(url) => Ok(url),
        None => match root {
            RootLookup::Joined(Some(url)) => Ok(url),
            RootLookup::Joined(None) => Err(
                generic_error(
                    concat2("Bad file path for import map: ", quote(import_map).as_str()).as_str(),
                ),
            ),
            RootLookup::BadRoot(uri) => Err(
                generic_error(concat2("Bad root_uri: ", uri.as_str()).as_str()),
            ),
            RootLookup::NoRoot => Err(
                generic_error(
                    concat3(
                        "The path to the import map (\"",
                        import_map,
                        "\") is not resolvable.",
                    ).as_str(),
                ),
            ),
        },
    }
}

/// What came of the last step in looking for the file of an import map.
#[derive(Debug)]
pub enum LookupEvent {
    /// Nothing was done yet.
    Start,
    /// The URL of the configured path, where it has one.
    Direct(Option<String>),
    /// The path of the URL of the root, where it has one.
    Root(Option<PathBuf>),
    /// The URL of the configured path under that of the root, where it has one.
    Joined(Option<String>),
}

/// What is done next in looking for the file of an import map.
#[derive(Debug)]
pub enum LookupStep {
    /// The URL of this path is looked up.
    UrlOf(String),
    /// The path of this URL is looked up.
    PathOf(String),
    /// The URL of this path under that root is looked up.
    UrlUnder(PathBuf, String),
    /// This is the URL, or the error.
    Done(Result<String, AnyError>),
}

/// What is done next in looking for an import map. First comes the configured
/// path. Where it has no URL, the path of the root comes, and then the configured
/// path under that one.
pub open spec fn is_next_lookup(
    step: LookupStep,
    import_map: Seq<char>,
    root_uri: Option<Seq<char>>,
    event: LookupEvent,
) -> bool {
    match (event, root_uri) {
        (LookupEvent::Start, _) => step matches LookupStep::UrlOf(path) && path@ == import_map,
        (LookupEvent::Direct(None), Some(root)) => {
            step matches LookupStep::PathOf(url) && url@ == root
        },
        (LookupEvent::Direct(direct), _) => {
            &&& step matches LookupStep::Done(r)
            &&& result_view(r) == import_map_url_of(
                import_map,
                opt_text(direct),
                RootLookup::NoRoot,
            )
        },
        (LookupEvent::Root(Some(root)), _) => {
            &&& step matches LookupStep::UrlUnder(under, path)
            &&& under == root
            &&& path@ == import_map
        },
        (LookupEvent::Root(None), Some(root)) => {
            &&& step matches LookupStep::Done(Err(e))
            &&& e@ == generic_error_view("Bad root_uri: "@ + root)
        },
        (LookupEvent::Root(None), None) => {
            &&& step matches LookupStep::Done(r)
            &&& result_view(r) == import_map_url_of(import_map, None, RootLookup::NoRoot)
        },
        (LookupEvent::Joined(url), _) => {
            &&& step matches LookupStep::Done(r)
            &&& result_view(r) == import_map_url_of(import_map, None, RootLookup::Joined(url))
        },
    }
}

/// What is done next in looking for an import map.
pub fn next_lookup(import_map: &str, root_uri: Option<&str>, event: LookupEvent) -> (r: LookupStep)
    ensures
        is_next_lookup(r, import_map@, opt_str(root_uri), event),
{
    match event {
        LookupEvent::Start => LookupStep::UrlOf(import_map.to_owned()),
        LookupEvent::Direct(direct) => match (direct, root_uri) {
            (None, Some(root)) => LookupStep::PathOf(root.to_owned()),
            (direct, _) => LookupStep::Done(
                choose_import_map_url(import_map, direct, RootLookup::NoRoot),
            ),
        },
        LookupEvent::Root(Some(root)) => LookupStep::UrlUnder(root, import_map.to_owned()),
        LookupEvent::Root(None) => match root_uri {
            Some(root) => LookupStep::Done(
                choose_import_map_url(import_map, None, RootLookup::BadRoot(root.to_owned())),
            ),
            None => LookupStep::Done(choose_import_map_url(import_map, None, RootLookup::NoRoot)),
        },
        LookupEvent::Joined(url) => LookupStep::Done(
            choose_import_map_url(import_map, None, RootLookup::Joined(url)),
        ),
    }
}

/// How many steps can follow.
spec fn steps_left(event: LookupEvent) -> nat {
    match event {
        LookupEvent::Start => 3,
        LookupEvent::Direct(_) => 2,
        LookupEvent::Root(_) => 1,
        LookupEvent::Joined(_) => 0,
    }
}

/// The URL of the import map that is configured, which is that of a file. Without
/// a root there is an error only where the path has no URL of its own; a root
/// that is no URL is only named in an error. Which URL it is, the machine decides.
pub fn import_map_url(import_map: &str, root_uri: Option<&str>) -> (r: Result<String, AnyError>)
    ensures
        r matches Ok(url) ==> starts_with(url@, "file://"@),
        root_uri is None ==> (r matches Err(e) ==> e@ == generic_error_view(
            "The path to the import map (\""@ + import_map@ + "\") is not resolvable."@,
        )),
        root_uri matches Some(uri) ==> (r matches Err(e) ==> e@ == generic_error_view(
            "Bad root_uri: "@ + uri@,
        ) || (parsed_url(uri@) is Ok && e@ == generic_error_view(
            "Bad file path for import map: "@ + quoted(import_map@),
        ))),
{
    let mut event: LookupEvent = LookupEvent::Start;
    loop
        invariant
            event matches LookupEvent::Direct(Some(url)) ==> starts_with(url@, "file://"@),
            event matches LookupEvent::Joined(Some(url)) ==> starts_with(url@, "file://"@),
            event is Root || event is Joined ==> root_uri is Some,
            event is Joined || (event matches LookupEvent::Root(Some(_))) ==> (root_uri
                matches Some(uri) && parsed_url(uri@) is Ok),
        decreases steps_left(event),
    {
        match next_lookup(import_map, root_uri, event) {
            LookupStep::UrlOf(path) => {
                event = LookupEvent::Direct(file_url(&path_from(path.as_str())));
            },
            LookupStep::PathOf(url) => {
                event = LookupEvent::Root(rooted_path(url.as_str()));
            },
            LookupStep::UrlUnder(root, path) => {
                event = LookupEvent::Joined(file_url(&join_path(&root, path.as_str())));
            },
            LookupStep::Done(r) => {
                return r;
            },
        }
    }
}

/// The error where the import map cannot be read.
pub fn import_map_load_error(url: &str, cause: &str) -> (r: AnyError)
    ensures
        r@ == generic_error_view(
            "Failed to load the import map at: "@ + url@ + ". ["@ + cause@ + "]"@,
        ),
{
    let start: String = concat4("Failed to load the import map at: ", url, ". [", cause);
    generic_error(concat2(start.as_str(), "]").as_str())
}

/// Whether a notification of the editor is logged by its method alone: those with
/// the texts of documents are.
pub fn logs_method_only(method: &str) -> (r: bool)
    ensures
        r == (method@ == "textDocument/didOpen"@ || method@ == "textDocument/didChange"@),
{
    str_eq(method, "textDocument/didOpen") || str_eq(method, "textDocument/didChange")
}

/// The URL of an import map is that of its own path where it has one, whatever came
/// of the root, and else that of the path under the root. Where neither is there, the
/// error says what is wrong: there is no root, the root is no file, or the path is
/// none.
pub proof fn law_url_of_import_map(
    import_map: Seq<char>,
    direct: Option<Seq<char>>,
    root: RootLookup,
)
    ensures
        match import_map_url_of(import_map, direct, root) {
            Ok(url) => direct == Some(url) || (direct is None && (root matches RootLookup::Joined(
                Some(joined),
            ) && joined@ == url)),
            Err(e) => direct is None && match root {
                RootLookup::NoRoot => e == generic_error_view(
                    "The path to the import map (\""@ + import_map + "\") is not resolvable."@,
                ),
                RootLookup::BadRoot(uri) => e == generic_error_view("Bad root_uri: "@ + uri@),
                RootLookup::Joined(url) => url is None && e == generic_error_view(
                    "Bad file path for import map: "@ + quoted(import_map),
                ),
            },
        },
{
}

/// The file of an import map is looked for at the configured path; where that has no
/// URL, the path of the root is asked for, and the configured path under it; and the
/// first URL that is found ends the search.
pub proof fn law_order_of_lookups(
    step: LookupStep,
    import_map: Seq<char>,
    root: Option<Seq<char>>,
    event: LookupEvent,
)
    requires
        is_next_lookup(step, import_map, root, event),
    ensures
        match step {
            LookupStep::UrlOf(path) => event is Start && path@ == import_map,
            LookupStep::PathOf(url) => (event matches LookupEvent::Direct(None)) && root == Some(
                url@,
            ),
            LookupStep::UrlUnder(under, path) => (event matches LookupEvent::Root(Some(r)) && r
                == under) && path@ == import_map,
            LookupStep::Done(Ok(url)) => match event {
                LookupEvent::Direct(Some(found)) => found@ == url@,
                LookupEvent::Joined(Some(found)) => found@ == url@,
                _ => false,
            },
            LookupStep::Done(Err(_)) => match event {
                LookupEvent::Direct(None) => root is None,
                LookupEvent::Root(None) => true,
                LookupEvent::Joined(None) => true,
                _ => false,
            },
        },
{
}

/// A state in which nothing but the queue has changed has everything else as it was.
pub proof fn law_nothing_but_the_queue(after: ServerState, before: ServerState)
    requires
        after.same_but_queue(before),
    ensures
        after == (ServerState { req_queue: after.req_queue, ..before }),
{
}

/// What requests and documents say is what they hold, and requests with numbers are
/// never taken for such with texts.
pub proof fn law_requests_and_documents_say_what_they_hold(
    id: RequestId,
    document: DocumentData,
)
    ensures
        match (id, id@) {
            (RequestId::Number(a), IdView::Number(b)) => a == b,
            (RequestId::Text(a), IdView::Text(b)) => a@ == b,
            _ => false,
        },
        document@.specifier == document.specifier@ && document@.version == document.version,
        document.dependencies is None ==> document@.dependencies is None,
        document.dependencies matches Some(list) ==> document@.dependencies == Some(list@),
{
}

} // verus!
