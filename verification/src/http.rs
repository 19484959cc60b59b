//! HTTP requests on their way to JavaScript, and responses on their way back.
use vstd::pervasive::unreached;
use vstd::prelude::*;
use vstd::utf8::encode_utf8;
use vstd::utf8::encode_utf8_decode_utf8;
use vstd::utf8::encode_utf8_valid_utf8;
use vstd::utf8::is_ascii_chars;
use vstd::utf8::is_ascii_chars_encode_utf8;
use crate::error::bad_resource_view;
use crate::error::generic_error;
use crate::error::generic_error_view;
use crate::error::AnyError;
use crate::error::ErrorView;
use crate::lsp::json::json_view;
use crate::lsp::json::number;
use crate::lsp::json::number_view;
use crate::lsp::json::text;
use crate::lsp::json::Json;
use crate::lsp::json::JsonView;
use crate::lsp::json::Members;
use crate::resources::holds;
use crate::resources::law_taken_once;
use crate::resources::ResourceKind;
use crate::resources::ResourceTable;
use crate::text::bytes_clone;
use crate::text::concat2;
use crate::text::concat3;
use crate::text::decimal;
use crate::text::decimal_string;
use crate::text::law_digits_stand_for_number;
use crate::text::number_of;
use crate::text::opt_text;
use crate::text::str_eq;
use crate::text::utf8_text;

verus! {

/// The version of HTTP that a request is in, as far as it matters.
#[derive(Clone, Copy, PartialEq, Eq, Structural, Debug)]
pub enum HttpVersion {
    Http2,
    Other,
}

/// What a request says before its body. The names of headers are in lower case.
#[derive(Debug)]
pub struct RequestHead {
    pub version: HttpVersion,
    pub method: String,
    pub uri_host: Option<String>,
    pub uri_port: Option<u16>,
    pub path_and_query: String,
    pub headers: Vec<(String, Vec<u8>)>,
    pub exact_body_size: Option<u64>,
}

/// A byte that may stand in a header that is read as text: a visible ASCII
/// character, a space or a tab.
pub open spec fn is_text_byte(b: u8) -> bool {
    32 <= b < 127 || b == 9
}

/// The value of a header as text, where it can be read as such.
pub open spec fn header_text(value: Seq<u8>) -> Option<Seq<char>> {
    if forall|i: int| 0 <= i < value.len() ==> is_text_byte(#[trigger] value[i]) {
        Some(Seq::new(value.len(), |i: int| value[i] as char))
    } else {
        None
    }
}

/// The value of a header as text, where it can be read as such.
pub fn header_to_str(value: &Vec<u8>) -> (r: Option<String>)
    ensures
        opt_text(r) == header_text(value@),
{
    let mut i: usize = 0;
    while i < value.len()
        invariant
            i <= value@.len(),
            forall|j: int| 0 <= j < i ==> is_text_byte(#[trigger] value@[j]),
        decreases value.len() - i,
    {
        let b: u8 = value[i];
        if !((32 <= b && b < 127) || b == 9) {
            assert(!is_text_byte(value@[i as int]));
            return None;
        }
        i = i + 1;
    }
    let ghost chars = Seq::new(value@.len(), |i: int| value@[i] as char);
    proof {
        assert(is_ascii_chars(chars)) by {
            assert forall|i: int| 0 <= i < chars.len() implies (#[trigger] chars[i] as nat)
                < 128 by {
                assert(is_text_byte(value@[i]));
            }
        }
        is_ascii_chars_encode_utf8(chars);
        assert(encode_utf8(chars) =~= value@);
        encode_utf8_decode_utf8(chars);
        encode_utf8_valid_utf8(chars);
    }
    match utf8_text(value.as_slice()) {
        Ok(text) => Some(text.to_owned()),
        Err(_) => None,
    }
}

/// The value of the first header with a name.
pub open spec fn first_header(headers: Seq<(String, Vec<u8>)>, name: Seq<char>) -> Option<Seq<u8>>
    decreases headers.len(),
{
    if headers.len() == 0 {
        None
    } else if headers[0].0@ == name {
        Some(headers[0].1@)
    } else {
        first_header(headers.skip(1), name)
    }
}

/// The value of the first header with a name.
fn find_header<'a>(headers: &'a Vec<(String, Vec<u8>)>, name: &str) -> (r: Option<&'a Vec<u8>>)
    ensures
        match r {
            Some(value) => first_header(headers@, name@) == Some(value@),
            None => first_header(headers@, name@) is None,
        },
{
    let mut i: usize = 0;
    assert(headers@.skip(0) =~= headers@);
    while i < headers.len()
        invariant
            i <= headers@.len(),
            first_header(headers@, name@) == first_header(headers@.skip(i as int), name@),
        decreases headers.len() - i,
    {
        assert(headers@.skip(i as int)[0] == headers@[i as int]);
        let (key, value) = &headers[i];
        if str_eq(key.as_str(), name) {
            return Some(value);
        }
        assert(headers@.skip(i as int).skip(1) =~= headers@.skip(i + 1));
        i = i + 1;
    }
    None
}

/// The host that a request is for: in HTTP/2 that of its URI, with the port where
/// there is one, else the one that its header names.
pub open spec fn host_of(head: RequestHead) -> Option<Seq<char>> {
    match head.version {
        HttpVersion::Http2 => match head.uri_host {
            None => None,
            Some(host) => Some(
                host@ + match head.uri_port {
                    Some(port) => ":"@ + decimal(port as nat),
                    None => ""@,
                },
            ),
        },
        HttpVersion::Other => match first_header(head.headers@, "host"@) {
            None => None,
            Some(value) => header_text(value),
        },
    }
}

/// The host that a request is for.
pub fn extract_host(head: &RequestHead) -> (r: Option<String>)
    ensures
        opt_text(r) == host_of(*head),
{
    match head.version {
        HttpVersion::Http2 => match &head.uri_host {
            None => None,
            Some(host) => {
                let port: String = match head.uri_port {
                    Some(port) => concat2(":", decimal_string(port as u64).as_str()),
                    None => "".to_owned(),
                };
                Some(concat2(host.as_str(), port.as_str()))
            },
        },
        HttpVersion::Other => match find_header(&head.headers, "host") {
            None => None,
            Some(value) => header_to_str(value),
        },
    }
}

/// A request as JavaScript gets it.
#[derive(Debug)]
pub struct NextRequest {
    pub method: String,
    pub headers: Vec<(String, String)>,
    pub url: String,
    pub has_body: bool,
}

/// The headers that JavaScript gets: all of them, with no text for those that
/// cannot be read as such.
pub open spec fn headers_as_text(headers: Seq<(String, Vec<u8>)>) -> Seq<(Seq<char>, Seq<char>)> {
    Seq::new(
        headers.len(),
        |i: int|
            (
                headers[i].0@,
                match header_text(headers[i].1@) {
                    Some(text) => text,
                    None => ""@,
                },
            ),
    )
}

/// What a list of pairs of texts says.
pub open spec fn pairs_view(list: Seq<(String, String)>) -> Seq<(Seq<char>, Seq<char>)> {
    Seq::new(list.len(), |i: int| (list[i].0@, list[i].1@))
}

/// The request that JavaScript gets. A body of unknown size counts as one.
pub fn next_request(head: &RequestHead) -> (r: NextRequest)
    requires
        host_of(*head) is Some,
    ensures
        r.method@ == head.method@,
        pairs_view(r.headers@) == headers_as_text(head.headers@),
        r.url@ == "https://"@ + host_of(*head)->0 + head.path_and_query@,
        r.has_body == (head.exact_body_size != Some(0u64)),
{
    let mut headers: Vec<(String, String)> = Vec::new();
    let mut i: usize = 0;
    while i < head.headers.len()
        invariant
            i <= head.headers@.len(),
            headers@.len() == i,
            forall|j: int|
                0 <= j < i ==> ((#[trigger] headers@[j]).0@, headers@[j].1@) == headers_as_text(
                    head.headers@,
                )[j],
        decreases head.headers.len() - i,
    {
        let (name, value) = &head.headers[i];
        let value: String = match header_to_str(value) {
            Some(text) => text,
            None => "".to_owned(),
        };
        headers.push((name.clone(), value));
        i = i + 1;
    }
    assert(pairs_view(headers@) =~= headers_as_text(head.headers@));
    let host: String = match extract_host(head) {
        Some(host) => host,
        None => unreached(),
    };
    let has_body: bool = match head.exact_body_size {
        Some(size) => size > 0,
        None => true,
    };
    NextRequest {
        method: head.method.clone(),
        headers,
        url: concat3("https://", host.as_str(), head.path_and_query.as_str()),
        has_body,
    }
}

/// An optional resource in JSON.
pub open spec fn opt_rid(rid: Option<u32>) -> JsonView {
    match rid {
        Some(rid) => number_view(rid as nat),
        None => JsonView::Null,
    }
}

/// An optional resource in JSON.
fn rid_json(rid: Option<u32>) -> (r: Json)
    ensures
        r@ == opt_rid(rid),
{
    match rid {
        Some(rid) => number(rid as u64),
        None => Json::Null,
    }
}

/// Pairs of texts in JSON: an array of two for each.
pub open spec fn pairs_json_view(list: Seq<(Seq<char>, Seq<char>)>) -> JsonView {
    JsonView::Array(
        Seq::new(
            list.len(),
            |i: int|
                JsonView::Array(seq![JsonView::Text(list[i].0), JsonView::Text(list[i].1)]),
        ),
    )
}

/// Pairs of texts in JSON.
fn pairs_json(list: &Vec<(String, String)>) -> (r: Json)
    ensures
        r@ == pairs_json_view(pairs_view(list@)),
{
    let mut items: Vec<Json> = Vec::new();
    let mut i: usize = 0;
    while i < list.len()
        invariant
            i <= list@.len(),
            items@.len() == i,
            forall|j: int|
                0 <= j < i ==> json_view(#[trigger] items@[j]) == JsonView::Array(
                    seq![JsonView::Text(list@[j].0@), JsonView::Text(list@[j].1@)],
                ),
        decreases list.len() - i,
    {
        let (name, value) = &list[i];
        let mut pair: Vec<Json> = Vec::new();
        pair.push(text(name.as_str()));
        pair.push(text(value.as_str()));
        let ghost parts = pair@;
        let item: Json = Json::Array(pair);
        assert(item@->Array_0 =~= seq![
            JsonView::Text(list@[i as int].0@),
            JsonView::Text(list@[i as int].1@),
        ]);
        items.push(item);
        i = i + 1;
    }
    let r: Json = Json::Array(items);
    assert(r@->Array_0 =~= pairs_json_view(pairs_view(list@))->Array_0);
    r
}

impl NextRequest {
    /// The request in JSON, with the resources through which its body is read and
    /// its response is sent.
    pub fn to_json(&self, request_body_rid: Option<u32>, response_sender_rid: u32) -> (r: Json)
        ensures
            r@ == JsonView::Object(
                seq![
                    ("requestBodyRid"@, opt_rid(request_body_rid)),
                    ("responseSenderRid"@, number_view(response_sender_rid as nat)),
                    ("method"@, JsonView::Text(self.method@)),
                    ("headers"@, pairs_json_view(pairs_view(self.headers@))),
                    ("url"@, JsonView::Text(self.url@)),
                ],
            ),
    {
        let members: Members = Members::new().put("requestBodyRid", rid_json(request_body_rid)).put(
            "responseSenderRid",
            number(response_sender_rid as u64),
        ).put("method", text(self.method.as_str())).put("headers", pairs_json(&self.headers)).put(
            "url",
            text(self.url.as_str()),
        );
        assert(members@ =~= seq![
            ("requestBodyRid"@, opt_rid(request_body_rid)),
            ("responseSenderRid"@, number_view(response_sender_rid as nat)),
            ("method"@, JsonView::Text(self.method@)),
            ("headers"@, pairs_json_view(pairs_view(self.headers@))),
            ("url"@, JsonView::Text(self.url@)),
        ]);
        members.object()
    }
}

/// The message of the error with which `hyper::Response::builder` refuses a
/// status or headers, where it does.
pub uninterp spec fn response_refusal(
    status: u16,
    headers: Seq<(Seq<char>, Seq<char>)>,
) -> Option<Seq<char>>;

/// Calls `hyper::Response::builder`, `status`, `header` for each header and
/// `body`: the message of the error, where there is one.
#[verifier::external_body]
fn refuse_response(status: u16, headers: &Vec<(String, String)>) -> (r: Option<String>)
    ensures
        opt_text(r) == response_refusal(status, pairs_view(headers@)),
{
    let mut builder = hyper::Response::builder().status(status);
    for (name, value) in headers {
        builder = builder.header(name, value);
    }
    builder.body(()).err().map(|error| error.to_string())
}

/// The body of a response: written piece by piece later, or all of it at once.
#[derive(Debug)]
pub enum ResponseBody {
    Stream,
    Full(Vec<u8>),
}

/// What becomes of a response: an error where its head is refused; else its body
/// is streamed where no data came with it, and is the data where some did.
pub open spec fn response_plan(
    refusal: Option<Seq<char>>,
    data: Seq<Vec<u8>>,
) -> Result<Option<Seq<u8>>, ErrorView> {
    match refusal {
        Some(message) => Err(generic_error_view(message)),
        None => if data.len() == 0 {
            Ok(None)
        } else {
            Ok(Some(data[0]@))
        },
    }
}

/// What a planned body says.
pub open spec fn body_view(body: ResponseBody) -> Option<Seq<u8>> {
    match body {
        ResponseBody::Stream => None,
        ResponseBody::Full(bytes) => Some(bytes@),
    }
}

/// What becomes of a response, where it is known whether its head is refused.
pub fn plan_response(refusal: Option<String>, data: &Vec<Vec<u8>>) -> (r: Result<
    ResponseBody,
    AnyError,
>)
    requires
        data@.len() <= 1,
    ensures
        match response_plan(opt_text(refusal), data@) {
            Ok(body) => r matches Ok(planned) && body_view(planned) == body,
            Err(e) => r matches Err(error) && error@ == e,
        },
{
    match refusal {
        Some(message) => Err(generic_error(message.as_str())),
        None => if data.len() == 0 {
            Ok(ResponseBody::Stream)
        } else {
            Ok(ResponseBody::Full(bytes_clone(&data[0])))
        },
    }
}

/// What becomes of a response.
pub fn respond(status: u16, headers: &Vec<(String, String)>, data: &Vec<Vec<u8>>) -> (r: Result<
    ResponseBody,
    AnyError,
>)
    requires
        data@.len() <= 1,
    ensures
        match response_plan(response_refusal(status, pairs_view(headers@)), data@) {
            Ok(body) => r matches Ok(planned) && body_view(planned) == body,
            Err(e) => r matches Err(error) && error@ == e,
        },
{
    plan_response(refuse_response(status, headers), data)
}

/// Takes the sender of a response out of the table and plans the response. The
/// sender is gone from then on, also where the response is refused.
pub fn begin_response<T>(
    table: &mut ResourceTable<T>,
    rid: u32,
    status: u16,
    headers: &Vec<(String, String)>,
    data: &Vec<Vec<u8>>,
) -> (r: Result<(T, ResponseBody), AnyError>)
    requires
        old(table).wf(),
        data@.len() <= 1,
    ensures
        final(table).wf(),
        final(table).next() == old(table).next(),
        if holds(old(table)@, rid, ResourceKind::ResponseSender) {
            &&& final(table)@ == old(table)@.remove(rid)
            &&& match response_plan(response_refusal(status, pairs_view(headers@)), data@) {
                Ok(body) => {
                    &&& r matches Ok((sender, planned))
                    &&& sender == old(table)@[rid].1
                    &&& body_view(planned) == body
                },
                Err(e) => r matches Err(error) && error@ == e,
            }
        } else {
            &&& final(table)@ == old(table)@
            &&& r matches Err(error)
            &&& error@ == bad_resource_view()
        },
{
    let sender: T = match table.take(rid, ResourceKind::ResponseSender) {
        Ok(sender) => sender,
        Err(e) => {
            return Err(e);
        },
    };
    match respond(status, headers, data) {
        Ok(body) => Ok((sender, body)),
        Err(e) => Err(e),
    }
}

/// Answers to a response: where its body is streamed, the resource through which
/// it is goes into the table.
pub fn end_response<T>(table: &mut ResourceTable<T>, stream: Option<T>) -> (r: Json)
    requires
        old(table).wf(),
        old(table).next() < u32::MAX,
    ensures
        final(table).wf(),
        match stream {
            Some(stream) => {
                &&& final(table)@ == old(table)@.insert(
                    old(table).next(),
                    (ResourceKind::ResponseBody, stream),
                )
                &&& final(table).next() == old(table).next() + 1
                &&& r@ == respond_view(Some(old(table).next()))
            },
            None => {
                &&& final(table)@ == old(table)@
                &&& final(table).next() == old(table).next()
                &&& r@ == respond_view(None)
            },
        },
{
    match stream {
        Some(stream) => {
            let rid: u32 = table.add_resource(ResourceKind::ResponseBody, stream);
            respond_json(Some(rid))
        },
        None => respond_json(None),
    }
}

/// The answer to a response.
pub open spec fn respond_view(response_body_rid: Option<u32>) -> JsonView {
    JsonView::Object(seq![("responseBodyRid"@, opt_rid(response_body_rid))])
}

/// A request is answered once: whoever answers again finds no sender, whether the
/// body of the first response is streamed or not.
pub proof fn law_response_is_sent_once<T>(
    table: Map<u32, (ResourceKind, T)>,
    rid: u32,
    next: u32,
    stream: T,
)
    requires
        holds(table, rid, ResourceKind::ResponseSender),
        forall|held: u32| #[trigger] table.contains_key(held) ==> held < next,
    ensures
        !holds(table.remove(rid), rid, ResourceKind::ResponseSender),
        !holds(
            table.remove(rid).insert(next, (ResourceKind::ResponseBody, stream)),
            rid,
            ResourceKind::ResponseSender,
        ),
{
    law_taken_once(
        table,
        rid,
        ResourceKind::ResponseSender,
        next,
        ResourceKind::ResponseBody,
        stream,
    );
}

/// The answer to a response, with the resource through which its body is
/// streamed where it is.
pub fn respond_json(response_body_rid: Option<u32>) -> (r: Json)
    ensures
        r@ == respond_view(response_body_rid),
{
    let members: Members = Members::new().put("responseBodyRid", rid_json(response_body_rid));
    assert(members@ =~= seq![("responseBodyRid"@, opt_rid(response_body_rid))]);
    members.object()
}

/// The answer when a connection is served, with the resource that hands out its
/// requests.
pub fn start_json(rid: u32) -> (r: Json)
    ensures
        r@ == JsonView::Object(seq![("rid"@, number_view(rid as nat))]),
{
    let members: Members = Members::new().put("rid", number(rid as u64));
    assert(members@ =~= seq![("rid"@, number_view(rid as nat))]);
    members.object()
}

/// Every header of a request reaches JavaScript, under its name and in its place.
pub proof fn law_no_header_is_lost(headers: Seq<(String, Vec<u8>)>, i: int)
    requires
        0 <= i < headers.len(),
    ensures
        headers_as_text(headers).len() == headers.len(),
        headers_as_text(headers)[i].0 == headers[i].0@,
{
}

/// The value of a header that is all visible ASCII, spaces and tabs reaches
/// JavaScript byte for byte; of any other value nothing does.
pub proof fn law_header_values_reach_javascript(headers: Seq<(String, Vec<u8>)>, i: int)
    requires
        0 <= i < headers.len(),
    ensures
        ({
            let value = headers[i].1@;
            let sent = headers_as_text(headers)[i].1;
            if forall|j: int|
                0 <= j < value.len() ==> (32 <= #[trigger] value[j] <= 126 || value[j] == 9) {
                &&& sent.len() == value.len()
                &&& forall|j: int|
                    0 <= j < value.len() ==> #[trigger] sent[j] as u32 == value[j] as u32
            } else {
                sent.len() == 0
            }
        }),
{
    reveal_strlit("");
    let value = headers[i].1@;
    if forall|j: int|
        0 <= j < value.len() ==> (32 <= #[trigger] value[j] <= 126 || value[j] == 9) {
        assert forall|j: int| 0 <= j < value.len() implies is_text_byte(#[trigger] value[j]) by {}
    } else {
        let j = choose|j: int|
            0 <= j < value.len() && !(32 <= #[trigger] value[j] <= 126 || value[j] == 9);
        assert(!is_text_byte(value[j]));
    }
}

/// Outside of HTTP/2 a request is for the host that the first header of that name
/// says, byte for byte. It has none where there is no such header, or where its
/// value is no text.
pub proof fn law_host_of_header(head: RequestHead, i: int)
    requires
        head.version == HttpVersion::Other,
        0 <= i <= head.headers@.len(),
        forall|j: int| 0 <= j < i ==> (#[trigger] head.headers@[j]).0@ != "host"@,
    ensures
        i == head.headers@.len() ==> host_of(head) is None,
        i < head.headers@.len() && head.headers@[i].0@ == "host"@ ==> {
            let value = head.headers@[i].1@;
            match host_of(head) {
                Some(host) => {
                    &&& host.len() == value.len()
                    &&& forall|j: int|
                        0 <= j < value.len() ==> #[trigger] host[j] as u32 == value[j] as u32 && (
                        32 <= value[j] <= 126 || value[j] == 9)
                },
                None => exists|j: int|
                    0 <= j < value.len() && !(32 <= #[trigger] value[j] <= 126 || value[j] == 9),
            }
        },
{
    lemma_first_header(head.headers@, "host"@, i);
    if i < head.headers@.len() && head.headers@[i].0@ == "host"@ {
        let value = head.headers@[i].1@;
        if host_of(head) is None {
            let j = choose|j: int| 0 <= j < value.len() && !is_text_byte(#[trigger] value[j]);
            assert(!(32 <= value[j] <= 126 || value[j] == 9));
        } else {
            assert forall|j: int| 0 <= j < value.len() implies is_text_byte(
                #[trigger] value[j],
            ) by {}
        }
    }
}

/// The first header with a name is the one before which none has it.
proof fn lemma_first_header(headers: Seq<(String, Vec<u8>)>, name: Seq<char>, i: int)
    requires
        0 <= i <= headers.len(),
        forall|j: int| 0 <= j < i ==> (#[trigger] headers[j]).0@ != name,
    ensures
        i == headers.len() ==> first_header(headers, name) is None,
        i < headers.len() && headers[i].0@ == name ==> first_header(headers, name) == Some(
            headers[i].1@,
        ),
    decreases headers.len(),
{
    if i > 0 {
        let rest = headers.skip(1);
        assert(headers[0].0@ != name);
        assert forall|j: int| 0 <= j < i - 1 implies (#[trigger] rest[j]).0@ != name by {
            assert(rest[j] == headers[j + 1]);
        }
        lemma_first_header(rest, name, i - 1);
    }
}

/// In HTTP/2 a request is for the host of its URI, whatever its headers say. A
/// port stands behind it and a colon, in decimal.
pub proof fn law_host_of_uri(head: RequestHead)
    requires
        head.version == HttpVersion::Http2,
    ensures
        match (head.uri_host, head.uri_port) {
            (None, _) => host_of(head) is None,
            (Some(host), None) => host_of(head) == Some(host@),
            (Some(host), Some(port)) => {
                &&& host_of(head) matches Some(shown)
                &&& shown.len() > host@.len() + 1
                &&& shown.subrange(0, host@.len() as int) == host@
                &&& shown[host@.len() as int] == ':'
                &&& number_of(shown.skip((host@.len() + 1) as int), 10) == port
            },
        },
{
    reveal_strlit("");
    reveal_strlit(":");
    if let Some(host) = head.uri_host {
        match head.uri_port {
            None => {
                assert(host@ + ""@ =~= host@);
            },
            Some(port) => {
                law_digits_stand_for_number(port as nat, 10);
                let shown = host_of(head)->0;
                assert(shown.subrange(0, host@.len() as int) =~= host@);
                assert(shown.skip((host@.len() + 1) as int) =~= decimal(port as nat));
            },
        }
    }
}

/// Each pair of texts is an array of the two in JSON, in its place.
pub proof fn law_pairs_in_json(list: Seq<(Seq<char>, Seq<char>)>, i: int)
    requires
        0 <= i < list.len(),
    ensures
        pairs_json_view(list) matches JsonView::Array(items) && items.len() == list.len() && (
        items[i] matches JsonView::Array(pair) && pair.len() == 2 && pair[0] == JsonView::Text(
            list[i].0,
        ) && pair[1] == JsonView::Text(list[i].1)),
{
}

/// A resource is named by its number in JSON, and one that is not there by `null`.
pub proof fn law_resource_in_json(rid: u32)
    ensures
        opt_rid(None) == JsonView::Null,
        opt_rid(Some(rid)) matches JsonView::Number(shown) && number_of(shown, 10) == rid,
{
    law_digits_stand_for_number(rid as nat, 10);
}

/// A response that is not refused has the data that came with it as its body, and
/// is streamed exactly where none came; one that is refused fails with the reason.
pub proof fn law_body_is_the_data(refusal: Option<Seq<char>>, data: Seq<Vec<u8>>)
    requires
        data.len() <= 1,
    ensures
        match response_plan(refusal, data) {
            Ok(None) => refusal is None && data.len() == 0,
            Ok(Some(body)) => refusal is None && data.len() == 1 && body == data[0]@,
            Err(e) => refusal == Some(e.message),
        },
{
}

/// The answer to a response has one member, which names the resource through which
/// the body is streamed.
pub proof fn law_answer_names_the_stream(rid: Option<u32>)
    ensures
        respond_view(rid) matches JsonView::Object(members) && members.len() == 1 && members[0].0
            == "responseBodyRid"@ && members[0].1 == opt_rid(rid),
{
}

/// The value of a header is text exactly where it is all visible ASCII, spaces and
/// tabs, and is then the same, byte for character.
pub proof fn law_text_of_a_header(value: Seq<u8>)
    ensures
        match header_text(value) {
            Some(text) => text.len() == value.len() && forall|j: int|
                0 <= j < value.len() ==> #[trigger] text[j] as u32 == value[j] as u32 && (32
                    <= value[j] <= 126 || value[j] == 9),
            None => exists|j: int|
                0 <= j < value.len() && !(32 <= #[trigger] value[j] <= 126 || value[j] == 9),
        },
{
    if header_text(value) is None {
        let j = choose|j: int| 0 <= j < value.len() && !is_text_byte(#[trigger] value[j]);
        assert(!(32 <= value[j] <= 126 || value[j] == 9));
    } else {
        assert forall|j: int| 0 <= j < value.len() implies is_text_byte(#[trigger] value[j]) by {}
    }
}

/// What pairs of texts and a planned body say is what they hold.
pub proof fn law_pairs_and_bodies_say_what_they_hold(
    list: Seq<(String, String)>,
    i: int,
    bytes: Vec<u8>,
)
    requires
        0 <= i < list.len(),
    ensures
        pairs_view(list).len() == list.len(),
        pairs_view(list)[i].0 == list[i].0@ && pairs_view(list)[i].1 == list[i].1@,
        body_view(ResponseBody::Stream) is None,
        body_view(ResponseBody::Full(bytes)) == Some(bytes@),
{
}

} // verus!
