//! JSON values.
use vstd::prelude::*;
use crate::text::decimal;
use crate::text::decimal_string;

verus! {

/// A JSON value. A number is held as it is written; an object holds its members
/// in the order in which they were put.
#[derive(Debug)]
pub enum Json {
    Null,
    Bool(bool),
    Number(String),
    Text(String),
    Array(Vec<Json>),
    Object(Vec<(String, Json)>),
}

/// What a JSON value says.
#[verifier::ext_equal]
pub enum JsonView {
    Null,
    Bool(bool),
    Number(Seq<char>),
    Text(Seq<char>),
    Array(Seq<JsonView>),
    Object(Seq<(Seq<char>, JsonView)>),
}

/// What a JSON value says.
pub open spec fn json_view(json: Json) -> JsonView
    decreases json,
{
    match json {
        Json::Null => JsonView::Null,
        Json::Bool(b) => JsonView::Bool(b),
        Json::Number(n) => JsonView::Number(n@),
        Json::Text(t) => JsonView::Text(t@),
        Json::Array(items) => JsonView::Array(
            Seq::new(
                items@.len(),
                |i: int|
                    if 0 <= i < items@.len() {
                        json_view(items@[i])
                    } else {
                        JsonView::Null
                    },
            ),
        ),
        Json::Object(members) => JsonView::Object(
            Seq::new(
                members@.len(),
                |i: int|
                    if 0 <= i < members@.len() {
                        (members@[i].0@, json_view(members@[i].1))
                    } else {
                        (Seq::empty(), JsonView::Null)
                    },
            ),
        ),
    }
}

impl View for Json {
    type V = JsonView;

    open spec fn view(&self) -> JsonView {
        json_view(*self)
    }
}

/// A JSON number for an integer.
pub open spec fn number_view(n: nat) -> JsonView {
    JsonView::Number(decimal(n))
}

/// A JSON number for an integer.
pub fn number(n: u64) -> (r: Json)
    ensures
        r@ == number_view(n as nat),
{
    Json::Number(decimal_string(n))
}

/// A JSON string.
pub fn text(t: &str) -> (r: Json)
    ensures
        r@ == JsonView::Text(t@),
{
    Json::Text(t.to_owned())
}

/// JSON strings for a list of texts.
pub open spec fn texts_view(list: Seq<String>) -> JsonView {
    JsonView::Array(Seq::new(list.len(), |i: int| JsonView::Text(list[i]@)))
}

/// A JSON array of strings.
pub fn text_array(list: &Vec<String>) -> (r: Json)
    ensures
        r@ == texts_view(list@),
{
    let mut items: Vec<Json> = Vec::new();
    let mut i: usize = 0;
    while i < list.len()
        invariant
            i <= list.len(),
            items@.len() == i,
            forall|j: int| 0 <= j < i ==> json_view(items@[j]) == JsonView::Text(list@[j]@),
        decreases list.len() - i,
    {
        items.push(text(list[i].as_str()));
        i = i + 1;
    }
    let ghost seen = items@;
    let r: Json = Json::Array(items);
    assert(r@ is Array);
    assert(r@->Array_0 =~= texts_view(list@)->Array_0);
    r
}

/// The members of an object that is being put together.
pub struct Members {
    members: Vec<(String, Json)>,
}

impl View for Members {
    type V = Seq<(Seq<char>, JsonView)>;

    closed spec fn view(&self) -> Seq<(Seq<char>, JsonView)> {
        Seq::new(self.members@.len(), |i: int| (self.members@[i].0@, json_view(self.members@[i].1)))
    }
}

impl Members {
    /// No members yet.
    pub fn new() -> (r: Members)
        ensures
            r@ == Seq::<(Seq<char>, JsonView)>::empty(),
    {
        let r: Members = Members { members: Vec::new() };
        assert(r@ =~= Seq::empty());
        r
    }

    /// Puts a member behind the others.
    pub fn put(self, name: &str, value: Json) -> (r: Members)
        ensures
            r@ == self@.push((name@, value@)),
    {
        let mut members: Vec<(String, Json)> = self.members;
        members.push((name.to_owned(), value));
        let r: Members = Members { members };
        assert(r@ =~= self@.push((name@, value@)));
        r
    }

    /// Puts a member behind the others where there is a value.
    pub fn put_some(self, name: &str, value: Option<Json>) -> (r: Members)
        ensures
            r@ == match value {
                Some(value) => self@.push((name@, value@)),
                None => self@,
            },
    {
        match value {
            Some(value) => self.put(name, value),
            None => self,
        }
    }

    /// The object with these members.
    pub fn object(self) -> (r: Json)
        ensures
            r@ == JsonView::Object(self@),
    {
        let r: Json = Json::Object(self.members);
        assert(r@ is Object);
        assert(r@->Object_0 =~= self@);
        r
    }
}

/// A copy of a JSON value.
#[verifier::loop_isolation(false)]
pub fn json_clone(json: &Json) -> (r: Json)
    ensures
        r@ == json@,
    decreases json,
{
    match json {
        Json::Null => Json::Null,
        Json::Bool(b) => Json::Bool(*b),
        Json::Number(n) => Json::Number(n.clone()),
        Json::Text(t) => Json::Text(t.clone()),
        Json::Array(items) => {
            let mut copy: Vec<Json> = Vec::new();
            let mut i: usize = 0;
            while i < items.len()
                invariant
                    i <= items.len(),
                    copy@.len() == i,
                    forall|j: int| 0 <= j < i ==> json_view(copy@[j]) == json_view(items@[j]),
                    *json == Json::Array(*items),
                decreases items.len() - i,
            {
                assert(json->Array_0 == *items);
                assert(decreases_to!(*items => items[i as int]));
                copy.push(json_clone(&items[i]));
                i = i + 1;
            }
            let r: Json = Json::Array(copy);
            assert(r@->Array_0 =~= json@->Array_0);
            r
        },
        Json::Object(members) => {
            let mut copy: Vec<(String, Json)> = Vec::new();
            let mut i: usize = 0;
            while i < members.len()
                invariant
                    i <= members.len(),
                    copy@.len() == i,
                    forall|j: int|
                        0 <= j < i ==> copy@[j].0@ == members@[j].0@ && json_view(copy@[j].1)
                            == json_view(members@[j].1),
                    *json == Json::Object(*members),
                decreases members.len() - i,
            {
                assert(json->Object_0 == *members);
                assert(decreases_to!(*members => members[i as int]));
                let (name, value) = &members[i];
                copy.push((name.clone(), json_clone(value)));
                i = i + 1;
            }
            let r: Json = Json::Object(copy);
            assert(r@->Object_0 =~= json@->Object_0);
            r
        },
    }
}

} // verus!
