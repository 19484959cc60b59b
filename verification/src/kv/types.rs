//! Keys, values and what is done with them.
use vstd::prelude::*;

verus! {

/// An integer of any size: its sign and the big-endian bytes of its magnitude.
#[derive(Debug)]
pub struct BigInt {
    pub negative: bool,
    pub magnitude: Vec<u8>,
}

/// What an integer says.
#[verifier::ext_equal]
pub struct BigIntView {
    pub negative: bool,
    pub magnitude: Seq<u8>,
}

impl View for BigInt {
    type V = BigIntView;

    open spec fn view(&self) -> BigIntView {
        BigIntView { negative: self.negative, magnitude: self.magnitude@ }
    }
}

/// A part of a key. A floating-point number is held as its bits.
#[derive(Debug)]
pub enum KeyPart {
    False,
    True,
    Float(u64),
    Int(BigInt),
    String(String),
    Bytes(Vec<u8>),
}

/// What a part of a key says.
#[verifier::ext_equal]
pub enum KeyPartView {
    False,
    True,
    Float(u64),
    Int(BigIntView),
    String(Seq<char>),
    Bytes(Seq<u8>),
}

impl View for KeyPart {
    type V = KeyPartView;

    open spec fn view(&self) -> KeyPartView {
        match self {
            KeyPart::False => KeyPartView::False,
            KeyPart::True => KeyPartView::True,
            KeyPart::Float(bits) => KeyPartView::Float(*bits),
            KeyPart::Int(n) => KeyPartView::Int(n@),
            KeyPart::String(s) => KeyPartView::String(s@),
            KeyPart::Bytes(b) => KeyPartView::Bytes(b@),
        }
    }
}

/// A key: its parts in order.
#[derive(Debug)]
pub struct Key(pub Vec<KeyPart>);

impl View for Key {
    type V = Seq<KeyPartView>;

    open spec fn view(&self) -> Seq<KeyPartView> {
        Seq::new(self.0@.len(), |i: int| self.0@[i]@)
    }
}

/// A value. A floating-point number is held as its bits.
#[derive(Debug)]
pub enum Value {
    V8(Vec<u8>),
    Bool(bool),
    Int(BigInt),
    Float(u64),
    Bytes(Vec<u8>),
}

/// What a value says.
#[verifier::ext_equal]
pub enum ValueView {
    V8(Seq<u8>),
    Bool(bool),
    Int(BigIntView),
    Float(u64),
    Bytes(Seq<u8>),
}

impl View for Value {
    type V = ValueView;

    open spec fn view(&self) -> ValueView {
        match self {
            Value::V8(b) => ValueView::V8(b@),
            Value::Bool(b) => ValueView::Bool(*b),
            Value::Int(n) => ValueView::Int(n@),
            Value::Float(bits) => ValueView::Float(*bits),
            Value::Bytes(b) => ValueView::Bytes(b@),
        }
    }
}

/// What an optional value says.
pub open spec fn opt_value(value: Option<Value>) -> Option<ValueView> {
    match value {
        Some(value) => Some(value@),
        None => None,
    }
}

/// A key with its value, where it has one, and the stamp of the version in which
/// it got it.
#[derive(Debug)]
pub struct KvEntry {
    pub key: Key,
    pub value: Option<Value>,
    pub versionstamp: [u8; 12],
}

/// What an entry says.
#[verifier::ext_equal]
pub struct EntryView {
    pub key: Seq<KeyPartView>,
    pub value: Option<ValueView>,
    pub versionstamp: Seq<u8>,
}

impl View for KvEntry {
    type V = EntryView;

    open spec fn view(&self) -> EntryView {
        EntryView {
            key: self.key@,
            value: opt_value(self.value),
            versionstamp: self.versionstamp@,
        }
    }
}

/// What is asked for: the keys from `start` on, up to `end`, at most so many.
#[derive(Debug)]
pub struct ReadRange {
    pub start: Key,
    pub end: Option<Key>,
    pub limit: u32,
}

/// The entries that were asked for.
#[derive(Debug)]
pub struct ReadRangeOutput {
    pub entries: Vec<KvEntry>,
}

/// A condition of a write: the key still has the version of this stamp.
#[derive(Debug)]
pub struct KvCheck {
    pub key: Key,
    pub versionstamp: [u8; 12],
}

/// What a write does with a key.
#[derive(Debug)]
pub enum MutationKind {
    Put(Value),
    Delete,
    Sum(Value),
    Min(Value),
    Max(Value),
}

/// What a write does with a key.
#[verifier::ext_equal]
pub enum MutationView {
    Put(ValueView),
    Delete,
    Sum(ValueView),
    Min(ValueView),
    Max(ValueView),
}

impl View for MutationKind {
    type V = MutationView;

    open spec fn view(&self) -> MutationView {
        match self {
            MutationKind::Put(value) => MutationView::Put(value@),
            MutationKind::Delete => MutationView::Delete,
            MutationKind::Sum(value) => MutationView::Sum(value@),
            MutationKind::Min(value) => MutationView::Min(value@),
            MutationKind::Max(value) => MutationView::Max(value@),
        }
    }
}

/// What a write does with which key.
#[derive(Debug)]
pub struct KvMutation {
    pub key: Key,
    pub kind: MutationKind,
}

/// A write: if all conditions hold, all that it does is done, else nothing.
#[derive(Debug)]
pub struct AtomicWrite {
    pub checks: Vec<KvCheck>,
    pub mutations: Vec<KvMutation>,
}

/// How a read may lag behind.
#[derive(Clone, Copy, PartialEq, Eq, Structural, Debug)]
pub enum Consistency {
    Strong,
    Eventual,
}

/// How a read is made.
#[derive(Clone, Copy, PartialEq, Eq, Structural, Debug)]
pub struct SnapshotReadOptions {
    pub consistency: Consistency,
}

} // verus!
