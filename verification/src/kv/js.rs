//! What JavaScript hands to the database and gets back from it.
use vstd::pervasive::unreached;
use vstd::prelude::*;
use crate::kv::types::AtomicWrite;
use crate::kv::types::BigInt;
use crate::kv::types::BigIntView;
use crate::kv::types::Consistency;
use crate::kv::types::EntryView;
use crate::kv::types::Key;
use crate::kv::types::KeyPart;
use crate::kv::types::KeyPartView;
use crate::kv::types::KvCheck;
use crate::kv::types::KvEntry;
use crate::kv::types::KvMutation;
use crate::kv::types::MutationKind;
use crate::kv::types::MutationView;
use crate::kv::types::ReadRange;
use crate::kv::types::ReadRangeOutput;
use crate::kv::types::SnapshotReadOptions;
use crate::kv::types::Value;
use crate::kv::types::ValueView;
use crate::text::digit_char;
use crate::text::str_eq;

verus! {

/// A part of a key as JavaScript has it.
#[derive(Debug)]
pub enum V8KeyPart {
    Bool(bool),
    Number(u64),
    BigInt(BigInt),
    String(String),
    U8(Vec<u8>),
}

/// What a part of a key says.
#[verifier::ext_equal]
pub enum V8KeyPartView {
    Bool(bool),
    Number(u64),
    BigInt(BigIntView),
    String(Seq<char>),
    U8(Seq<u8>),
}

impl View for V8KeyPart {
    type V = V8KeyPartView;

    open spec fn view(&self) -> V8KeyPartView {
        match self {
            V8KeyPart::Bool(b) => V8KeyPartView::Bool(*b),
            V8KeyPart::Number(bits) => V8KeyPartView::Number(*bits),
            V8KeyPart::BigInt(n) => V8KeyPartView::BigInt(n@),
            V8KeyPart::String(s) => V8KeyPartView::String(s@),
            V8KeyPart::U8(b) => V8KeyPartView::U8(b@),
        }
    }
}

/// The part of a key that is held for one of JavaScript.
pub open spec fn part_from_v8(part: V8KeyPartView) -> KeyPartView {
    match part {
        V8KeyPartView::Bool(b) => if b {
            KeyPartView::False
        } else {
            KeyPartView::True
        },
        V8KeyPartView::Number(bits) => KeyPartView::Float(bits),
        V8KeyPartView::BigInt(n) => KeyPartView::Int(n),
        V8KeyPartView::String(s) => KeyPartView::String(s),
        V8KeyPartView::U8(b) => KeyPartView::Bytes(b),
    }
}

/// The part of a key that JavaScript gets.
pub open spec fn part_to_v8(part: KeyPartView) -> V8KeyPartView {
    match part {
        KeyPartView::True => V8KeyPartView::Bool(false),
        KeyPartView::False => V8KeyPartView::Bool(true),
        KeyPartView::Float(bits) => V8KeyPartView::Number(bits),
        KeyPartView::Int(n) => V8KeyPartView::BigInt(n),
        KeyPartView::String(s) => V8KeyPartView::String(s),
        KeyPartView::Bytes(b) => V8KeyPartView::U8(b),
    }
}

/// The part of a key that is held for one of JavaScript.
pub open spec fn held_part(part: V8KeyPart) -> KeyPart {
    match part {
        V8KeyPart::Bool(false) => KeyPart::True,
        V8KeyPart::Bool(true) => KeyPart::False,
        V8KeyPart::Number(bits) => KeyPart::Float(bits),
        V8KeyPart::BigInt(n) => KeyPart::Int(n),
        V8KeyPart::String(s) => KeyPart::String(s),
        V8KeyPart::U8(b) => KeyPart::Bytes(b),
    }
}

/// The part of a key that JavaScript gets.
pub open spec fn shown_part(part: KeyPart) -> V8KeyPart {
    match part {
        KeyPart::True => V8KeyPart::Bool(false),
        KeyPart::False => V8KeyPart::Bool(true),
        KeyPart::Float(bits) => V8KeyPart::Number(bits),
        KeyPart::Int(n) => V8KeyPart::BigInt(n),
        KeyPart::String(s) => V8KeyPart::String(s),
        KeyPart::Bytes(b) => V8KeyPart::U8(b),
    }
}

impl From<V8KeyPart> for KeyPart {
    /// The part of a key that is held.
    fn from(part: V8KeyPart) -> (r: KeyPart) {
        match part {
            V8KeyPart::Bool(false) => KeyPart::True,
            V8KeyPart::Bool(true) => KeyPart::False,
            V8KeyPart::Number(bits) => KeyPart::Float(bits),
            V8KeyPart::BigInt(n) => KeyPart::Int(n),
            V8KeyPart::String(s) => KeyPart::String(s),
            V8KeyPart::U8(b) => KeyPart::Bytes(b),
        }
    }
}

impl vstd::std_specs::convert::FromSpecImpl<V8KeyPart> for KeyPart {
    open spec fn obeys_from_spec() -> bool {
        true
    }

    open spec fn from_spec(part: V8KeyPart) -> Self {
        held_part(part)
    }
}

impl From<KeyPart> for V8KeyPart {
    /// The part of a key that JavaScript gets.
    fn from(part: KeyPart) -> (r: V8KeyPart) {
        match part {
            KeyPart::True => V8KeyPart::Bool(false),
            KeyPart::False => V8KeyPart::Bool(true),
            KeyPart::Float(bits) => V8KeyPart::Number(bits),
            KeyPart::Int(n) => V8KeyPart::BigInt(n),
            KeyPart::String(s) => V8KeyPart::String(s),
            KeyPart::Bytes(b) => V8KeyPart::U8(b),
        }
    }
}

impl vstd::std_specs::convert::FromSpecImpl<KeyPart> for V8KeyPart {
    open spec fn obeys_from_spec() -> bool {
        true
    }

    open spec fn from_spec(part: KeyPart) -> Self {
        shown_part(part)
    }
}

/// A part of a key that was held and is shown is the one it was, and one that was
/// shown and is held too.
pub proof fn law_key_part_converts_back(part: V8KeyPart, held: KeyPart)
    ensures
        shown_part(held_part(part)) == part,
        held_part(shown_part(held)) == held,
        held_part(part)@ == part_from_v8(part@),
        shown_part(held)@ == part_to_v8(held@),
{
}

/// A part of a key comes back to JavaScript as it went in, and is held again as
/// it was held.
pub proof fn law_key_part_comes_back(part: V8KeyPartView, held: KeyPartView)
    ensures
        part_to_v8(part_from_v8(part)) == part,
        part_from_v8(part_to_v8(held)) == held,
{
}

/// The key that is held for the parts of one of JavaScript.
pub open spec fn key_from_v8(parts: Seq<V8KeyPart>) -> Seq<KeyPartView> {
    Seq::new(parts.len(), |i: int| part_from_v8(parts[i]@))
}

/// The key that is held.
pub fn key_of(parts: Vec<V8KeyPart>) -> (r: Key)
    ensures
        r@ == key_from_v8(parts@),
{
    let mut key: Vec<KeyPart> = Vec::new();
    for part in iter: parts.into_iter()
        invariant
            iter.seq() == parts@,
            key@.len() == iter.index(),
            forall|j: int|
                0 <= j < iter.index() ==> (#[trigger] key@[j])@ == part_from_v8(parts@[j]@),
    {
        key.push(KeyPart::from(part));
    }
    let r: Key = Key(key);
    assert(r@ =~= key_from_v8(parts@));
    r
}

/// A value as JavaScript has it.
#[derive(Debug)]
pub enum V8Value {
    V8(Vec<u8>),
    Bool(bool),
    Float(u64),
    Int(BigInt),
    Bytes(Vec<u8>),
}

impl View for V8Value {
    type V = ValueView;

    open spec fn view(&self) -> ValueView {
        match self {
            V8Value::V8(b) => ValueView::V8(b@),
            V8Value::Bool(b) => ValueView::Bool(*b),
            V8Value::Float(bits) => ValueView::Float(*bits),
            V8Value::Int(n) => ValueView::Int(n@),
            V8Value::Bytes(b) => ValueView::Bytes(b@),
        }
    }
}

/// The value that is held for one of JavaScript: the same.
pub open spec fn held_value(value: V8Value) -> Value {
    match value {
        V8Value::V8(b) => Value::V8(b),
        V8Value::Bool(b) => Value::Bool(b),
        V8Value::Float(bits) => Value::Float(bits),
        V8Value::Int(n) => Value::Int(n),
        V8Value::Bytes(b) => Value::Bytes(b),
    }
}

/// The value that JavaScript gets: the same.
pub open spec fn shown_value(value: Value) -> V8Value {
    match value {
        Value::V8(b) => V8Value::V8(b),
        Value::Bool(b) => V8Value::Bool(b),
        Value::Float(bits) => V8Value::Float(bits),
        Value::Int(n) => V8Value::Int(n),
        Value::Bytes(b) => V8Value::Bytes(b),
    }
}

impl From<V8Value> for Value {
    /// The value that is held.
    fn from(value: V8Value) -> (r: Value) {
        match value {
            V8Value::V8(b) => Value::V8(b),
            V8Value::Bool(b) => Value::Bool(b),
            V8Value::Float(bits) => Value::Float(bits),
            V8Value::Int(n) => Value::Int(n),
            V8Value::Bytes(b) => Value::Bytes(b),
        }
    }
}

impl vstd::std_specs::convert::FromSpecImpl<V8Value> for Value {
    open spec fn obeys_from_spec() -> bool {
        true
    }

    open spec fn from_spec(value: V8Value) -> Self {
        held_value(value)
    }
}

impl From<Value> for V8Value {
    /// The value that JavaScript gets.
    fn from(value: Value) -> (r: V8Value) {
        match value {
            Value::V8(b) => V8Value::V8(b),
            Value::Bool(b) => V8Value::Bool(b),
            Value::Float(bits) => V8Value::Float(bits),
            Value::Int(n) => V8Value::Int(n),
            Value::Bytes(b) => V8Value::Bytes(b),
        }
    }
}

impl vstd::std_specs::convert::FromSpecImpl<Value> for V8Value {
    open spec fn obeys_from_spec() -> bool {
        true
    }

    open spec fn from_spec(value: Value) -> Self {
        shown_value(value)
    }
}

/// A value that was held and is shown is the one it was, and one that was shown
/// and is held too.
pub proof fn law_value_converts_back(value: V8Value, held: Value)
    ensures
        shown_value(held_value(value)) == value,
        held_value(shown_value(held)) == held,
        held_value(value)@ == value@,
        shown_value(held)@ == held@,
{
}

/// An entry as JavaScript gets it, its stamp in hexadecimal.
#[derive(Debug)]
pub struct V8KvEntry {
    pub key: Vec<V8KeyPart>,
    pub value: Option<V8Value>,
    pub versionstamp: String,
}

/// What an entry says.
#[verifier::ext_equal]
pub struct V8EntryView {
    pub key: Seq<V8KeyPartView>,
    pub value: Option<ValueView>,
    pub versionstamp: Seq<char>,
}

impl View for V8KvEntry {
    type V = V8EntryView;

    open spec fn view(&self) -> V8EntryView {
        V8EntryView {
            key: Seq::new(self.key@.len(), |i: int| self.key@[i]@),
            value: match self.value {
                Some(value) => Some(value@),
                None => None,
            },
            versionstamp: self.versionstamp@,
        }
    }
}

/// Bytes in hexadecimal: two digits for each, in lower case.
pub open spec fn hex_text(bytes: Seq<u8>) -> Seq<char> {
    Seq::new(
        2 * bytes.len(),
        |i: int|
            digit_char(
                (if i % 2 == 0 {
                    bytes[i / 2] as int / 16
                } else {
                    bytes[i / 2] as int % 16
                }) as nat,
            ),
    )
}

/// Calls `hex::encode`.
#[verifier::external_body]
fn hex_encode(bytes: &[u8; 12]) -> (r: String)
    ensures
        r@ == hex_text(bytes@),
{
    hex::encode(bytes)
}

/// The value of a hexadecimal digit, in lower or upper case.
pub open spec fn hex_value(c: u8) -> Option<int> {
    if 0x30 <= c <= 0x39 {
        Some(c - 0x30)
    } else if 0x41 <= c <= 0x46 {
        Some(c - 0x41 + 10)
    } else if 0x61 <= c <= 0x66 {
        Some(c - 0x61 + 10)
    } else {
        None
    }
}

/// The text is a stamp in hexadecimal: twenty-four digits.
pub open spec fn is_stamp_text(text: Seq<u8>) -> bool {
    text.len() == 24 && forall|i: int| 0 <= i < 24 ==> hex_value(#[trigger] text[i]) is Some
}

/// The stamp that a text stands for.
pub open spec fn stamp_of_text(text: Seq<u8>) -> Seq<u8> {
    Seq::new(
        12,
        |i: int| (hex_value(text[2 * i])->0 * 16 + hex_value(text[2 * i + 1])->0) as u8,
    )
}

/// Calls `hex::decode_to_slice` with room for twelve bytes: they, where the text
/// has twice as many digits and nothing else.
#[verifier::external_body]
fn hex_decode(text: &[u8]) -> (r: Option<[u8; 12]>)
    ensures
        r is Some <==> is_stamp_text(text@),
        r matches Some(bytes) ==> bytes@ == stamp_of_text(text@),
{
    let mut bytes = [0; 12];
    hex::decode_to_slice(text, &mut bytes).ok()?;
    Some(bytes)
}

/// The bytes of a text in hexadecimal digits.
pub open spec fn ascii(text: Seq<char>) -> Seq<u8> {
    Seq::new(text.len(), |i: int| text[i] as u8)
}

/// A stamp that JavaScript got and hands back is read as the stamp it was.
pub proof fn law_stamp_comes_back(stamp: Seq<u8>)
    requires
        stamp.len() == 12,
    ensures
        is_stamp_text(ascii(hex_text(stamp))),
        stamp_of_text(ascii(hex_text(stamp))) == stamp,
{
    let text = ascii(hex_text(stamp));
    assert forall|i: int| 0 <= i < 24 implies hex_value(#[trigger] text[i]) == Some(
        if i % 2 == 0 {
            stamp[i / 2] as int / 16
        } else {
            stamp[i / 2] as int % 16
        },
    ) by {
        let d = (if i % 2 == 0 {
            stamp[i / 2] as int / 16
        } else {
            stamp[i / 2] as int % 16
        }) as nat;
        assert(d < 16);
        assert(text[i] == digit_char(d) as u8);
    }
    assert forall|i: int| 0 <= i < 12 implies #[trigger] stamp_of_text(text)[i] == stamp[i] by {
        assert(hex_value(text[2 * i]) == Some(stamp[i] as int / 16));
        assert(hex_value(text[2 * i + 1]) == Some(stamp[i] as int % 16));
    }
    assert(stamp_of_text(text) =~= stamp);
}

/// An entry as JavaScript gets it.
pub open spec fn entry_to_v8(entry: EntryView) -> V8EntryView {
    V8EntryView {
        key: Seq::new(entry.key.len(), |i: int| part_to_v8(entry.key[i])),
        value: entry.value,
        versionstamp: hex_text(entry.versionstamp),
    }
}

impl V8KvEntry {
    /// The entry that JavaScript gets.
    pub fn from(entry: KvEntry) -> (r: V8KvEntry)
        ensures
            r@ == entry_to_v8(entry@),
    {
        let ghost held = entry@;
        let ghost all = entry.key.0@;
        let versionstamp: String = hex_encode(&entry.versionstamp);
        let mut key: Vec<V8KeyPart> = Vec::new();
        for part in iter: entry.key.0.into_iter()
            invariant
                iter.seq() == all,
                key@.len() == iter.index(),
                forall|j: int|
                    0 <= j < iter.index() ==> (#[trigger] key@[j])@ == part_to_v8(all[j]@),
        {
            key.push(V8KeyPart::from(part));
        }
        let value: Option<V8Value> = match entry.value {
            Some(value) => Some(V8Value::from(value)),
            None => None,
        };
        let r: V8KvEntry = V8KvEntry { key, value, versionstamp };
        assert(r@.key =~= entry_to_v8(held).key);
        r
    }
}

/// A condition of a write as JavaScript states it.
#[derive(Debug)]
pub struct V8KvCheck {
    pub key: Vec<V8KeyPart>,
    pub versionstamp: Vec<u8>,
}

impl KvCheck {
    /// The condition.
    pub fn from(value: V8KvCheck) -> (r: KvCheck)
        requires
            is_stamp_text(value.versionstamp@),
        ensures
            r.key@ == key_from_v8(value.key@),
            r.versionstamp@ == stamp_of_text(value.versionstamp@),
    {
        let versionstamp: [u8; 12] = match hex_decode(value.versionstamp.as_slice()) {
            Some(versionstamp) => versionstamp,
            None => unreached(),
        };
        KvCheck { key: key_of(value.key), versionstamp }
    }
}

/// An entry that JavaScript got and makes a condition of asks for the key and the
/// stamp that the entry has.
pub proof fn law_entry_comes_back_as_check(entry: EntryView, shown: V8KvEntry, check: V8KvCheck)
    requires
        entry.versionstamp.len() == 12,
        shown@ == entry_to_v8(entry),
        check.key@ == shown.key@,
        check.versionstamp@ == ascii(shown.versionstamp@),
    ensures
        is_stamp_text(check.versionstamp@),
        key_from_v8(check.key@) == entry.key,
        stamp_of_text(check.versionstamp@) == entry.versionstamp,
{
    law_stamp_comes_back(entry.versionstamp);
    assert(shown@.key.len() == entry.key.len());
    assert forall|i: int| 0 <= i < entry.key.len() implies part_from_v8(
        #[trigger] check.key@[i]@,
    ) == entry.key[i] by {
        assert(shown@.key[i] == part_to_v8(entry.key[i]));
        law_key_part_comes_back(check.key@[i]@, entry.key[i]);
    }
    assert(key_from_v8(check.key@) =~= entry.key);
}

/// A change as JavaScript asks for it: a key, what is done with it, and with
/// which value.
#[derive(Debug)]
pub struct V8KvMutation {
    pub key: Vec<V8KeyPart>,
    pub kind: String,
    pub value: Option<V8Value>,
}

/// The change that a kind and a value ask for, where there is one.
pub open spec fn mutation_from_v8(kind: Seq<char>, value: Option<ValueView>) -> Option<
    MutationView,
> {
    if kind == "delete"@ {
        Some(MutationView::Delete)
    } else {
        match value {
            None => None,
            Some(value) => if kind == "set"@ {
                Some(MutationView::Put(value))
            } else if kind == "sum"@ {
                Some(MutationView::Sum(value))
            } else if kind == "min"@ {
                Some(MutationView::Min(value))
            } else if kind == "max"@ {
                Some(MutationView::Max(value))
            } else {
                None
            },
        }
    }
}

impl V8KvMutation {
    /// The change that is asked for, where there is one.
    pub open spec fn mutation(self) -> Option<MutationView> {
        mutation_from_v8(
            self.kind@,
            match self.value {
                Some(value) => Some(value@),
                None => None,
            },
        )
    }
}

impl KvMutation {
    /// The change that is asked for.
    pub fn from(value: V8KvMutation) -> (r: KvMutation)
        requires
            value.mutation() is Some,
        ensures
            r.key@ == key_from_v8(value.key@),
            value.mutation() == Some(r.kind@),
    {
        let key: Key = key_of(value.key);
        let kind: &str = value.kind.as_str();
        let kind: MutationKind = match value.value {
            Some(value) => {
                let value: Value = Value::from(value);
                if str_eq(kind, "delete") {
                    MutationKind::Delete
                } else if str_eq(kind, "set") {
                    MutationKind::Put(value)
                } else if str_eq(kind, "sum") {
                    MutationKind::Sum(value)
                } else if str_eq(kind, "min") {
                    MutationKind::Min(value)
                } else {
                    MutationKind::Max(value)
                }
            },
            None => MutationKind::Delete,
        };
        KvMutation { key, kind }
    }
}

/// The read of a single key.
pub fn read_one_request(key_parts: Vec<V8KeyPart>) -> (r: (Vec<ReadRange>, SnapshotReadOptions))
    ensures
        r.0@.len() == 1,
        r.0@[0].start@ == key_from_v8(key_parts@),
        r.0@[0].end is None,
        r.0@[0].limit == 1,
        r.1 == (SnapshotReadOptions { consistency: Consistency::Strong }),
{
    let mut ranges: Vec<ReadRange> = Vec::new();
    ranges.push(ReadRange { start: key_of(key_parts), end: None, limit: 1 });
    (ranges, SnapshotReadOptions { consistency: Consistency::Strong })
}

/// The entries that JavaScript gets for the read of a single key.
pub fn read_one_entries(outputs: Vec<ReadRangeOutput>) -> (r: Vec<V8KvEntry>)
    requires
        outputs@.len() == 1,
    ensures
        r@.len() == outputs@[0].entries@.len(),
        forall|i: int|
            0 <= i < r@.len() ==> (#[trigger] r@[i])@ == entry_to_v8(outputs@[0].entries@[i]@),
{
    let mut outputs: Vec<ReadRangeOutput> = outputs;
    let ghost all = outputs@[0].entries@;
    let output: ReadRangeOutput = outputs.remove(0);
    let mut entries: Vec<V8KvEntry> = Vec::new();
    for entry in iter: output.entries.into_iter()
        invariant
            iter.seq() == all,
            entries@.len() == iter.index(),
            forall|j: int|
                0 <= j < iter.index() ==> (#[trigger] entries@[j])@ == entry_to_v8(all[j]@),
    {
        entries.push(V8KvEntry::from(entry));
    }
    entries
}

/// The write that JavaScript asks for.
pub fn atomic_write_request(checks: Vec<V8KvCheck>, mutations: Vec<V8KvMutation>) -> (r:
    AtomicWrite)
    requires
        forall|i: int|
            0 <= i < checks@.len() ==> is_stamp_text((#[trigger] checks@[i]).versionstamp@),
        forall|i: int| 0 <= i < mutations@.len() ==> (#[trigger] mutations@[i]).mutation() is Some,
    ensures
        r.checks@.len() == checks@.len(),
        forall|i: int|
            0 <= i < checks@.len() ==> {
                &&& (#[trigger] r.checks@[i]).key@ == key_from_v8(checks@[i].key@)
                &&& r.checks@[i].versionstamp@ == stamp_of_text(checks@[i].versionstamp@)
            },
        r.mutations@.len() == mutations@.len(),
        forall|i: int|
            0 <= i < mutations@.len() ==> {
                &&& (#[trigger] r.mutations@[i]).key@ == key_from_v8(mutations@[i].key@)
                &&& mutations@[i].mutation() == Some(r.mutations@[i].kind@)
            },
{
    let mut held_checks: Vec<KvCheck> = Vec::new();
    for check in iter: checks.into_iter()
        invariant
            iter.seq() == checks@,
            held_checks@.len() == iter.index(),
            forall|i: int|
                0 <= i < checks@.len() ==> is_stamp_text((#[trigger] checks@[i]).versionstamp@),
            forall|j: int|
                0 <= j < iter.index() ==> {
                    &&& (#[trigger] held_checks@[j]).key@ == key_from_v8(checks@[j].key@)
                    &&& held_checks@[j].versionstamp@ == stamp_of_text(checks@[j].versionstamp@)
                },
    {
        assert(check == checks@[iter.index()]);
        held_checks.push(KvCheck::from(check));
    }
    let mut held_mutations: Vec<KvMutation> = Vec::new();
    for mutation in iter: mutations.into_iter()
        invariant
            iter.seq() == mutations@,
            held_mutations@.len() == iter.index(),
            forall|i: int|
                0 <= i < mutations@.len() ==> (#[trigger] mutations@[i]).mutation() is Some,
            forall|j: int|
                0 <= j < iter.index() ==> {
                    &&& (#[trigger] held_mutations@[j]).key@ == key_from_v8(mutations@[j].key@)
                    &&& mutations@[j].mutation() == Some(held_mutations@[j].kind@)
                },
    {
        assert(mutation == mutations@[iter.index()]);
        held_mutations.push(KvMutation::from(mutation));
    }
    AtomicWrite { checks: held_checks, mutations: held_mutations }
}

} // verus!
