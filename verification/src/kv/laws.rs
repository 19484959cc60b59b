//! What holds of the key-value database from one end to the other.
use vstd::prelude::*;
use vstd::utf8::encode_utf8;
use crate::kv::codec::key_bytes;
use crate::kv::codec::readable_value;
use crate::kv::codec::stamp_of;
use crate::kv::codec::storable_key;
use crate::kv::codec::storable_value;
use crate::kv::codec::value_bytes;
use crate::kv::codec::value_of;
use crate::kv::js::ascii;
use crate::kv::js::entry_to_v8;
use crate::kv::js::hex_text;
use crate::kv::js::hex_value;
use crate::kv::js::is_stamp_text;
use crate::kv::js::key_from_v8;
use crate::kv::js::law_key_part_comes_back;
use crate::kv::js::law_stamp_comes_back;
use crate::kv::js::mutation_from_v8;
use crate::kv::js::part_from_v8;
use crate::kv::js::part_to_v8;
use crate::kv::js::stamp_of_text;
use crate::kv::js::V8KeyPart;
use crate::kv::js::V8KeyPartView;
use crate::kv::js::V8KvMutation;
use crate::kv::sqlite::entry_in;
use crate::kv::sqlite::entry_of;
use crate::kv::sqlite::is_location;
use crate::kv::sqlite::law_entry_after_write;
use crate::kv::sqlite::law_fresh_stamps_are_accepted;
use crate::kv::sqlite::migrations_view;
use crate::kv::sqlite::missing_migrations;
use crate::kv::sqlite::opt_row;
use crate::kv::sqlite::recorded_version;
use crate::kv::sqlite::DbLocation;
use crate::kv::sqlite::Row;
use crate::kv::sqlite::MIGRATION_KV;
use crate::kv::sqlite::MIGRATION_QUEUE;
use crate::kv::types::AtomicWrite;
use crate::kv::types::EntryView;
use crate::kv::types::Key;
use crate::kv::types::KeyPart;
use crate::kv::types::KeyPartView;
use crate::kv::types::KvCheck;
use crate::kv::types::KvEntry;
use crate::kv::types::KvMutation;
use crate::kv::types::MutationView;
use crate::kv::types::Value;
use crate::kv::types::ValueView;
use crate::kv::write::action_in;
use crate::kv::write::change_of;
use crate::kv::write::changing;
use crate::kv::write::checking;
use crate::kv::write::checks_hold;
use crate::kv::write::last_change;
use crate::kv::write::phase_after;
use crate::kv::write::possible;
use crate::kv::write::testable;
use crate::kv::write::written;
use crate::kv::write::ActionView;
use crate::kv::write::Phase;
use crate::kv::write::RowView;
use crate::kv::write::StoreView;
use crate::kv::write::WriteEvent;
use crate::kv::write::WriteRun;
use crate::text::digit_char;
use crate::text::digit_value;
use crate::text::lemma_digit;

verus! {

/// A change of kind "set" stores the value it came with, whatever the value. Only
/// the kind "delete" removes a key, and it does so with a value or without. The
/// other kinds keep their value too, and whatever is none of these is no change.
pub proof fn law_set_stores_its_value(kind: Seq<char>, value: Option<ValueView>)
    ensures
        ({
            let change = mutation_from_v8(kind, value);
            &&& value matches Some(v) ==> {
                &&& kind == "set"@ ==> change == Some(MutationView::Put(v))
                &&& kind == "sum"@ ==> change == Some(MutationView::Sum(v))
                &&& kind == "min"@ ==> change == Some(MutationView::Min(v))
                &&& kind == "max"@ ==> change == Some(MutationView::Max(v))
            }
            &&& change == Some(MutationView::Delete) <==> kind == "delete"@
            &&& change is None <==> kind != "delete"@ && (value is None || (kind != "set"@ && kind
                != "sum"@ && kind != "min"@ && kind != "max"@))
        }),
{
    reveal_strlit("set");
    reveal_strlit("sum");
    reveal_strlit("min");
    reveal_strlit("max");
    reveal_strlit("delete");
    assert("set"@.len() == 3 && "sum"@.len() == 3 && "min"@.len() == 3 && "max"@.len() == 3
        && "delete"@.len() == 6);
    assert("set"@[1] != "sum"@[1] && "set"@[0] != "min"@[0] && "set"@[0] != "max"@[0]);
    assert("sum"@[0] != "min"@[0] && "sum"@[0] != "max"@[0] && "min"@[1] != "max"@[1]);
}

/// What JavaScript sets it reads back: after the write of a "set" that it asked for,
/// a read of the key gives the value, and JavaScript gets it as it was.
pub proof fn law_set_is_read_back(
    store: StoreView,
    asked: V8KvMutation,
    change: KvMutation,
    write: AtomicWrite,
)
    requires
        asked.kind@ == "set"@,
        asked.value matches Some(value) && storable_value(value@),
        change.key@ == key_from_v8(asked.key@),
        asked.mutation() == Some(change.kind@),
        asked.key@.len() == 1,
        asked.key@[0] is String,
        write.checks@.len() == 0,
        write.mutations@ == seq![change],
    ensures
        ({
            let after = written(store, write);
            let entry = entry_in(after.0, change.key@);
            &&& after.1
            &&& entry.value == Some(asked.value->0@)
            &&& entry_to_v8(entry).value == Some(asked.value->0@)
            &&& entry_to_v8(entry).key.len() == 1
            &&& entry_to_v8(entry).key[0] == asked.key@[0]@
        }),
{
    law_set_stores_its_value(asked.kind@, Some(asked.value->0@));
    let key = change.key@;
    assert(key.len() == 1 && key[0] == part_from_v8(asked.key@[0]@));
    law_key_part_comes_back(asked.key@[0]@, key[0]);
    assert(storable_key(key));
    assert(possible(change));
    assert(checks_hold(store, write.checks@));
    assert(last_change(write.mutations@, key_bytes(key), 1) == Some(change.kind@));
    law_entry_after_write(store, write, key);
}

/// What JavaScript deletes it no longer finds.
pub proof fn law_deleted_is_not_found(
    store: StoreView,
    asked: V8KvMutation,
    change: KvMutation,
    write: AtomicWrite,
)
    requires
        asked.kind@ == "delete"@,
        change.key@ == key_from_v8(asked.key@),
        asked.mutation() == Some(change.kind@),
        asked.key@.len() == 1,
        asked.key@[0] is String,
        write.checks@.len() == 0,
        write.mutations@ == seq![change],
    ensures
        written(store, write).1,
        entry_in(written(store, write).0, change.key@).value is None,
        entry_in(written(store, write).0, change.key@).versionstamp == Seq::new(12, |i: int| 0u8),
{
    law_set_stores_its_value(
        asked.kind@,
        match asked.value {
            Some(value) => Some(value@),
            None => None,
        },
    );
    let key = change.key@;
    assert(key.len() == 1 && key[0] == part_from_v8(asked.key@[0]@));
    assert(storable_key(key));
    assert(possible(change));
    assert(checks_hold(store, write.checks@));
    assert(last_change(write.mutations@, key_bytes(key), 1) == Some(change.kind@));
    law_entry_after_write(store, write, key);
    law_stamp_is_the_version(0);
    assert(stamp_of(0) =~= Seq::new(12, |i: int| 0u8));
}

/// A write is made exactly where every condition names the stamp that a read of its
/// key gives. One that is made counts the version of the database up by one, and
/// one that is not leaves everything as it was.
pub proof fn law_write_goes_by_its_conditions(store: StoreView, write: AtomicWrite)
    requires
        0 <= store.data_version < i64::MAX,
    ensures
        ({
            let (after, made) = written(store, write);
            &&& made <==> forall|i: int|
                0 <= i < write.checks@.len() ==> (#[trigger] write.checks@[i]).versionstamp@
                    == entry_in(store, write.checks@[i].key@).versionstamp
            &&& made ==> after.data_version == store.data_version + 1
            &&& !made ==> after == store
        }),
{
    if written(store, write).1 {
        assert forall|i: int| 0 <= i < write.checks@.len() implies (
        #[trigger] write.checks@[i]).versionstamp@ == entry_in(
            store,
            write.checks@[i].key@,
        ).versionstamp by {
            assert(stamp_of(store.version_of(key_bytes(write.checks@[i].key@)))
                == write.checks@[i].versionstamp@);
        }
    } else if forall|i: int|
        0 <= i < write.checks@.len() ==> (#[trigger] write.checks@[i]).versionstamp@ == entry_in(
            store,
            write.checks@[i].key@,
        ).versionstamp {
        law_fresh_stamps_are_accepted(store, write);
    }
}

/// The number that bytes stand for, the least significant first.
pub open spec fn le_value(bytes: Seq<u8>) -> nat
    decreases bytes.len(),
{
    if bytes.len() == 0 {
        0
    } else {
        bytes[0] as nat + 256 * le_value(bytes.skip(1))
    }
}

/// A stamp has twelve bytes: eight that are worth the version, as two's complement
/// and with the least significant first, and four that are zero.
pub proof fn law_stamp_is_the_version(version: i64)
    ensures
        stamp_of(version).len() == 12,
        le_value(stamp_of(version).take(8)) == if version < 0 {
            version + 0x1_0000_0000_0000_0000
        } else {
            version as int
        },
        forall|i: int| 8 <= i < 12 ==> #[trigger] stamp_of(version)[i] == 0,
{
    let n = if version < 0 {
        version + 0x1_0000_0000_0000_0000
    } else {
        version as int
    };
    let b = stamp_of(version).take(8);
    reveal_with_fuel(le_value, 9);
    assert(b.skip(1).skip(1).skip(1).skip(1).skip(1).skip(1).skip(1).skip(1) =~= Seq::empty());
    assert(b[0] as int == n % 256);
    let n1 = n / 256;
    let n2 = n1 / 256;
    let n3 = n2 / 256;
    let n4 = n3 / 256;
    let n5 = n4 / 256;
    let n6 = n5 / 256;
    let n7 = n6 / 256;
    assert(n / 0x1_0000 == n2);
    assert(n / 0x100_0000 == n3);
    assert(n / 0x1_0000_0000 == n4);
    assert(n / 0x100_0000_0000 == n5);
    assert(n / 0x1_0000_0000_0000 == n6);
    assert(n / 0x100_0000_0000_0000 == n7);
    assert(b[1] as int == n1 % 256);
    assert(b[2] as int == n2 % 256);
    assert(b[3] as int == n3 % 256);
    assert(b[4] as int == n4 % 256);
    assert(b[5] as int == n5 % 256);
    assert(b[6] as int == n6 % 256);
    assert(b[7] as int == n7 % 256);
    assert(n7 < 256);
    let t7 = b.skip(1).skip(1).skip(1).skip(1).skip(1).skip(1).skip(1);
    let t6 = b.skip(1).skip(1).skip(1).skip(1).skip(1).skip(1);
    let t5 = b.skip(1).skip(1).skip(1).skip(1).skip(1);
    let t4 = b.skip(1).skip(1).skip(1).skip(1);
    let t3 = b.skip(1).skip(1).skip(1);
    let t2 = b.skip(1).skip(1);
    let t1 = b.skip(1);
    assert(le_value(t7) == n7);
    assert(le_value(t6) == n6);
    assert(le_value(t5) == n5);
    assert(le_value(t4) == n4);
    assert(le_value(t3) == n3);
    assert(le_value(t2) == n2);
    assert(le_value(t1) == n1);
}

/// A stamp is shown as two hexadecimal digits in lower case for each byte, the high
/// one first.
pub proof fn law_stamp_is_shown_in_hexadecimal(bytes: Seq<u8>, i: int)
    requires
        0 <= i < bytes.len(),
    ensures
        ({
            let text = hex_text(bytes);
            let (high, low) = (text[2 * i], text[2 * i + 1]);
            &&& text.len() == 2 * bytes.len()
            &&& '0' <= high <= '9' || 'a' <= high <= 'f'
            &&& '0' <= low <= '9' || 'a' <= low <= 'f'
            &&& digit_value(high) * 16 + digit_value(low) == bytes[i]
        }),
{
    let b = bytes[i] as int;
    assert((2 * i) / 2 == i && (2 * i) % 2 == 0);
    assert((2 * i + 1) / 2 == i && (2 * i + 1) % 2 == 1);
    assert(hex_text(bytes)[2 * i] == digit_char((b / 16) as nat));
    assert(hex_text(bytes)[2 * i + 1] == digit_char((b % 16) as nat));
    lemma_digit((b / 16) as nat);
    lemma_digit((b % 16) as nat);
}

/// How a value is stored: its bytes as they are, or one byte for a truth value,
/// under the number of its encoding.
pub proof fn law_encodings_of_values(bytes: Seq<u8>, b: bool)
    ensures
        value_bytes(ValueView::V8(bytes)) == (bytes, 1i64),
        value_bytes(ValueView::Bytes(bytes)) == (bytes, 5i64),
        value_bytes(ValueView::Bool(b)).1 == 2,
        value_bytes(ValueView::Bool(b)).0.len() == 1,
        value_bytes(ValueView::Bool(b)).0[0] == if b {
            1u8
        } else {
            0
        },
        value_of(bytes, 1) == ValueView::V8(bytes),
        value_of(bytes, 5) == ValueView::Bytes(bytes),
        bytes.len() > 0 ==> value_of(bytes, 2) == ValueView::Bool(bytes[0] != 0),
        readable_value(bytes, 1) && readable_value(bytes, 5),
        readable_value(bytes, 2) <==> bytes.len() > 0,
{
}

/// What can be stored: a key of one text, and under it a value of V8, a truth value
/// or bytes; such a key can also be deleted and asked for.
pub proof fn law_what_can_be_stored(check: KvCheck, mutation: KvMutation)
    ensures
        testable(check) <==> check.key@.len() == 1 && check.key@[0] is String,
        possible(mutation) <==> mutation.key@.len() == 1 && mutation.key@[0] is String && (
        match mutation.kind@ {
            MutationView::Delete => true,
            MutationView::Put(value) => value is V8 || value is Bool || value is Bytes,
            _ => false,
        }),
{
}

/// A key of one text is stored as that text in UTF-8.
pub proof fn law_key_is_its_text(key: Seq<KeyPartView>)
    requires
        storable_key(key),
    ensures
        key[0] matches KeyPartView::String(text) && key_bytes(key) == encode_utf8(text),
{
}

/// What a part of a key is held as: a number bit for bit, an integer, a text and
/// bytes as they are, and a truth value as the other one.
pub proof fn law_parts_of_keys(part: V8KeyPartView)
    ensures
        match (part, part_from_v8(part)) {
            (V8KeyPartView::Bool(b), KeyPartView::True) => !b,
            (V8KeyPartView::Bool(b), KeyPartView::False) => b,
            (V8KeyPartView::Number(a), KeyPartView::Float(b)) => a == b,
            (V8KeyPartView::BigInt(a), KeyPartView::Int(b)) => a == b,
            (V8KeyPartView::String(a), KeyPartView::String(b)) => a == b,
            (V8KeyPartView::U8(a), KeyPartView::Bytes(b)) => a == b,
            _ => false,
        },
{
}

/// The key that is held has a part for each part of the key of JavaScript, in their
/// order.
pub proof fn law_key_keeps_its_parts(parts: Seq<V8KeyPart>, i: int)
    requires
        0 <= i < parts.len(),
    ensures
        key_from_v8(parts).len() == parts.len(),
        key_from_v8(parts)[i] == part_from_v8(parts[i]@),
{
}

/// What JavaScript gets of an entry: each part of the key, the value and the stamp.
pub proof fn law_entry_is_shown(entry: EntryView, i: int)
    requires
        0 <= i < entry.key.len(),
        entry.versionstamp.len() == 12,
    ensures
        entry_to_v8(entry).value == entry.value,
        entry_to_v8(entry).key.len() == entry.key.len(),
        part_from_v8(entry_to_v8(entry).key[i]) == entry.key[i],
        stamp_of_text(ascii(entry_to_v8(entry).versionstamp)) == entry.versionstamp,
{
    law_key_part_comes_back(part_to_v8(entry.key[i]), entry.key[i]);
    law_stamp_comes_back(entry.versionstamp);
}

/// An entry is read from its row: the value that the row holds, under the stamp of
/// the row's version; without a row there is no value, and the stamp is zero.
pub proof fn law_entry_is_the_row(key: Seq<KeyPartView>, row: Option<RowView>)
    ensures
        entry_of(key, row).key == key,
        match row {
            Some(row) => {
                &&& entry_of(key, Some(row)).value == Some(value_of(row.value, row.encoding))
                &&& entry_of(key, Some(row)).versionstamp == stamp_of(row.version)
            },
            None => {
                &&& entry_of(key, None).value is None
                &&& forall|i: int|
                    0 <= i < 12 ==> #[trigger] entry_of(key, None).versionstamp[i] == 0
            },
        },
{
}

/// The text of a stamp is twenty-four digits, in either case, and each pair is worth
/// its byte.
pub proof fn law_stamp_texts(text: Seq<u8>, i: int)
    requires
        is_stamp_text(text),
        0 <= i < 12,
    ensures
        text.len() == 24,
        stamp_of_text(text).len() == 12,
        ({
            let value = |c: u8|
                if 0x30 <= c <= 0x39 {
                    c - 0x30
                } else if 0x61 <= c <= 0x66 {
                    c - 0x61 + 10
                } else {
                    c - 0x41 + 10
                };
            stamp_of_text(text)[i] == value(text[2 * i]) * 16 + value(text[2 * i + 1])
        }),
{
    assert(hex_value(text[2 * i]) is Some);
    assert(hex_value(text[2 * i + 1]) is Some);
}

/// A database is opened at the path that is given, else in the directory, else in
/// memory, and then gets the migrations above its version.
pub proof fn law_place_of_a_database(
    location: DbLocation,
    path: Option<Seq<char>>,
    directory: Option<Seq<char>>,
)
    requires
        is_location(location, path, directory),
    ensures
        match location {
            DbLocation::File(file) => path == Some(file@),
            DbLocation::Directory(dir) => path is None && directory == Some(dir@),
            DbLocation::Memory => path is None && directory is None,
        },
        recorded_version(None) == 0,
        forall|version: usize| #[trigger] recorded_version(Some(version)) == version,
{
}

/// What a change does: a value that is put is stored under the key, as it is stored,
/// at the version of the write; a key that is deleted is deleted.
pub proof fn law_changes(mutation: KvMutation, version: i64)
    requires
        possible(mutation),
    ensures
        match (mutation.kind@, change_of(mutation, version)) {
            (MutationView::Put(put), ActionView::Store { key, value, encoding, version: at }) => {
                &&& key == key_bytes(mutation.key@)
                &&& (value, encoding) == value_bytes(put)
                &&& at == version
            },
            (MutationView::Delete, ActionView::Delete { key }) => key == key_bytes(mutation.key@),
            _ => false,
        },
{
}

/// In which order a write goes on: condition after condition, each by the version of
/// its key; then the version of the database is counted up; then change after change;
/// then it is committed. A condition that does not hold ends it.
pub proof fn law_order_of_a_write(write: AtomicWrite, i: int, version: i64, found: Option<i64>)
    requires
        0 <= i,
        write.checks@.len() <= usize::MAX,
        write.mutations@.len() <= usize::MAX,
    ensures
        write.checks@.len() == 0 ==> checking(write, 0) is Counting,
        write.mutations@.len() == 0 ==> changing(write, 0, version) is Committing,
        action_in(write, Phase::Counting) is NextVersion,
        action_in(write, Phase::Committing) is Commit,
        action_in(write, Phase::Finished(true)) == ActionView::Finish(true),
        action_in(write, Phase::Finished(false)) == ActionView::Finish(false),
        phase_after(write, Phase::Counting, WriteEvent::NewVersion(version)) == if 0
            < write.mutations@.len() {
            Phase::Changing(0, version)
        } else {
            Phase::Committing
        },
        phase_after(write, Phase::Committing, WriteEvent::Done) == Phase::Finished(true),
        i < write.checks@.len() ==> {
            let phase = Phase::Checking(i as usize);
            let holds = stamp_of(
                match found {
                    Some(v) => v,
                    None => 0,
                },
            ) == write.checks@[i].versionstamp@;
            &&& action_in(write, phase) == (ActionView::ReadVersion {
                key: key_bytes(write.checks@[i].key@),
            })
            &&& phase_after(write, phase, WriteEvent::Version(found)) == if !holds {
                Phase::Finished(false)
            } else if i + 1 < write.checks@.len() {
                Phase::Checking((i + 1) as usize)
            } else {
                Phase::Counting
            }
        },
        i < write.mutations@.len() ==> {
            let phase = Phase::Changing(i as usize, version);
            &&& action_in(write, phase) == change_of(write.mutations@[i], version)
            &&& phase_after(write, phase, WriteEvent::Done) == if i + 1 < write.mutations@.len() {
                Phase::Changing((i + 1) as usize, version)
            } else {
                Phase::Committing
            }
        },
{
}

/// A write can go on where the key that is next, and the value, can be stored; and
/// wherever nothing of it is next.
pub proof fn law_when_a_write_can_go_on(run: WriteRun)
    requires
        run.wf(),
    ensures
        match run.phase() {
            Phase::Checking(i) => i < run.write().checks@.len() && run.can_go_on() == testable(
                run.write().checks@[i as int],
            ),
            Phase::Changing(i, _) => i < run.write().mutations@.len() && run.can_go_on()
                == possible(run.write().mutations@[i as int]),
            _ => run.can_go_on(),
        },
{
}

/// An entry in a store is that of the row under the key, and that of no row where
/// there is none.
pub proof fn law_entry_in_a_store(store: StoreView, key: Seq<KeyPartView>)
    ensures
        entry_in(store, key).key == key,
        store.rows.contains_key(key_bytes(key)) ==> {
            let row = store.rows[key_bytes(key)];
            &&& entry_in(store, key).value == Some(value_of(row.value, row.encoding))
            &&& entry_in(store, key).versionstamp == stamp_of(row.version)
        },
        !store.rows.contains_key(key_bytes(key)) ==> entry_in(store, key).value is None && entry_in(
            store,
            key,
        ).versionstamp == stamp_of(0),
{
}

/// The first migration makes the tables for keys, and the second those for the
/// queue; a list of them says the version of each and its script.
pub proof fn law_scripts_of_migrations(list: Seq<(usize, &'static str)>, i: int)
    requires
        0 <= i < list.len(),
    ensures
        missing_migrations(0).len() == 2,
        missing_migrations(0)[0] == (1nat, MIGRATION_KV@),
        missing_migrations(0)[1] == (2nat, MIGRATION_QUEUE@),
        missing_migrations(1).len() == 1,
        missing_migrations(1)[0] == (2nat, MIGRATION_QUEUE@),
        forall|version: nat| version >= 2 ==> (#[trigger] missing_migrations(version)).len() == 0,
        migrations_view(list).len() == list.len(),
        migrations_view(list)[i].0 == list[i].0 && migrations_view(list)[i].1 == list[i].1@,
{
}

/// What keys, values, entries and rows say is what they hold.
pub proof fn law_entries_say_what_they_hold(
    part: KeyPart,
    key: Key,
    value: Value,
    entry: KvEntry,
    row: Row,
    i: int,
)
    requires
        0 <= i < key.0@.len(),
    ensures
        match (part, part@) {
            (KeyPart::True, KeyPartView::True) => true,
            (KeyPart::False, KeyPartView::False) => true,
            (KeyPart::Float(a), KeyPartView::Float(b)) => a == b,
            (KeyPart::Int(a), KeyPartView::Int(b)) => a.negative == b.negative && a.magnitude@
                == b.magnitude,
            (KeyPart::String(a), KeyPartView::String(b)) => a@ == b,
            (KeyPart::Bytes(a), KeyPartView::Bytes(b)) => a@ == b,
            _ => false,
        },
        key@.len() == key.0@.len() && key@[i] == key.0@[i]@,
        match (value, value@) {
            (Value::V8(a), ValueView::V8(b)) => a@ == b,
            (Value::Bool(a), ValueView::Bool(b)) => a == b,
            (Value::Int(a), ValueView::Int(b)) => a.negative == b.negative && a.magnitude@
                == b.magnitude,
            (Value::Float(a), ValueView::Float(b)) => a == b,
            (Value::Bytes(a), ValueView::Bytes(b)) => a@ == b,
            _ => false,
        },
        entry@.key == entry.key@ && entry@.versionstamp == entry.versionstamp@,
        entry.value is None ==> entry@.value is None,
        entry.value matches Some(v) ==> entry@.value == Some(v@),
        row@.value == row.value@ && row@.encoding == row.encoding && row@.version == row.version,
        opt_row(Some(row)) == Some(row@) && opt_row(None) is None,
{
}

} // verus!
