use deno_parts::kv::codec::decode_key;
use deno_parts::kv::codec::decode_value;
use deno_parts::kv::codec::encode_key;
use deno_parts::kv::codec::encode_value;
use deno_parts::kv::codec::is_storable_key;
use deno_parts::kv::codec::is_storable_value;
use deno_parts::kv::codec::version_to_versionstamp;
use deno_parts::kv::fake::FakeDbHandler;
use deno_parts::kv::js::atomic_write_request;
use deno_parts::kv::js::read_one_entries;
use deno_parts::kv::js::read_one_request;
use deno_parts::kv::js::V8KeyPart;
use deno_parts::kv::js::V8KvCheck;
use deno_parts::kv::js::V8KvEntry;
use deno_parts::kv::js::V8KvMutation;
use deno_parts::kv::js::V8Value;
use deno_parts::kv::sqlite::pending_migrations;
use deno_parts::kv::sqlite::point_entry;
use deno_parts::kv::sqlite::point_key;
use deno_parts::kv::sqlite::snapshot_read;
use deno_parts::kv::sqlite::DbLocation;
use deno_parts::kv::sqlite::OpenEvent;
use deno_parts::kv::sqlite::OpenStep;
use deno_parts::kv::sqlite::Row;
use deno_parts::kv::sqlite::SqliteDbHandler;
use deno_parts::kv::sqlite::STATEMENT_CREATE_MIGRATION_TABLE;
use deno_parts::kv::sqlite::STATEMENT_INC_AND_GET_DATA_VERSION;
use deno_parts::kv::sqlite::STATEMENT_KV_POINT_DELETE;
use deno_parts::kv::sqlite::STATEMENT_KV_POINT_GET;
use deno_parts::kv::sqlite::STATEMENT_KV_POINT_GET_VERSION_ONLY;
use deno_parts::kv::sqlite::STATEMENT_KV_POINT_SET;
use deno_parts::kv::types::AtomicWrite;
use deno_parts::kv::types::BigInt;
use deno_parts::kv::types::Key;
use deno_parts::kv::types::KeyPart;
use deno_parts::kv::types::KvCheck;
use deno_parts::kv::types::KvEntry;
use deno_parts::kv::types::KvMutation;
use deno_parts::kv::types::MutationKind;
use deno_parts::kv::types::Value;
use deno_parts::kv::write::check_holds;
use deno_parts::kv::write::WriteAction;
use deno_parts::kv::write::WriteEvent;
use deno_parts::kv::write::WriteRun;
use rusqlite::OptionalExtension;

fn key(text: &str) -> Key {
    Key(vec![KeyPart::String(text.to_string())])
}

fn database() -> rusqlite::Connection {
    let db = rusqlite::Connection::open_in_memory().unwrap();
    db.execute(STATEMENT_CREATE_MIGRATION_TABLE, []).unwrap();
    for (_, migration) in pending_migrations(0) {
        db.execute_batch(migration).unwrap();
    }
    db
}

fn perform(db: &mut rusqlite::Connection, write: AtomicWrite) -> bool {
    let tx = db.transaction().unwrap();
    let mut run = WriteRun::new(write);
    loop {
        let event = match run.action() {
            WriteAction::ReadVersion { key } => WriteEvent::Version(
                tx.query_row(STATEMENT_KV_POINT_GET_VERSION_ONLY, [key], |row| row.get(0))
                    .optional()
                    .unwrap(),
            ),
            WriteAction::NextVersion => WriteEvent::NewVersion(
                tx.query_row(STATEMENT_INC_AND_GET_DATA_VERSION, [], |row| row.get(0)).unwrap(),
            ),
            WriteAction::Store { key, value, encoding, version } => {
                tx.execute(
                    STATEMENT_KV_POINT_SET,
                    (key, value, encoding, version),
                )
                .unwrap();
                WriteEvent::Done
            }
            WriteAction::Delete { key } => {
                tx.execute(STATEMENT_KV_POINT_DELETE, [key]).unwrap();
                WriteEvent::Done
            }
            WriteAction::Commit => {
                tx.commit().unwrap();
                return matches!(run.advance(WriteEvent::Done).action(), WriteAction::Finish(true));
            }
            WriteAction::Finish(done) => return done,
        };
        run = run.advance(event);
    }
}

fn read(db: &rusqlite::Connection, text: &str) -> KvEntry {
    let (mut requests, _) = read_one_request(vec![V8KeyPart::String(text.to_string())]);
    let request = requests.remove(0);
    let row = db
        .query_row(STATEMENT_KV_POINT_GET, [point_key(&request)], |row| {
            Ok(Row { value: row.get(0)?, encoding: row.get(1)?, version: row.get(2)? })
        })
        .optional()
        .unwrap();
    let mut outputs = snapshot_read(vec![(request, row)]);
    outputs.remove(0).entries.remove(0)
}

fn put(text: &str, value: &[u8]) -> KvMutation {
    KvMutation { key: key(text), kind: MutationKind::Put(Value::Bytes(value.to_vec())) }
}

fn bytes_of(entry: &KvEntry) -> Option<Vec<u8>> {
    match &entry.value {
        Some(Value::Bytes(b)) => Some(b.clone()),
        _ => None,
    }
}

#[test]
fn writes_are_read_back() {
    let mut db = database();
    let first = AtomicWrite { checks: vec![], mutations: vec![put("a", b"1"), put("b", b"2")] };
    assert!(perform(&mut db, first));
    let a = read(&db, "a");
    assert_eq!(bytes_of(&a), Some(b"1".to_vec()));
    assert_eq!(a.versionstamp, version_to_versionstamp(1));
    let second = AtomicWrite {
        checks: vec![KvCheck { key: key("a"), versionstamp: a.versionstamp }],
        mutations: vec![
            put("a", b"3"),
            KvMutation { key: key("b"), kind: MutationKind::Delete },
            put("c", b"x"),
            put("c", b"y"),
        ],
    };
    assert!(perform(&mut db, second));
    assert_eq!(bytes_of(&read(&db, "a")), Some(b"3".to_vec()));
    assert_eq!(bytes_of(&read(&db, "c")), Some(b"y".to_vec()));
    let b = read(&db, "b");
    assert!(b.value.is_none());
    assert_eq!(b.versionstamp, [0; 12]);
}

#[test]
fn stale_writes_are_refused() {
    let mut db = database();
    assert!(perform(&mut db, AtomicWrite { checks: vec![], mutations: vec![put("a", b"1")] }));
    let stamp = read(&db, "a").versionstamp;
    let write = |value: &[u8]| AtomicWrite {
        checks: vec![
            KvCheck { key: key("n"), versionstamp: [0; 12] },
            KvCheck { key: key("a"), versionstamp: stamp },
        ],
        mutations: vec![put("a", value), put("z", value)],
    };
    assert!(perform(&mut db, write(b"2")));
    assert!(!perform(&mut db, write(b"3")));
    assert_eq!(bytes_of(&read(&db, "a")), Some(b"2".to_vec()));
    assert_eq!(bytes_of(&read(&db, "z")), Some(b"2".to_vec()));
    assert_eq!(read(&db, "a").versionstamp, version_to_versionstamp(2));
}

#[test]
fn only_what_is_reached_has_to_be_possible() {
    let sum = || KvMutation { key: key("a"), kind: MutationKind::Sum(Value::Bool(true)) };
    let other = || Key(vec![]);
    // A condition that does not hold comes before a change that cannot be made.
    let run = WriteRun::new(AtomicWrite {
        checks: vec![
            KvCheck { key: key("a"), versionstamp: [1; 12] },
            KvCheck { key: other(), versionstamp: [0; 12] },
        ],
        mutations: vec![sum()],
    });
    assert!(run.is_able());
    let run = run.advance(WriteEvent::Version(None));
    assert!(run.is_able());
    assert!(matches!(run.action(), WriteAction::Finish(false)));
    // Where it is reached, it cannot be made.
    let run = WriteRun::new(AtomicWrite { checks: vec![], mutations: vec![put("a", b""), sum()] });
    let run = run.advance(WriteEvent::NewVersion(1));
    assert!(run.is_able());
    assert!(!run.advance(WriteEvent::Done).is_able());
    let check = KvCheck { key: other(), versionstamp: [0; 12] };
    assert!(!WriteRun::new(AtomicWrite { checks: vec![check], mutations: vec![] }).is_able());
    assert!(!is_storable_key(&Key(vec![KeyPart::True])));
    assert!(!is_storable_value(&Value::Float(0)));
}

#[test]
fn reopened_databases_keep_their_rows() {
    let mut db = database();
    assert!(perform(&mut db, AtomicWrite { checks: vec![], mutations: vec![put("a", b"1")] }));
    db.execute(STATEMENT_CREATE_MIGRATION_TABLE, []).unwrap();
    for (_, migration) in pending_migrations(2) {
        db.execute_batch(migration).unwrap();
    }
    assert_eq!(bytes_of(&read(&db, "a")), Some(b"1".to_vec()));
    let db = rusqlite::Connection::open_in_memory().unwrap();
    db.execute_batch(pending_migrations(0)[0].1).unwrap();
    let mut db = db;
    assert!(perform(&mut db, AtomicWrite { checks: vec![], mutations: vec![put("a", b"1")] }));
    for (_, migration) in pending_migrations(1) {
        db.execute_batch(migration).unwrap();
    }
    assert_eq!(bytes_of(&read(&db, "a")), Some(b"1".to_vec()));
}

#[test]
fn writes_without_changes() {
    let mut db = database();
    assert!(perform(&mut db, AtomicWrite { checks: vec![], mutations: vec![] }));
    let version: i64 =
        db.query_row("select version from data_version", [], |row| row.get(0)).unwrap();
    assert_eq!(version, 1);
}

#[test]
fn keys_are_stored_as_text() {
    assert_eq!(encode_key(&key("añ")), "añ".as_bytes());
    match &decode_key(b"x".to_vec()).0[0] {
        KeyPart::String(text) => assert_eq!(text, "x"),
        _ => panic!("no text"),
    }
}

#[test]
fn versions_are_stamped() {
    assert_eq!(version_to_versionstamp(0), [0; 12]);
    assert_eq!(version_to_versionstamp(258), [2, 1, 0, 0, 0, 0, 0, 0, 0, 0, 0, 0]);
    assert_eq!(
        version_to_versionstamp(-1),
        [255, 255, 255, 255, 255, 255, 255, 255, 0, 0, 0, 0]
    );
    assert_eq!(version_to_versionstamp(i64::MAX)[7], 127);
    assert!(check_holds(None, &[0; 12]));
    assert!(check_holds(Some(258), &[2, 1, 0, 0, 0, 0, 0, 0, 0, 0, 0, 0]));
    assert!(!check_holds(Some(258), &[2, 1, 0, 0, 0, 0, 0, 0, 0, 0, 0, 1]));
}

#[test]
fn values_are_stored() {
    assert_eq!(encode_value(&Value::V8(vec![1, 2])), (vec![1, 2], 1));
    assert_eq!(encode_value(&Value::Bool(true)), (vec![1], 2));
    assert_eq!(encode_value(&Value::Bool(false)), (vec![0], 2));
    assert_eq!(encode_value(&Value::Bytes(vec![])), (vec![], 5));
    assert!(matches!(decode_value(vec![7], 2), Value::Bool(true)));
    assert!(matches!(decode_value(vec![0], 2), Value::Bool(false)));
    assert!(matches!(decode_value(vec![1], 1), Value::V8(b) if b == vec![1]));
    assert!(matches!(decode_value(vec![1], 5), Value::Bytes(b) if b == vec![1]));
}

#[test]
fn entries_without_a_row() {
    let entry = point_entry(key("k"), None);
    assert!(entry.value.is_none());
    assert_eq!(entry.versionstamp, [0; 12]);
    let entry = point_entry(key("k"), Some(Row { value: vec![1], encoding: 2, version: 5 }));
    assert!(matches!(entry.value, Some(Value::Bool(true))));
    assert_eq!(entry.versionstamp[0], 5);
}

#[test]
fn migrations_follow_the_version() {
    let versions = |v: usize| pending_migrations(v).iter().map(|m| m.0).collect::<Vec<_>>();
    assert_eq!(versions(0), vec![1, 2]);
    assert_eq!(versions(1), vec![2]);
    assert_eq!(versions(2), Vec::<usize>::new());
    assert_eq!(versions(9), Vec::<usize>::new());
    assert!(pending_migrations(1)[0].1.contains("create table queue ("));
}

#[test]
fn locations_of_databases() {
    let with = SqliteDbHandler { default_storage_dir: Some("/d".to_string()) };
    let without = SqliteDbHandler { default_storage_dir: None };
    assert!(matches!(with.location(Some("/f".to_string())), DbLocation::File(p) if p == "/f"));
    assert!(matches!(with.location(None), DbLocation::Directory(d) if d == "/d"));
    assert!(matches!(without.location(None), DbLocation::Memory));
    assert!(matches!(
        with.open(Some("/f".to_string()), OpenEvent::Start),
        OpenStep::Connect(DbLocation::File(p)) if p == "/f"
    ));
    let count = |version: Option<usize>| match with.open(None, OpenEvent::Version(version)) {
        OpenStep::Migrate(list) => list.len(),
        OpenStep::Connect(_) => panic!("connected again"),
    };
    assert_eq!((count(None), count(Some(0)), count(Some(1)), count(Some(2))), (2, 2, 1, 0));
    assert!(FakeDbHandler.open(None).is_ok());
    assert!(FakeDbHandler.open(Some("/f".to_string())).is_ok());
}

#[test]
fn parts_of_keys_come_back() {
    let parts = || {
        vec![
            V8KeyPart::Bool(true),
            V8KeyPart::Bool(false),
            V8KeyPart::Number(1.5f64.to_bits()),
            V8KeyPart::BigInt(BigInt { negative: true, magnitude: vec![1, 0] }),
            V8KeyPart::String("s".to_string()),
            V8KeyPart::U8(vec![9]),
        ]
    };
    for part in parts() {
        let shown = format!("{part:?}");
        let back = V8KeyPart::from(KeyPart::from(part));
        assert_eq!(format!("{back:?}"), shown);
    }
    assert!(matches!(KeyPart::from(V8KeyPart::Bool(false)), KeyPart::True));
    assert!(matches!(KeyPart::from(V8KeyPart::Bool(true)), KeyPart::False));
    assert_eq!(read_one_request(parts()).0[0].start.0.len(), 6);
}

#[test]
fn entries_for_javascript() {
    let entry = KvEntry {
        key: key("k"),
        value: Some(Value::Float(2.5f64.to_bits())),
        versionstamp: [0xab, 1, 0, 0, 0, 0, 0, 0, 0, 0, 0, 0xff],
    };
    let shown = V8KvEntry::from(entry);
    assert_eq!(shown.versionstamp, "ab01000000000000000000ff");
    assert!(matches!(shown.value, Some(V8Value::Float(b)) if b == 2.5f64.to_bits()));
    let check = V8KvCheck { key: shown.key, versionstamp: shown.versionstamp.into_bytes() };
    let check = KvCheck::from(check);
    assert_eq!(check.versionstamp, [0xab, 1, 0, 0, 0, 0, 0, 0, 0, 0, 0, 0xff]);
    let request = read_one_request(vec![V8KeyPart::String("q".to_string())]).0.remove(0);
    let outputs = snapshot_read(vec![(request, None)]);
    let entries = read_one_entries(outputs);
    assert_eq!(entries.len(), 1);
    assert_eq!(entries[0].versionstamp, "000000000000000000000000");
    assert!(entries[0].value.is_none());
}

#[test]
fn writes_from_javascript() {
    let mutation = |kind: &str, value: Option<V8Value>| V8KvMutation {
        key: vec![V8KeyPart::String("k".to_string())],
        kind: kind.to_string(),
        value,
    };
    let write = atomic_write_request(
        vec![V8KvCheck {
            key: vec![],
            versionstamp: b"0A0b00000000000000000000".to_vec(),
        }],
        vec![
            mutation("set", Some(V8Value::Bool(true))),
            mutation("delete", None),
            mutation("delete", Some(V8Value::Bool(true))),
            mutation("sum", Some(V8Value::V8(vec![]))),
            mutation("min", Some(V8Value::Bytes(vec![]))),
            mutation(
                "max",
                Some(V8Value::Int(BigInt { negative: false, magnitude: vec![3] })),
            ),
        ],
    );
    assert_eq!(write.checks[0].versionstamp, [10, 11, 0, 0, 0, 0, 0, 0, 0, 0, 0, 0]);
    let kinds: Vec<String> = write
        .mutations
        .iter()
        .map(|m| match &m.kind {
            MutationKind::Put(Value::Bool(true)) => "put",
            MutationKind::Delete => "delete",
            MutationKind::Sum(Value::V8(_)) => "sum",
            MutationKind::Min(Value::Bytes(_)) => "min",
            MutationKind::Max(Value::Int(_)) => "max",
            _ => "other",
        })
        .map(|s| s.to_string())
        .collect();
    assert_eq!(kinds, vec!["put", "delete", "delete", "sum", "min", "max"]);
}
