//! The database in SQLite: its statements, its schema and its reads.
use vstd::prelude::*;
use crate::kv::codec::decode_value;
use crate::kv::codec::encode_key;
use crate::kv::codec::key_bytes;
use crate::kv::codec::readable_value;
use crate::kv::codec::stamp_of;
use crate::kv::codec::storable_key;
use crate::kv::codec::value_of;
use crate::kv::codec::version_to_versionstamp;
use crate::kv::types::EntryView;
use crate::kv::types::Key;
use crate::kv::types::KeyPartView;
use crate::kv::types::KvEntry;
use crate::kv::types::ReadRange;
use crate::kv::types::ReadRangeOutput;
use crate::kv::types::Value;
use crate::kv::types::AtomicWrite;
use crate::kv::types::MutationView;
use crate::kv::write::all_possible;
use crate::kv::write::last_change;
use crate::kv::write::law_read_after_write;
use crate::kv::write::written;
use crate::kv::write::RowView;
use crate::kv::write::StoreView;
use crate::text::opt_text;

verus! {

pub const STATEMENT_INC_AND_GET_DATA_VERSION: &'static str =
    "update data_version set version = version + 1 where k = 0 returning version";

pub const STATEMENT_KV_POINT_GET: &'static str =
    "select v, v_encoding, version from kv where k = ?";

pub const STATEMENT_KV_POINT_GET_VERSION_ONLY: &'static str =
    "select version from kv where k = ?";

pub const STATEMENT_KV_POINT_SET: &'static str =
    "insert into kv (k, v, v_encoding, version) values (:k, :v, :v_encoding, :version) on conflict(k) do update set v = :v, v_encoding = :v_encoding, version = :version";

pub const STATEMENT_KV_POINT_DELETE: &'static str = "delete from kv where k = ?";

pub const STATEMENT_CREATE_MIGRATION_TABLE: &'static str =
    "
create table if not exists migration_state(
  k integer not null primary key,
  version integer not null
)
";

pub const STATEMENT_GET_MIGRATION_VERSION: &'static str =
    "select version from migration_state where k = 0";

pub const STATEMENT_SET_MIGRATION_VERSION: &'static str =
    "replace into migration_state (k, version) values(?, ?)";

/// The tables for keys and their versions.
pub const MIGRATION_KV: &'static str =
    "
create table data_version (
  k integer primary key,
  version integer not null
);
insert into data_version (k, version) values (0, 0);
create table kv (
  k blob primary key,
  v blob not null,
  v_encoding integer not null,
  version integer not null
) without rowid;
";

/// The tables for the queue.
pub const MIGRATION_QUEUE: &'static str =
    "
create table queue (
  ts integer not null,
  id text not null,
  data text not null,
  remaining_attempts integer not null,

  primary key (ts, id)
);
create table queue_running(
  deadline integer not null,
  id text not null,
  data text not null,
  remaining_attempts integer not null,

  primary key (deadline, id)
);
create table queue_undelivered(
  ts integer not null,
  id text not null,
  data text not null,

  primary key (ts, id)
);
";

/// How many migrations there are.
pub const MIGRATION_COUNT: usize = 2;

/// The migrations that a database still needs, by the version that each leads
/// to: those above its own, in order.
pub open spec fn missing_migrations(current_version: nat) -> Seq<(nat, Seq<char>)> {
    if current_version == 0 {
        seq![(1nat, MIGRATION_KV@), (2nat, MIGRATION_QUEUE@)]
    } else if current_version == 1 {
        seq![(2nat, MIGRATION_QUEUE@)]
    } else {
        Seq::empty()
    }
}

/// What a list of migrations says.
pub open spec fn migrations_view(list: Seq<(usize, &'static str)>) -> Seq<(nat, Seq<char>)> {
    Seq::new(list.len(), |i: int| (list[i].0 as nat, list[i].1@))
}

/// The migrations that a database still needs.
pub fn pending_migrations(current_version: usize) -> (r: Vec<(usize, &'static str)>)
    ensures
        migrations_view(r@) == missing_migrations(current_version as nat),
{
    let all: [&'static str; 2] = [MIGRATION_KV, MIGRATION_QUEUE];
    let mut pending: Vec<(usize, &'static str)> = Vec::new();
    let mut i: usize = 0;
    while i < MIGRATION_COUNT
        invariant
            i <= 2,
            all@[0]@ == MIGRATION_KV@,
            all@[1]@ == MIGRATION_QUEUE@,
            i == 0 ==> pending@.len() == 0,
            i == 1 ==> migrations_view(pending@) =~= if current_version == 0 {
                seq![(1nat, MIGRATION_KV@)]
            } else {
                Seq::empty()
            },
            i == 2 ==> migrations_view(pending@) =~= missing_migrations(current_version as nat),
        decreases 2 - i,
    {
        let version: usize = i + 1;
        let ghost before = pending@;
        if version > current_version {
            pending.push((version, all[i]));
            assert(migrations_view(pending@) =~= migrations_view(before).push(
                (version as nat, all@[i as int]@),
            ));
        } else {
            assert(migrations_view(before) =~= migrations_view(pending@));
        }
        i = i + 1;
    }
    pending
}

/// The version of a database after its migrations.
pub open spec fn version_after(current_version: nat) -> nat {
    let missing = missing_migrations(current_version);
    if missing.len() == 0 {
        current_version
    } else {
        missing.last().0
    }
}

/// After its migrations a database needs none, and the versions of those it
/// needed follow one another from its own.
pub proof fn law_migrations_are_complete(current_version: nat)
    ensures
        missing_migrations(version_after(current_version)).len() == 0,
        forall|i: int|
            0 <= i < missing_migrations(current_version).len() ==> (
            #[trigger] missing_migrations(current_version)[i]).0 == current_version + i + 1,
{
}

/// Opens databases, in a directory where no path is given.
#[derive(Debug)]
pub struct SqliteDbHandler {
    pub default_storage_dir: Option<String>,
}

/// Where a database is.
#[derive(Debug)]
pub enum DbLocation {
    /// In the file at this path.
    File(String),
    /// In a file of its own in this directory, which may have to be made.
    Directory(String),
    /// In memory.
    Memory,
}

/// The name of the file in the directory.
pub const DEFAULT_FILE_NAME: &'static str = "state.sqlite3";

/// Where the database for a path is: at the path, else in the directory, else in
/// memory.
pub open spec fn is_location(
    location: DbLocation,
    path: Option<Seq<char>>,
    directory: Option<Seq<char>>,
) -> bool {
    match (path, directory) {
        (Some(path), _) => location matches DbLocation::File(p) && p@ == path,
        (None, Some(dir)) => location matches DbLocation::Directory(d) && d@ == dir,
        (None, None) => location is Memory,
    }
}

/// What came of the last step in opening a database.
#[derive(Debug)]
pub enum OpenEvent {
    /// Nothing was done yet.
    Start,
    /// It is connected, and this is the version that is recorded in it, where one
    /// is.
    Version(Option<usize>),
}

/// What is done next in opening a database.
#[derive(Debug)]
pub enum OpenStep {
    /// It is connected, there, and its version is read.
    Connect(DbLocation),
    /// These migrations are run, in order, and the version of each is recorded.
    Migrate(Vec<(usize, &'static str)>),
}

/// The version of a database; one without a record has none of the migrations.
pub open spec fn recorded_version(version: Option<usize>) -> nat {
    match version {
        Some(version) => version as nat,
        None => 0,
    }
}

impl SqliteDbHandler {
    /// Where the database for a path is.
    pub fn location(&self, path: Option<String>) -> (r: DbLocation)
        ensures
            is_location(r, opt_text(path), opt_text(self.default_storage_dir)),
    {
        match path {
            Some(path) => DbLocation::File(path),
            None => match &self.default_storage_dir {
                Some(dir) => DbLocation::Directory(dir.clone()),
                None => DbLocation::Memory,
            },
        }
    }

    /// What is done next in opening the database for a path.
    pub fn open(&self, path: Option<String>, event: OpenEvent) -> (r: OpenStep)
        ensures
            match event {
                OpenEvent::Start => {
                    &&& r matches OpenStep::Connect(location)
                    &&& is_location(location, opt_text(path), opt_text(self.default_storage_dir))
                },
                OpenEvent::Version(version) => {
                    &&& r matches OpenStep::Migrate(list)
                    &&& migrations_view(list@) == missing_migrations(recorded_version(version))
                },
            },
    {
        match event {
            OpenEvent::Start => OpenStep::Connect(self.location(path)),
            OpenEvent::Version(version) => {
                let current_version: usize = match version {
                    Some(version) => version,
                    None => 0,
                };
                OpenStep::Migrate(pending_migrations(current_version))
            },
        }
    }
}

/// A row as it is read.
#[derive(Debug)]
pub struct Row {
    pub value: Vec<u8>,
    pub encoding: i64,
    pub version: i64,
}

impl View for Row {
    type V = RowView;

    open spec fn view(&self) -> RowView {
        RowView { value: self.value@, encoding: self.encoding, version: self.version }
    }
}

/// A read of one key.
pub open spec fn is_point_read(request: ReadRange) -> bool {
    request.end is None && request.limit == 1 && storable_key(request.start@)
}

/// The entry for a key with an optional row.
pub open spec fn entry_of(key: Seq<KeyPartView>, row: Option<RowView>) -> EntryView {
    match row {
        Some(row) => EntryView {
            key,
            value: Some(value_of(row.value, row.encoding)),
            versionstamp: stamp_of(row.version),
        },
        None => EntryView { key, value: None, versionstamp: stamp_of(0) },
    }
}

/// What an optional row says.
pub open spec fn opt_row(row: Option<Row>) -> Option<RowView> {
    match row {
        Some(row) => Some(row@),
        None => None,
    }
}

/// The stored key of a read of one key.
pub fn point_key(request: &ReadRange) -> (r: &[u8])
    requires
        is_point_read(*request),
    ensures
        r@ == key_bytes(request.start@),
{
    encode_key(&request.start)
}

/// The entry for a key, given its row where there is one.
pub fn point_entry(key: Key, row: Option<Row>) -> (r: KvEntry)
    requires
        row matches Some(row) ==> readable_value(row.value@, row.encoding),
    ensures
        r@ == entry_of(key@, opt_row(row)),
{
    let (value, version): (Option<Value>, i64) = match row {
        Some(row) => (Some(decode_value(row.value, row.encoding)), row.version),
        None => (None, 0),
    };
    KvEntry { key, value, versionstamp: version_to_versionstamp(version) }
}

/// The entries for reads of one key each, given the row of each.
pub fn snapshot_read(reads: Vec<(ReadRange, Option<Row>)>) -> (r: Vec<ReadRangeOutput>)
    requires
        forall|i: int| 0 <= i < reads@.len() ==> is_point_read((#[trigger] reads@[i]).0),
        forall|i: int|
            0 <= i < reads@.len() ==> ((#[trigger] reads@[i]).1 matches Some(row)
                ==> readable_value(row.value@, row.encoding)),
    ensures
        r@.len() == reads@.len(),
        forall|i: int|
            0 <= i < reads@.len() ==> {
                &&& (#[trigger] r@[i]).entries@.len() == 1
                &&& r@[i].entries@[0]@ == entry_of(reads@[i].0.start@, opt_row(reads@[i].1))
            },
{
    let mut responses: Vec<ReadRangeOutput> = Vec::new();
    for read in iter: reads.into_iter()
        invariant
            iter.seq() == reads@,
            forall|i: int|
                0 <= i < reads@.len() ==> ((#[trigger] reads@[i]).1 matches Some(row)
                    ==> readable_value(row.value@, row.encoding)),
            responses@.len() == iter.index(),
            forall|j: int|
                0 <= j < iter.index() ==> {
                    &&& (#[trigger] responses@[j]).entries@.len() == 1
                    &&& responses@[j].entries@[0]@ == entry_of(
                        reads@[j].0.start@,
                        opt_row(reads@[j].1),
                    )
                },
    {
        assert(read == reads@[iter.index()]);
        let (request, row) = read;
        let mut entries: Vec<KvEntry> = Vec::new();
        entries.push(point_entry(request.start, row));
        responses.push(ReadRangeOutput { entries });
    }
    responses
}

/// What a file holds: how far it was migrated, what is in the tables for keys,
/// where they were made, and whether the tables for the queue were.
#[verifier::ext_equal]
pub struct DatabaseView {
    pub version: nat,
    pub store: Option<StoreView>,
    pub has_queue: bool,
}

impl DatabaseView {
    /// What the migrations before its version make is there, and what the others
    /// make is not.
    pub open spec fn wf(self) -> bool {
        &&& self.store is Some <==> self.version >= 1
        &&& self.has_queue <==> self.version >= 2
    }
}

/// What a file holds after the migration that leads to a version: the first makes
/// the tables for keys, which are empty, and the second those for the queue.
pub open spec fn migrated(db: DatabaseView, version: nat) -> DatabaseView {
    if version == 1 {
        let store = StoreView { data_version: 0, rows: Map::empty() };
        DatabaseView { version, store: Some(store), has_queue: db.has_queue }
    } else {
        DatabaseView { version, store: db.store, has_queue: true }
    }
}

/// What a file holds after the first `n` of the migrations that it needs.
pub open spec fn after_migrations(db: DatabaseView, n: nat) -> DatabaseView
    decreases n,
{
    if n == 0 {
        db
    } else {
        migrated(
            after_migrations(db, (n - 1) as nat),
            missing_migrations(db.version)[n - 1].0,
        )
    }
}

/// What a file holds once it was opened.
pub open spec fn opened(db: DatabaseView) -> DatabaseView {
    after_migrations(db, missing_migrations(db.version).len())
}

/// A file that was opened has all tables, and its rows are those it had; opening
/// it again changes nothing.
pub proof fn law_reopening_keeps_rows(db: DatabaseView)
    requires
        db.wf(),
    ensures
        opened(db).wf(),
        opened(db).version >= 2,
        db.store is Some ==> opened(db).store == db.store,
        db.store is None ==> opened(db).store == Some(
            StoreView { data_version: 0, rows: Map::empty() },
        ),
        opened(opened(db)) == opened(db),
{
    reveal_with_fuel(after_migrations, 3);
}

/// The row of a key in a store.
pub open spec fn row_of(store: StoreView, key: Seq<u8>) -> Option<RowView> {
    if store.rows.contains_key(key) {
        Some(store.rows[key])
    } else {
        None
    }
}

/// The entry that is read for a key.
pub open spec fn entry_in(store: StoreView, key: Seq<KeyPartView>) -> EntryView {
    entry_of(key, row_of(store, key_bytes(key)))
}

/// A read gives back what the last write that changed the key put there, under
/// the stamp of that write; no value where it deleted the key.
pub proof fn law_entry_after_write(store: StoreView, write: AtomicWrite, key: Seq<KeyPartView>)
    requires
        all_possible(write.mutations@),
        storable_key(key),
        written(store, write).1,
    ensures
        ({
            let after = written(store, write).0;
            match last_change(write.mutations@, key_bytes(key), write.mutations@.len()) {
                Some(MutationView::Put(value)) => entry_in(after, key) == (EntryView {
                    key,
                    value: Some(value),
                    versionstamp: stamp_of(after.data_version),
                }),
                Some(_) => entry_in(after, key) == (EntryView {
                    key,
                    value: None,
                    versionstamp: stamp_of(0),
                }),
                None => entry_in(after, key) == entry_in(store, key),
            }
        }),
{
    law_read_after_write(store, write, key);
}

/// A write whose conditions are the stamps that were just read is made.
pub proof fn law_fresh_stamps_are_accepted(store: StoreView, write: AtomicWrite)
    requires
        forall|i: int|
            0 <= i < write.checks@.len() ==> (#[trigger] write.checks@[i]).versionstamp@
                == entry_in(store, write.checks@[i].key@).versionstamp,
    ensures
        written(store, write).1,
{
    assert forall|i: int| 0 <= i < write.checks@.len() implies stamp_of(
        store.version_of(key_bytes(write.checks@[i].key@)),
    ) == (#[trigger] write.checks@[i]).versionstamp@ by {
        let row = row_of(store, key_bytes(write.checks@[i].key@));
        assert(row is Some ==> row->0.version == store.version_of(
            key_bytes(write.checks@[i].key@),
        ));
    }
}

} // verus!
