//! Atomic writes: what is done with the database, step by step, inside one
//! transaction.
use vstd::pervasive::unreached;
use vstd::prelude::*;
use crate::kv::codec::encode_key;
use crate::kv::codec::encode_value;
use crate::kv::codec::is_storable_key;
use crate::kv::codec::is_storable_value;
use crate::kv::codec::key_bytes;
use crate::kv::codec::law_versions_have_their_own_stamps;
use crate::kv::codec::readable_value;
use crate::kv::codec::stamp_of;
use crate::kv::codec::storable_key;
use crate::kv::codec::storable_value;
use crate::kv::codec::value_bytes;
use crate::kv::codec::value_of;
use crate::kv::codec::version_to_versionstamp;
use crate::kv::types::AtomicWrite;
use crate::kv::types::KeyPartView;
use crate::kv::types::KvCheck;
use crate::kv::types::KvMutation;
use crate::kv::types::MutationKind;
use crate::kv::types::MutationView;

verus! {

/// A row of the database.
#[verifier::ext_equal]
pub struct RowView {
    pub value: Seq<u8>,
    pub encoding: i64,
    pub version: i64,
}

/// What the database holds: the version of the last write, and a row for each
/// key.
#[verifier::ext_equal]
pub struct StoreView {
    pub data_version: i64,
    pub rows: Map<Seq<u8>, RowView>,
}

impl StoreView {
    /// No row is newer than the last write.
    pub open spec fn wf(self) -> bool {
        &&& 0 <= self.data_version
        &&& forall|k: Seq<u8>|
            self.rows.contains_key(k) ==> 0 < (#[trigger] self.rows[k]).version
                <= self.data_version
    }

    /// The version of a key: zero where it has no row.
    pub open spec fn version_of(self, key: Seq<u8>) -> i64 {
        if self.rows.contains_key(key) {
            self.rows[key].version
        } else {
            0
        }
    }
}

/// What a write does with a row.
#[derive(Debug)]
pub enum WriteAction {
    /// Read the version of a key.
    ReadVersion { key: Vec<u8> },
    /// Count the version of the database up, and read it.
    NextVersion,
    /// Store a value under a key.
    Store { key: Vec<u8>, value: Vec<u8>, encoding: i64, version: i64 },
    /// Delete a key.
    Delete { key: Vec<u8> },
    /// Commit what was done.
    Commit,
    /// The write is over: everything was done, or, where a condition did not
    /// hold, nothing is to be kept.
    Finish(bool),
}

/// What a write does with a row.
#[verifier::ext_equal]
pub enum ActionView {
    ReadVersion { key: Seq<u8> },
    NextVersion,
    Store { key: Seq<u8>, value: Seq<u8>, encoding: i64, version: i64 },
    Delete { key: Seq<u8> },
    Commit,
    Finish(bool),
}

impl View for WriteAction {
    type V = ActionView;

    open spec fn view(&self) -> ActionView {
        match self {
            WriteAction::ReadVersion { key } => ActionView::ReadVersion { key: key@ },
            WriteAction::NextVersion => ActionView::NextVersion,
            WriteAction::Store { key, value, encoding, version } => ActionView::Store {
                key: key@,
                value: value@,
                encoding: *encoding,
                version: *version,
            },
            WriteAction::Delete { key } => ActionView::Delete { key: key@ },
            WriteAction::Commit => ActionView::Commit,
            WriteAction::Finish(done) => ActionView::Finish(*done),
        }
    }
}

/// What came of an action.
#[derive(Clone, Copy, PartialEq, Eq, Structural, Debug)]
pub enum WriteEvent {
    /// The version of the key, where it has a row.
    Version(Option<i64>),
    /// The new version of the database.
    NewVersion(i64),
    /// It is done.
    Done,
}

/// How far a write has come.
#[derive(Clone, Copy, PartialEq, Eq, Structural, Debug)]
pub enum Phase {
    /// This condition is next.
    Checking(usize),
    /// All conditions hold.
    Counting,
    /// This change is next, at this version.
    Changing(usize, i64),
    /// All changes are made.
    Committing,
    /// The write is over.
    Finished(bool),
}

/// A condition that can be tested.
pub open spec fn testable(check: KvCheck) -> bool {
    storable_key(check.key@)
}

/// A change that can be made.
pub open spec fn possible(mutation: KvMutation) -> bool {
    &&& storable_key(mutation.key@)
    &&& match mutation.kind@ {
        MutationView::Put(value) => storable_value(value),
        MutationView::Delete => true,
        _ => false,
    }
}

/// All changes of a write can be made.
pub open spec fn all_possible(mutations: Seq<KvMutation>) -> bool {
    forall|i: int| 0 <= i < mutations.len() ==> possible(#[trigger] mutations[i])
}

/// The phase in which the condition with a number is next.
pub open spec fn checking(write: AtomicWrite, i: int) -> Phase {
    if i < write.checks@.len() {
        Phase::Checking(i as usize)
    } else {
        Phase::Counting
    }
}

/// The phase in which the change with a number is next.
pub open spec fn changing(write: AtomicWrite, i: int, version: i64) -> Phase {
    if i < write.mutations@.len() {
        Phase::Changing(i as usize, version)
    } else {
        Phase::Committing
    }
}

/// The change that a mutation makes at a version.
pub open spec fn change_of(mutation: KvMutation, version: i64) -> ActionView {
    let key = key_bytes(mutation.key@);
    match mutation.kind@ {
        MutationView::Put(value) => ActionView::Store {
            key,
            value: value_bytes(value).0,
            encoding: value_bytes(value).1,
            version,
        },
        _ => ActionView::Delete { key },
    }
}

/// What a write does in a phase.
pub open spec fn action_in(write: AtomicWrite, phase: Phase) -> ActionView {
    match phase {
        Phase::Checking(i) => ActionView::ReadVersion {
            key: key_bytes(write.checks@[i as int].key@),
        },
        Phase::Counting => ActionView::NextVersion,
        Phase::Changing(i, version) => change_of(write.mutations@[i as int], version),
        Phase::Committing => ActionView::Commit,
        Phase::Finished(done) => ActionView::Finish(done),
    }
}

/// An event can come of what a write does in a phase.
pub open spec fn fits(phase: Phase, event: WriteEvent) -> bool {
    match phase {
        Phase::Checking(_) => event is Version,
        Phase::Counting => event is NewVersion,
        Phase::Changing(_, _) => event is Done,
        Phase::Committing => event is Done,
        Phase::Finished(_) => false,
    }
}

/// The version of a key that has a row, or zero.
pub open spec fn version_or_zero(version: Option<i64>) -> i64 {
    match version {
        Some(version) => version,
        None => 0,
    }
}

/// The phase after an event.
pub open spec fn phase_after(write: AtomicWrite, phase: Phase, event: WriteEvent) -> Phase {
    match (phase, event) {
        (Phase::Checking(i), WriteEvent::Version(version)) => if stamp_of(version_or_zero(version))
            == write.checks@[i as int].versionstamp@ {
            checking(write, i + 1)
        } else {
            Phase::Finished(false)
        },
        (Phase::Counting, WriteEvent::NewVersion(version)) => changing(write, 0, version),
        (Phase::Changing(i, version), WriteEvent::Done) => changing(write, i + 1, version),
        (Phase::Committing, WriteEvent::Done) => Phase::Finished(true),
        _ => phase,
    }
}

/// Whether the version that a key has is the one of a stamp.
pub fn check_holds(version: Option<i64>, versionstamp: &[u8; 12]) -> (r: bool)
    ensures
        r == (stamp_of(version_or_zero(version)) == versionstamp@),
{
    let known: i64 = match version {
        Some(version) => version,
        None => 0,
    };
    let actual: [u8; 12] = version_to_versionstamp(known);
    let mut i: usize = 0;
    while i < 12
        invariant
            i <= 12,
            actual@ == stamp_of(version_or_zero(version)),
            forall|j: int| 0 <= j < i ==> actual@[j] == versionstamp@[j],
        decreases 12 - i,
    {
        if actual[i] != versionstamp[i] {
            return false;
        }
        i = i + 1;
    }
    assert(actual@ =~= versionstamp@);
    true
}

/// A write on its way.
pub struct WriteRun {
    write: AtomicWrite,
    phase: Phase,
}

impl WriteRun {
    /// The write.
    pub closed spec fn write(self) -> AtomicWrite {
        self.write
    }

    /// How far it has come.
    pub closed spec fn phase(self) -> Phase {
        self.phase
    }

    /// What is next is in the write.
    pub open spec fn wf(self) -> bool {
        match self.phase() {
            Phase::Checking(i) => i < self.write().checks@.len(),
            Phase::Changing(i, _) => i < self.write().mutations@.len(),
            _ => true,
        }
    }

    /// What is next can be done.
    pub open spec fn can_go_on(self) -> bool {
        match self.phase() {
            Phase::Checking(i) => testable(self.write().checks@[i as int]),
            Phase::Changing(i, _) => possible(self.write().mutations@[i as int]),
            _ => true,
        }
    }

    /// Whether what is next can be done.
    pub fn is_able(&self) -> (r: bool)
        requires
            self.wf(),
        ensures
            r == self.can_go_on(),
    {
        match self.phase {
            Phase::Checking(i) => is_storable_key(&self.write.checks[i].key),
            Phase::Changing(i, _) => {
                let mutation: &KvMutation = &self.write.mutations[i];
                is_storable_key(&mutation.key) && match &mutation.kind {
                    MutationKind::Put(value) => is_storable_value(value),
                    MutationKind::Delete => true,
                    _ => false,
                }
            },
            _ => true,
        }
    }

    /// Begins a write.
    pub fn new(write: AtomicWrite) -> (r: WriteRun)
        ensures
            r.wf(),
            r.write() == write,
            r.phase() == checking(write, 0),
    {
        let phase: Phase = if write.checks.len() > 0 {
            Phase::Checking(0)
        } else {
            Phase::Counting
        };
        WriteRun { write, phase }
    }

    /// What is to be done next.
    pub fn action(&self) -> (r: WriteAction)
        requires
            self.wf(),
            self.can_go_on(),
        ensures
            r@ == action_in(self.write(), self.phase()),
    {
        match self.phase {
            Phase::Checking(i) => {
                WriteAction::ReadVersion {
                    key: vstd::slice::slice_to_vec(encode_key(&self.write.checks[i].key)),
                }
            },
            Phase::Counting => WriteAction::NextVersion,
            Phase::Changing(i, version) => {
                let mutation: &KvMutation = &self.write.mutations[i];
                let key: Vec<u8> = vstd::slice::slice_to_vec(encode_key(&mutation.key));
                match &mutation.kind {
                    MutationKind::Put(value) => {
                        let (value, encoding) = encode_value(value);
                        WriteAction::Store { key, value, encoding, version }
                    },
                    MutationKind::Delete => WriteAction::Delete { key },
                    _ => unreached(),
                }
            },
            Phase::Committing => WriteAction::Commit,
            Phase::Finished(done) => WriteAction::Finish(done),
        }
    }

    /// Goes on after what was to be done.
    pub fn advance(self, event: WriteEvent) -> (r: WriteRun)
        requires
            self.wf(),
            fits(self.phase(), event),
        ensures
            r.wf(),
            r.write() == self.write(),
            r.phase() == phase_after(self.write(), self.phase(), event),
    {
        let checks: usize = self.write.checks.len();
        let mutations: usize = self.write.mutations.len();
        let phase: Phase = match (self.phase, event) {
            (Phase::Checking(i), WriteEvent::Version(version)) => {
                if !check_holds(version, &self.write.checks[i].versionstamp) {
                    Phase::Finished(false)
                } else if i + 1 < checks {
                    Phase::Checking(i + 1)
                } else {
                    Phase::Counting
                }
            },
            (Phase::Counting, WriteEvent::NewVersion(version)) => {
                if mutations > 0 {
                    Phase::Changing(0, version)
                } else {
                    Phase::Committing
                }
            },
            (Phase::Changing(i, version), WriteEvent::Done) => {
                if i + 1 < mutations {
                    Phase::Changing(i + 1, version)
                } else {
                    Phase::Committing
                }
            },
            (Phase::Committing, WriteEvent::Done) => Phase::Finished(true),
            _ => unreached(),
        };
        WriteRun { write: self.write, phase }
    }
}

/// A transaction: what was there before, and what it has made of it.
#[verifier::ext_equal]
pub struct TransactionView {
    pub committed: StoreView,
    pub current: StoreView,
}

/// What an action does to a transaction, and what comes of it.
pub open spec fn perform(tx: TransactionView, action: ActionView) -> (TransactionView, WriteEvent) {
    let current = tx.current;
    match action {
        ActionView::ReadVersion { key } => (
            tx,
            WriteEvent::Version(
                if current.rows.contains_key(key) {
                    Some(current.rows[key].version)
                } else {
                    None
                },
            ),
        ),
        ActionView::NextVersion => {
            let version = (current.data_version + 1) as i64;
            (
                TransactionView {
                    committed: tx.committed,
                    current: StoreView { data_version: version, rows: current.rows },
                },
                WriteEvent::NewVersion(version),
            )
        },
        ActionView::Store { key, value, encoding, version } => (
            TransactionView {
                committed: tx.committed,
                current: StoreView {
                    data_version: current.data_version,
                    rows: current.rows.insert(key, RowView { value, encoding, version }),
                },
            },
            WriteEvent::Done,
        ),
        ActionView::Delete { key } => (
            TransactionView {
                committed: tx.committed,
                current: StoreView {
                    data_version: current.data_version,
                    rows: current.rows.remove(key),
                },
            },
            WriteEvent::Done,
        ),
        ActionView::Commit => (
            TransactionView { committed: current, current },
            WriteEvent::Done,
        ),
        ActionView::Finish(_) => (tx, WriteEvent::Done),
    }
}

/// How many steps a write still has.
pub open spec fn steps_left(write: AtomicWrite, phase: Phase) -> int {
    match phase {
        Phase::Checking(i) => write.checks@.len() - i + write.mutations@.len() + 3,
        Phase::Counting => write.mutations@.len() as int + 2,
        Phase::Changing(i, _) => write.mutations@.len() - i + 1,
        Phase::Committing => 1,
        Phase::Finished(_) => 0,
    }
}

/// What a write leaves behind, and whether it was made, when it is carried on
/// from a phase.
pub open spec fn carried_out(tx: TransactionView, write: AtomicWrite, phase: Phase) -> (
    StoreView,
    bool,
)
    decreases steps_left(write, phase),
{
    match phase {
        Phase::Finished(done) => (tx.committed, done),
        _ => {
            let (after, event) = perform(tx, action_in(write, phase));
            let next = phase_after(write, phase, event);
            if 0 <= steps_left(write, next) < steps_left(write, phase) {
                carried_out(after, write, next)
            } else {
                (tx.committed, false)
            }
        },
    }
}

/// All conditions of a write hold.
pub open spec fn checks_hold(store: StoreView, checks: Seq<KvCheck>) -> bool {
    forall|i: int|
        0 <= i < checks.len() ==> stamp_of(store.version_of(key_bytes(checks[i].key@)))
            == (#[trigger] checks[i]).versionstamp@
}

/// The rows after the first `n` changes of a write.
pub open spec fn changed(
    rows: Map<Seq<u8>, RowView>,
    mutations: Seq<KvMutation>,
    version: i64,
    n: nat,
) -> Map<Seq<u8>, RowView>
    decreases n,
{
    if n == 0 {
        rows
    } else {
        let before = changed(rows, mutations, version, (n - 1) as nat);
        match change_of(mutations[n - 1], version) {
            ActionView::Store { key, value, encoding, version } => before.insert(
                key,
                RowView { value, encoding, version },
            ),
            ActionView::Delete { key } => before.remove(key),
            _ => before,
        }
    }
}

/// What a write makes of the database, and whether it was made: everything,
/// under a new version, where all conditions hold, else nothing.
pub open spec fn written(store: StoreView, write: AtomicWrite) -> (StoreView, bool) {
    if checks_hold(store, write.checks@) {
        let version = (store.data_version + 1) as i64;
        (
            StoreView {
                data_version: version,
                rows: changed(store.rows, write.mutations@, version, write.mutations@.len()),
            },
            true,
        )
    } else {
        (store, false)
    }
}

/// Carrying out the changes from one on makes all of them.
proof fn lemma_changes(store: StoreView, write: AtomicWrite, version: i64, i: int)
    requires
        0 <= i <= write.mutations@.len(),
        write.mutations@.len() <= usize::MAX,
    ensures
        ({
            let current = StoreView {
                data_version: version,
                rows: changed(store.rows, write.mutations@, version, i as nat),
            };
            let end = StoreView {
                data_version: version,
                rows: changed(
                    store.rows,
                    write.mutations@,
                    version,
                    write.mutations@.len(),
                ),
            };
            carried_out(
                TransactionView { committed: store, current },
                write,
                changing(write, i, version),
            ) == (end, true)
        }),
    decreases write.mutations@.len() - i,
{
    let current = StoreView {
        data_version: version,
        rows: changed(store.rows, write.mutations@, version, i as nat),
    };
    let tx = TransactionView { committed: store, current };
    if i == write.mutations@.len() {
        let after = TransactionView { committed: current, current };
        assert(carried_out(after, write, Phase::Finished(true)) == (current, true));
        assert(phase_after(write, Phase::Committing, WriteEvent::Done) == Phase::Finished(true));
        assert(carried_out(tx, write, Phase::Committing) == (current, true));
    } else {
        lemma_changes(store, write, version, i + 1);
        let next = StoreView {
            data_version: version,
            rows: changed(store.rows, write.mutations@, version, (i + 1) as nat),
        };
        let phase = Phase::Changing(i as usize, version);
        assert(perform(tx, action_in(write, phase)).0 == (TransactionView {
            committed: store,
            current: next,
        }));
    }
}

/// Carrying out the conditions from one on, where those before hold.
proof fn lemma_checks(store: StoreView, write: AtomicWrite, i: int)
    requires
        0 <= i <= write.checks@.len(),
        write.checks@.len() <= usize::MAX,
        write.mutations@.len() <= usize::MAX,
        forall|j: int|
            0 <= j < i ==> stamp_of(store.version_of(key_bytes(write.checks@[j].key@))) == (
            #[trigger] write.checks@[j]).versionstamp@,
    ensures
        carried_out(
            TransactionView { committed: store, current: store },
            write,
            checking(write, i),
        ) == written(store, write),
    decreases write.checks@.len() - i,
{
    let tx = TransactionView { committed: store, current: store };
    if i == write.checks@.len() {
        let version = (store.data_version + 1) as i64;
        lemma_changes(store, write, version, 0);
        assert(checks_hold(store, write.checks@));
        let counted = StoreView { data_version: version, rows: store.rows };
        assert(perform(tx, ActionView::NextVersion).0 == (TransactionView {
            committed: store,
            current: counted,
        }));
    } else {
        let check = write.checks@[i];
        let actual = store.version_of(key_bytes(check.key@));
        if stamp_of(actual) == check.versionstamp@ {
            lemma_checks(store, write, i + 1);
        } else {
            assert(!checks_hold(store, write.checks@));
            assert(carried_out(tx, write, Phase::Finished(false)) == (store, false));
        }
    }
}

/// Doing step by step what a write says, and committing where it says so, makes
/// the whole write where all its conditions hold, and else leaves the database
/// as it was.
pub proof fn law_write_is_atomic(store: StoreView, write: AtomicWrite)
    requires
        write.checks@.len() <= usize::MAX,
        write.mutations@.len() <= usize::MAX,
    ensures
        carried_out(
            TransactionView { committed: store, current: store },
            write,
            checking(write, 0),
        ) == written(store, write),
{
    lemma_checks(store, write, 0);
}

/// A write whose conditions do not all hold changes nothing.
pub proof fn law_refused_write_changes_nothing(store: StoreView, write: AtomicWrite)
    requires
        !written(store, write).1,
    ensures
        written(store, write).0 == store,
{
}

/// The change that the last mutation of a key makes, among the first `n`.
pub open spec fn last_change(mutations: Seq<KvMutation>, key: Seq<u8>, n: nat) -> Option<
    MutationView,
>
    decreases n,
{
    if n == 0 {
        None
    } else if key_bytes(mutations[n - 1].key@) == key {
        Some(mutations[n - 1].kind@)
    } else {
        last_change(mutations, key, (n - 1) as nat)
    }
}

/// After changes a key has the value that was last put, none where it was last
/// deleted, and else what it had.
proof fn lemma_changed(
    rows: Map<Seq<u8>, RowView>,
    mutations: Seq<KvMutation>,
    version: i64,
    n: nat,
    key: Seq<u8>,
)
    requires
        n <= mutations.len(),
        all_possible(mutations),
    ensures
        match last_change(mutations, key, n) {
            Some(MutationView::Put(value)) => {
                &&& changed(rows, mutations, version, n).contains_key(key)
                &&& changed(rows, mutations, version, n)[key] == (RowView {
                    value: value_bytes(value).0,
                    encoding: value_bytes(value).1,
                    version,
                })
            },
            Some(_) => !changed(rows, mutations, version, n).contains_key(key),
            None => {
                &&& changed(rows, mutations, version, n).contains_key(key) == rows.contains_key(key)
                &&& rows.contains_key(key) ==> changed(rows, mutations, version, n)[key]
                    == rows[key]
            },
        },
    decreases n,
{
    if n > 0 {
        lemma_changed(rows, mutations, version, (n - 1) as nat, key);
        assert(possible(mutations[n - 1]));
    }
}

/// A read after a write that was made finds, for every key, the value that the
/// write last put there, under the version of the write; nothing where it last
/// deleted the key; and what was there before where it did not touch the key.
pub proof fn law_read_after_write(store: StoreView, write: AtomicWrite, key: Seq<KeyPartView>)
    requires
        all_possible(write.mutations@),
        storable_key(key),
        written(store, write).1,
    ensures
        ({
            let after = written(store, write).0;
            let k = key_bytes(key);
            match last_change(write.mutations@, k, write.mutations@.len()) {
                Some(MutationView::Put(value)) => {
                    &&& after.rows.contains_key(k)
                    &&& readable_value(after.rows[k].value, after.rows[k].encoding)
                    &&& value_of(after.rows[k].value, after.rows[k].encoding) == value
                    &&& after.rows[k].version == after.data_version
                },
                Some(_) => !after.rows.contains_key(k),
                None => {
                    &&& after.rows.contains_key(k) == store.rows.contains_key(k)
                    &&& store.rows.contains_key(k) ==> after.rows[k] == store.rows[k]
                },
            }
        }),
{
    let version = (store.data_version + 1) as i64;
    let k = key_bytes(key);
    let n = write.mutations@.len();
    lemma_changed(store.rows, write.mutations@, version, n, k);
    lemma_last_change_possible(write.mutations@, k, n);
    if let Some(MutationView::Put(value)) = last_change(write.mutations@, k, n) {
        crate::kv::codec::law_stored_value_reads_back(value);
    }
}

/// What is last put is a value that can be stored.
proof fn lemma_last_change_possible(mutations: Seq<KvMutation>, key: Seq<u8>, n: nat)
    requires
        n <= mutations.len(),
        all_possible(mutations),
    ensures
        last_change(mutations, key, n) matches Some(MutationView::Put(value)) ==> storable_value(
            value,
        ),
    decreases n,
{
    if n > 0 {
        assert(possible(mutations[n - 1]));
        lemma_last_change_possible(mutations, key, (n - 1) as nat);
    }
}

/// Writes keep every row no newer than the last write.
pub proof fn law_writes_keep_order(store: StoreView, write: AtomicWrite)
    requires
        store.wf(),
        store.data_version < i64::MAX,
        written(store, write).1 ==> all_possible(write.mutations@),
    ensures
        written(store, write).0.wf(),
{
    if checks_hold(store, write.checks@) {
        let version = (store.data_version + 1) as i64;
        let after = written(store, write).0;
        assert forall|k: Seq<u8>| after.rows.contains_key(k) implies 0 < (
        #[trigger] after.rows[k]).version <= after.data_version by {
            lemma_changed(store.rows, write.mutations@, version, write.mutations@.len(), k);
            if last_change(write.mutations@, k, write.mutations@.len()) is None {
                assert(store.rows.contains_key(k));
                assert(0 < store.rows[k].version);
            }
        }
    }
}

/// A condition on the version that a key had before a write that changed the key
/// no longer holds after it: of two writes that each ask for the version they
/// both saw and put a value there, only the first is made.
pub proof fn law_stale_write_is_refused(
    store: StoreView,
    first: AtomicWrite,
    second: AtomicWrite,
    i: int,
)
    requires
        store.wf(),
        store.data_version < i64::MAX,
        all_possible(first.mutations@),
        written(store, first).1,
        0 <= i < second.checks@.len(),
        stamp_of(store.version_of(key_bytes(second.checks@[i].key@)))
            == second.checks@[i].versionstamp@,
        last_change(
            first.mutations@,
            key_bytes(second.checks@[i].key@),
            first.mutations@.len(),
        ) matches Some(MutationView::Put(_)),
    ensures
        !written(written(store, first).0, second).1,
{
    let check = second.checks@[i];
    let k = key_bytes(check.key@);
    let after = written(store, first).0;
    let version = (store.data_version + 1) as i64;
    lemma_changed(store.rows, first.mutations@, version, first.mutations@.len(), k);
    assert(after.version_of(k) == version);
    if store.rows.contains_key(k) {
        assert(store.rows[k].version <= store.data_version);
    }
    if checks_hold(after, second.checks@) {
        assert(stamp_of(after.version_of(k)) == check.versionstamp@);
        law_versions_have_their_own_stamps(version, store.version_of(k));
    }
}

/// A write that asks for the version of a key and puts a value there is made once:
/// repeated, it is refused, and changes nothing.
pub proof fn law_repeated_write_is_refused(store: StoreView, write: AtomicWrite, i: int)
    requires
        store.wf(),
        store.data_version < i64::MAX,
        all_possible(write.mutations@),
        written(store, write).1,
        0 <= i < write.checks@.len(),
        last_change(
            write.mutations@,
            key_bytes(write.checks@[i].key@),
            write.mutations@.len(),
        ) matches Some(MutationView::Put(_)),
    ensures
        ({
            let after = written(store, write).0;
            written(after, write) == (after, false)
        }),
{
    assert(stamp_of(store.version_of(key_bytes(write.checks@[i].key@)))
        == write.checks@[i].versionstamp@);
    law_stale_write_is_refused(store, write, write, i);
}

} // verus!
