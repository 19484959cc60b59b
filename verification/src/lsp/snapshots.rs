//! The texts of documents at the versions that the compiler has seen.
use vstd::prelude::*;
use crate::text::str_eq;

verus! {

/// The text of a document at a version.
struct Entry {
    specifier: String,
    version: String,
    content: String,
}

impl Entry {
    spec fn key(self) -> (Seq<char>, Seq<char>) {
        (self.specifier@, self.version@)
    }
}

/// The texts of documents, by specifier and version.
pub struct Snapshots {
    entries: Vec<Entry>,
}

/// The map that a list of entries stands for.
spec fn entries_map(entries: Seq<Entry>) -> Map<(Seq<char>, Seq<char>), Seq<char>>
    decreases entries.len(),
{
    if entries.len() == 0 {
        Map::empty()
    } else {
        entries_map(entries.drop_last()).insert(entries.last().key(), entries.last().content@)
    }
}

impl View for Snapshots {
    type V = Map<(Seq<char>, Seq<char>), Seq<char>>;

    closed spec fn view(&self) -> Map<(Seq<char>, Seq<char>), Seq<char>> {
        entries_map(self.entries@)
    }
}

/// No two entries have the same key.
spec fn distinct(entries: Seq<Entry>) -> bool {
    forall|i: int, j: int| 0 <= i < j < entries.len() ==> entries[i].key() != entries[j].key()
}

/// What the map says of a key is what the entry with that key says.
proof fn lemma_entries_map(entries: Seq<Entry>, key: (Seq<char>, Seq<char>))
    requires
        distinct(entries),
    ensures
        entries_map(entries).contains_key(key) <==> exists|i: int|
            0 <= i < entries.len() && entries[i].key() == key,
        forall|i: int|
            0 <= i < entries.len() && entries[i].key() == key ==> entries_map(entries)[key]
                == #[trigger] entries[i].content@,
    decreases entries.len(),
{
    if entries.len() > 0 {
        let shorter = entries.drop_last();
        assert(distinct(shorter)) by {
            assert forall|i: int, j: int| 0 <= i < j < shorter.len() implies shorter[i].key()
                != shorter[j].key() by {
                assert(entries[i].key() != entries[j].key());
            }
        }
        lemma_entries_map(shorter, key);
        let last = entries.len() - 1;
        if entries[last].key() == key {
            assert(entries_map(entries).contains_key(key));
        } else {
            if entries_map(entries).contains_key(key) {
                let i = choose|i: int| 0 <= i < shorter.len() && shorter[i].key() == key;
                assert(entries[i].key() == key);
            }
            if exists|i: int| 0 <= i < entries.len() && entries[i].key() == key {
                let i = choose|i: int| 0 <= i < entries.len() && entries[i].key() == key;
                assert(shorter[i].key() == key);
            }
        }
        assert forall|i: int|
            0 <= i < entries.len() && entries[i].key() == key implies entries_map(entries)[key]
            == #[trigger] entries[i].content@ by {
            if i < last {
                assert(shorter[i].content@ == entries[i].content@);
                assert(entries[i].key() != entries[last].key());
            }
        }
    }
}

impl Snapshots {
    /// No two texts are kept for the same document and version.
    pub closed spec fn wf(&self) -> bool {
        distinct(self.entries@)
    }

    /// No texts yet.
    pub fn new() -> (r: Snapshots)
        ensures
            r.wf(),
            r@ == Map::<(Seq<char>, Seq<char>), Seq<char>>::empty(),
    {
        Snapshots { entries: Vec::new() }
    }

    /// The index of the entry with a key, or the number of entries.
    fn find(&self, specifier: &str, version: &str) -> (r: usize)
        ensures
            r <= self.entries@.len(),
            r < self.entries@.len() ==> self.entries@[r as int].key() == (specifier@, version@),
            r == self.entries@.len() ==> forall|i: int|
                0 <= i < self.entries@.len() ==> self.entries@[i].key() != (specifier@, version@),
    {
        let mut i: usize = 0;
        while i < self.entries.len() && !(str_eq(self.entries[i].specifier.as_str(), specifier)
            && str_eq(self.entries[i].version.as_str(), version))
            invariant
                i <= self.entries@.len(),
                forall|j: int| 0 <= j < i ==> self.entries@[j].key() != (specifier@, version@),
            decreases self.entries.len() - i,
        {
            i = i + 1;
        }
        i
    }

    /// The text of a document at a version.
    pub fn get(&self, specifier: &str, version: &str) -> (r: Option<&String>)
        requires
            self.wf(),
        ensures
            match r {
                Some(content) => self@.contains_key((specifier@, version@)) && self@[(
                    specifier@,
                    version@,
                )] == content@,
                None => !self@.contains_key((specifier@, version@)),
            },
    {
        proof {
            lemma_entries_map(self.entries@, (specifier@, version@));
        }
        let i: usize = self.find(specifier, version);
        if i < self.entries.len() {
            Some(&self.entries[i].content)
        } else {
            None
        }
    }

    /// Whether the text of a document at a version is there.
    pub fn contains_key(&self, specifier: &str, version: &str) -> (r: bool)
        requires
            self.wf(),
        ensures
            r == self@.contains_key((specifier@, version@)),
    {
        self.get(specifier, version).is_some()
    }

    /// Drops the text of a document at a version.
    pub fn remove(&mut self, specifier: &str, version: &str)
        requires
            old(self).wf(),
        ensures
            final(self).wf(),
            final(self)@ == old(self)@.remove((specifier@, version@)),
    {
        let i: usize = self.find(specifier, version);
        let ghost before = self.entries@;
        let ghost key = (specifier@, version@);
        if i < self.entries.len() {
            proof {
                lemma_remove(before, i as int);
            }
            let _ = self.entries.remove(i);
        } else {
            proof {
                lemma_entries_map(before, key);
                assert(self@ =~= self@.remove(key));
            }
        }
    }

    /// Keeps the text of a document at a version, in place of an earlier one.
    pub fn insert(&mut self, specifier: String, version: String, content: String)
        requires
            old(self).wf(),
        ensures
            final(self).wf(),
            final(self)@ == old(self)@.insert((specifier@, version@), content@),
    {
        let ghost key = (specifier@, version@);
        let ghost before = self@;
        self.remove(specifier.as_str(), version.as_str());
        proof {
            lemma_entries_map(self.entries@, key);
        }
        let ghost entries = self.entries@;
        let entry: Entry = Entry { specifier, version, content };
        proof {
            assert(entries.push(entry).drop_last() =~= entries);
            assert(before.remove(key).insert(key, content@) =~= before.insert(key, content@));
            assert forall|i: int, j: int|
                0 <= i < j < entries.push(entry).len() implies entries.push(entry)[i].key()
                != entries.push(entry)[j].key() by {
                if j == entries.len() {
                    assert(!entries_map(entries).contains_key(key));
                }
            }
        }
        self.entries.push(entry);
    }
}

/// Taking an entry out of the list takes its key out of the map.
proof fn lemma_remove(entries: Seq<Entry>, i: int)
    requires
        distinct(entries),
        0 <= i < entries.len(),
    ensures
        distinct(entries.remove(i)),
        entries_map(entries.remove(i)) == entries_map(entries).remove(entries[i].key()),
{
    let rest = entries.remove(i);
    let key = entries[i].key();
    assert forall|a: int, b: int| 0 <= a < b < rest.len() implies rest[a].key()
        != rest[b].key() by {
        let x = if a < i { a } else { a + 1 };
        let y = if b < i { b } else { b + 1 };
        assert(entries[x].key() != entries[y].key());
    }
    let left = entries_map(rest);
    let right = entries_map(entries).remove(key);
    assert forall|k: (Seq<char>, Seq<char>)|
        #![trigger left.dom().contains(k)]
        #![trigger right.dom().contains(k)]
        #![trigger left[k]]
        left.dom().contains(k) == right.dom().contains(k) && (left.dom().contains(k) ==> left[k]
            == right[k]) by {
        lemma_entries_map(rest, k);
        lemma_entries_map(entries, k);
        if left.contains_key(k) {
            let a = choose|a: int| 0 <= a < rest.len() && rest[a].key() == k;
            let x = if a < i { a } else { a + 1 };
            assert(entries[x] == rest[a]);
            assert(entries[x].key() != entries[i].key()) by {
                if x < i {
                    assert(entries[x].key() != entries[i].key());
                } else {
                    assert(entries[i].key() != entries[x].key());
                }
            }
            assert(left[k] == rest[a].content@);
            assert(entries_map(entries)[k] == entries[x].content@);
        }
        if right.contains_key(k) {
            let x = choose|x: int| 0 <= x < entries.len() && entries[x].key() == k;
            let a = if x < i { x } else { x - 1 };
            assert(rest[a] == entries[x]);
        }
    }
    assert(left =~= right);
}

} // verus!
