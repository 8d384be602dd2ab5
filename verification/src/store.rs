//! A model of the upload directory.
//!
//! The directory holds at most one file per name, and creating a file under
//! an existing name replaces its content. `Store` models that as a map from
//! storage key to bytes, kept in memory as the ordered log of writes; its
//! view is the map the log amounts to, later writes shadowing earlier ones.
//! The lemmas state what the service's routes see of the directory: how many
//! files an upload leaves, what a collision leaves, and what a read of a
//! stored or of an absent key returns.

use vstd::prelude::*;
use crate::key::spec_key;
use crate::timestamp::Timestamp;
use crate::upload::{copy_bytes, FileWrite};

verus! {

/// The writes of an accepted upload plan as key/content values.
pub open spec fn writes_view(ws: Seq<FileWrite>) -> Seq<(Seq<char>, Seq<u8>)> {
    ws.map(|i: int, w: FileWrite| (w.key@, w.data@))
}

/// The map a log of writes amounts to: each write inserts its key, and a
/// later write under the same key shadows an earlier one.
pub open spec fn entries_map(s: Seq<(String, Vec<u8>)>) -> Map<Seq<char>, Seq<u8>>
    decreases s.len(),
{
    if s.len() == 0 {
        Map::empty()
    } else {
        entries_map(s.drop_last()).insert(s.last().0@, s.last().1@)
    }
}

/// The same, over key and content values directly: the state of a directory
/// after a sequence of file writes.
pub open spec fn apply_writes(
    m: Map<Seq<char>, Seq<u8>>,
    writes: Seq<(Seq<char>, Seq<u8>)>,
) -> Map<Seq<char>, Seq<u8>>
    decreases writes.len(),
{
    if writes.len() == 0 {
        m
    } else {
        apply_writes(m, writes.drop_last()).insert(writes.last().0, writes.last().1)
    }
}

/// An in-memory image of the upload directory: the log of completed writes.
pub struct Store {
    entries: Vec<(String, Vec<u8>)>,
}

impl View for Store {
    type V = Map<Seq<char>, Seq<u8>>;

    closed spec fn view(&self) -> Map<Seq<char>, Seq<u8>> {
        entries_map(self.entries@)
    }
}

/// If no write at or after position `i` carries key `k`, the log's map at
/// `k` is decided by the writes before `i` alone.
proof fn lemma_absent_suffix(s: Seq<(String, Vec<u8>)>, i: int, k: Seq<char>)
    requires
        0 <= i <= s.len(),
        forall|j: int| i <= j < s.len() ==> (#[trigger] s[j]).0@ != k,
    ensures
        entries_map(s).contains_key(k) == entries_map(s.take(i)).contains_key(k),
        entries_map(s).contains_key(k) ==> entries_map(s)[k] == entries_map(s.take(i))[k],
    decreases s.len() - i,
{
    if i == s.len() {
        assert(s.take(i) =~= s);
    } else {
        let prefix = s.drop_last();
        assert(s.last() == s[s.len() - 1]);
        lemma_absent_suffix(prefix, i, k);
        assert(prefix.take(i) =~= s.take(i));
    }
}

impl Store {
    /// An empty directory.
    pub fn new() -> (r: Store)
        ensures
            r@ == Map::<Seq<char>, Seq<u8>>::empty(),
    {
        let r = Store { entries: Vec::new() };
        proof {
            assert(r.entries@.len() == 0);
        }
        r
    }

    /// Creates the file named `key` with content `data`, replacing any file
    /// of that name.
    pub fn write(&mut self, key: String, data: Vec<u8>)
        ensures
            final(self)@ == old(self)@.insert(key@, data@),
    {
        let ghost s = self.entries@;
        self.entries.push((key, data));
        proof {
            assert(self.entries@.drop_last() =~= s);
        }
    }

    /// Looks the file named `key` up: its bytes if it exists, `None` if it
    /// does not — the read path behind the static-file route, which answers
    /// 404 exactly when the key is absent.
    pub fn read(&self, key: &String) -> (r: Option<&Vec<u8>>)
        ensures
            r matches Some(v) ==> self@.contains_key(key@) && v@ == self@[key@],
            r is None ==> !self@.contains_key(key@),
    {
        let mut i: usize = self.entries.len();
        while i > 0
            invariant
                i <= self.entries@.len(),
                forall|j: int|
                    i <= j < self.entries@.len() ==> (#[trigger] self.entries@[j]).0@ != key@,
            decreases i,
        {
            i = i - 1;
            if self.entries[i].0.eq(key) {
                proof {
                    let s = self.entries@;
                    lemma_absent_suffix(s, i + 1, key@);
                    assert(s.take(i + 1).drop_last() =~= s.take(i as int));
                    assert(s.take(i + 1).last() == s[i as int]);
                }
                return Some(&self.entries[i].1);
            }
        }
        proof {
            let s = self.entries@;
            lemma_absent_suffix(s, 0, key@);
            assert(s.take(0) =~= Seq::<(String, Vec<u8>)>::empty());
        }
        None
    }

    /// Performs an accepted plan's writes in arrival order: the directory
    /// afterwards is the old directory with every planned file created,
    /// later writes shadowing earlier ones.
    pub fn perform_writes(&mut self, writes: &Vec<FileWrite>)
        ensures
            final(self)@ == apply_writes(old(self)@, writes_view(writes@)),
    {
        let mut i: usize = 0;
        while i < writes.len()
            invariant
                i <= writes@.len(),
                self@ == apply_writes(old(self)@, writes_view(writes@).take(i as int)),
            decreases writes@.len() - i,
        {
            let key = writes[i].key.clone();
            let data = copy_bytes(&writes[i].data);
            self.write(key, data);
            i = i + 1;
            proof {
                let wv = writes_view(writes@);
                assert(wv.take(i as int).drop_last() =~= wv.take(i as int - 1));
                assert(wv.take(i as int).last() == wv[i as int - 1]);
            }
        }
        proof {
            assert(writes_view(writes@).take(writes@.len() as int) =~= writes_view(writes@));
        }
    }
}

/// Two parts carrying the same timestamp, category and file name are stored
/// under the same key, so the later write overwrites the earlier one: the
/// directory afterwards holds a single file under that key, with the bytes
/// of the later part, exactly as if the earlier part had never been written.
pub proof fn lemma_same_key_overwrites(
    m: Map<Seq<char>, Seq<u8>>,
    ts: Timestamp,
    category: Seq<char>,
    file_name: Seq<char>,
    first: Seq<u8>,
    second: Seq<u8>,
)
    ensures
        ({
            let k = spec_key(ts, category, file_name);
            &&& m.insert(k, first).insert(k, second) == m.insert(k, second)
            &&& m.insert(k, first).insert(k, second)[k] == second
            &&& m.insert(k, first).insert(k, second).dom() == m.dom().insert(k)
        }),
{
    let k = spec_key(ts, category, file_name);
    assert(m.insert(k, first).insert(k, second) =~= m.insert(k, second));
    assert(m.insert(k, first).insert(k, second).dom() =~= m.dom().insert(k));
}

/// Writing a file and reading it back returns the very bytes written: the
/// round trip from a successful upload to the static-file route is lossless.
pub proof fn lemma_read_after_write(m: Map<Seq<char>, Seq<u8>>, k: Seq<char>, data: Seq<u8>)
    ensures
        m.insert(k, data).contains_key(k),
        m.insert(k, data)[k] == data,
{
}

/// A key that no write carries is absent from the directory the writes
/// build, so a request for it is answered with 404.
pub proof fn lemma_missing_key_absent(writes: Seq<(Seq<char>, Seq<u8>)>, k: Seq<char>)
    requires
        forall|j: int| 0 <= j < writes.len() ==> (#[trigger] writes[j]).0 != k,
    ensures
        !apply_writes(Map::empty(), writes).contains_key(k),
    decreases writes.len(),
{
    if writes.len() > 0 {
        assert(writes.last() == writes[writes.len() - 1]);
        lemma_missing_key_absent(writes.drop_last(), k);
    }
}

/// An upload of parts with pairwise distinct keys into an empty directory
/// leaves exactly one file per part.
pub proof fn lemma_upload_creates_n_files(writes: Seq<(Seq<char>, Seq<u8>)>)
    requires
        forall|j1: int, j2: int|
            0 <= j1 < j2 < writes.len() ==> (#[trigger] writes[j1]).0 != (#[trigger] writes[j2]).0,
    ensures
        apply_writes(Map::empty(), writes).dom().finite(),
        apply_writes(Map::empty(), writes).dom().len() == writes.len(),
    decreases writes.len(),
{
    broadcast use vstd::set::group_set_axioms;

    if writes.len() == 0 {
        assert(apply_writes(Map::empty(), writes).dom() =~= Set::<Seq<char>>::empty());
    } else {
        let prefix = writes.drop_last();
        let last = writes.last();
        assert(writes.last() == writes[writes.len() - 1]);
        lemma_upload_creates_n_files(prefix);
        assert(forall|j: int| 0 <= j < prefix.len() ==> (#[trigger] prefix[j]).0 != last.0);
        lemma_missing_key_absent(prefix, last.0);
    }
}

} // verus!
