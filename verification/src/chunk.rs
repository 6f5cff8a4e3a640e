//! Chunk record assembly for fragmented gRPC messages.
//!
//! A message may arrive in fragments that share a sensor path and carry
//! consecutive node ids. Fragments are kept as `bytes::Bytes` handles and
//! concatenated once the announced number of fragments has arrived.

use vstd::prelude::*;

use bytes::Bytes;

use crate::buffers::{
    bytes_as_slice, bytes_contents, bytes_mut_contents, bytes_mut_extend_from_slice,
    bytes_mut_freeze, bytes_mut_with_capacity,
};

verus! {

/// What a chunk record holds, as plain values.
pub struct RecordView {
    pub device_msg: Seq<u8>,
    pub sensor_path: Seq<char>,
    pub total_size: i64,
    pub total_fragments: u64,
    pub last_node_id: u64,
    pub json_datas: Seq<Seq<u8>>,
}

/// The abstract state of a chunk store: for each sensor path that has been
/// seen with chunk information, its in-flight records in arrival order.
pub type ChunkStoreView = Map<Seq<char>, Seq<RecordView>>;

/// The concatenation of a sequence of fragments, in order.
pub open spec fn concat_all<A>(s: Seq<Seq<A>>) -> Seq<A>
    decreases s.len(),
{
    if s.len() == 0 {
        Seq::empty()
    } else {
        concat_all(s.drop_last()) + s.last()
    }
}

/// The contents of a sequence of `Bytes` handles.
pub open spec fn fragments_view(v: Seq<Bytes>) -> Seq<Seq<u8>> {
    v.map_values(|b: Bytes| bytes_contents(b))
}

/// `nid` is the node id that follows `last`; the counter wraps as a `u64`.
pub open spec fn node_follows(last: u64, nid: u64) -> bool {
    if last == u64::MAX {
        nid == 0
    } else {
        nid == last + 1
    }
}

/// All fragments announced by the record have arrived.
pub open spec fn record_complete(r: RecordView) -> bool {
    (r.total_fragments as usize) as int == r.json_datas.len()
}

/// `i` is the first record of `list` that the fragment `nid` continues.
pub open spec fn is_first_match(list: Seq<RecordView>, nid: u64, i: int) -> bool {
    &&& 0 <= i < list.len()
    &&& node_follows(list[i].last_node_id, nid)
    &&& forall|j: int| 0 <= j < i ==> !node_follows(#[trigger] list[j].last_node_id, nid)
}

/// The first record that the fragment `nid` continues, if any.
pub open spec fn first_match(list: Seq<RecordView>, nid: u64) -> Option<int> {
    if exists|i: int| is_first_match(list, nid, i) {
        Some(choose|i: int| is_first_match(list, nid, i))
    } else {
        None
    }
}

/// The records of `path` in the store (none when the path is unknown).
pub open spec fn path_list(m: ChunkStoreView, path: Seq<char>) -> Seq<RecordView> {
    if m.contains_key(path) {
        m[path]
    } else {
        Seq::empty()
    }
}

/// The record that a fragment without a predecessor starts.
pub open spec fn new_record(
    dev: Seq<u8>,
    path: Seq<char>,
    ts: i64,
    tf: u64,
    nid: u64,
    json: Seq<u8>,
) -> RecordView {
    RecordView {
        device_msg: dev,
        sensor_path: path,
        total_size: ts,
        total_fragments: tf,
        last_node_id: nid,
        json_datas: seq![json],
    }
}

/// A record after the fragment `nid` with data `json` joined it.
pub open spec fn record_after_add(r: RecordView, nid: u64, json: Seq<u8>) -> RecordView {
    RecordView { last_node_id: nid, json_datas: r.json_datas.push(json), ..r }
}

/// One step of the chunk store: the new state and what the step returns.
///
/// - A message without any chunk information is handed back as it came.
/// - Otherwise the path gets an entry; absent fields count as 0.
/// - The fragment joins the first record whose last node id it follows; if
///   that record is then complete, it leaves the store and its device message
///   and concatenated fragments are returned.
/// - A fragment that follows no record starts a new one at the end of the
///   path's list.
pub open spec fn chunk_step(
    m: ChunkStoreView,
    dev: Seq<u8>,
    path: Seq<char>,
    json: Seq<u8>,
    total_size: Option<i64>,
    total_fragments: Option<u64>,
    node_id: Option<u64>,
) -> (ChunkStoreView, Option<(Seq<u8>, Seq<u8>)>) {
    if total_size is None && total_fragments is None {
        (m, Some((dev, json)))
    } else {
        let ts = match total_size {
            Some(v) => v,
            None => 0,
        };
        let tf = match total_fragments {
            Some(v) => v,
            None => 0,
        };
        let nid = match node_id {
            Some(v) => v,
            None => 0,
        };
        let list = path_list(m, path);
        match first_match(list, nid) {
            Some(i) => {
                let r = record_after_add(list[i], nid, json);
                if record_complete(r) {
                    (m.insert(path, list.remove(i)), Some((r.device_msg, concat_all(r.json_datas))))
                } else {
                    (m.insert(path, list.update(i, r)), None)
                }
            },
            None => (m.insert(path, list.push(new_record(dev, path, ts, tf, nid, json))), None),
        }
    }
}

/// The node id that a step uses.
pub open spec fn step_node_id(node_id: Option<u64>) -> u64 {
    match node_id {
        Some(v) => v,
        None => 0,
    }
}

/// The one machine limit of a step: a completing record's fragments must fit
/// in one buffer (at most `isize::MAX` bytes).
pub open spec fn chunk_step_fits(
    m: ChunkStoreView,
    path: Seq<char>,
    json: Seq<u8>,
    node_id: Option<u64>,
) -> bool {
    match first_match(path_list(m, path), step_node_id(node_id)) {
        Some(i) => concat_all(path_list(m, path)[i].json_datas).len() + json.len() <= isize::MAX,
        None => true,
    }
}

/// Every record sits under its own sensor path and holds at least one
/// fragment.
pub open spec fn store_inv(m: ChunkStoreView) -> bool {
    forall|p: Seq<char>, i: int|
        #![trigger m[p][i]]
        m.contains_key(p) && 0 <= i < m[p].len() ==> m[p][i].sensor_path == p
            && m[p][i].json_datas.len() >= 1
}

/// A list of records as plain values.
pub open spec fn list_view(v: Seq<ChunkRecord>) -> Seq<RecordView> {
    v.map_values(|r: ChunkRecord| r@)
}

/// The contents of a returned pair of handles.
pub open spec fn pair_view(r: Option<(Bytes, Bytes)>) -> Option<(Seq<u8>, Seq<u8>)> {
    match r {
        Some((a, b)) => Some((bytes_contents(a), bytes_contents(b))),
        None => None,
    }
}

/// The concatenation of the first `i + 1` fragments extends that of the
/// first `i` by fragment `i`.
pub proof fn lemma_concat_take_step<A>(s: Seq<Seq<A>>, i: int)
    requires
        0 <= i < s.len(),
    ensures
        concat_all(s.take(i + 1)) == concat_all(s.take(i)) + s[i],
{
    assert(s.take(i + 1).drop_last() =~= s.take(i));
}

/// A prefix's concatenation is no longer than the whole.
pub proof fn lemma_concat_prefix_len<A>(s: Seq<Seq<A>>, i: int)
    requires
        0 <= i <= s.len(),
    ensures
        concat_all(s.take(i)).len() <= concat_all(s).len(),
    decreases s.len() - i,
{
    if i < s.len() {
        lemma_concat_take_step(s, i);
        lemma_concat_prefix_len(s, i + 1);
    } else {
        assert(s.take(i) =~= s);
    }
}

/// A single chunked record being assembled.
pub struct ChunkRecord {
    /// Device message bytes (from DialoutMsg.deviceMsg).
    pub device_msg: Bytes,
    /// Sensor path this record belongs to.
    pub sensor_path: String,
    /// Total expected size of the assembled data.
    pub total_size: i64,
    /// Total number of fragments expected.
    pub total_fragments: u64,
    /// Node ID of the last received fragment.
    pub last_node_id: u64,
    /// Accumulated JSON data fragments.
    pub json_datas: Vec<Bytes>,
}

impl View for ChunkRecord {
    type V = RecordView;

    open spec fn view(&self) -> RecordView {
        RecordView {
            device_msg: bytes_contents(self.device_msg),
            sensor_path: self.sensor_path@,
            total_size: self.total_size,
            total_fragments: self.total_fragments,
            last_node_id: self.last_node_id,
            json_datas: fragments_view(self.json_datas@),
        }
    }
}

impl ChunkRecord {
    /// Create a new ChunkRecord from an initial message.
    pub fn new(
        device_msg: Bytes,
        sensor_path: String,
        total_size: i64,
        total_fragments: u64,
        node_id: u64,
        json_data: Bytes,
    ) -> (r: Self)
        ensures
            r@ == new_record(
                bytes_contents(device_msg),
                sensor_path@,
                total_size,
                total_fragments,
                node_id,
                bytes_contents(json_data),
            ),
    {
        let r = ChunkRecord {
            device_msg,
            sensor_path,
            total_size,
            total_fragments,
            last_node_id: node_id,
            json_datas: vec![json_data],
        };
        assert(r@.json_datas =~= seq![bytes_contents(json_data)]);
        r
    }

    /// Check if the incoming message matches this record (sequential node_id).
    pub fn matches(&self, node_id: u64) -> (b: bool)
        ensures
            b == node_follows(self.last_node_id, node_id),
    {
        self.last_node_id.wrapping_add(1) == node_id
    }

    /// Check if all fragments have been received.
    pub fn is_complete(&self) -> (b: bool)
        ensures
            b == record_complete(self@),
    {
        self.total_fragments as usize == self.json_datas.len()
    }

    /// Add a fragment to this record.
    pub fn add(&mut self, node_id: u64, json_data: Bytes)
        ensures
            final(self)@ == record_after_add(old(self)@, node_id, bytes_contents(json_data)),
    {
        self.last_node_id = node_id;
        self.json_datas.push(json_data);
        assert(fragments_view(self.json_datas@) =~= fragments_view(old(self).json_datas@).push(
            bytes_contents(json_data),
        ));
    }

    /// Merge all JSON data fragments into a single `Bytes`, in arrival order.
    pub fn merge_json(&self) -> (merged: Bytes)
        requires
            concat_all(self@.json_datas).len() <= isize::MAX,
        ensures
            bytes_contents(merged) == concat_all(self@.json_datas),
    {
        let ghost frags = self@.json_datas;
        let n = self.json_datas.len();
        let mut total_len: usize = 0;
        let mut i: usize = 0;
        while i < n
            invariant
                n == self.json_datas@.len(),
                frags == fragments_view(self.json_datas@),
                concat_all(frags).len() <= isize::MAX,
                0 <= i <= n,
                total_len as int == concat_all(frags.take(i as int)).len(),
            decreases n - i,
        {
            proof {
                lemma_concat_take_step(frags, i as int);
                lemma_concat_prefix_len(frags, i + 1);
            }
            total_len = total_len + bytes_as_slice(&self.json_datas[i]).len();
            i = i + 1;
        }
        proof {
            lemma_concat_prefix_len(frags, n as int);
        }
        let mut merged = bytes_mut_with_capacity(total_len);
        assert(frags.take(0) =~= Seq::<Seq<u8>>::empty());
        let mut j: usize = 0;
        while j < n
            invariant
                n == self.json_datas@.len(),
                frags == fragments_view(self.json_datas@),
                concat_all(frags).len() <= isize::MAX,
                0 <= j <= n,
                bytes_mut_contents(merged) == concat_all(frags.take(j as int)),
            decreases n - j,
        {
            proof {
                lemma_concat_take_step(frags, j as int);
                lemma_concat_prefix_len(frags, j + 1);
            }
            bytes_mut_extend_from_slice(&mut merged, bytes_as_slice(&self.json_datas[j]));
            j = j + 1;
        }
        assert(frags.take(n as int) =~= frags);
        bytes_mut_freeze(merged)
    }
}

/// The records of one sensor path.
struct PathRecords {
    path: String,
    records: Vec<ChunkRecord>,
}

/// Manages chunked record assembly across sensor paths.
///
/// Each sensor path can have several in-flight chunk records.
pub struct ChunkRecords {
    entries: Vec<PathRecords>,
}

impl ChunkRecords {
    /// The records of entry `i`, as plain values.
    pub closed spec fn entry_list(&self, i: int) -> Seq<RecordView> {
        list_view(self.entries@[i].records@)
    }

    /// The sensor path of entry `i`.
    pub closed spec fn entry_key(&self, i: int) -> Seq<char> {
        self.entries@[i].path@
    }

    /// Entry `i` holds sensor path `k`.
    pub closed spec fn has_key_at(&self, k: Seq<char>, i: int) -> bool {
        0 <= i < self.entries@.len() && self.entry_key(i) == k
    }

    /// No sensor path has two entries.
    pub closed spec fn keys_unique(&self) -> bool {
        forall|i: int, j: int|
            0 <= i < self.entries@.len() && 0 <= j < self.entries@.len() && i != j
                ==> #[trigger] self.entry_key(i) != #[trigger] self.entry_key(j)
    }

    /// No sensor path has two entries, and every record sits under its own
    /// path with at least one fragment.
    pub closed spec fn wf(&self) -> bool {
        &&& self.keys_unique()
        &&& store_inv(self@)
    }

    /// The index of the entry of path `k`.
    pub closed spec fn key_index(&self, k: Seq<char>) -> int {
        choose|i: int| self.has_key_at(k, i)
    }
}

impl View for ChunkRecords {
    type V = ChunkStoreView;

    closed spec fn view(&self) -> ChunkStoreView {
        Map::new(
            |k: Seq<char>| exists|i: int| self.has_key_at(k, i),
            |k: Seq<char>| self.entry_list(self.key_index(k)),
        )
    }
}

impl ChunkRecords {
    /// With unique keys, the entry of a path is the one at any index holding it.
    proof fn lemma_key_index(&self, k: Seq<char>, i: int)
        requires
            self.wf(),
            self.has_key_at(k, i),
        ensures
            self.key_index(k) == i,
            self@.contains_key(k),
            self@[k] == self.entry_list(i),
    {
        let j = self.key_index(k);
        assert(self.has_key_at(k, j));
        if j != i {
            assert(self.entry_key(i) != self.entry_key(j));
        }
    }

    /// Create a new empty ChunkRecords manager.
    pub fn new() -> (s: Self)
        ensures
            s.wf(),
            s@ == Map::<Seq<char>, Seq<RecordView>>::empty(),
    {
        let s = ChunkRecords { entries: Vec::new() };
        assert(s@ =~= Map::<Seq<char>, Seq<RecordView>>::empty());
        s
    }

    /// The index of the entry of `key`, added (with no records) when the
    /// path is new.
    fn entry_index(&mut self, key: &String) -> (k: usize)
        requires
            old(self).wf(),
        ensures
            final(self).wf(),
            k < final(self).entries@.len(),
            final(self).has_key_at(key@, k as int),
            final(self)@ == old(self)@.insert(key@, path_list(old(self)@, key@)),
    {
        let n = self.entries.len();
        let mut i: usize = 0;
        while i < n
            invariant
                n == self.entries@.len(),
                0 <= i <= n,
                self.wf(),
                *self == *old(self),
                forall|j: int| 0 <= j < i ==> self.entry_key(j) != key@,
            decreases n - i,
        {
            if self.entries[i].path == *key {
                proof {
                    self.lemma_key_index(key@, i as int);
                    assert(self@ =~= self@.insert(key@, path_list(self@, key@)));
                }
                return i;
            }
            i = i + 1;
        }
        let ghost old_self = *self;
        assert(!old_self@.contains_key(key@)) by {
            if old_self@.contains_key(key@) {
                let j = choose|j: int| old_self.has_key_at(key@, j);
                assert(old_self.entry_key(j) != key@);
            }
        }
        self.entries.push(PathRecords { path: key.clone(), records: Vec::new() });
        proof {
            assert forall|a: int, b: int|
                0 <= a < self.entries@.len() && 0 <= b < self.entries@.len() && a != b implies #[trigger] self.entry_key(a)
                != #[trigger] self.entry_key(b) by {
                if a < n && b < n {
                    assert(old_self.entry_key(a) != old_self.entry_key(b));
                    assert(self.entry_key(a) == old_self.entry_key(a));
                    assert(self.entry_key(b) == old_self.entry_key(b));
                } else if a < n {
                    assert(self.entry_key(a) == old_self.entry_key(a));
                } else {
                    assert(self.entry_key(b) == old_self.entry_key(b));
                }
            }
            assert(self.has_key_at(key@, n as int));
            assert(self.entry_list(n as int) =~= Seq::<RecordView>::empty());
            assert forall|k: Seq<char>|
                #![trigger self@.contains_key(k)]
                self@.contains_key(k) == old_self@.insert(key@, Seq::<RecordView>::empty()).contains_key(k)
                && (self@.contains_key(k) ==> self@[k] == old_self@.insert(
                    key@,
                    Seq::<RecordView>::empty(),
                )[k]) by {
                if k == key@ {
                    self.lemma_key_index_pre(k, n as int);
                } else {
                    if self@.contains_key(k) {
                        let j = choose|j: int| self.has_key_at(k, j);
                        assert(j < n);
                        assert(self.entry_key(j) == old_self.entry_key(j));
                        assert(old_self.has_key_at(k, j));
                        old_self.lemma_key_index(k, j);
                        self.lemma_key_index_pre(k, j);
                        assert(self.entry_list(j) =~= old_self.entry_list(j));
                    }
                    if old_self@.contains_key(k) {
                        let j = choose|j: int| old_self.has_key_at(k, j);
                        assert(self.has_key_at(k, j));
                    }
                }
            }
            assert(self@ =~= old_self@.insert(key@, path_list(old_self@, key@)));
            assert forall|p: Seq<char>, x: int|
                #![trigger self@[p][x]]
                self@.contains_key(p) && 0 <= x < self@[p].len() implies self@[p][x].sensor_path
                == p && self@[p][x].json_datas.len() >= 1 by {
                if p != key@ {
                    assert(old_self@[p] == self@[p]);
                }
            }
        }
        n
    }

    /// With unique keys among all entries, the index of a present key is its
    /// entry (used while the store is being rebuilt).
    proof fn lemma_key_index_pre(&self, k: Seq<char>, i: int)
        requires
            forall|a: int, b: int|
                0 <= a < self.entries@.len() && 0 <= b < self.entries@.len() && a != b
                    ==> #[trigger] self.entry_key(a) != #[trigger] self.entry_key(b),
            self.has_key_at(k, i),
        ensures
            self.key_index(k) == i,
            self@.contains_key(k),
            self@[k] == self.entry_list(i),
    {
        let j = self.key_index(k);
        assert(self.has_key_at(k, j));
        if j != i {
            assert(self.entry_key(i) != self.entry_key(j));
        }
    }
}


/// A record that the first-match rule picks is the first match.
pub proof fn lemma_first_match_is(list: Seq<RecordView>, nid: u64, i: int)
    requires
        is_first_match(list, nid, i),
    ensures
        first_match(list, nid) == Some(i),
{
    let c = choose|c: int| is_first_match(list, nid, c);
    assert(is_first_match(list, nid, c));
    if c < i {
        assert(!node_follows(list[c].last_node_id, nid));
    } else if c > i {
        assert(!node_follows(list[i].last_node_id, nid));
    }
}

/// When no record is followed, there is no first match.
pub proof fn lemma_first_match_none(list: Seq<RecordView>, nid: u64)
    requires
        forall|j: int| 0 <= j < list.len() ==> !node_follows(#[trigger] list[j].last_node_id, nid),
    ensures
        first_match(list, nid) is None,
{
    if exists|i: int| is_first_match(list, nid, i) {
        let c = choose|c: int| is_first_match(list, nid, c);
        assert(node_follows(list[c].last_node_id, nid));
    }
}

/// Adding a list whose records all belong to `p` keeps the store invariant.
pub proof fn lemma_store_inv_insert(m: ChunkStoreView, p: Seq<char>, l: Seq<RecordView>)
    requires
        store_inv(m),
        forall|i: int|
            0 <= i < l.len() ==> (#[trigger] l[i]).sensor_path == p && l[i].json_datas.len() >= 1,
    ensures
        store_inv(m.insert(p, l)),
{
    let m2 = m.insert(p, l);
    assert forall|q: Seq<char>, i: int|
        #![trigger m2[q][i]]
        m2.contains_key(q) && 0 <= i < m2[q].len() implies m2[q][i].sensor_path == q
        && m2[q][i].json_datas.len() >= 1 by {
        if q == p {
            assert(m2[q] == l);
            assert(l[i].sensor_path == p);
        } else {
            assert(m2[q] == m[q]);
        }
    }
}

/// Every step of the chunk store keeps its invariant: each record stays
/// under its own sensor path and holds at least one fragment.
pub proof fn lemma_chunk_step_keeps_inv(
    m: ChunkStoreView,
    dev: Seq<u8>,
    path: Seq<char>,
    json: Seq<u8>,
    total_size: Option<i64>,
    total_fragments: Option<u64>,
    node_id: Option<u64>,
)
    requires
        store_inv(m),
    ensures
        store_inv(chunk_step(m, dev, path, json, total_size, total_fragments, node_id).0),
{
    if total_size is None && total_fragments is None {
    } else {
        let nid = step_node_id(node_id);
        let list = path_list(m, path);
        assert forall|i: int| 0 <= i < list.len() implies (#[trigger] list[i]).sensor_path == path
            && list[i].json_datas.len() >= 1 by {
            assert(m.contains_key(path));
            assert(m[path][i] == list[i]);
        }
        match first_match(list, nid) {
            Some(i) => {
                let c = choose|c: int| is_first_match(list, nid, c);
                assert(is_first_match(list, nid, c));
                let r = record_after_add(list[i], nid, json);
                if record_complete(r) {
                    let l2 = list.remove(i);
                    assert forall|x: int| 0 <= x < l2.len() implies (#[trigger] l2[x]).sensor_path
                        == path && l2[x].json_datas.len() >= 1 by {
                        if x < i {
                            assert(l2[x] == list[x]);
                        } else {
                            assert(l2[x] == list[x + 1]);
                        }
                    }
                    lemma_store_inv_insert(m, path, l2);
                } else {
                    let l2 = list.update(i, r);
                    assert forall|x: int| 0 <= x < l2.len() implies (#[trigger] l2[x]).sensor_path
                        == path && l2[x].json_datas.len() >= 1 by {
                        if x != i {
                            assert(l2[x] == list[x]);
                        }
                    }
                    lemma_store_inv_insert(m, path, l2);
                }
            },
            None => {
                let ts = match total_size {
                    Some(v) => v,
                    None => 0,
                };
                let tf = match total_fragments {
                    Some(v) => v,
                    None => 0,
                };
                let l2 = list.push(new_record(dev, path, ts, tf, nid, json));
                assert forall|x: int| 0 <= x < l2.len() implies (#[trigger] l2[x]).sensor_path
                    == path && l2[x].json_datas.len() >= 1 by {
                    if x < list.len() {
                        assert(l2[x] == list[x]);
                    }
                }
                lemma_store_inv_insert(m, path, l2);
            },
        }
    }
}

/// The first record of `list` that `nid` continues, found by a scan.
fn find_first_match(list: &Vec<ChunkRecord>, nid: u64) -> (r: Option<usize>)
    ensures
        match r {
            Some(i) => is_first_match(list_view(list@), nid, i as int),
            None => forall|j: int|
                0 <= j < list@.len() ==> !node_follows(
                    #[trigger] list_view(list@)[j].last_node_id,
                    nid,
                ),
        },
{
    let ghost lv = list_view(list@);
    let n = list.len();
    let mut i: usize = 0;
    while i < n
        invariant
            n == list@.len(),
            lv == list_view(list@),
            0 <= i <= n,
            forall|j: int| 0 <= j < i ==> !node_follows(#[trigger] lv[j].last_node_id, nid),
        decreases n - i,
    {
        if list[i].matches(nid) {
            return Some(i);
        }
        i = i + 1;
    }
    None
}

impl ChunkRecords {
    /// Exchanges the records of entry `k` for `records` and hands back the
    /// old ones; keys and all other entries stay as they are.
    fn swap_records(&mut self, k: usize, records: Vec<ChunkRecord>) -> (prev: Vec<ChunkRecord>)
        requires
            old(self).keys_unique(),
            k < old(self).entries@.len(),
        ensures
            final(self).keys_unique(),
            final(self).entries@.len() == old(self).entries@.len(),
            final(self).has_key_at(old(self).entry_key(k as int), k as int),
            list_view(prev@) == old(self).entry_list(k as int),
            final(self)@ == old(self)@.insert(old(self).entry_key(k as int), list_view(records@)),
    {
        let ghost old_self = *self;
        let entry = self.entries.remove(k);
        let PathRecords { path, records: prev } = entry;
        self.entries.insert(k, PathRecords { path, records });
        proof {
            assert forall|i: int| 0 <= i < self.entries@.len() implies #[trigger] self.entry_key(i)
                == old_self.entry_key(i) by {
                if i != k {
                    assert(self.entries@[i] == old_self.entries@[i]);
                }
            }
            assert forall|i: int| 0 <= i < self.entries@.len() && i != k implies #[trigger] self.entry_list(i)
                == old_self.entry_list(i) by {
                assert(self.entries@[i] == old_self.entries@[i]);
            }
            assert forall|a: int, b: int|
                0 <= a < self.entries@.len() && 0 <= b < self.entries@.len() && a != b implies #[trigger] self.entry_key(a)
                != #[trigger] self.entry_key(b) by {
                assert(self.entry_key(a) == old_self.entry_key(a));
                assert(self.entry_key(b) == old_self.entry_key(b));
            }
            let key = old_self.entry_key(k as int);
            assert(self.has_key_at(key, k as int));
            let target = old_self@.insert(key, list_view(records@));
            assert forall|q: Seq<char>|
                #![trigger self@.contains_key(q)]
                self@.contains_key(q) == target.contains_key(q) && (self@.contains_key(q)
                    ==> self@[q] == target[q]) by {
                if q == key {
                    self.lemma_key_index_pre(q, k as int);
                } else {
                    if self@.contains_key(q) {
                        let j = choose|j: int| self.has_key_at(q, j);
                        assert(j != k);
                        assert(old_self.has_key_at(q, j));
                        old_self.lemma_key_index_pre(q, j);
                        self.lemma_key_index_pre(q, j);
                    }
                    if old_self@.contains_key(q) {
                        let j = choose|j: int| old_self.has_key_at(q, j);
                        assert(self.has_key_at(q, j));
                    }
                }
            }
            assert(self@ =~= target);
        }
        prev
    }

    /// Process an incoming message.
    ///
    /// Returns `Some((device_msg, json_data))` when the message carries no
    /// chunk information or completes a chunk record (then with the record's
    /// first device message and all its fragments merged), and `None` when
    /// the message was added to an existing record or started a new one.
    pub fn add(
        &mut self,
        device_msg: Bytes,
        sensor_path: &str,
        json_data: Bytes,
        total_size: Option<i64>,
        total_fragments: Option<u64>,
        node_id: Option<u64>,
    ) -> (r: Option<(Bytes, Bytes)>)
        requires
            old(self).wf(),
            total_size is Some || total_fragments is Some ==> chunk_step_fits(
                old(self)@,
                sensor_path@,
                bytes_contents(json_data),
                node_id,
            ),
        ensures
            final(self).wf(),
            (final(self)@, pair_view(r)) == chunk_step(
                old(self)@,
                bytes_contents(device_msg),
                sensor_path@,
                bytes_contents(json_data),
                total_size,
                total_fragments,
                node_id,
            ),
    {
        // No chunk info: pass through directly
        if total_size.is_none() && total_fragments.is_none() {
            return Some((device_msg, json_data));
        }
        let ghost m0 = self@;
        let ghost dev = bytes_contents(device_msg);
        let ghost json = bytes_contents(json_data);
        proof {
            lemma_chunk_step_keeps_inv(
                m0,
                dev,
                sensor_path@,
                json,
                total_size,
                total_fragments,
                node_id,
            );
        }
        let ts = match total_size {
            Some(v) => v,
            None => 0,
        };
        let tf = match total_fragments {
            Some(v) => v,
            None => 0,
        };
        let nid = match node_id {
            Some(v) => v,
            None => 0,
        };

        let key = sensor_path.to_owned();
        let k = self.entry_index(&key);
        let ghost m1 = self@;
        proof {
            self.lemma_key_index(key@, k as int);
        }
        let mut list = self.swap_records(k, Vec::new());
        let ghost lv = list_view(list@);
        assert(lv == path_list(m0, key@));

        match find_first_match(&list, nid) {
            Some(i) => {
                proof {
                    lemma_first_match_is(lv, nid, i as int);
                }
                let mut rec = list.remove(i);
                assert(list_view(list@) =~= lv.remove(i as int));
                rec.add(nid, json_data);
                if rec.is_complete() {
                    proof {
                        assert(rec@.json_datas.drop_last() =~= lv[i as int].json_datas);
                    }
                    let merged = rec.merge_json();
                    let ChunkRecord { device_msg: dm, .. } = rec;
                    let _ = self.swap_records(k, list);
                    assert(self@ =~= m1.insert(key@, lv.remove(i as int)));
                    Some((dm, merged))
                } else {
                    let ghost rv = rec@;
                    list.insert(i, rec);
                    assert(list_view(list@) =~= lv.update(i as int, rv));
                    let _ = self.swap_records(k, list);
                    assert(self@ =~= m1.insert(key@, lv.update(i as int, rv)));
                    None
                }
            },
            None => {
                proof {
                    lemma_first_match_none(lv, nid);
                }
                // Start a new record
                let rec = ChunkRecord::new(device_msg, key.clone(), ts, tf, nid, json_data);
                let ghost rv = rec@;
                list.push(rec);
                assert(list_view(list@) =~= lv.push(rv));
                let _ = self.swap_records(k, list);
                assert(self@ =~= m1.insert(key@, lv.push(rv)));
                None
            },
        }
    }
}

impl Default for ChunkRecords {
    fn default() -> (s: Self)
        ensures
            s.wf(),
            s@ == Map::<Seq<char>, Seq<RecordView>>::empty(),
    {
        Self::new()
    }
}

/// A message without chunk information is handed back unchanged and leaves
/// the store as it was.
pub proof fn law_unchunked_passes_through(
    m: ChunkStoreView,
    dev: Seq<u8>,
    path: Seq<char>,
    json: Seq<u8>,
    node_id: Option<u64>,
)
    ensures
        chunk_step(m, dev, path, json, None, None, node_id) == (m, Some((dev, json))),
{
}

/// A step changes the records of its own sensor path only.
pub proof fn law_step_touches_own_path_only(
    m: ChunkStoreView,
    dev: Seq<u8>,
    path: Seq<char>,
    json: Seq<u8>,
    total_size: Option<i64>,
    total_fragments: Option<u64>,
    node_id: Option<u64>,
    other: Seq<char>,
)
    requires
        other != path,
    ensures
        chunk_step(m, dev, path, json, total_size, total_fragments, node_id).0.contains_key(other)
            == m.contains_key(other),
        m.contains_key(other) ==> chunk_step(
            m,
            dev,
            path,
            json,
            total_size,
            total_fragments,
            node_id,
        ).0[other] == m[other],
{
}

/// The state and the last result after feeding the first `j` fragments of a
/// chunked message on `path`: fragment `x` has device message `devs[x]`,
/// data `jsons[x]` and node id `n + x`; all carry the same totals.
pub open spec fn feed(
    m: ChunkStoreView,
    devs: Seq<Seq<u8>>,
    path: Seq<char>,
    jsons: Seq<Seq<u8>>,
    ts: i64,
    tf: u64,
    n: u64,
    j: nat,
) -> (ChunkStoreView, Option<(Seq<u8>, Seq<u8>)>)
    decreases j,
{
    if j == 0 {
        (m, None)
    } else {
        let prev = feed(m, devs, path, jsons, ts, tf, n, (j - 1) as nat);
        chunk_step(
            prev.0,
            devs[j - 1],
            path,
            jsons[j - 1],
            Some(ts),
            Some(tf),
            Some((n + j - 1) as u64),
        )
    }
}

/// The record in flight after the first `j` fragments.
pub open spec fn partial_record(
    devs: Seq<Seq<u8>>,
    path: Seq<char>,
    jsons: Seq<Seq<u8>>,
    ts: i64,
    tf: u64,
    n: u64,
    j: nat,
) -> RecordView {
    RecordView {
        device_msg: devs[0],
        sensor_path: path,
        total_size: ts,
        total_fragments: tf,
        last_node_id: (n + j - 1) as u64,
        json_datas: jsons.take(j as int),
    }
}

proof fn lemma_feed_partial(
    m: ChunkStoreView,
    devs: Seq<Seq<u8>>,
    path: Seq<char>,
    jsons: Seq<Seq<u8>>,
    ts: i64,
    tf: u64,
    n: u64,
    j: nat,
)
    requires
        path_list(m, path) == Seq::<RecordView>::empty(),
        jsons.len() == devs.len(),
        2 <= jsons.len(),
        tf as int == jsons.len(),
        jsons.len() <= usize::MAX,
        n + jsons.len() - 1 <= u64::MAX,
        1 <= j < jsons.len(),
    ensures
        feed(m, devs, path, jsons, ts, tf, n, j).1 is None,
        feed(m, devs, path, jsons, ts, tf, n, j).0 == m.insert(
            path,
            seq![partial_record(devs, path, jsons, ts, tf, n, j)],
        ),
    decreases j,
{
    let nid = (n + j - 1) as u64;
    if j == 1 {
        let list = path_list(m, path);
        lemma_first_match_none(list, nid);
        assert(jsons.take(1) =~= seq![jsons[0]]);
        assert(list.push(new_record(devs[0], path, ts, tf, nid, jsons[0])) =~= seq![
            partial_record(devs, path, jsons, ts, tf, n, j),
        ]);
    } else {
        lemma_feed_partial(m, devs, path, jsons, ts, tf, n, (j - 1) as nat);
        let prev = feed(m, devs, path, jsons, ts, tf, n, (j - 1) as nat);
        let pr = partial_record(devs, path, jsons, ts, tf, n, (j - 1) as nat);
        let list = path_list(prev.0, path);
        assert(list == seq![pr]);
        assert(is_first_match(list, nid, 0));
        lemma_first_match_is(list, nid, 0);
        let r = record_after_add(list[0], nid, jsons[j - 1]);
        assert(r.json_datas =~= jsons.take(j as int));
        assert(r == partial_record(devs, path, jsons, ts, tf, n, j));
        assert(!record_complete(r));
        assert(list.update(0, r) =~= seq![r]);
        assert(prev.0.insert(path, seq![r]) =~= m.insert(path, seq![r]));
    }
}

/// Reassembly: on a sensor path with no record in flight, the fragments of a
/// message announced as `k >= 2` fragments, sent with consecutive node ids,
/// give nothing back until the last one, which returns the first fragment's
/// device message and all data concatenated in order; the path is then left
/// with no record in flight and every other path as it was.
pub proof fn law_fragments_reassemble(
    m: ChunkStoreView,
    devs: Seq<Seq<u8>>,
    path: Seq<char>,
    jsons: Seq<Seq<u8>>,
    ts: i64,
    tf: u64,
    n: u64,
)
    requires
        path_list(m, path) == Seq::<RecordView>::empty(),
        jsons.len() == devs.len(),
        2 <= jsons.len(),
        tf as int == jsons.len(),
        jsons.len() <= usize::MAX,
        n + jsons.len() - 1 <= u64::MAX,
    ensures
        forall|j: nat|
            1 <= j < jsons.len() ==> (#[trigger] feed(m, devs, path, jsons, ts, tf, n, j)).1 is None,
        feed(m, devs, path, jsons, ts, tf, n, jsons.len()) == (
            m.insert(path, Seq::<RecordView>::empty()),
            Some((devs[0], concat_all(jsons))),
        ),
{
    assert forall|j: nat| 1 <= j < jsons.len() implies (#[trigger] feed(
        m,
        devs,
        path,
        jsons,
        ts,
        tf,
        n,
        j,
    )).1 is None by {
        lemma_feed_partial(m, devs, path, jsons, ts, tf, n, j);
    }
    let k = jsons.len();
    lemma_feed_partial(m, devs, path, jsons, ts, tf, n, (k - 1) as nat);
    let prev = feed(m, devs, path, jsons, ts, tf, n, (k - 1) as nat);
    let pr = partial_record(devs, path, jsons, ts, tf, n, (k - 1) as nat);
    let nid = (n + k - 1) as u64;
    let list = path_list(prev.0, path);
    assert(list == seq![pr]);
    assert(is_first_match(list, nid, 0));
    lemma_first_match_is(list, nid, 0);
    let r = record_after_add(list[0], nid, jsons[k - 1]);
    assert(r.json_datas =~= jsons.take(k as int));
    assert(jsons.take(k as int) =~= jsons);
    assert(record_complete(r));
    assert(list.remove(0) =~= Seq::<RecordView>::empty());
    assert(prev.0.insert(path, Seq::<RecordView>::empty()) =~= m.insert(
        path,
        Seq::<RecordView>::empty(),
    ));
}

impl ChunkRecords {
    /// The entry of `key`, if the path has one.
    fn lookup_key(&self, key: &String) -> (r: Option<usize>)
        requires
            self.wf(),
        ensures
            match r {
                Some(k) => self.has_key_at(key@, k as int),
                None => !self@.contains_key(key@),
            },
    {
        let n = self.entries.len();
        let mut k: usize = 0;
        while k < n
            invariant
                n == self.entries@.len(),
                0 <= k <= n,
                forall|j: int| 0 <= j < k ==> self.entry_key(j) != key@,
            decreases n - k,
        {
            if self.entries[k].path == *key {
                return Some(k);
            }
            k = k + 1;
        }
        assert(!self@.contains_key(key@)) by {
            if self@.contains_key(key@) {
                let j = choose|j: int| self.has_key_at(key@, j);
                assert(self.entry_key(j) != key@);
            }
        }
        None
    }

    /// Whether a fragment of `json_len` bytes for `sensor_path` with
    /// `node_id` stays within the machine limit of [`ChunkRecords::add`]: the
    /// record it would join, if any, must fit in one buffer with it.
    pub fn add_fits(&self, sensor_path: &str, json_len: usize, node_id: Option<u64>) -> (b: bool)
        requires
            self.wf(),
        ensures
            forall|json: Seq<u8>|
                json.len() == json_len ==> (b == chunk_step_fits(self@, sensor_path@, json, node_id)),
    {
        let nid = match node_id {
            Some(v) => v,
            None => 0,
        };
        let key = sensor_path.to_owned();
        let k = match self.lookup_key(&key) {
            None => {
                proof {
                    lemma_first_match_none(Seq::<RecordView>::empty(), nid);
                }
                return true;
            },
            Some(k) => k,
        };
        proof {
            self.lemma_key_index(key@, k as int);
        }
        let list = &self.entries[k].records;
        match find_first_match(list, nid) {
            None => {
                proof {
                    lemma_first_match_none(list_view(list@), nid);
                }
                true
            },
            Some(i) => {
                proof {
                    lemma_first_match_is(list_view(list@), nid, i as int);
                }
                if json_len > isize::MAX as usize {
                    return false;
                }
                let rec = &list[i];
                let ghost frags = rec@.json_datas;
                assert(frags.take(0) =~= Seq::<Seq<u8>>::empty());
                assert(path_list(self@, sensor_path@)[i as int] == rec@);
                let m = rec.json_datas.len();
                let mut total: usize = json_len;
                let mut j: usize = 0;
                while j < m
                    invariant
                        m == rec.json_datas@.len(),
                        frags == fragments_view(rec.json_datas@),
                        0 <= j <= m,
                        total as int == concat_all(frags.take(j as int)).len() + json_len,
                        total <= isize::MAX,
                        nid == step_node_id(node_id),
                        first_match(path_list(self@, sensor_path@), nid) == Some(i as int),
                        path_list(self@, sensor_path@)[i as int] == rec@,
                    decreases m - j,
                {
                    proof {
                        lemma_concat_take_step(frags, j as int);
                    }
                    let l = bytes_as_slice(&rec.json_datas[j]).len();
                    assert(l == frags[j as int].len());
                    if l > isize::MAX as usize - total {
                        proof {
                            lemma_concat_prefix_len(frags, j + 1);
                        }
                        return false;
                    }
                    total = total + l;
                    j = j + 1;
                }
                assert(frags.take(m as int) =~= frags);
                assert(path_list(self@, sensor_path@)[i as int] == rec@);
                true
            },
        }
    }
}
} // verus!
