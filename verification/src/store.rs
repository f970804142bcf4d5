//! The execution store.
//!
//! The store keeps one record for each execution: the table that its query
//! reads and the state it is in. It has two sides. Writes go to the staged
//! side; `publish` makes everything staged visible at once. Reads see the
//! visible side only. The handle that writes is one; the handles that read
//! are many, never wait for the writer, and each see some published version.

use crate::model::QueryProcess;
use crate::state::QueryState;
use crate::text::str_eq;
use evmap::shallow_copy::CopyValue;
use std::hash::BuildHasher;
use std::hash::Hash;
use vstd::multiset::Multiset;
use vstd::prelude::*;

verus! {

/// The write side of the map of records: an `evmap::WriteHandle` from
/// execution identifiers to (table, state) pairs. The handle is kept behind
/// this struct because its declaration is bounded by a trait of the map's
/// crate. The map tells two states apart by the equality and the hash that
/// are derived for `QueryState`, an enum without fields.
#[verifier::external_body]
pub struct RecordMap {
    handle: evmap::WriteHandle<String, (String, CopyValue<QueryState>)>,
}

/// `evmap::shallow_copy::CopyValue`, under which the map holds a value that
/// it copies from one side to the other: here the state of a record.
#[verifier::external_type_specification]
#[verifier::external_body]
#[verifier::reject_recursive_types(T)]
pub struct ExCopyValue<T>(CopyValue<T>);

/// A read handle of the map of records.
pub type RecordReader = evmap::ReadHandle<String, (String, CopyValue<QueryState>)>;

/// `evmap::ReadHandle`, the read side of the map: a value that is carried
/// and cloned, and of whose contents nothing is claimed.
#[verifier::external_type_specification]
#[verifier::external_body]
#[verifier::reject_recursive_types(K)]
#[verifier::reject_recursive_types(V)]
#[verifier::reject_recursive_types(M)]
#[verifier::reject_recursive_types(S)]
pub struct ExReadHandle<K, V, M, S>(evmap::ReadHandle<K, V, M, S>) where
    K: Eq + Hash,
    S: BuildHasher,
;

/// What the map holds under one key: a bag of (table, state) pairs.
pub type Bag = Multiset<(Seq<char>, QueryState)>;

/// What one side of the map holds.
pub type Bags = Map<Seq<char>, Bag>;

/// What readers of the map see: the contents as of the last refresh.
pub uninterp spec fn published(map: RecordMap) -> Bags;

/// What the map holds once every write made so far is applied: what readers
/// see after the next refresh.
pub uninterp spec fn staged(map: RecordMap) -> Bags;

/// The bag under a key, empty where the key is absent.
pub open spec fn bag_at(bags: Bags, key: Seq<char>) -> Bag {
    if bags.dom().contains(key) {
        bags[key]
    } else {
        Multiset::empty()
    }
}

/// `evmap::new`: a map that is empty on both sides. The read handle that
/// comes with it is dropped; the write handle holds one of its own.
#[verifier::external_body]
fn map_new() -> (map: RecordMap)
    ensures
        published(map) == Bags::empty(),
        staged(map) == Bags::empty(),
{
    RecordMap { handle: evmap::new().1 }
}

/// `evmap::WriteHandle::insert`: adds a value to the bag of a key, on the
/// staged side only.
#[verifier::external_body]
fn map_insert(map: &mut RecordMap, key: String, table: String, state: QueryState)
    ensures
        published(*final(map)) == published(*old(map)),
        staged(*final(map)) == staged(*old(map)).insert(
            key@,
            bag_at(staged(*old(map)), key@).insert((table@, state)),
        ),
{
    map.handle.insert(key, (table, CopyValue::from(state)));
}

/// `evmap::WriteHandle::empty`: removes a key and its bag, on the staged
/// side only.
#[verifier::external_body]
fn map_empty(map: &mut RecordMap, key: String)
    ensures
        published(*final(map)) == published(*old(map)),
        staged(*final(map)) == staged(*old(map)).remove(key@),
{
    map.handle.empty(key);
}

/// `evmap::WriteHandle::refresh`: readers see every write made so far.
#[verifier::external_body]
fn map_refresh(map: &mut RecordMap)
    ensures
        published(*final(map)) == staged(*old(map)),
        staged(*final(map)) == staged(*old(map)),
{
    map.handle.refresh();
}

/// `evmap::ReadHandle::get_one`, called through the write handle: a copy of
/// one value out of the bag that readers see under the key, `None` where
/// they see no value there.
#[verifier::external_body]
fn map_get_one(map: &RecordMap, key: &str) -> (found: Option<(String, QueryState)>)
    ensures
        match found {
            Some(pair) => bag_at(published(*map), key@).count((pair.0@, pair.1)) > 0,
            None => bag_at(published(*map), key@).len() == 0,
        },
{
    map.handle.get_one(key).map(|pair| (pair.0.clone(), *pair.1))
}

/// `Clone` of the `evmap::ReadHandle` that the write handle holds: one more
/// reader of the same map.
#[verifier::external_body]
fn map_reader(map: &RecordMap) -> (reader: RecordReader) {
    evmap::ReadHandle::clone(&map.handle)
}

/// `evmap::ReadHandle::get_one`: a copy of one value that this reader sees
/// under the key at the time of the call.
#[verifier::external_body]
fn reader_get_one(reader: &RecordReader, key: &str) -> (found: Option<(String, QueryState)>) {
    reader.get_one(key).map(|pair| (pair.0.clone(), *pair.1))
}

/// One record, as the contracts speak of it.
pub struct RecordView {
    pub table: Seq<char>,
    pub state: QueryState,
}

/// The two sides of the store.
pub struct StoreView {
    /// What reads return.
    pub visible: Map<Seq<char>, RecordView>,
    /// What reads return after the next `publish`.
    pub staged: Map<Seq<char>, RecordView>,
}

impl RecordView {
    /// The pair under which the record is stored.
    pub open spec fn pair(self) -> (Seq<char>, Seq<char>) {
        (self.table, self.state.name())
    }
}

impl StoreView {
    pub open spec fn empty() -> StoreView {
        StoreView { visible: Map::empty(), staged: Map::empty() }
    }

    /// Every visible record is staged too, for the same table.
    pub open spec fn consistent(self) -> bool {
        &&& forall|id: Seq<char>| #[trigger]
            self.visible.dom().contains(id) ==> self.staged.dom().contains(id)
        &&& forall|id: Seq<char>| #[trigger]
            self.visible.dom().contains(id) ==> self.staged[id].table == self.visible[id].table
    }

    /// No record, visible or staged, is in a state outside the lifecycle
    /// that a driver walks.
    pub open spec fn driven(self) -> bool {
        &&& forall|id: Seq<char>| #[trigger]
            self.visible.dom().contains(id) ==> self.visible[id].state.is_driven()
        &&& forall|id: Seq<char>| #[trigger]
            self.staged.dom().contains(id) ==> self.staged[id].state.is_driven()
    }

    /// What a read of `id` returns.
    pub open spec fn lookup(self, id: Seq<char>) -> Option<RecordView> {
        if self.visible.dom().contains(id) {
            Some(self.visible[id])
        } else {
            None
        }
    }

    /// Stages a queued record for `id`, unless one is staged already.
    pub open spec fn create(self, id: Seq<char>, table: Seq<char>) -> StoreView {
        if self.staged.dom().contains(id) {
            self
        } else {
            StoreView {
                visible: self.visible,
                staged: self.staged.insert(
                    id,
                    RecordView { table: table, state: QueryState::Queued },
                ),
            }
        }
    }

    /// Stages a new state for the visible record of `id`, if there is one.
    pub open spec fn write(self, id: Seq<char>, state: QueryState) -> StoreView {
        if self.visible.dom().contains(id) {
            StoreView {
                visible: self.visible,
                staged: self.staged.insert(
                    id,
                    RecordView { table: self.visible[id].table, state: state },
                ),
            }
        } else {
            self
        }
    }

    /// Makes everything staged visible.
    pub open spec fn publish(self) -> StoreView {
        StoreView { visible: self.staged, staged: self.staged }
    }

    /// Every record of `self` is a record of `later`, on the same side and
    /// for the same table.
    pub open spec fn kept_by(self, later: StoreView) -> bool {
        &&& forall|id: Seq<char>| #[trigger]
            self.staged.dom().contains(id) ==> later.staged.dom().contains(id)
                && later.staged[id].table == self.staged[id].table
        &&& forall|id: Seq<char>| #[trigger]
            self.visible.dom().contains(id) ==> later.visible.dom().contains(id)
                && later.visible[id].table == self.visible[id].table
    }

    /// No operation of the store removes a record or moves it to another
    /// table, and each leaves the store consistent.
    pub proof fn lemma_records_are_kept(self, id: Seq<char>, table: Seq<char>, state: QueryState)
        requires
            self.consistent(),
        ensures
            self.kept_by(self.create(id, table)),
            self.kept_by(self.write(id, state)),
            self.kept_by(self.publish()),
            self.create(id, table).consistent(),
            self.write(id, state).consistent(),
            self.publish().consistent(),
    {
    }

    /// What is kept from one store to a second and from there to a third is
    /// kept from the first to the third.
    pub proof fn lemma_kept_on(self, second: StoreView, third: StoreView)
        requires
            self.kept_by(second),
            second.kept_by(third),
        ensures
            self.kept_by(third),
    {
    }
}

/// The bags that stand for a set of records: one pair under each identifier.
pub open spec fn bags_of(records: Map<Seq<char>, RecordView>) -> Bags {
    Map::new(
        |id: Seq<char>| records.dom().contains(id),
        |id: Seq<char>| Multiset::singleton((records[id].table, records[id].state)),
    )
}

/// Whether `id` is among the identifiers listed.
pub open spec fn listed(ids: Seq<String>, id: Seq<char>) -> bool {
    exists|j: int| 0 <= j < ids.len() && (#[trigger] ids[j])@ == id
}

/// The view of a record that may be missing.
pub open spec fn found_view(found: Option<QueryProcess>) -> Option<(Seq<char>, Seq<char>)> {
    match found {
        Some(record) => Some(record@),
        None => None,
    }
}

/// The pair of a record that may be missing.
pub open spec fn found_pair(found: Option<RecordView>) -> Option<(Seq<char>, Seq<char>)> {
    match found {
        Some(record) => Some(record.pair()),
        None => None,
    }
}

/// The store of execution records, with its one writing handle.
pub struct ExecutionStore {
    map: RecordMap,
    /// The identifiers staged since the last `publish`.
    created: Vec<String>,
    visible: Ghost<Map<Seq<char>, RecordView>>,
    staged: Ghost<Map<Seq<char>, RecordView>>,
}

/// A handle that reads the store without waiting for its writer.
pub struct StoreReader {
    handle: RecordReader,
}

/// The record that the store hands out for a pair of its map: the table,
/// and the state under its name.
fn record_of(table_name: String, state: QueryState) -> (record: QueryProcess)
    ensures
        record.table_name == table_name,
        record.state@ == state.name(),
        QueryState::named(record.state@) == Some(state),
{
    proof {
        QueryState::lemma_name_round_trip(state);
    }
    QueryProcess { table_name: table_name, state: state.as_str().to_owned() }
}

impl View for ExecutionStore {
    type V = StoreView;

    closed spec fn view(&self) -> StoreView {
        StoreView { visible: self.visible@, staged: self.staged@ }
    }
}

impl ExecutionStore {
    /// The map holds one pair for each record, and the list of identifiers
    /// created since the last `publish` is exact.
    pub closed spec fn wf(&self) -> bool {
        &&& published(self.map) == bags_of(self.visible@)
        &&& staged(self.map) == bags_of(self.staged@)
        &&& self@.consistent()
        &&& forall|id: Seq<char>|
            self.staged@.dom().contains(id) <==> self.visible@.dom().contains(id) || listed(
                self.created@,
                id,
            )
    }

    /// A store is consistent while it is well formed.
    pub proof fn lemma_consistent(&self)
        requires
            self.wf(),
        ensures
            self@.consistent(),
    {
    }

    /// An empty store.
    pub fn new() -> (store: Self)
        ensures
            store.wf(),
            store@ == StoreView::empty(),
    {
        let store = ExecutionStore {
            map: map_new(),
            created: Vec::new(),
            visible: Ghost(Map::empty()),
            staged: Ghost(Map::empty()),
        };
        assert(bags_of(Map::empty()) =~= Bags::empty());
        store
    }

    /// One more reader of the store.
    pub fn reader(&self) -> (reader: StoreReader) {
        StoreReader { handle: map_reader(&self.map) }
    }

    /// The visible record of `id`.
    pub fn read(&self, id: &str) -> (found: Option<QueryProcess>)
        requires
            self.wf(),
        ensures
            found_view(found) == found_pair(self@.lookup(id@)),
    {
        broadcast use vstd::multiset::group_multiset_axioms;

        match map_get_one(&self.map, id) {
            Some(pair) => {
                let (table_name, state) = pair;
                assert(self.visible@.dom().contains(id@));
                assert((table_name@, state) == (self.visible@[id@].table, self.visible@[id@].state));
                Some(record_of(table_name, state))
            },
            None => {
                assert(!self.visible@.dom().contains(id@));
                None
            },
        }
    }

    /// Whether `id` was created since the last `publish`.
    fn is_created(&self, id: &str) -> (yes: bool)
        ensures
            yes == listed(self.created@, id@),
    {
        let mut j: usize = 0;
        while j < self.created.len()
            invariant
                j <= self.created.len(),
                forall|k: int| 0 <= k < j ==> (#[trigger] self.created@[k])@ != id@,
            decreases self.created.len() - j,
        {
            if str_eq(self.created[j].as_str(), id) {
                return true;
            }
            j += 1;
        }
        false
    }

    /// Whether a record of `id` is staged.
    pub fn is_staged(&self, id: &str) -> (yes: bool)
        requires
            self.wf(),
        ensures
            yes == self@.staged.dom().contains(id@),
    {
        match self.read(id) {
            Some(_) => true,
            None => self.is_created(id),
        }
    }

    /// Stages a queued record of `id` for `table`, unless a record of `id` is
    /// staged already. Returns whether it did.
    pub fn create(&mut self, id: &str, table: &str) -> (created: bool)
        requires
            old(self).wf(),
        ensures
            final(self).wf(),
            final(self)@ == old(self)@.create(id@, table@),
            created == !old(self)@.staged.dom().contains(id@),
    {
        broadcast use vstd::multiset::group_multiset_axioms;

        if self.is_staged(id) {
            return false;
        }
        let ghost record = RecordView { table: table@, state: QueryState::Queued };
        map_insert(&mut self.map, id.to_owned(), table.to_owned(), QueryState::Queued);
        self.created.push(id.to_owned());
        self.staged = Ghost(self.staged@.insert(id@, record));
        proof {
            assert(Bag::empty().insert((record.table, record.state)) =~= Multiset::singleton(
                (record.table, record.state),
            ));
            assert(staged(self.map) =~= bags_of(self.staged@));
            assert(self.created@.last()@ == id@);
            assert forall|other: Seq<char>|
                self.staged@.dom().contains(other) <==> self.visible@.dom().contains(other)
                    || listed(self.created@, other) by {
                if listed(old(self).created@, other) {
                    let j = choose|j: int|
                        0 <= j < old(self).created@.len() && (#[trigger] old(
                            self,
                        ).created@[j])@ == other;
                    assert(self.created@[j]@ == other);
                }
                if listed(self.created@, other) {
                    let j = choose|j: int|
                        0 <= j < self.created@.len() && (#[trigger] self.created@[j])@ == other;
                    if j < old(self).created@.len() {
                        assert(old(self).created@[j]@ == other);
                    }
                }
            }
        }
        true
    }

    /// Stages `state` for the visible record of `id`. Returns whether there
    /// is such a record.
    pub fn write(&mut self, id: &str, state: QueryState) -> (written: bool)
        requires
            old(self).wf(),
        ensures
            final(self).wf(),
            final(self)@ == old(self)@.write(id@, state),
            written == old(self)@.visible.dom().contains(id@),
    {
        broadcast use vstd::multiset::group_multiset_axioms;

        match self.read(id) {
            None => false,
            Some(current) => {
                let ghost record = RecordView { table: current.table_name@, state: state };
                map_empty(&mut self.map, id.to_owned());
                map_insert(&mut self.map, id.to_owned(), current.table_name, state);
                self.staged = Ghost(self.staged@.insert(id@, record));
                proof {
                    assert(Bag::empty().insert((record.table, record.state))
                        =~= Multiset::singleton((record.table, record.state)));
                    assert(staged(self.map) =~= bags_of(self.staged@));
                }
                true
            },
        }
    }

    /// Makes every staged record visible to all readers.
    pub fn publish(&mut self)
        requires
            old(self).wf(),
        ensures
            final(self).wf(),
            final(self)@ == old(self)@.publish(),
    {
        map_refresh(&mut self.map);
        self.created.clear();
        self.visible = Ghost(self.staged@);
    }
}

impl StoreReader {
    /// The record of `id` in the version of the store that this reader sees
    /// at the time of the call. Which version that is the call decides;
    /// whichever it is, a record read from it names one of the four states.
    pub fn read(&self, id: &str) -> (found: Option<QueryProcess>)
        ensures
            found matches Some(record) ==> QueryState::named(record.state@) is Some,
    {
        match reader_get_one(&self.handle, id) {
            Some(pair) => {
                let (table_name, state) = pair;
                Some(record_of(table_name, state))
            },
            None => None,
        }
    }
}

} // verus!
