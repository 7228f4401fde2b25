//! Station/workflow chaining with provenance: each station holds named
//! quantities, each quantity records where its value came from.
use vstd::prelude::*;
use crate::strings::{join_seq, push_str};
use crate::text::str_eq;

verus! {

/// Where a station quantity's value came from.
#[derive(Debug, Clone, Copy, PartialEq, Eq, Structural)]
pub enum QuantityProvenance {
    /// Given by the caller.
    Input,
    /// Produced by a solve operation.
    Solved,
    /// Copied from another station.
    Propagated,
}

/// A quantity held by a station; `V` is the numeric value type.
#[derive(Debug, Clone)]
pub struct QuantityRecord<V> {
    pub value_si: V,
    pub provenance: QuantityProvenance,
    pub produced_by: Option<String>,
}

/// A named station and its quantities, keyed by name (a later write to a key
/// replaces the earlier record in place).
#[derive(Debug, Clone)]
pub struct StationState<V> {
    pub name: String,
    pub quantities: Vec<(String, QuantityRecord<V>)>,
}

/// One executed step of a workflow.
#[derive(Debug, Clone)]
pub struct WorkflowStepTrace {
    pub label: String,
    pub operation_id: String,
    pub path_text: String,
    pub warnings: Vec<String>,
}

/// The outcome of a workflow: its stations, in order of first use, and its steps.
#[derive(Debug, Clone)]
pub struct WorkflowRun<V> {
    pub stations: Vec<StationState<V>>,
    pub steps: Vec<WorkflowStepTrace>,
    pub warnings: Vec<String>,
}

/// Why a workflow operation failed.
#[derive(Debug, Clone)]
pub enum WorkflowError {
    /// The quantity to propagate does not exist at the source station.
    MissingQuantity { station: String, key: String },
}

// ---------------------------------------------------------------------------
// Mathematical model

pub struct RecordView<V> {
    pub value: V,
    pub provenance: QuantityProvenance,
    pub produced_by: Option<Seq<char>>,
}

pub struct StationView<V> {
    pub name: Seq<char>,
    pub quantities: Seq<(Seq<char>, RecordView<V>)>,
}

pub open spec fn opt_string_view(o: Option<String>) -> Option<Seq<char>> {
    match o {
        Some(s) => Some(s@),
        None => None,
    }
}

pub open spec fn record_view<V>(r: QuantityRecord<V>) -> RecordView<V> {
    RecordView { value: r.value_si, provenance: r.provenance, produced_by: opt_string_view(r.produced_by) }
}

pub open spec fn quantities_view<V>(q: Seq<(String, QuantityRecord<V>)>) -> Seq<(Seq<char>, RecordView<V>)> {
    Seq::new(q.len(), |i: int| (q[i].0@, record_view(q[i].1)))
}

pub open spec fn station_view<V>(s: StationState<V>) -> StationView<V> {
    StationView { name: s.name@, quantities: quantities_view(s.quantities@) }
}

pub open spec fn stations_view<V>(s: Seq<StationState<V>>) -> Seq<StationView<V>> {
    Seq::new(s.len(), |i: int| station_view(s[i]))
}

/// The first position whose key is `key`, or -1.
#[verifier::opaque]
pub open spec fn key_index<V>(q: Seq<(Seq<char>, RecordView<V>)>, key: Seq<char>) -> int {
    if exists|i: int| 0 <= i < q.len() && q[i].0 == key {
        choose|i: int| 0 <= i < q.len() && q[i].0 == key && forall|j: int| 0 <= j < i ==> q[j].0 != key
    } else {
        -1
    }
}

/// The first position whose station is named `name`, or -1.
#[verifier::opaque]
pub open spec fn station_index<V>(s: Seq<StationView<V>>, name: Seq<char>) -> int {
    if exists|i: int| 0 <= i < s.len() && s[i].name == name {
        choose|i: int| 0 <= i < s.len() && s[i].name == name && forall|j: int| 0 <= j < i ==> s[j].name != name
    } else {
        -1
    }
}


/// `i` is the first position holding `key`.
pub proof fn lemma_key_index_at<V>(q: Seq<(Seq<char>, RecordView<V>)>, key: Seq<char>, i: int)
    requires
        0 <= i < q.len(),
        q[i].0 == key,
        forall|j: int| 0 <= j < i ==> q[j].0 != key,
    ensures
        key_index(q, key) == i,
{
    reveal(key_index);
    let c = choose|c: int| 0 <= c < q.len() && q[c].0 == key && forall|j: int| 0 <= j < c ==> q[j].0 != key;
    if c < i {
        assert(q[c].0 != key);
    }
    if c > i {
        assert(q[i].0 != key);
    }
}

/// No position holds `key`.
pub proof fn lemma_key_index_none<V>(q: Seq<(Seq<char>, RecordView<V>)>, key: Seq<char>)
    requires
        forall|j: int| 0 <= j < q.len() ==> q[j].0 != key,
    ensures
        key_index(q, key) == -1,
{
    reveal(key_index);
}

/// The index is -1 or a first position holding `key`.
pub proof fn lemma_key_index<V>(q: Seq<(Seq<char>, RecordView<V>)>, key: Seq<char>)
    ensures
        key_index(q, key) == -1 || (0 <= key_index(q, key) < q.len() && q[key_index(q, key)].0 == key
            && forall|j: int| 0 <= j < key_index(q, key) ==> q[j].0 != key),
        key_index(q, key) == -1 ==> forall|j: int| 0 <= j < q.len() ==> q[j].0 != key,
{
    reveal(key_index);
    if exists|i: int| 0 <= i < q.len() && q[i].0 == key {
        let w = choose|i: int| 0 <= i < q.len() && q[i].0 == key;
        // Some position holds the key, so a first one exists.
        lemma_first_key(q, key, w);
    }
}

proof fn lemma_first_key<V>(q: Seq<(Seq<char>, RecordView<V>)>, key: Seq<char>, w: int)
    requires
        0 <= w < q.len(),
        q[w].0 == key,
    ensures
        exists|c: int| 0 <= c < q.len() && q[c].0 == key && forall|j: int| 0 <= j < c ==> q[j].0 != key,
    decreases w,
{
    if exists|j: int| 0 <= j < w && q[j].0 == key {
        let w2 = choose|j: int| 0 <= j < w && q[j].0 == key;
        lemma_first_key(q, key, w2);
    } else {
        assert(forall|j: int| 0 <= j < w ==> q[j].0 != key);
    }
}

/// `i` is the first station named `name`.
pub proof fn lemma_station_index_at<V>(s: Seq<StationView<V>>, name: Seq<char>, i: int)
    requires
        0 <= i < s.len(),
        s[i].name == name,
        forall|j: int| 0 <= j < i ==> s[j].name != name,
    ensures
        station_index(s, name) == i,
{
    reveal(station_index);
    let c = choose|c: int| 0 <= c < s.len() && s[c].name == name && forall|j: int| 0 <= j < c ==> s[j].name != name;
    if c < i {
        assert(s[c].name != name);
    }
    if c > i {
        assert(s[i].name != name);
    }
}

/// No station is named `name`.
pub proof fn lemma_station_index_none<V>(s: Seq<StationView<V>>, name: Seq<char>)
    requires
        forall|j: int| 0 <= j < s.len() ==> s[j].name != name,
    ensures
        station_index(s, name) == -1,
{
    reveal(station_index);
}

/// The index is -1 or the first station named `name`.
pub proof fn lemma_station_index<V>(s: Seq<StationView<V>>, name: Seq<char>)
    ensures
        station_index(s, name) == -1 || (0 <= station_index(s, name) < s.len() && s[station_index(s, name)].name == name
            && forall|j: int| 0 <= j < station_index(s, name) ==> s[j].name != name),
        station_index(s, name) == -1 ==> forall|j: int| 0 <= j < s.len() ==> s[j].name != name,
{
    reveal(station_index);
    if exists|i: int| 0 <= i < s.len() && s[i].name == name {
        let w = choose|i: int| 0 <= i < s.len() && s[i].name == name;
        lemma_first_station(s, name, w);
    }
}

proof fn lemma_first_station<V>(s: Seq<StationView<V>>, name: Seq<char>, w: int)
    requires
        0 <= w < s.len(),
        s[w].name == name,
    ensures
        exists|c: int| 0 <= c < s.len() && s[c].name == name && forall|j: int| 0 <= j < c ==> s[j].name != name,
    decreases w,
{
    if exists|j: int| 0 <= j < w && s[j].name == name {
        let w2 = choose|j: int| 0 <= j < w && s[j].name == name;
        lemma_first_station(s, name, w2);
    } else {
        assert(forall|j: int| 0 <= j < w ==> s[j].name != name);
    }
}

/// The record stored under `key`.
pub open spec fn get_quantity<V>(q: Seq<(Seq<char>, RecordView<V>)>, key: Seq<char>) -> Option<RecordView<V>> {
    let i = key_index(q, key);
    if i >= 0 { Some(q[i].1) } else { None }
}

/// The record stored under `key` at station `station`.
pub open spec fn lookup<V>(s: Seq<StationView<V>>, station: Seq<char>, key: Seq<char>) -> Option<RecordView<V>> {
    let i = station_index(s, station);
    if i >= 0 { get_quantity(s[i].quantities, key) } else { None }
}

/// Stores `r` under `key`: in place of an existing record, else at the end.
pub open spec fn put_quantity<V>(q: Seq<(Seq<char>, RecordView<V>)>, key: Seq<char>, r: RecordView<V>) -> Seq<(Seq<char>, RecordView<V>)> {
    let i = key_index(q, key);
    if i >= 0 { q.update(i, (key, r)) } else { q.push((key, r)) }
}

/// Stores `r` under `key` at station `station`, creating the station at the end
/// when it does not exist yet.
pub open spec fn put<V>(s: Seq<StationView<V>>, station: Seq<char>, key: Seq<char>, r: RecordView<V>) -> Seq<StationView<V>> {
    let i = station_index(s, station);
    if i >= 0 {
        s.update(i, StationView { name: s[i].name, quantities: put_quantity(s[i].quantities, key, r) })
    } else {
        s.push(StationView { name: station, quantities: seq![(key, r)] })
    }
}

pub open spec fn step_texts(steps: Seq<WorkflowStepTrace>) -> Seq<Seq<char>> {
    Seq::new(steps.len(), |i: int| steps[i].operation_id@ + " -> "@ + steps[i].path_text@)
}

// ---------------------------------------------------------------------------
// Laws

/// A read at the position just written gives back what was written.
pub proof fn read_after_write<V>(s: Seq<StationView<V>>, station: Seq<char>, key: Seq<char>, r: RecordView<V>)
    ensures
        lookup(put(s, station, key, r), station, key) == Some(r),
{
    let t = put(s, station, key, r);
    let i = station_index(s, station);
    lemma_station_index(s, station);
    if i >= 0 {
        let q = s[i].quantities;
        let k = key_index(q, key);
        let q2 = put_quantity(q, key, r);
        lemma_key_index(q, key);
        assert forall|j: int| 0 <= j < i implies t[j].name != station by {}
        lemma_station_index_at(t, station, i);
        assert(t[i].quantities == q2);
        if k >= 0 {
            assert forall|j: int| 0 <= j < k implies q2[j].0 != key by {}
            lemma_key_index_at(q2, key, k);
        } else {
            assert forall|j: int| 0 <= j < q.len() implies q2[j].0 != key by {}
            lemma_key_index_at(q2, key, q.len() as int);
        }
    } else {
        let n = s.len() as int;
        assert forall|j: int| 0 <= j < n implies t[j].name != station by {}
        lemma_station_index_at(t, station, n);
        let q2 = t[n].quantities;
        lemma_key_index_at(q2, key, 0);
    }
}

/// A write at one position leaves every other position as it was.
pub proof fn write_leaves_others<V>(
    s: Seq<StationView<V>>,
    station: Seq<char>,
    key: Seq<char>,
    r: RecordView<V>,
    station2: Seq<char>,
    key2: Seq<char>,
)
    requires
        station2 != station || key2 != key,
    ensures
        lookup(put(s, station, key, r), station2, key2) == lookup(s, station2, key2),
{
    let t = put(s, station, key, r);
    let i = station_index(s, station);
    lemma_station_index(s, station);
    write_keeps_station_order(s, station, key, r);
    if station2 != station {
        let i2 = station_index(s, station2);
        lemma_station_index(s, station2);
        if i2 >= 0 {
            assert forall|j: int| 0 <= j < i2 implies t[j].name != station2 by {
                assert(t[j].name == s[j].name);
            }
            assert(t[i2].name == s[i2].name);
            lemma_station_index_at(t, station2, i2);
            assert(t[i2].quantities == s[i2].quantities);
        } else {
            assert forall|j: int| 0 <= j < t.len() implies t[j].name != station2 by {
                if j < s.len() {
                    assert(t[j].name == s[j].name);
                }
            }
            lemma_station_index_none(t, station2);
        }
    } else {
        if i >= 0 {
            assert forall|j: int| 0 <= j < i implies t[j].name != station by {}
            lemma_station_index_at(t, station, i);
            let q = s[i].quantities;
            let q2 = put_quantity(q, key, r);
            lemma_key_index(q, key);
            assert(t[i].quantities == q2);
            assert(q2.len() >= q.len());
            assert forall|j: int| 0 <= j < q.len() implies q2[j].0 == q[j].0 by {}
            let k2 = key_index(q, key2);
            lemma_key_index(q, key2);
            if k2 >= 0 {
                assert forall|j: int| 0 <= j < k2 implies q2[j].0 != key2 by {
                    assert(q2[j].0 == q[j].0);
                }
                assert(q2[k2] == q[k2]);
                lemma_key_index_at(q2, key2, k2);
            } else {
                assert forall|j: int| 0 <= j < q2.len() implies q2[j].0 != key2 by {
                    if j < q.len() {
                        assert(q2[j].0 == q[j].0);
                    }
                }
                lemma_key_index_none(q2, key2);
            }
        } else {
            let n = s.len() as int;
            assert forall|j: int| 0 <= j < n implies t[j].name != station by {}
            lemma_station_index_at(t, station, n);
            let q2 = t[n].quantities;
            assert forall|j: int| 0 <= j < q2.len() implies q2[j].0 != key2 by {}
            lemma_key_index_none(q2, key2);
        }
    }
}

/// Writing never reorders or renames stations; a write to a new station appends it.
pub proof fn write_keeps_station_order<V>(s: Seq<StationView<V>>, station: Seq<char>, key: Seq<char>, r: RecordView<V>)
    ensures
        put(s, station, key, r).len() == s.len() + (if station_index(s, station) >= 0 { 0int } else { 1int }),
        forall|j: int| 0 <= j < s.len() ==> (#[trigger] put(s, station, key, r)[j]).name == s[j].name,
        station_index(s, station) < 0 ==> put(s, station, key, r).last().name == station,
{
    lemma_station_index(s, station);
}

// ---------------------------------------------------------------------------
// Executable code

/// The position of the first station named `name`.
fn find_station<V>(stations: &Vec<StationState<V>>, name: &str) -> (res: Option<usize>)
    ensures
        match res {
            Some(i) => i as int == station_index(stations_view(stations@), name@) && i < stations@.len(),
            None => station_index(stations_view(stations@), name@) == -1,
        },
{
    let ghost sv = stations_view(stations@);
    let mut i: usize = 0;
    while i < stations.len()
        invariant
            i <= stations@.len(),
            sv == stations_view(stations@),
            forall|j: int| 0 <= j < i ==> sv[j].name != name@,
        decreases stations.len() - i,
    {
        if str_eq(stations[i].name.as_str(), name) {
            assert(sv[i as int].name == name@);
            proof { lemma_station_index_at(sv, name@, i as int); }
            return Some(i);
        }
        i = i + 1;
    }
    proof { lemma_station_index_none(sv, name@); }
    None
}

/// The position of the first record stored under `key`.
fn find_key<V>(quantities: &Vec<(String, QuantityRecord<V>)>, key: &str) -> (res: Option<usize>)
    ensures
        match res {
            Some(k) => k as int == key_index(quantities_view(quantities@), key@) && k < quantities@.len(),
            None => key_index(quantities_view(quantities@), key@) == -1,
        },
{
    let ghost qv = quantities_view(quantities@);
    let mut k: usize = 0;
    while k < quantities.len()
        invariant
            k <= quantities@.len(),
            qv == quantities_view(quantities@),
            forall|j: int| 0 <= j < k ==> qv[j].0 != key@,
        decreases quantities.len() - k,
    {
        if str_eq(quantities[k].0.as_str(), key) {
            assert(qv[k as int].0 == key@);
            proof { lemma_key_index_at(qv, key@, k as int); }
            return Some(k);
        }
        k = k + 1;
    }
    proof { lemma_key_index_none(qv, key@); }
    None
}

impl<V> WorkflowRun<V> {
    /// The first station with the given name.
    pub fn station(&self, name: &str) -> (res: Option<&StationState<V>>)
        ensures
            station_index(stations_view(self.stations@), name@) < 0 ==> res is None,
            station_index(stations_view(self.stations@), name@) >= 0 ==> res == Some(
                &self.stations@[station_index(stations_view(self.stations@), name@)],
            ),
    {
        match find_station(&self.stations, name) {
            Some(i) => Some(&self.stations[i]),
            None => None,
        }
    }

    /// Each step as `operation -> path`, joined by ` => `.
    pub fn path_text(&self) -> (res: String)
        ensures
            res@ == join_seq(step_texts(self.steps@), " => "@),
    {
        let ghost all = step_texts(self.steps@);
        let mut out = String::new();
        let mut i: usize = 0;
        while i < self.steps.len()
            invariant
                i <= self.steps@.len(),
                all == step_texts(self.steps@),
                out@ == join_seq(all.take(i as int), " => "@),
            decreases self.steps.len() - i,
        {
            assert(all.take(i + 1).drop_last() == all.take(i as int));
            if i != 0 {
                push_str(&mut out, " => ");
            } else {
                assert(all.take(1) == seq![all[0]]);
            }
            let ghost before = out@;
            push_str(&mut out, self.steps[i].operation_id.as_str());
            push_str(&mut out, " -> ");
            push_str(&mut out, self.steps[i].path_text.as_str());
            assert(out@ == before + all[i as int]);
            i = i + 1;
        }
        assert(all.take(self.steps@.len() as int) == all);
        out
    }
}

impl<V> StationState<V> {
    /// The record stored under `key`.
    pub fn quantity(&self, key: &str) -> (res: Option<&QuantityRecord<V>>)
        ensures
            match res {
                Some(r) => get_quantity(quantities_view(self.quantities@), key@) == Some(record_view(*r)),
                None => get_quantity(quantities_view(self.quantities@), key@) is None,
            },
    {
        match find_key(&self.quantities, key) {
            Some(k) => Some(&self.quantities[k].1),
            None => None,
        }
    }
}

/// Builds a workflow run station by station.
pub struct WorkflowBuilder<V> {
    run: WorkflowRun<V>,
}

impl<V> WorkflowBuilder<V> {
    /// The stations recorded so far.
    pub closed spec fn stations(&self) -> Seq<StationView<V>> {
        stations_view(self.run.stations@)
    }

    /// The steps recorded so far.
    pub closed spec fn steps(&self) -> Seq<WorkflowStepTrace> {
        self.run.steps@
    }

    /// The warnings recorded so far.
    pub closed spec fn warnings(&self) -> Seq<String> {
        self.run.warnings@
    }

    /// An empty workflow.
    pub fn new() -> (res: Self)
        ensures
            res.stations() == Seq::<StationView<V>>::empty(),
            res.steps() == Seq::<WorkflowStepTrace>::empty(),
            res.warnings() == Seq::<String>::empty(),
    {
        let res = WorkflowBuilder { run: WorkflowRun { stations: Vec::new(), steps: Vec::new(), warnings: Vec::new() } };
        assert(res.stations() =~= Seq::<StationView<V>>::empty());
        res
    }

    /// Stores a record at a station, creating the station if needed.
    fn put_record(&mut self, station: &str, key: &str, record: QuantityRecord<V>)
        ensures
            final(self).stations() == put(old(self).stations(), station@, key@, record_view(record)),
            final(self).steps() == old(self).steps(),
            final(self).warnings() == old(self).warnings(),
    {
        let ghost s = self.stations();
        let ghost rv = record_view(record);
        proof { lemma_station_index(s, station@); }
        match find_station(&self.run.stations, station) {
            Some(i) => {
                let mut st = self.run.stations.remove(i);
                let ghost q = quantities_view(st.quantities@);
                assert(q == s[i as int].quantities);
                proof { lemma_key_index(q, key@); }
                match find_key(&st.quantities, key) {
                    Some(k) => {
                        st.quantities.remove(k);
                        st.quantities.insert(k, (String::from_str(key), record));
                        assert(quantities_view(st.quantities@) =~= q.update(k as int, (key@, rv)));
                    },
                    None => {
                        st.quantities.push((String::from_str(key), record));
                        assert(quantities_view(st.quantities@) =~= q.push((key@, rv)));
                    },
                }
                assert(station_view(st) == StationView { name: s[i as int].name, quantities: put_quantity(q, key@, rv) });
                self.run.stations.insert(i, st);
                assert(stations_view(self.run.stations@) =~= put(s, station@, key@, rv));
            },
            None => {
                let mut quantities: Vec<(String, QuantityRecord<V>)> = Vec::new();
                quantities.push((String::from_str(key), record));
                let st = StationState { name: String::from_str(station), quantities };
                assert(quantities_view(st.quantities@) =~= seq![(key@, rv)]);
                self.run.stations.push(st);
                assert(stations_view(self.run.stations@) =~= put(s, station@, key@, rv));
            },
        }
    }

    /// Records a caller-given quantity at a station.
    pub fn add_station_input(&mut self, station: &str, key: &str, value_si: V)
        ensures
            final(self).stations() == put(
                old(self).stations(),
                station@,
                key@,
                RecordView { value: value_si, provenance: QuantityProvenance::Input, produced_by: None },
            ),
            final(self).steps() == old(self).steps(),
            final(self).warnings() == old(self).warnings(),
    {
        self.put_record(station, key, QuantityRecord { value_si, provenance: QuantityProvenance::Input, produced_by: None });
    }

    /// Records a quantity solved by operation `op` at a station.
    pub fn add_station_solved(&mut self, station: &str, key: &str, value_si: V, op: &str)
        ensures
            final(self).stations() == put(
                old(self).stations(),
                station@,
                key@,
                RecordView { value: value_si, provenance: QuantityProvenance::Solved, produced_by: Some(op@) },
            ),
            final(self).steps() == old(self).steps(),
            final(self).warnings() == old(self).warnings(),
    {
        self.put_record(
            station,
            key,
            QuantityRecord { value_si, provenance: QuantityProvenance::Solved, produced_by: Some(String::from_str(op)) },
        );
    }

    /// Appends a step trace.
    pub fn add_step(&mut self, label: &str, operation_id: &str, path_text: String)
        ensures
            final(self).stations() == old(self).stations(),
            final(self).warnings() == old(self).warnings(),
            final(self).steps().len() == old(self).steps().len() + 1,
            final(self).steps().drop_last() == old(self).steps(),
            final(self).steps().last().label@ == label@,
            final(self).steps().last().operation_id@ == operation_id@,
            final(self).steps().last().path_text@ == path_text@,
            final(self).steps().last().warnings@.len() == 0,
    {
        self.run.steps.push(WorkflowStepTrace {
            label: String::from_str(label),
            operation_id: String::from_str(operation_id),
            path_text,
            warnings: Vec::new(),
        });
        assert(self.steps().drop_last() =~= old(self).steps());
    }

    /// The finished run.
    pub fn finish(self) -> (res: WorkflowRun<V>)
        ensures
            stations_view(res.stations@) == self.stations(),
            res.steps@ == self.steps(),
            res.warnings@ == self.warnings(),
    {
        self.run
    }
}

impl<V: Copy> WorkflowBuilder<V> {
    /// Copies the quantity `key` from one station to another, recording the
    /// operation that carried it; fails when the source has no such quantity.
    pub fn propagate(&mut self, from_station: &str, to_station: &str, key: &str, operation: &str) -> (res: Result<(), WorkflowError>)
        ensures
            final(self).steps() == old(self).steps(),
            final(self).warnings() == old(self).warnings(),
            match lookup(old(self).stations(), from_station@, key@) {
                None => {
                    &&& final(self).stations() == old(self).stations()
                    &&& res matches Err(WorkflowError::MissingQuantity { station, key: k })
                    &&& station@ == from_station@
                    &&& k@ == key@
                },
                Some(r) => {
                    &&& res is Ok
                    &&& final(self).stations() == put(
                        old(self).stations(),
                        to_station@,
                        key@,
                        RecordView { value: r.value, provenance: QuantityProvenance::Propagated, produced_by: Some(operation@) },
                    )
                },
            },
    {
        let ghost s = self.stations();
        let i = match find_station(&self.run.stations, from_station) {
            Some(i) => i,
            None => {
                return Err(WorkflowError::MissingQuantity { station: String::from_str(from_station), key: String::from_str(key) });
            },
        };
        assert(s[i as int].quantities == quantities_view(self.run.stations@[i as int].quantities@));
        let k = match find_key(&self.run.stations[i].quantities, key) {
            Some(k) => k,
            None => {
                return Err(WorkflowError::MissingQuantity { station: String::from_str(from_station), key: String::from_str(key) });
            },
        };
        let value: V = self.run.stations[i].quantities[k].1.value_si;
        self.put_record(
            to_station,
            key,
            QuantityRecord { value_si: value, provenance: QuantityProvenance::Propagated, produced_by: Some(String::from_str(operation)) },
        );
        Ok(())
    }
}

} // verus!

verus! {

/// The value type of a study input field.
#[derive(Debug, Clone, Copy, PartialEq, Eq, Structural)]
pub enum WorkflowFieldType {
    Float,
    Int,
    Bool,
    Enum,
    String,
}

/// One input of a studyable workflow.
#[derive(Debug, Clone)]
pub struct WorkflowInputFieldSpec {
    pub key: &'static str,
    pub label: &'static str,
    pub description: &'static str,
    pub field_type: WorkflowFieldType,
    pub required: bool,
    pub sweepable: bool,
    pub enum_options: Vec<&'static str>,
    pub default_value: Option<&'static str>,
}

/// One output column of a studyable workflow.
#[derive(Debug, Clone)]
pub struct WorkflowOutputFieldSpec {
    pub key: &'static str,
    pub label: &'static str,
    pub description: &'static str,
    pub plottable: bool,
}

/// A workflow that studies can sweep: how it is evaluated, what it takes and
/// what it reports.
#[derive(Debug, Clone)]
pub struct WorkflowStudySpecEntry {
    pub key: &'static str,
    pub name: &'static str,
    pub summary: &'static str,
    pub eval_op: &'static str,
    pub default_sweep_arg: &'static str,
    pub default_columns: Vec<&'static str>,
    pub input_fields: Vec<WorkflowInputFieldSpec>,
    pub output_fields: Vec<WorkflowOutputFieldSpec>,
}

/// The description of a study entry is consistent: the default sweep argument
/// is a sweepable input, every default column is an output, and every enum
/// input's default is one of its options.
pub open spec fn study_entry_consistent(e: WorkflowStudySpecEntry) -> bool {
    &&& exists|i: int| 0 <= i < e.input_fields.len() && (#[trigger] e.input_fields[i]).key@ == e.default_sweep_arg@
        && e.input_fields[i].sweepable
    &&& forall|c: int| 0 <= c < e.default_columns.len() ==> exists|j: int| 0 <= j < e.output_fields.len()
        && (#[trigger] e.output_fields[j]).key@ == (#[trigger] e.default_columns[c])@
    &&& forall|i: int| 0 <= i < e.input_fields.len() ==> ((#[trigger] e.input_fields[i]).field_type == WorkflowFieldType::Enum
        ==> (e.input_fields[i].default_value matches Some(d) ==> exists|k: int| 0 <= k < e.input_fields[i].enum_options.len()
            && (#[trigger] e.input_fields[i].enum_options[k]) == d))
}

fn nozzle_normal_shock_input_fields() -> (res: Vec<WorkflowInputFieldSpec>)
    ensures
        res.len() == 3,
        res[0].key@ == "gamma"@ && res[0].sweepable && res[0].field_type == WorkflowFieldType::Float,
        res[1].key@ == "area_ratio"@ && res[1].sweepable && res[1].field_type == WorkflowFieldType::Float,
        res[2].key@ == "branch"@ && !res[2].sweepable && res[2].field_type == WorkflowFieldType::Enum,
        res[2].enum_options@ == seq!["subsonic", "supersonic"],
        res[2].default_value == Some("supersonic"),
{
    let res = vec![
        WorkflowInputFieldSpec {
            key: "gamma",
            label: "Gamma",
            description: "Specific heat ratio",
            field_type: WorkflowFieldType::Float,
            required: true,
            sweepable: true,
            enum_options: Vec::new(),
            default_value: Some("1.4"),
        },
        WorkflowInputFieldSpec {
            key: "area_ratio",
            label: "Area ratio (A/A*)",
            description: "Nozzle area ratio",
            field_type: WorkflowFieldType::Float,
            required: true,
            sweepable: true,
            enum_options: Vec::new(),
            default_value: Some("2.0"),
        },
        WorkflowInputFieldSpec {
            key: "branch",
            label: "Branch",
            description: "Nozzle branch for area_ratio -> Mach inversion",
            field_type: WorkflowFieldType::Enum,
            required: false,
            sweepable: false,
            enum_options: vec!["subsonic", "supersonic"],
            default_value: Some("supersonic"),
        },
    ];
    res
}

/// The output column keys of the nozzle/normal-shock chain.
pub open spec fn nozzle_normal_shock_columns() -> Seq<Seq<char>> {
    seq!["pre_shock_mach"@, "post_shock_mach"@, "shock_pressure_ratio"@, "s1_mach_provenance"@]
}

fn nozzle_normal_shock_output_fields() -> (res: Vec<WorkflowOutputFieldSpec>)
    ensures
        res.len() == 4,
        forall|i: int| 0 <= i < 4 ==> (#[trigger] res[i]).key@ == nozzle_normal_shock_columns()[i] && res[i].plottable,
{
    let res = vec![
        WorkflowOutputFieldSpec {
            key: "pre_shock_mach",
            label: "Pre-shock Mach",
            description: "Mach immediately before shock",
            plottable: true,
        },
        WorkflowOutputFieldSpec {
            key: "post_shock_mach",
            label: "Post-shock Mach",
            description: "Mach immediately after normal shock",
            plottable: true,
        },
        WorkflowOutputFieldSpec {
            key: "shock_pressure_ratio",
            label: "Shock pressure ratio",
            description: "Normal-shock static pressure ratio p2/p1",
            plottable: true,
        },
        WorkflowOutputFieldSpec {
            key: "s1_mach_provenance",
            label: "S1 Mach provenance",
            description: "Provenance code (0 input, 1 solved, 2 propagated)",
            plottable: true,
        },
    ];
    res
}

/// The workflows that studies can sweep: the nozzle/normal-shock chain, swept
/// over the area ratio by default.
pub fn studyable_workflows() -> (entries: Vec<WorkflowStudySpecEntry>)
    ensures
        entries.len() == 1,
        entries[0].key@ == "nozzle_normal_shock_chain"@,
        entries[0].eval_op@ == "workflow.nozzle_normal_shock.eval"@,
        entries[0].default_sweep_arg@ == "area_ratio"@,
        entries[0].default_columns@.map_values(|c: &'static str| c@) == nozzle_normal_shock_columns(),
        entries[0].input_fields.len() == 3,
        entries[0].output_fields.len() == 4,
        forall|i: int| 0 <= i < entries.len() ==> study_entry_consistent(#[trigger] entries[i]),
{
    let e = WorkflowStudySpecEntry {
        key: "nozzle_normal_shock_chain",
        name: "Nozzle + Normal Shock Chain",
        summary: "Chained station workflow: nozzle area-ratio solve followed by normal-shock propagation.",
        eval_op: "workflow.nozzle_normal_shock.eval",
        default_sweep_arg: "area_ratio",
        default_columns: vec!["pre_shock_mach", "post_shock_mach", "shock_pressure_ratio", "s1_mach_provenance"],
        input_fields: nozzle_normal_shock_input_fields(),
        output_fields: nozzle_normal_shock_output_fields(),
    };
    proof {
        assert(e.default_columns@.map_values(|c: &'static str| c@) =~= nozzle_normal_shock_columns());
        assert(e.input_fields[1].key@ == e.default_sweep_arg@);
        assert forall|c: int| 0 <= c < e.default_columns.len() implies exists|j: int| 0 <= j < e.output_fields.len()
            && (#[trigger] e.output_fields[j]).key@ == (#[trigger] e.default_columns[c])@ by {
            assert(e.output_fields[c].key@ == nozzle_normal_shock_columns()[c]);
            assert(e.default_columns@.map_values(|c: &'static str| c@)[c] == e.default_columns[c]@);
        }
        assert forall|i: int| 0 <= i < e.input_fields.len() implies ((#[trigger] e.input_fields[i]).field_type == WorkflowFieldType::Enum
            ==> (e.input_fields[i].default_value matches Some(d) ==> exists|k: int| 0 <= k < e.input_fields[i].enum_options.len()
                && (#[trigger] e.input_fields[i].enum_options[k]) == d)) by {
            if i == 2 {
                assert(e.input_fields[2].enum_options[1] == "supersonic");
            }
        }
    }
    vec![e]
}

/// The number a study table reports for a quantity's provenance: 0 for an
/// input, 1 for a solved value, 2 for a propagated one, -1 when the quantity
/// is missing.
pub fn provenance_code(p: Option<QuantityProvenance>) -> (code: i32)
    ensures
        code == match p {
            Some(QuantityProvenance::Input) => 0int,
            Some(QuantityProvenance::Solved) => 1int,
            Some(QuantityProvenance::Propagated) => 2int,
            None => -1int,
        },
{
    match p {
        Some(QuantityProvenance::Input) => 0,
        Some(QuantityProvenance::Solved) => 1,
        Some(QuantityProvenance::Propagated) => 2,
        None => -1,
    }
}

} // verus!
