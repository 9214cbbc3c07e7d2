//! The table meter: which tables are measured, the walk that counts a
//! table's keys, and the size stats of two samples.
use vstd::prelude::*;

use crate::cpu_meter::{cpu_derived, name_or_unknown};
use crate::meter::{BpfRawStats, BpfStatsInfo, RawSample, SampleHistory, is_requested, wants_entity};

verus! {

/// Size of one table at the later of two samples.
#[derive(Clone, Copy, Debug, PartialEq, Eq, Structural)]
pub struct BpfMapStatsInfo {
    /// Capacity of the table
    pub max_size: u32,
    /// Number of entries in the table
    pub size: u32,
}

/// The kind of a kernel table, as far as this meter tells them apart.
#[derive(Clone, Copy, Debug, PartialEq, Eq, Structural)]
pub enum MapKind {
    Hash,
    PerCpuHash,
    LruHash,
    LruPerCpuHash,
    /// Any kind outside the hash family, or one that could not be read
    Other,
}

/// What the kernel lists of one loaded table.
pub struct MapEntry {
    pub id: u32,
    /// The table's name, where the kernel's one could be read
    pub name: Option<String>,
    pub kind: MapKind,
    /// Capacity of the table
    pub max_entries: u32,
}

/// Whether tables of this kind are measured: the hash family only.
pub open spec fn is_hash_family(kind: MapKind) -> bool {
    kind != MapKind::Other
}

/// Whether table `m` is measured, given the requested ids.
pub open spec fn is_target_map(requested: Seq<u32>, m: MapEntry) -> bool {
    is_requested(requested, m.id) && is_hash_family(m.kind)
}

/// The raw sample of table `m`, holding `entries` entries, at the tick of `base`.
pub open spec fn map_sample(base: RawSample, m: MapEntry, entries: u32) -> RawSample {
    RawSample {
        id: m.id,
        name: name_or_unknown(
            match m.name {
                Some(n) => Some(n@),
                None => None,
            },
        ),
        map_entries: entries,
        map_max_entries: m.max_entries,
        ..base
    }
}

/// What deriving `raw` returns, given the last sample of each id.
pub open spec fn map_derived(history: Map<u32, RawSample>, raw: RawSample) -> Option<BpfStatsInfo> {
    if history.contains_key(raw.id) {
        Some(BpfStatsInfo::Table(BpfMapStatsInfo { max_size: raw.map_max_entries, size: raw.map_entries }))
    } else {
        None
    }
}

/// Measures the number of entries of hash-family tables.
pub struct MapMeter {
    /// Last sample of each table id
    history: SampleHistory,
}

impl View for MapMeter {
    type V = Map<u32, RawSample>;

    closed spec fn view(&self) -> Map<u32, RawSample> {
        self.history@
    }
}

impl MapMeter {
    /// A meter that has seen no table yet.
    pub fn new() -> (r: MapMeter)
        ensures
            r@ == Map::<u32, RawSample>::empty(),
    {
        MapMeter { history: SampleHistory::new() }
    }

    /// Whether `map` is to be sampled: it is requested (an empty request
    /// asks for every table) and of the hash family.
    pub fn is_target(requested_ids: &Vec<u32>, map: &MapEntry) -> (r: bool)
        ensures
            r == is_target_map(requested_ids@, *map),
    {
        let hash = match map.kind {
            MapKind::Other => false,
            _ => true,
        };
        hash && wants_entity(requested_ids, map.id)
    }

    /// The raw sample of `map`, found to hold `entries` entries: `base` with
    /// the table's id, name (`unknown` where none could be read), size and
    /// capacity filled in.
    pub fn raw_stats(base: &BpfRawStats, map: &MapEntry, entries: u32) -> (r: BpfRawStats)
        ensures
            r@ == map_sample(base@, *map, entries),
    {
        let name = match &map.name {
            Some(n) => n.clone(),
            None => String::from_str("unknown"),
        };
        BpfRawStats {
            id: map.id,
            name,
            tick: base.tick,
            time_received_ns: base.time_received_ns,
            run_count: base.run_count,
            run_time_ns: base.run_time_ns,
            map_entries: entries,
            map_max_entries: map.max_entries,
        }
    }

    /// Derives the table stats of `raw` once its id has a previous sample,
    /// and makes `raw` the last sample. The first sample of an id yields
    /// nothing.
    pub fn generate_stats_info(&mut self, raw: &BpfRawStats) -> (r: Option<BpfStatsInfo>)
        ensures
            r == map_derived(old(self)@, raw@),
            final(self)@ == old(self)@.insert(raw.id, raw@),
    {
        match self.history.observe(raw) {
            None => None,
            Some(_) => Some(
                BpfStatsInfo::Table(
                    BpfMapStatsInfo { max_size: raw.map_max_entries, size: raw.map_entries },
                ),
            ),
        }
    }
}

/// Neither meter derives anything from the first sample of an id.
pub proof fn lemma_first_sample_yields_nothing(history: Map<u32, RawSample>, raw: RawSample)
    requires
        !history.contains_key(raw.id),
    ensures
        cpu_derived(history, raw) == None::<BpfStatsInfo>,
        map_derived(history, raw) == None::<BpfStatsInfo>,
{
}

/// The kernel's answer to one "next key after the current one" probe.
#[derive(Clone, Copy, Debug, PartialEq, Eq, Structural)]
pub enum NextKey {
    /// There is a next key; it becomes the current one
    Found,
    /// There are no more keys
    Exhausted,
    /// The probe failed with this error number
    Failed(i32),
}

/// Where a walk over a table's keys stands.
pub struct WalkState {
    pub capacity: u32,
    /// Keys counted so far
    pub size: u32,
    /// Whether the walk is over
    pub done: bool,
}

/// A walk stays within the table's capacity, and a walk that goes on has
/// room for one more key.
pub open spec fn walk_wf(s: WalkState) -> bool {
    &&& s.size <= s.capacity
    &&& !s.done ==> s.size < s.capacity
}

/// A walk over a table of capacity `capacity` that has counted nothing.
pub open spec fn walk_start(capacity: u32) -> WalkState {
    WalkState { capacity, size: 0, done: capacity == 0 }
}

/// The walk after one more probe: a found key is counted, and the walk is
/// over when the keys run out, a probe fails, or the capacity is reached.
pub open spec fn walk_next(s: WalkState, outcome: NextKey) -> WalkState {
    if s.done {
        s
    } else {
        match outcome {
            NextKey::Found => WalkState {
                capacity: s.capacity,
                size: (s.size + 1) as u32,
                done: s.size + 1 >= s.capacity,
            },
            _ => WalkState { capacity: s.capacity, size: s.size, done: true },
        }
    }
}

/// The walk after the probes that `outcomes` answer, in order.
pub open spec fn walk_run(s: WalkState, outcomes: Seq<NextKey>) -> WalkState
    decreases outcomes.len(),
{
    if outcomes.len() == 0 {
        s
    } else {
        walk_run(walk_next(s, outcomes[0]), outcomes.drop_first())
    }
}

/// How many probes a walk makes before it is over, when `outcomes` answer them.
pub open spec fn walk_probes(s: WalkState, outcomes: Seq<NextKey>) -> nat
    decreases outcomes.len(),
{
    if outcomes.len() == 0 || s.done {
        0
    } else {
        1 + walk_probes(walk_next(s, outcomes[0]), outcomes.drop_first())
    }
}

/// Counts the keys of a table by asking the kernel, from an empty key on, for
/// the key after the current one until it reports no more keys. A failed
/// probe ends the walk with what was counted so far; so does reaching the
/// table's capacity, so that the count never exceeds it.
pub struct TableWalk {
    capacity: u32,
    size: u32,
    done: bool,
}

impl View for TableWalk {
    type V = WalkState;

    closed spec fn view(&self) -> WalkState {
        WalkState { capacity: self.capacity, size: self.size, done: self.done }
    }
}

impl TableWalk {
    #[verifier::type_invariant]
    spec fn inv(&self) -> bool {
        walk_wf(self@)
    }

    /// A walk over a table of capacity `capacity`; over at once if the table
    /// can hold nothing.
    pub fn new(capacity: u32) -> (r: TableWalk)
        ensures
            r@ == walk_start(capacity),
    {
        TableWalk { capacity, size: 0, done: capacity == 0 }
    }

    /// Whether the walk is over.
    pub fn is_done(&self) -> (r: bool)
        ensures
            r == self@.done,
    {
        self.done
    }

    /// The number of keys counted so far.
    pub fn size(&self) -> (r: u32)
        ensures
            r == self@.size,
            r <= self@.capacity,
    {
        proof {
            use_type_invariant(self);
        }
        self.size
    }

    /// Takes the answer to one probe; returns whether to probe again.
    pub fn record(&mut self, outcome: NextKey) -> (more: bool)
        ensures
            final(self)@ == walk_next(old(self)@, outcome),
            more == !final(self)@.done,
    {
        proof {
            use_type_invariant(&*self);
        }
        if !self.done {
            match outcome {
                NextKey::Found => {
                    let size = self.size + 1;
                    *self = TableWalk { capacity: self.capacity, size, done: size >= self.capacity };
                },
                _ => {
                    *self = TableWalk { capacity: self.capacity, size: self.size, done: true };
                },
            }
        }
        !self.done
    }
}

/// A walk that has not yet exceeded its table's capacity never will, and
/// makes at most as many probes as the table has room left.
pub proof fn lemma_walk_within_capacity(s: WalkState, outcomes: Seq<NextKey>)
    requires
        walk_wf(s),
    ensures
        walk_wf(walk_run(s, outcomes)),
        walk_run(s, outcomes).size <= s.capacity,
        walk_probes(s, outcomes) <= s.capacity - s.size,
    decreases outcomes.len(),
{
    if outcomes.len() > 0 {
        lemma_walk_within_capacity(walk_next(s, outcomes[0]), outcomes.drop_first());
    }
}

/// Whatever the kernel answers, a walk over a table of capacity `capacity`
/// ends after at most `capacity` probes and reports at most `capacity` keys.
pub proof fn lemma_walk_terminates(capacity: u32, outcomes: Seq<NextKey>)
    ensures
        walk_probes(walk_start(capacity), outcomes) <= capacity,
        walk_run(walk_start(capacity), outcomes).size <= capacity,
{
    lemma_walk_within_capacity(walk_start(capacity), outcomes);
}

/// A table that holds `keys` keys, within its capacity, is reported to hold
/// exactly that many: the walk counts the keys the kernel hands out, in
/// whatever order it hands them out.
pub proof fn lemma_walk_counts_keys(capacity: u32, keys: nat, outcomes: Seq<NextKey>)
    requires
        keys <= capacity,
        keys < outcomes.len(),
        forall|i: int| 0 <= i < keys ==> outcomes[i] == NextKey::Found,
        outcomes[keys as int] == NextKey::Exhausted,
    ensures
        walk_run(walk_start(capacity), outcomes).size == keys,
{
    lemma_walk_counts_from(walk_start(capacity), keys, outcomes);
}

proof fn lemma_walk_counts_from(s: WalkState, found: nat, outcomes: Seq<NextKey>)
    requires
        walk_wf(s),
        s.size + found <= s.capacity,
        s.done ==> found == 0,
        found < outcomes.len(),
        forall|i: int| 0 <= i < found ==> outcomes[i] == NextKey::Found,
        outcomes[found as int] == NextKey::Exhausted,
    ensures
        walk_run(s, outcomes).size == s.size + found,
    decreases outcomes.len(),
{
    let next = walk_next(s, outcomes[0]);
    let rest = outcomes.drop_first();
    if found == 0 {
        lemma_walk_run_done(next, rest);
    } else {
        assert forall|i: int| 0 <= i < found - 1 implies rest[i] == NextKey::Found by {
            assert(rest[i] == outcomes[i + 1]);
        }
        assert(rest[found - 1] == outcomes[found as int]);
        lemma_walk_counts_from(next, (found - 1) as nat, rest);
    }
}

proof fn lemma_walk_run_done(s: WalkState, outcomes: Seq<NextKey>)
    requires
        s.done,
    ensures
        walk_run(s, outcomes) == s,
    decreases outcomes.len(),
{
    if outcomes.len() > 0 {
        lemma_walk_run_done(walk_next(s, outcomes[0]), outcomes.drop_first());
    }
}

} // verus!
