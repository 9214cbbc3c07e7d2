//! Raw samples, the per-id history that derived stats are measured against,
//! and the records handed to exporters.
use std::collections::HashMap;
use vstd::prelude::*;

use crate::cpu_meter::BpfCPUStatsInfo;
use crate::map_meter::BpfMapStatsInfo;

verus! {

/// Raw counters of one program or table, taken once per tick.
///
/// Times are nanoseconds: `time_received_ns` since the start of the
/// pipeline, `run_time_ns` the busy time the kernel has accumulated.
#[derive(Debug)]
pub struct BpfRawStats {
    /// Program or table id
    pub id: u32,
    /// Program or table name
    pub name: String,
    /// Tick number
    pub tick: u64,
    /// When the sample was taken, in nanoseconds since the pipeline started
    pub time_received_ns: u64,
    /// Number of times the program ran before this tick
    pub run_count: u64,
    /// Busy time of the program before this tick, in nanoseconds
    pub run_time_ns: u64,
    /// Current number of entries of the table
    pub map_entries: u32,
    /// Capacity of the table
    pub map_max_entries: u32,
}

/// What a raw sample holds, with its name as a sequence of characters.
pub struct RawSample {
    pub id: u32,
    pub name: Seq<char>,
    pub tick: u64,
    pub time_received_ns: u64,
    pub run_count: u64,
    pub run_time_ns: u64,
    pub map_entries: u32,
    pub map_max_entries: u32,
}

impl View for BpfRawStats {
    type V = RawSample;

    open spec fn view(&self) -> RawSample {
        RawSample {
            id: self.id,
            name: self.name@,
            tick: self.tick,
            time_received_ns: self.time_received_ns,
            run_count: self.run_count,
            run_time_ns: self.run_time_ns,
            map_entries: self.map_entries,
            map_max_entries: self.map_max_entries,
        }
    }
}

/// The sample a tick starts from: stamped with the tick and its time, every
/// entity-specific field empty.
pub open spec fn base_sample(tick: u64, time_received_ns: u64) -> RawSample {
    RawSample {
        id: 0,
        name: Seq::empty(),
        tick,
        time_received_ns,
        run_count: 0,
        run_time_ns: 0,
        map_entries: 0,
        map_max_entries: 0,
    }
}

impl BpfRawStats {
    /// The base sample of one tick, which the meters fill in per entity.
    pub fn base(tick: u64, time_received_ns: u64) -> (r: BpfRawStats)
        ensures
            r@ == base_sample(tick, time_received_ns),
    {
        BpfRawStats {
            id: 0,
            name: String::new(),
            tick,
            time_received_ns,
            run_count: 0,
            run_time_ns: 0,
            map_entries: 0,
            map_max_entries: 0,
        }
    }

    /// A copy of this sample.
    pub fn duplicate(&self) -> (r: BpfRawStats)
        ensures
            r@ == self@,
    {
        BpfRawStats {
            id: self.id,
            name: self.name.clone(),
            tick: self.tick,
            time_received_ns: self.time_received_ns,
            run_count: self.run_count,
            run_time_ns: self.run_time_ns,
            map_entries: self.map_entries,
            map_max_entries: self.map_max_entries,
        }
    }
}

/// Whether an entity with id `id` is wanted, given the requested ids
/// (an empty request wants every entity).
pub open spec fn is_requested(requested: Seq<u32>, id: u32) -> bool {
    requested.len() == 0 || requested.contains(id)
}

/// Whether `id` is one of `ids`.
pub fn contains_id(ids: &Vec<u32>, id: u32) -> (r: bool)
    ensures
        r == ids@.contains(id),
{
    let mut i: usize = 0;
    while i < ids.len()
        invariant
            0 <= i <= ids@.len(),
            forall|j: int| 0 <= j < i ==> ids@[j] != id,
        decreases ids@.len() - i,
    {
        if ids[i] == id {
            return true;
        }
        i = i + 1;
    }
    false
}

/// Decides whether an entity with id `id` is wanted: an empty request wants
/// every entity, otherwise it must be listed.
pub fn wants_entity(requested_ids: &Vec<u32>, id: u32) -> (r: bool)
    ensures
        r == is_requested(requested_ids@, id),
{
    requested_ids.len() == 0 || contains_id(requested_ids, id)
}

/// The last sample seen of each id, owned by one meter.
pub struct SampleHistory {
    samples: HashMap<u32, BpfRawStats>,
}

impl View for SampleHistory {
    type V = Map<u32, RawSample>;

    closed spec fn view(&self) -> Map<u32, RawSample> {
        self.samples@.map_values(|s: BpfRawStats| s@)
    }
}

impl SampleHistory {
    /// A history that has seen nothing.
    pub fn new() -> (r: SampleHistory)
        ensures
            r@ == Map::<u32, RawSample>::empty(),
    {
        let r = SampleHistory { samples: HashMap::new() };
        assert(r@ =~= Map::<u32, RawSample>::empty());
        r
    }

    /// Records `raw` as the last sample of its id and hands back the one it
    /// replaces, if the id was seen before.
    pub fn observe(&mut self, raw: &BpfRawStats) -> (r: Option<BpfRawStats>)
        ensures
            final(self)@ == old(self)@.insert(raw.id, raw@),
            match r {
                Some(prev) => old(self)@.contains_key(raw.id) && prev@ == old(self)@[raw.id],
                None => !old(self)@.contains_key(raw.id),
            },
    {
        broadcast use vstd::std_specs::hash::group_hash_axioms;

        let r = self.samples.insert(raw.id, raw.duplicate());
        assert(self@ =~= old(self)@.insert(raw.id, raw@));
        r
    }
}

/// Stats derived from two consecutive samples of one entity.
#[derive(Clone, Copy, Debug, PartialEq, Eq, Structural)]
pub enum BpfStatsInfo {
    Cpu(BpfCPUStatsInfo),
    Table(BpfMapStatsInfo),
}

/// One derived record, as handed to an exporter.
#[derive(Debug)]
pub struct BpfInfo<'a> {
    /// Program or table id
    pub id: u32,
    /// Program or table name
    pub name: &'a str,
    /// Tick of the later of the two samples
    pub tick: u64,
    pub stats: BpfStatsInfo,
}

} // verus!
