//! The program meter: busy time and run count of loaded programs, and the
//! CPU usage over the interval between two samples.
use vstd::prelude::*;

use crate::meter::{BpfRawStats, BpfStatsInfo, RawSample, SampleHistory, is_requested, wants_entity};

verus! {

/// CPU usage of one program over the interval between two samples.
///
/// The usage fraction is `run_time_delta_ns / interval_ns`: busy time over
/// wall time in that interval, not a lifetime average.
#[derive(Clone, Copy, Debug, PartialEq, Eq, Structural)]
pub struct BpfCPUStatsInfo {
    /// Busy time the program accumulated between the two samples, in nanoseconds
    pub run_time_delta_ns: u64,
    /// Wall-clock time between the two samples, in nanoseconds
    pub interval_ns: u64,
    /// Busy time of the program up to the later sample, in nanoseconds
    pub run_time_ns: u64,
    /// Number of runs of the program up to the later sample
    pub run_count: u64,
}

/// What the kernel lists of one loaded program.
pub struct ProgramEntry {
    pub id: u32,
    /// The program's name, where the kernel's one could be read
    pub name: Option<String>,
    pub run_count: u64,
    /// Busy time accumulated so far, in nanoseconds
    pub run_time_ns: u64,
}

/// How far `later` is past `earlier`, zero if it is not.
pub open spec fn elapsed(later: u64, earlier: u64) -> u64 {
    if later >= earlier {
        (later - earlier) as u64
    } else {
        0
    }
}

/// The stats that two consecutive samples of one program give.
pub open spec fn cpu_stats_between(prev: RawSample, cur: RawSample) -> BpfCPUStatsInfo {
    BpfCPUStatsInfo {
        run_time_delta_ns: elapsed(cur.run_time_ns, prev.run_time_ns),
        interval_ns: elapsed(cur.time_received_ns, prev.time_received_ns),
        run_time_ns: cur.run_time_ns,
        run_count: cur.run_count,
    }
}

/// What deriving `raw` returns, given the last sample of each id.
pub open spec fn cpu_derived(history: Map<u32, RawSample>, raw: RawSample) -> Option<BpfStatsInfo> {
    if history.contains_key(raw.id) {
        Some(BpfStatsInfo::Cpu(cpu_stats_between(history[raw.id], raw)))
    } else {
        None
    }
}

/// The name a program is reported under.
pub open spec fn name_or_unknown(name: Option<Seq<char>>) -> Seq<char> {
    match name {
        Some(n) => n,
        None => "unknown"@,
    }
}

/// The raw sample of program `p` at the tick of `base`.
pub open spec fn program_sample(base: RawSample, p: ProgramEntry) -> RawSample {
    RawSample {
        id: p.id,
        name: name_or_unknown(
            match p.name {
                Some(n) => Some(n@),
                None => None,
            },
        ),
        run_count: p.run_count,
        run_time_ns: p.run_time_ns,
        ..base
    }
}

/// What a list of raw samples holds.
pub open spec fn sample_views(v: Seq<BpfRawStats>) -> Seq<RawSample> {
    v.map_values(|s: BpfRawStats| s@)
}

/// Whether program `p` is wanted by the requested ids.
pub open spec fn program_wanted(requested: Seq<u32>) -> spec_fn(ProgramEntry) -> bool {
    |p: ProgramEntry| is_requested(requested, p.id)
}

/// The samples of one tick: one per requested program, in listing order.
pub open spec fn program_samples(requested: Seq<u32>, base: RawSample, programs: Seq<ProgramEntry>) -> Seq<
    RawSample,
> {
    programs.filter(program_wanted(requested)).map_values(|p: ProgramEntry| program_sample(base, p))
}

/// Measures the CPU usage of programs.
pub struct CpuMeter {
    /// Last sample of each program id, against which the next one is measured
    bpf_prog_info_map: SampleHistory,
}

impl View for CpuMeter {
    type V = Map<u32, RawSample>;

    closed spec fn view(&self) -> Map<u32, RawSample> {
        self.bpf_prog_info_map@
    }
}

fn elapsed_between(later: u64, earlier: u64) -> (r: u64)
    ensures
        r == elapsed(later, earlier),
{
    if later >= earlier {
        later - earlier
    } else {
        0
    }
}

impl CpuMeter {
    /// A meter that has seen no program yet.
    pub fn new() -> (r: CpuMeter)
        ensures
            r@ == Map::<u32, RawSample>::empty(),
    {
        CpuMeter { bpf_prog_info_map: SampleHistory::new() }
    }

    /// Whether program `id` is to be sampled, given the requested ids
    /// (empty: every program).
    pub fn is_target(requested_ids: &Vec<u32>, id: u32) -> (r: bool)
        ensures
            r == is_requested(requested_ids@, id),
    {
        wants_entity(requested_ids, id)
    }

    /// The raw sample of `program`: `base` with the program's id, name
    /// (`unknown` where none could be read) and counters filled in.
    pub fn raw_stats(base: &BpfRawStats, program: &ProgramEntry) -> (r: BpfRawStats)
        ensures
            r@ == program_sample(base@, *program),
    {
        let name = match &program.name {
            Some(n) => n.clone(),
            None => String::from_str("unknown"),
        };
        BpfRawStats {
            id: program.id,
            name,
            tick: base.tick,
            time_received_ns: base.time_received_ns,
            run_count: program.run_count,
            run_time_ns: program.run_time_ns,
            map_entries: base.map_entries,
            map_max_entries: base.map_max_entries,
        }
    }

    /// The samples of one tick: one per listed program that is requested
    /// (every program, if none is), built on `base`, in listing order.
    pub fn select_samples(requested_ids: &Vec<u32>, base: &BpfRawStats, programs: &Vec<ProgramEntry>) -> (r: Vec<
        BpfRawStats,
    >)
        ensures
            sample_views(r@) == program_samples(requested_ids@, base@, programs@),
    {
        broadcast use vstd::seq_lib::group_filter_ensures;

        let ghost ps = programs@;
        let ghost want = program_wanted(requested_ids@);
        let mut r: Vec<BpfRawStats> = Vec::new();
        let mut i: usize = 0;
        while i < programs.len()
            invariant
                ps == programs@,
                want == program_wanted(requested_ids@),
                0 <= i <= ps.len(),
                sample_views(r@) == program_samples(requested_ids@, base@, ps.take(i as int)),
            decreases ps.len() - i,
        {
            let p = &programs[i];
            proof {
                assert(ps.take(i + 1) =~= ps.take(i as int).push(*p));
                ps.take(i as int).lemma_filter_push(*p, want);
            }
            if Self::is_target(requested_ids, p.id) {
                let sample = Self::raw_stats(base, p);
                let ghost before = r@;
                let ghost sv = sample@;
                r.push(sample);
                assert(sample_views(r@) =~= sample_views(before).push(sv));
                assert(program_samples(requested_ids@, base@, ps.take(i + 1)) =~= program_samples(
                    requested_ids@,
                    base@,
                    ps.take(i as int),
                ).push(sv));
            } else {
                assert(program_samples(requested_ids@, base@, ps.take(i + 1)) =~= program_samples(
                    requested_ids@,
                    base@,
                    ps.take(i as int),
                ));
            }
            i = i + 1;
        }
        assert(ps.take(ps.len() as int) =~= ps);
        r
    }

    /// Derives the CPU stats of `raw` against the last sample of its id, and
    /// makes `raw` the last sample. The first sample of an id yields nothing.
    pub fn generate_stats_info(&mut self, raw: &BpfRawStats) -> (r: Option<BpfStatsInfo>)
        ensures
            r == cpu_derived(old(self)@, raw@),
            final(self)@ == old(self)@.insert(raw.id, raw@),
    {
        match self.bpf_prog_info_map.observe(raw) {
            None => None,
            Some(prev) => {
                let stats = BpfCPUStatsInfo {
                    run_time_delta_ns: elapsed_between(raw.run_time_ns, prev.run_time_ns),
                    interval_ns: elapsed_between(raw.time_received_ns, prev.time_received_ns),
                    run_time_ns: raw.run_time_ns,
                    run_count: raw.run_count,
                };
                Some(BpfStatsInfo::Cpu(stats))
            },
        }
    }
}

/// Of two consecutive samples of one program, in which busy time and run
/// count both grow, the first yields nothing and the second yields the busy
/// time and the wall time between them (the usage is their ratio) with the
/// later cumulative busy time and run count.
pub proof fn lemma_consecutive_samples(history: Map<u32, RawSample>, first: RawSample, second: RawSample)
    requires
        second.id == first.id,
        !history.contains_key(first.id),
        first.run_time_ns < second.run_time_ns,
        first.run_count < second.run_count,
    ensures
        cpu_derived(history, first) == None::<BpfStatsInfo>,
        cpu_derived(history.insert(first.id, first), second) == Some(
            BpfStatsInfo::Cpu(
                BpfCPUStatsInfo {
                    run_time_delta_ns: (second.run_time_ns - first.run_time_ns) as u64,
                    interval_ns: elapsed(second.time_received_ns, first.time_received_ns),
                    run_time_ns: second.run_time_ns,
                    run_count: second.run_count,
                },
            ),
        ),
{
}

} // verus!
