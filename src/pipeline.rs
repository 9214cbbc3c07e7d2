//! Decisions of the sampling pipelines: the sampler's schedule, the check of
//! an id filter, and the top-level wait on both pipelines.
use std::collections::HashMap;
use vstd::prelude::*;

use crate::meter::contains_id;

verus! {

/// What a sampler does once a tick's samples are sent.
#[derive(Clone, Copy, Debug, PartialEq, Eq, Structural)]
pub enum TickAction {
    /// The tick bound is reached: sampling is over
    Stop,
    /// Sleep this many nanoseconds before the next tick
    Sleep(u64),
}

/// Whether tick `tick` is the last one under the optional bound `ticks`.
pub open spec fn bound_reached(tick: u64, ticks: Option<u64>) -> bool {
    match ticks {
        Some(bound) => tick >= bound,
        None => false,
    }
}

/// The rest of the period after `spent_ns` of it went to the tick, or
/// nothing if the tick took the whole period or longer.
pub open spec fn rest_of_period(period_ns: u64, spent_ns: u64) -> u64 {
    if spent_ns >= period_ns {
        0
    } else {
        (period_ns - spent_ns) as u64
    }
}

/// The schedule of one sampler: a fixed period and an optional tick bound.
#[derive(Clone, Copy, Debug, PartialEq, Eq, Structural)]
pub struct SamplerSchedule {
    /// Sampling period, in nanoseconds
    pub period_ns: u64,
    /// Last tick to sample, if sampling is bounded
    pub ticks: Option<u64>,
}

impl SamplerSchedule {
    /// What to do after tick `tick`, whose sampling took `spent_ns`: stop
    /// at the tick bound, else sleep for what is left of the period, so that
    /// drift does not add up from tick to tick and a slow tick sleeps not at all.
    pub fn after_tick(&self, tick: u64, spent_ns: u64) -> (r: TickAction)
        ensures
            r == if bound_reached(tick, self.ticks) {
                TickAction::Stop
            } else {
                TickAction::Sleep(rest_of_period(self.period_ns, spent_ns))
            },
    {
        let stop = match self.ticks {
            Some(bound) => tick >= bound,
            None => false,
        };
        if stop {
            TickAction::Stop
        } else if spent_ns >= self.period_ns {
            TickAction::Sleep(0)
        } else {
            TickAction::Sleep(self.period_ns - spent_ns)
        }
    }
}

/// The requested ids that the kernel listing `loaded` lacks, in request order.
pub open spec fn missing_ids(requested: Seq<u32>, loaded: Set<u32>) -> Seq<u32> {
    requested.filter(|id: u32| !loaded.contains(id))
}

/// None of the requested ids is loaded.
#[derive(Debug)]
pub struct NoRequestedEntity {
    /// The requested ids, none of which is loaded
    pub missing: Vec<u32>,
}

/// Checks an id filter against the kernel's listing of loaded entities.
/// Succeeds, with the requested ids that are not loaded (to warn of), when
/// at least one requested id is loaded; fails, naming every requested id,
/// when none is.
pub fn check_requested_ids(requested_ids: &Vec<u32>, loaded: &HashMap<u32, String>) -> (r: Result<
    Vec<u32>,
    NoRequestedEntity,
>)
    ensures
        r.is_ok() <==> exists|i: int|
            0 <= i < requested_ids@.len() && loaded@.contains_key(#[trigger] requested_ids@[i]),
        match r {
            Ok(missing) => missing@ == missing_ids(requested_ids@, loaded@.dom()),
            Err(e) => e.missing@ == missing_ids(requested_ids@, loaded@.dom()),
        },
{
    broadcast use vstd::std_specs::hash::group_hash_axioms;
    broadcast use vstd::seq_lib::group_filter_ensures;

    let ghost req = requested_ids@;
    let ghost dom = loaded@.dom();
    let mut missing: Vec<u32> = Vec::new();
    let mut any_loaded = false;
    let mut i: usize = 0;
    while i < requested_ids.len()
        invariant
            req == requested_ids@,
            dom == loaded@.dom(),
            0 <= i <= req.len(),
            missing@ == missing_ids(req.take(i as int), dom),
            any_loaded <==> exists|j: int| 0 <= j < i && loaded@.contains_key(#[trigger] req[j]),
        decreases req.len() - i,
    {
        let id = requested_ids[i];
        proof {
            assert(req.take(i + 1) =~= req.take(i as int).push(id));
            req.take(i as int).lemma_filter_push(id, |id: u32| !dom.contains(id));
        }
        if loaded.contains_key(&id) {
            any_loaded = true;
        } else {
            missing.push(id);
        }
        i = i + 1;
    }
    assert(req.take(req.len() as int) =~= req);
    if any_loaded {
        Ok(missing)
    } else {
        Err(NoRequestedEntity { missing })
    }
}

/// Both meters are disabled: there is nothing to measure.
#[derive(Clone, Copy, Debug, PartialEq, Eq, Structural)]
pub struct NothingToMeasure;

/// What the top-level wait observes.
pub enum PipelineEvent<E> {
    /// The program pipeline ended with this outcome
    CpuFinished(Result<(), E>),
    /// The table pipeline ended with this outcome
    MapFinished(Result<(), E>),
    /// An interrupt arrived from outside
    Interrupted,
}

/// Where the top-level wait stands.
pub struct RunState<E> {
    /// The program pipeline is disabled or has ended
    pub cpu_ready: bool,
    /// The table pipeline is disabled or has ended
    pub map_ready: bool,
    /// An interrupt arrived
    pub interrupted: bool,
    /// The outcome so far
    pub status: Result<(), E>,
}

/// The wait is over: interrupted, or both pipelines ready.
pub open spec fn run_over<E>(s: RunState<E>) -> bool {
    s.interrupted || (s.cpu_ready && s.map_ready)
}

/// The outcome after a pipeline ended with `res`: an error becomes the
/// outcome, a success leaves an earlier error standing.
pub open spec fn status_after<E>(status: Result<(), E>, res: Result<(), E>) -> Result<(), E> {
    match res {
        Ok(_) => status,
        Err(_) => res,
    }
}

/// The wait after event `ev`. Once the wait is over, and for a pipeline that
/// is not waited on, an event changes nothing.
pub open spec fn run_next<E>(s: RunState<E>, ev: PipelineEvent<E>) -> RunState<E> {
    if run_over(s) {
        s
    } else {
        match ev {
            PipelineEvent::CpuFinished(res) => if s.cpu_ready {
                s
            } else {
                RunState { cpu_ready: true, status: status_after(s.status, res), ..s }
            },
            PipelineEvent::MapFinished(res) => if s.map_ready {
                s
            } else {
                RunState { map_ready: true, status: status_after(s.status, res), ..s }
            },
            PipelineEvent::Interrupted => RunState { interrupted: true, ..s },
        }
    }
}

/// Waits on the program and table pipelines that are enabled, and on an
/// interrupt, and settles the overall outcome.
pub struct Orchestrator<E> {
    cpu_ready: bool,
    map_ready: bool,
    interrupted: bool,
    status: Result<(), E>,
}

impl<E> View for Orchestrator<E> {
    type V = RunState<E>;

    closed spec fn view(&self) -> RunState<E> {
        RunState {
            cpu_ready: self.cpu_ready,
            map_ready: self.map_ready,
            interrupted: self.interrupted,
            status: self.status,
        }
    }
}

impl<E> Orchestrator<E> {
    /// Starts the wait on the enabled pipelines; fails when neither is enabled.
    pub fn new(cpu_enabled: bool, map_enabled: bool) -> (r: Result<Orchestrator<E>, NothingToMeasure>)
        ensures
            r.is_err() <==> !cpu_enabled && !map_enabled,
            match r {
                Ok(o) => o@ == (RunState::<E> {
                    cpu_ready: !cpu_enabled,
                    map_ready: !map_enabled,
                    interrupted: false,
                    status: Ok(()),
                }),
                Err(_) => true,
            },
    {
        if !cpu_enabled && !map_enabled {
            Err(NothingToMeasure)
        } else {
            Ok(Orchestrator { cpu_ready: !cpu_enabled, map_ready: !map_enabled, interrupted: false, status: Ok(()) })
        }
    }

    /// Whether the program pipeline is still waited on.
    pub fn waits_on_cpu(&self) -> (r: bool)
        ensures
            r == (!run_over(self@) && !self@.cpu_ready),
    {
        !self.is_over() && !self.cpu_ready
    }

    /// Whether the table pipeline is still waited on.
    pub fn waits_on_map(&self) -> (r: bool)
        ensures
            r == (!run_over(self@) && !self@.map_ready),
    {
        !self.is_over() && !self.map_ready
    }

    /// Whether the wait is over.
    pub fn is_over(&self) -> (r: bool)
        ensures
            r == run_over(self@),
    {
        self.interrupted || (self.cpu_ready && self.map_ready)
    }

    /// Takes one event of the wait.
    pub fn on_event(&mut self, ev: PipelineEvent<E>)
        ensures
            final(self)@ == run_next(old(self)@, ev),
    {
        if self.is_over() {
            return;
        }
        match ev {
            PipelineEvent::CpuFinished(res) => {
                if !self.cpu_ready {
                    self.cpu_ready = true;
                    if res.is_err() {
                        self.status = res;
                    }
                }
            },
            PipelineEvent::MapFinished(res) => {
                if !self.map_ready {
                    self.map_ready = true;
                    if res.is_err() {
                        self.status = res;
                    }
                }
            },
            PipelineEvent::Interrupted => {
                self.interrupted = true;
            },
        }
    }

    /// The overall outcome.
    pub fn into_status(self) -> (r: Result<(), E>)
        ensures
            r == self@.status,
    {
        self.status
    }
}

} // verus!
