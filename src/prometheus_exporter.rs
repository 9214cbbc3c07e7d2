//! Label sets of the published series, what an export sets and retires,
//! and what a collection removes.
use vstd::prelude::*;

use crate::meter::{BpfInfo, BpfStatsInfo};
use crate::map_meter::BpfMapStatsInfo;
use crate::prometheus_gc::{
    GcView, MapLabels, MapSeries, ProgLabels, ProgSeries, PromGC, gc_kept, gc_removed, refresh_map,
    refresh_prog,
};

verus! {

/// Metric kinds that can be published.
#[derive(Clone, Copy, Debug, PartialEq, Eq, Structural)]
pub enum PromExportType {
    /// CPU usage fraction
    CPUUsage,
    /// Accumulated busy time in seconds
    RunTime,
    /// Number of times the program ran
    EventCount,
    /// Number of entries of a table
    MapSize,
}

impl PromExportType {
    /// The name this kind goes by on the command line.
    pub fn as_str(&self) -> (r: &'static str)
        ensures
            r@ == export_type_name(*self),
    {
        match self {
            PromExportType::CPUUsage => "cpu-usage",
            PromExportType::RunTime => "run-time",
            PromExportType::EventCount => "event-count",
            PromExportType::MapSize => "map-size",
        }
    }
}

pub open spec fn export_type_name(t: PromExportType) -> Seq<char> {
    match t {
        PromExportType::CPUUsage => "cpu-usage"@,
        PromExportType::RunTime => "run-time"@,
        PromExportType::EventCount => "event-count"@,
        PromExportType::MapSize => "map-size"@,
    }
}

/// Metric labels as (name, value) pairs, in order.
pub type Labels = Vec<(String, String)>;

/// What a label list holds.
pub open spec fn labels_view(l: Seq<(String, String)>) -> Seq<(Seq<char>, Seq<char>)> {
    l.map_values(|p: (String, String)| (p.0@, p.1@))
}

/// The decimal digits of `n`, most significant first, without leading zeros.
pub open spec fn decimal(n: nat) -> Seq<char>
    decreases n,
{
    if n < 10 {
        seq![digit_char(n)]
    } else {
        decimal(n / 10).push(digit_char(n % 10))
    }
}

pub open spec fn digit_char(d: nat) -> char {
    seq!['0', '1', '2', '3', '4', '5', '6', '7', '8', '9'][d as int]
}

/// Relies on `ToString` through the `Display` impl of `u32`, which writes the
/// number in decimal, with no sign and no leading zeros.
#[verifier::external_body]
pub(crate) fn decimal_string(n: u32) -> (r: String)
    ensures
        r@ == decimal(n as nat),
{
    n.to_string()
}

/// The labels of the program series of `id`: the static labels, then the
/// program's id and name.
pub open spec fn prog_label_set(
    static_labels: Seq<(Seq<char>, Seq<char>)>,
    id: u32,
    name: Seq<char>,
) -> Seq<(Seq<char>, Seq<char>)> {
    static_labels + seq![("ebpf_id"@, decimal(id as nat)), ("ebpf_name"@, name)]
}

/// The labels of the table series of `id`: the static labels, then the
/// table's id, name and capacity.
pub open spec fn map_label_set(
    static_labels: Seq<(Seq<char>, Seq<char>)>,
    id: u32,
    name: Seq<char>,
    max_size: u32,
) -> Seq<(Seq<char>, Seq<char>)> {
    static_labels + seq![
        ("ebpf_map_id"@, decimal(id as nat)),
        ("ebpf_map_name"@, name),
        ("ebpf_map_max_size"@, decimal(max_size as nat)),
    ]
}

/// The series that an entry seen of the same id stood for, where its
/// labels differ from those of `m`: that series is stale once `m` replaces it.
pub open spec fn retired_map(
    static_labels: Seq<(Seq<char>, Seq<char>)>,
    seen: Seq<MapSeries>,
    m: MapSeries,
) -> Option<Seq<(Seq<char>, Seq<char>)>> {
    if exists|i: int| 0 <= i < seen.len() && seen[i].id == m.id && seen[i] != m {
        let p = seen[choose|i: int| 0 <= i < seen.len() && seen[i].id == m.id && seen[i] != m];
        Some(map_label_set(static_labels, p.id, p.name, p.max_size))
    } else {
        None
    }
}

/// As [`retired_map`], for programs.
pub open spec fn retired_prog(
    static_labels: Seq<(Seq<char>, Seq<char>)>,
    seen: Seq<ProgSeries>,
    p: ProgSeries,
) -> Option<Seq<(Seq<char>, Seq<char>)>> {
    if exists|i: int| 0 <= i < seen.len() && seen[i].id == p.id && seen[i] != p {
        let q = seen[choose|i: int| 0 <= i < seen.len() && seen[i].id == p.id && seen[i] != p];
        Some(prog_label_set(static_labels, q.id, q.name))
    } else {
        None
    }
}


/// What an optional label list holds.
pub open spec fn opt_labels_view(l: Option<Labels>) -> Option<Seq<(Seq<char>, Seq<char>)>> {
    match l {
        Some(l) => Some(labels_view(l@)),
        None => None,
    }
}

/// What a list of label lists holds.
pub open spec fn label_sets_view(v: Seq<Labels>) -> Seq<Seq<(Seq<char>, Seq<char>)>> {
    v.map_values(|l: Labels| labels_view(l@))
}

/// The label sets of the table series in `s`.
pub open spec fn map_label_sets(
    static_labels: Seq<(Seq<char>, Seq<char>)>,
    s: Seq<MapSeries>,
) -> Seq<Seq<(Seq<char>, Seq<char>)>> {
    s.map_values(|m: MapSeries| map_label_set(static_labels, m.id, m.name, m.max_size))
}

/// The label sets of the program series in `s`.
pub open spec fn prog_label_sets(
    static_labels: Seq<(Seq<char>, Seq<char>)>,
    s: Seq<ProgSeries>,
) -> Seq<Seq<(Seq<char>, Seq<char>)>> {
    s.map_values(|p: ProgSeries| prog_label_set(static_labels, p.id, p.name))
}

/// The series a collector has seen after an export of program `p`.
pub open spec fn seen_after_prog(seen: Option<GcView>, p: ProgSeries) -> Option<GcView> {
    match seen {
        Some(g) => Some(GcView { maps: g.maps, progs: refresh_prog(g.progs, p) }),
        None => None,
    }
}

/// The series a collector has seen after an export of table `m`.
pub open spec fn seen_after_map(seen: Option<GcView>, m: MapSeries) -> Option<GcView> {
    match seen {
        Some(g) => Some(GcView { maps: refresh_map(g.maps, m), progs: g.progs }),
        None => None,
    }
}

fn copy_labels(l: &Labels) -> (r: Labels)
    ensures
        labels_view(r@) == labels_view(l@),
{
    let mut r: Labels = Vec::new();
    let mut i: usize = 0;
    while i < l.len()
        invariant
            0 <= i <= l@.len(),
            labels_view(r@) == labels_view(l@.take(i as int)),
        decreases l@.len() - i,
    {
        let ghost before = r@;
        let name = l[i].0.clone();
        let value = l[i].1.clone();
        let ghost item = (name@, value@);
        r.push((name, value));
        assert(item == (l@[i as int].0@, l@[i as int].1@));
        assert(labels_view(r@) =~= labels_view(before).push(item));
        assert(l@.take(i + 1) =~= l@.take(i as int).push(l@[i as int]));
        assert(labels_view(r@) =~= labels_view(l@.take(i + 1)));
        i = i + 1;
    }
    assert(l@.take(l@.len() as int) =~= l@);
    r
}

/// `l` with the pair (`name`, `value`) added last.
fn push_label(l: &mut Labels, name: &str, value: String)
    ensures
        labels_view(final(l)@) == labels_view(old(l)@).push((name@, value@)),
{
    l.push((String::from_str(name), value));
    assert(labels_view(l@) =~= labels_view(old(l)@).push((name@, value@)));
}

/// The series one export sets: under `labels`, the program's three gauges
/// or the table's size gauge; and a stale series of the same entity to
/// remove, where its labels changed.
pub struct SeriesPlan {
    pub labels: Labels,
    pub retired: Option<Labels>,
}

/// The series a collection removes: table series from the table-size
/// gauge, program series from each of the three program gauges.
pub struct SeriesRemovals {
    pub maps: Vec<Labels>,
    pub progs: Vec<Labels>,
}

/// Decides the label set of every published series, and which series a
/// garbage collection removes.
pub struct PrometheusExporter {
    /// Labels added to every series
    static_lables: Labels,
    /// Garbage collector of the series of unloaded programs and tables
    gc: Option<PromGC>,
}

impl PrometheusExporter {
    /// The labels added to every series.
    pub closed spec fn spec_static_labels(&self) -> Seq<(Seq<char>, Seq<char>)> {
        labels_view(self.static_lables@)
    }

    /// What the garbage collector tracks, if there is one.
    pub closed spec fn seen(&self) -> Option<GcView> {
        match self.gc {
            Some(g) => Some(g@),
            None => None,
        }
    }

    pub closed spec fn wf(&self) -> bool {
        match self.gc {
            Some(g) => g.wf(),
            None => true,
        }
    }

    /// An exporter that adds `labels` to every series, with garbage
    /// collector `gc`, if any.
    pub fn new(labels: Labels, gc: Option<PromGC>) -> (r: PrometheusExporter)
        requires
            match gc {
                Some(g) => g.wf(),
                None => true,
            },
        ensures
            r.wf(),
            r.spec_static_labels() == labels_view(labels@),
            r.seen() == match gc {
                Some(g) => Some(g@),
                None => None::<GcView>,
            },
    {
        PrometheusExporter { static_lables: labels, gc }
    }

    /// The labels of the program series of `id`.
    fn prog_labels(&self, id: u32, name: &str) -> (r: Labels)
        ensures
            labels_view(r@) == prog_label_set(self.spec_static_labels(), id, name@),
    {
        let mut l = copy_labels(&self.static_lables);
        push_label(&mut l, "ebpf_id", decimal_string(id));
        push_label(&mut l, "ebpf_name", String::from_str(name));
        assert(labels_view(l@) =~= prog_label_set(self.spec_static_labels(), id, name@));
        l
    }

    /// The labels of the table series of `id`.
    fn map_labels(&self, id: u32, name: &str, max_size: u32) -> (r: Labels)
        ensures
            labels_view(r@) == map_label_set(self.spec_static_labels(), id, name@, max_size),
    {
        let mut l = copy_labels(&self.static_lables);
        push_label(&mut l, "ebpf_map_id", decimal_string(id));
        push_label(&mut l, "ebpf_map_name", String::from_str(name));
        push_label(&mut l, "ebpf_map_max_size", decimal_string(max_size));
        assert(labels_view(l@) =~= map_label_set(self.spec_static_labels(), id, name@, max_size));
        l
    }

    /// Runs a garbage collection against the current kernel listings of
    /// table and program ids, where a collector is kept: the series of every
    /// entity seen whose id is no longer listed are handed back for removal,
    /// and the entity is no longer seen. Without a collector nothing is removed.
    pub fn collect(&mut self, current_map_ids: &Vec<u32>, current_prog_ids: &Vec<u32>) -> (r: SeriesRemovals)
        requires
            old(self).wf(),
        ensures
            final(self).wf(),
            final(self).spec_static_labels() == old(self).spec_static_labels(),
            match old(self).seen() {
                Some(g) => {
                    let gone = gc_removed(g, current_map_ids@, current_prog_ids@);
                    &&& final(self).seen() == Some(gc_kept(g, current_map_ids@, current_prog_ids@))
                    &&& label_sets_view(r.maps@) == map_label_sets(old(self).spec_static_labels(), gone.maps)
                    &&& label_sets_view(r.progs@) == prog_label_sets(old(self).spec_static_labels(), gone.progs)
                },
                None => {
                    &&& final(self).seen() == None::<GcView>
                    &&& r.maps@.len() == 0
                    &&& r.progs@.len() == 0
                },
            },
    {
        let collected = match &mut self.gc {
            Some(gc) => gc.collect(current_map_ids, current_prog_ids),
            None => {
                return SeriesRemovals { maps: Vec::new(), progs: Vec::new() };
            },
        };
        let ghost st = self.spec_static_labels();
        let mut maps: Vec<Labels> = Vec::new();
        let mut i: usize = 0;
        while i < collected.maps.len()
            invariant
                self.spec_static_labels() == st,
                0 <= i <= collected.maps@.len(),
                label_sets_view(maps@) == map_label_sets(st, collected@.maps.take(i as int)),
            decreases collected.maps@.len() - i,
        {
            let m = &collected.maps[i];
            let l = self.map_labels(m.id, &m.name, m.max_size);
            let ghost before = maps@;
            let ghost lv = labels_view(l@);
            maps.push(l);
            assert(collected@.maps.take(i + 1) =~= collected@.maps.take(i as int).push(collected@.maps[i as int]));
            assert(label_sets_view(maps@) =~= label_sets_view(before).push(lv));
            assert(label_sets_view(maps@) =~= map_label_sets(st, collected@.maps.take(i + 1)));
            i = i + 1;
        }
        assert(collected@.maps.take(collected@.maps.len() as int) =~= collected@.maps);
        let mut progs: Vec<Labels> = Vec::new();
        let mut i: usize = 0;
        while i < collected.progs.len()
            invariant
                self.spec_static_labels() == st,
                0 <= i <= collected.progs@.len(),
                label_sets_view(progs@) == prog_label_sets(st, collected@.progs.take(i as int)),
            decreases collected.progs@.len() - i,
        {
            let p = &collected.progs[i];
            let l = self.prog_labels(p.id, &p.name);
            let ghost before = progs@;
            let ghost lv = labels_view(l@);
            progs.push(l);
            assert(collected@.progs.take(i + 1) =~= collected@.progs.take(i as int).push(collected@.progs[i as int]));
            assert(label_sets_view(progs@) =~= label_sets_view(before).push(lv));
            assert(label_sets_view(progs@) =~= prog_label_sets(st, collected@.progs.take(i + 1)));
            i = i + 1;
        }
        assert(collected@.progs.take(collected@.progs.len() as int) =~= collected@.progs);
        SeriesRemovals { maps, progs }
    }

    /// Runs a garbage collection where both listings could be read; where
    /// either could not, skips this cycle and changes nothing, so that a
    /// transient listing failure never removes a live series.
    pub fn collect_if_listed(
        &mut self,
        current_map_ids: Option<&Vec<u32>>,
        current_prog_ids: Option<&Vec<u32>>,
    ) -> (r: SeriesRemovals)
        requires
            old(self).wf(),
        ensures
            final(self).wf(),
            final(self).spec_static_labels() == old(self).spec_static_labels(),
            match (current_map_ids, current_prog_ids, old(self).seen()) {
                (Some(maps), Some(progs), Some(g)) => {
                    let gone = gc_removed(g, maps@, progs@);
                    &&& final(self).seen() == Some(gc_kept(g, maps@, progs@))
                    &&& label_sets_view(r.maps@) == map_label_sets(old(self).spec_static_labels(), gone.maps)
                    &&& label_sets_view(r.progs@) == prog_label_sets(old(self).spec_static_labels(), gone.progs)
                },
                _ => {
                    &&& final(self).seen() == old(self).seen()
                    &&& r.maps@.len() == 0
                    &&& r.progs@.len() == 0
                },
            },
    {
        match (current_map_ids, current_prog_ids) {
            (Some(maps), Some(progs)) => self.collect(maps, progs),
            _ => SeriesRemovals { maps: Vec::new(), progs: Vec::new() },
        }
    }

    /// Plans the export of `data`: the label set its series go under (the
    /// static labels, then id and name, and for a table its capacity), and,
    /// where a collector is kept, marks the entity as seen. A series of the
    /// same entity under other labels is retired.
    pub fn export_info(&mut self, data: &BpfInfo) -> (r: SeriesPlan)
        requires
            old(self).wf(),
        ensures
            final(self).wf(),
            final(self).spec_static_labels() == old(self).spec_static_labels(),
            match data.stats {
                BpfStatsInfo::Cpu(_) => {
                    let p = ProgSeries { id: data.id, name: data.name@ };
                    &&& labels_view(r.labels@) == prog_label_set(old(self).spec_static_labels(), data.id, data.name@)
                    &&& final(self).seen() == seen_after_prog(old(self).seen(), p)
                    &&& opt_labels_view(r.retired) == match old(self).seen() {
                        Some(g) => retired_prog(old(self).spec_static_labels(), g.progs, p),
                        None => None,
                    }
                },
                BpfStatsInfo::Table(t) => {
                    let m = MapSeries { id: data.id, name: data.name@, max_size: t.max_size };
                    &&& labels_view(r.labels@) == map_label_set(
                        old(self).spec_static_labels(),
                        data.id,
                        data.name@,
                        t.max_size,
                    )
                    &&& final(self).seen() == seen_after_map(old(self).seen(), m)
                    &&& opt_labels_view(r.retired) == match old(self).seen() {
                        Some(g) => retired_map(old(self).spec_static_labels(), g.maps, m),
                        None => None,
                    }
                },
            },
    {
        match data.stats {
            BpfStatsInfo::Cpu(_) => {
                let labels = self.prog_labels(data.id, data.name);
                let ghost p = ProgSeries { id: data.id, name: data.name@ };
                let retired = match &mut self.gc {
                    Some(gc) => {
                        let ghost g = gc@;
                        let prev = gc.add_exported_program(data.id, data.name);
                        match prev {
                            Some(prev) => {
                                let name = String::from_str(data.name);
                                if prev.name == name {
                                    proof {
                                        assert(prev@ == p);
                                        assert(!exists|i: int| 0 <= i < g.progs.len() && g.progs[i].id == p.id && g.progs[i] != p);
                                    }
                                    None
                                } else {
                                    let l = self.prog_labels(prev.id, &prev.name);
                                    Some(l)
                                }
                            },
                            None => None,
                        }
                    },
                    None => None,
                };
                SeriesPlan { labels, retired }
            },
            BpfStatsInfo::Table(t) => {
                let labels = self.map_labels(data.id, data.name, t.max_size);
                let retired = match &mut self.gc {
                    Some(gc) => {
                        let prev = gc.add_exported_map(data.id, data.name, t.max_size);
                        match prev {
                            Some(prev) => {
                                let name = String::from_str(data.name);
                                if prev.name == name && prev.max_size == t.max_size {
                                    None
                                } else {
                                    let l = self.map_labels(prev.id, &prev.name, prev.max_size);
                                    Some(l)
                                }
                            },
                            None => None,
                        }
                    },
                    None => None,
                };
                SeriesPlan { labels, retired }
            },
        }
    }
}

} // verus!
