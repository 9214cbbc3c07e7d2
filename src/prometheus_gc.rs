//! The garbage collector of metric series: which programs and tables have
//! series, and which of them go once the kernel no longer lists their id.
use std::time::Duration;
use vstd::prelude::*;

use crate::meter::contains_id;

verus! {

/// Identity of one exported table series.
pub struct MapLabels {
    pub id: u32,
    pub name: String,
    pub max_size: u32,
}

/// Identity of one exported program series.
pub struct ProgLabels {
    pub id: u32,
    pub name: String,
}

/// What a [`MapLabels`] holds.
pub struct MapSeries {
    pub id: u32,
    pub name: Seq<char>,
    pub max_size: u32,
}

/// What a [`ProgLabels`] holds.
pub struct ProgSeries {
    pub id: u32,
    pub name: Seq<char>,
}

impl View for MapLabels {
    type V = MapSeries;

    open spec fn view(&self) -> MapSeries {
        MapSeries { id: self.id, name: self.name@, max_size: self.max_size }
    }
}

impl View for ProgLabels {
    type V = ProgSeries;

    open spec fn view(&self) -> ProgSeries {
        ProgSeries { id: self.id, name: self.name@ }
    }
}

impl MapLabels {
    /// A copy of these labels.
    pub fn duplicate(&self) -> (r: MapLabels)
        ensures
            r@ == self@,
    {
        MapLabels { id: self.id, name: self.name.clone(), max_size: self.max_size }
    }
}

impl ProgLabels {
    /// A copy of these labels.
    pub fn duplicate(&self) -> (r: ProgLabels)
        ensures
            r@ == self@,
    {
        ProgLabels { id: self.id, name: self.name.clone() }
    }
}

/// No two items of `s` have the same key.
pub open spec fn unique_by<A>(s: Seq<A>, key: spec_fn(A) -> u32) -> bool {
    forall|i: int, j: int| 0 <= i < j < s.len() ==> key(s[i]) != key(s[j])
}

pub open spec fn map_key() -> spec_fn(MapSeries) -> u32 {
    |m: MapSeries| m.id
}

pub open spec fn prog_key() -> spec_fn(ProgSeries) -> u32 {
    |p: ProgSeries| p.id
}

/// Table series whose id the listing `current` holds.
pub open spec fn map_live(current: Seq<u32>) -> spec_fn(MapSeries) -> bool {
    |m: MapSeries| current.contains(m.id)
}

/// Table series whose id the listing `current` no longer holds.
pub open spec fn map_gone(current: Seq<u32>) -> spec_fn(MapSeries) -> bool {
    |m: MapSeries| !current.contains(m.id)
}

/// Program series whose id the listing `current` holds.
pub open spec fn prog_live(current: Seq<u32>) -> spec_fn(ProgSeries) -> bool {
    |p: ProgSeries| current.contains(p.id)
}

/// Program series whose id the listing `current` no longer holds.
pub open spec fn prog_gone(current: Seq<u32>) -> spec_fn(ProgSeries) -> bool {
    |p: ProgSeries| !current.contains(p.id)
}

pub open spec fn map_series(v: Seq<MapLabels>) -> Seq<MapSeries> {
    v.map_values(|m: MapLabels| m@)
}

pub open spec fn prog_series(v: Seq<ProgLabels>) -> Seq<ProgSeries> {
    v.map_values(|p: ProgLabels| p@)
}

/// `s` with the series of `m`'s id replaced by `m`, or `m` added after the
/// others if no series has its id.
pub open spec fn refresh_map(s: Seq<MapSeries>, m: MapSeries) -> Seq<MapSeries> {
    if exists|i: int| 0 <= i < s.len() && s[i].id == m.id {
        s.update(choose|i: int| 0 <= i < s.len() && s[i].id == m.id, m)
    } else {
        s.push(m)
    }
}

/// `s` with the series of `p`'s id replaced by `p`, or `p` added after the
/// others if no series has its id.
pub open spec fn refresh_prog(s: Seq<ProgSeries>, p: ProgSeries) -> Seq<ProgSeries> {
    if exists|i: int| 0 <= i < s.len() && s[i].id == p.id {
        s.update(choose|i: int| 0 <= i < s.len() && s[i].id == p.id, p)
    } else {
        s.push(p)
    }
}

/// The series a garbage collector tracks, in the order they were first exported.
pub struct GcView {
    pub maps: Seq<MapSeries>,
    pub progs: Seq<ProgSeries>,
}

/// Each id is seen at most once per kind.
pub open spec fn gc_wf(v: GcView) -> bool {
    unique_by(v.maps, map_key()) && unique_by(v.progs, prog_key())
}

/// What a collection keeps, given the current listings of tables and programs.
pub open spec fn gc_kept(v: GcView, current_maps: Seq<u32>, current_progs: Seq<u32>) -> GcView {
    GcView { maps: v.maps.filter(map_live(current_maps)), progs: v.progs.filter(prog_live(current_progs)) }
}

/// What a collection removes, given the current listings of tables and programs.
pub open spec fn gc_removed(v: GcView, current_maps: Seq<u32>, current_progs: Seq<u32>) -> GcView {
    GcView { maps: v.maps.filter(map_gone(current_maps)), progs: v.progs.filter(prog_gone(current_progs)) }
}

/// Series that a collection removed.
pub struct Collected {
    pub maps: Vec<MapLabels>,
    pub progs: Vec<ProgLabels>,
}

impl View for Collected {
    type V = GcView;

    open spec fn view(&self) -> GcView {
        GcView { maps: map_series(self.maps@), progs: prog_series(self.progs@) }
    }
}

/// Keeps track of the series exported since the last collection, so that
/// those of tables and programs the kernel no longer lists can be dropped.
pub struct PromGC {
    /// How often a collection is due
    period: Duration,
    /// Tables with exported series, one entry per id
    used_maps: Vec<MapLabels>,
    /// Programs with exported series, one entry per id
    used_progs: Vec<ProgLabels>,
}

impl View for PromGC {
    type V = GcView;

    closed spec fn view(&self) -> GcView {
        GcView { maps: map_series(self.used_maps@), progs: prog_series(self.used_progs@) }
    }
}

proof fn lemma_filter_unique<A>(s: Seq<A>, key: spec_fn(A) -> u32, pred: spec_fn(A) -> bool)
    requires
        unique_by(s, key),
    ensures
        unique_by(s.filter(pred), key),
    decreases s.len(),
{
    broadcast use vstd::seq_lib::group_filter_ensures;

    reveal(Seq::filter);
    if s.len() > 0 {
        let rest = s.drop_last();
        assert(unique_by(rest, key));
        lemma_filter_unique(rest, key, pred);
        if pred(s.last()) {
            let f = rest.filter(pred);
            assert forall|i: int| 0 <= i < f.len() implies key(f[i]) != key(s.last()) by {
                assert(f.contains(f[i]));
                rest.lemma_filter_contains_rev(pred, f[i]);
                let j = choose|j: int| 0 <= j < rest.len() && rest[j] == f[i];
                assert(s[j] == rest[j]);
            }
            assert(s.filter(pred) == f.push(s.last()));
        }
    }
}

impl PromGC {
    /// The series seen are well formed: one entry per id and kind.
    pub open spec fn wf(&self) -> bool {
        gc_wf(self@)
    }

    /// How often a collection is due.
    pub closed spec fn spec_period(&self) -> Duration {
        self.period
    }

    /// A collector, due every `period`, that tracks nothing yet.
    pub fn new(period: Duration) -> (r: PromGC)
        ensures
            r.wf(),
            r@.maps == Seq::<MapSeries>::empty(),
            r@.progs == Seq::<ProgSeries>::empty(),
            r.spec_period() == period,
    {
        let r = PromGC { period, used_maps: Vec::new(), used_progs: Vec::new() };
        assert(r@.maps =~= Seq::<MapSeries>::empty());
        assert(r@.progs =~= Seq::<ProgSeries>::empty());
        r
    }

    /// How often a collection is due.
    pub fn period(&self) -> (r: Duration)
        ensures
            r == self.spec_period(),
    {
        self.period
    }

    /// Marks table `id` as exported under `name` and capacity `max_size`, so
    /// that the next collection keeps it while the kernel lists it. An entry
    /// of the same id is replaced, and handed back.
    pub fn add_exported_map(&mut self, id: u32, name: &str, max_size: u32) -> (r: Option<MapLabels>)
        requires
            old(self).wf(),
        ensures
            final(self).wf(),
            final(self)@.maps == refresh_map(old(self)@.maps, MapSeries { id, name: name@, max_size }),
            final(self)@.progs == old(self)@.progs,
            final(self).spec_period() == old(self).spec_period(),
            match r {
                Some(prev) => exists|i: int|
                    0 <= i < old(self)@.maps.len() && old(self)@.maps[i] == prev@ && prev.id == id,
                None => forall|i: int| 0 <= i < old(self)@.maps.len() ==> old(self)@.maps[i].id != id,
            },
    {
        let entry = MapLabels { id, name: String::from_str(name), max_size };
        let ghost s = old(self)@.maps;
        let mut i: usize = 0;
        while i < self.used_maps.len()
            invariant
                self@ == old(self)@,
                s == map_series(self.used_maps@),
                entry@ == (MapSeries { id, name: name@, max_size }),
                self.spec_period() == old(self).spec_period(),
                gc_wf(self@),
                0 <= i <= self.used_maps@.len(),
                forall|j: int| 0 <= j < i ==> s[j].id != id,
            decreases self.used_maps@.len() - i,
        {
            assert(s[i as int] == self.used_maps@[i as int]@);
            if self.used_maps[i].id == id {
                let prev = self.used_maps[i].duplicate();
                let ghost e = entry@;
                self.used_maps.set(i, entry);
                proof {
                    let k = choose|k: int| 0 <= k < s.len() && s[k].id == id;
                    assert(s[i as int].id == id);
                    assert(k == i as int);
                    assert(e == MapSeries { id, name: name@, max_size });
                    assert(self@.maps =~= s.update(i as int, e));
                    assert forall|a: int, b: int| 0 <= a < b < s.len() implies self@.maps[a].id != self@.maps[b].id by {
                        assert(s[a].id != s[b].id);
                    }
                    assert(s[i as int] == prev@);
                }
                return Some(prev);
            }
            i = i + 1;
        }
        self.used_maps.push(entry);
        assert(self@.maps =~= refresh_map(s, entry@));
        None
    }

    /// Marks program `id` as exported under `name`, so that the next
    /// collection keeps it while the kernel lists it. An entry of the same id
    /// is replaced, and handed back.
    pub fn add_exported_program(&mut self, id: u32, name: &str) -> (r: Option<ProgLabels>)
        requires
            old(self).wf(),
        ensures
            final(self).wf(),
            final(self)@.progs == refresh_prog(old(self)@.progs, ProgSeries { id, name: name@ }),
            final(self)@.maps == old(self)@.maps,
            final(self).spec_period() == old(self).spec_period(),
            match r {
                Some(prev) => exists|i: int|
                    0 <= i < old(self)@.progs.len() && old(self)@.progs[i] == prev@ && prev.id == id,
                None => forall|i: int| 0 <= i < old(self)@.progs.len() ==> old(self)@.progs[i].id != id,
            },
    {
        let entry = ProgLabels { id, name: String::from_str(name) };
        let ghost s = old(self)@.progs;
        let mut i: usize = 0;
        while i < self.used_progs.len()
            invariant
                self@ == old(self)@,
                s == prog_series(self.used_progs@),
                entry@ == (ProgSeries { id, name: name@ }),
                self.spec_period() == old(self).spec_period(),
                gc_wf(self@),
                0 <= i <= self.used_progs@.len(),
                forall|j: int| 0 <= j < i ==> s[j].id != id,
            decreases self.used_progs@.len() - i,
        {
            assert(s[i as int] == self.used_progs@[i as int]@);
            if self.used_progs[i].id == id {
                let prev = self.used_progs[i].duplicate();
                let ghost e = entry@;
                self.used_progs.set(i, entry);
                proof {
                    let k = choose|k: int| 0 <= k < s.len() && s[k].id == id;
                    assert(s[i as int].id == id);
                    assert(k == i as int);
                    assert(e == ProgSeries { id, name: name@ });
                    assert(self@.progs =~= s.update(i as int, e));
                    assert forall|a: int, b: int| 0 <= a < b < s.len() implies self@.progs[a].id != self@.progs[b].id by {
                        assert(s[a].id != s[b].id);
                    }
                }
                assert(s[i as int] == prev@);
                return Some(prev);
            }
            i = i + 1;
        }
        self.used_progs.push(entry);
        assert(self@.progs =~= refresh_prog(s, entry@));
        None
    }

    /// Stops tracking every table and program whose id the current kernel
    /// listings no longer hold, and hands those series back so that they can
    /// be removed. Series whose id is still listed are kept, whatever else
    /// about them changed.
    pub fn collect(&mut self, current_map_ids: &Vec<u32>, current_prog_ids: &Vec<u32>) -> (r: Collected)
        requires
            old(self).wf(),
        ensures
            final(self).wf(),
            final(self)@ == gc_kept(old(self)@, current_map_ids@, current_prog_ids@),
            r@ == gc_removed(old(self)@, current_map_ids@, current_prog_ids@),
            final(self).spec_period() == old(self).spec_period(),
    {
        broadcast use vstd::seq_lib::group_filter_ensures;

        let ghost maps = old(self)@.maps;
        let ghost progs = old(self)@.progs;
        let ghost cm = current_map_ids@;
        let ghost cp = current_prog_ids@;

        let mut kept_maps: Vec<MapLabels> = Vec::new();
        let mut gone_maps: Vec<MapLabels> = Vec::new();
        let mut i: usize = 0;
        while i < self.used_maps.len()
            invariant
                self@ == old(self)@,
                maps == map_series(self.used_maps@),
                cm == current_map_ids@,
                0 <= i <= maps.len(),
                map_series(kept_maps@) == maps.take(i as int).filter(map_live(cm)),
                map_series(gone_maps@) == maps.take(i as int).filter(map_gone(cm)),
            decreases maps.len() - i,
        {
            let m = self.used_maps[i].duplicate();
            let ghost mv = m@;
            let ghost pre = maps.take(i as int);
            proof {
                assert(maps[i as int] == self.used_maps@[i as int]@);
                assert(maps.take(i + 1) =~= pre.push(mv));
                pre.lemma_filter_push(mv, map_live(cm));
                pre.lemma_filter_push(mv, map_gone(cm));
            }
            if contains_id(current_map_ids, m.id) {
                assert(map_live(cm)(mv) && !map_gone(cm)(mv));
                let ghost before = kept_maps@;
                kept_maps.push(m);
                assert(map_series(kept_maps@) =~= map_series(before).push(mv));
            } else {
                assert(!map_live(cm)(mv) && map_gone(cm)(mv));
                let ghost before = gone_maps@;
                gone_maps.push(m);
                assert(map_series(gone_maps@) =~= map_series(before).push(mv));
            }
            i = i + 1;
        }
        assert(maps.take(maps.len() as int) =~= maps);

        let mut kept_progs: Vec<ProgLabels> = Vec::new();
        let mut gone_progs: Vec<ProgLabels> = Vec::new();
        let mut i: usize = 0;
        while i < self.used_progs.len()
            invariant
                self@ == old(self)@,
                progs == prog_series(self.used_progs@),
                cp == current_prog_ids@,
                0 <= i <= progs.len(),
                prog_series(kept_progs@) == progs.take(i as int).filter(prog_live(cp)),
                prog_series(gone_progs@) == progs.take(i as int).filter(prog_gone(cp)),
            decreases progs.len() - i,
        {
            let p = self.used_progs[i].duplicate();
            let ghost mv = p@;
            let ghost pre = progs.take(i as int);
            proof {
                assert(progs[i as int] == self.used_progs@[i as int]@);
                assert(progs.take(i + 1) =~= pre.push(mv));
                pre.lemma_filter_push(mv, prog_live(cp));
                pre.lemma_filter_push(mv, prog_gone(cp));
            }
            if contains_id(current_prog_ids, p.id) {
                assert(prog_live(cp)(mv) && !prog_gone(cp)(mv));
                let ghost before = kept_progs@;
                kept_progs.push(p);
                assert(prog_series(kept_progs@) =~= prog_series(before).push(mv));
            } else {
                assert(!prog_live(cp)(mv) && prog_gone(cp)(mv));
                let ghost before = gone_progs@;
                gone_progs.push(p);
                assert(prog_series(gone_progs@) =~= prog_series(before).push(mv));
            }
            i = i + 1;
        }
        assert(progs.take(progs.len() as int) =~= progs);

        proof {
            lemma_filter_unique(maps, map_key(), map_live(cm));
            lemma_filter_unique(progs, prog_key(), prog_live(cp));
        }
        self.used_maps = kept_maps;
        self.used_progs = kept_progs;
        Collected { maps: gone_maps, progs: gone_progs }
    }
}

/// A collection never removes a series whose id the latest listing holds,
/// and always removes a series seen before whose id it no longer holds; what it
/// keeps is exactly the series whose id is still listed.
pub proof fn lemma_collect_removes_only_gone(v: GcView, current_maps: Seq<u32>, current_progs: Seq<u32>)
    ensures
        forall|i: int|
            0 <= i < v.maps.len() ==> (current_maps.contains(#[trigger] v.maps[i].id) <==> gc_kept(
                v,
                current_maps,
                current_progs,
            ).maps.contains(v.maps[i])),
        forall|i: int|
            0 <= i < v.maps.len() ==> (!current_maps.contains(#[trigger] v.maps[i].id) <==> gc_removed(
                v,
                current_maps,
                current_progs,
            ).maps.contains(v.maps[i])),
        forall|i: int|
            0 <= i < v.progs.len() ==> (current_progs.contains(#[trigger] v.progs[i].id) <==> gc_kept(
                v,
                current_maps,
                current_progs,
            ).progs.contains(v.progs[i])),
        forall|i: int|
            0 <= i < v.progs.len() ==> (!current_progs.contains(#[trigger] v.progs[i].id)
                <==> gc_removed(v, current_maps, current_progs).progs.contains(v.progs[i])),
{
    broadcast use vstd::seq_lib::group_filter_ensures;

}

} // verus!
