use std::collections::BTreeSet;

use bpfmeter::cpu_meter::{BpfCPUStatsInfo, CpuMeter, ProgramEntry};
use bpfmeter::map_meter::{BpfMapStatsInfo, MapEntry, MapKind, MapMeter, NextKey, TableWalk};
use bpfmeter::meter::{BpfRawStats, BpfStatsInfo};

const SECOND: u64 = 1_000_000_000;

fn program_sample(tick: u64, time_ns: u64, id: u32, run_count: u64, run_time_ns: u64) -> BpfRawStats {
    let base = BpfRawStats::base(tick, time_ns);
    let program = ProgramEntry { id, name: Some("handler".to_string()), run_count, run_time_ns };
    CpuMeter::raw_stats(&base, &program)
}

fn table_sample(tick: u64, id: u32, entries: u32, capacity: u32) -> BpfRawStats {
    let base = BpfRawStats::base(tick, tick * SECOND);
    let map = MapEntry { id, name: Some("table".to_string()), kind: MapKind::Hash, max_entries: capacity };
    MapMeter::raw_stats(&base, &map, entries)
}

#[test]
fn two_program_samples_give_one_record() {
    let mut meter = CpuMeter::new();
    let first = program_sample(0, 0, 7, 10, SECOND);
    let second = program_sample(1, SECOND, 7, 15, 1_400_000_000);
    assert_eq!(meter.generate_stats_info(&first), None);
    let derived = meter.generate_stats_info(&second);
    let expected = BpfCPUStatsInfo {
        run_time_delta_ns: 400_000_000,
        interval_ns: SECOND,
        run_time_ns: 1_400_000_000,
        run_count: 15,
    };
    assert_eq!(derived, Some(BpfStatsInfo::Cpu(expected)));
    let usage = expected.run_time_delta_ns as f64 / expected.interval_ns as f64;
    assert!((usage - 0.4).abs() < 1e-9);
}

#[test]
fn usage_is_measured_over_the_last_interval_only() {
    let mut meter = CpuMeter::new();
    assert_eq!(meter.generate_stats_info(&program_sample(0, 0, 3, 1, 0)), None);
    let second = meter.generate_stats_info(&program_sample(1, 2 * SECOND, 3, 5, SECOND));
    let third = meter.generate_stats_info(&program_sample(2, 3 * SECOND, 3, 9, 1_250_000_000));
    assert_eq!(
        second,
        Some(BpfStatsInfo::Cpu(BpfCPUStatsInfo {
            run_time_delta_ns: SECOND,
            interval_ns: 2 * SECOND,
            run_time_ns: SECOND,
            run_count: 5,
        }))
    );
    assert_eq!(
        third,
        Some(BpfStatsInfo::Cpu(BpfCPUStatsInfo {
            run_time_delta_ns: 250_000_000,
            interval_ns: SECOND,
            run_time_ns: 1_250_000_000,
            run_count: 9,
        }))
    );
}

#[test]
fn first_sample_of_each_id_yields_nothing() {
    let mut cpu = CpuMeter::new();
    assert_eq!(cpu.generate_stats_info(&program_sample(0, 0, 1, 1, 10)), None);
    assert_eq!(cpu.generate_stats_info(&program_sample(0, 0, 2, 1, 10)), None);
    assert!(cpu.generate_stats_info(&program_sample(1, SECOND, 1, 2, 20)).is_some());

    let mut tables = MapMeter::new();
    assert_eq!(tables.generate_stats_info(&table_sample(0, 4, 3, 64)), None);
    assert_eq!(tables.generate_stats_info(&table_sample(0, 5, 3, 64)), None);
    assert_eq!(
        tables.generate_stats_info(&table_sample(1, 4, 6, 64)),
        Some(BpfStatsInfo::Table(BpfMapStatsInfo { max_size: 64, size: 6 }))
    );
}

#[test]
fn counters_that_go_back_give_zero_deltas() {
    let mut meter = CpuMeter::new();
    meter.generate_stats_info(&program_sample(0, 5 * SECOND, 9, 4, SECOND));
    let derived = meter.generate_stats_info(&program_sample(1, 4 * SECOND, 9, 4, 500));
    assert_eq!(
        derived,
        Some(BpfStatsInfo::Cpu(BpfCPUStatsInfo { run_time_delta_ns: 0, interval_ns: 0, run_time_ns: 500, run_count: 4 }))
    );
}

#[test]
fn program_sample_fills_base() {
    let base = BpfRawStats::base(3, 42);
    let named = ProgramEntry { id: 11, name: Some("probe".to_string()), run_count: 8, run_time_ns: 99 };
    let s = CpuMeter::raw_stats(&base, &named);
    assert_eq!((s.id, s.name.as_str(), s.tick, s.time_received_ns), (11, "probe", 3, 42));
    assert_eq!((s.run_count, s.run_time_ns, s.map_entries, s.map_max_entries), (8, 99, 0, 0));
    let unnamed = ProgramEntry { id: 12, name: None, run_count: 0, run_time_ns: 0 };
    assert_eq!(CpuMeter::raw_stats(&base, &unnamed).name, "unknown");
}

#[test]
fn table_sample_fills_base() {
    let base = BpfRawStats::base(2, 17);
    let map = MapEntry { id: 21, name: None, kind: MapKind::LruHash, max_entries: 128 };
    let s = MapMeter::raw_stats(&base, &map, 5);
    assert_eq!((s.id, s.name.as_str(), s.tick, s.time_received_ns), (21, "unknown", 2, 17));
    assert_eq!((s.map_entries, s.map_max_entries, s.run_count), (5, 128, 0));
}

#[test]
fn tick_samples_keep_listing_order() {
    let base = BpfRawStats::base(4, 400);
    let programs: Vec<ProgramEntry> = [9u32, 2, 5, 7]
        .iter()
        .map(|id| ProgramEntry { id: *id, name: Some(format!("p{id}")), run_count: *id as u64, run_time_ns: 0 })
        .collect();
    let picked = CpuMeter::select_samples(&vec![7, 9], &base, &programs);
    let ids: Vec<u32> = picked.iter().map(|s| s.id).collect();
    assert_eq!(ids, vec![9, 7]);
    assert_eq!(picked[1].name, "p7");
    assert_eq!((picked[1].tick, picked[1].time_received_ns, picked[1].run_count), (4, 400, 7));
    let all = CpuMeter::select_samples(&vec![], &base, &programs);
    assert_eq!(all.iter().map(|s| s.id).collect::<Vec<_>>(), vec![9, 2, 5, 7]);
    assert!(CpuMeter::select_samples(&vec![1], &base, &programs).is_empty());
}

#[test]
fn id_filter_selects_programs() {
    assert!(CpuMeter::is_target(&vec![], 5));
    assert!(CpuMeter::is_target(&vec![4, 5], 5));
    assert!(!CpuMeter::is_target(&vec![4, 6], 5));
}

#[test]
fn only_requested_hash_tables_are_measured() {
    let map = |id: u32, kind: MapKind| MapEntry { id, name: None, kind, max_entries: 8 };
    assert!(MapMeter::is_target(&vec![], &map(1, MapKind::Hash)));
    assert!(MapMeter::is_target(&vec![], &map(1, MapKind::PerCpuHash)));
    assert!(MapMeter::is_target(&vec![1], &map(1, MapKind::LruPerCpuHash)));
    assert!(!MapMeter::is_target(&vec![], &map(1, MapKind::Other)));
    assert!(!MapMeter::is_target(&vec![2], &map(1, MapKind::Hash)));
}

/// Walks a table whose keys the kernel hands out in ascending order.
fn walk_keys(keys: &BTreeSet<u32>, capacity: u32) -> (u32, usize) {
    let mut walk = TableWalk::new(capacity);
    let mut current: Option<u32> = None;
    let mut probes = 0usize;
    while !walk.is_done() {
        probes += 1;
        let next = match current {
            None => keys.iter().next().copied(),
            Some(k) => keys.range(k + 1..).next().copied(),
        };
        let outcome = match next {
            Some(k) => {
                current = Some(k);
                NextKey::Found
            }
            None => NextKey::Exhausted,
        };
        walk.record(outcome);
    }
    (walk.size(), probes)
}

#[test]
fn five_keys_count_as_five_in_any_insertion_order() {
    let orders: [[u32; 5]; 3] = [[1, 2, 3, 4, 5], [5, 4, 3, 2, 1], [30, 7, 19, 2, 11]];
    for order in orders {
        let mut keys = BTreeSet::new();
        for k in order {
            keys.insert(k);
        }
        let (size, probes) = walk_keys(&keys, 64);
        assert_eq!(size, 5);
        assert_eq!(probes, 6);
    }
}

#[test]
fn walk_stops_at_capacity() {
    let mut walk = TableWalk::new(3);
    let mut probes = 0;
    while walk.record(NextKey::Found) {
        probes += 1;
        assert!(probes < 10);
    }
    assert_eq!(walk.size(), 3);
    assert!(walk.is_done());
    assert!(!walk.record(NextKey::Found));
    assert_eq!(walk.size(), 3);
}

#[test]
fn failed_probe_keeps_partial_count() {
    let mut walk = TableWalk::new(64);
    assert!(walk.record(NextKey::Found));
    assert!(walk.record(NextKey::Found));
    assert!(!walk.record(NextKey::Failed(1)));
    assert_eq!(walk.size(), 2);
}

#[test]
fn empty_and_zero_capacity_tables() {
    let (size, probes) = walk_keys(&BTreeSet::new(), 64);
    assert_eq!((size, probes), (0, 1));
    let walk = TableWalk::new(0);
    assert!(walk.is_done());
    assert_eq!(walk.size(), 0);
}
