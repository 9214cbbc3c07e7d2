use std::collections::HashMap;

use bpfmeter::cpu_meter::{CpuMeter, ProgramEntry};
use bpfmeter::meter::BpfRawStats;
use bpfmeter::pipeline::{
    NothingToMeasure, Orchestrator, PipelineEvent, SamplerSchedule, TickAction, check_requested_ids,
};

#[test]
fn sleep_is_what_is_left_of_the_period() {
    let s = SamplerSchedule { period_ns: 1_000, ticks: None };
    assert_eq!(s.after_tick(0, 300), TickAction::Sleep(700));
    assert_eq!(s.after_tick(5, 1_000), TickAction::Sleep(0));
    assert_eq!(s.after_tick(6, 2_500), TickAction::Sleep(0));
    assert_eq!(s.after_tick(u64::MAX, 0), TickAction::Sleep(1_000));
}

#[test]
fn sampling_stops_at_tick_bound() {
    let s = SamplerSchedule { period_ns: 1_000, ticks: Some(3) };
    assert_eq!(s.after_tick(2, 10), TickAction::Sleep(990));
    assert_eq!(s.after_tick(3, 10), TickAction::Stop);
    let once = SamplerSchedule { period_ns: 1_000, ticks: Some(0) };
    assert_eq!(once.after_tick(0, 0), TickAction::Stop);
}

fn listing(ids: &[u32]) -> HashMap<u32, String> {
    ids.iter().map(|id| (*id, format!("e{id}"))).collect()
}

#[test]
fn requested_ids_partly_loaded() {
    let r = check_requested_ids(&vec![3, 9, 4, 8], &listing(&[1, 3, 4]));
    assert_eq!(r.unwrap(), vec![9, 8]);
    assert_eq!(check_requested_ids(&vec![1], &listing(&[1])).unwrap(), Vec::<u32>::new());
}

#[test]
fn requested_ids_none_loaded() {
    let r = check_requested_ids(&vec![5, 6], &listing(&[1, 2]));
    assert_eq!(r.unwrap_err().missing, vec![5, 6]);
    assert!(check_requested_ids(&vec![], &listing(&[1])).is_err());
}

#[test]
fn nothing_to_measure() {
    assert_eq!(Orchestrator::<String>::new(false, false).err(), Some(NothingToMeasure));
    assert!(Orchestrator::<String>::new(true, false).is_ok());
}

#[test]
fn waits_for_both_pipelines() {
    let mut o = Orchestrator::<String>::new(true, true).unwrap();
    assert!(o.waits_on_cpu() && o.waits_on_map());
    o.on_event(PipelineEvent::MapFinished(Ok(())));
    assert!(o.waits_on_cpu() && !o.waits_on_map() && !o.is_over());
    o.on_event(PipelineEvent::CpuFinished(Ok(())));
    assert!(o.is_over());
    assert_eq!(o.into_status(), Ok(()));
}

#[test]
fn an_error_from_either_pipeline_fails_the_run() {
    let mut o = Orchestrator::<String>::new(true, true).unwrap();
    o.on_event(PipelineEvent::CpuFinished(Err("send failed".to_string())));
    o.on_event(PipelineEvent::MapFinished(Ok(())));
    assert_eq!(o.into_status(), Err("send failed".to_string()));

    let mut both = Orchestrator::<String>::new(true, true).unwrap();
    both.on_event(PipelineEvent::CpuFinished(Err("first".to_string())));
    both.on_event(PipelineEvent::MapFinished(Err("last".to_string())));
    assert_eq!(both.into_status(), Err("last".to_string()));
}

#[test]
fn disabled_pipeline_is_not_waited_on() {
    let mut o = Orchestrator::<String>::new(false, true).unwrap();
    assert!(!o.waits_on_cpu() && o.waits_on_map());
    o.on_event(PipelineEvent::CpuFinished(Err("ignored".to_string())));
    assert!(!o.is_over());
    o.on_event(PipelineEvent::MapFinished(Ok(())));
    assert!(o.is_over());
    assert_eq!(o.into_status(), Ok(()));
}

#[test]
fn interrupt_ends_the_wait() {
    let mut o = Orchestrator::<String>::new(true, true).unwrap();
    o.on_event(PipelineEvent::Interrupted);
    assert!(o.is_over() && !o.waits_on_cpu() && !o.waits_on_map());
    o.on_event(PipelineEvent::CpuFinished(Err("late".to_string())));
    assert_eq!(o.into_status(), Ok(()));
}

/// A producer that sends more samples than the channel holds loses none of
/// them: every send waits for room.
#[test]
fn full_channel_loses_no_samples() {
    let capacity = 2usize;
    let produced = 7u64;
    let runtime = tokio::runtime::Builder::new_multi_thread().worker_threads(1).enable_all().build().unwrap();
    let (consumed, derived, full_seen) = runtime.block_on(async move {
        let (tx, mut rx) = tokio::sync::mpsc::channel::<BpfRawStats>(capacity);
        let producer = tokio::spawn(async move {
            let mut full_seen = 0u32;
            for tick in 0..produced {
                let base = BpfRawStats::base(tick, tick * 1_000);
                let program = ProgramEntry { id: 1, name: None, run_count: tick, run_time_ns: tick * 10 };
                if tx.capacity() == 0 {
                    full_seen += 1;
                }
                tx.send(CpuMeter::raw_stats(&base, &program)).await.unwrap();
            }
            full_seen
        });
        // Let the producer fill the channel before draining it.
        while !producer.is_finished() && rx.len() < capacity {
            tokio::task::yield_now().await;
        }
        let mut meter = CpuMeter::new();
        let (mut consumed, mut derived) = (0u64, 0u64);
        let mut last_tick = None;
        while let Some(sample) = rx.recv().await {
            assert!(last_tick.map_or(true, |t| t < sample.tick));
            last_tick = Some(sample.tick);
            consumed += 1;
            if meter.generate_stats_info(&sample).is_some() {
                derived += 1;
            }
        }
        (consumed, derived, producer.await.unwrap())
    });
    assert_eq!(consumed, produced);
    assert_eq!(derived, produced - 1);
    assert!(full_seen >= 1);
}
