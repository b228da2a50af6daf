use process_monitor::args::process_args;
use process_monitor::controller::{Action, LoopConfig, LoopController, Phase};
use process_monitor::generator::update_monitor_results;
use process_monitor::model::{Monitor, MonitorResult, Monitors};
use process_monitor::snapshot::{push_decimal, snapshot_file_name, snapshot_name_from_stamp};

fn sample(n: usize) -> Monitors {
    let mut v = Vec::new();
    for i in 0..n {
        let script = if i % 2 == 0 { Some(format!("run_{}.sh", i)) } else { None };
        let id = if i % 3 == 0 { None } else { Some(i as u32) };
        v.push(Monitor::new(format!("monitor-{}", i), script, id, format!("code {}", i)));
    }
    Monitors::new(v)
}

struct Outcome {
    passes: usize,
    snapshots: Vec<String>,
    steps: usize,
}

/// Drives a run with a simulated clock that advances exactly by each sleep.
fn simulate(ctl: &mut LoopController, start: u64, step_cap: usize) -> Outcome {
    let mut clock = start;
    let mut out = Outcome { passes: 0, snapshots: Vec::new(), steps: 0 };
    while out.steps < step_cap {
        out.steps += 1;
        match ctl.step(clock) {
            Action::Evaluated => out.passes += 1,
            Action::Sleep(secs) => clock += secs,
            Action::Persist(name) => out.snapshots.push(name),
            Action::Stop => break,
        }
    }
    out
}

#[test]
fn one_pass_stamps_every_monitor_alike() {
    let mut ms = sample(5);
    update_monitor_results(&mut ms, 1_700_000_000);
    assert_eq!(ms.len(), 5);
    for (i, m) in ms.monitors.iter().enumerate() {
        assert_eq!(m.name, format!("monitor-{}", i));
        assert_eq!(m.code, format!("code {}", i));
        assert_eq!(m.result.map(|r| r.processed_at), Some(1_700_000_000));
    }
}

#[test]
fn a_pass_keeps_definitions_and_replaces_old_results() {
    let mut ms = sample(3);
    ms.monitors[1].result = Some(MonitorResult { value: 7, processed_at: 5 });
    update_monitor_results(&mut ms, 42);
    assert_eq!(ms.monitors[0].script, Some("run_0.sh".to_string()));
    assert_eq!(ms.monitors[1].script, None);
    assert_eq!(ms.monitors[2].monitor_id, Some(2));
    assert_eq!(ms.monitors[0].monitor_id, None);
    assert_eq!(ms.monitors[1].result.unwrap().processed_at, 42);
}

#[test]
fn consecutive_passes_draw_fresh_values() {
    let mut ms = sample(64);
    update_monitor_results(&mut ms, 10);
    let first: Vec<i32> = ms.monitors.iter().map(|m| m.result.unwrap().value).collect();
    update_monitor_results(&mut ms, 11);
    let second: Vec<i32> = ms.monitors.iter().map(|m| m.result.unwrap().value).collect();
    assert_ne!(first, second);
    assert!(ms.monitors.iter().all(|m| m.result.unwrap().processed_at == 11));
}

#[test]
fn empty_collection_pass_is_fine() {
    let mut ms = Monitors::new(Vec::new());
    update_monitor_results(&mut ms, 3);
    assert_eq!(ms.len(), 0);
}

#[test]
fn short_run_three_passes_two_snapshots() {
    let start = 1000;
    let mut ctl = LoopController::new(sample(2), LoopConfig::new(1, 3), start);
    let out = simulate(&mut ctl, start, 100);
    assert_eq!(out.passes, 3);
    assert_eq!(
        out.snapshots,
        vec![
            "1970-01-01_00-16-41_monitors.json".to_string(),
            "1970-01-01_00-16-42_monitors.json".to_string(),
        ]
    );
    assert!(out.snapshots[0] < out.snapshots[1]);
    assert_eq!(ctl.phase, Phase::Stopped);
    for m in ctl.monitors.monitors.iter() {
        assert_eq!(m.result.unwrap().processed_at, 1002);
    }
}

#[test]
fn default_run_has_ten_passes_nine_snapshots() {
    let config = LoopConfig::default();
    assert_eq!(config.interval_secs, 30);
    assert_eq!(config.duration_secs, 300);
    let mut ctl = LoopController::new(sample(1), config, 0);
    let out = simulate(&mut ctl, 0, 1000);
    assert_eq!(out.passes, 10);
    assert_eq!(out.snapshots.len(), 9);
    assert_eq!(out.snapshots[0], "1970-01-01_00-00-30_monitors.json");
    assert_eq!(out.snapshots[8], "1970-01-01_00-04-30_monitors.json");
}

#[test]
fn zero_duration_runs_one_pass_and_no_snapshot() {
    let mut ctl = LoopController::new(sample(2), LoopConfig::new(5, 0), 50);
    let out = simulate(&mut ctl, 50, 100);
    assert_eq!(out.passes, 1);
    assert!(out.snapshots.is_empty());
}

#[test]
fn empty_collection_still_runs_and_persists() {
    let mut ctl = LoopController::new(Monitors::new(Vec::new()), LoopConfig::new(1, 3), 0);
    let out = simulate(&mut ctl, 0, 100);
    assert_eq!(out.passes, 3);
    assert_eq!(out.snapshots.len(), 2);
    assert_eq!(ctl.monitors.len(), 0);
}

#[test]
fn frozen_clock_snapshots_do_not_collide() {
    let mut ctl = LoopController::new(sample(1), LoopConfig::new(0, 10), 100);
    let mut names = Vec::new();
    for _ in 0..12 {
        if let Action::Persist(name) = ctl.step(100) {
            names.push(name);
        }
    }
    assert_eq!(
        names,
        vec![
            "1970-01-01_00-01-40_monitors.json".to_string(),
            "1970-01-01_00-01-40_1_monitors.json".to_string(),
            "1970-01-01_00-01-40_2_monitors.json".to_string(),
            "1970-01-01_00-01-40_3_monitors.json".to_string(),
        ]
    );
}

#[test]
fn clock_going_back_keeps_counting_the_last_second() {
    let mut ctl = LoopController::new(sample(1), LoopConfig::new(0, 1000), 0);
    assert_eq!(ctl.step(10), Action::Evaluated);
    assert_eq!(ctl.step(10), Action::Sleep(0));
    assert_eq!(ctl.step(10), Action::Persist("1970-01-01_00-00-10_monitors.json".to_string()));
    assert_eq!(ctl.step(8), Action::Evaluated);
    assert_eq!(ctl.step(8), Action::Sleep(0));
    assert_eq!(ctl.step(8), Action::Persist("1970-01-01_00-00-10_1_monitors.json".to_string()));
    assert_eq!(ctl.last_snapshot, Some((10, 1)));
    assert_eq!(ctl.step(11), Action::Evaluated);
    assert_eq!(ctl.step(11), Action::Sleep(0));
    assert_eq!(ctl.step(11), Action::Persist("1970-01-01_00-00-11_monitors.json".to_string()));
}

#[test]
fn exhausted_repeat_count_stops_the_run() {
    let mut ctl = LoopController::new(sample(1), LoopConfig::new(0, 1000), 0);
    ctl.last_snapshot = Some((20, u64::MAX));
    ctl.phase = Phase::CheckingBound;
    assert_eq!(ctl.step(20), Action::Stop);
    assert_eq!(ctl.phase, Phase::Stopped);
}

#[test]
fn stopped_run_stays_stopped() {
    let mut ctl = LoopController::new(sample(1), LoopConfig::new(1, 1), 0);
    let out = simulate(&mut ctl, 0, 100);
    assert_eq!(out.passes, 1);
    assert_eq!(ctl.step(5), Action::Stop);
    assert_eq!(ctl.step(6), Action::Stop);
    assert_eq!(ctl.phase, Phase::Stopped);
    assert_eq!(ctl.monitors.monitors[0].result.unwrap().processed_at, 0);
}

#[test]
fn file_name_from_epoch_seconds() {
    assert_eq!(snapshot_file_name(0, 0), "1970-01-01_00-00-00_monitors.json");
    assert_eq!(snapshot_file_name(1_700_000_000, 0), "2023-11-14_22-13-20_monitors.json");
    assert_eq!(snapshot_file_name(1_700_000_000, 12), "2023-11-14_22-13-20_12_monitors.json");
    assert_eq!(snapshot_file_name(253_402_300_799, 0), "9999-12-31_23-59-59_monitors.json");
}

#[test]
fn file_name_from_rendered_stamp() {
    assert_eq!(snapshot_name_from_stamp("S", 0), "S_monitors.json");
    assert_eq!(snapshot_name_from_stamp("S", 1), "S_1_monitors.json");
    assert_eq!(snapshot_name_from_stamp("", 907), "_907_monitors.json");
}

#[test]
fn decimal_digits() {
    let mut s = String::from("n=");
    push_decimal(&mut s, 0);
    assert_eq!(s, "n=0");
    let mut s = String::new();
    push_decimal(&mut s, 1_234_567_890);
    assert_eq!(s, "1234567890");
    let mut s = String::new();
    push_decimal(&mut s, u64::MAX);
    assert_eq!(s, u64::MAX.to_string());
}

fn strings(v: &[&str]) -> Vec<String> {
    v.iter().map(|s| s.to_string()).collect()
}

#[test]
fn flag_value_is_found() {
    let args = strings(&["prog", "-monitorFile", "defs.json"]);
    assert_eq!(process_args(&args), Some("defs.json".to_string()));
}

#[test]
fn first_flag_with_a_value_wins() {
    let args = strings(&["prog", "-monitorFile", "a.json", "-monitorFile", "b.json"]);
    assert_eq!(process_args(&args), Some("a.json".to_string()));
}

#[test]
fn missing_flag_or_value_gives_none() {
    assert_eq!(process_args(&strings(&["prog"])), None);
    assert_eq!(process_args(&strings(&[])), None);
    assert_eq!(process_args(&strings(&["prog", "-monitorFile"])), None);
    assert_eq!(process_args(&strings(&["prog", "--monitorFile", "x"])), None);
}

#[test]
fn cancelled_run_does_no_more_work() {
    let mut ctl = LoopController::new(sample(2), LoopConfig::new(1, 100), 0);
    assert_eq!(ctl.step(0), Action::Evaluated);
    assert_eq!(ctl.step(0), Action::Sleep(1));
    ctl.cancel();
    assert_eq!(ctl.phase, Phase::Stopped);
    assert_eq!(ctl.step(1), Action::Stop);
    assert_eq!(ctl.last_snapshot, None);
}
