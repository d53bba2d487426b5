use process_monitor::clock::{Timestamp, MAX_SECS};
use process_monitor::monitor::{encode_measurement, FatalError, Measurement, Monitor, MonitorStore};
use process_monitor::schedule::{snapshot_file_name, Action, Phase, Run, Schedule, Snapshot};

fn store_of(codes: &[(&str, Option<&str>)]) -> MonitorStore {
    MonitorStore::new(
        codes
            .iter()
            .map(|(c, n)| Monitor::new(n.map(|s| s.to_string()), None, c.to_string()))
            .collect(),
    )
}

/// Runs to the end, collecting the snapshots and the pauses.
fn run_all(run: &mut Run) -> (Vec<Snapshot>, Vec<u64>, usize) {
    let mut snaps = Vec::new();
    let mut pauses = Vec::new();
    let mut batches = 0;
    loop {
        match run.step() {
            Action::Updated(_) => batches += 1,
            Action::Pause(s) => pauses.push(s),
            Action::WriteSnapshot(s) => snaps.push(s),
            Action::Finished => break,
        }
    }
    (snaps, pauses, batches)
}

#[test]
fn standard_schedule_phases() {
    let s = Schedule::standard();
    assert_eq!((s.outer, s.inner, s.inner_pause_secs, s.outer_pause_secs), (5, 2, 15, 30));
    let p = s.phases();
    assert_eq!(p.len(), 30);
    assert_eq!(
        &p[..6],
        &[
            Phase::UpdateAll,
            Phase::Pause(15),
            Phase::UpdateAll,
            Phase::Pause(15),
            Phase::Snapshot,
            Phase::Pause(30)
        ]
    );
    assert_eq!(p.iter().filter(|x| **x == Phase::Snapshot).count(), 5);
    assert_eq!(p.iter().filter(|x| **x == Phase::UpdateAll).count(), 10);
}

#[test]
fn empty_schedule_has_no_phases() {
    let s = Schedule { outer: 0, inner: 3, inner_pause_secs: 1, outer_pause_secs: 2 };
    assert!(s.phases().is_empty());
    let mut run = Run::new(store_of(&[("c", None)]), s);
    assert!(run.is_finished());
    assert!(matches!(run.step(), Action::Finished));
}

#[test]
fn full_run_writes_one_snapshot_per_cycle() {
    let mut run = Run::new(store_of(&[("c1", None), ("c2", Some("n2"))]), Schedule::standard());
    let (snaps, pauses, batches) = run_all(&mut run);
    assert_eq!(snaps.len(), 5);
    assert_eq!(run.snapshots, 5);
    assert_eq!(batches, 10);
    assert_eq!(pauses, vec![15, 15, 30, 15, 15, 30, 15, 15, 30, 15, 15, 30, 15, 15, 30]);
    for snap in &snaps {
        let v: serde_json::Value = serde_json::from_str(&snap.contents).unwrap();
        let list = v["monitors"].as_array().unwrap();
        assert_eq!(list.len(), 2);
        for item in list {
            assert!(item["result"].is_string());
        }
    }
    assert!(matches!(run.step(), Action::Finished));
}

#[test]
fn zero_monitors_run_to_completion() {
    let mut run = Run::new(store_of(&[]), Schedule::standard());
    let (snaps, _, _) = run_all(&mut run);
    assert_eq!(snaps.len(), 5);
    for snap in &snaps {
        assert_eq!(snap.contents, "{\"monitors\":[]}");
        assert!(snap.file_name.ends_with(".json"));
    }
}

#[test]
fn first_cycle_of_two_monitors() {
    let mut run = Run::new(store_of(&[("c1", None), ("c2", Some("n2"))]), Schedule::standard());
    match run.step() {
        Action::Updated(ms) => assert_eq!(ms.len(), 2),
        other => panic!("expected an update, got {:?}", other),
    }
    for m in &run.store.monitors {
        let payload: serde_json::Value =
            serde_json::from_str(m.result.as_deref().unwrap()).unwrap();
        assert!(payload["value"].as_u64().unwrap() < 100);
        assert!(chrono::DateTime::parse_from_rfc3339(payload["processed_at"].as_str().unwrap())
            .is_ok());
    }
    let mut snaps = Vec::new();
    while run.pos < 6 {
        if let Action::WriteSnapshot(s) = run.step() {
            snaps.push(s);
        }
    }
    assert_eq!(snaps.len(), 1);
    let v: serde_json::Value = serde_json::from_str(&snaps[0].contents).unwrap();
    let list = v["monitors"].as_array().unwrap();
    assert_eq!(list[0]["code"], "c1");
    assert_eq!(list[1]["code"], "c2");
    assert_eq!(list[1]["name"], "n2");
    for (item, m) in list.iter().zip(run.store.monitors.iter()) {
        assert_eq!(item["result"].as_str(), m.result.as_deref());
    }
}

#[test]
fn snapshot_name_from_time() {
    let t = Timestamp { secs: 1431648000, nanos: 999 };
    assert_eq!(snapshot_file_name(t), Ok("2015-05-15_00-00-00.json".to_string()));
    let t = Timestamp { secs: 1516991409, nanos: 0 };
    assert_eq!(snapshot_file_name(t), Ok("2018-01-26_18-30-09.json".to_string()));
}

#[test]
fn snapshot_name_out_of_range_time() {
    let t = Timestamp { secs: i64::MAX, nanos: 0 };
    assert_eq!(
        snapshot_file_name(t),
        Err(FatalError::ClockOutOfRange)
    );
}

#[test]
fn latest_time_chrono_holds_is_accepted() {
    let last = Timestamp { secs: MAX_SECS, nanos: 999_999_999 };
    assert!(snapshot_file_name(last).is_ok());
    assert!(encode_measurement(&Measurement { value: 5, processed_at: last }).is_ok());
    let past = Timestamp { secs: MAX_SECS + 1, nanos: 0 };
    assert_eq!(snapshot_file_name(past), Err(FatalError::ClockOutOfRange));
    assert_eq!(
        encode_measurement(&Measurement { value: 5, processed_at: past }),
        Err(FatalError::ClockOutOfRange)
    );
    let epoch = Timestamp { secs: 0, nanos: 0 };
    assert_eq!(snapshot_file_name(epoch), Ok("1970-01-01_00-00-00.json".to_string()));
}
