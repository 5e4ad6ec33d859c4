use std::collections::HashMap;

use libcgroups::common::{AnyManagerError, CreateCgroupSetupError};
use libcgroups::stats::{HugeTlbStats, Stats};
use libcgroups::v1::manager::V1ManagerError;
use libcontainer::container::container_events::{
    MonitorAction, MonitorEvent, MonitorPhase, StatusMonitor,
};
use libcontainer::container::state::ContainerStatus;
use libcontainer::error::LibcontainerError;

/// A container and its cgroup manager that follow a script, with a record of
/// what the report did to them.
struct Stage {
    status: ContainerStatus,
    manager_fails: bool,
    /// Which call of the statistics source fails, counted from one.
    failing_fetch: Option<u32>,
    refreshed: u32,
    built: u32,
    fetched: u32,
    printed: Vec<String>,
    slept: Vec<u64>,
}

impl Stage {
    fn new(status: ContainerStatus) -> Stage {
        Stage {
            status,
            manager_fails: false,
            failing_fetch: None,
            refreshed: 0,
            built: 0,
            fetched: 0,
            printed: Vec::new(),
            slept: Vec::new(),
        }
    }
}

fn snapshot(pids: u64) -> Stats {
    let mut stats = Stats::default();
    stats.pids.current = pids;
    stats
}

fn manager_failure() -> AnyManagerError {
    AnyManagerError::V1(V1ManagerError::SubsystemDoesNotExist)
}

/// Runs a report on the stage as a driver does: performs each action and
/// hands its outcome back.
fn report(stage: &mut Stage, interval: u32, once: bool) -> Result<(), LibcontainerError> {
    let (mut monitor, mut action) = StatusMonitor::begin(interval, once);
    loop {
        let event = match action {
            MonitorAction::RefreshStatus => {
                stage.refreshed += 1;
                MonitorEvent::Status(Ok(stage.status))
            }
            MonitorAction::CreateManager => {
                stage.built += 1;
                if stage.manager_fails {
                    MonitorEvent::Manager(Err(LibcontainerError::from(
                        CreateCgroupSetupError::NonDefault,
                    )))
                } else {
                    MonitorEvent::Manager(Ok(()))
                }
            }
            MonitorAction::FetchStats => {
                stage.fetched += 1;
                if stage.failing_fetch == Some(stage.fetched) {
                    MonitorEvent::fetched(Err(manager_failure()))
                } else {
                    MonitorEvent::fetched(Ok(snapshot(u64::from(stage.fetched))))
                }
            }
            MonitorAction::Emit(text) => {
                stage.printed.push(text);
                MonitorEvent::Emitted
            }
            MonitorAction::Sleep(seconds) => {
                stage.slept.push(seconds);
                MonitorEvent::Slept
            }
            MonitorAction::Finish(result) => return result,
        };
        action = monitor.step(event).expect("the monitor takes the outcome of its own action");
    }
}

/// A monitor that has been taken through `events`.
fn monitor_after(interval: u32, once: bool, events: Vec<MonitorEvent>) -> StatusMonitor {
    let (mut monitor, _) = StatusMonitor::begin(interval, once);
    for event in events {
        monitor.step(event);
    }
    monitor
}

fn running() -> MonitorEvent {
    MonitorEvent::Status(Ok(ContainerStatus::Running))
}

fn text(value: &str) -> MonitorEvent {
    MonitorEvent::Snapshot(Ok(value.to_string()))
}

#[test]
fn begin_asks_for_the_status_first() {
    let (monitor, action) = StatusMonitor::begin(5, true);
    assert_eq!(
        monitor,
        StatusMonitor { interval: 5, once: true, phase: MonitorPhase::AwaitingStatus }
    );
    assert!(matches!(action, MonitorAction::RefreshStatus));
}

#[test]
fn report_refuses_a_container_that_is_not_running() {
    let others = [
        ContainerStatus::Creating,
        ContainerStatus::Created,
        ContainerStatus::Stopped,
        ContainerStatus::Paused,
    ];
    for status in others {
        for once in [true, false] {
            let mut stage = Stage::new(status);
            let result = report(&mut stage, 5, once);
            assert!(matches!(result, Err(LibcontainerError::IncorrectStatus)));
            assert_eq!(stage.refreshed, 1);
            assert_eq!(stage.built, 0);
            assert_eq!(stage.fetched, 0);
            assert!(stage.printed.is_empty());
            assert!(stage.slept.is_empty());
        }
    }
}

#[test]
fn report_once_fetches_and_prints_one_snapshot() {
    let mut stage = Stage::new(ContainerStatus::Running);
    let result = report(&mut stage, 5, true);
    assert!(matches!(result, Ok(())));
    assert_eq!(stage.refreshed, 1);
    assert_eq!(stage.built, 1);
    assert_eq!(stage.fetched, 1);
    assert_eq!(stage.printed.len(), 1);
    assert!(stage.slept.is_empty());
}

#[test]
fn repeating_report_ends_when_the_third_fetch_fails() {
    let mut stage = Stage::new(ContainerStatus::Running);
    stage.failing_fetch = Some(3);
    let result = report(&mut stage, 5, false);
    assert!(matches!(
        result,
        Err(LibcontainerError::CgroupManager(AnyManagerError::V1(
            V1ManagerError::SubsystemDoesNotExist
        )))
    ));
    assert_eq!(stage.built, 1);
    assert_eq!(stage.fetched, 3);
    assert_eq!(stage.printed.len(), 2);
    assert_eq!(stage.slept, vec![5, 5]);
    let first: serde_json::Value = serde_json::from_str(&stage.printed[0]).unwrap();
    let second: serde_json::Value = serde_json::from_str(&stage.printed[1]).unwrap();
    assert_eq!(first["pids"]["current"].as_u64(), Some(1));
    assert_eq!(second["pids"]["current"].as_u64(), Some(2));
}

#[test]
fn report_passes_on_the_failure_to_build_a_manager() {
    let mut stage = Stage::new(ContainerStatus::Running);
    stage.manager_fails = true;
    let result = report(&mut stage, 5, false);
    assert!(matches!(
        result,
        Err(LibcontainerError::CgroupCreate(CreateCgroupSetupError::NonDefault))
    ));
    assert_eq!(stage.built, 1);
    assert_eq!(stage.fetched, 0);
    assert!(stage.printed.is_empty());
}

#[test]
fn report_once_passes_on_the_failure_of_its_fetch() {
    let mut stage = Stage::new(ContainerStatus::Running);
    stage.failing_fetch = Some(1);
    let result = report(&mut stage, 5, true);
    assert!(matches!(result, Err(LibcontainerError::CgroupManager(_))));
    assert_eq!(stage.fetched, 1);
    assert!(stage.printed.is_empty());
    assert!(stage.slept.is_empty());
}

#[test]
fn failure_to_read_the_status_is_passed_on() {
    let (mut monitor, _) = StatusMonitor::begin(5, true);
    let cause = LibcontainerError::Other("state file is gone".to_string());
    let action = monitor.step(MonitorEvent::Status(Err(cause)));
    match action {
        Some(MonitorAction::Finish(Err(LibcontainerError::Other(said)))) => {
            assert_eq!(said, "state file is gone")
        }
        other => panic!("unexpected action: {:?}", other),
    }
    assert_eq!(monitor.phase, MonitorPhase::Finished);
}

#[test]
fn snapshot_text_reads_back_as_the_snapshot() {
    let mut stats = Stats::default();
    stats.cpu.usage.usage_total = 123_456_789;
    stats.cpu.usage.per_core_usage_total = vec![100, 200, 300];
    stats.cpu.throttling.throttled_time = 42;
    stats.cpu.psi.some.avg10 = 1.5;
    stats.pids.current = 7;
    stats.pids.limit = 1024;
    stats.memory.memory.usage = 4096;
    stats.memory.hierarchy = true;
    stats.memory.stats = HashMap::from([("cache".to_string(), 11), ("rss".to_string(), 22)]);
    stats.hugetlb = HashMap::from([(
        "2MB".to_string(),
        HugeTlbStats { usage: 2_097_152, max_usage: 4_194_304, fail_count: 1 },
    )]);
    let expected = serde_json::to_value(&stats).unwrap();

    let printed = match MonitorEvent::fetched(Ok(stats)) {
        MonitorEvent::Snapshot(Ok(printed)) => printed,
        other => panic!("unexpected event: {:?}", other),
    };

    let read: serde_json::Value = serde_json::from_str(&printed).unwrap();
    assert_eq!(read, expected);
    assert_eq!(read["cpu"]["usage"]["usage_total"].as_u64(), Some(123_456_789));
    assert_eq!(read["cpu"]["usage"]["per_core_usage_total"][2].as_u64(), Some(300));
    assert_eq!(read["cpu"]["throttling"]["throttled_time"].as_u64(), Some(42));
    assert_eq!(read["cpu"]["psi"]["some"]["avg10"].as_f64(), Some(1.5));
    assert_eq!(read["pids"]["current"].as_u64(), Some(7));
    assert_eq!(read["pids"]["limit"].as_u64(), Some(1024));
    assert_eq!(read["memory"]["memory"]["usage"].as_u64(), Some(4096));
    assert_eq!(read["memory"]["hierarchy"].as_bool(), Some(true));
    assert_eq!(read["memory"]["stats"]["rss"].as_u64(), Some(22));
    assert_eq!(read["hugetlb"]["2MB"]["max_usage"].as_u64(), Some(4_194_304));
}

#[test]
fn snapshot_text_is_pretty_printed() {
    let printed = match MonitorEvent::fetched(Ok(snapshot(7))) {
        MonitorEvent::Snapshot(Ok(printed)) => printed,
        other => panic!("unexpected event: {:?}", other),
    };
    assert!(printed.starts_with("{\n  \"cpu\": {\n"));
    assert!(printed.contains("\n  \"pids\": {\n    \"current\": 7,\n    \"limit\": 0\n  }"));
    assert!(printed.ends_with("\n}"));
}

#[test]
fn fetched_passes_on_the_failure_of_the_manager() {
    let event = MonitorEvent::fetched(Err(manager_failure()));
    assert!(matches!(
        event,
        MonitorEvent::Snapshot(Err(LibcontainerError::CgroupManager(AnyManagerError::V1(
            V1ManagerError::SubsystemDoesNotExist
        ))))
    ));
}

#[test]
fn serialization_failure_has_a_kind_of_its_own() {
    let cause = serde_json::from_str::<serde_json::Value>("{").unwrap_err();
    let said = cause.to_string();
    let event = MonitorEvent::rendered(Err(cause));
    let mut monitor = monitor_after(5, false, vec![running(), MonitorEvent::Manager(Ok(()))]);
    match monitor.step(event) {
        Some(MonitorAction::Finish(Err(LibcontainerError::OtherSerialization(kept)))) => {
            assert_eq!(kept.to_string(), said)
        }
        other => panic!("unexpected action: {:?}", other),
    }
    assert_eq!(monitor.phase, MonitorPhase::Finished);
}

#[test]
fn rendered_text_becomes_the_snapshot() {
    let event = MonitorEvent::rendered(Ok("{}".to_string()));
    match event {
        MonitorEvent::Snapshot(Ok(printed)) => assert_eq!(printed, "{}"),
        other => panic!("unexpected event: {:?}", other),
    }
}

#[test]
fn sleep_lasts_the_interval() {
    for interval in [0, 1, 5000, u32::MAX] {
        let mut monitor =
            monitor_after(interval, false, vec![running(), MonitorEvent::Manager(Ok(())), text("{}")]);
        let action = monitor.step(MonitorEvent::Emitted);
        match action {
            Some(MonitorAction::Sleep(seconds)) => assert_eq!(seconds, u64::from(interval)),
            other => panic!("unexpected action: {:?}", other),
        }
        assert_eq!(monitor.phase, MonitorPhase::AwaitingSleep);
        assert!(matches!(monitor.step(MonitorEvent::Slept), Some(MonitorAction::FetchStats)));
        assert_eq!(monitor.phase, MonitorPhase::AwaitingStats);
    }
}

#[test]
fn the_text_to_print_is_the_snapshot_text() {
    let mut monitor = monitor_after(5, true, vec![running(), MonitorEvent::Manager(Ok(()))]);
    match monitor.step(text("{\"pids\": 1}")) {
        Some(MonitorAction::Emit(printed)) => assert_eq!(printed, "{\"pids\": 1}"),
        other => panic!("unexpected action: {:?}", other),
    }
    assert_eq!(monitor.phase, MonitorPhase::AwaitingEmit);
    assert!(matches!(monitor.step(MonitorEvent::Emitted), Some(MonitorAction::Finish(Ok(())))));
    assert_eq!(monitor.phase, MonitorPhase::Finished);
}

#[test]
fn stop_request_ends_the_run_with_success() {
    let before: Vec<Vec<MonitorEvent>> = vec![
        vec![],
        vec![running()],
        vec![running(), MonitorEvent::Manager(Ok(()))],
        vec![running(), MonitorEvent::Manager(Ok(())), text("{}")],
        vec![running(), MonitorEvent::Manager(Ok(())), text("{}"), MonitorEvent::Emitted],
    ];
    for events in before {
        let mut monitor = monitor_after(5, false, events);
        assert_ne!(monitor.phase, MonitorPhase::Finished);
        let action = monitor.step(MonitorEvent::StopRequested);
        assert!(matches!(action, Some(MonitorAction::Finish(Ok(())))));
        assert_eq!(monitor.phase, MonitorPhase::Finished);
    }
}

#[test]
fn finished_monitor_takes_nothing_more() {
    let mut monitor = monitor_after(5, true, vec![MonitorEvent::Status(Ok(ContainerStatus::Stopped))]);
    assert_eq!(monitor.phase, MonitorPhase::Finished);
    let later = vec![
        running(),
        MonitorEvent::Manager(Ok(())),
        text("{}"),
        MonitorEvent::Emitted,
        MonitorEvent::Slept,
        MonitorEvent::StopRequested,
    ];
    for event in later {
        assert!(monitor.step(event).is_none());
        assert_eq!(monitor.phase, MonitorPhase::Finished);
    }
}

#[test]
fn event_out_of_turn_changes_nothing() {
    let mut waiting_for_status = monitor_after(5, false, vec![]);
    assert!(waiting_for_status.step(MonitorEvent::Manager(Ok(()))).is_none());
    assert!(waiting_for_status.step(text("{}")).is_none());
    assert!(waiting_for_status.step(MonitorEvent::Emitted).is_none());
    assert!(waiting_for_status.step(MonitorEvent::Slept).is_none());
    assert_eq!(waiting_for_status.phase, MonitorPhase::AwaitingStatus);

    let mut waiting_for_stats =
        monitor_after(5, false, vec![running(), MonitorEvent::Manager(Ok(()))]);
    assert!(waiting_for_stats.step(running()).is_none());
    assert!(waiting_for_stats.step(MonitorEvent::Slept).is_none());
    assert_eq!(waiting_for_stats.phase, MonitorPhase::AwaitingStats);
    assert!(matches!(waiting_for_stats.step(text("{}")), Some(MonitorAction::Emit(_))));
}

#[test]
fn outside_errors_convert_by_kind() {
    assert!(matches!(
        LibcontainerError::from(manager_failure()),
        LibcontainerError::CgroupManager(AnyManagerError::V1(
            V1ManagerError::SubsystemDoesNotExist
        ))
    ));
    assert!(matches!(
        LibcontainerError::from(CreateCgroupSetupError::FailedToDetect),
        LibcontainerError::CgroupCreate(CreateCgroupSetupError::FailedToDetect)
    ));
    let cause = serde_json::from_str::<serde_json::Value>("[").unwrap_err();
    assert!(matches!(LibcontainerError::from(cause), LibcontainerError::OtherSerialization(_)));
}
