use r_top::config::ServiceConfig;
use r_top::policy::{should_restart_decision, RestartPolicy};
use r_top::controller::{FakeAction, FakeController, SignalKind};
use r_top::service::ServiceStatus;
use r_top::supervisor::{DaemonSupervisor, SupervisorError};

fn plain_config(name: &str, policy: &str, max_restarts: u32, delay_secs: u64) -> ServiceConfig {
    ServiceConfig {
        name: name.to_string(),
        command: "/bin/sleep".to_string(),
        args: vec!["60".to_string()],
        working_dir: None,
        env_vars: Vec::new(),
        restart_policy: policy.to_string(),
        max_restarts,
        restart_delay_secs: delay_secs,
        health_check: None,
    }
}

fn checked_config(name: &str, retries: u32) -> ServiceConfig {
    ServiceConfig {
        name: name.to_string(),
        command: "/bin/sleep".to_string(),
        args: vec!["60".to_string()],
        working_dir: None,
        env_vars: Vec::new(),
        restart_policy: "never".to_string(),
        max_restarts: 0,
        restart_delay_secs: 0,
        health_check: Some(r_top::config::HealthCheckConfig {
            command: "true".to_string(),
            interval_secs: 0,
            timeout_secs: 5,
            retries,
        }),
    }
}

#[test]
fn on_failure_respects_budget_across_three_failures() {
    let mut sup = DaemonSupervisor::new();
    sup.load_services(vec![plain_config("a", "on_failure", 2, 0)]);
    let mut ctrl = FakeController::new();
    ctrl.spawn_script = vec![Some(100), Some(101), Some(102)];

    assert!(sup.start_service("a", &mut ctrl).is_ok());
    assert_eq!(sup.get_service_status("a"), Some(ServiceStatus::Running));

    // first death: restarted
    ctrl.alive.clear();
    sup.check_services(&mut ctrl);
    assert_eq!(sup.get_service_status("a"), Some(ServiceStatus::Running));
    assert_eq!(sup.list_services()[0].restart_count, 1);

    // second death: restarted, budget now exhausted
    ctrl.alive.clear();
    sup.check_services(&mut ctrl);
    assert_eq!(sup.get_service_status("a"), Some(ServiceStatus::Running));
    assert_eq!(sup.list_services()[0].restart_count, 2);

    // third death: no further restart
    ctrl.alive.clear();
    sup.check_services(&mut ctrl);
    assert_eq!(sup.get_service_status("a"), Some(ServiceStatus::Failed));
    assert_eq!(sup.list_services()[0].restart_count, 2);
    assert_eq!(sup.list_services()[0].pid, None);
    assert_eq!(ctrl.spawn_next, 3);
}

#[test]
fn health_check_unhealthy_exactly_on_third_failure() {
    let mut sup = DaemonSupervisor::new();
    sup.load_services(vec![checked_config("probed", 3)]);
    let mut ctrl = FakeController::new();
    ctrl.spawn_script = vec![Some(7)];
    ctrl.probe_script = vec![false, false, false];

    assert!(sup.start_service("probed", &mut ctrl).is_ok());

    sup.check_services(&mut ctrl);
    assert_eq!(sup.get_service_status("probed"), Some(ServiceStatus::Running));
    assert_eq!(sup.list_services()[0].health_failures, 1);

    sup.check_services(&mut ctrl);
    assert_eq!(sup.get_service_status("probed"), Some(ServiceStatus::Running));
    assert_eq!(sup.list_services()[0].health_failures, 2);

    sup.check_services(&mut ctrl);
    assert_eq!(sup.get_service_status("probed"), Some(ServiceStatus::Unhealthy));
    assert_eq!(sup.list_services()[0].health_failures, 3);

    // an unhealthy service is no longer probed: the fourth tick changes nothing
    sup.check_services(&mut ctrl);
    assert_eq!(sup.get_service_status("probed"), Some(ServiceStatus::Unhealthy));
    assert_eq!(sup.list_services()[0].health_failures, 3);
    assert_eq!(ctrl.probe_next, 3);
}

#[test]
fn health_failures_reset_on_success() {
    let mut sup = DaemonSupervisor::new();
    sup.load_services(vec![checked_config("probed", 3)]);
    let mut ctrl = FakeController::new();
    ctrl.spawn_script = vec![Some(7)];
    ctrl.probe_script = vec![false, false, true, false];

    assert!(sup.start_service("probed", &mut ctrl).is_ok());
    sup.check_services(&mut ctrl);
    sup.check_services(&mut ctrl);
    assert_eq!(sup.list_services()[0].health_failures, 2);

    // a success clears the counter before it reaches the budget
    sup.check_services(&mut ctrl);
    assert_eq!(sup.list_services()[0].health_failures, 0);
    assert_eq!(sup.get_service_status("probed"), Some(ServiceStatus::Running));

    sup.check_services(&mut ctrl);
    assert_eq!(sup.list_services()[0].health_failures, 1);
}

#[test]
fn stop_kills_only_a_stubborn_process() {
    let mut sup = DaemonSupervisor::new();
    sup.load_services(vec![plain_config("stubborn", "never", 0, 0)]);
    let mut ctrl = FakeController::new();
    ctrl.spawn_script = vec![Some(9)];
    ctrl.term_exits = false;

    assert!(sup.start_service("stubborn", &mut ctrl).is_ok());
    assert!(sup.stop_service("stubborn", &mut ctrl).is_ok());

    assert_eq!(sup.get_service_status("stubborn"), Some(ServiceStatus::Stopped));
    assert_eq!(sup.list_services()[0].pid, None);
    assert_eq!(
        ctrl.actions,
        vec![
            FakeAction::Spawned(9),
            FakeAction::Signaled(9, SignalKind::Terminate),
            FakeAction::Slept(5000),
            FakeAction::Signaled(9, SignalKind::Kill),
        ]
    );
}

#[test]
fn stop_sends_no_kill_when_process_exits_in_grace_window() {
    let mut sup = DaemonSupervisor::new();
    sup.load_services(vec![plain_config("polite", "never", 0, 0)]);
    let mut ctrl = FakeController::new();
    ctrl.spawn_script = vec![Some(4)];
    ctrl.term_exits = true;

    assert!(sup.start_service("polite", &mut ctrl).is_ok());
    assert!(sup.stop_service("polite", &mut ctrl).is_ok());

    assert_eq!(sup.get_service_status("polite"), Some(ServiceStatus::Stopped));
    assert_eq!(
        ctrl.actions,
        vec![
            FakeAction::Spawned(4),
            FakeAction::Signaled(4, SignalKind::Terminate),
            FakeAction::Slept(5000),
        ]
    );
}

#[test]
fn never_policy_stays_failed() {
    let mut sup = DaemonSupervisor::new();
    sup.load_services(vec![plain_config("once", "never", 5, 0)]);
    let mut ctrl = FakeController::new();
    ctrl.spawn_script = vec![Some(11), Some(12)];

    assert!(sup.start_service("once", &mut ctrl).is_ok());
    ctrl.alive.clear();
    for _ in 0..4 {
        sup.check_services(&mut ctrl);
        assert_eq!(sup.get_service_status("once"), Some(ServiceStatus::Failed));
        assert_eq!(sup.list_services()[0].restart_count, 0);
    }
    // only the explicit start ever spawned
    assert_eq!(ctrl.spawn_next, 1);
}

#[test]
fn always_policy_restarts_every_death() {
    let mut sup = DaemonSupervisor::new();
    sup.load_services(vec![plain_config("eager", "always", 0, 0)]);
    let mut ctrl = FakeController::new();
    ctrl.spawn_script = vec![Some(20), Some(21), Some(22)];

    assert!(sup.start_service("eager", &mut ctrl).is_ok());
    for expected_count in 1..=2 {
        ctrl.alive.clear();
        sup.check_services(&mut ctrl);
        assert_eq!(sup.get_service_status("eager"), Some(ServiceStatus::Running));
        assert_eq!(sup.list_services()[0].restart_count, expected_count);
    }
}

#[test]
fn restart_delay_is_waited_out() {
    let mut sup = DaemonSupervisor::new();
    sup.load_services(vec![plain_config("slow", "always", 0, 10)]);
    let mut ctrl = FakeController::new();
    ctrl.spawn_script = vec![Some(30), Some(31), Some(32)];

    assert!(sup.start_service("slow", &mut ctrl).is_ok());

    // first restart: no earlier restart, so no wait
    ctrl.alive.clear();
    sup.check_services(&mut ctrl);
    assert_eq!(sup.list_services()[0].last_restart, Some(0));
    assert!(!ctrl.actions.contains(&FakeAction::Slept(10000)));

    // second restart: the full ten-second delay is waited out first
    ctrl.alive.clear();
    sup.check_services(&mut ctrl);
    assert!(ctrl.actions.contains(&FakeAction::Slept(10000)));
    assert_eq!(sup.list_services()[0].last_restart, Some(10000));
    assert_eq!(ctrl.clock_ms, 10000);
    assert_eq!(sup.get_service_status("slow"), Some(ServiceStatus::Running));
}

#[test]
fn unhealthy_alone_is_not_restarted_under_on_failure() {
    let mut config = checked_config("wobbly", 1);
    config.restart_policy = "on_failure".to_string();
    config.max_restarts = 5;
    let mut sup = DaemonSupervisor::new();
    sup.load_services(vec![config]);
    let mut ctrl = FakeController::new();
    ctrl.spawn_script = vec![Some(8)];
    ctrl.probe_script = vec![false];

    assert!(sup.start_service("wobbly", &mut ctrl).is_ok());
    sup.check_services(&mut ctrl);
    assert_eq!(sup.get_service_status("wobbly"), Some(ServiceStatus::Unhealthy));

    // the process is still alive, so further ticks never restart it
    for _ in 0..3 {
        sup.check_services(&mut ctrl);
        assert_eq!(sup.get_service_status("wobbly"), Some(ServiceStatus::Unhealthy));
        assert_eq!(sup.list_services()[0].restart_count, 0);
        assert_eq!(sup.list_services()[0].pid, Some(8));
    }
    assert_eq!(ctrl.spawn_next, 1);
}

#[test]
fn quiet_tick_changes_nothing() {
    let mut sup = DaemonSupervisor::new();
    sup.load_services(vec![plain_config("calm", "always", 0, 0)]);
    let mut ctrl = FakeController::new();
    ctrl.spawn_script = vec![Some(70)];
    assert!(sup.start_service("calm", &mut ctrl).is_ok());

    // the process stays alive and there is no health check: nothing moves
    sup.check_services(&mut ctrl);
    sup.check_services(&mut ctrl);
    assert_eq!(sup.get_service_status("calm"), Some(ServiceStatus::Running));
    assert_eq!(sup.list_services()[0].pid, Some(70));
    assert_eq!(sup.list_services()[0].restart_count, 0);
    assert_eq!(ctrl.spawn_next, 1);
    assert_eq!(ctrl.probe_next, 0);
}

#[test]
fn restart_decision_truth_table() {
    let failed = ServiceStatus::Failed;
    let unhealthy = ServiceStatus::Unhealthy;
    assert!(should_restart_decision(RestartPolicy::Always, failed, 999, 0));
    assert!(should_restart_decision(RestartPolicy::Always, unhealthy, 0, 0));
    assert!(should_restart_decision(RestartPolicy::OnFailure, failed, 0, 1));
    assert!(!should_restart_decision(RestartPolicy::OnFailure, failed, 1, 1));
    assert!(!should_restart_decision(RestartPolicy::OnFailure, unhealthy, 0, 5));
    assert!(!should_restart_decision(RestartPolicy::Never, failed, 0, 5));
}

#[test]
fn explicit_restart_counts_and_spawns() {
    let mut sup = DaemonSupervisor::new();
    sup.load_services(vec![plain_config("manual", "never", 0, 10)]);
    let mut ctrl = FakeController::new();
    ctrl.spawn_script = vec![Some(40), Some(41)];

    // restarting a stopped service spawns it and counts the attempt
    assert!(sup.restart_service("manual", &mut ctrl).is_ok());
    assert_eq!(sup.get_service_status("manual"), Some(ServiceStatus::Running));
    assert_eq!(sup.list_services()[0].restart_count, 1);
    assert_eq!(sup.list_services()[0].last_restart, Some(0));

    // restarting a running service waits and counts but does not respawn
    assert!(sup.restart_service("manual", &mut ctrl).is_ok());
    assert_eq!(sup.list_services()[0].restart_count, 2);
    assert_eq!(sup.list_services()[0].last_restart, Some(10000));
    assert_eq!(sup.list_services()[0].pid, Some(40));
    assert_eq!(ctrl.spawn_next, 1);
    assert!(ctrl.actions.contains(&FakeAction::Slept(10000)));

    assert_eq!(
        sup.restart_service("ghost", &mut ctrl),
        Err(SupervisorError::ServiceNotFound)
    );
}

#[test]
fn start_unknown_service_reports_not_found() {
    let mut sup = DaemonSupervisor::new();
    let mut ctrl = FakeController::new();
    assert_eq!(sup.start_service("ghost", &mut ctrl), Err(SupervisorError::ServiceNotFound));
    assert_eq!(sup.stop_service("ghost", &mut ctrl), Err(SupervisorError::ServiceNotFound));
    assert_eq!(sup.get_service_status("ghost"), None);
}

#[test]
fn failed_spawn_reports_error_and_keeps_status() {
    let mut sup = DaemonSupervisor::new();
    sup.load_services(vec![plain_config("broken", "never", 0, 0)]);
    let mut ctrl = FakeController::new();
    // empty spawn script: every spawn fails
    assert_eq!(sup.start_service("broken", &mut ctrl), Err(SupervisorError::SpawnFailed));
    assert_eq!(sup.get_service_status("broken"), Some(ServiceStatus::Stopped));
    assert_eq!(sup.list_services()[0].pid, None);
}

#[test]
fn start_is_a_no_op_while_running() {
    let mut sup = DaemonSupervisor::new();
    sup.load_services(vec![plain_config("steady", "never", 0, 0)]);
    let mut ctrl = FakeController::new();
    ctrl.spawn_script = vec![Some(50), Some(51)];
    assert!(sup.start_service("steady", &mut ctrl).is_ok());
    assert!(sup.start_service("steady", &mut ctrl).is_ok());
    assert_eq!(sup.list_services()[0].pid, Some(50));
    assert_eq!(ctrl.spawn_next, 1);
}

#[test]
fn stop_without_process_leaves_service_untouched() {
    let mut sup = DaemonSupervisor::new();
    sup.load_services(vec![plain_config("idle", "never", 0, 0)]);
    let mut ctrl = FakeController::new();
    assert!(sup.stop_service("idle", &mut ctrl).is_ok());
    assert_eq!(sup.get_service_status("idle"), Some(ServiceStatus::Stopped));
    assert!(ctrl.actions.is_empty());
}

#[test]
fn loading_a_duplicate_name_replaces_the_service() {
    let mut sup = DaemonSupervisor::new();
    let mut first = plain_config("dup", "always", 1, 0);
    first.command = "/bin/first".to_string();
    let mut second = plain_config("dup", "never", 9, 3);
    second.command = "/bin/second".to_string();
    sup.load_services(vec![first, second]);

    assert_eq!(sup.len(), 1);
    let svc = &sup.list_services()[0];
    assert_eq!(svc.config.command, "/bin/second");
    assert_eq!(svc.config.max_restarts, 9);
    assert_eq!(svc.status, ServiceStatus::Stopped);
}

#[test]
fn default_configuration_loads_three_stopped_services() {
    let mut sup = DaemonSupervisor::new();
    sup.load_services(r_top::config::default_configs());
    assert_eq!(sup.len(), 3);
    let services = sup.list_services();
    assert_eq!(services[0].config.name, "log-monitor");
    assert_eq!(services[1].config.name, "stats-collector");
    assert_eq!(services[2].config.name, "network-monitor");
    for svc in services.iter() {
        assert_eq!(svc.status, ServiceStatus::Stopped);
        assert_eq!(svc.pid, None);
        assert_eq!(svc.restart_count, 0);
        assert!(svc.health_check.is_some());
    }
    assert_eq!(
        services[0].restart_policy,
        r_top::policy::RestartPolicy::Always
    );
    assert_eq!(
        services[2].restart_policy,
        r_top::policy::RestartPolicy::OnFailure
    );
    // intervals arrive in milliseconds
    assert_eq!(services[0].health_check.as_ref().unwrap().interval_ms, 60000);
}
