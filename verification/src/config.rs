//! The declarative description of one service, and the default
//! configuration synthesized on first run.

use vstd::prelude::*;

verus! {

use vstd::string::StringExecFns;

/// One health-check definition: a shell command, how often to run it, how
/// long to allow it, and how many consecutive failures make a service
/// unhealthy.
#[derive(Debug, Clone)]
pub struct HealthCheckConfig {
    pub command: String,
    pub interval_secs: u64,
    pub timeout_secs: u64,
    pub retries: u32,
}

/// Immutable declarative description of one service, as read from the
/// persisted configuration: what to run, where, with which environment,
/// and how to react when it dies.
#[derive(Debug, Clone)]
pub struct ServiceConfig {
    pub name: String,
    pub command: String,
    pub args: Vec<String>,
    pub working_dir: Option<String>,
    pub env_vars: Vec<(String, String)>,
    pub restart_policy: String,
    pub max_restarts: u32,
    pub restart_delay_secs: u64,
    pub health_check: Option<HealthCheckConfig>,
}

/// What the first of the synthesized default services looks like: a log
/// follower restarted unconditionally.
pub open spec fn is_default_log_monitor(c: ServiceConfig) -> bool {
    &&& c.name@ == "log-monitor"@
    &&& c.command@ == "/usr/bin/tail"@
    &&& c.args@.len() == 2
    &&& c.args@[0]@ == "-f"@
    &&& c.args@[1]@ == "/var/log/syslog"@
    &&& c.working_dir matches Some(d) && d@ == "/tmp"@
    &&& c.env_vars@.len() == 0
    &&& c.restart_policy@ == "always"@
    &&& c.max_restarts == 3
    &&& c.restart_delay_secs == 5
    &&& c.health_check matches Some(h) && h.command@ == "pgrep -f 'tail.*syslog' > /dev/null"@
        && h.interval_secs == 60 && h.timeout_secs == 5 && h.retries == 1
}

/// What the second default service looks like: a periodic statistics
/// collector restarted unconditionally.
pub open spec fn is_default_stats_collector(c: ServiceConfig) -> bool {
    &&& c.name@ == "stats-collector"@
    &&& c.command@ == "/bin/bash"@
    &&& c.args@.len() == 2
    &&& c.args@[0]@ == "-c"@
    &&& c.args@[1]@
        == "while true; do echo \"$(date): $(uptime)\" >> /tmp/system-stats.log; sleep 30; done"@
    &&& c.working_dir matches Some(d) && d@ == "/tmp"@
    &&& c.env_vars@.len() == 0
    &&& c.restart_policy@ == "always"@
    &&& c.max_restarts == 10
    &&& c.restart_delay_secs == 2
    &&& c.health_check matches Some(h) && h.command@
        == "test -f /tmp/system-stats.log && find /tmp/system-stats.log -mmin -2 | grep -q system-stats.log"@
        && h.interval_secs == 45 && h.timeout_secs == 5 && h.retries == 2
}

/// What the third default service looks like: a connectivity monitor
/// restarted only when its process dies.
pub open spec fn is_default_network_monitor(c: ServiceConfig) -> bool {
    &&& c.name@ == "network-monitor"@
    &&& c.command@ == "/bin/bash"@
    &&& c.args@.len() == 2
    &&& c.args@[0]@ == "-c"@
    &&& c.args@[1]@
        == "while true; do ping -c 1 8.8.8.8 >/dev/null && echo \"$(date): Network OK\" >> /tmp/network.log || echo \"$(date): Network FAIL\" >> /tmp/network.log; sleep 10; done"@
    &&& c.working_dir matches Some(d) && d@ == "/tmp"@
    &&& c.env_vars@.len() == 0
    &&& c.restart_policy@ == "on_failure"@
    &&& c.max_restarts == 5
    &&& c.restart_delay_secs == 10
    &&& c.health_check matches Some(h) && h.command@
        == "test -f /tmp/network.log && find /tmp/network.log -mmin -1 | grep -q network.log"@
        && h.interval_secs == 30 && h.timeout_secs == 5 && h.retries == 1
}

/// The example configuration written on first run: three illustrative
/// services with example shell commands and health checks, so that the
/// supervisor always has a valid file to re-read.
pub fn default_configs() -> (r: Vec<ServiceConfig>)
    ensures
        r@.len() == 3,
        is_default_log_monitor(r@[0]),
        is_default_stats_collector(r@[1]),
        is_default_network_monitor(r@[2]),
{
    let mut log_args: Vec<String> = Vec::new();
    log_args.push(String::from_str("-f"));
    log_args.push(String::from_str("/var/log/syslog"));
    let log_monitor = ServiceConfig {
        name: String::from_str("log-monitor"),
        command: String::from_str("/usr/bin/tail"),
        args: log_args,
        working_dir: Some(String::from_str("/tmp")),
        env_vars: Vec::new(),
        restart_policy: String::from_str("always"),
        max_restarts: 3,
        restart_delay_secs: 5,
        health_check: Some(
            HealthCheckConfig {
                command: String::from_str("pgrep -f 'tail.*syslog' > /dev/null"),
                interval_secs: 60,
                timeout_secs: 5,
                retries: 1,
            },
        ),
    };

    let mut stats_args: Vec<String> = Vec::new();
    stats_args.push(String::from_str("-c"));
    stats_args.push(
        String::from_str(
            "while true; do echo \"$(date): $(uptime)\" >> /tmp/system-stats.log; sleep 30; done",
        ),
    );
    let stats_collector = ServiceConfig {
        name: String::from_str("stats-collector"),
        command: String::from_str("/bin/bash"),
        args: stats_args,
        working_dir: Some(String::from_str("/tmp")),
        env_vars: Vec::new(),
        restart_policy: String::from_str("always"),
        max_restarts: 10,
        restart_delay_secs: 2,
        health_check: Some(
            HealthCheckConfig {
                command: String::from_str(
                    "test -f /tmp/system-stats.log && find /tmp/system-stats.log -mmin -2 | grep -q system-stats.log",
                ),
                interval_secs: 45,
                timeout_secs: 5,
                retries: 2,
            },
        ),
    };

    let mut net_args: Vec<String> = Vec::new();
    net_args.push(String::from_str("-c"));
    net_args.push(
        String::from_str(
            "while true; do ping -c 1 8.8.8.8 >/dev/null && echo \"$(date): Network OK\" >> /tmp/network.log || echo \"$(date): Network FAIL\" >> /tmp/network.log; sleep 10; done",
        ),
    );
    let network_monitor = ServiceConfig {
        name: String::from_str("network-monitor"),
        command: String::from_str("/bin/bash"),
        args: net_args,
        working_dir: Some(String::from_str("/tmp")),
        env_vars: Vec::new(),
        restart_policy: String::from_str("on_failure"),
        max_restarts: 5,
        restart_delay_secs: 10,
        health_check: Some(
            HealthCheckConfig {
                command: String::from_str(
                    "test -f /tmp/network.log && find /tmp/network.log -mmin -1 | grep -q network.log",
                ),
                interval_secs: 30,
                timeout_secs: 5,
                retries: 1,
            },
        ),
    };

    let mut configs: Vec<ServiceConfig> = Vec::new();
    configs.push(log_monitor);
    configs.push(stats_collector);
    configs.push(network_monitor);
    configs
}

} // verus!
