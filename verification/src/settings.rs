//! User-editable settings: how the monitor searches, refreshes and looks,
//! and which service the supervisor auto-runs. The settings are plain
//! values; reading and writing them from disk belongs to the embedding
//! program.

use vstd::prelude::*;

verus! {

use vstd::string::StringExecFns;

/// How a search query is interpreted: by process name, or — when it starts
/// with the pid prefix — by process id.
#[derive(Debug, Clone, Copy, PartialEq, Eq, Structural)]
pub enum SearchType {
    Name,
    Pid,
}

/// Persisted monitor preferences.
#[derive(Debug, Clone)]
pub struct UserSettings {
    pub refresh_interval_ms: u64,
    pub default_interface: String,
    pub default_usage_view: String,
    pub default_theme: String,
    pub show_info_on_start: bool,
}

impl Default for UserSettings {
    /// The out-of-the-box preferences: a two-second refresh, the ethernet
    /// interface, the processor usage view, the default theme, and no info
    /// panel.
    fn default() -> (r: UserSettings)
        ensures
            r.refresh_interval_ms == 2000,
            r.default_interface@ == "eth0"@,
            r.default_usage_view@ == "cpu"@,
            r.default_theme@ == "DarkPurple"@,
            r.show_info_on_start == false,
    {
        UserSettings {
            refresh_interval_ms: 2000,
            default_interface: String::from_str("eth0"),
            default_usage_view: String::from_str("cpu"),
            default_theme: String::from_str("DarkPurple"),
            show_info_on_start: false,
        }
    }
}

/// Persisted supervisor preferences: the name of the service to auto-run,
/// where the empty string means none.
#[derive(Debug, Clone)]
pub struct DaemonSettings {
    pub enabled_service: String,
}

impl Default for DaemonSettings {
    /// By default no service is auto-run.
    fn default() -> (r: DaemonSettings)
        ensures
            r.enabled_service@ == Seq::<char>::empty(),
    {
        DaemonSettings { enabled_service: String::new() }
    }
}

} // verus!
