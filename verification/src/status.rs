//! The recorded status of a launch.
use vstd::prelude::*;

verus! {

/// The recorded status of a launch.
#[derive(Debug, Clone)]
pub struct LaunchStatus {
    pub status: String,
    pub message: String,
    pub started_at_ms: u64,
    pub debug_port: Option<u16>,
    pub helper_port: Option<u16>,
    pub codex_app: Option<String>,
}

/// The status of a launch at the given time, in milliseconds since 1970.
pub fn launch_status(
    status: &str,
    message: &str,
    started_at_ms: u64,
    debug_port: u16,
    helper_port: u16,
    app_dir: &str,
) -> (r: LaunchStatus)
    ensures
        r.status@ == status@,
        r.message@ == message@,
        r.started_at_ms == started_at_ms,
        r.debug_port == Some(debug_port),
        r.helper_port == Some(helper_port),
        r.codex_app.deep_view() == Some(app_dir@),
{
    LaunchStatus {
        status: status.to_string(),
        message: message.to_string(),
        started_at_ms,
        debug_port: Some(debug_port),
        helper_port: Some(helper_port),
        codex_app: Some(app_dir.to_string()),
    }
}

} // verus!
