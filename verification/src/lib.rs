//! Launching the Codex desktop app with the enhancement bridge.
use vstd::prelude::*;

pub mod bridge;
pub mod course_laws;
pub mod events;
pub mod exit;
pub mod framing;
pub mod guard;
pub mod guard_laws;
pub mod helper;
pub mod http;
pub mod json;
pub mod launch;
pub mod overlay;
pub mod paths;
pub mod plan;
pub mod plan_laws;
pub mod proxy;
pub mod quoting;
pub mod relay;
pub mod remote;
pub mod route_laws;
pub mod session;
pub mod session_laws;
pub mod settings;
pub mod status;
pub mod text;
pub mod text_laws;
pub mod wire_laws;

verus! {
}
