//! What the active relay profile asks of the configuration.
use vstd::prelude::*;

use crate::settings::{BackendSettings, RelayMode};
use crate::text;

verus! {

/// Whether requests of the app go through the protocol proxy.
pub fn relay_protocol_proxy_enabled(settings: &BackendSettings) -> (r: bool)
    ensures
        r == settings.active_relay_uses_protocol_proxy,
{
    settings.active_relay_uses_protocol_proxy
}

/// What is done to the configuration.
#[derive(Debug)]
pub enum RelayPlan {
    /// It is left as it is.
    Leave,
    /// The relay is taken out of it, and the authentication put in, where there is one.
    Clear { auth_contents: Option<String>, computer_use_guard: bool },
    /// The active profile is put into it, with the common part.
    Apply { common_config: String, computer_use_guard: bool },
}

/// `RelayPlan`, over sequences of characters.
pub enum RelayChange {
    Leave,
    Clear { auth_contents: Option<Seq<char>>, computer_use_guard: bool },
    Apply { common_config: Seq<char>, computer_use_guard: bool },
}

impl View for RelayPlan {
    type V = RelayChange;

    open spec fn view(&self) -> RelayChange {
        match self {
            RelayPlan::Leave => RelayChange::Leave,
            RelayPlan::Clear { auth_contents, computer_use_guard } => RelayChange::Clear {
                auth_contents: auth_contents.deep_view(),
                computer_use_guard: *computer_use_guard,
            },
            RelayPlan::Apply { common_config, computer_use_guard } => RelayChange::Apply {
                common_config: common_config@,
                computer_use_guard: *computer_use_guard,
            },
        }
    }
}

/// The sections that are more than white space, without the white space around each, and with a
/// blank line between two.
pub open spec fn combined(first: Seq<char>, second: Seq<char>) -> Seq<char> {
    let a = text::trimmed(first);
    let b = text::trimmed(second);
    if a.len() == 0 {
        b
    } else if b.len() == 0 {
        a
    } else {
        a + "\n\n"@ + b
    }
}

/// The two sections as one.
pub fn combine_sections(first: &str, second: &str) -> (r: String)
    ensures
        r@ == combined(first@, second@),
        text::trimmed(first@).len() > 0 && text::trimmed(second@).len() > 0 ==> r@
            == text::trimmed(first@) + "\n\n"@ + text::trimmed(second@),
        text::trimmed(first@).len() == 0 ==> r@ == text::trimmed(second@),
        text::trimmed(second@).len() == 0 ==> r@ == text::trimmed(first@),
{
    let mut a: String = text::trim(first);
    let b: String = text::trim(second);
    if a.as_str().is_empty() {
        b
    } else if b.as_str().is_empty() {
        a
    } else {
        a.append("\n\n");
        a.append(b.as_str());
        a
    }
}

/// What the active relay profile asks of the configuration: nothing while profiles are off; an
/// official profile without a key of its own clears the relay, and any other is put in.
pub open spec fn relay_change(settings: BackendSettings) -> RelayChange {
    let profile = settings.active_relay_profile;
    let computer_use_guard = settings.computer_use_guard_enabled;
    if !settings.relay_profiles_enabled {
        RelayChange::Leave
    } else if profile.relay_mode == RelayMode::Official && !profile.official_mix_api_key {
        RelayChange::Clear {
            auth_contents: if text::trimmed(profile.auth_contents@).len() > 0 {
                Some(profile.auth_contents@)
            } else {
                None
            },
            computer_use_guard,
        }
    } else {
        RelayChange::Apply {
            common_config: combined(
                settings.relay_common_config_contents@,
                settings.relay_context_config_contents@,
            ),
            computer_use_guard,
        }
    }
}

/// What the active relay profile asks of the configuration.
pub fn plan_active_relay_profile(settings: &BackendSettings) -> (r: RelayPlan)
    ensures
        r@ == relay_change(*settings),
        r is Leave <==> !settings.relay_profiles_enabled,
        r is Clear <==> settings.relay_profiles_enabled
            && settings.active_relay_profile.relay_mode == RelayMode::Official
            && !settings.active_relay_profile.official_mix_api_key,
        r is Clear ==> r->Clear_computer_use_guard == settings.computer_use_guard_enabled,
        r is Apply ==> r->Apply_computer_use_guard == settings.computer_use_guard_enabled,
        r is Clear ==> (r->auth_contents is Some <==> text::trimmed(
            settings.active_relay_profile.auth_contents@,
        ).len() > 0),
        r is Clear && r->auth_contents is Some ==> r->auth_contents->0@
            == settings.active_relay_profile.auth_contents@,
        r is Apply ==> r->common_config@ == combined(
            settings.relay_common_config_contents@,
            settings.relay_context_config_contents@,
        ),
{
    if !settings.relay_profiles_enabled {
        return RelayPlan::Leave;
    }
    let computer_use_guard = settings.computer_use_guard_enabled;
    let profile = &settings.active_relay_profile;
    if profile.relay_mode == RelayMode::Official && !profile.official_mix_api_key {
        let trimmed: String = text::trim(profile.auth_contents.as_str());
        let auth_contents = if trimmed.as_str().is_empty() {
            None
        } else {
            Some(profile.auth_contents.clone())
        };
        RelayPlan::Clear { auth_contents, computer_use_guard }
    } else {
        RelayPlan::Apply {
            common_config: combine_sections(
                settings.relay_common_config_contents.as_str(),
                settings.relay_context_config_contents.as_str(),
            ),
            computer_use_guard,
        }
    }
}

} // verus!
