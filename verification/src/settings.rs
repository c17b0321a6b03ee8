//! The settings that a launch reads.
use vstd::prelude::*;

use crate::text;

verus! {

/// Where the requests of the active relay profile go.
#[derive(Debug, Clone, Copy, PartialEq, Eq, Structural)]
pub enum RelayMode {
    Official,
    Other,
}

/// What a launch reads of the active relay profile.
#[derive(Debug, Clone)]
pub struct RelayProfile {
    pub relay_mode: RelayMode,
    pub official_mix_api_key: bool,
    pub auth_contents: String,
}

/// What a launch reads of the user's settings.
#[derive(Debug, Clone)]
pub struct BackendSettings {
    pub codex_app_path: String,
    pub codex_extra_args: Vec<String>,
    pub provider_sync_enabled: bool,
    pub enhancements_enabled: bool,
    pub computer_use_guard_enabled: bool,
    pub active_relay_uses_protocol_proxy: bool,
    pub relay_profiles_enabled: bool,
    pub active_relay_profile: RelayProfile,
    pub relay_common_config_contents: String,
    pub relay_context_config_contents: String,
    pub codex_app_plugin_marketplace_unlock: bool,
    pub codex_app_native_menu_localization: bool,
    pub codex_app_fast_startup: bool,
    pub codex_app_image_overlay_enabled: bool,
    pub codex_app_image_overlay_path: String,
}

/// Arguments without the white space around each, and without those that are nothing else.
pub open spec fn normalized(args: Seq<Seq<char>>) -> Seq<Seq<char>>
    decreases args.len(),
{
    if args.len() == 0 {
        seq![]
    } else {
        let rest = normalized(args.drop_last());
        let last = text::trimmed(args.last());
        if last.len() > 0 {
            rest.push(last)
        } else {
            rest
        }
    }
}

/// The arguments without the white space around each, and without those that are nothing else.
pub fn normalize_codex_extra_args(args: &[String]) -> (r: Vec<String>)
    ensures
        r.deep_view() == normalized(args.deep_view()),
{
    let mut r: Vec<String> = Vec::new();
    let ghost texts = args.deep_view();
    assert(texts.take(0) =~= seq![]);
    assert(r.deep_view() =~= seq![]);
    for i in 0..args.len()
        invariant
            texts == args.deep_view(),
            r.deep_view() == normalized(texts.take(i as int)),
    {
        let ghost before = r.deep_view();
        let arg: String = text::trim(args[i].as_str());
        proof {
            assert(texts.take(i + 1).drop_last() =~= texts.take(i as int));
            assert(texts.take(i + 1).last() == args@[i as int]@);
        }
        if !arg.as_str().is_empty() {
            r.push(arg);
            assert(r.deep_view() =~= before.push(arg@));
        }
    }
    assert(texts.take(args@.len() as int) =~= texts);
    r
}

/// Each normalized argument is a trimmed text that is not empty.
pub proof fn normalized_args_are_trimmed(args: Seq<Seq<char>>, k: int)
    requires
        0 <= k < normalized(args).len(),
    ensures
        normalized(args)[k].len() > 0,
        text::trimmed(normalized(args)[k]) == normalized(args)[k],
    decreases args.len(),
{
    if args.len() > 0 {
        let rest = normalized(args.drop_last());
        if k < rest.len() {
            normalized_args_are_trimmed(args.drop_last(), k);
        } else {
            text::trim_is_idempotent(args.last());
        }
    }
}

/// Arguments that are trimmed and not empty are left as they are.
pub proof fn lemma_trimmed_args_stay(args: Seq<Seq<char>>)
    requires
        forall|k: int|
            0 <= k < args.len() ==> (#[trigger] args[k]).len() > 0 && text::trimmed(args[k])
                == args[k],
    ensures
        normalized(args) == args,
    decreases args.len(),
{
    if args.len() > 0 {
        assert forall|k: int| 0 <= k < args.drop_last().len() implies (
        #[trigger] args.drop_last()[k]).len() > 0 && text::trimmed(args.drop_last()[k])
            == args.drop_last()[k] by {
            assert(args.drop_last()[k] == args[k]);
        }
        lemma_trimmed_args_stay(args.drop_last());
        assert(args.last() == args[args.len() - 1]);
        assert(args.drop_last().push(args.last()) =~= args);
    } else {
        assert(normalized(args) =~= args);
    }
}

/// Normalizing normalized arguments changes nothing.
pub proof fn normalizing_is_idempotent(args: Seq<Seq<char>>)
    ensures
        normalized(normalized(args)) == normalized(args),
{
    let once = normalized(args);
    assert forall|k: int| 0 <= k < once.len() implies (#[trigger] once[k]).len() > 0
        && text::trimmed(once[k]) == once[k] by {
        normalized_args_are_trimmed(args, k);
    }
    lemma_trimmed_args_stay(once);
}

/// Normalizing two runs of arguments behind one another normalizes each.
pub proof fn normalizing_distributes(a: Seq<Seq<char>>, b: Seq<Seq<char>>)
    ensures
        normalized(a + b) == normalized(a) + normalized(b),
    decreases b.len(),
{
    if b.len() == 0 {
        assert(a + b =~= a);
        assert(normalized(a) + normalized(b) =~= normalized(a));
    } else {
        normalizing_distributes(a, b.drop_last());
        assert((a + b).drop_last() =~= a + b.drop_last());
        assert((a + b).last() == b.last());
        let last = text::trimmed(b.last());
        if last.len() > 0 {
            assert((normalized(a) + normalized(b.drop_last())).push(last) =~= normalized(a)
                + normalized(b));
        }
    }
}

} // verus!
