//! The rules for sharing results with a community service: sharing is off
//! unless the user opted in and configured an endpoint.

use vstd::prelude::*;

use crate::models::CommunitySettings;
use crate::text::{is_blank, is_blank_text, unicode_white_space};

verus! {

/// The endpoint is present and holds more than white space.
pub open spec fn endpoint_usable(endpoint: Option<String>) -> bool {
    match endpoint {
        Some(e) => !is_blank(e@),
        None => false,
    }
}

/// Sharing may happen: the user opted in and an endpoint is configured.
pub open spec fn sharing_allowed(settings: CommunitySettings) -> bool {
    settings.opt_in && endpoint_usable(settings.endpoint)
}

/// The settings with `enabled` recomputed from the opt-in and the endpoint.
pub open spec fn normalized(settings: CommunitySettings) -> CommunitySettings {
    CommunitySettings {
        opt_in: settings.opt_in,
        endpoint: settings.endpoint,
        enabled: sharing_allowed(settings),
    }
}

/// The refusal when the user did not opt in.
pub open spec fn not_enabled_message() -> Seq<char> {
    "Community sharing is not enabled."@
}

/// The refusal when no endpoint is configured.
pub open spec fn no_endpoint_message() -> Seq<char> {
    "No community endpoint configured. This release is API-ready only."@
}

fn endpoint_is_usable(endpoint: &Option<String>) -> (res: bool)
    ensures
        res == endpoint_usable(*endpoint),
{
    match endpoint {
        Some(e) => !is_blank_text(e.as_str()),
        None => false,
    }
}

/// The settings as they are stored: `enabled` is recomputed from the
/// opt-in and the endpoint, whatever it held before.
pub fn normalize_settings(settings: CommunitySettings) -> (res: CommunitySettings)
    ensures
        res == normalized(settings),
        res.opt_in == settings.opt_in,
        res.endpoint == settings.endpoint,
        res.enabled == (settings.opt_in && match settings.endpoint {
            Some(e) => exists|i: int| 0 <= i < e@.len() && !unicode_white_space(#[trigger] e@[i]),
            None => false,
        }),
{
    let mut settings = settings;
    let usable = endpoint_is_usable(&settings.endpoint);
    settings.enabled = settings.opt_in && usable;
    settings
}

/// Whether a payload may be prepared for upload, and if not, why.
pub fn check_sharing(settings: &CommunitySettings) -> (res: Result<(), String>)
    ensures
        res is Ok <==> sharing_allowed(*settings),
        res is Ok <==> (settings.opt_in && match settings.endpoint {
            Some(e) => exists|i: int| 0 <= i < e@.len() && !unicode_white_space(#[trigger] e@[i]),
            None => false,
        }),
        !settings.opt_in ==> (res matches Err(m) && m@ == not_enabled_message()),
        settings.opt_in && !endpoint_usable(settings.endpoint) ==> (res matches Err(m) && m@
            == no_endpoint_message()),
{
    if !settings.opt_in {
        proof {
            reveal_strlit("Community sharing is not enabled.");
        }
        return Err("Community sharing is not enabled.".to_owned());
    }
    if !endpoint_is_usable(&settings.endpoint) {
        proof {
            reveal_strlit("No community endpoint configured. This release is API-ready only.");
        }
        return Err("No community endpoint configured. This release is API-ready only.".to_owned());
    }
    Ok(())
}

/// Stored settings and the upload check agree: a payload may be prepared
/// exactly when the stored settings say sharing is enabled, and enabled
/// sharing always means the user opted in.
pub proof fn lemma_check_agrees_with_stored(settings: CommunitySettings)
    ensures
        normalized(settings).enabled == sharing_allowed(settings),
        sharing_allowed(normalized(settings)) == sharing_allowed(settings),
        normalized(settings).enabled ==> settings.opt_in,
{
}

/// Storing settings twice gives the same result as storing them once.
pub proof fn lemma_normalize_idempotent(settings: CommunitySettings)
    ensures
        normalized(normalized(settings)) == normalized(settings),
{
}

/// Sharing is off by default.
pub proof fn lemma_default_is_off(settings: CommunitySettings)
    requires
        !settings.opt_in,
        settings.endpoint is None,
    ensures
        !normalized(settings).enabled,
        !sharing_allowed(settings),
{
}

/// An endpoint made only of spaces, tabs or line breaks leaves sharing
/// disabled, opt-in or not; so does an empty one.
pub proof fn lemma_blank_endpoint_disables(settings: CommunitySettings)
    requires
        settings.endpoint matches Some(e) && forall|i: int|
            0 <= i < e@.len() ==> (#[trigger] e@[i] == ' ' || e@[i] == '\t' || e@[i] == '\n'
                || e@[i] == '\r'),
    ensures
        !normalized(settings).enabled,
        !sharing_allowed(settings),
{
    let e = settings.endpoint->0;
    assert forall|i: int| 0 <= i < e@.len() implies unicode_white_space(#[trigger] e@[i]) by {
        assert(e@[i] == ' ' || e@[i] == '\t' || e@[i] == '\n' || e@[i] == '\r');
    }
}

/// An endpoint that holds some character other than white space, with the
/// user opted in, enables sharing.
pub proof fn lemma_visible_endpoint_enables(settings: CommunitySettings, k: int)
    requires
        settings.opt_in,
        settings.endpoint matches Some(e) && 0 <= k < e@.len() && !unicode_white_space(e@[k]),
    ensures
        normalized(settings).enabled,
        sharing_allowed(settings),
{
}

/// Concrete cases: a string of blanks is blank, a web address is not.
pub proof fn lemma_blank_examples()
    ensures
        is_blank(" \t "@),
        is_blank(""@),
        !is_blank("https://example.test"@),
{
    reveal_strlit(" \t ");
    reveal_strlit("");
    reveal_strlit("https://example.test");
    assert(!unicode_white_space("https://example.test"@[0]));
}

/// Storing settings keeps the user's choices: the opt-in and the endpoint
/// come back exactly as given, and only `enabled` is recomputed. Sharing is
/// enabled exactly when the user opted in and the endpoint holds a character
/// other than white space.
pub proof fn lemma_normalize_keeps_choices(settings: CommunitySettings)
    ensures
        normalized(settings).opt_in == settings.opt_in,
        normalized(settings).endpoint == settings.endpoint,
        normalized(settings).enabled == (settings.opt_in && match settings.endpoint {
            Some(e) => exists|i: int| 0 <= i < e@.len() && !unicode_white_space(#[trigger] e@[i]),
            None => false,
        }),
        !settings.opt_in ==> !normalized(settings).enabled,
        settings.endpoint is None ==> !normalized(settings).enabled,
{
}

/// Two settings that differ only in `enabled` are stored the same way.
pub proof fn lemma_normalize_ignores_old_flag(a: CommunitySettings, b: CommunitySettings)
    requires
        a.opt_in == b.opt_in,
        a.endpoint == b.endpoint,
    ensures
        normalized(a) == normalized(b),
{
}

} // verus!
