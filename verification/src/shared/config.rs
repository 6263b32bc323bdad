use vstd::prelude::*;

use crate::shared::repositories::opt_string_view;
use crate::shared::text::{opt_view, parse_u64, parse_unsigned, str_eq};

verus! {

/// The configuration key of the interface language.
pub const LANGUAGE_KEY: &'static str = "language";

/// The configuration key of the pet window's visibility (`YesNo`; missing counts as yes).
pub const PET_VISIBLE_KEY: &'static str = "pet_visible";

/// The configuration key of the session summary pet's visibility (`YesNo`; missing counts as yes).
pub const PET_CLAUDE_SESSIONS_SUMMARY_VISIBLE_KEY: &'static str = "pet_claude_sessions_summary_visible";

/// The configuration key of whether the session summary pet can be dragged (`YesNo`; missing counts as no).
pub const PET_CLAUDE_SESSIONS_SUMMARY_DRAGGABLE_KEY: &'static str = "pet_claude_sessions_summary_draggable";

/// The configuration key of the split that iTerm2 opens a directory with.
pub const ITERM2_SPLIT_DIRECTION_KEY: &'static str = "iterm2_split_direction";

/// The split used when none is configured.
pub const DEFAULT_ITERM2_SPLIT_DIRECTION: &'static str = "horizontal";

/// The configuration key of the fallback polling period, in seconds.
pub const POLL_INTERVAL_SECS_KEY: &'static str = "poll_interval_secs";

/// The polling period used when none is configured.
pub const DEFAULT_POLL_INTERVAL_SECS: u64 = 60;

/// The shortest polling period accepted.
pub const MIN_POLL_INTERVAL_SECS: u64 = 5;

/// The longest polling period accepted.
pub const MAX_POLL_INTERVAL_SECS: u64 = 120;

/// What a changed configuration value asks of the running app.
#[derive(Clone, Copy, PartialEq, Eq, Debug, Structural)]
pub enum ConfigChangeAction {
    /// The language changed: the tray menu texts must be refreshed.
    RefreshMenuTexts,
    /// The polling period changed: it becomes this many seconds (clamped).
    SetPollInterval(u64),
    /// Nothing to do.
    Ignore,
}

/// What the change of `key` to `value` asks of the app.
pub open spec fn spec_config_change_action(key: Option<Seq<char>>, value: Option<Seq<char>>) -> ConfigChangeAction {
    if key == Some(LANGUAGE_KEY@) {
        ConfigChangeAction::RefreshMenuTexts
    } else if key == Some(POLL_INTERVAL_SECS_KEY@) {
        match value {
            Some(v) => match parse_unsigned(v, u64::MAX as nat) {
                Some(secs) => ConfigChangeAction::SetPollInterval(secs as u64),
                None => ConfigChangeAction::Ignore,
            },
            None => ConfigChangeAction::Ignore,
        }
    } else {
        ConfigChangeAction::Ignore
    }
}

/// Decides what a `config-changed` event with these key and value fields asks for.
pub fn config_change_action(key: Option<&str>, value: Option<&str>) -> (r: ConfigChangeAction)
    ensures
        r == spec_config_change_action(opt_view(key), opt_view(value)),
{
    match key {
        Some(k) => {
            if str_eq(k, LANGUAGE_KEY) {
                ConfigChangeAction::RefreshMenuTexts
            } else if str_eq(k, POLL_INTERVAL_SECS_KEY) {
                match value {
                    Some(v) => match parse_u64(v) {
                        Some(secs) => ConfigChangeAction::SetPollInterval(secs),
                        None => ConfigChangeAction::Ignore,
                    },
                    None => ConfigChangeAction::Ignore,
                }
            } else {
                ConfigChangeAction::Ignore
            }
        },
        None => ConfigChangeAction::Ignore,
    }
}

/// The string field `field` of the JSON object that `payload` holds, as `serde_json`
/// reads it: none when the text is not JSON, not an object, has no such field, or the
/// field is not a string.
pub uninterp spec fn json_string_field(payload: Seq<char>, field: Seq<char>) -> Option<Seq<char>>;

/// `serde_json::from_str::<serde_json::Value>`, then `Value::get` and `Value::as_str`:
/// the string field `field` of the JSON object in `payload`. The contract only names
/// the result, a function of the two arguments alone.
#[verifier::external_body]
pub(crate) fn json_string_field_of(payload: &str, field: &str) -> (r: Option<String>)
    ensures
        opt_string_view(r) == json_string_field(payload@, field@),
{
    let value = match serde_json::from_str::<serde_json::Value>(payload) {
        Ok(v) => v,
        Err(_) => return None,
    };
    match value.get(field) {
        Some(f) => match f.as_str() {
            Some(s) => Some(s.to_string()),
            None => None,
        },
        None => None,
    }
}

/// Decides what the raw JSON payload of a `config-changed` event asks for, from its
/// `key` and `value` string fields.
pub fn config_change_for_payload(payload: &str) -> (r: ConfigChangeAction)
    ensures
        r == spec_config_change_action(
            json_string_field(payload@, "key"@),
            json_string_field(payload@, "value"@),
        ),
{
    let key = json_string_field_of(payload, "key");
    let value = json_string_field_of(payload, "value");
    let k: Option<&str> = match &key {
        Some(s) => Some(s.as_str()),
        None => None,
    };
    let v: Option<&str> = match &value {
        Some(s) => Some(s.as_str()),
        None => None,
    };
    assert(opt_view(k) == opt_string_view(key));
    assert(opt_view(v) == opt_string_view(value));
    config_change_action(k, v)
}

} // verus!
