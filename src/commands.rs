//! The configuration surface: validated writes of the settings and the
//! blocked-event count.

use crate::debounce::{
    interval_in_range, DebounceConfig, DebounceSettings, SettingsView, MAX_DEBOUNCE_INTERVAL_MS,
    MIN_DEBOUNCE_INTERVAL_MS,
};
use vstd::prelude::*;

verus! {

/// `s` with its interval replaced by `interval_ms`.
pub open spec fn with_interval(s: SettingsView, interval_ms: u64) -> SettingsView {
    SettingsView {
        config: DebounceConfig { enabled: s.config.enabled, interval_ms },
        blocked_keypress_count: s.blocked_keypress_count,
    }
}

/// `s` with the filter turned on or off.
pub open spec fn with_enabled(s: SettingsView, enabled: bool) -> SettingsView {
    SettingsView {
        config: DebounceConfig { enabled, interval_ms: s.config.interval_ms },
        blocked_keypress_count: s.blocked_keypress_count,
    }
}

/// Sets the debounce interval. An interval outside `[5, 1000]` milliseconds is
/// refused with a message and leaves the settings as they were.
pub fn set_debounce_interval(settings: &mut DebounceSettings, interval_ms: u64) -> (r: Result<
    (),
    String,
>)
    ensures
        r.is_ok() <==> interval_in_range(interval_ms),
        r.is_ok() ==> final(settings)@ == with_interval(old(settings)@, interval_ms),
        r.is_err() ==> final(settings)@ == old(settings)@,
        r.is_err() ==> r->Err_0@ == "Interval must be between 5 and 1000 milliseconds."@,
{
    if interval_ms < MIN_DEBOUNCE_INTERVAL_MS || interval_ms > MAX_DEBOUNCE_INTERVAL_MS {
        let msg = "Interval must be between 5 and 1000 milliseconds.".to_owned();
        return Err(msg);
    }
    settings.put_interval(interval_ms);
    Ok(())
}

/// Turns the debounce filter on or off; always succeeds.
pub fn set_keyfix_enabled(settings: &mut DebounceSettings, enabled: bool) -> (r: Result<
    (),
    String,
>)
    ensures
        r.is_ok(),
        final(settings)@ == with_enabled(old(settings)@, enabled),
{
    settings.put_enabled(enabled);
    Ok(())
}

/// The number of key-downs blocked so far.
pub fn get_blocked_keypress_count(settings: &DebounceSettings) -> (r: u64)
    ensures
        r == settings@.blocked_keypress_count,
{
    settings.blocked_count()
}

} // verus!
