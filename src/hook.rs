//! The keyboard hook adapter: what to do with each low-level keyboard event.

use crate::commands::{set_debounce_interval, set_keyfix_enabled, with_enabled, with_interval};
use crate::debounce::{
    interval_in_range, key_event_spec, now_millis, reset_key_state, saturating_inc_count,
    should_block_key_at, increment_blocked_count, DebounceSettings, KeyRecord,
    SettingsView,
};
use crate::store::KeyStore;
use vstd::math::min;
use vstd::prelude::*;

verus! {

/// The kind of message a keyboard event carries.
#[derive(Clone, Copy, Debug, PartialEq, Eq, Structural)]
pub enum KeyMessage {
    KeyDown,
    /// A key-down with a system modifier held.
    SysKeyDown,
    KeyUp,
    Other,
}

/// One event as the hook receives it.
#[derive(Clone, Copy, Debug, PartialEq, Eq, Structural)]
pub struct HookEvent {
    /// Whether the hook code says the event is to be acted on; other codes
    /// belong to the hook chain itself.
    pub is_action: bool,
    pub message: KeyMessage,
    pub vk_code: u16,
}

/// What the hook tells the system.
#[derive(Clone, Copy, Debug, PartialEq, Eq, Structural)]
pub enum HookResponse {
    /// Drop the event: no application sees it.
    Swallow,
    /// Hand the event to the next hook in the chain.
    Forward,
}

pub open spec fn is_key_down(m: KeyMessage) -> bool {
    m == KeyMessage::KeyDown || m == KeyMessage::SysKeyDown
}

/// The response to `event`, read at `now`, with the store and the settings after it.
pub open spec fn hook_spec(
    keys: Map<u16, KeyRecord>,
    settings: SettingsView,
    event: HookEvent,
    now: Option<u64>,
) -> (HookResponse, Map<u16, KeyRecord>, SettingsView) {
    if event.is_action && is_key_down(event.message) {
        let (blocked, next_keys) = key_event_spec(keys, settings.config, event.vk_code, now);
        if blocked {
            (
                HookResponse::Swallow,
                next_keys,
                SettingsView {
                    config: settings.config,
                    blocked_keypress_count: saturating_inc_count(settings.blocked_keypress_count),
                },
            )
        } else {
            (HookResponse::Forward, next_keys, settings)
        }
    } else {
        (HookResponse::Forward, keys, settings)
    }
}

/// Handles one keyboard event whose key-down, if it is one, was read at `now`.
pub fn handle_hook_event_at(
    keys: &mut KeyStore,
    settings: &mut DebounceSettings,
    event: HookEvent,
    now: Option<u64>,
) -> (r: HookResponse)
    ensures
        (r, final(keys)@, final(settings)@) == hook_spec(old(keys)@, old(settings)@, event, now),
{
    let key_down = match event.message {
        KeyMessage::KeyDown | KeyMessage::SysKeyDown => true,
        _ => false,
    };
    if !event.is_action || !key_down {
        return HookResponse::Forward;
    }
    let config = settings.config();
    if should_block_key_at(keys, config, event.vk_code, now) {
        increment_blocked_count(settings);
        HookResponse::Swallow
    } else {
        HookResponse::Forward
    }
}

/// Handles one keyboard event at the current time. Where the clock cannot be read
/// the event is forwarded.
pub fn handle_hook_event(keys: &mut KeyStore, settings: &mut DebounceSettings, event: HookEvent) -> (r:
    HookResponse)
    ensures
        exists|now: Option<u64>|
            (r, final(keys)@, final(settings)@) == #[trigger] hook_spec(
                old(keys)@,
                old(settings)@,
                event,
                now,
            ),
{
    let now = now_millis();
    handle_hook_event_at(keys, settings, event, now)
}

/// One thing that can happen to the debounce state: a keyboard event, or a
/// request of the configuration surface.
#[derive(Clone, Copy, Debug, PartialEq, Eq, Structural)]
pub enum Command {
    Event { event: HookEvent, now: Option<u64> },
    SetInterval { interval_ms: u64 },
    SetEnabled { enabled: bool },
    ResetKey { vk_code: u16 },
}

/// The store and settings after `command`, and how many events it swallowed.
pub open spec fn apply_spec(keys: Map<u16, KeyRecord>, settings: SettingsView, command: Command) -> (
    Map<u16, KeyRecord>,
    SettingsView,
    nat,
) {
    match command {
        Command::Event { event, now } => {
            let (r, next_keys, next_settings) = hook_spec(keys, settings, event, now);
            (next_keys, next_settings, if r == HookResponse::Swallow {
                1nat
            } else {
                0nat
            })
        },
        Command::SetInterval { interval_ms } => {
            if interval_in_range(interval_ms) {
                (keys, with_interval(settings, interval_ms), 0nat)
            } else {
                (keys, settings, 0nat)
            }
        },
        Command::SetEnabled { enabled } => (keys, with_enabled(settings, enabled), 0nat),
        Command::ResetKey { vk_code } => (keys.remove(vk_code), settings, 0nat),
    }
}

/// The store and settings after `commands` in order, and how many events they swallowed.
pub open spec fn run_spec(
    keys: Map<u16, KeyRecord>,
    settings: SettingsView,
    commands: Seq<Command>,
) -> (Map<u16, KeyRecord>, SettingsView, nat)
    decreases commands.len(),
{
    if commands.len() == 0 {
        (keys, settings, 0nat)
    } else {
        let (k, s, n) = run_spec(keys, settings, commands.drop_last());
        let (k2, s2, d) = apply_spec(k, s, commands.last());
        (k2, s2, n + d)
    }
}

/// Performs `command` on the store and the settings; returns whether it was a
/// keyboard event that got swallowed.
pub fn apply_command(keys: &mut KeyStore, settings: &mut DebounceSettings, command: Command) -> (r:
    bool)
    ensures
        (final(keys)@, final(settings)@, if r {
            1nat
        } else {
            0nat
        }) == apply_spec(old(keys)@, old(settings)@, command),
{
    match command {
        Command::Event { event, now } => {
            let response = handle_hook_event_at(keys, settings, event, now);
            match response {
                HookResponse::Swallow => true,
                HookResponse::Forward => false,
            }
        },
        Command::SetInterval { interval_ms } => {
            let _ = set_debounce_interval(settings, interval_ms);
            false
        },
        Command::SetEnabled { enabled } => {
            let _ = set_keyfix_enabled(settings, enabled);
            false
        },
        Command::ResetKey { vk_code } => {
            reset_key_state(keys, vk_code);
            false
        },
    }
}

/// Over any interleaving of keyboard events and configuration requests, the
/// blocked-event count grows by exactly the number of events swallowed, held at
/// `u64::MAX`; from a count of zero it equals that number while it stays below.
pub proof fn lemma_blocked_count_counts_swallowed(
    keys: Map<u16, KeyRecord>,
    settings: SettingsView,
    commands: Seq<Command>,
)
    ensures
        run_spec(keys, settings, commands).1.blocked_keypress_count == min(
            settings.blocked_keypress_count + run_spec(keys, settings, commands).2,
            u64::MAX as int,
        ),
        settings.blocked_keypress_count == 0 && run_spec(keys, settings, commands).2 < u64::MAX
            ==> run_spec(keys, settings, commands).1.blocked_keypress_count == run_spec(
            keys,
            settings,
            commands,
        ).2,
    decreases commands.len(),
{
    if commands.len() > 0 {
        lemma_blocked_count_counts_swallowed(keys, settings, commands.drop_last());
    }
}

/// Once the interval is in range, no sequence of keyboard events and configuration
/// requests takes it out of range.
pub proof fn lemma_interval_stays_in_range(
    keys: Map<u16, KeyRecord>,
    settings: SettingsView,
    commands: Seq<Command>,
)
    requires
        interval_in_range(settings.config.interval_ms),
    ensures
        interval_in_range(run_spec(keys, settings, commands).1.config.interval_ms),
    decreases commands.len(),
{
    if commands.len() > 0 {
        lemma_interval_stays_in_range(keys, settings, commands.drop_last());
    }
}

} // verus!
