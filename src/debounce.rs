//! The debounce decision engine.

use crate::store::KeyStore;
use vstd::prelude::*;

verus! {

/// Number of consecutive too-fast presses of one key that are still let through.
pub const FAST_PRESS_THRESHOLD: u8 = 4;


/// What the engine remembers of one key.
#[derive(Clone, Copy, Debug, PartialEq, Eq, Structural)]
pub struct KeyRecord {
    /// Time in milliseconds of the latest key-down seen for this key.
    pub last_event_time: u64,
    /// Consecutive key-downs that came within the interval, held at one past
    /// the threshold.
    pub fast_repeat_count: u8,
}

/// The outcome for one key-down.
#[derive(Clone, Copy, Debug, PartialEq, Eq, Structural)]
pub enum Verdict {
    Allow,
    Block,
}

/// The settings one decision reads.
#[derive(Clone, Copy, Debug, PartialEq, Eq, Structural)]
pub struct DebounceConfig {
    pub enabled: bool,
    pub interval_ms: u64,
}

/// Largest value the fast-press count takes: one past the threshold.
pub const MAX_FAST_REPEAT_COUNT: u8 = FAST_PRESS_THRESHOLD + 1;

/// `c + 1`, held at one past the threshold.
pub open spec fn next_fast_count(c: u8) -> u8 {
    if c >= MAX_FAST_REPEAT_COUNT {
        MAX_FAST_REPEAT_COUNT
    } else {
        (c + 1) as u8
    }
}

/// An event at `now` follows the one at `last` within `interval` milliseconds.
/// A clock that went backwards counts as a slow press.
pub open spec fn is_fast(last: u64, now: u64, interval: u64) -> bool {
    last <= now && now - last < interval
}

/// The verdict for a key-down at `now` and the record that replaces `record`.
pub open spec fn decide_spec(config: DebounceConfig, now: u64, record: Option<KeyRecord>) -> (
    Verdict,
    KeyRecord,
) {
    if !config.enabled {
        let count = match record {
            Some(r) => r.fast_repeat_count,
            None => 0,
        };
        (Verdict::Allow, KeyRecord { last_event_time: now, fast_repeat_count: count })
    } else {
        match record {
            Some(r) if is_fast(r.last_event_time, now, config.interval_ms) => {
                let count = next_fast_count(r.fast_repeat_count);
                let verdict = if count <= FAST_PRESS_THRESHOLD {
                    Verdict::Allow
                } else {
                    Verdict::Block
                };
                (verdict, KeyRecord { last_event_time: now, fast_repeat_count: count })
            },
            _ => (Verdict::Allow, KeyRecord { last_event_time: now, fast_repeat_count: 0 }),
        }
    }
}

/// Classifies a key-down at `now` given the key's record, if any.
pub fn decide(config: DebounceConfig, now: u64, record: Option<KeyRecord>) -> (r: (
    Verdict,
    KeyRecord,
))
    ensures
        r == decide_spec(config, now, record),
        config.enabled ==> r.1.fast_repeat_count <= MAX_FAST_REPEAT_COUNT,
        (match record {
            Some(rec) => rec.fast_repeat_count <= MAX_FAST_REPEAT_COUNT,
            None => true,
        }) ==> r.1.fast_repeat_count <= MAX_FAST_REPEAT_COUNT,
{
    if !config.enabled {
        let count = match record {
            Some(r) => r.fast_repeat_count,
            None => 0,
        };
        return (Verdict::Allow, KeyRecord { last_event_time: now, fast_repeat_count: count });
    }
    match record {
        Some(r) if r.last_event_time <= now && now - r.last_event_time < config.interval_ms => {
            let count = if r.fast_repeat_count >= MAX_FAST_REPEAT_COUNT {
                MAX_FAST_REPEAT_COUNT
            } else {
                r.fast_repeat_count + 1
            };
            let verdict = if count <= FAST_PRESS_THRESHOLD {
                Verdict::Allow
            } else {
                Verdict::Block
            };
            (verdict, KeyRecord { last_event_time: now, fast_repeat_count: count })
        },
        _ => (Verdict::Allow, KeyRecord { last_event_time: now, fast_repeat_count: 0 }),
    }
}

/// Interval used until one is configured, in milliseconds.
pub const DEFAULT_DEBOUNCE_INTERVAL_MS: u64 = 50;

/// Smallest interval that the settings accept, in milliseconds.
pub const MIN_DEBOUNCE_INTERVAL_MS: u64 = 5;

/// Largest interval that the settings accept, in milliseconds.
pub const MAX_DEBOUNCE_INTERVAL_MS: u64 = 1000;

pub open spec fn interval_in_range(interval_ms: u64) -> bool {
    MIN_DEBOUNCE_INTERVAL_MS <= interval_ms <= MAX_DEBOUNCE_INTERVAL_MS
}

/// What the settings hold.
pub struct SettingsView {
    pub config: DebounceConfig,
    pub blocked_keypress_count: u64,
}

/// The process-wide settings and the count of blocked key-downs. The interval
/// never leaves its accepted range.
pub struct DebounceSettings {
    config: DebounceConfig,
    blocked_keypress_count: u64,
}

impl View for DebounceSettings {
    type V = SettingsView;

    closed spec fn view(&self) -> SettingsView {
        SettingsView { config: self.config, blocked_keypress_count: self.blocked_keypress_count }
    }
}

impl DebounceSettings {
    #[verifier::type_invariant]
    closed spec fn interval_ok(&self) -> bool {
        interval_in_range(self.config.interval_ms)
    }

    /// Enabled, with the default interval and nothing blocked yet.
    pub fn new() -> (s: DebounceSettings)
        ensures
            s@.config == (DebounceConfig { enabled: true, interval_ms: DEFAULT_DEBOUNCE_INTERVAL_MS }),
            s@.blocked_keypress_count == 0,
    {
        DebounceSettings {
            config: DebounceConfig { enabled: true, interval_ms: DEFAULT_DEBOUNCE_INTERVAL_MS },
            blocked_keypress_count: 0,
        }
    }

    /// The configuration as it stands.
    pub fn config(&self) -> (r: DebounceConfig)
        ensures
            r == self@.config,
            interval_in_range(r.interval_ms),
    {
        proof {
            use_type_invariant(self);
        }
        self.config
    }

    /// The number of key-downs counted as blocked.
    pub(crate) fn blocked_count(&self) -> (r: u64)
        ensures
            r == self@.blocked_keypress_count,
    {
        self.blocked_keypress_count
    }

    /// Sets the interval; the caller has checked its range.
    pub(crate) fn put_interval(&mut self, interval_ms: u64)
        requires
            interval_in_range(interval_ms),
        ensures
            final(self)@.config.interval_ms == interval_ms,
            final(self)@.config.enabled == old(self)@.config.enabled,
            final(self)@.blocked_keypress_count == old(self)@.blocked_keypress_count,
    {
        self.config.interval_ms = interval_ms;
    }

    /// Turns the filter on or off.
    pub(crate) fn put_enabled(&mut self, enabled: bool)
        ensures
            final(self)@.config.enabled == enabled,
            final(self)@.config.interval_ms == old(self)@.config.interval_ms,
            final(self)@.blocked_keypress_count == old(self)@.blocked_keypress_count,
    {
        proof {
            use_type_invariant(&*self);
        }
        self.config.enabled = enabled;
    }
}

/// `c + 1`, held at `u64::MAX`.
pub open spec fn saturating_inc_count(c: u64) -> u64 {
    if c == u64::MAX {
        c
    } else {
        (c + 1) as u64
    }
}

/// Counts one more blocked key-down.
pub fn increment_blocked_count(settings: &mut DebounceSettings)
    ensures
        final(settings)@.blocked_keypress_count == saturating_inc_count(
            old(settings)@.blocked_keypress_count,
        ),
        final(settings)@.config == old(settings)@.config,
{
    proof {
        use_type_invariant(&*settings);
    }
    settings.blocked_keypress_count = settings.blocked_keypress_count.saturating_add(1);
}

/// The record a store holds for `vk_code`, if any.
pub open spec fn record_in(keys: Map<u16, KeyRecord>, vk_code: u16) -> Option<KeyRecord> {
    if keys.contains_key(vk_code) {
        Some(keys[vk_code])
    } else {
        None
    }
}

/// Whether a key-down of `vk_code` read at `now` is blocked, and the store after it.
/// Without a clock reading the event passes and nothing is recorded.
pub open spec fn key_event_spec(
    keys: Map<u16, KeyRecord>,
    config: DebounceConfig,
    vk_code: u16,
    now: Option<u64>,
) -> (bool, Map<u16, KeyRecord>) {
    match now {
        None => (false, keys),
        Some(t) => {
            let (verdict, next) = decide_spec(config, t, record_in(keys, vk_code));
            (verdict == Verdict::Block, keys.insert(vk_code, next))
        },
    }
}

/// Relies on `SystemTime::now` and `duration_since(UNIX_EPOCH)`: milliseconds since
/// the epoch, or `None` where the clock stands before it.
#[verifier::external_body]
pub(crate) fn now_millis() -> (r: Option<u64>) {
    match std::time::SystemTime::now().duration_since(std::time::UNIX_EPOCH) {
        Ok(d) => Some(d.as_millis() as u64),
        Err(_) => None,
    }
}

/// Records `now` as the latest event of `vk_code`, keeping its fast-press count.
pub fn record_event_time(keys: &mut KeyStore, vk_code: u16, now: u64)
    ensures
        final(keys)@ == old(keys)@.insert(
            vk_code,
            KeyRecord {
                last_event_time: now,
                fast_repeat_count: match record_in(old(keys)@, vk_code) {
                    Some(r) => r.fast_repeat_count,
                    None => 0,
                },
            },
        ),
{
    let count = match keys.get(vk_code) {
        Some(r) => r.fast_repeat_count,
        None => 0,
    };
    keys.upsert(vk_code, KeyRecord { last_event_time: now, fast_repeat_count: count });
}

/// Decides a key-down of `vk_code` read at `now` and stores the key's new record.
/// Returns whether the event is to be blocked.
pub fn should_block_key_at(
    keys: &mut KeyStore,
    config: DebounceConfig,
    vk_code: u16,
    now: Option<u64>,
) -> (r: bool)
    ensures
        (r, final(keys)@) == key_event_spec(old(keys)@, config, vk_code, now),
{
    let t = match now {
        Some(t) => t,
        None => return false,
    };
    if !config.enabled {
        record_event_time(keys, vk_code, t);
        return false;
    }
    let (verdict, next) = decide(config, t, keys.get(vk_code));
    keys.upsert(vk_code, next);
    match verdict {
        Verdict::Block => true,
        Verdict::Allow => false,
    }
}

/// Decides a key-down of `vk_code` at the current time. Where the clock cannot be
/// read the event passes and nothing is recorded.
pub fn should_block_key(keys: &mut KeyStore, config: DebounceConfig, vk_code: u16) -> (r: bool)
    ensures
        exists|now: Option<u64>|
            (r, final(keys)@) == #[trigger] key_event_spec(old(keys)@, config, vk_code, now),
{
    let now = now_millis();
    should_block_key_at(keys, config, vk_code, now)
}

/// Forgets all history of `vk_code`.
pub fn reset_key_state(keys: &mut KeyStore, vk_code: u16)
    ensures
        final(keys)@ == old(keys)@.remove(vk_code),
{
    keys.remove(vk_code);
}

/// The verdicts for key-downs of one key at `times`, in order, starting from
/// `record`, and the key's record after the last of them.
pub open spec fn key_run(config: DebounceConfig, record: Option<KeyRecord>, times: Seq<u64>) -> (
    Seq<Verdict>,
    Option<KeyRecord>,
)
    decreases times.len(),
{
    if times.len() == 0 {
        (Seq::empty(), record)
    } else {
        let (verdicts, rec) = key_run(config, record, times.drop_last());
        let (v, next) = decide_spec(config, times.last(), rec);
        (verdicts.push(v), Some(next))
    }
}

/// The first key-down of a key that has no record passes, whatever the settings.
pub proof fn lemma_first_event_allowed(
    keys: Map<u16, KeyRecord>,
    config: DebounceConfig,
    vk_code: u16,
    now: Option<u64>,
)
    requires
        !keys.contains_key(vk_code),
    ensures
        !key_event_spec(keys, config, vk_code, now).0,
{
}

/// With the filter on, a key-down that comes `interval_ms` or more after the
/// previous one of its key passes and clears the fast-press count; the previous
/// one passed too where it was itself the key's first, or came late enough.
pub proof fn lemma_spaced_events_allowed(
    config: DebounceConfig,
    record: Option<KeyRecord>,
    t1: u64,
    t2: u64,
)
    requires
        config.enabled,
        t1 + config.interval_ms <= t2,
    ensures
        ({
            let (v1, r1) = decide_spec(config, t1, record);
            let (v2, r2) = decide_spec(config, t2, Some(r1));
            &&& v2 == Verdict::Allow
            &&& r2.fast_repeat_count == 0
            &&& (match record {
                None => true,
                Some(r) => !is_fast(r.last_event_time, t1, config.interval_ms),
            }) ==> v1 == Verdict::Allow
        }),
{
}

/// The fast-press count after the `i`-th key-down of a burst (counting from 0).
pub open spec fn burst_count(i: int) -> u8 {
    if i < MAX_FAST_REPEAT_COUNT {
        i as u8
    } else {
        MAX_FAST_REPEAT_COUNT
    }
}

/// A burst of key-downs of one fresh key, each half an interval after the one
/// before: the first five pass and every later one is blocked. A key-down that
/// then comes an interval or more after the last passes and clears the count.
pub proof fn lemma_burst(config: DebounceConfig, times: Seq<u64>)
    requires
        config.enabled,
        config.interval_ms >= 1,
        times.len() >= 1,
        forall|i: int|
            0 <= i < times.len() - 1 ==> #[trigger] times[i + 1] == times[i] + config.interval_ms
                / 2,
    ensures
        key_run(config, None, times).0.len() == times.len(),
        forall|i: int|
            0 <= i < times.len() ==> #[trigger] key_run(config, None, times).0[i] == (if i <= 4 {
                Verdict::Allow
            } else {
                Verdict::Block
            }),
        forall|t: u64|
            t >= times.last() + config.interval_ms ==> #[trigger] decide_spec(
                config,
                t,
                key_run(config, None, times).1,
            ) == (Verdict::Allow, KeyRecord { last_event_time: t, fast_repeat_count: 0 }),
{
    lemma_burst_records(config, times);
}

proof fn lemma_burst_records(config: DebounceConfig, times: Seq<u64>)
    requires
        config.enabled,
        config.interval_ms >= 1,
        times.len() >= 1,
        forall|i: int|
            0 <= i < times.len() - 1 ==> #[trigger] times[i + 1] == times[i] + config.interval_ms
                / 2,
    ensures
        key_run(config, None, times).0.len() == times.len(),
        key_run(config, None, times).1 == Some(
            KeyRecord {
                last_event_time: times.last(),
                fast_repeat_count: burst_count(times.len() - 1),
            },
        ),
        forall|i: int|
            0 <= i < times.len() ==> #[trigger] key_run(config, None, times).0[i] == (if i <= 4 {
                Verdict::Allow
            } else {
                Verdict::Block
            }),
    decreases times.len(),
{
    let prefix = times.drop_last();
    if times.len() == 1 {
        assert(prefix.len() == 0);
        assert(key_run(config, None, prefix) == (Seq::<Verdict>::empty(), None::<KeyRecord>));
    } else {
        assert forall|i: int| 0 <= i < prefix.len() - 1 implies #[trigger] prefix[i + 1] == prefix[i]
            + config.interval_ms / 2 by {
            assert(times[i + 1] == times[i] + config.interval_ms / 2);
        }
        lemma_burst_records(config, prefix);
        let n = times.len() - 1;
        assert(times[n] == times[n - 1] + config.interval_ms / 2);
        assert(prefix.last() == times[n - 1]);
    }
}

/// A key's fast-press count never exceeds one past the threshold, whatever the
/// times of its key-downs and whether the filter is on, once it starts there.
pub proof fn lemma_fast_count_bounded(
    config: DebounceConfig,
    record: Option<KeyRecord>,
    times: Seq<u64>,
)
    requires
        match record {
            Some(r) => r.fast_repeat_count <= MAX_FAST_REPEAT_COUNT,
            None => true,
        },
    ensures
        match key_run(config, record, times).1 {
            Some(r) => r.fast_repeat_count <= MAX_FAST_REPEAT_COUNT,
            None => true,
        },
    decreases times.len(),
{
    if times.len() > 0 {
        lemma_fast_count_bounded(config, record, times.drop_last());
    }
}

/// With the filter off every key-down passes, and the key's latest event time
/// still follows each one while its fast-press count stays as it was.
pub proof fn lemma_disabled_allows_all(
    config: DebounceConfig,
    record: Option<KeyRecord>,
    times: Seq<u64>,
)
    requires
        !config.enabled,
    ensures
        key_run(config, record, times).0.len() == times.len(),
        forall|i: int| 0 <= i < times.len() ==> #[trigger] key_run(config, record, times).0[i]
            == Verdict::Allow,
        times.len() > 0 ==> key_run(config, record, times).1 == Some(
            KeyRecord {
                last_event_time: times.last(),
                fast_repeat_count: match record {
                    Some(r) => r.fast_repeat_count,
                    None => 0,
                },
            },
        ),
    decreases times.len(),
{
    if times.len() > 0 {
        lemma_disabled_allows_all(config, record, times.drop_last());
    }
}

} // verus!
