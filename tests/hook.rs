use keyfix::commands::{get_blocked_keypress_count, set_debounce_interval, set_keyfix_enabled};
use keyfix::debounce::DebounceSettings;
use keyfix::hook::{
    apply_command, handle_hook_event, handle_hook_event_at, Command, HookEvent, HookResponse,
    KeyMessage,
};
use keyfix::lifecycle::{
    lifecycle_step, HookPhase, LoopAction, LoopEvent, PolledMessage, IDLE_SLEEP_MS,
};
use keyfix::state::HookThreadState;
use keyfix::store::KeyStore;
use std::sync::atomic::Ordering;

fn down(vk_code: u16) -> HookEvent {
    HookEvent { is_action: true, message: KeyMessage::KeyDown, vk_code }
}

#[test]
fn non_action_code_is_forwarded_untouched() {
    let mut keys = KeyStore::new();
    let mut s = DebounceSettings::new();
    let ev = HookEvent { is_action: false, message: KeyMessage::KeyDown, vk_code: 1 };
    for t in 0..10u64 {
        assert_eq!(handle_hook_event_at(&mut keys, &mut s, ev, Some(t)), HookResponse::Forward);
    }
    assert_eq!(keys.get(1), None);
}

#[test]
fn key_up_and_other_are_forwarded() {
    let mut keys = KeyStore::new();
    let mut s = DebounceSettings::new();
    for m in [KeyMessage::KeyUp, KeyMessage::Other] {
        let ev = HookEvent { is_action: true, message: m, vk_code: 2 };
        for t in 0..10u64 {
            assert_eq!(handle_hook_event_at(&mut keys, &mut s, ev, Some(t)), HookResponse::Forward);
        }
    }
    assert_eq!(keys.get(2), None);
}

#[test]
fn chatter_is_swallowed_and_counted() {
    let mut keys = KeyStore::new();
    let mut s = DebounceSettings::new();
    let mut swallowed = 0u64;
    let mut t = 10_000u64;
    for i in 0..12u16 {
        let ev = if i % 2 == 0 {
            down(0x41)
        } else {
            HookEvent { is_action: true, message: KeyMessage::SysKeyDown, vk_code: 0x41 }
        };
        if handle_hook_event_at(&mut keys, &mut s, ev, Some(t)) == HookResponse::Swallow {
            swallowed += 1;
        }
        handle_hook_event_at(&mut keys, &mut s, down(0x42), Some(t + 1000 * i as u64));
        t += 5;
    }
    assert_eq!(swallowed, 7);
    assert_eq!(get_blocked_keypress_count(&s), 7);
}

#[test]
fn blocked_count_matches_blocks_across_config_changes() {
    let mut keys = KeyStore::new();
    let mut s = DebounceSettings::new();
    let mut swallowed = 0u64;
    let mut t = 0u64;
    for round in 0..30u64 {
        match round % 10 {
            3 => assert!(set_debounce_interval(&mut s, 5 + round * 20).is_ok()),
            6 => assert!(set_keyfix_enabled(&mut s, round % 20 != 6).is_ok()),
            8 => assert!(set_debounce_interval(&mut s, 2000).is_err()),
            _ => {}
        }
        for vk in [1u16, 2, 3] {
            if handle_hook_event_at(&mut keys, &mut s, down(vk), Some(t)) == HookResponse::Swallow {
                swallowed += 1;
            }
        }
        t += 2;
        let i = s.config().interval_ms;
        assert!((5..=1000).contains(&i));
    }
    assert!(swallowed > 0);
    assert_eq!(get_blocked_keypress_count(&s), swallowed);
}

#[test]
fn disabled_filter_forwards_everything() {
    let mut keys = KeyStore::new();
    let mut s = DebounceSettings::new();
    set_keyfix_enabled(&mut s, false).unwrap();
    for t in 0..20u64 {
        assert_eq!(handle_hook_event_at(&mut keys, &mut s, down(4), Some(t)), HookResponse::Forward);
    }
    assert_eq!(get_blocked_keypress_count(&s), 0);
    assert_eq!(keys.get(4).unwrap().last_event_time, 19);
}

#[test]
fn clock_failure_forwards() {
    let mut keys = KeyStore::new();
    let mut s = DebounceSettings::new();
    assert_eq!(handle_hook_event_at(&mut keys, &mut s, down(5), None), HookResponse::Forward);
    assert_eq!(keys.get(5), None);
}

#[test]
fn handle_hook_event_uses_clock() {
    let mut keys = KeyStore::new();
    let mut s = DebounceSettings::new();
    assert_eq!(handle_hook_event(&mut keys, &mut s, down(6)), HookResponse::Forward);
    assert!(keys.get(6).unwrap().last_event_time > 1_500_000_000_000);
}

#[test]
fn lifecycle_install_failure_exits() {
    let (p, a) = lifecycle_step(HookPhase::Uninstalled, LoopEvent::Begin);
    assert_eq!((p, a), (HookPhase::Uninstalled, LoopAction::InstallHook));
    let (p, a) = lifecycle_step(p, LoopEvent::InstallFailed);
    assert_eq!(p, HookPhase::Finished { installed: false });
    assert_eq!(a, LoopAction::Exit { installed: false });
}

#[test]
fn lifecycle_full_run() {
    let steps = [
        (LoopEvent::Begin, HookPhase::Uninstalled, LoopAction::InstallHook),
        (LoopEvent::InstallSucceeded, HookPhase::Installed, LoopAction::PublishHandle),
        (LoopEvent::HandlePublished, HookPhase::Running, LoopAction::CheckRunning),
        (LoopEvent::RunFlag { running: true }, HookPhase::Running, LoopAction::PollMessage),
        (
            LoopEvent::Polled { message: PolledMessage::Nothing },
            HookPhase::Running,
            LoopAction::Sleep { millis: IDLE_SLEEP_MS },
        ),
        (LoopEvent::Slept, HookPhase::Running, LoopAction::CheckRunning),
        (LoopEvent::RunFlag { running: true }, HookPhase::Running, LoopAction::PollMessage),
        (
            LoopEvent::Polled { message: PolledMessage::Other },
            HookPhase::Running,
            LoopAction::DispatchMessage,
        ),
        (LoopEvent::Dispatched, HookPhase::Running, LoopAction::CheckRunning),
        (LoopEvent::RunFlag { running: false }, HookPhase::ShuttingDown, LoopAction::RemoveHook),
        (LoopEvent::Unhooked, HookPhase::ShuttingDown, LoopAction::ClearHandle),
        (
            LoopEvent::HandleCleared,
            HookPhase::Finished { installed: true },
            LoopAction::Exit { installed: true },
        ),
    ];
    let mut phase = HookPhase::Uninstalled;
    for (event, want_phase, want_action) in steps {
        let (p, a) = lifecycle_step(phase, event);
        assert_eq!((p, a), (want_phase, want_action));
        phase = p;
    }
    assert_eq!(IDLE_SLEEP_MS, 10);
}

#[test]
fn lifecycle_quit_message_clears_flag_first() {
    let (p, a) = lifecycle_step(HookPhase::Running, LoopEvent::Polled { message: PolledMessage::Quit });
    assert_eq!((p, a), (HookPhase::ShuttingDown, LoopAction::ClearRunFlag));
    let (p, a) = lifecycle_step(p, LoopEvent::RunFlagCleared);
    assert_eq!((p, a), (HookPhase::ShuttingDown, LoopAction::RemoveHook));
}

#[test]
fn lifecycle_unexpected_event_repeats_phase_action() {
    assert_eq!(
        lifecycle_step(HookPhase::Running, LoopEvent::Begin),
        (HookPhase::Running, LoopAction::CheckRunning)
    );
    assert_eq!(
        lifecycle_step(HookPhase::ShuttingDown, LoopEvent::Slept),
        (HookPhase::ShuttingDown, LoopAction::RemoveHook)
    );
    assert_eq!(
        lifecycle_step(HookPhase::Finished { installed: true }, LoopEvent::Begin),
        (HookPhase::Finished { installed: true }, LoopAction::Exit { installed: true })
    );
}

#[test]
fn hook_thread_state_flag_lifecycle() {
    let state = HookThreadState::new();
    let flag = state.is_running.clone();
    assert!(flag.load(Ordering::SeqCst));
    drop(state);
    assert!(!flag.load(Ordering::SeqCst));
}

#[test]
fn apply_command_counts_swallowed_events() {
    let mut keys = KeyStore::new();
    let mut s = DebounceSettings::new();
    let mut swallowed = 0u64;
    let mut t = 0u64;
    for round in 0..40u64 {
        let command = match round % 8 {
            2 => Command::SetInterval { interval_ms: 20 + round },
            4 => Command::SetEnabled { enabled: round % 16 != 4 },
            6 => Command::ResetKey { vk_code: 2 },
            7 => Command::SetInterval { interval_ms: 3 },
            _ => Command::Event { event: down((round % 3) as u16), now: Some(t) },
        };
        if apply_command(&mut keys, &mut s, command) {
            swallowed += 1;
        }
        if apply_command(&mut keys, &mut s, Command::Event { event: down(1), now: Some(t) }) {
            swallowed += 1;
        }
        t += 3;
    }
    assert!(swallowed > 0);
    assert_eq!(get_blocked_keypress_count(&s), swallowed);
    assert!(!apply_command(&mut keys, &mut s, Command::SetInterval { interval_ms: 1001 }));
    assert_eq!(s.config().interval_ms, 20 + 34);
}
