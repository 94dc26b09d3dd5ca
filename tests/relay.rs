use clip_relay::chain::{chain_effects, effect_for, event_tag, follow_up, Effect, Event};
use clip_relay::clipboard::clipboard_text;
use clip_relay::hotkey::{accelerator, combo, event_for_shortcut, hotkeys, Combo, Hotkey, KeyCode};
use clip_relay::keys::{
    copy_keystrokes, copy_keystrokes_for, delete_keystrokes, platform_of, Direction, KeyName,
    Keystroke, Platform,
};
use clip_relay::timer::{Ticker, CHAIN_PERIOD_SECS};

fn ks(key: KeyName, direction: Direction) -> Keystroke {
    Keystroke { key, direction }
}

fn count_reads(effects: &[Effect]) -> usize {
    effects.iter().filter(|e| **e == Effect::ReadClipboard).count()
}

/// Runs one handler the way the application does, every effect succeeding.
fn handle(e: Event, log: &mut Vec<Effect>) -> Option<Event> {
    log.push(effect_for(e));
    follow_up(e, true)
}

#[test]
fn copy_event_chain_reads_clipboard_once() {
    let effects = chain_effects(Event::Copy);
    assert_eq!(
        effects,
        vec![Effect::InjectCopy, Effect::InjectDelete, Effect::ReadClipboard]
    );
    assert_eq!(count_reads(&effects), 1);
}

#[test]
fn later_entries_read_clipboard_once() {
    assert_eq!(
        chain_effects(Event::Delete),
        vec![Effect::InjectDelete, Effect::ReadClipboard]
    );
    assert_eq!(chain_effects(Event::Print), vec![Effect::ReadClipboard]);
    assert_eq!(chain_effects(Event::Window), vec![Effect::ShowWindow]);
}

#[test]
fn follow_up_events() {
    assert_eq!(follow_up(Event::Copy, true), Some(Event::Delete));
    assert_eq!(follow_up(Event::Delete, true), Some(Event::Print));
    assert_eq!(follow_up(Event::Print, true), None);
    assert_eq!(follow_up(Event::Window, true), None);
}

#[test]
fn failed_step_ends_chain() {
    assert_eq!(follow_up(Event::Copy, false), None);
    assert_eq!(follow_up(Event::Delete, false), None);
}

#[test]
fn effects_of_events() {
    assert_eq!(effect_for(Event::Copy), Effect::InjectCopy);
    assert_eq!(effect_for(Event::Delete), Effect::InjectDelete);
    assert_eq!(effect_for(Event::Print), Effect::ReadClipboard);
    assert_eq!(effect_for(Event::Window), Effect::ShowWindow);
}

#[test]
fn event_tags() {
    assert_eq!(event_tag(Event::Copy), "copy-event");
    assert_eq!(event_tag(Event::Delete), "delete-event");
    assert_eq!(event_tag(Event::Print), "print-event");
    assert_eq!(event_tag(Event::Window), "window-event");
}

#[test]
fn macos_uses_meta_sequence() {
    assert_eq!(platform_of("macos"), Platform::MacOs);
    assert_eq!(
        copy_keystrokes(Platform::MacOs),
        vec![
            ks(KeyName::Meta, Direction::Release),
            ks(KeyName::Meta, Direction::Press),
            ks(KeyName::Unicode('c'), Direction::Click),
            ks(KeyName::Meta, Direction::Release),
        ]
    );
    assert_eq!(copy_keystrokes_for("macos"), copy_keystrokes(Platform::MacOs));
}

#[test]
fn other_systems_use_ctrl_sequence() {
    for os in ["linux", "windows", "freebsd", "ios", "MacOS", ""] {
        assert_eq!(platform_of(os), Platform::Other);
        assert_eq!(
            copy_keystrokes_for(os),
            vec![
                ks(KeyName::LControl, Direction::Press),
                ks(KeyName::Unicode('c'), Direction::Click),
                ks(KeyName::LControl, Direction::Release),
            ]
        );
    }
}

#[test]
fn delete_is_one_backspace_click() {
    assert_eq!(
        delete_keystrokes(),
        vec![ks(KeyName::Backspace, Direction::Click)]
    );
}

#[test]
fn missing_clipboard_reads_as_empty() {
    assert_eq!(clipboard_text(None), "");
}

#[test]
fn clipboard_text_is_kept() {
    assert_eq!(clipboard_text(Some("copied words".to_string())), "copied words");
    assert_eq!(clipboard_text(Some(String::new())), "");
}

#[test]
fn registered_hotkeys() {
    assert_eq!(hotkeys(), vec![Hotkey::StartChain, Hotkey::ShowWindow]);
    assert_eq!(accelerator(Hotkey::StartChain), "alt+ctrl+c");
    assert_eq!(accelerator(Hotkey::ShowWindow), "alt+ctrl+n");
    assert_ne!(combo(Hotkey::StartChain), combo(Hotkey::ShowWindow));
}

#[test]
fn hotkey_presses_publish_events() {
    let c = Combo { alt: true, ctrl: true, shift: false, meta: false, key: KeyCode::Letter('c') };
    let n = Combo { alt: true, ctrl: true, shift: false, meta: false, key: KeyCode::Letter('n') };
    assert_eq!(combo(Hotkey::StartChain), c);
    assert_eq!(event_for_shortcut(c, true), Some(Event::Copy));
    assert_eq!(event_for_shortcut(n, true), Some(Event::Window));
    assert_eq!(event_for_shortcut(c, false), None);
    assert_eq!(event_for_shortcut(n, false), None);
}

#[test]
fn other_combinations_publish_nothing() {
    let shifted = Combo { alt: true, ctrl: true, shift: true, meta: false, key: KeyCode::Letter('c') };
    let no_alt = Combo { alt: false, ctrl: true, shift: false, meta: false, key: KeyCode::Letter('c') };
    let other = Combo { alt: true, ctrl: true, shift: false, meta: false, key: KeyCode::Other };
    let x = Combo { alt: true, ctrl: true, shift: false, meta: false, key: KeyCode::Letter('x') };
    for c in [shifted, no_alt, other, x] {
        assert_eq!(event_for_shortcut(c, true), None);
    }
}

#[test]
fn timer_fires_at_twenty_seconds_once() {
    let mut t = Ticker::chain_timer();
    assert_eq!(CHAIN_PERIOD_SECS, 20);
    assert_eq!(t.poll(0), None);
    assert_eq!(t.poll(19), None);
    let fired = t.poll(20);
    assert_eq!(fired, Some(Event::Copy));
    assert_eq!(t.poll(20), None);
    assert_eq!(t.next_due_secs, 40);

    let mut log = Vec::new();
    let mut pending = fired;
    let mut published = Vec::new();
    while let Some(e) = pending {
        published.push(event_tag(e));
        pending = handle(e, &mut log);
    }
    assert_eq!(published, vec!["copy-event", "delete-event", "print-event"]);
    assert_eq!(count_reads(&log), 1);
}

#[test]
fn timer_fires_again_each_period() {
    let mut t = Ticker::new(5);
    assert_eq!(t.poll(5), Some(Event::Copy));
    assert_eq!(t.poll(9), None);
    assert_eq!(t.poll(12), Some(Event::Copy));
    assert_eq!(t.next_due_secs, 17);
}

#[test]
fn timer_due_time_saturates() {
    let mut t = Ticker::new(10);
    assert_eq!(t.poll(u64::MAX - 3), Some(Event::Copy));
    assert_eq!(t.next_due_secs, u64::MAX);
    assert_eq!(t.period_secs, 10);
}

#[test]
fn double_hotkey_press_runs_two_chains() {
    let c = combo(Hotkey::StartChain);
    let mut first = event_for_shortcut(c, true);
    let mut second = event_for_shortcut(c, true);
    let mut log = Vec::new();
    while first.is_some() || second.is_some() {
        if let Some(e) = first {
            first = handle(e, &mut log);
        }
        if let Some(e) = second {
            second = handle(e, &mut log);
        }
    }
    assert_eq!(
        log,
        vec![
            Effect::InjectCopy,
            Effect::InjectCopy,
            Effect::InjectDelete,
            Effect::InjectDelete,
            Effect::ReadClipboard,
            Effect::ReadClipboard,
        ]
    );
    assert_eq!(count_reads(&log), 2);
}
