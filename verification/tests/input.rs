use ip_map::input::{handle_events, InputEvent, KeyCode, KeyEventKind, POLL_TIMEOUT_MS, QUIT_KEY};

fn key(kind: KeyEventKind, code: KeyCode) -> InputEvent {
    InputEvent::Key { kind, code }
}

#[test]
fn pressing_q_quits() {
    assert!(handle_events(key(KeyEventKind::Press, KeyCode::Char('q'))));
}

#[test]
fn quit_key_is_lower_case_q() {
    assert_eq!(QUIT_KEY, 'q');
    assert!(handle_events(key(KeyEventKind::Press, KeyCode::Char(QUIT_KEY))));
}

#[test]
fn releasing_or_repeating_q_does_not_quit() {
    assert!(!handle_events(key(KeyEventKind::Release, KeyCode::Char('q'))));
    assert!(!handle_events(key(KeyEventKind::Repeat, KeyCode::Char('q'))));
}

#[test]
fn other_keys_do_not_quit() {
    let others: [char; 8] = ['Q', 'p', 'r', 'a', ' ', '\n', '\u{0}', '\u{10FFFF}'];
    for c in others {
        assert!(!handle_events(key(KeyEventKind::Press, KeyCode::Char(c))));
    }
    assert!(!handle_events(key(KeyEventKind::Press, KeyCode::Other)));
    assert!(!handle_events(key(KeyEventKind::Release, KeyCode::Other)));
}

#[test]
fn timeout_and_other_events_do_not_quit() {
    assert!(!handle_events(InputEvent::Timeout));
    assert!(!handle_events(InputEvent::Other));
}

#[test]
fn only_one_event_quits() {
    let kinds: [KeyEventKind; 3] = [KeyEventKind::Press, KeyEventKind::Repeat, KeyEventKind::Release];
    let mut quitting: u32 = 0;
    for kind in kinds {
        for n in 0..=0x7f_u32 {
            let c = char::from_u32(n).unwrap();
            let event = key(kind, KeyCode::Char(c));
            if handle_events(event) {
                quitting += 1;
                assert_eq!(event, key(KeyEventKind::Press, KeyCode::Char('q')));
            }
        }
    }
    assert_eq!(quitting, 1);
}

#[test]
fn poll_waits_fifty_milliseconds() {
    assert_eq!(POLL_TIMEOUT_MS, 50);
}
