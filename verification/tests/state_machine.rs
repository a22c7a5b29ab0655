use bcachefs_tui::app::{App, AppError, Event, KeyCode, KeyEvent, KeyEventKind, COUNTER_MAX};

fn press(c: char) -> KeyEvent {
    KeyEvent { code: KeyCode::Char(c), kind: KeyEventKind::Press }
}

#[test]
fn handle_key_event() {
    let mut app = App::default();
    app.handle_key_event(press('k')).unwrap();
    assert_eq!(app.counter, 1);

    app.handle_key_event(press('j')).unwrap();
    assert_eq!(app.counter, 0);

    let mut app = App::default();
    app.handle_key_event(press('q')).unwrap();
    assert_eq!(app.exit, true);
}

#[test]
fn handle_key_event_overlflow() {
    let mut app = App::default();
    assert!(app.handle_key_event(press('k')).is_ok());
    assert!(app.handle_key_event(press('k')).is_ok());
    assert_eq!(
        app.handle_key_event(press('k')).unwrap_err().message(),
        "counter overflow"
    );
}

#[test]
fn increment_saturates_at_bound() {
    let mut app = App::default();
    for presses in 1..6u8 {
        let r = app.handle_key_event(press('k'));
        let expected = if presses <= COUNTER_MAX { presses } else { COUNTER_MAX };
        assert_eq!(app.counter, expected);
        if presses <= COUNTER_MAX {
            assert!(r.is_ok());
        } else {
            assert_eq!(r.unwrap_err(), AppError::CounterOverflow);
        }
        assert!(!app.exit);
    }
}

#[test]
fn decrement_steps_down_by_one() {
    let mut app = App::default();
    app.handle_key_event(press('k')).unwrap();
    app.handle_key_event(press('k')).unwrap();
    assert_eq!(app.counter, 2);
    app.handle_key_event(press('j')).unwrap();
    assert_eq!(app.counter, 1);
    app.handle_key_event(press('j')).unwrap();
    assert_eq!(app.counter, 0);
}

#[test]
fn decrement_at_zero_underflows_without_crash() {
    let mut app = App::default();
    let r = app.handle_key_event(press('j'));
    assert_eq!(r.unwrap_err(), AppError::CounterUnderflow);
    assert_eq!(app.counter, 0);
    assert!(!app.exit);
    assert_eq!(
        app.handle_key_event(press('j')).unwrap_err().message(),
        "counter underflow"
    );
}

#[test]
fn quit_leaves_counter_unchanged() {
    let mut app = App::default();
    app.handle_key_event(press('k')).unwrap();
    app.handle_key_event(press('k')).unwrap();
    app.handle_key_event(press('q')).unwrap();
    assert!(app.exit);
    assert_eq!(app.counter, 2);
}

#[test]
fn other_keys_and_non_press_events_are_ignored() {
    let mut app = App::default();
    app.handle_key_event(press('x')).unwrap();
    app.handle_key_event(KeyEvent { code: KeyCode::Other, kind: KeyEventKind::Press }).unwrap();
    assert_eq!(app.counter, 0);
    assert!(!app.exit);

    app.handle_event(Event::Key(KeyEvent {
        code: KeyCode::Char('k'),
        kind: KeyEventKind::Release,
    }))
    .unwrap();
    app.handle_event(Event::Key(KeyEvent {
        code: KeyCode::Char('k'),
        kind: KeyEventKind::Repeat,
    }))
    .unwrap();
    app.handle_event(Event::Resize).unwrap();
    app.handle_event(Event::Other).unwrap();
    assert_eq!(app.counter, 0);
    assert!(!app.exit);

    app.handle_event(Event::Key(press('k'))).unwrap();
    assert_eq!(app.counter, 1);
}

#[test]
fn end_to_end_session() {
    let mut app = App::default();

    app.handle_event(Event::Key(press('k'))).unwrap();
    app.handle_event(Event::Key(press('k'))).unwrap();
    assert_eq!(app.counter, 2);

    let r = app.handle_event(Event::Key(press('k')));
    assert_eq!(r.unwrap_err(), AppError::CounterOverflow);
    assert_eq!(app.counter, 2);
    assert!(!app.exit, "overflow must not stop the loop");

    app.handle_event(Event::Key(press('j'))).unwrap();
    app.handle_event(Event::Key(press('j'))).unwrap();
    assert_eq!(app.counter, 0);
    let r = app.handle_event(Event::Key(press('j')));
    assert_eq!(r.unwrap_err(), AppError::CounterUnderflow);
    assert!(!app.exit, "underflow must not stop the loop");

    app.handle_event(Event::Key(press('q'))).unwrap();
    assert!(app.exit);
    assert_eq!(app.counter, 0);
}
