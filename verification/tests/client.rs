use server::callbacks::{Event, EventLoop};
use server::cli::{cursor_position, input_width, App, Key, KeyOutcome};
use server::widgets::CommandInputWidget;

#[test]
fn typed_characters_are_appended() {
    let mut app = App::default();
    assert!(matches!(app.on_key(Key::Char('a')), KeyOutcome::Continue));
    assert!(matches!(app.on_key(Key::Char('é')), KeyOutcome::Continue));
    assert_eq!(app.value(), "aé");
}

#[test]
fn backspace_deletes_the_last_character() {
    let mut app = App::default();
    assert!(matches!(app.on_key(Key::Backspace), KeyOutcome::Continue));
    assert_eq!(app.value(), "");
    app.on_key(Key::Char('x'));
    app.on_key(Key::Char('y'));
    app.on_key(Key::Backspace);
    assert_eq!(app.value(), "x");
}

#[test]
fn enter_asks_to_send_the_line() {
    let mut app = App::default();
    for c in "PING".chars() {
        app.on_key(Key::Char(c));
    }
    match app.on_key(Key::Enter) {
        KeyOutcome::Send(line) => assert_eq!(line, "PING"),
        other => panic!("unexpected {:?}", other),
    }
    assert_eq!(app.value(), "PING");
}

#[test]
fn escape_leaves_and_other_keys_do_nothing() {
    let mut app = App::default();
    app.on_key(Key::Char('q'));
    assert!(matches!(app.on_key(Key::Other), KeyOutcome::Continue));
    assert!(matches!(app.on_key(Key::Esc), KeyOutcome::Exit));
    assert_eq!(app.value(), "q");
}

#[test]
fn exchange_is_logged_and_line_cleared() {
    let mut app = App::default();
    assert!(app.message_lines().is_empty());
    for c in "PING".chars() {
        app.on_key(Key::Char(c));
    }
    app.record_exchange("+PONG\r\n");
    assert_eq!(app.value(), "");
    assert_eq!(app.message_lines(), vec!["0: Input: PING".to_string(), "1: Response: +PONG\r\n".to_string()]);
    app.on_key(Key::Char('x'));
    app.record_exchange("");
    let lines = app.message_lines();
    assert_eq!(lines.len(), 4);
    assert_eq!(lines[2], "2: Input: x");
    assert_eq!(lines[3], "3: Response: ");
}

#[test]
fn message_numbers_are_decimal() {
    let mut app = App::default();
    for _ in 0..6 {
        app.record_exchange("r");
    }
    let lines = app.message_lines();
    assert_eq!(lines[10], "10: Input: ");
    assert_eq!(lines[11], "11: Response: r");
}

#[test]
fn cursor_and_scroll_follow_the_line() {
    let mut app = App::default();
    assert_eq!(app.visual_cursor(), 0);
    for c in "abcdef".chars() {
        app.on_key(Key::Char(c));
    }
    assert_eq!(app.visual_cursor(), 6);
    assert_eq!(app.visual_scroll(10), 0);
    assert_eq!(app.visual_scroll(4), 2);
}

#[test]
fn input_width_leaves_room_for_the_border() {
    assert_eq!(input_width(10), 7);
    assert_eq!(input_width(3), 0);
    assert_eq!(input_width(1), 0);
}

#[test]
fn cursor_is_placed_inside_the_field() {
    assert_eq!(cursor_position(2, 3, 5, 0), (8, 4));
    assert_eq!(cursor_position(2, 3, 5, 2), (6, 4));
    assert_eq!(cursor_position(2, 3, 1, 4), (3, 4));
    assert_eq!(cursor_position(0, 0, 65536 + 3, 0), (4, 1));
}

#[test]
fn command_widget_shows_test() {
    assert_eq!(CommandInputWidget::new().input(), "test");
}

#[test]
fn events_queue_in_order() {
    let mut events = EventLoop::new();
    assert_eq!(events.len(), 0);
    events.push(Event::new(|| {}));
    events.push(Event::new(|| println!("later")));
    assert_eq!(events.len(), 2);
}

#[test]
fn backspace_undoes_a_typed_character() {
    let mut app = App::default();
    for c in "abc".chars() {
        app.on_key(Key::Char(c));
    }
    app.on_key(Key::Char('z'));
    app.on_key(Key::Backspace);
    assert_eq!(app.value(), "abc");
}

#[test]
fn reply_bytes_are_logged_as_text() {
    let mut app = App::default();
    app.on_key(Key::Char('h'));
    app.record_reply("+PONG é\r\n".as_bytes());
    assert_eq!(app.value(), "");
    assert_eq!(app.message_lines(), vec!["0: Input: h".to_string(), "1: Response: +PONG é\r\n".to_string()]);
}
