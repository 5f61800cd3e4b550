use counter_app::app::{App, AppState};
use counter_app::key::{Event, KeyCode, KeyEvent, KeyEventKind};
use counter_app::text::counter_text;
use ratatui::backend::TestBackend;
use ratatui::buffer::Buffer;
use ratatui::Terminal;

#[test]
fn handle_key_event() {
    let mut app = App::default();
    app.handle_key_event(KeyCode::Char('j').into());
    assert_eq!(app.counter(), -1, "j");

    let mut app = App::default();
    app.handle_key_event(KeyCode::Down.into());
    assert_eq!(app.counter(), -1, "Down");

    let mut app = App::default();
    app.handle_key_event(KeyCode::Char('k').into());
    assert_eq!(app.counter(), 1, "k");

    let mut app = App::default();
    app.handle_key_event(KeyCode::Up.into());
    assert_eq!(app.counter(), 1, "Up");

    let mut app = App::default();
    app.handle_key_event(KeyCode::Char('q').into());
    assert_eq!(app.app_state(), AppState::Done);
}

#[test]
fn render_frame() {
    let app = App::default();
    let backend = TestBackend::new(30, 3);
    let mut terminal = Terminal::new(backend).expect("terminal");

    let completed_frame = terminal
        .draw(|frame| app.render_frame(frame))
        .expect("draw");

    assert_eq!(
        *completed_frame.buffer,
        Buffer::with_lines(vec![
            "Counter: 0                    ",
            "                              ",
            "                              ",
        ])
    );
}

#[test]
fn starts_at_zero_and_running() {
    let app = App::default();
    assert_eq!(app.counter(), 0);
    assert_eq!(app.app_state(), AppState::Running);
    assert!(app.is_running());
}

#[test]
fn down_presses_count_down() {
    let mut app = App::default();
    for _ in 0..5 {
        app.handle_key_event(KeyEvent::press(KeyCode::Char('j')));
    }
    for _ in 0..3 {
        app.handle_key_event(KeyEvent::press(KeyCode::Down));
    }
    assert_eq!(app.counter(), -8);
    assert_eq!(app.app_state(), AppState::Running);
}

#[test]
fn up_presses_count_up() {
    let mut app = App::default();
    for _ in 0..4 {
        app.handle_key_event(KeyEvent::press(KeyCode::Char('k')));
    }
    for _ in 0..2 {
        app.handle_key_event(KeyEvent::press(KeyCode::Up));
    }
    assert_eq!(app.counter(), 6);
    assert_eq!(app.app_state(), AppState::Running);
}

#[test]
fn quit_from_any_counter_is_final() {
    let mut app = App::default();
    app.handle_key_event(KeyEvent::press(KeyCode::Char('k')));
    app.handle_key_event(KeyEvent::press(KeyCode::Char('k')));
    app.handle_key_event(KeyEvent::press(KeyCode::Char('q')));
    assert_eq!(app.app_state(), AppState::Done);
    assert_eq!(app.counter(), 2);
    for code in [
        KeyCode::Char('q'),
        KeyCode::Char('j'),
        KeyCode::Char('k'),
        KeyCode::Up,
        KeyCode::Down,
        KeyCode::Char('r'),
        KeyCode::Other,
    ] {
        app.handle_key_event(KeyEvent::press(code));
        assert_eq!(app.app_state(), AppState::Done);
    }
}

#[test]
fn other_keys_change_nothing() {
    let mut app = App::default();
    app.handle_key_event(KeyEvent::press(KeyCode::Char('k')));
    for code in [
        KeyCode::Char('Q'),
        KeyCode::Char('J'),
        KeyCode::Char('K'),
        KeyCode::Char('x'),
        KeyCode::Char(' '),
        KeyCode::Other,
    ] {
        app.handle_key_event(KeyEvent::press(code));
        assert_eq!(app.counter(), 1);
        assert_eq!(app.app_state(), AppState::Running);
    }
}

#[test]
fn releases_and_repeats_change_nothing() {
    let mut app = App::default();
    for code in [KeyCode::Char('q'), KeyCode::Char('j'), KeyCode::Char('k'), KeyCode::Up, KeyCode::Down] {
        app.handle_key_event(KeyEvent::release(code));
        app.handle_key_event(KeyEvent { code, kind: KeyEventKind::Repeat });
        assert_eq!(app.counter(), 0);
        assert_eq!(app.app_state(), AppState::Running);
    }
}

#[test]
fn press_then_render_shows_one() {
    let mut app = App::default();
    app.handle_key_event(KeyCode::Char('k').into());
    app.handle_key_event(KeyCode::Char('k').into());
    app.handle_key_event(KeyCode::Char('j').into());
    assert_eq!(app.frame_text(), "Counter: 1");

    let mut terminal = Terminal::new(TestBackend::new(30, 3)).expect("terminal");
    let completed_frame = terminal.draw(|frame| app.render_frame(frame)).expect("draw");
    assert_eq!(
        *completed_frame.buffer,
        Buffer::with_lines(vec![
            "Counter: 1                    ",
            "                              ",
            "                              ",
        ])
    );
}

#[test]
fn quit_ends_the_loop() {
    let mut app = App::default();
    let mut events = vec![Some(Event::Key(KeyCode::Char('q').into()))].into_iter();
    let mut polls = 0;
    while app.is_running() {
        let polled = events.next().expect("the loop polled after quitting");
        polls += 1;
        app.update(polled);
    }
    assert_eq!(polls, 1);
    assert_eq!(app.app_state(), AppState::Done);
}

#[test]
fn update_ignores_timeouts_and_other_events() {
    let mut app = App::default();
    app.update(None);
    app.update(Some(Event::Other));
    assert_eq!(app.counter(), 0);
    assert!(app.is_running());
    app.update(Some(Event::Key(KeyEvent::press(KeyCode::Up))));
    assert_eq!(app.counter(), 1);
}

#[test]
fn counter_text_writes_decimal() {
    assert_eq!(counter_text(0), "Counter: 0");
    assert_eq!(counter_text(7), "Counter: 7");
    assert_eq!(counter_text(10), "Counter: 10");
    assert_eq!(counter_text(-1), "Counter: -1");
    assert_eq!(counter_text(-305), "Counter: -305");
    assert_eq!(counter_text(i32::MAX), "Counter: 2147483647");
    assert_eq!(counter_text(i32::MIN), "Counter: -2147483648");
}

#[test]
fn render_shows_negative_counter() {
    let mut app = App::default();
    app.handle_key_event(KeyEvent::press(KeyCode::Down));
    app.handle_key_event(KeyEvent::press(KeyCode::Down));
    let mut terminal = Terminal::new(TestBackend::new(12, 2)).expect("terminal");
    let completed_frame = terminal.draw(|frame| app.render_frame(frame)).expect("draw");
    assert_eq!(
        *completed_frame.buffer,
        Buffer::with_lines(vec!["Counter: -2 ", "            "])
    );
}

#[test]
fn render_cuts_text_at_frame_width() {
    let app = App::default();
    let mut terminal = Terminal::new(TestBackend::new(5, 2)).expect("terminal");
    let completed_frame = terminal.draw(|frame| app.render_frame(frame)).expect("draw");
    assert_eq!(
        *completed_frame.buffer,
        Buffer::with_lines(vec!["Count", "     "])
    );
}

#[test]
fn render_after_down_shows_minus_one() {
    let mut app = App::default();
    app.handle_key_event(KeyCode::Down.into());
    let mut terminal = Terminal::new(TestBackend::new(30, 3)).expect("terminal");
    let completed_frame = terminal.draw(|frame| app.render_frame(frame)).expect("draw");
    assert_eq!(
        *completed_frame.buffer,
        Buffer::with_lines(vec![
            "Counter: -1                   ",
            "                              ",
            "                              ",
        ])
    );
}
