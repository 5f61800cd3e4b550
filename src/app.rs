//! The application's state and how events change it.
use vstd::prelude::*;

use ratatui::Frame;

use crate::key::{Event, KeyCode, KeyEvent, KeyEventKind};
use crate::screen::{area_rows, drawn, render_paragraph};
use crate::text::{counter_line, counter_text, lemma_counter_line_printable};

verus! {

/// Whether the event loop should keep going.
#[derive(Clone, Copy, Debug, PartialEq, Eq, Structural)]
pub enum AppState {
    Running,
    Done,
}

/// What the application is, seen from outside: the counter and the run state.
pub struct AppView {
    pub counter: i32,
    pub state: AppState,
}

/// The counter application: one integer, changed by key presses, and a flag
/// that ends the event loop.
#[derive(Debug)]
pub struct App {
    counter: i32,
    app_state: AppState,
}

impl View for App {
    type V = AppView;

    closed spec fn view(&self) -> AppView {
        AppView { counter: self.counter, state: self.app_state }
    }
}

/// The state that the application starts in.
pub open spec fn initial() -> AppView {
    AppView { counter: 0, state: AppState::Running }
}

/// One more, wrapping from the largest `i32` to the smallest.
pub open spec fn increment(c: i32) -> i32 {
    if c == i32::MAX {
        i32::MIN
    } else {
        (c + 1) as i32
    }
}

/// One less, wrapping from the smallest `i32` to the largest.
pub open spec fn decrement(c: i32) -> i32 {
    if c == i32::MIN {
        i32::MAX
    } else {
        (c - 1) as i32
    }
}

/// The keys that do something: `q`, `j`, `k` and the two vertical arrows.
pub open spec fn is_bound(code: KeyCode) -> bool {
    match code {
        KeyCode::Char(c) => c == 'q' || c == 'j' || c == 'k',
        KeyCode::Up | KeyCode::Down => true,
        KeyCode::Other => false,
    }
}

/// The effect of one key event. Only presses count: `q` quits, `j` and Down
/// count down, `k` and Up count up, and every other key does nothing.
pub open spec fn step(s: AppView, key: KeyEvent) -> AppView {
    if key.kind != KeyEventKind::Press {
        s
    } else {
        match key.code {
            KeyCode::Char('q') => AppView { state: AppState::Done, ..s },
            KeyCode::Char('j') | KeyCode::Down => AppView { counter: decrement(s.counter), ..s },
            KeyCode::Char('k') | KeyCode::Up => AppView { counter: increment(s.counter), ..s },
            _ => s,
        }
    }
}

/// The effect of a run of key events, applied in order.
pub open spec fn apply_keys(s: AppView, keys: Seq<KeyEvent>) -> AppView
    decreases keys.len(),
{
    if keys.len() == 0 {
        s
    } else {
        step(apply_keys(s, keys.drop_last()), keys.last())
    }
}

/// The effect of what one poll of the terminal brought: a key event is
/// handled, anything else (or nothing, when the poll timed out) is ignored.
pub open spec fn after_poll(s: AppView, polled: Option<Event>) -> AppView {
    match polled {
        Some(Event::Key(key)) => step(s, key),
        _ => s,
    }
}

impl Default for App {
    fn default() -> (r: App)
        ensures
            r@ == initial(),
    {
        App { counter: 0, app_state: AppState::Running }
    }
}

impl App {
    /// The counter's value.
    pub fn counter(&self) -> (r: i32)
        ensures
            r == self@.counter,
    {
        self.counter
    }

    /// The run state.
    pub fn app_state(&self) -> (r: AppState)
        ensures
            r == self@.state,
    {
        self.app_state
    }

    /// Whether the event loop should go on.
    pub fn is_running(&self) -> (r: bool)
        ensures
            r == (self@.state == AppState::Running),
    {
        self.app_state == AppState::Running
    }

    /// Reacts to one key event.
    pub fn handle_key_event(&mut self, keyevent: KeyEvent)
        ensures
            final(self)@ == step(old(self)@, keyevent),
            keyevent.kind != KeyEventKind::Press ==> final(self)@ == old(self)@,
            !is_bound(keyevent.code) ==> final(self)@ == old(self)@,
            keyevent == (KeyEvent { code: KeyCode::Char('q'), kind: KeyEventKind::Press }) ==> final(self)@.state == AppState::Done,
            old(self)@.state == AppState::Done ==> final(self)@.state == AppState::Done,
    {
        if keyevent.kind == KeyEventKind::Press {
            match keyevent.code {
                KeyCode::Char('q') => self.app_state = AppState::Done,
                KeyCode::Char('j') | KeyCode::Down => self.counter = self.counter.wrapping_sub(1),
                KeyCode::Char('k') | KeyCode::Up => self.counter = self.counter.wrapping_add(1),
                _ => {},
            }
        }
    }

    /// The text that a frame shows for this state.
    pub fn frame_text(&self) -> (r: String)
        ensures
            r@ == counter_line(self@.counter),
    {
        counter_text(self.counter)
    }

    /// Draws the state: the line `Counter: <value>` at the top left of the
    /// frame, cut at the frame's width, and nothing else. What is drawn
    /// depends on the counter alone.
    pub fn render_frame(&self, frame: &mut Frame)
        ensures
            area_rows(*final(frame)) == drawn(area_rows(*old(frame)), counter_line(self@.counter)),
    {
        let text = self.frame_text();
        proof {
            lemma_counter_line_printable(self@.counter);
        }
        render_paragraph(frame, text);
    }

    /// Applies what one poll of the terminal brought: `None` when the poll
    /// timed out with no event.
    pub fn update(&mut self, polled: Option<Event>)
        ensures
            final(self)@ == after_poll(old(self)@, polled),
    {
        match polled {
            Some(Event::Key(keyevent)) => self.handle_key_event(keyevent),
            _ => {},
        }
    }
}

} // verus!
