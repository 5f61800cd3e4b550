//! What holds of every run of key events.
use vstd::prelude::*;

use crate::app::{apply_keys, initial, is_bound, step, AppState, AppView};
use crate::key::{KeyCode, KeyEvent, KeyEventKind};
use crate::screen::{drawn, overlay};
use crate::text::counter_line;

verus! {

/// A press of `j` or of Down.
pub open spec fn is_down_press(key: KeyEvent) -> bool {
    key.kind == KeyEventKind::Press && (key.code == KeyCode::Char('j') || key.code
        == KeyCode::Down)
}

/// A press of `k` or of Up.
pub open spec fn is_up_press(key: KeyEvent) -> bool {
    key.kind == KeyEventKind::Press && (key.code == KeyCode::Char('k') || key.code == KeyCode::Up)
}

/// From the initial state, `n` presses of `j` or Down leave the counter at
/// `-n` (for `n` up to 2^31, where it reaches the smallest `i32`) and the
/// application running.
pub proof fn lemma_down_presses(keys: Seq<KeyEvent>)
    requires
        forall|i: int| 0 <= i < keys.len() ==> is_down_press(#[trigger] keys[i]),
        keys.len() <= 0x8000_0000,
    ensures
        apply_keys(initial(), keys).counter == -keys.len(),
        apply_keys(initial(), keys).state == AppState::Running,
    decreases keys.len(),
{
    if keys.len() > 0 {
        let rest = keys.drop_last();
        assert forall|i: int| 0 <= i < rest.len() implies is_down_press(#[trigger] rest[i]) by {
            assert(rest[i] == keys[i]);
        }
        lemma_down_presses(rest);
        assert(is_down_press(keys[keys.len() - 1]));
    }
}

/// From the initial state, `n` presses of `k` or Up leave the counter at `n`
/// (for `n` up to the largest `i32`) and the application running.
pub proof fn lemma_up_presses(keys: Seq<KeyEvent>)
    requires
        forall|i: int| 0 <= i < keys.len() ==> is_up_press(#[trigger] keys[i]),
        keys.len() <= 0x7fff_ffff,
    ensures
        apply_keys(initial(), keys).counter == keys.len(),
        apply_keys(initial(), keys).state == AppState::Running,
    decreases keys.len(),
{
    if keys.len() > 0 {
        let rest = keys.drop_last();
        assert forall|i: int| 0 <= i < rest.len() implies is_up_press(#[trigger] rest[i]) by {
            assert(rest[i] == keys[i]);
        }
        lemma_up_presses(rest);
        assert(is_up_press(keys[keys.len() - 1]));
    }
}

/// The counter wraps at the ends of `i32`: counting up from the largest
/// value gives the smallest, and counting down from the smallest gives the
/// largest. The run state is untouched.
pub proof fn lemma_counter_wraps(s: AppView)
    ensures
        s.counter == i32::MAX ==> step(
            s,
            KeyEvent { code: KeyCode::Up, kind: KeyEventKind::Press },
        ) == (AppView { counter: i32::MIN, state: s.state }),
        s.counter == i32::MAX ==> step(
            s,
            KeyEvent { code: KeyCode::Char('k'), kind: KeyEventKind::Press },
        ) == (AppView { counter: i32::MIN, state: s.state }),
        s.counter == i32::MIN ==> step(
            s,
            KeyEvent { code: KeyCode::Down, kind: KeyEventKind::Press },
        ) == (AppView { counter: i32::MAX, state: s.state }),
        s.counter == i32::MIN ==> step(
            s,
            KeyEvent { code: KeyCode::Char('j'), kind: KeyEventKind::Press },
        ) == (AppView { counter: i32::MAX, state: s.state }),
{
}

/// Releases and repeats of any key, and presses of keys other than `q`,
/// `j`, `k`, Up and Down, leave the counter and the run state as they were.
pub proof fn lemma_ignored_keys(s: AppView, keys: Seq<KeyEvent>)
    requires
        forall|i: int|
            0 <= i < keys.len() ==> (#[trigger] keys[i]).kind != KeyEventKind::Press || !is_bound(
                keys[i].code,
            ),
    ensures
        apply_keys(s, keys) == s,
    decreases keys.len(),
{
    if keys.len() > 0 {
        let rest = keys.drop_last();
        assert forall|i: int|
            0 <= i < rest.len() implies (#[trigger] rest[i]).kind != KeyEventKind::Press
            || !is_bound(rest[i].code) by {
            assert(rest[i] == keys[i]);
        }
        lemma_ignored_keys(s, rest);
        let last = keys[keys.len() - 1];
        assert(last.kind != KeyEventKind::Press || !is_bound(last.code));
    }
}

/// Once the application is done, no run of key events makes it run again.
pub proof fn lemma_done_stays_done(s: AppView, keys: Seq<KeyEvent>)
    requires
        s.state == AppState::Done,
    ensures
        apply_keys(s, keys).state == AppState::Done,
    decreases keys.len(),
{
    if keys.len() > 0 {
        lemma_done_stays_done(s, keys.drop_last());
    }
}

/// Pressing `q` from any state ends the run, and no key events after it
/// bring the application back to running.
pub proof fn lemma_quit_is_final(s: AppView, keys: Seq<KeyEvent>)
    ensures
        step(s, KeyEvent { code: KeyCode::Char('q'), kind: KeyEventKind::Press }).state
            == AppState::Done,
        apply_keys(
            step(s, KeyEvent { code: KeyCode::Char('q'), kind: KeyEventKind::Press }),
            keys,
        ).state == AppState::Done,
{
    lemma_done_stays_done(
        step(s, KeyEvent { code: KeyCode::Char('q'), kind: KeyEventKind::Press }),
        keys,
    );
}

/// A row of `n` blank cells.
pub open spec fn blank_row(n: nat) -> Seq<char> {
    Seq::new(n, |i: int| ' ')
}

/// An area of `height` rows of `width` blank cells.
pub open spec fn blank_area(width: nat, height: nat) -> Seq<Seq<char>> {
    Seq::new(height, |r: int| blank_row(width))
}

/// Drawn on a blank area at least as wide as the line, the top row reads the
/// counter line followed by spaces up to the width, and the other rows stay
/// blank.
pub proof fn lemma_render_on_blank(c: i32, width: nat, height: nat)
    requires
        height >= 1,
        width >= counter_line(c).len(),
    ensures
        drawn(blank_area(width, height), counter_line(c))[0] == counter_line(c)
            + blank_row((width - counter_line(c).len()) as nat),
        forall|r: int|
            1 <= r < height ==> #[trigger] drawn(blank_area(width, height), counter_line(c))[r] == blank_row(width),
        drawn(blank_area(width, height), counter_line(c)).len() == height,
{
    let rows = blank_area(width, height);
    let line = counter_line(c);
    assert(overlay(rows[0], line) =~= line + blank_row((width - line.len()) as nat));
}

/// What is drawn depends on the counter alone: two states with the same
/// counter draw the same thing on the same frame, whatever their run state.
pub proof fn lemma_render_depends_on_counter(a: AppView, b: AppView, rows: Seq<Seq<char>>)
    requires
        a.counter == b.counter,
    ensures
        drawn(rows, counter_line(a.counter)) == drawn(rows, counter_line(b.counter)),
{
}

} // verus!
