//! Drawing onto a terminal frame, through ratatui.
use vstd::prelude::*;

use ratatui::widgets::Paragraph;
use ratatui::Frame;

verus! {

/// A frame that ratatui hands to a draw callback; opaque here.
#[verifier::external_type_specification]
#[verifier::external_body]
pub struct ExFrame<'a>(Frame<'a>);

/// The rows of a frame's drawing area (`Frame::size`), top to bottom, each
/// left to right: the first character of each cell's symbol, one per column
/// of the area.
pub uninterp spec fn area_rows(f: Frame) -> Seq<Seq<char>>;

/// A row with `text` written over its first cells, cut at the row's width;
/// the cells past the text keep what they held.
pub open spec fn overlay(row: Seq<char>, text: Seq<char>) -> Seq<char> {
    Seq::new(row.len(), |i: int| if i < text.len() { text[i] } else { row[i] })
}

/// The rows after a single line of text is drawn at the top left: the top row
/// gets the text, every other row stays as it was.
pub open spec fn drawn(rows: Seq<Seq<char>>, text: Seq<char>) -> Seq<Seq<char>> {
    if rows.len() == 0 {
        rows
    } else {
        rows.update(0, overlay(rows[0], text))
    }
}

/// Printable ASCII: characters that take exactly one terminal cell.
pub open spec fn is_printable_ascii(s: Seq<char>) -> bool {
    forall|i: int| 0 <= i < s.len() ==> ' ' <= #[trigger] s[i] <= '~'
}

/// Relies on ratatui's `Frame::size`, `Paragraph::new` and
/// `Frame::render_widget`: the text is drawn as a left-aligned paragraph with
/// the default style over the whole frame. A line with no line break and only
/// one-cell characters lands on the top row of the area from its left edge,
/// cut at the area's width; no other cell's symbol changes.
#[verifier::external_body]
pub(crate) fn render_paragraph(frame: &mut Frame, text: String)
    requires
        is_printable_ascii(text@),
    ensures
        area_rows(*final(frame)) == drawn(area_rows(*old(frame)), text@),
{
    let area = frame.size();
    frame.render_widget(Paragraph::new(text), area);
}

} // verus!
