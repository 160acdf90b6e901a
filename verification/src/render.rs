//! The projection of the session onto a screen: what to draw, and where.
//!
//! `render` draws nothing itself. It describes the frame (the lines in
//! view, the status bar, the cursor, the exit question when it stands), and
//! the terminal layer paints that description.

use crate::app::{App, AppView, Mode, ModeView, StatusColor};
use crate::document::Lines;
use crate::layout::{
    centered_area, inner_of_bordered, is_centered, part_of, solved, split_in_two, Area, Axis,
    Extent,
};
use crate::text::line_text;
use vstd::prelude::*;

verus! {

/// Where on the screen the cursor goes: `x` columns and `y` rows from the top
/// left corner of the text.
#[derive(Clone, Copy, Debug, PartialEq, Eq, Structural)]
pub struct CursorPlace {
    pub x: usize,
    pub y: usize,
}

/// The exit question as drawn over the text: a bordered box with a title,
/// the question in its upper part, and the two answers side by side below.
#[derive(Debug)]
pub struct Overlay {
    /// The box, border included.
    pub area: Area,
    /// The room inside the border.
    pub inner: Area,
    pub title: String,
    pub message: String,
    pub message_area: Area,
    /// The strip that the two answers share.
    pub answers_area: Area,
    pub confirm_label: String,
    pub confirm_area: Area,
    pub cancel_label: String,
    pub cancel_area: Area,
}

/// One frame: everything the terminal layer needs to paint the session.
#[derive(Debug)]
pub struct Screen {
    /// Where the document's text goes.
    pub text_area: Area,
    /// The lines in view, top to bottom.
    pub lines: Vec<String>,
    /// Where the status bar goes.
    pub status_area: Area,
    pub status_message: String,
    pub status_color: StatusColor,
    /// Where the cursor goes; `None` while the exit question covers the text.
    pub cursor: Option<CursorPlace>,
    /// The exit question, while it stands.
    pub overlay: Option<Overlay>,
}

/// The share of the frame's width that the exit question is asked to take, in
/// hundredths.
pub const OVERLAY_PERCENT_X: u16 = 60;

/// The share of the frame's height that the exit question is asked to take,
/// in hundredths.
pub const OVERLAY_PERCENT_Y: u16 = 40;

/// What is asked of the two parts of the frame: the text takes what room
/// there is, and the status bar below it one row.
pub open spec fn frame_rows() -> Seq<Extent> {
    seq![Extent::Min(0), Extent::Length(1)]
}

/// What is asked of the two parts inside the exit question's border: six
/// tenths of the height for the question, four for the answers below it.
pub open spec fn overlay_rows() -> Seq<Extent> {
    seq![Extent::Percentage(60), Extent::Percentage(40)]
}

/// What is asked of the two answers: half of the width each.
pub open spec fn overlay_answers() -> Seq<Extent> {
    seq![Extent::Percentage(50), Extent::Percentage(50)]
}

/// The label of the answer that leaves.
pub open spec fn confirm_label() -> Seq<char> {
    "[Y]es"@
}

/// The label of the answer that stays.
pub open spec fn cancel_label() -> Seq<char> {
    "[N]o"@
}

/// The texts that a list of strings holds.
pub open spec fn texts_view(texts: Seq<String>) -> Lines {
    Seq::new(texts.len(), |i: int| texts[i]@)
}

/// The lines of a document that a window of `height` rows shows when it is
/// scrolled to `scroll_row`: the lines from that row on, as many as fit, and
/// fewer where the document ends before the window does.
pub open spec fn visible_lines(lines: Lines, scroll_row: int, height: int) -> Lines {
    let from = if scroll_row < lines.len() {
        scroll_row
    } else {
        lines.len() as int
    };
    let to = if scroll_row + height < lines.len() {
        scroll_row + height
    } else {
        lines.len() as int
    };
    lines.subrange(from, to)
}

impl AppView {
    /// Where the cursor goes on the screen: its distance from the scroll
    /// offset, column first. There is no such place while the exit question
    /// covers the text, nor while the cursor lies before the scroll offset.
    pub open spec fn cursor_place(self) -> Option<(int, int)> {
        if self.mode is Editing && self.scroll_col <= self.cursor_col && self.scroll_row
            <= self.cursor_row {
            Some((self.cursor_col - self.scroll_col, self.cursor_row - self.scroll_row))
        } else {
            None
        }
    }
}

impl Overlay {
    /// The overlay is laid out in `frame` as the exit question is.
    ///
    /// The box is centred in the frame, asked to take its fixed shares of
    /// the width and the height, and lies within the frame. Inside its
    /// border the room is split into the question above and the answers
    /// below, and the answers' strip into the answer that leaves on the left
    /// and the one that stays on the right.
    pub open spec fn placed_in(self, frame: Area) -> bool {
        &&& is_centered(frame, OVERLAY_PERCENT_X, OVERLAY_PERCENT_Y, self.area)
        &&& frame.contains(self.area)
        &&& self.inner == self.area.inside_border()
        &&& solved(
            Axis::Vertical,
            self.inner,
            overlay_rows(),
            seq![self.message_area, self.answers_area],
        )
        &&& part_of(Axis::Vertical, self.inner, self.message_area)
        &&& part_of(Axis::Vertical, self.inner, self.answers_area)
        &&& solved(
            Axis::Horizontal,
            self.answers_area,
            overlay_answers(),
            seq![self.confirm_area, self.cancel_area],
        )
        &&& part_of(Axis::Horizontal, self.answers_area, self.confirm_area)
        &&& part_of(Axis::Horizontal, self.answers_area, self.cancel_area)
    }
}

impl App {
    /// The lines in view in a window of `height` rows, as strings.
    pub fn visible_lines(&self, height: usize) -> (lines: Vec<String>)
        ensures
            texts_view(lines@) == visible_lines(self@.lines, self@.scroll_row, height as int),
    {
        let total = self.buffer.len();
        let from = if self.scroll_row < total {
            self.scroll_row
        } else {
            total
        };
        let to = if height < total - from {
            from + height
        } else {
            total
        };
        let mut lines: Vec<String> = Vec::new();
        let mut row = from;
        while row < to
            invariant
                from <= row <= to <= self.buffer.len(),
                texts_view(lines@) == self@.lines.subrange(from as int, row as int),
            decreases to - row,
        {
            let text = line_text(&self.buffer[row]);
            proof {
                let shown = self@.lines.subrange(from as int, row as int);
                let next = texts_view(lines@.push(text));
                assert(texts_view(lines@).len() == shown.len());
                assert forall|i: int| 0 <= i < next.len() implies next[i] == #[trigger] self@.lines[from
                    + i] by {
                    if i < lines@.len() {
                        assert(texts_view(lines@)[i] == shown[i]);
                    }
                }
                assert(next =~= self@.lines.subrange(from as int, row + 1));
            }
            lines.push(text);
            row += 1;
        }
        lines
    }

    /// Where the cursor goes on the screen, if it has a place there.
    pub fn cursor_place(&self) -> (place: Option<CursorPlace>)
        ensures
            match place {
                Some(at) => self@.cursor_place() == Some((at.x as int, at.y as int)),
                None => self@.cursor_place() is None,
            },
    {
        let editing = match &self.mode {
            Mode::Editing => true,
            Mode::ConfirmingExit { .. } => false,
        };
        if editing && self.scroll_col <= self.cursor_col && self.scroll_row <= self.cursor_row {
            Some(
                CursorPlace {
                    x: self.cursor_col - self.scroll_col,
                    y: self.cursor_row - self.scroll_row,
                },
            )
        } else {
            None
        }
    }

    /// The exit question laid out in `frame`, while it stands.
    pub fn overlay(&self, frame: Area) -> (overlay: Option<Overlay>)
        ensures
            match self@.mode {
                ModeView::Editing => overlay is None,
                ModeView::ConfirmingExit { title, message } => {
                    &&& overlay matches Some(o)
                    &&& o.title@ == title
                    &&& o.message@ == message
                    &&& o.confirm_label@ == confirm_label()
                    &&& o.cancel_label@ == cancel_label()
                    &&& o.placed_in(frame)
                },
            },
    {
        match &self.mode {
            Mode::Editing => None,
            Mode::ConfirmingExit { title, message } => {
                let area = centered_area(frame, OVERLAY_PERCENT_X, OVERLAY_PERCENT_Y);
                let inner = inner_of_bordered(title.as_str(), area);
                let rows = split_in_two(
                    Axis::Vertical,
                    inner,
                    Extent::Percentage(60),
                    Extent::Percentage(40),
                );
                let answers = split_in_two(
                    Axis::Horizontal,
                    rows.1,
                    Extent::Percentage(50),
                    Extent::Percentage(50),
                );
                Some(
                    Overlay {
                        area,
                        inner,
                        title: title.clone(),
                        message: message.clone(),
                        message_area: rows.0,
                        answers_area: rows.1,
                        confirm_label: "[Y]es".to_owned(),
                        confirm_area: answers.0,
                        cancel_label: "[N]o".to_owned(),
                        cancel_area: answers.1,
                    },
                )
            },
        }
    }

    /// Describes the frame that shows the session in `frame`.
    ///
    /// The frame is split into the text, which gets what room there is, and
    /// one row of status bar below it. The lines in view are those that a
    /// window as tall as the whole frame shows. The cursor is placed by its
    /// distance from the scroll offset, and not at all while the exit
    /// question covers the text.
    pub fn render(&self, frame: Area) -> (screen: Screen)
        ensures
            solved(
                Axis::Vertical,
                frame,
                frame_rows(),
                seq![screen.text_area, screen.status_area],
            ),
            part_of(Axis::Vertical, frame, screen.text_area),
            part_of(Axis::Vertical, frame, screen.status_area),
            texts_view(screen.lines@) == visible_lines(
                self@.lines,
                self@.scroll_row,
                frame.height as int,
            ),
            screen.status_message@ == self@.status_message,
            screen.status_color == self@.status_color,
            match screen.cursor {
                Some(at) => self@.cursor_place() == Some((at.x as int, at.y as int)),
                None => self@.cursor_place() is None,
            },
            match self@.mode {
                ModeView::Editing => screen.overlay is None,
                ModeView::ConfirmingExit { title, message } => {
                    &&& screen.overlay matches Some(o)
                    &&& o.title@ == title
                    &&& o.message@ == message
                    &&& o.confirm_label@ == confirm_label()
                    &&& o.cancel_label@ == cancel_label()
                    &&& o.placed_in(frame)
                },
            },
    {
        let parts = split_in_two(Axis::Vertical, frame, Extent::Min(0), Extent::Length(1));
        Screen {
            text_area: parts.0,
            lines: self.visible_lines(frame.height as usize),
            status_area: parts.1,
            status_message: self.status_message.clone(),
            status_color: self.status_color,
            cursor: self.cursor_place(),
            overlay: self.overlay(frame),
        }
    }
}

} // verus!
