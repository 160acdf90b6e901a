//! The editor session: document, cursor, viewport, mode and status in one
//! value, and the state machine that moves it from one key event to the next.
//!
//! `AppView` is the session as a mathematical value, and its methods say what
//! every operation does. `App` is the session in memory; each of its methods
//! is proved to do to its view what the method of the same name on `AppView`
//! says.

use crate::document::{
    delete_backward, delete_backward_cursor, insert_char, split_line, split_line_cursor,
    valid_position, Lines,
};
use crate::document::{
    lemma_delete_backward_valid, lemma_insert_char_valid, lemma_split_line_valid,
};
use crate::input::{Action, InputEvent, KeyCode, KeyEvent, KeyKind};
use crate::text::{join_lines, lines_view, load, load_lines, serialize};
use vstd::prelude::*;

verus! {

/// `std::path::PathBuf`, declared so that the session can carry the path of
/// its file. Nothing is claimed of it: the library only keeps the value and
/// hands it back.
#[verifier::external_type_specification]
#[verifier::external_body]
pub struct ExPathBuf(std::path::PathBuf);

/// The category of the status message, by which the status bar is coloured.
#[derive(Clone, Copy, Debug, PartialEq, Eq, Structural)]
pub enum StatusColor {
    /// Nothing to report yet.
    Neutral,
    /// The last operation went well.
    Success,
    /// The last operation failed.
    Error,
}

/// The mode the session is in: editing, or asking whether to leave with
/// unsaved changes. While the question stands, it takes every key.
#[derive(Debug)]
pub enum Mode {
    Editing,
    ConfirmingExit { title: String, message: String },
}

/// A `Mode` as a mathematical value.
pub enum ModeView {
    Editing,
    ConfirmingExit { title: Seq<char>, message: Seq<char> },
}

impl View for Mode {
    type V = ModeView;

    open spec fn view(&self) -> ModeView {
        match self {
            Mode::Editing => ModeView::Editing,
            Mode::ConfirmingExit { title, message } => ModeView::ConfirmingExit {
                title: title@,
                message: message@,
            },
        }
    }
}

/// The title of the question asked before leaving with unsaved changes.
pub open spec fn confirm_title() -> Seq<char> {
    "Changes detected"@
}

/// The question asked before leaving with unsaved changes.
pub open spec fn confirm_message() -> Seq<char> {
    "Do you want to leave without saving?"@
}

/// The status message after a save that went well.
pub open spec fn saved_message() -> Seq<char> {
    "Saved"@
}

/// What stands before the reason when a file could not be read and the reason
/// is shown in place of the file's text.
pub open spec fn read_error_prefix() -> Seq<char> {
    "Error: "@
}

/// The text that a session opens for the outcome of reading its file: the
/// file's text, or, where reading failed, the reason behind a fixed prefix.
pub open spec fn read_content(read: Result<String, String>) -> Seq<char> {
    match read {
        Ok(text) => text@,
        Err(reason) => read_error_prefix() + reason@,
    }
}

/// The session as a mathematical value.
pub struct AppView {
    pub path: std::path::PathBuf,
    pub content: Seq<char>,
    pub lines: Lines,
    pub cursor_row: int,
    pub cursor_col: int,
    pub scroll_row: int,
    pub scroll_col: int,
    pub dirty: bool,
    pub mode: ModeView,
    pub status_message: Seq<char>,
    pub status_color: StatusColor,
}

impl AppView {
    /// The session's invariant: the cursor stands at a valid position of the
    /// document (which therefore has at least one line), and the scroll
    /// offsets are not negative.
    pub open spec fn wf(self) -> bool {
        &&& valid_position(self.lines, self.cursor_row, self.cursor_col)
        &&& 0 <= self.scroll_row
        &&& 0 <= self.scroll_col
    }

    /// The cursor's row is one of the `height` rows that the viewport shows.
    pub open spec fn cursor_visible(self, height: int) -> bool {
        self.scroll_row <= self.cursor_row < self.scroll_row + height
    }

    /// A fresh session on `path`: one empty line, everything at its origin.
    pub open spec fn initial(path: std::path::PathBuf) -> AppView {
        AppView {
            path,
            content: Seq::empty(),
            lines: seq![Seq::empty()],
            cursor_row: 0,
            cursor_col: 0,
            scroll_row: 0,
            scroll_col: 0,
            dirty: false,
            mode: ModeView::Editing,
            status_message: Seq::empty(),
            status_color: StatusColor::Neutral,
        }
    }

    /// The session after `content` was opened in it: the document is the
    /// content's lines, cursor and viewport are back at the origin, and
    /// nothing is unsaved.
    pub open spec fn opened(self, content: Seq<char>) -> AppView {
        AppView {
            content,
            lines: load_lines(content),
            cursor_row: 0,
            cursor_col: 0,
            scroll_row: 0,
            scroll_col: 0,
            dirty: false,
            ..self
        }
    }

    /// The cursor one column to the left, unless it stands at the start of
    /// its line.
    pub open spec fn move_left(self) -> AppView {
        if self.cursor_col > 0 {
            AppView { cursor_col: self.cursor_col - 1, ..self }
        } else {
            self
        }
    }

    /// The cursor one column to the right, unless it stands after the last
    /// character of its line.
    pub open spec fn move_right(self) -> AppView {
        if self.cursor_col < self.lines[self.cursor_row].len() {
            AppView { cursor_col: self.cursor_col + 1, ..self }
        } else {
            self
        }
    }

    /// The cursor moved to `row`, its column cut down to that line's length.
    pub open spec fn at_row(self, row: int) -> AppView {
        AppView {
            cursor_row: row,
            cursor_col: if self.cursor_col <= self.lines[row].len() {
                self.cursor_col
            } else {
                self.lines[row].len() as int
            },
            ..self
        }
    }

    /// The cursor one line up, unless it stands on the first line.
    pub open spec fn move_up(self) -> AppView {
        if self.cursor_row > 0 {
            self.at_row(self.cursor_row - 1)
        } else {
            self
        }
    }

    /// The cursor one line down, unless it stands on the last line.
    pub open spec fn move_down(self) -> AppView {
        if self.cursor_row + 1 < self.lines.len() {
            self.at_row(self.cursor_row + 1)
        } else {
            self
        }
    }

    /// The viewport scrolled by as little as brings the cursor's row into the
    /// `height` rows shown.
    pub open spec fn reconcile_viewport(self, height: int) -> AppView {
        if self.cursor_row < self.scroll_row {
            AppView { scroll_row: self.cursor_row, ..self }
        } else if self.cursor_row >= self.scroll_row + height {
            AppView { scroll_row: self.cursor_row - height + 1, ..self }
        } else {
            self
        }
    }

    /// `ch` put into the document at `(row, col)`; the document has unsaved
    /// changes from then on.
    pub open spec fn insert_char(self, row: int, col: int, ch: char) -> AppView {
        AppView { lines: insert_char(self.lines, row, col, ch), dirty: true, ..self }
    }

    /// A backward delete at `(row, col)`; the document has unsaved changes
    /// from then on, unless the delete was at the very start and did nothing.
    pub open spec fn delete_backward(self, row: int, col: int) -> AppView {
        AppView {
            lines: delete_backward(self.lines, row, col),
            dirty: self.dirty || col > 0 || row > 0,
            ..self
        }
    }

    /// Line `row` broken at `col`; the document has unsaved changes from then
    /// on.
    pub open spec fn split_line(self, row: int, col: int) -> AppView {
        AppView { lines: split_line(self.lines, row, col), dirty: true, ..self }
    }

    /// The session asking whether to leave with unsaved changes.
    pub open spec fn asking_exit(self) -> AppView {
        AppView {
            mode: ModeView::ConfirmingExit { title: confirm_title(), message: confirm_message() },
            ..self
        }
    }

    /// The session after a save that went well.
    pub open spec fn saved(self) -> AppView {
        AppView {
            dirty: false,
            status_message: saved_message(),
            status_color: StatusColor::Success,
            ..self
        }
    }

    /// The session after a save that failed for the reason in `message`: the
    /// reason is the status, and the changes are still unsaved.
    pub open spec fn save_failed(self, message: Seq<char>) -> AppView {
        AppView { status_message: message, status_color: StatusColor::Error, ..self }
    }

    /// The session after a key was pressed while editing.
    pub open spec fn edit_key(self, key: KeyEvent) -> AppView {
        match key.code {
            KeyCode::Left => self.move_left(),
            KeyCode::Right => self.move_right(),
            KeyCode::Up => self.move_up(),
            KeyCode::Down => self.move_down(),
            KeyCode::Char(c) => if c == 'q' && key.modifiers.control_only() {
                if self.dirty {
                    self.asking_exit()
                } else {
                    self
                }
            } else if c == 's' && key.modifiers.control_only() {
                self
            } else if key.modifiers.none() {
                AppView {
                    cursor_col: self.cursor_col + 1,
                    ..self.insert_char(self.cursor_row, self.cursor_col, c)
                }
            } else {
                self
            },
            KeyCode::Backspace => {
                let to = delete_backward_cursor(self.lines, self.cursor_row, self.cursor_col);
                AppView {
                    cursor_row: to.0,
                    cursor_col: to.1,
                    dirty: true,
                    ..self.delete_backward(self.cursor_row, self.cursor_col)
                }
            },
            KeyCode::Enter => {
                let to = split_line_cursor(self.cursor_row);
                AppView {
                    cursor_row: to.0,
                    cursor_col: to.1,
                    ..self.split_line(self.cursor_row, self.cursor_col)
                }
            },
            KeyCode::Other => self,
        }
    }

    /// The session after a key was pressed while the exit question stood:
    /// `n` takes the question away, every other key changes nothing.
    pub open spec fn confirm_key(self, key: KeyEvent) -> AppView {
        if key.code == KeyCode::Char('n') {
            AppView { mode: ModeView::Editing, ..self }
        } else {
            self
        }
    }

    /// The session after `event` was handled, before the viewport follows.
    pub open spec fn handle(self, event: InputEvent) -> AppView {
        match event.pressed() {
            None => self,
            Some(key) => match self.mode {
                ModeView::Editing => self.edit_key(key),
                ModeView::ConfirmingExit { .. } => self.confirm_key(key),
            },
        }
    }

    /// What the caller has to do after `event`.
    ///
    /// While editing, Ctrl+Q quits when nothing is unsaved, and Ctrl+S asks
    /// for a save. While the exit question stands, `y` quits. Nothing else
    /// asks anything of the caller.
    pub open spec fn action(self, event: InputEvent) -> Action {
        match event.pressed() {
            None => Action::Continue,
            Some(key) => match self.mode {
                ModeView::Editing => if key.code == KeyCode::Char('q')
                    && key.modifiers.control_only() {
                    if self.dirty {
                        Action::Continue
                    } else {
                        Action::Quit
                    }
                } else if key.code == KeyCode::Char('s') && key.modifiers.control_only() {
                    Action::Save
                } else {
                    Action::Continue
                },
                ModeView::ConfirmingExit { .. } => if key.code == KeyCode::Char('y') {
                    Action::Quit
                } else {
                    Action::Continue
                },
            },
        }
    }

    /// One turn of the session: `event` is handled, and unless that ends the
    /// session, the viewport follows the cursor in a window `height` rows
    /// tall.
    pub open spec fn step(self, event: InputEvent, height: int) -> AppView {
        if self.action(event) == Action::Quit {
            self
        } else {
            self.handle(event).reconcile_viewport(height)
        }
    }

    /// The session after a run of turns, each an event and the height of the
    /// window at that time.
    pub open spec fn run(self, turns: Seq<(InputEvent, int)>) -> AppView
        decreases turns.len(),
    {
        if turns.len() == 0 {
            self
        } else {
            self.run(turns.drop_last()).step(turns.last().0, turns.last().1)
        }
    }
}

/// A move keeps the cursor at a valid position of the unchanged document.
pub proof fn lemma_moves_keep_wf(s: AppView)
    requires
        s.wf(),
    ensures
        s.move_left().wf(),
        s.move_right().wf(),
        s.move_up().wf(),
        s.move_down().wf(),
        s.move_left().lines == s.lines,
        s.move_right().lines == s.lines,
        s.move_up().lines == s.lines,
        s.move_down().lines == s.lines,
{
}

/// After the viewport has followed the cursor, the cursor's row is inside
/// the window: at or below its first row and above the row after its last.
/// This holds for any scroll offset before, and any window that has a row.
pub proof fn lemma_reconcile_shows_cursor(s: AppView, height: int)
    requires
        height > 0,
    ensures
        s.reconcile_viewport(height).cursor_visible(height),
        s.reconcile_viewport(height).scroll_row <= s.reconcile_viewport(height).cursor_row
            < s.reconcile_viewport(height).scroll_row + height,
{
}

/// One turn keeps the session's invariant: whatever the event, the cursor's
/// row is a line of the document and its column lies within that line.
pub proof fn lemma_step_keeps_wf(s: AppView, event: InputEvent, height: int)
    requires
        s.wf(),
    ensures
        s.handle(event).wf(),
        s.step(event, height).wf(),
{
    lemma_moves_keep_wf(s);
    lemma_delete_backward_valid(s.lines, s.cursor_row, s.cursor_col);
    lemma_split_line_valid(s.lines, s.cursor_row, s.cursor_col);
    match event.pressed() {
        None => {},
        Some(key) => match key.code {
            KeyCode::Char(c) => {
                lemma_insert_char_valid(s.lines, s.cursor_row, s.cursor_col, c);
            },
            _ => {},
        },
    }
}

/// Any run of turns keeps the session's invariant: after every sequence of
/// moves and edits the cursor's row is a line of the document and its column
/// lies between the start of that line and the place after its last
/// character.
pub proof fn lemma_run_keeps_wf(s: AppView, turns: Seq<(InputEvent, int)>)
    requires
        s.wf(),
    ensures
        s.run(turns).wf(),
    decreases turns.len(),
{
    if turns.len() > 0 {
        lemma_run_keeps_wf(s, turns.drop_last());
        lemma_step_keeps_wf(s.run(turns.drop_last()), turns.last().0, turns.last().1);
    }
}

/// An event that ends the session changes nothing in it.
pub proof fn lemma_quit_changes_nothing(s: AppView, event: InputEvent)
    requires
        s.action(event) == Action::Quit,
    ensures
        s.handle(event) == s,
{
}

/// Ctrl+Q while editing: with nothing unsaved the session ends at once; with
/// unsaved changes it does not end, and the exit question is put instead,
/// with the document, the cursor and the unsaved mark as they were.
pub proof fn lemma_quit_asks_first(s: AppView, height: int)
    requires
        s.mode is Editing,
    ensures
        !s.dirty ==> s.action(InputEvent::ctrl('q')) == Action::Quit,
        s.dirty ==> s.action(InputEvent::ctrl('q')) == Action::Continue,
        s.dirty ==> s.step(InputEvent::ctrl('q'), height).mode == (ModeView::ConfirmingExit {
            title: confirm_title(),
            message: confirm_message(),
        }),
        s.step(InputEvent::ctrl('q'), height).lines == s.lines,
        s.step(InputEvent::ctrl('q'), height).dirty == s.dirty,
        s.step(InputEvent::ctrl('q'), height).cursor_row == s.cursor_row,
        s.step(InputEvent::ctrl('q'), height).cursor_col == s.cursor_col,
{
}

/// While the exit question stands, the session ends on the press of `y` and
/// on nothing else, goes back to editing on the press of `n` and on nothing
/// else, and keeps asking on every other event. No event in that time asks
/// for a save or touches the document, the cursor or the unsaved mark.
pub proof fn lemma_confirm_waits_for_answer(s: AppView, event: InputEvent, height: int)
    requires
        s.mode is ConfirmingExit,
    ensures
        s.action(event) == Action::Quit <==> event.pressed_code() == Some(KeyCode::Char('y')),
        s.action(event) != Action::Save,
        s.step(event, height).mode is Editing <==> event.pressed_code() == Some(
            KeyCode::Char('n'),
        ),
        event.pressed_code() != Some(KeyCode::Char('n')) ==> s.step(event, height).mode == s.mode,
        s.step(event, height).lines == s.lines,
        s.step(event, height).dirty == s.dirty,
        s.step(event, height).cursor_row == s.cursor_row,
        s.step(event, height).cursor_col == s.cursor_col,
{
}

/// The editor session in memory.
pub struct App {
    pub path: std::path::PathBuf,
    pub content: String,
    pub buffer: Vec<Vec<char>>,
    pub cursor_row: usize,
    pub cursor_col: usize,
    pub scroll_row: usize,
    pub scroll_col: usize,
    pub dirty: bool,
    pub mode: Mode,
    pub status_message: String,
    pub status_color: StatusColor,
}

impl View for App {
    type V = AppView;

    open spec fn view(&self) -> AppView {
        AppView {
            path: self.path,
            content: self.content@,
            lines: lines_view(self.buffer@),
            cursor_row: self.cursor_row as int,
            cursor_col: self.cursor_col as int,
            scroll_row: self.scroll_row as int,
            scroll_col: self.scroll_col as int,
            dirty: self.dirty,
            mode: self.mode@,
            status_message: self.status_message@,
            status_color: self.status_color,
        }
    }
}

impl App {
    /// The session's invariant, which every turn of the session keeps.
    pub open spec fn wf(&self) -> bool {
        self@.wf()
    }

    /// Tells whether the session's invariant holds. A caller that fills the
    /// fields by hand can ask before it calls a method that relies on it.
    pub fn well_formed(&self) -> (ok: bool)
        ensures
            ok == self.wf(),
    {
        self.cursor_row < self.buffer.len() && self.cursor_col
            <= self.buffer[self.cursor_row].len()
    }

    /// Puts `ch` into line `row` before column `col`, and marks the document
    /// as changed. The cursor stays where it is.
    pub fn insert_char(&mut self, row: usize, col: usize, ch: char)
        requires
            valid_position(old(self)@.lines, row as int, col as int),
        ensures
            final(self)@ == old(self)@.insert_char(row as int, col as int, ch),
    {
        self.dirty = true;
        self.buffer[row].insert(col, ch);
        assert(self@.lines =~= insert_char(old(self)@.lines, row as int, col as int, ch));
    }

    /// Deletes backward at `(row, col)` and returns where the cursor belongs
    /// afterwards. The cursor itself stays where it is.
    ///
    /// Inside a line the character before `col` goes. At the start of a line
    /// other than the first, the line is joined onto the end of the one
    /// above, and the cursor belongs where the two meet. At the very start of
    /// the document nothing happens.
    pub fn delete_backward(&mut self, row: usize, col: usize) -> (to: (usize, usize))
        requires
            valid_position(old(self)@.lines, row as int, col as int),
        ensures
            final(self)@ == old(self)@.delete_backward(row as int, col as int),
            (to.0 as int, to.1 as int) == delete_backward_cursor(
                old(self)@.lines,
                row as int,
                col as int,
            ),
    {
        if col > 0 {
            self.dirty = true;
            self.buffer[row].remove(col - 1);
            assert(self@.lines =~= delete_backward(old(self)@.lines, row as int, col as int));
            (row, col - 1)
        } else if row > 0 {
            self.dirty = true;
            let mut current = self.buffer.remove(row);
            let joint = self.buffer[row - 1].len();
            self.buffer[row - 1].append(&mut current);
            assert(self@.lines =~= delete_backward(old(self)@.lines, row as int, col as int));
            (row - 1, joint)
        } else {
            assert(self@.lines =~= old(self)@.lines);
            (row, col)
        }
    }

    /// Breaks line `row` at column `col` and returns where the cursor belongs
    /// afterwards: at the start of the new line. The cursor itself stays
    /// where it is.
    pub fn split_line(&mut self, row: usize, col: usize) -> (to: (usize, usize))
        requires
            valid_position(old(self)@.lines, row as int, col as int),
        ensures
            final(self)@ == old(self)@.split_line(row as int, col as int),
            (to.0 as int, to.1 as int) == split_line_cursor(row as int),
    {
        self.dirty = true;
        assert(row < self.buffer.len());
        let rest = self.buffer[row].split_off(col);
        self.buffer.insert(row + 1, rest);
        assert(self@.lines =~= split_line(old(self)@.lines, row as int, col as int));
        (row + 1, 0)
    }

    /// Moves the cursor one column to the left; at the start of a line it
    /// stays (it does not wrap to the line above).
    pub fn move_left(&mut self)
        requires
            old(self).wf(),
        ensures
            final(self)@ == old(self)@.move_left(),
            final(self).wf(),
    {
        if self.cursor_col > 0 {
            self.cursor_col -= 1;
        }
    }

    /// Moves the cursor one column to the right; after the last character of
    /// a line it stays (it does not wrap to the line below).
    pub fn move_right(&mut self)
        requires
            old(self).wf(),
        ensures
            final(self)@ == old(self)@.move_right(),
            final(self).wf(),
    {
        if self.cursor_col < self.buffer[self.cursor_row].len() {
            self.cursor_col += 1;
        }
    }

    /// Moves the cursor one line up and cuts its column down to the length of
    /// that line; on the first line it stays.
    pub fn move_up(&mut self)
        requires
            old(self).wf(),
        ensures
            final(self)@ == old(self)@.move_up(),
            final(self).wf(),
    {
        if self.cursor_row > 0 {
            self.cursor_row -= 1;
            let len = self.buffer[self.cursor_row].len();
            if self.cursor_col > len {
                self.cursor_col = len;
            }
        }
    }

    /// Moves the cursor one line down and cuts its column down to the length
    /// of that line; on the last line it stays.
    pub fn move_down(&mut self)
        requires
            old(self).wf(),
        ensures
            final(self)@ == old(self)@.move_down(),
            final(self).wf(),
    {
        assert(self.cursor_row < self.buffer.len());
        if self.cursor_row + 1 < self.buffer.len() {
            self.cursor_row += 1;
            let len = self.buffer[self.cursor_row].len();
            if self.cursor_col > len {
                self.cursor_col = len;
            }
        }
    }

    /// Scrolls by as little as brings the cursor's row into a window of
    /// `height` rows: up to the cursor when the cursor is above the window,
    /// down until the cursor is on the last row when it is below.
    ///
    /// Afterwards the cursor's row is in the window, whatever the scroll
    /// offset was before, provided the window has a row at all.
    pub fn reconcile_viewport(&mut self, height: usize)
        requires
            old(self).wf(),
        ensures
            final(self)@ == old(self)@.reconcile_viewport(height as int),
            final(self).wf(),
            height > 0 ==> final(self)@.cursor_visible(height as int),
    {
        assert(self.cursor_row < self.buffer.len());
        if self.cursor_row < self.scroll_row {
            self.scroll_row = self.cursor_row;
        } else if self.cursor_row - self.scroll_row >= height {
            self.scroll_row = self.cursor_row - height + 1;
        }
    }

    /// A fresh session on `path`: a document of one empty line, the cursor
    /// and the viewport at the origin, nothing unsaved, no question asked and
    /// no status to show.
    pub fn new(path: std::path::PathBuf) -> (app: App)
        ensures
            app@ == AppView::initial(path),
            app.wf(),
    {
        let mut buffer: Vec<Vec<char>> = Vec::new();
        buffer.push(Vec::new());
        let app = App {
            path,
            content: String::new(),
            buffer,
            cursor_row: 0,
            cursor_col: 0,
            scroll_row: 0,
            scroll_col: 0,
            dirty: false,
            mode: Mode::Editing,
            status_message: String::new(),
            status_color: StatusColor::Neutral,
        };
        assert(app@.lines =~= seq![Seq::<char>::empty()]);
        app
    }

    /// Opens the outcome of reading the session's file.
    ///
    /// Where the file was read, its text becomes the content. Where it was
    /// not, the session opens all the same, with the reason as its content
    /// behind the words `Error: `. The document is the content's lines; the
    /// cursor and the viewport go back to the origin, and nothing is unsaved.
    pub fn load_content(&mut self, read: Result<String, String>)
        ensures
            final(self)@ == old(self)@.opened(read_content(read)),
            final(self).wf(),
    {
        let content = match read {
            Ok(text) => text,
            Err(reason) => {
                let mut text = "Error: ".to_owned();
                text.append(reason.as_str());
                text
            },
        };
        self.buffer = load(content.as_str());
        self.content = content;
        self.cursor_row = 0;
        self.cursor_col = 0;
        self.scroll_row = 0;
        self.scroll_col = 0;
        self.dirty = false;
    }

    /// The text that the document is saved as: its lines with one line feed
    /// between each two neighbours and none after the last.
    pub fn serialize(&self) -> (text: String)
        ensures
            text@ == join_lines(self@.lines),
    {
        serialize(&self.buffer)
    }

    /// Takes in the outcome of the save that the caller was asked for.
    ///
    /// After a save that went well nothing is unsaved, and the status says
    /// so. After one that failed the status is the reason, and the changes
    /// are still unsaved.
    pub fn save_finished(&mut self, outcome: Result<(), String>)
        ensures
            outcome is Ok ==> final(self)@ == old(self)@.saved(),
            outcome matches Err(reason) ==> final(self)@ == old(self)@.save_failed(reason@),
            old(self).wf() ==> final(self).wf(),
    {
        match outcome {
            Ok(_) => {
                self.dirty = false;
                self.status_message = "Saved".to_owned();
                self.status_color = StatusColor::Success;
            },
            Err(reason) => {
                self.status_message = reason;
                self.status_color = StatusColor::Error;
            },
        }
    }

    /// Handles a key pressed while editing.
    fn handle_edit_key(&mut self, key: KeyEvent) -> (action: Action)
        requires
            old(self).wf(),
            old(self)@.mode is Editing,
            key.kind == KeyKind::Press,
        ensures
            final(self)@ == old(self)@.edit_key(key),
            action == old(self)@.action(InputEvent::Key(key)),
    {
        let row = self.cursor_row;
        let col = self.cursor_col;
        match key.code {
            KeyCode::Left => {
                self.move_left();
                Action::Continue
            },
            KeyCode::Right => {
                self.move_right();
                Action::Continue
            },
            KeyCode::Up => {
                self.move_up();
                Action::Continue
            },
            KeyCode::Down => {
                self.move_down();
                Action::Continue
            },
            KeyCode::Char(c) => {
                if c == 'q' && key.modifiers.is_control_only() {
                    if self.dirty {
                        self.mode = Mode::ConfirmingExit {
                            title: "Changes detected".to_owned(),
                            message: "Do you want to leave without saving?".to_owned(),
                        };
                        Action::Continue
                    } else {
                        Action::Quit
                    }
                } else if c == 's' && key.modifiers.is_control_only() {
                    Action::Save
                } else if key.modifiers.is_none() {
                    self.insert_char(row, col, c);
                    proof {
                        lemma_insert_char_valid(old(self)@.lines, row as int, col as int, c);
                        assert(col < self.buffer[row as int].len());
                    }
                    self.cursor_col = col + 1;
                    Action::Continue
                } else {
                    Action::Continue
                }
            },
            KeyCode::Backspace => {
                let to = self.delete_backward(row, col);
                self.dirty = true;
                self.cursor_row = to.0;
                self.cursor_col = to.1;
                Action::Continue
            },
            KeyCode::Enter => {
                let to = self.split_line(row, col);
                self.cursor_row = to.0;
                self.cursor_col = to.1;
                Action::Continue
            },
            KeyCode::Other => Action::Continue,
        }
    }

    /// Handles a key pressed while the exit question stands.
    fn handle_confirm_key(&mut self, key: KeyEvent) -> (action: Action)
        requires
            old(self)@.mode is ConfirmingExit,
            key.kind == KeyKind::Press,
        ensures
            final(self)@ == old(self)@.confirm_key(key),
            action == old(self)@.action(InputEvent::Key(key)),
    {
        match key.code {
            KeyCode::Char(c) => {
                if c == 'n' {
                    self.mode = Mode::Editing;
                    Action::Continue
                } else if c == 'y' {
                    Action::Quit
                } else {
                    Action::Continue
                }
            },
            _ => Action::Continue,
        }
    }

    /// Handles one event and says what the caller has to do. Only a key
    /// press does anything; which keys do what depends on the mode.
    pub fn handle_event(&mut self, event: InputEvent) -> (action: Action)
        requires
            old(self).wf(),
        ensures
            final(self)@ == old(self)@.handle(event),
            action == old(self)@.action(event),
            final(self).wf(),
    {
        proof {
            lemma_step_keeps_wf(self@, event, 0);
        }
        match event.pressed_key() {
            None => Action::Continue,
            Some(key) => {
                let editing = match &self.mode {
                    Mode::Editing => true,
                    Mode::ConfirmingExit { .. } => false,
                };
                if editing {
                    self.handle_edit_key(key)
                } else {
                    self.handle_confirm_key(key)
                }
            },
        }
    }

    /// One turn of the session's life: handles `event`, then lets the
    /// viewport follow the cursor in a window of `height` rows, and says what
    /// the caller has to do before the next turn. On `Action::Quit` the
    /// session is left as it was.
    pub fn life_cycle(&mut self, event: InputEvent, height: usize) -> (action: Action)
        requires
            old(self).wf(),
        ensures
            final(self)@ == old(self)@.step(event, height as int),
            action == old(self)@.action(event),
            final(self).wf(),
            height > 0 && action != Action::Quit ==> final(self)@.cursor_visible(height as int),
    {
        let action = self.handle_event(event);
        match action {
            Action::Quit => {
                proof {
                    lemma_quit_changes_nothing(old(self)@, event);
                }
            },
            _ => {
                self.reconcile_viewport(height);
            },
        }
        action
    }
}

} // verus!
