//! The document as a mathematical object: a sequence of lines, each a
//! sequence of characters, and the edits the editor makes to it.
//!
//! Every function here is a specification. The executable edits live on
//! `App`, whose contracts are stated in these terms.

use vstd::prelude::*;

verus! {

/// A document: its lines in order, without their terminators.
pub type Lines = Seq<Seq<char>>;

/// `(row, col)` names a place in `lines` where the cursor can stand: `row` is
/// a line of the document, and `col` lies between the start of that line and
/// the place after its last character.
pub open spec fn valid_position(lines: Lines, row: int, col: int) -> bool {
    &&& 0 <= row < lines.len()
    &&& 0 <= col <= lines[row].len()
}

/// The document after `ch` is put into line `row` before column `col`.
pub open spec fn insert_char(lines: Lines, row: int, col: int, ch: char) -> Lines {
    lines.update(row, lines[row].insert(col, ch))
}

/// The document after a backward delete at `(row, col)`.
///
/// Inside a line the character before `col` goes. At the start of a line
/// other than the first, the line is joined onto the end of the one above.
/// At the very start of the document nothing happens.
pub open spec fn delete_backward(lines: Lines, row: int, col: int) -> Lines {
    if col > 0 {
        lines.update(row, lines[row].remove(col - 1))
    } else if row > 0 {
        lines.update(row - 1, lines[row - 1] + lines[row]).remove(row)
    } else {
        lines
    }
}

/// Where the cursor stands after a backward delete at `(row, col)`.
pub open spec fn delete_backward_cursor(lines: Lines, row: int, col: int) -> (int, int) {
    if col > 0 {
        (row, col - 1)
    } else if row > 0 {
        (row - 1, lines[row - 1].len() as int)
    } else {
        (row, col)
    }
}

/// The document after line `row` is broken at column `col`: the line keeps
/// what stood before `col`, and the rest becomes a new line right below it.
pub open spec fn split_line(lines: Lines, row: int, col: int) -> Lines {
    lines.update(row, lines[row].subrange(0, col)).insert(
        row + 1,
        lines[row].subrange(col, lines[row].len() as int),
    )
}

/// Where the cursor stands after line `row` is broken: at the start of the
/// new line.
pub open spec fn split_line_cursor(row: int) -> (int, int) {
    (row + 1, 0)
}

/// An inserted character leaves every other line alone, keeps the number of
/// lines, and a position right after the new character is valid.
pub proof fn lemma_insert_char_valid(lines: Lines, row: int, col: int, ch: char)
    requires
        valid_position(lines, row, col),
    ensures
        insert_char(lines, row, col, ch).len() == lines.len(),
        insert_char(lines, row, col, ch)[row].len() == lines[row].len() + 1,
        valid_position(insert_char(lines, row, col, ch), row, col + 1),
{
}

/// A backward delete leaves the cursor at a valid position of the document
/// that it leaves behind, and that document still has a line.
pub proof fn lemma_delete_backward_valid(lines: Lines, row: int, col: int)
    requires
        valid_position(lines, row, col),
    ensures
        delete_backward(lines, row, col).len() >= 1,
        valid_position(
            delete_backward(lines, row, col),
            delete_backward_cursor(lines, row, col).0,
            delete_backward_cursor(lines, row, col).1,
        ),
{
}

/// Breaking a line adds one line, and leaves the cursor at a valid position.
pub proof fn lemma_split_line_valid(lines: Lines, row: int, col: int)
    requires
        valid_position(lines, row, col),
    ensures
        split_line(lines, row, col).len() == lines.len() + 1,
        valid_position(
            split_line(lines, row, col),
            split_line_cursor(row).0,
            split_line_cursor(row).1,
        ),
{
}

/// Inserting a character and then deleting backward from the place right
/// after it gives back the document as it was, with the cursor where the
/// character went in.
pub proof fn lemma_insert_then_delete(lines: Lines, row: int, col: int, ch: char)
    requires
        valid_position(lines, row, col),
    ensures
        delete_backward(insert_char(lines, row, col, ch), row, col + 1) == lines,
        delete_backward_cursor(insert_char(lines, row, col, ch), row, col + 1) == (row, col),
{
    let after = insert_char(lines, row, col, ch);
    assert(after[row].remove(col) =~= lines[row]);
    assert(delete_backward(after, row, col + 1) =~= lines);
}

/// Breaking a line and then deleting backward from the start of the new line
/// gives back the document as it was, line count included, with the cursor
/// where the line was broken.
pub proof fn lemma_split_then_merge(lines: Lines, row: int, col: int)
    requires
        valid_position(lines, row, col),
    ensures
        delete_backward(split_line(lines, row, col), row + 1, 0) == lines,
        delete_backward(split_line(lines, row, col), row + 1, 0).len() == lines.len(),
        delete_backward_cursor(split_line(lines, row, col), row + 1, 0) == (row, col),
{
    let after = split_line(lines, row, col);
    let line = lines[row];
    assert(after[row] =~= line.subrange(0, col));
    assert(after[row + 1] =~= line.subrange(col, line.len() as int));
    assert(after[row] + after[row + 1] =~= line);
    assert(delete_backward(after, row + 1, 0) =~= lines);
}

} // verus!
