//! Between text and lines: how a file's text becomes the document's lines,
//! and how the lines become text again.

use crate::document::Lines;
use vstd::prelude::*;

verus! {

/// `String::push` of the standard library, which vstd leaves unspecified.
/// Its documentation says that it appends the given character to the end of
/// the string; the contract says that of the string's characters, and
/// nothing else.
pub assume_specification[ String::push ](s: &mut String, ch: char)
    ensures
        final(s)@ == old(s)@.push(ch),
;

/// The lines that a buffer in memory holds.
pub open spec fn lines_view(buffer: Seq<Vec<char>>) -> Lines {
    Seq::new(buffer.len(), |i: int| buffer[i]@)
}

/// The number of characters of `text` before its first line feed, or its
/// length if it holds none.
pub open spec fn line_end(text: Seq<char>) -> int
    decreases text.len(),
{
    if text.len() == 0 || text[0] == '\n' {
        0
    } else {
        1 + line_end(text.drop_first())
    }
}

/// `line` without the carriage return at its end, if it ends in one.
pub open spec fn strip_cr(line: Seq<char>) -> Seq<char> {
    if line.len() > 0 && line.last() == '\r' {
        line.drop_last()
    } else {
        line
    }
}

/// The lines of `text`.
///
/// A line ends at a line feed, or at a carriage return directly followed by
/// one; neither belongs to the line. The last line needs no terminator, so a
/// terminator at the very end of the text starts no further line, and the
/// empty text has no lines at all.
pub open spec fn split_lines(text: Seq<char>) -> Lines
    decreases text.len(),
{
    let end = line_end(text);
    if text.len() == 0 {
        Seq::empty()
    } else if 0 <= end < text.len() {
        seq![strip_cr(text.take(end))] + split_lines(text.skip(end + 1))
    } else {
        seq![text]
    }
}

/// The document that `text` is opened as: its lines, or one empty line where
/// it has none, so that a document always has a line for the cursor.
pub open spec fn load_lines(text: Seq<char>) -> Lines {
    if text.len() == 0 {
        seq![Seq::empty()]
    } else {
        split_lines(text)
    }
}

/// The text that a document is saved as: its lines with one line feed
/// between each two neighbours, and none after the last.
pub open spec fn join_lines(lines: Lines) -> Seq<char>
    decreases lines.len(),
{
    if lines.len() == 0 {
        Seq::empty()
    } else if lines.len() == 1 {
        lines[0]
    } else {
        join_lines(lines.drop_last()) + seq!['\n'] + lines.last()
    }
}

/// `line_end` is the first place where a line feed stands.
pub proof fn lemma_line_end(text: Seq<char>, k: int)
    requires
        0 <= k <= text.len(),
        forall|j: int| 0 <= j < k ==> text[j] != '\n',
        k == text.len() || text[k] == '\n',
    ensures
        line_end(text) == k,
    decreases k,
{
    if k > 0 {
        lemma_line_end(text.drop_first(), k - 1);
    }
}

/// A text that is not empty has a line, and so every document that is opened
/// has one.
pub proof fn lemma_load_lines_nonempty(text: Seq<char>)
    ensures
        load_lines(text).len() >= 1,
        text.len() > 0 ==> split_lines(text).len() >= 1,
{
}

/// Splits `text` into the lines of the document that it is opened as.
pub fn load(text: &str) -> (buffer: Vec<Vec<char>>)
    ensures
        lines_view(buffer@) == load_lines(text@),
        buffer@.len() >= 1,
{
    let mut buffer: Vec<Vec<char>> = Vec::new();
    let mut current: Vec<char> = Vec::new();
    proof {
        assert(text@.skip(0) =~= text@);
        assert(lines_view(buffer@) + split_lines(text@) =~= split_lines(text@));
    }
    for c in it: text.chars()
        invariant
            it.seq() == text@,
            current@.len() <= it.index(),
            current@ == text@.subrange(it.index() - current@.len(), it.index() as int),
            forall|j: int| 0 <= j < current@.len() ==> current@[j] != '\n',
            split_lines(text@) == lines_view(buffer@) + split_lines(
                text@.skip(it.index() - current@.len()),
            ),
    {
        let ghost start = it.index() - current@.len();
        let ghost rest = text@.skip(start);
        if c == '\n' {
            proof {
                assert(rest.take(current@.len() as int) =~= current@);
                assert(rest.skip(current@.len() as int + 1) =~= text@.skip(it.index() as int + 1));
                lemma_line_end(rest, current@.len() as int);
            }
            let n = current.len();
            if n > 0 && current[n - 1] == '\r' {
                current.pop();
            }
            proof {
                assert(current@ =~= strip_cr(rest.take(line_end(rest))));
                assert(lines_view(buffer@.push(current)) =~= lines_view(buffer@) + seq![current@]);
            }
            buffer.push(current);
            current = Vec::new();
            proof {
                assert(current@ =~= text@.subrange(it.index() + 1, it.index() + 1));
            }
        } else {
            current.push(c);
            proof {
                assert(current@ =~= text@.subrange(start, it.index() + 1));
            }
        }
    }
    proof {
        let rest = text@.skip(text@.len() - current@.len());
        assert(rest =~= current@);
        lemma_line_end(rest, rest.len() as int);
    }
    if current.len() > 0 {
        proof {
            assert(lines_view(buffer@.push(current)) =~= lines_view(buffer@) + seq![current@]);
        }
        buffer.push(current);
    } else {
        proof {
            assert(lines_view(buffer@) + Seq::<Seq<char>>::empty() =~= lines_view(buffer@));
        }
    }
    proof {
        lemma_load_lines_nonempty(text@);
    }
    if buffer.len() == 0 {
        buffer.push(Vec::new());
        proof {
            assert(lines_view(buffer@) =~= seq![Seq::<char>::empty()]);
        }
    }
    buffer
}

/// Appends the characters of `line` to `text`.
pub fn push_line(text: &mut String, line: &Vec<char>)
    ensures
        final(text)@ == old(text)@ + line@,
{
    let ghost before = text@;
    let mut col: usize = 0;
    proof {
        assert(before + line@.take(0) =~= before);
    }
    while col < line.len()
        invariant
            col <= line.len(),
            text@ == before + line@.take(col as int),
        decreases line.len() - col,
    {
        text.push(line[col]);
        col += 1;
        proof {
            assert(before + line@.take(col as int) =~= (before + line@.take(col - 1)).push(
                line@[col - 1],
            ));
        }
    }
    proof {
        assert(line@.take(line@.len() as int) =~= line@);
    }
}

/// The characters of `line` as a string.
pub fn line_text(line: &Vec<char>) -> (text: String)
    ensures
        text@ == line@,
{
    let mut text = String::new();
    push_line(&mut text, line);
    proof {
        assert(Seq::<char>::empty() + line@ =~= line@);
    }
    text
}

/// Joins the lines of `buffer` into the text that the document is saved as.
pub fn serialize(buffer: &Vec<Vec<char>>) -> (text: String)
    ensures
        text@ == join_lines(lines_view(buffer@)),
{
    let ghost lines = lines_view(buffer@);
    let mut text = String::new();
    let mut row: usize = 0;
    while row < buffer.len()
        invariant
            row <= buffer.len(),
            lines == lines_view(buffer@),
            text@ == join_lines(lines.take(row as int)),
        decreases buffer.len() - row,
    {
        if row > 0 {
            text.push('\n');
        }
        let ghost before = text@;
        push_line(&mut text, &buffer[row]);
        proof {
            let upto = lines.take(row + 1);
            assert(upto.drop_last() =~= lines.take(row as int));
            assert(upto.last() == buffer@[row as int]@);
            if row == 0 {
                assert(before + buffer@[row as int]@ =~= buffer@[row as int]@);
            }
        }
        row += 1;
    }
    proof {
        assert(lines.take(buffer@.len() as int) =~= lines);
    }
    text
}

} // verus!
