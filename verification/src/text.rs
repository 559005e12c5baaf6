//! Lines and positions in a text.
//!
//! A text is a sequence of cells. The cell [`NEWLINE`] ends a line, so a text
//! with `n` such cells has `n + 1` lines, the last of which may be empty. An
//! *offset* counts cells from the start of the text; a *position* is a pair of
//! a line and a column, both counted from 1.

use vstd::prelude::*;

verus! {

/// The cell that ends a line.
pub const NEWLINE: char = '\n';

/// A line and a column, both counted from 1.
pub type Position = (usize, usize);

/// The number of line ends among the first `upto` cells of `text`.
pub open spec fn newlines_before(text: Seq<char>, upto: int) -> nat
    recommends
        0 <= upto <= text.len(),
    decreases upto,
{
    if upto <= 0 {
        0
    } else {
        newlines_before(text, upto - 1) + if text[upto - 1] == NEWLINE {
            1nat
        } else {
            0nat
        }
    }
}

/// The offset at which the line holding `offset` begins: the nearest offset at
/// or before `offset` that is 0 or follows a line end.
pub open spec fn line_start(text: Seq<char>, offset: int) -> int
    recommends
        0 <= offset <= text.len(),
    decreases offset,
{
    if offset <= 0 {
        0
    } else if text[offset - 1] == NEWLINE {
        offset
    } else {
        line_start(text, offset - 1)
    }
}

/// The offset at which the line holding `offset` ends: the nearest offset at or
/// after `offset` that is the end of the text or holds a line end.
pub open spec fn line_end(text: Seq<char>, offset: int) -> int
    recommends
        0 <= offset <= text.len(),
    decreases text.len() - offset,
{
    if offset >= text.len() {
        text.len() as int
    } else if offset >= 0 && text[offset] == NEWLINE {
        offset
    } else {
        line_end(text, offset + 1)
    }
}

/// The position of `offset`: one more than the line ends before it, and one
/// more than its distance from the start of its line.
pub open spec fn position_at(text: Seq<char>, offset: int) -> (int, int)
    recommends
        0 <= offset <= text.len(),
{
    (newlines_before(text, offset) as int + 1, offset - line_start(text, offset) + 1)
}

/// The offset at which line `line` begins. A text with fewer lines gives its
/// length, and every line below 1 counts as line 1.
pub open spec fn start_of_line(text: Seq<char>, line: int) -> int
    decreases line,
{
    if line <= 1 {
        0
    } else {
        let end = line_end(text, start_of_line(text, line - 1));
        if end >= text.len() {
            text.len() as int
        } else {
            end + 1
        }
    }
}

/// The offset that `position` names: the start of its line plus its column
/// less one, and never beyond the end of the text. A column below 1 counts as
/// column 1.
pub open spec fn offset_of(text: Seq<char>, position: (int, int)) -> int {
    let start = start_of_line(text, position.0);
    let within = if position.1 <= 1 {
        0
    } else {
        position.1 - 1
    };
    if start + within >= text.len() {
        text.len() as int
    } else {
        start + within
    }
}

/// The number of lines of `text`.
pub open spec fn line_total(text: Seq<char>) -> nat {
    newlines_before(text, text.len() as int) + 1
}

/// Line `line` of `text`, without its line end.
pub open spec fn line_text(text: Seq<char>, line: int) -> Seq<char>
    recommends
        1 <= line <= line_total(text),
{
    let start = start_of_line(text, line);
    text.subrange(start, line_end(text, start))
}

/// The lines of `text`, in order, each without its line end.
pub open spec fn split_lines(text: Seq<char>) -> Seq<Seq<char>> {
    Seq::new(line_total(text), |k: int| line_text(text, k + 1))
}

/// What `line_start` finds: an offset at or before the given one, which is 0
/// or follows a line end, with no line end between the two.
pub proof fn lemma_line_start(text: Seq<char>, offset: int)
    requires
        0 <= offset <= text.len(),
    ensures
        0 <= line_start(text, offset) <= offset,
        line_start(text, offset) == 0 || text[line_start(text, offset) - 1] == NEWLINE,
        forall|j: int| line_start(text, offset) <= j < offset ==> text[j] != NEWLINE,
    decreases offset,
{
    if offset > 0 && text[offset - 1] != NEWLINE {
        lemma_line_start(text, offset - 1);
    }
}

/// What `line_end` finds: an offset at or after the given one, which is the
/// end of the text or holds a line end, with no line end between the two.
pub proof fn lemma_line_end(text: Seq<char>, offset: int)
    requires
        0 <= offset <= text.len(),
    ensures
        offset <= line_end(text, offset) <= text.len(),
        line_end(text, offset) == text.len() || text[line_end(text, offset)] == NEWLINE,
        forall|j: int| offset <= j < line_end(text, offset) ==> text[j] != NEWLINE,
    decreases text.len() - offset,
{
    if offset < text.len() && text[offset] != NEWLINE {
        lemma_line_end(text, offset + 1);
    }
}

/// An offset that is 0 or follows a line end, with no line end between it and
/// a later offset, is where the line of the later offset begins.
pub proof fn lemma_line_start_unique(text: Seq<char>, offset: int, start: int)
    requires
        0 <= start <= offset <= text.len(),
        start == 0 || text[start - 1] == NEWLINE,
        forall|j: int| start <= j < offset ==> text[j] != NEWLINE,
    ensures
        line_start(text, offset) == start,
    decreases offset,
{
    if offset > start {
        lemma_line_start_unique(text, offset - 1, start);
    }
}

/// An offset that is the end of the text or holds a line end, with no line
/// end between an earlier offset and it, is where the line of the earlier
/// offset ends.
pub proof fn lemma_line_end_unique(text: Seq<char>, offset: int, end: int)
    requires
        0 <= offset <= end <= text.len(),
        end == text.len() || text[end] == NEWLINE,
        forall|j: int| offset <= j < end ==> text[j] != NEWLINE,
    ensures
        line_end(text, offset) == end,
    decreases end - offset,
{
    if offset < end {
        lemma_line_end_unique(text, offset + 1, end);
    }
}

/// Where no line end lies between two offsets, as many line ends lie before
/// the one as before the other.
pub proof fn lemma_newlines_before_same(text: Seq<char>, from: int, to: int)
    requires
        0 <= from <= to <= text.len(),
        forall|j: int| from <= j < to ==> text[j] != NEWLINE,
    ensures
        newlines_before(text, from) == newlines_before(text, to),
    decreases to - from,
{
    if from < to {
        lemma_newlines_before_same(text, from, to - 1);
    }
}

/// The line of an offset ends where the line of its line start ends, and is
/// the text between the two.
pub proof fn lemma_line_of_offset(text: Seq<char>, offset: int)
    requires
        0 <= offset <= text.len(),
    ensures
        line_end(text, line_start(text, offset)) == line_end(text, offset),
        line_text(text, position_at(text, offset).0) == text.subrange(
            line_start(text, offset),
            line_end(text, offset),
        ),
{
    lemma_line_start(text, offset);
    lemma_line_end(text, offset);
    lemma_line_end_unique(text, line_start(text, offset), line_end(text, offset));
    lemma_start_of_line_at(text, offset);
}

/// An offset lies on the first line exactly when its line starts at 0.
pub proof fn lemma_first_line(text: Seq<char>, offset: int)
    requires
        0 <= offset <= text.len(),
    ensures
        newlines_before(text, offset) == 0 <==> line_start(text, offset) == 0,
    decreases offset,
{
    if offset > 0 {
        lemma_first_line(text, offset - 1);
        lemma_line_start(text, offset - 1);
    }
}

/// The line that an offset is counted on begins where the offset's line
/// begins.
pub proof fn lemma_start_of_line_at(text: Seq<char>, offset: int)
    requires
        0 <= offset <= text.len(),
    ensures
        start_of_line(text, newlines_before(text, offset) as int + 1) == line_start(text, offset),
    decreases offset,
{
    if offset > 0 {
        lemma_start_of_line_at(text, offset - 1);
        if text[offset - 1] == NEWLINE {
            let previous = line_start(text, offset - 1);
            lemma_line_start(text, offset - 1);
            lemma_line_end_unique(text, previous, offset - 1);
        }
    }
}

/// Mapping an offset to its position and back gives the offset again.
pub proof fn lemma_offset_of_position_at(text: Seq<char>, offset: int)
    requires
        0 <= offset <= text.len(),
    ensures
        offset_of(text, position_at(text, offset)) == offset,
{
    lemma_start_of_line_at(text, offset);
    lemma_line_start(text, offset);
}

/// The offset that a position names lies within the text.
pub proof fn lemma_offset_of_bounds(text: Seq<char>, position: (int, int))
    ensures
        0 <= offset_of(text, position) <= text.len(),
{
    lemma_start_of_line_bounds(text, position.0);
}

/// Every line begins within the text.
pub proof fn lemma_start_of_line_bounds(text: Seq<char>, line: int)
    ensures
        0 <= start_of_line(text, line) <= text.len(),
    decreases line,
{
    if line > 1 {
        lemma_start_of_line_bounds(text, line - 1);
        lemma_line_end(text, start_of_line(text, line - 1));
    }
}

/// Once a line starts at the end of the text, so does every later line.
pub proof fn lemma_start_of_line_saturates(text: Seq<char>, line: int, later: int)
    requires
        line <= later,
        start_of_line(text, line) == text.len(),
    ensures
        start_of_line(text, later) == text.len(),
    decreases later - line,
{
    if line < later {
        lemma_start_of_line_saturates(text, line, later - 1);
    }
}

/// The text whose lines are `lines`: the lines one after another, with a line
/// end between each two.
pub open spec fn join_lines(lines: Seq<Seq<char>>) -> Seq<char>
    decreases lines.len(),
{
    if lines.len() == 0 {
        Seq::empty()
    } else if lines.len() == 1 {
        lines[0]
    } else {
        join_lines(lines.drop_last()) + seq![NEWLINE] + lines.last()
    }
}

/// Cutting a text off at an offset changes nothing about the number of line
/// ends before an earlier offset.
proof fn lemma_newlines_before_prefix(text: Seq<char>, cut: int, offset: int)
    requires
        0 <= offset <= cut <= text.len(),
    ensures
        newlines_before(text.subrange(0, cut), offset) == newlines_before(text, offset),
    decreases offset,
{
    if offset > 0 {
        lemma_newlines_before_prefix(text, cut, offset - 1);
    }
}

/// A line that the text has begins behind as many line ends as there are
/// lines before it, and begins at the start of the text or behind a line end.
pub proof fn lemma_start_of_line(text: Seq<char>, line: int)
    requires
        1 <= line <= line_total(text),
    ensures
        0 <= start_of_line(text, line) <= text.len(),
        newlines_before(text, start_of_line(text, line)) == line - 1,
        line_start(text, start_of_line(text, line)) == start_of_line(text, line),
    decreases line,
{
    if line > 1 {
        lemma_start_of_line(text, line - 1);
        let previous = start_of_line(text, line - 1);
        let end = line_end(text, previous);
        lemma_line_end(text, previous);
        lemma_newlines_before_same(text, previous, end);
    }
}

/// The lines of a text behind whose last line end a last line follows are the
/// lines of the text before that line end, and that last line.
proof fn lemma_split_last_line(text: Seq<char>)
    requires
        line_start(text, text.len() as int) > 0,
    ensures
        ({
            let start = line_start(text, text.len() as int);
            split_lines(text) == split_lines(text.subrange(0, start - 1)).push(
                text.subrange(start, text.len() as int),
            )
        }),
{
    let len = text.len() as int;
    let start = line_start(text, len);
    let before = text.subrange(0, start - 1);
    lemma_line_start(text, len);
    lemma_newlines_before_same(text, start, len);
    lemma_newlines_before_prefix(text, start - 1, start - 1);
    lemma_line_of_offset(text, len);
    assert forall|line: int| 1 <= line <= line_total(before) implies #[trigger] line_text(
        before,
        line,
    ) == line_text(text, line) by {
        lemma_start_of_line_prefix(text, start - 1, line);
        lemma_start_of_line(before, line);
        let line_begins = start_of_line(text, line);
        lemma_line_end_prefix(text, start - 1, line_begins);
        lemma_line_end(before, line_begins);
        assert(line_text(before, line) =~= line_text(text, line));
    }
    assert(split_lines(text) =~= split_lines(before).push(text.subrange(start, len)));
}

/// Cutting a text off at a line end changes nothing about where the lines
/// before that line end begin.
proof fn lemma_start_of_line_prefix(text: Seq<char>, cut: int, line: int)
    requires
        0 <= cut < text.len(),
        text[cut] == NEWLINE,
        1 <= line <= line_total(text.subrange(0, cut)),
    ensures
        start_of_line(text.subrange(0, cut), line) == start_of_line(text, line),
    decreases line,
{
    if line > 1 {
        let before = text.subrange(0, cut);
        lemma_start_of_line_prefix(text, cut, line - 1);
        lemma_start_of_line(before, line - 1);
        lemma_start_of_line(before, line);
        let previous = start_of_line(before, line - 1);
        lemma_line_end(before, previous);
        lemma_line_end_prefix(text, cut, previous);
        lemma_newlines_before_same(before, previous, line_end(before, previous));
    }
}

/// Cutting a text off at a line end changes nothing about where the lines
/// before that line end end.
proof fn lemma_line_end_prefix(text: Seq<char>, cut: int, offset: int)
    requires
        0 <= offset <= cut < text.len(),
        text[cut] == NEWLINE,
    ensures
        line_end(text, offset) == line_end(text.subrange(0, cut), offset),
{
    let before = text.subrange(0, cut);
    let end = line_end(before, offset);
    lemma_line_end(before, offset);
    assert forall|j: int| offset <= j < end implies text[j] != NEWLINE by {
        assert(before[j] == text[j]);
    }
    assert(end < cut ==> before[end] == text[end]);
    lemma_line_end_unique(text, offset, end);
}

/// Splitting a text into lines cuts it at its line ends: the text has one
/// line more than line ends, no line holds a line end, and the lines, with a
/// line end between each two, make up the text.
pub proof fn lemma_split_lines(text: Seq<char>)
    ensures
        split_lines(text).len() == newlines_before(text, text.len() as int) + 1,
        forall|k: int, j: int|
            0 <= k < split_lines(text).len() && 0 <= j < split_lines(text)[k].len()
                ==> #[trigger] split_lines(text)[k][j] != NEWLINE,
        join_lines(split_lines(text)) == text,
    decreases text.len(),
{
    let len = text.len() as int;
    let start = line_start(text, len);
    lemma_line_start(text, len);
    assert forall|k: int, j: int|
        0 <= k < split_lines(text).len() && 0 <= j < split_lines(text)[k].len()
        implies #[trigger] split_lines(text)[k][j] != NEWLINE by {
        lemma_start_of_line(text, k + 1);
        lemma_line_end(text, start_of_line(text, k + 1));
    }
    if start <= 0 {
        lemma_first_line(text, len);
        lemma_line_of_offset(text, len);
        assert(split_lines(text)[0] =~= text);
    } else {
        let before = text.subrange(0, start - 1);
        lemma_split_last_line(text);
        lemma_split_lines(before);
        assert(split_lines(text).drop_last() =~= split_lines(before));
        assert(text =~= before + seq![NEWLINE] + text.subrange(start, len));
    }
}

/// Counts the line ends among the first `upto` cells of `text`.
pub fn count_newlines(text: &Vec<char>, upto: usize) -> (count: usize)
    requires
        upto <= text.len(),
    ensures
        count == newlines_before(text@, upto as int),
        count <= upto,
{
    let mut count: usize = 0;
    let mut i: usize = 0;
    while i < upto
        invariant
            i <= upto <= text.len(),
            count == newlines_before(text@, i as int),
            count <= i,
        decreases upto - i,
    {
        if text[i] == NEWLINE {
            count = count + 1;
        }
        i = i + 1;
    }
    count
}

/// Finds where the line holding `offset` begins.
pub fn find_line_start(text: &Vec<char>, offset: usize) -> (start: usize)
    requires
        offset <= text.len(),
    ensures
        start == line_start(text@, offset as int),
        start <= offset,
{
    let mut start: usize = offset;
    while start > 0 && text[start - 1] != NEWLINE
        invariant
            start <= offset <= text.len(),
            line_start(text@, start as int) == line_start(text@, offset as int),
        decreases start,
    {
        start = start - 1;
    }
    proof {
        lemma_line_start(text@, offset as int);
    }
    start
}

/// Finds where the line holding `offset` ends.
pub fn find_line_end(text: &Vec<char>, offset: usize) -> (end: usize)
    requires
        offset <= text.len(),
    ensures
        end == line_end(text@, offset as int),
        offset <= end <= text.len(),
{
    let mut end: usize = offset;
    while end < text.len() && text[end] != NEWLINE
        invariant
            offset <= end <= text.len(),
            line_end(text@, end as int) == line_end(text@, offset as int),
        decreases text.len() - end,
    {
        end = end + 1;
    }
    end
}

/// Maps an offset to its position.
pub fn position_of_offset(text: &Vec<char>, offset: usize) -> (position: Position)
    requires
        offset <= text.len(),
        text.len() < usize::MAX,
    ensures
        (position.0 as int, position.1 as int) == position_at(text@, offset as int),
{
    let line: usize = count_newlines(text, offset) + 1;
    let start: usize = find_line_start(text, offset);
    (line, offset - start + 1)
}

/// Finds where line `line` begins; the end of the text where it has fewer
/// lines.
pub fn find_start_of_line(text: &Vec<char>, line: usize) -> (start: usize)
    ensures
        start == start_of_line(text@, line as int),
        start <= text.len(),
{
    if line <= 1 {
        return 0;
    }
    let mut start: usize = 0;
    let mut current: usize = 1;
    while current < line && start < text.len()
        invariant
            1 <= current <= line,
            start <= text.len(),
            start == start_of_line(text@, current as int),
        decreases line - current,
    {
        let end: usize = find_line_end(text, start);
        if end >= text.len() {
            start = text.len();
        } else {
            start = end + 1;
        }
        current = current + 1;
    }
    proof {
        if current < line {
            lemma_start_of_line_saturates(text@, current as int, line as int);
        }
    }
    start
}

/// Maps a position to the offset that it names.
pub fn offset_of_position(text: &Vec<char>, position: Position) -> (offset: usize)
    ensures
        offset == offset_of(text@, (position.0 as int, position.1 as int)),
        offset <= text.len(),
{
    let start: usize = find_start_of_line(text, position.0);
    let within: usize = if position.1 <= 1 {
        0
    } else {
        position.1 - 1
    };
    if within >= text.len() - start {
        text.len()
    } else {
        start + within
    }
}

/// Splits a text into its lines.
pub fn split_into_lines(text: &Vec<char>) -> (lines: Vec<Vec<char>>)
    ensures
        lines.deep_view() == split_lines(text@),
{
    let mut lines: Vec<Vec<char>> = Vec::new();
    let mut current: Vec<char> = Vec::new();
    let mut i: usize = 0;
    while i < text.len()
        invariant
            i <= text.len(),
            lines@.len() == newlines_before(text@, i as int),
            forall|k: int|
                0 <= k < lines@.len() ==> (#[trigger] lines@[k])@ == line_text(text@, k + 1),
            current@ == text@.subrange(line_start(text@, i as int), i as int),
        decreases text.len() - i,
    {
        proof {
            lemma_line_start(text@, i as int);
            lemma_start_of_line_at(text@, i as int);
        }
        if text[i] == NEWLINE {
            proof {
                lemma_line_end_unique(text@, line_start(text@, i as int), i as int);
            }
            lines.push(current);
            current = Vec::new();
        } else {
            current.push(text[i]);
        }
        i = i + 1;
    }
    proof {
        let end = text@.len() as int;
        lemma_line_start(text@, end);
        lemma_start_of_line_at(text@, end);
        lemma_line_end_unique(text@, line_start(text@, end), end);
    }
    lines.push(current);
    proof {
        assert forall|k: int| 0 <= k < lines@.len() implies lines.deep_view()[k] == split_lines(
            text@,
        )[k] by {
            assert(lines.deep_view()[k] == lines@[k]@);
        }
    }
    lines
}

} // verus!
