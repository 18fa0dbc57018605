//! A line-oriented text buffer with a cursor.

use vstd::prelude::*;

verus! {

/// The mathematical content of a buffer: its lines, and the cursor as a line
/// index and a raw column. The raw column may lie beyond the end of the
/// cursor's line; readers use [`TextState::column_in_line`].
pub struct TextState {
    pub lines: Seq<Seq<char>>,
    pub line: int,
    pub column: int,
}

impl TextState {
    /// A buffer always holds at least one line, and the cursor is on one of
    /// its lines.
    pub open spec fn wf(self) -> bool {
        &&& self.lines.len() >= 1
        &&& 0 <= self.line < self.lines.len()
        &&& 0 <= self.column
    }

    /// The line the cursor is on.
    pub open spec fn current(self) -> Seq<char> {
        self.lines[self.line]
    }

    /// The column brought back into the cursor's line.
    pub open spec fn column_in_line(self) -> int {
        if self.column >= self.current().len() {
            self.current().len() as int
        } else {
            self.column
        }
    }

    /// The same lines with the cursor at `(line, column)`.
    pub open spec fn cursor_at(self, line: int, column: int) -> TextState {
        TextState { lines: self.lines, line, column }
    }

    /// The cursor's column set to the end of its line.
    pub open spec fn snapped_to_end(self) -> TextState {
        self.cursor_at(self.line, self.current().len() as int)
    }

    /// The cursor's column set to zero.
    pub open spec fn snapped_to_start(self) -> TextState {
        self.cursor_at(self.line, 0)
    }

    /// The raw column replaced by the column within the line.
    pub open spec fn clamped(self) -> TextState {
        self.cursor_at(self.line, self.column_in_line())
    }

    /// The cursor `n` lines up, stopping at the first line; the raw column is
    /// kept.
    pub open spec fn moved_up(self, n: int) -> TextState {
        self.cursor_at(if self.line < n { 0 } else { self.line - n }, self.column)
    }

    /// The cursor `n` lines down, stopping at the last line; the raw column is
    /// kept.
    pub open spec fn moved_down(self, n: int) -> TextState {
        self.cursor_at(
            if self.line + n >= self.lines.len() {
                self.lines.len() - 1
            } else {
                self.line + n
            },
            self.column,
        )
    }

    /// The cursor `n` columns to the right within its line. From the end of
    /// a line (or beyond it) the cursor goes to the start of the next line
    /// instead, once, whatever `n` is; from the end of the last line it stays.
    /// The raw column stops at the largest value a `usize` holds.
    pub open spec fn moved_right(self, n: int) -> TextState {
        if self.column >= self.current().len() {
            if self.line == self.lines.len() - 1 {
                self
            } else {
                self.cursor_at(self.line + 1, 0)
            }
        } else if self.column + n > usize::MAX {
            self.cursor_at(self.line, usize::MAX as int)
        } else {
            self.cursor_at(self.line, self.column + n)
        }
    }

    /// The cursor `n` columns to the left of its column within the line. With
    /// fewer than `n` columns to its left the cursor goes to the end of the
    /// line above instead, once, whatever `n` is (on the first line: to the
    /// end of that line); at the start of the document it stays.
    pub open spec fn moved_left(self, n: int) -> TextState {
        let s = self.clamped();
        if s.column == 0 && s.line == 0 {
            s
        } else if s.column < n {
            s.moved_up(1).snapped_to_end()
        } else {
            s.cursor_at(s.line, s.column - n)
        }
    }

    /// The cursor at the position nearest to `(line, column)`: a line beyond
    /// the last one gives the end of the last line, a column beyond the end
    /// of its line gives the end of that line.
    pub open spec fn with_cursor(self, line: int, column: int) -> TextState {
        if line >= self.lines.len() {
            self.cursor_at(self.lines.len() - 1, self.lines.last().len() as int)
        } else if column > self.lines[line].len() {
            self.cursor_at(line, self.lines[line].len() as int)
        } else {
            self.cursor_at(line, column)
        }
    }

    /// An empty line added below the cursor's line, the cursor at its start.
    pub open spec fn with_new_line(self) -> TextState {
        TextState {
            lines: self.lines.insert(self.line + 1, Seq::empty()),
            line: self.line + 1,
            column: 0,
        }
    }

    /// The cursor's line split at the cursor: what stands before it stays,
    /// what stands from it on becomes the next line, and the cursor goes to
    /// the start of that line. At or beyond the end of the line this adds an
    /// empty line.
    pub open spec fn broken(self) -> TextState {
        if self.column >= self.current().len() {
            self.with_new_line()
        } else {
            TextState {
                lines: self.lines.update(self.line, self.current().take(self.column)).insert(
                    self.line + 1,
                    self.current().skip(self.column),
                ),
                line: self.line + 1,
                column: 0,
            }
        }
    }

    /// The character before the cursor deleted. At the start of a line the
    /// line is joined to the one above and the cursor stands at the joint; at
    /// the start of the document nothing is deleted.
    pub open spec fn backspaced(self) -> TextState {
        let s = self.clamped();
        if s.column == 0 && s.line == 0 {
            s
        } else if s.column == 0 {
            TextState {
                lines: s.lines.update(s.line - 1, s.lines[s.line - 1] + s.current()).remove(
                    s.line,
                ),
                line: s.line - 1,
                column: s.lines[s.line - 1].len() as int,
            }
        } else {
            TextState {
                lines: s.lines.update(s.line, s.current().remove(s.column - 1)),
                line: s.line,
                column: s.column - 1,
            }
        }
    }

    /// The lines `i` and `i + 1` exchanged.
    pub open spec fn exchanged(lines: Seq<Seq<char>>, i: int) -> Seq<Seq<char>> {
        lines.update(i, lines[i + 1]).update(i + 1, lines[i])
    }

    /// The cursor's line exchanged with the line above, the cursor going
    /// with it; on the first line nothing changes.
    pub open spec fn line_moved_up(self) -> TextState {
        if self.line == 0 {
            self
        } else {
            TextState {
                lines: Self::exchanged(self.lines, self.line - 1),
                line: self.line - 1,
                column: self.column,
            }
        }
    }

    /// The cursor's line exchanged with the line below, the cursor going
    /// with it; on the last line nothing changes.
    pub open spec fn line_moved_down(self) -> TextState {
        if self.line >= self.lines.len() - 1 {
            self
        } else {
            TextState {
                lines: Self::exchanged(self.lines, self.line),
                line: self.line + 1,
                column: self.column,
            }
        }
    }

    /// `text` put into the cursor's line at the cursor, which stays before
    /// it.
    pub open spec fn spliced(self, text: Seq<char>) -> TextState {
        let s = self.clamped();
        TextState {
            lines: s.lines.update(
                s.line,
                s.current().take(s.column) + text + s.current().skip(s.column),
            ),
            line: s.line,
            column: s.column,
        }
    }

    /// `text` inserted at the cursor, and the cursor then moved right by the
    /// length of `text` in one step.
    pub open spec fn inserted(self, text: Seq<char>) -> TextState {
        self.spliced(text).moved_right(text.len() as int)
    }
}

/// Every edit and every move of the cursor gives a well-formed state again:
/// the buffer never runs out of lines, and the cursor stays on one of them.
pub proof fn lemma_operations_keep_well_formed(
    s: TextState,
    n: int,
    line: int,
    column: int,
    text: Seq<char>,
)
    requires
        s.wf(),
        0 <= n,
        0 <= line,
        0 <= column,
    ensures
        s.clamped().wf(),
        s.snapped_to_end().wf(),
        s.snapped_to_start().wf(),
        s.moved_up(n).wf(),
        s.moved_down(n).wf(),
        s.moved_right(n).wf(),
        s.moved_left(n).wf(),
        s.with_cursor(line, column).wf(),
        s.with_new_line().wf(),
        s.broken().wf(),
        s.backspaced().wf(),
        s.line_moved_up().wf(),
        s.line_moved_down().wf(),
        s.inserted(text).wf(),
{
}

/// Splitting a line and then deleting backwards undoes the split: the lines
/// are what they were, and the cursor is where it was within its line,
/// wherever in the line it stood.
pub proof fn lemma_break_then_backspace(s: TextState)
    requires
        s.wf(),
    ensures
        s.broken().backspaced() == s.clamped(),
        s.broken().backspaced().lines == s.lines,
{
    let b = s.broken();
    let r = b.backspaced();
    if s.column >= s.current().len() {
        assert(s.current() + Seq::<char>::empty() =~= s.current());
        assert(r.lines =~= s.lines);
    } else {
        assert(s.current().take(s.column) + s.current().skip(s.column) =~= s.current());
        assert(r.lines =~= s.lines);
    }
}

/// Asking for a line beyond the last one puts the cursor at the end of the
/// last line, whatever column is asked for; and asking for the position the
/// cursor then has changes nothing more.
pub proof fn lemma_set_cursor_beyond_last_line(s: TextState, line: int, column: int)
    requires
        s.wf(),
        line >= s.lines.len(),
    ensures
        s.with_cursor(line, column).lines == s.lines,
        s.with_cursor(line, column).line == s.lines.len() - 1,
        s.with_cursor(line, column).column == s.lines.last().len(),
        ({
            let t = s.with_cursor(line, column);
            t.with_cursor(t.line, t.column) == t
        }),
{
}

/// Moving a line down and then up again, from any line but the last, leaves
/// the lines and the cursor as they were.
pub proof fn lemma_line_down_then_up(s: TextState)
    requires
        s.wf(),
        s.line < s.lines.len() - 1,
    ensures
        s.line_moved_down().line == s.line + 1,
        s.line_moved_down().line_moved_up() == s,
{
    assert(s.line_moved_down().line_moved_up().lines =~= s.lines);
}

/// The length of the longest of `lines`; zero where there is no line.
pub open spec fn longest(lines: Seq<Seq<char>>) -> nat
    decreases lines.len(),
{
    if lines.len() == 0 {
        0
    } else if lines.last().len() > longest(lines.drop_last()) {
        lines.last().len()
    } else {
        longest(lines.drop_last())
    }
}

/// Whether `n` is the length of the longest of `lines`: no line is
/// longer, and one line is that long.
pub open spec fn is_longest(lines: Seq<Seq<char>>, n: int) -> bool {
    &&& forall|i: int| 0 <= i < lines.len() ==> (#[trigger] lines[i]).len() <= n
    &&& exists|i: int| 0 <= i < lines.len() && (#[trigger] lines[i]).len() == n
}

/// Where there is a line, no line is longer than the longest, and one line
/// is as long.
pub proof fn lemma_longest_is_longest(lines: Seq<Seq<char>>)
    requires
        lines.len() > 0,
    ensures
        is_longest(lines, longest(lines) as int),
    decreases lines.len(),
{
    let n = longest(lines) as int;
    let rest = lines.drop_last();
    let last = lines.len() - 1;
    if rest.len() > 0 {
        lemma_longest_is_longest(rest);
        assert forall|i: int| 0 <= i < lines.len() implies (#[trigger] lines[i]).len() <= n by {
            if i < last {
                assert(rest[i] == lines[i]);
            }
        }
        if lines.last().len() > longest(rest) {
            assert(lines[last].len() == n);
        } else {
            let k = choose|k: int|
                0 <= k < rest.len() && (#[trigger] rest[k]).len() == longest(rest);
            assert(lines[k] == rest[k]);
            assert(lines[k].len() == n);
        }
    } else {
        assert(longest(rest) == 0);
        assert(lines.last() == lines[0]);
        assert(lines[0].len() == n);
    }
}

/// `lines` written one after the other, with a line feed between each two.
pub open spec fn joined(lines: Seq<Seq<char>>) -> Seq<char>
    decreases lines.len(),
{
    if lines.len() == 0 {
        Seq::empty()
    } else if lines.len() == 1 {
        lines[0]
    } else {
        joined(lines.drop_last()) + seq!['\n'] + lines.last()
    }
}

/// The index of the first line feed in `s`, or the length of `s` where it
/// holds none.
pub open spec fn first_line_feed(s: Seq<char>) -> nat
    decreases s.len(),
{
    if s.len() == 0 || s[0] == '\n' {
        0
    } else {
        1 + first_line_feed(s.drop_first())
    }
}

/// `line` without the carriage return at its end, if it has one there.
pub open spec fn without_carriage_return(line: Seq<char>) -> Seq<char> {
    if line.len() > 0 && line.last() == '\r' {
        line.drop_last()
    } else {
        line
    }
}

/// The lines of `s`. A line ends at a line feed, or at a carriage return
/// directly followed by a line feed; neither belongs to the line. What
/// follows the last line feed is a line too, unless it is empty.
pub open spec fn split_lines(s: Seq<char>) -> Seq<Seq<char>>
    decreases s.len(),
{
    if s.len() == 0 {
        Seq::empty()
    } else {
        let end = first_line_feed(s) as int;
        if end >= s.len() {
            seq![s]
        } else {
            seq![without_carriage_return(s.take(end))] + split_lines(s.skip(end + 1))
        }
    }
}

/// The lines a document starts with when it is made from `s`: the lines of
/// `s`, or one empty line where `s` has none.
pub open spec fn initial_lines(s: Seq<char>) -> Seq<Seq<char>> {
    if split_lines(s).len() == 0 {
        seq![Seq::empty()]
    } else {
        split_lines(s)
    }
}

/// With no line feed before index `j` of `s`, and one at `j` unless `s` ends
/// there, the first line feed of `s` is at `j`.
proof fn lemma_first_line_feed(s: Seq<char>, j: int)
    requires
        0 <= j <= s.len(),
        forall|k: int| 0 <= k < j ==> s[k] != '\n',
        j == s.len() || s[j] == '\n',
    ensures
        first_line_feed(s) == j,
    decreases j,
{
    if j > 0 {
        let rest = s.drop_first();
        assert forall|k: int| 0 <= k < j - 1 implies rest[k] != '\n' by {
            assert(rest[k] == s[k + 1]);
        }
        lemma_first_line_feed(rest, j - 1);
    }
}

/// Whether `lines` come back unchanged when they are written out and read
/// in again: no line holds a line feed, no line but the last ends with a
/// carriage return, and the last line is not empty unless it is the only
/// one.
pub open spec fn reads_back(lines: Seq<Seq<char>>) -> bool {
    &&& lines.len() >= 1
    &&& forall|i: int, k: int|
        0 <= i < lines.len() && 0 <= k < lines[i].len() ==> #[trigger] lines[i][k] != '\n'
    &&& forall|i: int|
        0 <= i < lines.len() - 1 ==> without_carriage_return(#[trigger] lines[i]) == lines[i]
    &&& lines.len() == 1 || lines.last().len() > 0
}

/// The text of two or more lines is the first line, a line feed, and the
/// text of the others.
pub proof fn lemma_joined_from_front(lines: Seq<Seq<char>>)
    requires
        lines.len() >= 2,
    ensures
        joined(lines) == lines[0] + seq!['\n'] + joined(lines.drop_first()),
    decreases lines.len(),
{
    let front = lines.drop_last();
    let back = lines.drop_first();
    if lines.len() == 2 {
        assert(front =~= seq![lines[0]]);
        assert(back =~= seq![lines[1]]);
        assert(joined(front) == lines[0]);
        assert(joined(back) == lines[1]);
    } else {
        lemma_joined_from_front(front);
        assert(front.drop_first() =~= back.drop_last());
        assert(front[0] == lines[0]);
        assert(back.last() == lines.last());
        assert(joined(lines) =~= lines[0] + seq!['\n'] + joined(back));
    }
}

/// What is written out is read in again as the same lines, for lines
/// that hold no line feed, do not end with a carriage return before the
/// last line, and do not end with an empty line.
pub proof fn lemma_written_text_reads_back(lines: Seq<Seq<char>>)
    requires
        reads_back(lines),
    ensures
        initial_lines(joined(lines)) == lines,
    decreases lines.len(),
{
    let first = lines[0];
    if lines.len() == 1 {
        assert(joined(lines) == first);
        if first.len() > 0 {
            lemma_first_line_feed(first, first.len() as int);
            assert(split_lines(first) =~= seq![first]);
        } else {
            assert(first =~= Seq::empty());
            assert(split_lines(first).len() == 0);
        }
        assert(initial_lines(first) =~= lines);
    } else {
        let rest = lines.drop_first();
        let text = joined(lines);
        let j = first.len() as int;
        lemma_joined_from_front(lines);
        assert forall|i: int, k: int| 0 <= i < rest.len() && 0 <= k < rest[i].len() implies (
        #[trigger] rest[i][k]) != '\n' by {
            assert(rest[i] == lines[i + 1]);
            assert(lines[i + 1][k] != '\n');
        }
        assert forall|i: int| 0 <= i < rest.len() - 1 implies without_carriage_return(
            #[trigger] rest[i],
        ) == rest[i] by {
            assert(rest[i] == lines[i + 1]);
        }
        assert(rest.last() == lines.last());
        lemma_written_text_reads_back(rest);
        assert forall|k: int| 0 <= k < j implies text[k] != '\n' by {
            assert(text[k] == lines[0][k]);
        }
        assert(text[j] == '\n');
        lemma_first_line_feed(text, j);
        assert(text.take(j) =~= first);
        assert(text.skip(j + 1) =~= joined(rest));
        assert(without_carriage_return(lines[0]) == lines[0]);
        assert(split_lines(joined(rest)).len() > 0);
        assert(split_lines(text) =~= seq![first] + rest);
        assert(seq![first] + rest =~= lines);
    }
}

/// The rows of `v` as sequences.
spec fn rows(v: Seq<Vec<char>>) -> Seq<Seq<char>> {
    Seq::new(v.len(), |i: int| v[i]@)
}

/// Splits `text` into its lines.
fn lines_of(text: &str) -> (r: Vec<Vec<char>>)
    ensures
        rows(r@) == split_lines(text@),
{
    let mut lines: Vec<Vec<char>> = Vec::new();
    let mut line: Vec<char> = Vec::new();
    let ghost start: int = 0;
    assert(rows(lines@) =~= Seq::empty());
    assert(text@.skip(0) =~= text@);
    for c in it: text.chars()
        invariant
            it.seq() == text@,
            0 <= start <= it.index(),
            line@ == text@.subrange(start, it.index()),
            forall|k: int| start <= k < it.index() ==> text@[k] != '\n',
            split_lines(text@) == rows(lines@) + split_lines(text@.skip(start)),
    {
        let ghost at = it.index();
        let ghost rest = text@.skip(start);
        if c == '\n' {
            proof {
                lemma_first_line_feed(rest, at - start);
                assert(rest.take(at - start) =~= line@);
                assert(rest.skip(at - start + 1) =~= text@.skip(at + 1));
            }
            let n = line.len();
            if n > 0 && line[n - 1] == '\r' {
                line.pop();
                assert(line@ =~= without_carriage_return(rest.take(at - start)));
            }
            let ghost done = rows(lines@);
            lines.push(line);
            line = Vec::new();
            proof {
                let finished = without_carriage_return(rest.take(at - start));
                assert(rows(lines@) =~= done + seq![finished]);
                start = at + 1;
                assert(line@ =~= text@.subrange(start, at + 1));
                assert(split_lines(text@) =~= rows(lines@) + split_lines(text@.skip(start)));
            }
        } else {
            line.push(c);
            assert(line@ =~= text@.subrange(start, at + 1));
        }
    }
    proof {
        let rest = text@.skip(start);
        assert(rest =~= line@);
        lemma_first_line_feed(rest, rest.len() as int);
    }
    if line.len() > 0 {
        let ghost done = rows(lines@);
        lines.push(line);
        assert(rows(lines@) =~= done + seq![text@.skip(start)]);
    } else {
        assert(rows(lines@) + Seq::<Seq<char>>::empty() =~= rows(lines@));
    }
    lines
}

/// `String::push` of the standard library: the string grows by the one
/// character, at its end.
pub assume_specification[ std::string::String::push ](s: &mut String, c: char)
    ensures
        final(s)@ == old(s)@.push(c),
;

/// The characters of `text`, in order.
fn chars_of(text: &str) -> (r: Vec<char>)
    ensures
        r@ == text@,
{
    let mut r: Vec<char> = Vec::new();
    for c in it: text.chars()
        invariant
            it.seq() == text@,
            r@ == text@.take(it.index()),
    {
        r.push(c);
    }
    r
}

/// The string of the characters of `line`, in order.
fn string_of(line: &Vec<char>) -> (r: String)
    ensures
        r@ == line@,
{
    let mut r = String::new();
    let mut i: usize = 0;
    while i < line.len()
        invariant
            i <= line.len(),
            r@ == line@.take(i as int),
        decreases line.len() - i,
    {
        r.push(line[i]);
        i += 1;
        assert(line@.take(i as int) =~= line@.take(i - 1).push(line@[i - 1]));
    }
    assert(line@.take(i as int) =~= line@);
    r
}

/// A text buffer: the lines of a document and a cursor into them.
pub struct TextContent {
    content: Vec<Vec<char>>,
    cursor: (usize, usize),
}

impl View for TextContent {
    type V = TextState;

    closed spec fn view(&self) -> TextState {
        TextState {
            lines: rows(self.content@),
            line: self.cursor.0 as int,
            column: self.cursor.1 as int,
        }
    }
}

impl Clone for TextContent {
    /// A buffer of its own with the same lines and the same cursor.
    fn clone(&self) -> (r: Self)
        ensures
            r@ == self@,
    {
        let mut content: Vec<Vec<char>> = Vec::new();
        let mut i: usize = 0;
        while i < self.content.len()
            invariant
                i <= self.content.len(),
                content@.len() == i,
                forall|k: int| 0 <= k < i ==> (#[trigger] content@[k])@ == self.content@[k]@,
            decreases self.content.len() - i,
        {
            let line = &self.content[i];
            let mut copy: Vec<char> = Vec::new();
            let mut k: usize = 0;
            while k < line.len()
                invariant
                    k <= line.len(),
                    copy@ == line@.take(k as int),
                decreases line.len() - k,
            {
                copy.push(line[k]);
                k += 1;
                assert(line@.take(k as int) =~= line@.take(k - 1).push(line@[k - 1]));
            }
            assert(line@.take(k as int) =~= line@);
            content.push(copy);
            i += 1;
        }
        let r = TextContent { content, cursor: (self.cursor.0, self.cursor.1) };
        assert(r@.lines =~= self@.lines);
        r
    }
}

impl TextContent {
    /// Well-formedness of the buffer: that of its state.
    pub open spec fn wf(&self) -> bool {
        self@.wf()
    }

    /// An empty document: one empty line, the cursor at its start.
    pub fn new() -> (r: Self)
        ensures
            r.wf(),
            r@.lines == seq![Seq::<char>::empty()],
            r@.line == 0,
            r@.column == 0,
    {
        let mut content: Vec<Vec<char>> = Vec::new();
        content.push(Vec::new());
        let r = TextContent { content, cursor: (0, 0) };
        assert(r@.lines =~= seq![Seq::<char>::empty()]);
        r
    }

    /// The document that `text` holds: its lines, or one empty line where
    /// it has none, the cursor at the start.
    pub fn from_string(text: String) -> (r: Self)
        ensures
            r.wf(),
            r@.lines == initial_lines(text@),
            r@.line == 0,
            r@.column == 0,
    {
        let mut content = lines_of(text.as_str());
        if content.len() == 0 {
            content.push(Vec::new());
            assert(rows(content@) =~= seq![Seq::<char>::empty()]);
        }
        TextContent { content, cursor: (0, 0) }
    }

    /// The lines as strings, in order.
    pub fn get_text(&self) -> (r: Vec<String>)
        requires
            self.wf(),
        ensures
            r@.len() == self@.lines.len(),
            forall|i: int| 0 <= i < r@.len() ==> (#[trigger] r@[i])@ == self@.lines[i],
    {
        let mut r: Vec<String> = Vec::new();
        let mut i: usize = 0;
        while i < self.content.len()
            invariant
                i <= self.content.len(),
                r@.len() == i,
                forall|k: int| 0 <= k < i ==> (#[trigger] r@[k])@ == self@.lines[k],
            decreases self.content.len() - i,
        {
            r.push(string_of(&self.content[i]));
            i += 1;
        }
        r
    }

    /// The whole text: the lines with a line feed between each two.
    pub fn get_string(&self) -> (r: String)
        requires
            self.wf(),
        ensures
            r@ == joined(self@.lines),
    {
        let mut r = string_of(&self.content[0]);
        let mut i: usize = 1;
        assert(self@.lines.take(1) =~= seq![self@.lines[0]]);
        while i < self.content.len()
            invariant
                self.wf(),
                1 <= i <= self.content.len(),
                r@ == joined(self@.lines.take(i as int)),
            decreases self.content.len() - i,
        {
            r.push('\n');
            let line = &self.content[i];
            let ghost start = r@;
            let mut k: usize = 0;
            while k < line.len()
                invariant
                    k <= line.len(),
                    r@ == start + line@.take(k as int),
                decreases line.len() - k,
            {
                r.push(line[k]);
                k += 1;
                assert(line@.take(k as int) =~= line@.take(k - 1).push(line@[k - 1]));
                assert(r@ =~= start + line@.take(k as int));
            }
            assert(line@.take(k as int) =~= line@);
            i += 1;
            proof {
                let upto = self@.lines.take(i as int);
                assert(upto.drop_last() =~= self@.lines.take(i - 1));
                assert(upto.last() == line@);
                assert(r@ =~= joined(upto.drop_last()) + seq!['\n'] + upto.last());
            }
        }
        assert(self@.lines.take(i as int) =~= self@.lines);
        r
    }

    /// The cursor, its column brought back into its line.
    pub fn get_cursor(&self) -> (r: (usize, usize))
        requires
            self.wf(),
        ensures
            r.0 == self@.line,
            r.1 == self@.column_in_line(),
            r.1 <= self@.current().len(),
    {
        let (l, c) = self.cursor;
        if c >= self.content[l].len() {
            (l, self.content[l].len())
        } else {
            (l, c)
        }
    }

    /// Whether the first line is empty.
    pub fn _empty(&self) -> (r: bool)
        requires
            self.wf(),
        ensures
            r == (self@.lines[0].len() == 0),
    {
        self.content.is_empty() || self.content[0].is_empty()
    }

    /// The number of lines.
    pub fn line_count(&self) -> (r: usize)
        requires
            self.wf(),
        ensures
            r == self@.lines.len(),
            r >= 1,
    {
        self.content.len()
    }

    /// The length of the longest line.
    pub fn longest_line_length(&self) -> (r: usize)
        requires
            self.wf(),
        ensures
            r == longest(self@.lines),
            is_longest(self@.lines, r as int),
    {
        let mut found: usize = 0;
        let mut i: usize = 0;
        while i < self.content.len()
            invariant
                self.wf(),
                i <= self.content.len(),
                found == longest(self@.lines.take(i as int)),
            decreases self.content.len() - i,
        {
            if self.content[i].len() > found {
                found = self.content[i].len();
            }
            i += 1;
            assert(self@.lines.take(i as int).drop_last() =~= self@.lines.take(i - 1));
        }
        proof {
            assert(self@.lines.take(i as int) =~= self@.lines);
            lemma_longest_is_longest(self@.lines);
        }
        found
    }

    /// The length of the cursor's line.
    pub fn _current_line_length(&self) -> (r: usize)
        requires
            self.wf(),
        ensures
            r == self@.current().len(),
    {
        let (l, _) = self.cursor;
        self.content[l].len()
    }

    /// The number of lines and the length of the longest line.
    pub fn size(&self) -> (r: (usize, usize))
        requires
            self.wf(),
        ensures
            r.0 == self@.lines.len(),
            r.1 == longest(self@.lines),
            is_longest(self@.lines, r.1 as int),
    {
        (self.line_count(), self.longest_line_length())
    }

    /// Inserts `text` into the cursor's line at the cursor and moves the
    /// cursor right by the length of `text`, in one step.
    pub fn append(&mut self, text: String)
        requires
            old(self).wf(),
        ensures
            final(self).wf(),
            final(self)@ == old(self)@.inserted(text@),
    {
        let mut text = chars_of(text.as_str());
        let ghost inserted = text@;
        let n = text.len();
        let (l, mut c) = self.cursor;
        if c >= self.content[l].len() {
            self.snap_cursor_end_of_line();
            c = self.cursor.1;
        }
        assert(self@ == old(self)@.clamped());
        let mut right = self.content[l].split_off(c);
        self.content[l].append(&mut text);
        self.content[l].append(&mut right);
        assert(self@.lines =~= old(self)@.spliced(inserted).lines);
        self.move_cursor_right(n);
    }

    /// Puts the cursor at the end of its line.
    pub fn snap_cursor_end_of_line(&mut self)
        requires
            old(self).wf(),
        ensures
            final(self).wf(),
            final(self)@ == old(self)@.snapped_to_end(),
    {
        let (l, _) = self.cursor;
        let c = self.content[l].len();
        self.cursor = (l, c);
    }

    /// Puts the cursor at the start of its line.
    pub fn snap_cursor_start_of_line(&mut self)
        requires
            old(self).wf(),
        ensures
            final(self).wf(),
            final(self)@ == old(self)@.snapped_to_start(),
    {
        let (l, _) = self.cursor;
        self.cursor = (l, 0);
    }

    /// Moves the cursor `n` lines up, stopping at the first line. The raw
    /// column is kept.
    pub fn move_cursor_up(&mut self, n: usize)
        requires
            old(self).wf(),
        ensures
            final(self).wf(),
            final(self)@ == old(self)@.moved_up(n as int),
    {
        let (l, c) = self.cursor;
        let l: usize = if l < n { 0 } else { l - n };
        self.cursor = (l, c);
    }

    /// Moves the cursor `n` lines down, stopping at the last line. The raw
    /// column is kept.
    pub fn move_cursor_down(&mut self, n: usize)
        requires
            old(self).wf(),
        ensures
            final(self).wf(),
            final(self)@ == old(self)@.moved_down(n as int),
    {
        let (l, c) = self.cursor;
        let last: usize = self.content.len() - 1;
        let l: usize = if n >= last - l { last } else { l + n };
        self.cursor = (l, c);
    }

    /// Moves the cursor `n` columns to the right, or from the end of a line
    /// to the start of the next one.
    pub fn move_cursor_right(&mut self, n: usize)
        requires
            old(self).wf(),
        ensures
            final(self).wf(),
            final(self)@ == old(self)@.moved_right(n as int),
    {
        let (l, c) = self.cursor;
        let end_of_line = c >= self.content[l].len();
        let no_more_characters = end_of_line && l == self.content.len() - 1;
        if no_more_characters {
        } else if end_of_line {
            self.move_cursor_down(1);
            self.snap_cursor_start_of_line();
        } else {
            let c: usize = c.saturating_add(n);
            self.cursor = (l, c);
        }
    }

    /// Moves the cursor `n` columns to the left, or from the start of a line
    /// to the end of the one above.
    pub fn move_cursor_left(&mut self, n: usize)
        requires
            old(self).wf(),
        ensures
            final(self).wf(),
            final(self)@ == old(self)@.moved_left(n as int),
    {
        let (l, mut c) = self.cursor;
        if c > self.content[l].len() {
            self.snap_cursor_end_of_line();
            c = self.cursor.1;
        }
        assert(self@ == old(self)@.clamped());
        let no_more_characters = c == 0 && l == 0;
        let beginning_of_line = c < n;
        if no_more_characters {
        } else if beginning_of_line {
            self.move_cursor_up(1);
            self.snap_cursor_end_of_line()
        } else {
            self.cursor = (l, c - n);
        }
    }

    /// Puts the cursor at the position nearest to `cursor`, a line and a
    /// column.
    pub fn set_cursor(&mut self, cursor: (usize, usize))
        requires
            old(self).wf(),
        ensures
            final(self).wf(),
            final(self)@ == old(self)@.with_cursor(cursor.0 as int, cursor.1 as int),
    {
        let (mut l, mut c) = cursor;
        if l >= self.content.len() {
            l = self.content.len() - 1;
            c = self.content[l].len();
        }
        if c > self.content[l].len() {
            c = self.content[l].len();
        }
        self.cursor = (l, c);
    }

    /// Deletes the character before the cursor, joining two lines where the
    /// cursor stands at the start of one.
    pub fn remove(&mut self)
        requires
            old(self).wf(),
        ensures
            final(self).wf(),
            final(self)@ == old(self)@.backspaced(),
    {
        let (l, mut c) = self.cursor;
        if c > self.content[l].len() {
            self.snap_cursor_end_of_line();
            c = self.cursor.1;
        }
        assert(self@ == old(self)@.clamped());
        let ghost s = self@;
        let nothing_to_remove = c == 0 && l == 0;
        let beginning_of_line = c == 0;
        if nothing_to_remove {
        } else if beginning_of_line {
            let mut removed_line = self.content.remove(l);
            let joint = self.content[l - 1].len();
            self.content[l - 1].append(&mut removed_line);
            self.cursor = (l - 1, joint);
            assert(self@.lines =~= s.backspaced().lines);
        } else {
            self.content[l].remove(c - 1);
            self.cursor = (l, c - 1);
            assert(self@.lines =~= s.lines.update(s.line, s.current().remove(s.column - 1)));
        }
    }

    /// Exchanges the cursor's line with the line above.
    pub fn move_line_up(&mut self)
        requires
            old(self).wf(),
        ensures
            final(self).wf(),
            final(self)@ == old(self)@.line_moved_up(),
    {
        let (l, c) = self.cursor;
        if l == 0 {
            return ;
        }
        let line = self.content.remove(l);
        self.content.insert(l - 1, line);
        self.cursor = (l - 1, c);
        assert(self@.lines =~= TextState::exchanged(old(self)@.lines, l - 1));
    }

    /// Exchanges the cursor's line with the line below.
    pub fn move_line_down(&mut self)
        requires
            old(self).wf(),
        ensures
            final(self).wf(),
            final(self)@ == old(self)@.line_moved_down(),
    {
        let (l, c) = self.cursor;
        if l >= self.content.len() - 1 {
            return ;
        }
        let line = self.content.remove(l);
        self.content.insert(l + 1, line);
        self.cursor = (l + 1, c);
        assert(self@.lines =~= TextState::exchanged(old(self)@.lines, l as int));
    }

    /// Adds an empty line below the cursor's line and puts the cursor there.
    pub fn new_line(&mut self)
        requires
            old(self).wf(),
        ensures
            final(self).wf(),
            final(self)@ == old(self)@.with_new_line(),
    {
        let (l, _) = self.cursor;
        assert(l < self.content.len());
        self.content.insert(l + 1, Vec::new());
        self.cursor = (l + 1, 0);
        assert(self@.lines =~= old(self)@.lines.insert(l + 1, Seq::empty()));
    }

    /// Splits the cursor's line at the cursor and puts the cursor at the
    /// start of the second part.
    pub fn break_line(&mut self)
        requires
            old(self).wf(),
        ensures
            final(self).wf(),
            final(self)@ == old(self)@.broken(),
    {
        let (l, c) = self.cursor;
        if c >= self.content[l].len() {
            self.new_line();
            return ;
        }
        let right = self.content[l].split_off(c);
        assert(l < self.content.len());
        self.content.insert(l + 1, right);
        assert(self@.lines =~= old(self)@.broken().lines);
        self.move_cursor_down(1);
        self.snap_cursor_start_of_line();
    }
}

} // verus!
