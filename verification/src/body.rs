//! The request-body editor: an ordered sequence of text lines with a
//! two-dimensional cursor. Whole-text get/set convert to and from a single
//! newline-joined string — the canonical form used by history and dispatch;
//! the last line carries no implicit trailing newline.

use vstd::prelude::*;

use crate::text::chars_to_string;
use crate::text::chars_vec;
use crate::text::push_char;
use vstd::string::StringExecFns;

verus! {

/// A multi-line text buffer with a (row, column) cursor.
#[derive(Debug)]
pub struct BodyBuffer {
    pub lines: Vec<String>,
    pub cursor_row: usize,
    pub cursor_col: usize,
}

/// Mathematical model of the buffer.
pub ghost struct BodyModel {
    pub lines: Seq<Seq<char>>,
    pub cursor_row: int,
    pub cursor_col: int,
}

impl View for BodyBuffer {
    type V = BodyModel;

    open spec fn view(&self) -> BodyModel {
        BodyModel {
            lines: self.lines@.map_values(|l: String| l@),
            cursor_row: self.cursor_row as int,
            cursor_col: self.cursor_col as int,
        }
    }
}

/// The text that `lines` denotes: the lines joined by `'\n'`, with no
/// trailing newline after the last line.
pub open spec fn joined_lines(lines: Seq<Seq<char>>) -> Seq<char>
    decreases lines.len(),
{
    if lines.len() == 0 {
        Seq::empty()
    } else if lines.len() == 1 {
        lines[0]
    } else {
        lines[0] + seq!['\n'] + joined_lines(lines.drop_first())
    }
}

/// The division of `s` into lines at each `'\n'`: one more line than there
/// are newline characters, so the result is never empty.
pub open spec fn split_lines(s: Seq<char>) -> Seq<Seq<char>>
    decreases s.len(),
{
    if s.len() == 0 {
        seq![Seq::<char>::empty()]
    } else if s[0] == '\n' {
        seq![Seq::<char>::empty()] + split_lines(s.drop_first())
    } else {
        let rest = split_lines(s.drop_first());
        seq![seq![s[0]] + rest[0]] + rest.drop_first()
    }
}

pub proof fn lemma_split_lines_nonempty(s: Seq<char>)
    ensures
        split_lines(s).len() >= 1,
    decreases s.len(),
{
    if s.len() == 0 {
    } else if s[0] == '\n' {
        lemma_split_lines_nonempty(s.drop_first());
    } else {
        lemma_split_lines_nonempty(s.drop_first());
    }
}

pub proof fn lemma_split_lines_no_newline(s: Seq<char>)
    ensures
        forall|i: int|
            0 <= i < split_lines(s).len() ==> !(#[trigger] split_lines(s)[i]).contains('\n'),
    decreases s.len(),
{
    if s.len() == 0 {
        assert forall|i: int| 0 <= i < split_lines(s).len() implies !(#[trigger] split_lines(
            s,
        )[i]).contains('\n') by {
            assert(split_lines(s)[i] =~= Seq::<char>::empty());
        }
    } else if s[0] == '\n' {
        lemma_split_lines_nonempty(s.drop_first());
        lemma_split_lines_no_newline(s.drop_first());
        assert forall|i: int| 0 <= i < split_lines(s).len() implies !(#[trigger] split_lines(
            s,
        )[i]).contains('\n') by {
            if i == 0 {
                assert(split_lines(s)[0] =~= Seq::<char>::empty());
            } else {
                assert(split_lines(s)[i] == split_lines(s.drop_first())[i - 1]);
            }
        }
    } else {
        lemma_split_lines_nonempty(s.drop_first());
        lemma_split_lines_no_newline(s.drop_first());
        let rest = split_lines(s.drop_first());
        assert forall|i: int| 0 <= i < split_lines(s).len() implies !(#[trigger] split_lines(
            s,
        )[i]).contains('\n') by {
            if i == 0 {
                assert(!rest[0].contains('\n'));
                assert forall|j: int|
                    0 <= j < (seq![s[0]] + rest[0]).len() implies (seq![s[0]] + rest[0])[j]
                    != '\n' by {
                    if j == 0 {
                    } else {
                        assert((seq![s[0]] + rest[0])[j] == rest[0][j - 1]);
                        assert(!rest[0].contains('\n'));
                    }
                }
                assert(!(seq![s[0]] + rest[0]).contains('\n'));
                assert(split_lines(s)[0] == seq![s[0]] + rest[0]);
            } else {
                assert(split_lines(s)[i] == rest[i]);
            }
        }
    }
}

/// Law: joining the lines that a text was split into gives back exactly that
/// text, for every text — the body round-trips losslessly.
pub proof fn lemma_join_split_roundtrip(s: Seq<char>)
    ensures
        joined_lines(split_lines(s)) == s,
    decreases s.len(),
{
    if s.len() == 0 {
        assert(joined_lines(split_lines(s)) =~= s);
    } else if s[0] == '\n' {
        lemma_split_lines_nonempty(s.drop_first());
        lemma_join_split_roundtrip(s.drop_first());
        let r = split_lines(s.drop_first());
        assert(split_lines(s) == seq![Seq::<char>::empty()] + r);
        assert(split_lines(s).len() >= 2);
        assert(split_lines(s)[0] =~= Seq::<char>::empty());
        assert(split_lines(s).drop_first() =~= r);
        assert(joined_lines(split_lines(s)) == split_lines(s)[0] + seq!['\n'] + joined_lines(r));
        assert(joined_lines(split_lines(s)) =~= s);
    } else {
        lemma_split_lines_nonempty(s.drop_first());
        lemma_join_split_roundtrip(s.drop_first());
        let r = split_lines(s.drop_first());
        let first = seq![s[0]] + r[0];
        assert(split_lines(s) == seq![first] + r.drop_first());
        if r.len() == 1 {
            assert(split_lines(s) =~= seq![first]);
            assert(joined_lines(split_lines(s)) == first);
            assert(joined_lines(r) == r[0]);
            assert(r[0] == s.drop_first());
            assert(first =~= s);
            assert(joined_lines(split_lines(s)) =~= s);
        } else {
            assert(split_lines(s).len() >= 2);
            assert(split_lines(s)[0] == first);
            assert(split_lines(s).drop_first() =~= r.drop_first());
            assert(joined_lines(split_lines(s)) == first + seq!['\n'] + joined_lines(
                r.drop_first(),
            ));
            assert(joined_lines(r) == r[0] + seq!['\n'] + joined_lines(r.drop_first()));
            assert(joined_lines(r) == s.drop_first());
            assert(s =~= seq![s[0]] + s.drop_first());
            assert(first + seq!['\n'] + joined_lines(r.drop_first()) =~= seq![s[0]] + (r[0]
                + seq!['\n'] + joined_lines(r.drop_first())));
            assert(joined_lines(split_lines(s)) =~= s);
        }
    }
}

pub proof fn lemma_joined_lines_push(l: Seq<Seq<char>>, x: Seq<char>)
    ensures
        joined_lines(l.push(x)) == if l.len() == 0 {
            x
        } else {
            joined_lines(l) + seq!['\n'] + x
        },
    decreases l.len(),
{
    if l.len() == 0 {
        assert(l.push(x).len() == 1);
        assert(l.push(x)[0] == x);
    } else if l.len() == 1 {
        assert(l.push(x)[0] == l[0]);
        assert(l.push(x).drop_first() =~= seq![x]);
        assert(joined_lines(seq![x]) == x);
        assert(joined_lines(l.push(x)) == l[0] + seq!['\n'] + x);
        assert(joined_lines(l) == l[0]);
    } else {
        assert(l.push(x)[0] == l[0]);
        assert(l.push(x).drop_first() =~= l.drop_first().push(x));
        lemma_joined_lines_push(l.drop_first(), x);
        assert(joined_lines(l.push(x)) == l[0] + seq!['\n'] + (joined_lines(l.drop_first())
            + seq!['\n'] + x));
        assert(joined_lines(l.push(x)) =~= joined_lines(l) + seq!['\n'] + x);
    }
}

impl BodyModel {
    /// The buffer invariant: at least one line, the cursor on an existing
    /// line at a column within it, and no line containing a newline.
    pub open spec fn wf(self) -> bool {
        self.lines.len() >= 1 && 0 <= self.cursor_row < self.lines.len() && 0 <= self.cursor_col
            <= self.lines[self.cursor_row].len() && (forall|i: int|
            0 <= i < self.lines.len() ==> !(#[trigger] self.lines[i]).contains('\n'))
    }

    /// The whole text the buffer holds.
    pub open spec fn text(self) -> Seq<char> {
        joined_lines(self.lines)
    }

    /// An empty buffer: one empty line, cursor at its start.
    pub open spec fn empty() -> Self {
        BodyModel { lines: seq![Seq::<char>::empty()], cursor_row: 0, cursor_col: 0 }
    }

    /// `c` inserted at the cursor; the cursor moves one column right.
    pub open spec fn with_inserted_char(self, c: char) -> Self {
        BodyModel {
            lines: self.lines.update(
                self.cursor_row,
                self.lines[self.cursor_row].insert(self.cursor_col, c),
            ),
            cursor_row: self.cursor_row,
            cursor_col: self.cursor_col + 1,
        }
    }

    /// The current line broken at the cursor; the cursor moves to the start
    /// of the new line.
    pub open spec fn with_newline(self) -> Self {
        BodyModel {
            lines: self.lines.update(
                self.cursor_row,
                self.lines[self.cursor_row].take(self.cursor_col),
            ).insert(self.cursor_row + 1, self.lines[self.cursor_row].skip(self.cursor_col)),
            cursor_row: self.cursor_row + 1,
            cursor_col: 0,
        }
    }

    /// Backspace: removes the character left of the cursor, or joins the
    /// current line onto the previous one when the cursor is at column 0;
    /// a no-op at the very start of the text.
    pub open spec fn with_backspace(self) -> Self {
        if self.cursor_col > 0 {
            BodyModel {
                lines: self.lines.update(
                    self.cursor_row,
                    self.lines[self.cursor_row].remove(self.cursor_col - 1),
                ),
                cursor_row: self.cursor_row,
                cursor_col: self.cursor_col - 1,
            }
        } else if self.cursor_row > 0 {
            BodyModel {
                lines: self.lines.update(
                    self.cursor_row - 1,
                    self.lines[self.cursor_row - 1] + self.lines[self.cursor_row],
                ).remove(self.cursor_row),
                cursor_row: self.cursor_row - 1,
                cursor_col: self.lines[self.cursor_row - 1].len() as int,
            }
        } else {
            self
        }
    }

    /// Cursor one row up, the column clamped to the new line's length.
    pub open spec fn with_cursor_up(self) -> Self {
        if self.cursor_row > 0 {
            let target = self.lines[self.cursor_row - 1].len() as int;
            BodyModel {
                cursor_row: self.cursor_row - 1,
                cursor_col: if self.cursor_col <= target {
                    self.cursor_col
                } else {
                    target
                },
                ..self
            }
        } else {
            self
        }
    }

    /// Cursor one row down, the column clamped to the new line's length.
    pub open spec fn with_cursor_down(self) -> Self {
        if self.cursor_row + 1 < self.lines.len() {
            let target = self.lines[self.cursor_row + 1].len() as int;
            BodyModel {
                cursor_row: self.cursor_row + 1,
                cursor_col: if self.cursor_col <= target {
                    self.cursor_col
                } else {
                    target
                },
                ..self
            }
        } else {
            self
        }
    }

    /// Cursor one column left, wrapping to the end of the previous line.
    pub open spec fn with_cursor_left(self) -> Self {
        if self.cursor_col > 0 {
            BodyModel { cursor_col: self.cursor_col - 1, ..self }
        } else if self.cursor_row > 0 {
            BodyModel {
                cursor_row: self.cursor_row - 1,
                cursor_col: self.lines[self.cursor_row - 1].len() as int,
                ..self
            }
        } else {
            self
        }
    }

    /// Cursor one column right, wrapping to the start of the next line.
    pub open spec fn with_cursor_right(self) -> Self {
        if self.cursor_col < self.lines[self.cursor_row].len() {
            BodyModel { cursor_col: self.cursor_col + 1, ..self }
        } else if self.cursor_row + 1 < self.lines.len() {
            BodyModel { cursor_row: self.cursor_row + 1, cursor_col: 0, ..self }
        } else {
            self
        }
    }
}

/// Whether `s` contains a newline character.
fn has_newline(s: &str) -> (r: bool)
    ensures
        r == s@.contains('\n'),
{
    let cs = chars_vec(s);
    let mut i: usize = 0;
    while i < cs.len()
        invariant
            0 <= i <= cs.len(),
            cs@ == s@,
            forall|j: int| 0 <= j < i ==> s@[j] != '\n',
        decreases cs.len() - i,
    {
        if cs[i] == '\n' {
            assert(s@.contains('\n'));
            return true;
        }
        i += 1;
    }
    false
}

impl BodyBuffer {
    /// Runtime check of the buffer invariant.
    pub fn check_wf(&self) -> (r: bool)
        ensures
            r == self@.wf(),
    {
        if self.lines.len() == 0 {
            return false;
        }
        if self.cursor_row >= self.lines.len() {
            return false;
        }
        let row_chars = chars_vec(self.lines[self.cursor_row].as_str());
        assert(self@.lines[self.cursor_row as int] == self.lines@[self.cursor_row as int]@);
        if self.cursor_col > row_chars.len() {
            return false;
        }
        let mut i: usize = 0;
        while i < self.lines.len()
            invariant
                0 <= i <= self.lines@.len(),
                forall|j: int| 0 <= j < i ==> !(#[trigger] self@.lines[j]).contains('\n'),
            decreases self.lines.len() - i,
        {
            assert(self@.lines[i as int] == self.lines@[i as int]@);
            if has_newline(self.lines[i].as_str()) {
                return false;
            }
            i += 1;
        }
        true
    }

    /// A fresh buffer holding the empty text.
    pub fn new() -> (r: Self)
        ensures
            r@ == BodyModel::empty(),
            r@.wf(),
            r@.text() == Seq::<char>::empty(),
    {
        let mut lines: Vec<String> = Vec::new();
        lines.push(String::new());
        let r = BodyBuffer { lines, cursor_row: 0, cursor_col: 0 };
        proof {
            assert(r@.lines =~= seq![Seq::<char>::empty()]);
            assert(r@.text() == Seq::<char>::empty());
        }
        r
    }

    /// Replaces the whole text, splitting it into lines at each newline;
    /// the cursor returns to the start of the buffer.
    pub fn set_text(&mut self, text: &str)
        ensures
            final(self)@.lines == split_lines(text@),
            final(self)@.cursor_row == 0,
            final(self)@.cursor_col == 0,
            final(self)@.wf(),
            final(self)@.text() == text@,
    {
        let cs = chars_vec(text);
        let mut lines: Vec<String> = Vec::new();
        let mut cur: Vec<char> = Vec::new();
        let mut i: usize = 0;
        proof {
            lemma_split_lines_nonempty(cs@);
            assert(cs@.skip(0) =~= cs@);
        }
        while i < cs.len()
            invariant
                0 <= i <= cs.len(),
                cs@ == text@,
                !cur@.contains('\n'),
                split_lines(cs@.skip(i as int)).len() >= 1,
                split_lines(cs@) =~~= lines@.map_values(|l: String| l@) + seq![
                    cur@ + split_lines(cs@.skip(i as int))[0],
                ] + split_lines(cs@.skip(i as int)).drop_first(),
            decreases cs.len() - i,
        {
            let ghost pre_lines = lines@.map_values(|l: String| l@);
            let ghost suffix = cs@.skip(i as int);
            let ghost old_cur = cur@;
            let c = cs[i];
            proof {
                assert(suffix[0] == cs@[i as int]);
                assert(suffix.drop_first() =~= cs@.skip(i + 1));
                lemma_split_lines_nonempty(cs@.skip(i + 1));
            }
            if c == '\n' {
                let done = chars_to_string(&cur);
                lines.push(done);
                cur = Vec::new();
                proof {
                    assert(split_lines(suffix) == seq![Seq::<char>::empty()] + split_lines(
                        cs@.skip(i + 1),
                    ));
                    assert(old_cur + split_lines(suffix)[0] =~= old_cur);
                    assert(lines@.map_values(|l: String| l@) =~= pre_lines.push(old_cur));
                    assert(cur@ =~= Seq::<char>::empty());
                    assert(split_lines(cs@) =~~= lines@.map_values(|l: String| l@) + seq![
                        cur@ + split_lines(cs@.skip(i + 1))[0],
                    ] + split_lines(cs@.skip(i + 1)).drop_first());
                }
            } else {
                cur.push(c);
                proof {
                    let r = split_lines(cs@.skip(i + 1));
                    assert(split_lines(suffix) == seq![seq![suffix[0]] + r[0]] + r.drop_first());
                    assert(old_cur + split_lines(suffix)[0] =~= cur@ + r[0]);
                    assert(!cur@.contains('\n')) by {
                        if cur@.contains('\n') {
                            let k = choose|k: int| 0 <= k < cur@.len() && cur@[k] == '\n';
                            if k < old_cur.len() {
                                assert(old_cur[k] == '\n');
                            }
                        }
                    }
                    assert(split_lines(suffix).drop_first() =~= r.drop_first());
                }
            }
            i += 1;
        }
        proof {
            assert(cs@.skip(cs@.len() as int) =~= Seq::<char>::empty());
            assert(split_lines(cs@.skip(i as int))[0] =~= Seq::<char>::empty());
            assert(split_lines(cs@.skip(i as int)).drop_first() =~= Seq::<Seq<char>>::empty());
        }
        let last = chars_to_string(&cur);
        lines.push(last);
        proof {
            assert(lines@.map_values(|l: String| l@) =~= split_lines(cs@));
        }
        self.lines = lines;
        self.cursor_row = 0;
        self.cursor_col = 0;
        proof {
            lemma_split_lines_nonempty(text@);
            lemma_split_lines_no_newline(text@);
            lemma_join_split_roundtrip(text@);
        }
    }

    /// The whole text the buffer holds, lines joined by newlines.
    pub fn get_text(&self) -> (r: String)
        ensures
            r@ == self@.text(),
    {
        let mut out = String::new();
        let mut i: usize = 0;
        while i < self.lines.len()
            invariant
                0 <= i <= self.lines.len(),
                out@ =~= joined_lines(self@.lines.take(i as int)),
            decreases self.lines.len() - i,
        {
            let ghost prefix = self@.lines.take(i as int);
            if i > 0 {
                push_char(&mut out, '\n');
            }
            out.append(self.lines[i].as_str());
            proof {
                lemma_joined_lines_push(prefix, self@.lines[i as int]);
                assert(self@.lines.take(i + 1) =~= prefix.push(self@.lines[i as int]));
                if i == 0 {
                    assert(prefix.len() == 0);
                    assert(out@ =~= joined_lines(self@.lines.take(i + 1)));
                } else {
                    assert(out@ =~= joined_lines(self@.lines.take(i + 1)));
                }
            }
            i += 1;
        }
        proof {
            assert(self@.lines.take(self.lines@.len() as int) =~= self@.lines);
        }
        out
    }

    /// Inserts `c` at the cursor. Newlines go through
    /// [`BodyBuffer::insert_newline`] instead, keeping lines newline-free.
    pub fn insert_char(&mut self, c: char)
        requires
            old(self)@.wf(),
            c != '\n',
        ensures
            final(self)@ == old(self)@.with_inserted_char(c),
            final(self)@.wf(),
    {
        let row = self.cursor_row;
        let col = self.cursor_col;
        let mut cs = chars_vec(self.lines[row].as_str());
        cs.insert(col, c);
        let n = cs.len();
        assert(col < n);
        let new_line = chars_to_string(&cs);
        self.lines[row] = new_line;
        self.cursor_col += 1;
        proof {
            let target = old(self)@.lines[row as int].insert(col as int, c);
            assert(cs@ =~= target);
            assert(self@.lines =~= old(self)@.lines.update(row as int, target));
            assert(!target.contains('\n')) by {
                if target.contains('\n') {
                    let k = choose|k: int| 0 <= k < target.len() && target[k] == '\n';
                    if k < col {
                        assert(old(self)@.lines[row as int][k] == '\n');
                    } else if k > col {
                        assert(old(self)@.lines[row as int][k - 1] == '\n');
                    }
                }
            }
        }
    }

    /// Breaks the current line at the cursor.
    pub fn insert_newline(&mut self)
        requires
            old(self)@.wf(),
        ensures
            final(self)@ == old(self)@.with_newline(),
            final(self)@.wf(),
    {
        let row = self.cursor_row;
        let col = self.cursor_col;
        let cs = chars_vec(self.lines[row].as_str());
        let mut left: Vec<char> = Vec::new();
        let mut right: Vec<char> = Vec::new();
        let mut i: usize = 0;
        while i < col
            invariant
                0 <= i <= col <= cs@.len(),
                left@ =~= cs@.take(i as int),
            decreases col - i,
        {
            left.push(cs[i]);
            assert(left@ =~= cs@.take(i + 1));
            i += 1;
        }
        let mut j: usize = col;
        while j < cs.len()
            invariant
                col <= j <= cs@.len(),
                right@ =~= cs@.subrange(col as int, j as int),
            decreases cs@.len() - j,
        {
            right.push(cs[j]);
            assert(right@ =~= cs@.subrange(col as int, j + 1));
            j += 1;
        }
        let left_s = chars_to_string(&left);
        let right_s = chars_to_string(&right);
        let n = self.lines.len();
        assert(row < n);
        self.lines[row] = left_s;
        self.lines.insert(row + 1, right_s);
        self.cursor_row = row + 1;
        self.cursor_col = 0;
        proof {
            let old_line = old(self)@.lines[row as int];
            assert(left@ =~= old_line.take(col as int));
            assert(right@ =~= old_line.skip(col as int));
            assert(self@.lines =~= old(self)@.lines.update(row as int, old_line.take(col as int))
                .insert(row as int + 1, old_line.skip(col as int)));
            assert(!old_line.take(col as int).contains('\n')) by {
                if old_line.take(col as int).contains('\n') {
                    let k = choose|k: int|
                        0 <= k < old_line.take(col as int).len() && old_line.take(col as int)[k]
                            == '\n';
                    assert(old_line[k] == '\n');
                }
            }
            assert(!old_line.skip(col as int).contains('\n')) by {
                if old_line.skip(col as int).contains('\n') {
                    let k = choose|k: int|
                        0 <= k < old_line.skip(col as int).len() && old_line.skip(col as int)[k]
                            == '\n';
                    assert(old_line[k + col] == '\n');
                }
            }
        }
    }

    /// Backspace at the cursor: deletes a character or joins two lines.
    pub fn backspace(&mut self)
        requires
            old(self)@.wf(),
        ensures
            final(self)@ == old(self)@.with_backspace(),
            final(self)@.wf(),
    {
        if self.cursor_col > 0 {
            let row = self.cursor_row;
            let col = self.cursor_col;
            let mut cs = chars_vec(self.lines[row].as_str());
            cs.remove(col - 1);
            let new_line = chars_to_string(&cs);
            self.lines[row] = new_line;
            self.cursor_col -= 1;
            proof {
                let target = old(self)@.lines[row as int].remove(col - 1);
                assert(cs@ =~= target);
                assert(self@.lines =~= old(self)@.lines.update(row as int, target));
                assert(!target.contains('\n')) by {
                    if target.contains('\n') {
                        let k = choose|k: int| 0 <= k < target.len() && target[k] == '\n';
                        if k < col - 1 {
                            assert(old(self)@.lines[row as int][k] == '\n');
                        } else {
                            assert(old(self)@.lines[row as int][k + 1] == '\n');
                        }
                    }
                }
            }
        } else if self.cursor_row > 0 {
            let row = self.cursor_row;
            let removed = self.lines.remove(row);
            let prev_len = {
                let cs = chars_vec(self.lines[row - 1].as_str());
                cs.len()
            };
            let prev = &mut self.lines[row - 1];
            prev.append(removed.as_str());
            self.cursor_row = row - 1;
            self.cursor_col = prev_len;
            proof {
                let old_lines = old(self)@.lines;
                let joined = old_lines[row - 1] + old_lines[row as int];
                assert(self@.lines =~= old_lines.update(row - 1, joined).remove(row as int));
                assert(!joined.contains('\n')) by {
                    if joined.contains('\n') {
                        let k = choose|k: int| 0 <= k < joined.len() && joined[k] == '\n';
                        if k < old_lines[row - 1].len() {
                            assert(old_lines[row - 1][k] == '\n');
                        } else {
                            assert(old_lines[row as int][k - old_lines[row - 1].len()] == '\n');
                        }
                    }
                }
            }
        }
    }

    /// Cursor one row up.
    pub fn move_cursor_up(&mut self)
        requires
            old(self)@.wf(),
        ensures
            final(self)@ == old(self)@.with_cursor_up(),
            final(self)@.wf(),
    {
        if self.cursor_row > 0 {
            let target_row = self.cursor_row - 1;
            let len = {
                let cs = chars_vec(self.lines[target_row].as_str());
                cs.len()
            };
            self.cursor_row = target_row;
            if self.cursor_col > len {
                self.cursor_col = len;
            }
        }
    }

    /// Cursor one row down.
    pub fn move_cursor_down(&mut self)
        requires
            old(self)@.wf(),
        ensures
            final(self)@ == old(self)@.with_cursor_down(),
            final(self)@.wf(),
    {
        if self.cursor_row < self.lines.len() - 1 {
            let target_row = self.cursor_row + 1;
            let len = {
                let cs = chars_vec(self.lines[target_row].as_str());
                cs.len()
            };
            self.cursor_row = target_row;
            if self.cursor_col > len {
                self.cursor_col = len;
            }
        }
    }

    /// Cursor one column left, wrapping to the previous line's end.
    pub fn move_cursor_left(&mut self)
        requires
            old(self)@.wf(),
        ensures
            final(self)@ == old(self)@.with_cursor_left(),
            final(self)@.wf(),
    {
        if self.cursor_col > 0 {
            self.cursor_col -= 1;
        } else if self.cursor_row > 0 {
            let target_row = self.cursor_row - 1;
            let len = {
                let cs = chars_vec(self.lines[target_row].as_str());
                cs.len()
            };
            self.cursor_row = target_row;
            self.cursor_col = len;
        }
    }

    /// Cursor one column right, wrapping to the next line's start.
    pub fn move_cursor_right(&mut self)
        requires
            old(self)@.wf(),
        ensures
            final(self)@ == old(self)@.with_cursor_right(),
            final(self)@.wf(),
    {
        let row = self.cursor_row;
        let len = {
            let cs = chars_vec(self.lines[row].as_str());
            cs.len()
        };
        if self.cursor_col < len {
            self.cursor_col += 1;
        } else if self.cursor_row < self.lines.len() - 1 {
            self.cursor_row = row + 1;
            self.cursor_col = 0;
        }
    }
}

} // verus!
