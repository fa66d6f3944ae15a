//! Source spans and the cursor that hands out one span per character.
//!
//! A span names a piece of the source by character offsets: `start..end` is the piece
//! itself and `line_start..line_end` is the text of the line on which it begins.

use vstd::prelude::*;
use crate::text::{push_range, push_repeated};

verus! {

/// Where a token or a syntax node stands in the source.
#[derive(Clone, Copy, Debug, PartialEq, Eq, Structural)]
pub struct StrInfo {
    /// Line of the first character, counted from 1.
    pub line: usize,
    /// Column of the first character, counted from 1.
    pub column: usize,
    /// Offset of the first character.
    pub start: usize,
    /// Offset just behind the last character.
    pub end: usize,
    /// Offset at which the line of the first character begins.
    pub line_start: usize,
    /// Offset just behind the text of that line, its line ending left out.
    pub line_end: usize,
}

/// The line of the character at `i`: one more than the number of line feeds in
/// `cs[0..=i]`, so that a line feed already counts for the line it opens.
pub open spec fn line_at(cs: Seq<char>, i: int) -> nat
    decreases i + 1,
{
    if i < 0 {
        1
    } else {
        line_at(cs, i - 1) + if cs[i] == '\n' {
            1nat
        } else {
            0nat
        }
    }
}

/// The column of the character at `i`: its distance from the last line feed before it,
/// and 0 for a line feed itself.
pub open spec fn column_at(cs: Seq<char>, i: int) -> nat
    decreases i + 1,
{
    if i < 0 || cs[i] == '\n' {
        0
    } else {
        column_at(cs, i - 1) + 1
    }
}

/// The offset behind the last line feed before `i`, or 0 where there is none.
pub open spec fn line_start_at(cs: Seq<char>, i: int) -> int
    decreases i,
{
    if i <= 0 {
        0
    } else if cs[i - 1] == '\n' {
        i
    } else {
        line_start_at(cs, i - 1)
    }
}

/// The offset of the first line feed at or behind `i`, or the length of the source.
pub open spec fn line_feed_at(cs: Seq<char>, i: int) -> int
    decreases cs.len() - i,
{
    if i >= cs.len() {
        cs.len() as int
    } else if i >= 0 && cs[i] == '\n' {
        i
    } else {
        line_feed_at(cs, i + 1)
    }
}

/// Where the text of a line ends whose line feed (or the end of the source) is at
/// `feed`: a carriage return right before a line feed belongs to the line ending.
pub open spec fn line_text_end(cs: Seq<char>, start: int, feed: int) -> int {
    if start < feed && feed < cs.len() && cs[feed - 1] == '\r' {
        feed - 1
    } else {
        feed
    }
}

/// The span of the piece `cs[i..e]`.
pub open spec fn span_info(cs: Seq<char>, i: int, e: int) -> StrInfo {
    StrInfo {
        line: line_at(cs, i) as usize,
        column: column_at(cs, i) as usize,
        start: i as usize,
        end: e as usize,
        line_start: line_start_at(cs, i) as usize,
        line_end: line_text_end(cs, line_start_at(cs, i), line_feed_at(cs, i)) as usize,
    }
}

/// The span of the single character at `i`.
pub open spec fn char_info(cs: Seq<char>, i: int) -> StrInfo {
    span_info(cs, i, i + 1)
}

pub proof fn lemma_line_column_bounds(cs: Seq<char>, i: int)
    requires
        -1 <= i < cs.len(),
    ensures
        1 <= line_at(cs, i) <= i + 2,
        column_at(cs, i) <= i + 1,
        0 <= line_start_at(cs, i) <= i || i == -1,
        line_start_at(cs, i + 1) <= i + 1,
    decreases i + 1,
{
    if i >= 0 {
        lemma_line_column_bounds(cs, i - 1);
    }
}

pub proof fn lemma_line_feed_bounds(cs: Seq<char>, i: int)
    requires
        0 <= i <= cs.len(),
    ensures
        i <= line_feed_at(cs, i) <= cs.len(),
        line_feed_at(cs, i) < cs.len() ==> cs[line_feed_at(cs, i)] == '\n',
        forall|j: int| i <= j < line_feed_at(cs, i) ==> cs[j] != '\n',
    decreases cs.len() - i,
{
    if i < cs.len() && cs[i] != '\n' {
        lemma_line_feed_bounds(cs, i + 1);
    }
}

impl StrInfo {
    pub fn new(
        line: usize,
        column: usize,
        start: usize,
        end: usize,
        line_start: usize,
        line_end: usize,
    ) -> (info: Self)
        ensures
            info == (StrInfo { line, column, start, end, line_start, line_end }),
    {
        StrInfo { line, column, start, end, line_start, line_end }
    }

    /// The span that begins where `self` begins and ends where `tail` ends.
    pub open spec fn spec_extend(self, tail: StrInfo) -> StrInfo {
        StrInfo {
            line: self.line,
            column: self.column,
            start: self.start,
            end: tail.end,
            line_start: self.line_start,
            line_end: self.line_end,
        }
    }

    pub fn extend(&self, tail: &Self) -> (info: Self)
        ensures
            info == self.spec_extend(*tail),
    {
        StrInfo {
            line: self.line,
            column: self.column,
            start: self.start,
            end: tail.end,
            line_start: self.line_start,
            line_end: self.line_end,
        }
    }

    /// Whether the span lies inside a source of `len` characters.
    pub open spec fn fits(self, len: nat) -> bool {
        &&& self.start <= self.end <= len
        &&& self.line_start <= self.start
        &&& self.line_start <= self.line_end <= len
    }

    /// The piece of `cs` that the span names; offsets beyond the source are cut off.
    pub open spec fn spec_slice(self, cs: Seq<char>) -> Seq<char> {
        let from = if self.start <= cs.len() {
            self.start as int
        } else {
            cs.len() as int
        };
        let to = if self.end <= cs.len() {
            self.end as int
        } else {
            cs.len() as int
        };
        if from <= to {
            cs.subrange(from, to)
        } else {
            Seq::empty()
        }
    }

    /// The text of the line on which the span begins, cut off in the same way.
    pub open spec fn spec_line_slice(self, cs: Seq<char>) -> Seq<char> {
        let from = if self.line_start <= cs.len() {
            self.line_start as int
        } else {
            cs.len() as int
        };
        let to = if self.line_end <= cs.len() {
            self.line_end as int
        } else {
            cs.len() as int
        };
        if from <= to {
            cs.subrange(from, to)
        } else {
            Seq::empty()
        }
    }

    pub fn slice(&self, source: &Vec<char>) -> (s: String)
        ensures
            s@ == self.spec_slice(source@),
    {
        let n: usize = source.len();
        let from: usize = if self.start <= n {
            self.start
        } else {
            n
        };
        let to: usize = if self.end <= n {
            self.end
        } else {
            n
        };
        let mut s = String::new();
        if from <= to {
            push_range(&mut s, source, from, to);
        }
        assert(s@ =~= self.spec_slice(source@));
        s
    }

    pub fn line_slice(&self, source: &Vec<char>) -> (s: String)
        ensures
            s@ == self.spec_line_slice(source@),
    {
        let n: usize = source.len();
        let from: usize = if self.line_start <= n {
            self.line_start
        } else {
            n
        };
        let to: usize = if self.line_end <= n {
            self.line_end
        } else {
            n
        };
        let mut s = String::new();
        if from <= to {
            push_range(&mut s, source, from, to);
        }
        assert(s@ =~= self.spec_line_slice(source@));
        s
    }

    /// How many blanks stand before the marks of the underline.
    pub open spec fn underline_indent(self) -> nat {
        if self.start >= self.line_start {
            (self.start - self.line_start) as nat
        } else {
            0
        }
    }

    /// How many marks the underline has: one per character of the span, but none
    /// beyond the end of the line.
    pub open spec fn underline_marks(self) -> nat {
        let indent = self.underline_indent();
        let width: nat = if self.end >= self.start {
            (self.end - self.start) as nat
        } else {
            0
        };
        let line_width: nat = if self.line_end >= self.line_start {
            (self.line_end - self.line_start) as nat
        } else {
            0
        };
        if indent + width < line_width {
            width
        } else if indent < line_width {
            (line_width - indent) as nat
        } else {
            0
        }
    }

    pub open spec fn spec_underline(self) -> Seq<char> {
        Seq::new(self.underline_indent(), |i: int| ' ') + Seq::new(
            self.underline_marks(),
            |i: int| '^',
        )
    }

    #[verifier::rlimit(50)]
    pub fn underline(&self) -> (s: String)
        ensures
            s@ == self.spec_underline(),
    {
        let indent: usize = if self.start >= self.line_start {
            self.start - self.line_start
        } else {
            0
        };
        let width: usize = if self.end >= self.start {
            self.end - self.start
        } else {
            0
        };
        let line_width: usize = if self.line_end >= self.line_start {
            self.line_end - self.line_start
        } else {
            0
        };
        let marks: usize = if indent < line_width && width < line_width - indent {
            width
        } else if indent < line_width {
            line_width - indent
        } else {
            0
        };
        let mut s = String::new();
        push_repeated(&mut s, ' ', indent);
        push_repeated(&mut s, '^', marks);
        assert(s@ =~= self.spec_underline());
        s
    }

    /// The line of the span, a line feed, and the underline that marks the span in it.
    pub open spec fn spec_target_part_of_line(self, cs: Seq<char>) -> Seq<char> {
        self.spec_line_slice(cs).push('\n') + self.spec_underline()
    }

    pub fn target_part_of_line(&self, source: &Vec<char>) -> (s: String)
        ensures
            s@ == self.spec_target_part_of_line(source@),
    {
        let mut s = self.line_slice(source);
        s.push('\n');
        let marks = self.underline();
        s.append(marks.as_str());
        s
    }
}

/// A cursor over the characters of a source that knows the span of each of them.
pub struct StrInfoIter {
    pub chars: Vec<char>,
    pub pos: usize,
    pub line_start: usize,
    pub line_feed: usize,
    pub line: usize,
    pub column: usize,
}

impl StrInfoIter {
    /// The fields agree with the position: `line` and `column` are those of the
    /// character handed out last, `line_start` and `line_feed` those of the next one.
    pub open spec fn wf(&self) -> bool {
        &&& self.chars@.len() < usize::MAX
        &&& self.pos <= self.chars@.len()
        &&& self.line == line_at(self.chars@, self.pos - 1)
        &&& self.column == column_at(self.chars@, self.pos - 1)
        &&& self.line_start == line_start_at(self.chars@, self.pos as int)
        &&& self.line_feed == line_feed_at(self.chars@, self.pos as int)
    }

    pub fn new(s: &str) -> (iter: Self)
        requires
            s@.len() < usize::MAX,
        ensures
            iter.wf(),
            iter.chars@ == s@,
            iter.pos == 0,
    {
        let chars = crate::text::chars_of(s);
        let line_feed = Self::find_line_feed(&chars, 0);
        StrInfoIter { chars, pos: 0, line_start: 0, line_feed, line: 1, column: 0 }
    }

    fn find_line_feed(chars: &Vec<char>, from: usize) -> (feed: usize)
        requires
            from <= chars.len(),
        ensures
            feed == line_feed_at(chars@, from as int),
    {
        let mut i: usize = from;
        while i < chars.len() && chars[i] != '\n'
            invariant
                from <= i <= chars.len(),
                line_feed_at(chars@, from as int) == line_feed_at(chars@, i as int),
            decreases chars.len() - i,
        {
            i += 1;
        }
        i
    }

    /// The character that `next` would hand out, if any is left.
    pub fn peek(&self) -> (c: Option<char>)
        requires
            self.wf(),
        ensures
            c == if self.pos < self.chars@.len() {
                Some(self.chars@[self.pos as int])
            } else {
                None
            },
    {
        if self.pos < self.chars.len() {
            Some(self.chars[self.pos])
        } else {
            None
        }
    }

    /// Hands out the next character with its span and steps over it.
    #[verifier::rlimit(50)]
    pub fn next(&mut self) -> (item: Option<(StrInfo, char)>)
        requires
            old(self).wf(),
        ensures
            final(self).wf(),
            final(self).chars == old(self).chars,
            match item {
                Some((info, c)) => {
                    &&& old(self).pos < old(self).chars@.len()
                    &&& final(self).pos == old(self).pos + 1
                    &&& c == old(self).chars@[old(self).pos as int]
                    &&& info == char_info(old(self).chars@, old(self).pos as int)
                },
                None => {
                    &&& old(self).pos == old(self).chars@.len()
                    &&& final(self).pos == old(self).pos
                },
            },
    {
        if self.pos >= self.chars.len() {
            return None;
        }
        let i: usize = self.pos;
        let c: char = self.chars[i];
        proof {
            lemma_line_column_bounds(self.chars@, i as int - 1);
            lemma_line_column_bounds(self.chars@, i as int);
            lemma_line_feed_bounds(self.chars@, i as int);
        }
        let feed: usize = self.line_feed;
        let text_end: usize = if self.line_start < feed && feed < self.chars.len() && self.chars[feed
            - 1] == '\r' {
            feed - 1
        } else {
            feed
        };
        if c == '\n' {
            self.line = self.line + 1;
            self.column = 0;
        } else {
            self.column = self.column + 1;
        }
        let info = StrInfo {
            line: self.line,
            column: self.column,
            start: i,
            end: i + 1,
            line_start: self.line_start,
            line_end: text_end,
        };
        self.pos = i + 1;
        if c == '\n' {
            self.line_start = i + 1;
            self.line_feed = Self::find_line_feed(&self.chars, i + 1);
        }
        Some((info, c))
    }
}

} // verus!
