//! The text that is being typed into a bordered box, line by line.

use vstd::prelude::*;
use crate::text::{append, byte_len, drop_last_char, strings_view};

verus! {

/// The number of bytes at which a line is full and the next begins.
pub const LINE_LIMIT: usize = 120;

/// The least width of the box.
pub const MIN_BOX_WIDTH: usize = 45;

/// The lines typed so far.  Typing goes on in the last line.
pub struct InputBox {
    lines: Vec<String>,
    current_line: usize,
    title: String,
}

pub ghost struct InputBoxView {
    pub lines: Seq<Seq<char>>,
    pub current_line: nat,
    pub title: Seq<char>,
}

impl View for InputBox {
    type V = InputBoxView;

    closed spec fn view(&self) -> InputBoxView {
        InputBoxView {
            lines: strings_view(self.lines@),
            current_line: self.current_line as nat,
            title: self.title@,
        }
    }
}

/// The box after a line is begun.
pub open spec fn with_newline(input: InputBoxView) -> InputBoxView {
    InputBoxView {
        lines: input.lines.push(Seq::empty()),
        current_line: input.current_line + 1,
        ..input
    }
}

/// The box after `c` is typed: it goes to the end of the current line,
/// and a line that is full with it is followed by a new one.
pub open spec fn with_char(input: InputBoxView, c: char) -> InputBoxView {
    let line = input.lines[input.current_line as int].push(c);
    let typed = InputBoxView { lines: input.lines.update(input.current_line as int, line), ..input };
    if byte_len(line) == LINE_LIMIT {
        with_newline(typed)
    } else {
        typed
    }
}

/// The box after a character is taken back: the last one of the current
/// line, or the current line itself where it is empty and not the first.
pub open spec fn without_char(input: InputBoxView) -> InputBoxView {
    let line = input.lines[input.current_line as int];
    if line.len() > 0 {
        InputBoxView {
            lines: input.lines.update(input.current_line as int, line.drop_last()),
            ..input
        }
    } else if input.current_line > 0 {
        InputBoxView {
            lines: input.lines.drop_last(),
            current_line: (input.current_line - 1) as nat,
            ..input
        }
    } else {
        input
    }
}

/// The lines in a row, each followed by a line feed.
pub open spec fn joined_lines(lines: Seq<Seq<char>>) -> Seq<char>
    decreases lines.len(),
{
    if lines.len() == 0 {
        Seq::empty()
    } else {
        joined_lines(lines.drop_last()) + lines.last() + seq!['\n']
    }
}

/// The greatest number of bytes in a line.
pub open spec fn longest_line(lines: Seq<Seq<char>>) -> usize
    decreases lines.len(),
{
    if lines.len() == 0 {
        0
    } else {
        let before = longest_line(lines.drop_last());
        if byte_len(lines.last()) > before {
            byte_len(lines.last())
        } else {
            before
        }
    }
}

/// The width of the box: room for the longest line and for the title,
/// and no less than the least width.
pub open spec fn box_width(input: InputBoxView) -> int {
    let by_line = longest_line(input.lines) + 4;
    let by_title = byte_len(input.title) + 8;
    let wider = if by_line > by_title {
        by_line
    } else {
        by_title
    };
    if wider > MIN_BOX_WIDTH {
        wider
    } else {
        MIN_BOX_WIDTH as int
    }
}

impl InputBox {
    /// Whether the box is as it should be: it has a line, and typing goes
    /// on in the last one.
    pub open spec fn wf(&self) -> bool {
        &&& self@.lines.len() >= 1
        &&& self@.current_line == self@.lines.len() - 1
    }

    /// An empty box under `title`.
    pub fn new(title: &str) -> (r: Self)
        ensures
            r.wf(),
            r@ == (InputBoxView { lines: seq![Seq::empty()], current_line: 0, title: title@ }),
    {
        let mut lines: Vec<String> = Vec::new();
        lines.push(String::new());
        assert(strings_view(lines@) =~= seq![Seq::empty()]);
        InputBox { lines, current_line: 0, title: title.to_string() }
    }

    /// Types `c`.
    pub fn add_char(&mut self, c: char)
        requires
            old(self).wf(),
        ensures
            final(self).wf(),
            final(self)@ == with_char(old(self)@, c),
    {
        let ghost before = strings_view(self.lines@);
        let mut line = self.lines[self.current_line].clone();
        line.push(c);
        let full = line.as_str().len() == LINE_LIMIT;
        self.lines.set(self.current_line, line);
        assert(strings_view(self.lines@) =~= before.update(
            self.current_line as int,
            before[self.current_line as int].push(c),
        ));
        if full {
            self.add_newline();
        }
    }

    /// Begins a line.
    pub fn add_newline(&mut self)
        requires
            old(self).wf(),
        ensures
            final(self).wf(),
            final(self)@ == with_newline(old(self)@),
    {
        let ghost before = strings_view(self.lines@);
        self.lines.push(String::new());
        self.current_line = self.lines.len() - 1;
        assert(strings_view(self.lines@) =~= before.push(Seq::empty()));
    }

    /// Takes a character back.
    pub fn remove_char(&mut self)
        requires
            old(self).wf(),
        ensures
            final(self).wf(),
            final(self)@ == without_char(old(self)@),
    {
        let ghost before = strings_view(self.lines@);
        if self.lines[self.current_line].as_str().unicode_len() > 0 {
            let line = drop_last_char(self.lines[self.current_line].as_str());
            self.lines.set(self.current_line, line);
            assert(strings_view(self.lines@) =~= before.update(
                self.current_line as int,
                before[self.current_line as int].drop_last(),
            ));
        } else if self.current_line > 0 {
            let _ = self.lines.pop();
            self.current_line = self.current_line - 1;
            assert(strings_view(self.lines@) =~= before.drop_last());
        }
    }

    /// Empties the box.  The title stays.
    pub fn clear(&mut self)
        ensures
            final(self).wf(),
            final(self)@ == (InputBoxView {
                lines: seq![Seq::empty()],
                current_line: 0,
                title: old(self)@.title,
            }),
    {
        let mut lines: Vec<String> = Vec::new();
        lines.push(String::new());
        assert(strings_view(lines@) =~= seq![Seq::empty()]);
        self.lines = lines;
        self.current_line = 0;
    }

    /// The lines typed so far.
    pub fn lines(&self) -> (r: &Vec<String>)
        ensures
            strings_view(r@) == self@.lines,
    {
        &self.lines
    }

    /// The title of the box.
    pub fn title(&self) -> (r: &String)
        ensures
            r@ == self@.title,
    {
        &self.title
    }

    /// The index of the line in which typing goes on.
    pub fn current_line(&self) -> (r: usize)
        ensures
            r == self@.current_line,
    {
        self.current_line
    }

    /// What was typed: the lines, each followed by a line feed.
    pub fn text(&self) -> (r: String)
        ensures
            r@ == joined_lines(self@.lines),
    {
        let ghost all = strings_view(self.lines@);
        let mut out = String::new();
        let mut i: usize = 0;
        assert(all.take(0) =~= Seq::empty());
        while i < self.lines.len()
            invariant
                i <= self.lines.len(),
                all == strings_view(self.lines@),
                out@ == joined_lines(all.take(i as int)),
            decreases self.lines.len() - i,
        {
            proof {
                assert(all.take(i + 1).drop_last() =~= all.take(i as int));
                assert(all.take(i + 1).last() == self.lines@[i as int]@);
            }
            append(&mut out, self.lines[i].as_str());
            out.push('\n');
            assert(out@ =~= joined_lines(all.take(i as int)) + all[i as int] + seq!['\n']);
            i += 1;
        }
        assert(all.take(i as int) =~= all);
        out
    }

    /// The width at which the box is drawn, or `None` where it does not
    /// fit a machine word.
    pub fn width(&self) -> (r: Option<usize>)
        ensures
            r matches Some(width) ==> width == box_width(self@),
            r is None ==> box_width(self@) > usize::MAX,
    {
        let ghost all = strings_view(self.lines@);
        let mut longest: usize = 0;
        let mut i: usize = 0;
        assert(all.take(0) =~= Seq::empty());
        while i < self.lines.len()
            invariant
                i <= self.lines.len(),
                all == strings_view(self.lines@),
                longest == longest_line(all.take(i as int)),
            decreases self.lines.len() - i,
        {
            proof {
                assert(all.take(i + 1).drop_last() =~= all.take(i as int));
                assert(all.take(i + 1).last() == self.lines@[i as int]@);
            }
            let len = self.lines[i].as_str().len();
            if len > longest {
                longest = len;
            }
            i += 1;
        }
        assert(all.take(i as int) =~= all);
        let title = self.title.as_str().len();
        if longest > usize::MAX - 4 || title > usize::MAX - 8 {
            return None;
        }
        let by_line: usize = longest + 4;
        let by_title: usize = title + 8;
        let wider = if by_line > by_title {
            by_line
        } else {
            by_title
        };
        if wider > MIN_BOX_WIDTH {
            Some(wider)
        } else {
            Some(MIN_BOX_WIDTH)
        }
    }
}

} // verus!
