//! A response as a bordered card: its lines, ready to print.

use vstd::prelude::*;
use crate::text::{
    append, byte_len, join3, repeat, repeated, split_words, strings_view, words,
};
use crate::tools::report::{lines_of, push_line, push_lines, split_lines};

verus! {

/// The width of a card that was given none.
pub const DEFAULT_WIDTH: usize = 120;

/// A card of some width, under a title.
#[derive(Debug, PartialEq, Eq)]
pub struct ResponseCard {
    pub width: usize,
    pub title: String,
}

pub ghost struct ResponseCardView {
    pub width: usize,
    pub title: Seq<char>,
}

impl View for ResponseCard {
    type V = ResponseCardView;

    open spec fn view(&self) -> ResponseCardView {
        ResponseCardView { width: self.width, title: self.title@ }
    }
}

/// The lines so far and the line that is being filled.
pub ghost struct Wrapping {
    pub lines: Seq<Seq<char>>,
    pub current: Seq<char>,
}

/// Takes one more word: it starts the line where the line is empty, it
/// joins the line after a space where the line has room for it, and else
/// the line is done and the word starts the next.
pub open spec fn wrap_word(state: Wrapping, word: Seq<char>, width: usize) -> Wrapping {
    if state.current.len() == 0 {
        Wrapping { lines: state.lines, current: word }
    } else if byte_len(state.current) + 1 + byte_len(word) <= width {
        Wrapping { lines: state.lines, current: state.current + seq![' '] + word }
    } else {
        Wrapping { lines: state.lines.push(state.current), current: word }
    }
}

/// Takes the words one after the other.
pub open spec fn wrap_words(all: Seq<Seq<char>>, width: usize) -> Wrapping
    decreases all.len(),
{
    if all.len() == 0 {
        Wrapping { lines: Seq::empty(), current: Seq::empty() }
    } else {
        wrap_word(wrap_words(all.drop_last(), width), all.last(), width)
    }
}

/// The lines that `text` is wrapped into: the text itself where it takes
/// no more than `width` bytes; else its words, as many to a line as fit
/// with a space between them, a word too long for a line on a line of its
/// own.
pub open spec fn wrapped(text: Seq<char>, width: usize) -> Seq<Seq<char>> {
    if byte_len(text) <= width {
        seq![text]
    } else {
        let state = wrap_words(words(text), width);
        if state.current.len() > 0 {
            state.lines.push(state.current)
        } else {
            state.lines
        }
    }
}

/// `a - b`, or 0 where `b` is the greater.
pub open spec fn minus(a: usize, b: usize) -> usize {
    if a >= b {
        (a - b) as usize
    } else {
        0
    }
}

/// `a - b`, or 0 where `b` is the greater.
pub fn saturating_minus(a: usize, b: usize) -> (r: usize)
    ensures
        r == minus(a, b),
{
    if a >= b {
        a - b
    } else {
        0
    }
}

/// The title as it stands in the border: between two spaces.
pub open spec fn spaced_title(title: Seq<char>) -> Seq<char> {
    " "@ + title + " "@
}

/// The length of the border to the left of the title.
pub open spec fn left_padding(card: ResponseCardView) -> usize {
    (minus(minus(card.width, 2), byte_len(spaced_title(card.title))) / 2) as usize
}

/// The length of the border to the right of the title.
pub open spec fn right_padding(card: ResponseCardView) -> usize {
    minus(minus(minus(card.width, 2), byte_len(spaced_title(card.title))), left_padding(card))
}

/// The top border, with the title in its middle.
pub open spec fn header(card: ResponseCardView) -> Seq<char> {
    "╭"@ + repeated("─"@, left_padding(card) as nat) + spaced_title(card.title) + repeated(
        "─"@,
        right_padding(card) as nat,
    ) + "╮"@
}

/// The bottom border.
pub open spec fn footer(card: ResponseCardView) -> Seq<char> {
    "╰"@ + repeated("─"@, minus(card.width, 2) as nat) + "╯"@
}

/// A line of content between the borders, padded to the width of the
/// card.
pub open spec fn content_row(card: ResponseCardView, line: Seq<char>) -> Seq<char> {
    "│ "@ + line + repeated(" "@, minus(minus(card.width, 4), byte_len(line)) as nat) + " │"@
}

/// An empty line between the borders.
pub open spec fn blank_row(card: ResponseCardView) -> Seq<char> {
    "│"@ + repeated(" "@, minus(card.width, 2) as nat)
}

/// The rows that show one line of content: an empty row for an empty
/// line, and else the line wrapped to the room between the borders, a row
/// for each piece.
pub open spec fn line_rows(card: ResponseCardView, line: Seq<char>) -> Seq<Seq<char>> {
    if line.len() == 0 {
        seq![blank_row(card)]
    } else {
        Seq::new(
            wrapped(line, minus(card.width, 4)).len(),
            |i: int| content_row(card, wrapped(line, minus(card.width, 4))[i]),
        )
    }
}

/// The rows that show the lines of a content, in order.
pub open spec fn content_rows(card: ResponseCardView, lines: Seq<Seq<char>>) -> Seq<Seq<char>>
    decreases lines.len(),
{
    if lines.len() == 0 {
        Seq::empty()
    } else {
        content_rows(card, lines.drop_last()) + line_rows(card, lines.last())
    }
}

/// A whole card: the top border, the rows of the content, the bottom
/// border.
pub open spec fn card_rows(card: ResponseCardView, content: Seq<char>) -> Seq<Seq<char>> {
    seq![header(card)] + content_rows(card, lines_of(content)) + seq![footer(card)]
}

impl ResponseCard {
    /// A card of the default width, titled `Response`.
    pub fn new() -> (r: Self)
        ensures
            r@ == (ResponseCardView { width: DEFAULT_WIDTH, title: "Response"@ }),
    {
        ResponseCard { width: DEFAULT_WIDTH, title: "Response".to_string() }
    }

    /// A card of the default width, under `title`.
    pub fn with_title(title: &str) -> (r: Self)
        ensures
            r@ == (ResponseCardView { width: DEFAULT_WIDTH, title: title@ }),
    {
        ResponseCard { width: DEFAULT_WIDTH, title: title.to_string() }
    }

    /// The same card, `width` wide.
    pub fn with_width(self, width: usize) -> (r: Self)
        ensures
            r@ == (ResponseCardView { width, ..self@ }),
    {
        let mut card = self;
        card.width = width;
        card
    }

    /// Wraps `text` into lines of no more than `width` bytes.
    pub fn wrap_text(&self, text: &str, width: usize) -> (r: Vec<String>)
        ensures
            strings_view(r@) == wrapped(text@, width),
    {
        let mut lines: Vec<String> = Vec::new();
        assert(strings_view(lines@) =~= Seq::empty());
        if text.len() <= width {
            lines.push(text.to_string());
            assert(strings_view(lines@) =~= seq![text@]);
            return lines;
        }
        let all = split_words(text);
        let ghost parts = strings_view(all@);
        let mut current = String::new();
        let mut i: usize = 0;
        assert(parts.take(0) =~= Seq::empty());
        while i < all.len()
            invariant
                i <= all.len(),
                parts == strings_view(all@),
                wrap_words(parts.take(i as int), width) == (Wrapping {
                    lines: strings_view(lines@),
                    current: current@,
                }),
            decreases all.len() - i,
        {
            proof {
                assert(parts.take(i + 1).drop_last() =~= parts.take(i as int));
                assert(parts.take(i + 1).last() == all@[i as int]@);
            }
            let word = &all[i];
            let held: usize = current.as_str().len();
            let more: usize = word.as_str().len();
            if current.as_str().unicode_len() == 0 {
                current = word.clone();
            } else if held < width && more <= width - held - 1 {
                let ghost line = current@;
                current.push(' ');
                append(&mut current, word.as_str());
                assert(current@ =~= line + seq![' '] + word@);
            } else {
                let ghost before = strings_view(lines@);
                let ghost done = current@;
                lines.push(current);
                assert(strings_view(lines@) =~= before.push(done));
                current = word.clone();
            }
            i += 1;
        }
        assert(parts.take(i as int) =~= parts);
        if current.as_str().unicode_len() > 0 {
            let ghost before = strings_view(lines@);
            let ghost done = current@;
            lines.push(current);
            assert(strings_view(lines@) =~= before.push(done));
        }
        lines
    }

    /// The top border, with the title in its middle.
    pub fn header_line(&self) -> (r: String)
        ensures
            r@ == header(self@),
    {
        let title = join3(" ", self.title.as_str(), " ");
        let room = saturating_minus(saturating_minus(self.width, 2), title.as_str().len());
        let left: usize = room / 2;
        let right: usize = saturating_minus(room, left);
        let before = repeat("─", left);
        let after = repeat("─", right);
        let start = join3("╭", before.as_str(), title.as_str());
        join3(start.as_str(), after.as_str(), "╮")
    }

    /// The bottom border.
    pub fn footer_line(&self) -> (r: String)
        ensures
            r@ == footer(self@),
    {
        let border = repeat("─", saturating_minus(self.width, 2));
        join3("╰", border.as_str(), "╯")
    }

    /// A line of content between the borders.
    pub fn content_line(&self, line: &str) -> (r: String)
        ensures
            r@ == content_row(self@, line@),
    {
        let room = saturating_minus(saturating_minus(self.width, 4), line.len());
        let padding = repeat(" ", room);
        let start = join3("│ ", line, padding.as_str());
        crate::text::join2(start.as_str(), " │")
    }

    /// An empty line between the borders.
    pub fn blank_line(&self) -> (r: String)
        ensures
            r@ == blank_row(self@),
    {
        let padding = repeat(" ", saturating_minus(self.width, 2));
        crate::text::join2("│", padding.as_str())
    }

    /// The rows that show `content` between the borders, line by line.
    pub fn content_lines(&self, content: &str) -> (r: Vec<String>)
        ensures
            strings_view(r@) == content_rows(self@, lines_of(content@)),
    {
        let lines = split_lines(content);
        let ghost all = strings_view(lines@);
        let room = saturating_minus(self.width, 4);
        let mut rows: Vec<String> = Vec::new();
        let mut i: usize = 0;
        assert(strings_view(rows@) =~= Seq::empty());
        assert(all.take(0) =~= Seq::empty());
        while i < lines.len()
            invariant
                i <= lines.len(),
                all == strings_view(lines@),
                room == minus(self@.width, 4),
                strings_view(rows@) == content_rows(self@, all.take(i as int)),
            decreases lines.len() - i,
        {
            proof {
                assert(all.take(i + 1).drop_last() =~= all.take(i as int));
            }
            let line = &lines[i];
            if line.as_str().unicode_len() == 0 {
                let ghost before = strings_view(rows@);
                push_line(&mut rows, self.blank_line());
                assert(before.push(blank_row(self@)) =~= before + seq![blank_row(self@)]);
            } else {
                let pieces = self.wrap_text(line.as_str(), room);
                let ghost wanted = line_rows(self@, all[i as int]);
                let mut shown: Vec<String> = Vec::new();
                let mut k: usize = 0;
                assert(strings_view(shown@) =~= wanted.take(0));
                while k < pieces.len()
                    invariant
                        k <= pieces.len(),
                        i < lines.len(),
                        all == strings_view(lines@),
                        all[i as int].len() > 0,
                        room == minus(self@.width, 4),
                        strings_view(pieces@) == wrapped(all[i as int], room),
                        wanted == line_rows(self@, all[i as int]),
                        strings_view(shown@) == wanted.take(k as int),
                    decreases pieces.len() - k,
                {
                    let ghost before = strings_view(shown@);
                    push_line(&mut shown, self.content_line(pieces[k].as_str()));
                    assert(strings_view(pieces@)[k as int] == pieces@[k as int]@);
                    assert(before.push(wanted[k as int]) =~= wanted.take(k + 1));
                    k += 1;
                }
                assert(wanted.take(k as int) =~= wanted);
                push_lines(&mut rows, &shown);
            }
            i += 1;
        }
        assert(all.take(i as int) =~= all);
        rows
    }

    /// The whole card for `content`, row by row.
    pub fn card_lines(&self, content: &str) -> (r: Vec<String>)
        ensures
            strings_view(r@) == card_rows(self@, content@),
    {
        let mut rows: Vec<String> = Vec::new();
        assert(strings_view(rows@) =~= Seq::empty());
        push_line(&mut rows, self.header_line());
        push_lines(&mut rows, &self.content_lines(content));
        push_line(&mut rows, self.footer_line());
        assert(strings_view(rows@) =~= card_rows(self@, content@));
        rows
    }
}

impl Default for ResponseCard {
    fn default() -> (r: Self)
        ensures
            r@ == (ResponseCardView { width: DEFAULT_WIDTH, title: "Response"@ }),
    {
        ResponseCard::new()
    }
}

} // verus!
