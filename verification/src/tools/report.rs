//! What the tools build their results from: the lines of a text, texts
//! joined into one, numbers in a column, and counts and lists as JSON.

use vstd::prelude::*;
use crate::json::{items_view, push_item, Json, JsonNumber, JsonView, NumberView};
use crate::tools::{ToolResult, ToolResultView};
use crate::text::{
    append, chars_of, decimal, decimal_text, is_whitespace, join2, repeat, repeated, string_of,
    strings_view, whitespace,
};

verus! {

/// A line without the carriage return that stood before its line feed.
pub open spec fn without_return(line: Seq<char>) -> Seq<char> {
    if line.len() > 0 && line.last() == '\r' {
        line.drop_last()
    } else {
        line
    }
}

/// The lines of `text` from `i` on, after the lines `done` and the start
/// `current` of a line.  A line ends at a line feed, which is no part of
/// it, and neither is a carriage return right before the line feed; what
/// stands after the last line feed is a line unless it is empty.
pub open spec fn scan_lines(text: Seq<char>, i: int, current: Seq<char>, done: Seq<Seq<char>>)
    -> Seq<Seq<char>>
    decreases text.len() - i,
{
    if i < 0 || i >= text.len() {
        if current.len() > 0 {
            done.push(current)
        } else {
            done
        }
    } else if text[i] == '\n' {
        scan_lines(text, i + 1, Seq::empty(), done.push(without_return(current)))
    } else {
        scan_lines(text, i + 1, current.push(text[i]), done)
    }
}

/// The lines of a text, as `str::lines` gives them.
pub open spec fn lines_of(text: Seq<char>) -> Seq<Seq<char>> {
    scan_lines(text, 0, Seq::empty(), Seq::empty())
}

/// The lines of `text`.
pub fn split_lines(text: &str) -> (r: Vec<String>)
    ensures
        strings_view(r@) == lines_of(text@),
{
    let chars = chars_of(text);
    let mut done: Vec<String> = Vec::new();
    let mut current: Vec<char> = Vec::new();
    let mut i: usize = 0;
    assert(strings_view(done@) =~= Seq::empty());
    while i < chars.len()
        invariant
            i <= chars.len(),
            chars@ == text@,
            scan_lines(text@, i as int, current@, strings_view(done@)) == lines_of(text@),
        decreases chars.len() - i,
    {
        let c = chars[i];
        if c == '\n' {
            let ghost before = strings_view(done@);
            let ghost whole = current@;
            if current.len() > 0 && current[current.len() - 1] == '\r' {
                let _ = current.pop();
            }
            assert(current@ =~= without_return(whole));
            let line = string_of(&current);
            done.push(line);
            assert(strings_view(done@) =~= before.push(without_return(whole)));
            current = Vec::new();
        } else {
            current.push(c);
        }
        i += 1;
    }
    if current.len() > 0 {
        let ghost before = strings_view(done@);
        let line = string_of(&current);
        done.push(line);
        assert(strings_view(done@) =~= before.push(current@));
    }
    done
}

/// The texts `parts` in a row, with `separator` between one and the next.
pub open spec fn joined(parts: Seq<Seq<char>>, separator: Seq<char>) -> Seq<char>
    decreases parts.len(),
{
    if parts.len() == 0 {
        Seq::empty()
    } else if parts.len() == 1 {
        parts[0]
    } else {
        joined(parts.drop_last(), separator) + separator + parts.last()
    }
}

/// The texts `parts` in a row, with `separator` between one and the next.
pub fn join_with(parts: &Vec<String>, separator: &str) -> (r: String)
    ensures
        r@ == joined(strings_view(parts@), separator@),
{
    let ghost all = strings_view(parts@);
    let mut out = String::new();
    let mut i: usize = 0;
    while i < parts.len()
        invariant
            i <= parts.len(),
            all == strings_view(parts@),
            out@ == joined(all.take(i as int), separator@),
        decreases parts.len() - i,
    {
        if i > 0 {
            append(&mut out, separator);
        }
        append(&mut out, parts[i].as_str());
        proof {
            assert(all.take(i + 1).drop_last() =~= all.take(i as int));
            if i == 0 {
                assert(Seq::<char>::empty() + all[0] =~= all[0]);
            }
        }
        i += 1;
    }
    assert(all.take(i as int) =~= all);
    out
}

/// The texts `parts` as lines of one text: a line feed between one and
/// the next.
pub open spec fn stacked(parts: Seq<Seq<char>>) -> Seq<char> {
    joined(parts, "\n"@)
}

/// The texts `parts` as lines of one text.
pub fn stack(parts: &Vec<String>) -> (r: String)
    ensures
        r@ == stacked(strings_view(parts@)),
{
    join_with(parts, "\n")
}

/// Adds the line `line` at the end of `lines`.
pub fn push_line(lines: &mut Vec<String>, line: String)
    ensures
        strings_view(final(lines)@) == strings_view(old(lines)@).push(line@),
{
    lines.push(line);
    assert(strings_view(lines@) =~= strings_view(old(lines)@).push(line@));
}

/// A text in a column `width` wide, at its right edge: blanks stand
/// before it as far as it is shorter.
pub open spec fn right_aligned(text: Seq<char>, width: nat) -> Seq<char> {
    if text.len() < width {
        repeated(" "@, (width - text.len()) as nat) + text
    } else {
        text
    }
}

/// `text` in a column `width` wide, at its right edge.
pub fn align_right(text: &str, width: usize) -> (r: String)
    ensures
        r@ == right_aligned(text@, width as nat),
{
    let length = text.unicode_len();
    if length < width {
        let blanks = repeat(" ", width - length);
        join2(blanks.as_str(), text)
    } else {
        text.to_string()
    }
}

/// The digits of a count.
pub fn count_text(n: usize) -> (r: String)
    ensures
        r@ == decimal(n as nat),
{
    decimal_text(n as u64)
}

/// A count as JSON.
pub open spec fn count_view(n: int) -> JsonView {
    JsonView::Number(NumberView::Int(n))
}

/// The count `n` as JSON.
pub fn count_json(n: usize) -> (r: Json)
    ensures
        r@ == count_view(n as int),
{
    Json::Number(JsonNumber::UInt(n as u64))
}

/// A list of texts as JSON: the array of its strings.
pub open spec fn texts_view(texts: Seq<Seq<char>>) -> JsonView {
    JsonView::Array(Seq::new(texts.len(), |i: int| JsonView::Str(texts[i])))
}

/// The list `texts` as JSON.
pub fn texts_json(texts: &Vec<String>) -> (r: Json)
    ensures
        r@ == texts_view(strings_view(texts@)),
{
    let mut items: Vec<Json> = Vec::new();
    let mut i: usize = 0;
    assert(items_view(items@) =~= Seq::empty());
    while i < texts.len()
        invariant
            i <= texts.len(),
            items_view(items@) == Seq::new(i as nat, |k: int| JsonView::Str(texts@[k]@)),
        decreases texts.len() - i,
    {
        let ghost before = items_view(items@);
        push_item(&mut items, Json::Str(texts[i].clone()));
        assert(before.push(JsonView::Str(texts@[i as int]@)) =~= Seq::new(
            (i + 1) as nat,
            |k: int| JsonView::Str(texts@[k]@),
        ));
        i += 1;
    }
    assert(items_view(items@) =~= texts_view(strings_view(texts@))->Array_0);
    Json::array(items)
}

/// What came of running a tool, as values: the result, or the report of
/// why there is none.
pub open spec fn outcome_view(outcome: Result<ToolResult, String>) -> Result<
    ToolResultView,
    Seq<char>,
> {
    match outcome {
        Ok(result) => Ok(result@),
        Err(report) => Err(report@),
    }
}

/// The texts `texts[from..to]`.
pub fn copy_texts(texts: &Vec<String>, from: usize, to: usize) -> (r: Vec<String>)
    requires
        from <= to <= texts.len(),
    ensures
        strings_view(r@) == strings_view(texts@).subrange(from as int, to as int),
{
    let ghost all = strings_view(texts@);
    let mut out: Vec<String> = Vec::new();
    let mut i: usize = from;
    assert(strings_view(out@) =~= all.subrange(from as int, from as int));
    while i < to
        invariant
            from <= i <= to <= texts.len(),
            all == strings_view(texts@),
            strings_view(out@) == all.subrange(from as int, i as int),
        decreases to - i,
    {
        push_line(&mut out, texts[i].clone());
        assert(all.subrange(from as int, i as int).push(all[i as int]) =~= all.subrange(
            from as int,
            i + 1,
        ));
        i += 1;
    }
    out
}

/// Adds the lines `more` at the end of `lines`.
pub fn push_lines(lines: &mut Vec<String>, more: &Vec<String>)
    ensures
        strings_view(final(lines)@) == strings_view(old(lines)@) + strings_view(more@),
{
    let ghost start = strings_view(lines@);
    let ghost all = strings_view(more@);
    let mut i: usize = 0;
    assert(start + all.take(0) =~= start);
    while i < more.len()
        invariant
            i <= more.len(),
            all == strings_view(more@),
            strings_view(lines@) == start + all.take(i as int),
        decreases more.len() - i,
    {
        push_line(lines, more[i].clone());
        assert((start + all.take(i as int)).push(all[i as int]) =~= start + all.take(i + 1));
        i += 1;
    }
    assert(all.take(i as int) =~= all);
}

/// Each of `texts` with `before` in front of it and `after` behind it.
pub open spec fn decorated(texts: Seq<Seq<char>>, before: Seq<char>, after: Seq<char>) -> Seq<
    Seq<char>,
> {
    Seq::new(texts.len(), |i: int| before + texts[i] + after)
}

/// Adds to `lines` one line for each of `texts`: the text with `before`
/// in front of it and `after` behind it.
pub fn push_decorated(lines: &mut Vec<String>, texts: &Vec<String>, before: &str, after: &str)
    ensures
        strings_view(final(lines)@) == strings_view(old(lines)@) + decorated(
            strings_view(texts@),
            before@,
            after@,
        ),
{
    let ghost start = strings_view(lines@);
    let ghost all = decorated(strings_view(texts@), before@, after@);
    let mut i: usize = 0;
    assert(start + all.take(0) =~= start);
    while i < texts.len()
        invariant
            i <= texts.len(),
            all == decorated(strings_view(texts@), before@, after@),
            strings_view(lines@) == start + all.take(i as int),
        decreases texts.len() - i,
    {
        let mut line = join2(before, texts[i].as_str());
        append(&mut line, after);
        push_line(lines, line);
        assert((start + all.take(i as int)).push(all[i as int]) =~= start + all.take(i + 1));
        i += 1;
    }
    assert(all.take(i as int) =~= all);
}

/// A text without the white space that it begins with.
pub open spec fn trimmed_start(text: Seq<char>) -> Seq<char>
    decreases text.len(),
{
    if text.len() > 0 && whitespace(text[0]) {
        trimmed_start(text.drop_first())
    } else {
        text
    }
}

/// A text without the white space that it ends with.
pub open spec fn trimmed_end(text: Seq<char>) -> Seq<char>
    decreases text.len(),
{
    if text.len() > 0 && whitespace(text.last()) {
        trimmed_end(text.drop_last())
    } else {
        text
    }
}

/// A text without the white space at its two ends.
pub open spec fn trimmed(text: Seq<char>) -> Seq<char> {
    trimmed_end(trimmed_start(text))
}

/// `text` without the white space at its two ends.
pub fn trim_text(text: &str) -> (r: String)
    ensures
        r@ == trimmed(text@),
{
    let chars = chars_of(text);
    let mut start: usize = 0;
    assert(text@.skip(0) =~= text@);
    while start < chars.len() && is_whitespace(chars[start])
        invariant
            start <= chars.len(),
            chars@ == text@,
            trimmed_start(text@) == trimmed_start(text@.skip(start as int)),
        decreases chars.len() - start,
    {
        proof {
            assert(text@.skip(start as int).drop_first() =~= text@.skip(start + 1));
        }
        start += 1;
    }
    let mut end: usize = chars.len();
    assert(text@.skip(start as int) =~= text@.subrange(start as int, end as int));
    while end > start && is_whitespace(chars[end - 1])
        invariant
            start <= end <= chars.len(),
            chars@ == text@,
            trimmed(text@) == trimmed_end(text@.subrange(start as int, end as int)),
        decreases end,
    {
        proof {
            assert(text@.subrange(start as int, end as int).drop_last() =~= text@.subrange(
                start as int,
                end - 1,
            ));
        }
        end -= 1;
    }
    let mut out: Vec<char> = Vec::new();
    let mut i: usize = start;
    while i < end
        invariant
            start <= i <= end <= chars.len(),
            chars@ == text@,
            out@ == text@.subrange(start as int, i as int),
        decreases end - i,
    {
        out.push(chars[i]);
        assert(out@ =~= text@.subrange(start as int, i + 1));
        i += 1;
    }
    string_of(&out)
}

} // verus!
