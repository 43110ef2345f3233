//! Text helpers: the few operations on `String` and `&str` that the rest
//! of the crate builds on, each with its meaning over the characters.

use vstd::prelude::*;
use vstd::std_specs::iter::IteratorSpec;

verus! {

/// `String::push` appends the character to the end of the string.
pub assume_specification[ String::push ](s: &mut String, c: char)
    ensures
        final(s)@ == old(s)@.push(c),
;

/// The characters of `s`.
pub fn chars_of(s: &str) -> (r: Vec<char>)
    ensures
        r@ == s@,
{
    let mut out: Vec<char> = Vec::new();
    let mut it = s.chars();
    loop
        invariant
            out@ + it.remaining() == s@,
            it.obeys_prophetic_iter_laws(),
            it.decrease() is Some,
        ensures
            out@ == s@,
        decreases it.decrease()->0,
    {
        match it.next() {
            Some(c) => {
                out.push(c);
            },
            None => {
                break;
            },
        }
    }
    out
}

/// The string made of the characters `v`.
pub fn string_of(v: &Vec<char>) -> (r: String)
    ensures
        r@ == v@,
{
    let mut out = String::new();
    let mut i: usize = 0;
    while i < v.len()
        invariant
            i <= v.len(),
            out@ == v@.take(i as int),
        decreases v.len() - i,
    {
        out.push(v[i]);
        i += 1;
    }
    out
}

/// Whether `a` and `b` hold the same characters.
pub fn same_text(a: &str, b: &str) -> (r: bool)
    ensures
        r == (a@ == b@),
{
    let x = a.to_string();
    let y = b.to_string();
    x == y
}


/// The characters of an optional string.
pub open spec fn opt_text(o: Option<String>) -> Option<Seq<char>> {
    match o {
        Some(s) => Some(s@),
        None => None,
    }
}

/// Appends `src` to `dst`.
pub fn append(dst: &mut String, src: &str)
    ensures
        final(dst)@ == old(dst)@ + src@,
{
    let mut it = src.chars();
    let ghost mut done: Seq<char> = Seq::empty();
    assert(old(dst)@ + done =~= old(dst)@);
    loop
        invariant
            done + it.remaining() == src@,
            dst@ == old(dst)@ + done,
            it.obeys_prophetic_iter_laws(),
            it.decrease() is Some,
        ensures
            dst@ == old(dst)@ + src@,
        decreases it.decrease()->0,
    {
        let ghost before = it.remaining();
        match it.next() {
            Some(c) => {
                dst.push(c);
                proof {
                    assert((old(dst)@ + done).push(c) =~= old(dst)@ + done.push(c));
                    assert(done.push(c) + before.drop_first() =~= done + before);
                    done = done.push(c);
                }
            },
            None => {
                proof {
                    assert(done + before =~= done);
                }
                break;
            },
        }
    }
}

/// `a` followed by `b`.
pub fn join2(a: &str, b: &str) -> (r: String)
    ensures
        r@ == a@ + b@,
{
    let mut out = String::new();
    append(&mut out, a);
    append(&mut out, b);
    assert(Seq::<char>::empty() + a@ =~= a@);
    out
}

/// `a`, `b` and `c` in a row.
pub fn join3(a: &str, b: &str, c: &str) -> (r: String)
    ensures
        r@ == a@ + b@ + c@,
{
    let mut out = join2(a, b);
    append(&mut out, c);
    out
}

/// A copy of an optional string.
pub fn clone_opt(o: &Option<String>) -> (r: Option<String>)
    ensures
        opt_text(r) == opt_text(*o),
{
    match o {
        Some(s) => Some(s.clone()),
        None => None,
    }
}

/// The character for the digit `d`.
pub open spec fn digit(d: int) -> char {
    ((48 + d) as u8) as char
}

/// The decimal numeral of `n`, without leading zeros.
pub open spec fn decimal(n: nat) -> Seq<char>
    decreases n,
{
    if n < 10 {
        seq![digit(n as int)]
    } else {
        decimal(n / 10).push(digit((n % 10) as int))
    }
}

/// The decimal numeral of `n`, with a minus sign where `n` is negative.
pub open spec fn signed_decimal(n: int) -> Seq<char> {
    if n < 0 {
        seq!['-'] + decimal((-n) as nat)
    } else {
        decimal(n as nat)
    }
}

/// The decimal numeral of `n`.
pub fn decimal_text(n: u64) -> (r: String)
    ensures
        r@ == decimal(n as nat),
{
    let mut digits: Vec<char> = Vec::new();
    let mut rest: u64 = n;
    // The digits come out last first.
    while rest >= 10
        invariant
            decimal(n as nat) == decimal(rest as nat) + digits@.reverse(),
        decreases rest,
    {
        let d: u8 = (rest % 10) as u8;
        let ghost before = digits@;
        digits.push((48 + d) as char);
        proof {
            assert(digits@.reverse() =~= seq![digit((rest % 10) as int)] + before.reverse());
            assert(decimal(rest as nat) == decimal((rest / 10) as nat).push(
                digit((rest % 10) as int),
            ));
            assert(decimal((rest / 10) as nat).push(digit((rest % 10) as int)) + before.reverse()
                =~= decimal((rest / 10) as nat) + (seq![digit((rest % 10) as int)]
                + before.reverse()));
        }
        rest = rest / 10;
    }
    let mut out = String::new();
    out.push((48 + (rest as u8)) as char);
    let mut i: usize = digits.len();
    assert(digits@.reverse().take(0) =~= Seq::<char>::empty());
    while i > 0
        invariant
            i <= digits.len(),
            rest < 10,
            out@ == seq![digit(rest as int)] + digits@.reverse().take(digits.len() - i),
        decreases i,
    {
        i -= 1;
        out.push(digits[i]);
        proof {
            let rev = digits@.reverse();
            assert(rev.take(digits.len() - i) =~= rev.take(digits.len() - i - 1).push(
                digits@[i as int],
            ));
            assert((seq![digit(rest as int)] + rev.take(digits.len() - i - 1)).push(
                digits@[i as int],
            ) =~= seq![digit(rest as int)] + rev.take(digits.len() - i));
        }
    }
    assert(digits@.reverse().take(digits.len() as int) =~= digits@.reverse());
    out
}

/// The decimal numeral of `n`, with a minus sign where `n` is negative.
pub fn signed_decimal_text(n: i64) -> (r: String)
    ensures
        r@ == signed_decimal(n as int),
{
    if n < 0 {
        let magnitude: u64 = if n == i64::MIN {
            9223372036854775808u64
        } else {
            (-n) as u64
        };
        let digits = decimal_text(magnitude);
        proof {
            reveal_strlit("-");
            assert("-"@ =~= seq!['-']);
        }
        join2("-", digits.as_str())
    } else {
        decimal_text(n as u64)
    }
}

/// What `String::from_utf8_lossy` makes of `bytes`.
pub uninterp spec fn utf8_lossy(bytes: Seq<u8>) -> Seq<char>;

/// Reads `bytes` as text with `String::from_utf8_lossy`: the text that the
/// bytes encode, with a replacement character for each part that is not
/// valid UTF-8.  The text depends on the bytes alone.
#[verifier::external_body]
pub(crate) fn lossy_text(bytes: &[u8]) -> (r: String)
    ensures
        r@ == utf8_lossy(bytes@),
{
    String::from_utf8_lossy(bytes).into_owned()
}

/// What `str::to_lowercase` makes of a text.
pub uninterp spec fn lowercased(text: Seq<char>) -> Seq<char>;

/// The lowercase of `text`, by `str::to_lowercase`: each character is
/// replaced by its lowercase as Unicode defines it.  The result depends on
/// the text alone.
#[verifier::external_body]
pub(crate) fn lowercase(text: &str) -> (r: String)
    ensures
        r@ == lowercased(text@),
{
    text.to_lowercase()
}

/// Whether a character is white space, as `char::is_whitespace` has it:
/// whether it has the Unicode property `White_Space`.
pub open spec fn whitespace(c: char) -> bool {
    let n = c as u32;
    (0x09 <= n && n <= 0x0d) || n == 0x20 || n == 0x85 || n == 0xa0 || n == 0x1680 || (0x2000 <= n
        && n <= 0x200a) || n == 0x2028 || n == 0x2029 || n == 0x202f || n == 0x205f || n == 0x3000
}

/// Whether `c` is white space.
pub fn is_whitespace(c: char) -> (r: bool)
    ensures
        r == whitespace(c),
{
    let n: u32 = c as u32;
    (0x09 <= n && n <= 0x0d) || n == 0x20 || n == 0x85 || n == 0xa0 || n == 0x1680 || (0x2000 <= n
        && n <= 0x200a) || n == 0x2028 || n == 0x2029 || n == 0x202f || n == 0x205f || n == 0x3000
}

/// Whether `needle` occurs in `hay` at `at`.
pub open spec fn occurs_at(hay: Seq<char>, needle: Seq<char>, at: int) -> bool {
    0 <= at && at + needle.len() <= hay.len() && hay.subrange(at, at + needle.len()) == needle
}

/// Whether `needle` occurs somewhere in `hay`.
pub open spec fn contains(hay: Seq<char>, needle: Seq<char>) -> bool {
    exists|at: int| occurs_at(hay, needle, at)
}

/// Whether `needle` occurs in `hay` at `at`.
pub fn matches_at(hay: &Vec<char>, needle: &Vec<char>, at: usize) -> (r: bool)
    requires
        at + needle.len() <= hay.len(),
    ensures
        r == occurs_at(hay@, needle@, at as int),
{
    let mut k: usize = 0;
    while k < needle.len()
        invariant
            k <= needle.len(),
            at + needle.len() <= hay.len(),
            forall|j: int| 0 <= j < k ==> hay@[at + j] == needle@[j],
        decreases needle.len() - k,
    {
        if hay[at + k] != needle[k] {
            assert(hay@.subrange(at as int, at + needle.len())[k as int] != needle@[k as int]);
            return false;
        }
        k += 1;
    }
    assert(hay@.subrange(at as int, at + needle.len()) =~= needle@);
    true
}

/// Whether `needle` occurs somewhere in `hay`.
pub fn text_contains(hay: &str, needle: &str) -> (r: bool)
    ensures
        r == contains(hay@, needle@),
{
    let text = chars_of(hay);
    let word = chars_of(needle);
    if word.len() > text.len() {
        return false;
    }
    let last: usize = text.len() - word.len();
    let mut at: usize = 0;
    loop
        invariant
            at <= last,
            last + word.len() == text.len(),
            text@ == hay@,
            word@ == needle@,
            forall|j: int| 0 <= j < at ==> !occurs_at(hay@, needle@, j),
        ensures
            !contains(hay@, needle@),
        decreases last - at,
    {
        if matches_at(&text, &word, at) {
            assert(occurs_at(hay@, needle@, at as int));
            return true;
        }
        if at == last {
            break;
        }
        at += 1;
    }
    false
}

/// `n` copies of `unit` in a row.
pub open spec fn repeated(unit: Seq<char>, n: nat) -> Seq<char>
    decreases n,
{
    if n == 0 {
        Seq::empty()
    } else {
        repeated(unit, (n - 1) as nat) + unit
    }
}

/// `n` copies of `unit` in a row.
pub fn repeat(unit: &str, n: usize) -> (r: String)
    ensures
        r@ == repeated(unit@, n as nat),
{
    let mut out = String::new();
    let mut i: usize = 0;
    while i < n
        invariant
            i <= n,
            out@ == repeated(unit@, i as nat),
        decreases n - i,
    {
        append(&mut out, unit);
        i += 1;
    }
    out
}

/// The number of bytes that a text takes in UTF-8, as `str::len` gives it.
pub open spec fn byte_len(text: Seq<char>) -> usize {
    vstd::utf8::encode_utf8(text).len() as usize
}

/// The text without its last character; the empty text stays empty.
pub open spec fn without_last(text: Seq<char>) -> Seq<char> {
    if text.len() == 0 {
        text
    } else {
        text.drop_last()
    }
}

/// The text without its last character.
pub fn drop_last_char(text: &str) -> (r: String)
    ensures
        r@ == without_last(text@),
{
    let mut chars = chars_of(text);
    let _ = chars.pop();
    assert(chars@ =~= without_last(text@));
    string_of(&chars)
}

/// The characters of each of a list of strings.
pub open spec fn strings_view(strings: Seq<String>) -> Seq<Seq<char>> {
    Seq::new(strings.len(), |i: int| strings[i]@)
}

/// A copy of a list of strings.
pub fn clone_strings(strings: &Vec<String>) -> (r: Vec<String>)
    ensures
        strings_view(r@) == strings_view(strings@),
{
    let mut out: Vec<String> = Vec::new();
    let mut i: usize = 0;
    while i < strings.len()
        invariant
            i <= strings.len(),
            out.len() == i,
            forall|k: int| 0 <= k < i ==> out@[k]@ == strings@[k]@,
        decreases strings.len() - i,
    {
        out.push(strings[i].clone());
        i += 1;
    }
    assert(strings_view(out@) =~= strings_view(strings@));
    out
}

/// `done` with the word `current` added, unless `current` is empty.
pub open spec fn with_word(done: Seq<Seq<char>>, current: Seq<char>) -> Seq<Seq<char>> {
    if current.len() > 0 {
        done.push(current)
    } else {
        done
    }
}

/// The words of `text` from `i` on, after the words `done` and the start
/// `current` of a word: a word ends where white space follows it, or the
/// text ends.
pub open spec fn scan_words(text: Seq<char>, i: int, current: Seq<char>, done: Seq<Seq<char>>)
    -> Seq<Seq<char>>
    decreases text.len() - i,
{
    if i >= text.len() {
        with_word(done, current)
    } else if whitespace(text[i]) {
        scan_words(text, i + 1, Seq::empty(), with_word(done, current))
    } else {
        scan_words(text, i + 1, current.push(text[i]), done)
    }
}

/// The words of `text`: its longest runs of characters that are not
/// white space, in order.
pub open spec fn words(text: Seq<char>) -> Seq<Seq<char>> {
    scan_words(text, 0, Seq::empty(), Seq::empty())
}

/// The words of `text`.
pub fn split_words(text: &str) -> (r: Vec<String>)
    ensures
        strings_view(r@) == words(text@),
        forall|i: int| 0 <= i < r.len() ==> (#[trigger] r[i])@.len() > 0,
{
    let chars = chars_of(text);
    let mut done: Vec<String> = Vec::new();
    let mut current = String::new();
    let mut i: usize = 0;
    assert(strings_view(done@) =~= Seq::empty());
    while i < chars.len()
        invariant
            i <= chars.len(),
            chars@ == text@,
            scan_words(text@, i as int, current@, strings_view(done@)) == words(text@),
            forall|k: int| 0 <= k < done.len() ==> (#[trigger] done[k])@.len() > 0,
        decreases chars.len() - i,
    {
        let c = chars[i];
        if is_whitespace(c) {
            if current.as_str().unicode_len() > 0 {
                let ghost before = strings_view(done@);
                let ghost word = current@;
                done.push(current);
                assert(strings_view(done@) =~= before.push(word));
                current = String::new();
            } else {
                assert(current@ =~= Seq::<char>::empty());
            }
        } else {
            current.push(c);
        }
        i += 1;
    }
    if current.as_str().unicode_len() > 0 {
        let ghost before = strings_view(done@);
        let ghost word = current@;
        done.push(current);
        assert(strings_view(done@) =~= before.push(word));
    }
    done
}

/// The words `words[from..to]` in a row, with one space between a word
/// and the next.
pub open spec fn spaced(words: Seq<Seq<char>>, from: int, to: int) -> Seq<char>
    decreases to - from,
{
    if to <= from {
        Seq::empty()
    } else if to == from + 1 {
        words[from]
    } else {
        spaced(words, from, to - 1) + seq![' '] + words[to - 1]
    }
}

/// The words `words[from..to]` in a row, with one space between a word
/// and the next.
pub fn join_spaced(words: &Vec<String>, from: usize, to: usize) -> (r: String)
    requires
        from <= to <= words.len(),
    ensures
        r@ == spaced(strings_view(words@), from as int, to as int),
{
    let ghost all = strings_view(words@);
    let mut out = String::new();
    let mut i: usize = from;
    while i < to
        invariant
            from <= i <= to <= words.len(),
            all == strings_view(words@),
            out@ == spaced(all, from as int, i as int),
        decreases to - i,
    {
        if i > from {
            out.push(' ');
        }
        append(&mut out, words[i].as_str());
        proof {
            if i == from {
                assert(Seq::<char>::empty() + all[i as int] =~= all[i as int]);
            } else {
                assert(spaced(all, from as int, i as int).push(' ') =~= spaced(
                    all,
                    from as int,
                    i as int,
                ) + seq![' ']);
            }
        }
        i += 1;
    }
    out
}

} // verus!
