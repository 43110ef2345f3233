//! The wire event decoder: server-sent events out of a byte stream.
//!
//! A response body arrives in chunks whose boundaries say nothing about its
//! content.  [`SseDecoder`] keeps the bytes that do not yet make a whole
//! event, and hands out the `data: ` payloads of every event that a chunk
//! completes.  [`decode`] says what it computes, on the whole stream at once,
//! and [`lemma_decode_chunks`] that the chunking does not matter.

use vstd::prelude::*;

verus! {

pub const LF: u8 = 10;

pub const CR: u8 = 13;

/// Whether the byte is ASCII white space.
pub open spec fn is_space(byte: u8) -> bool {
    byte == 32 || (9 <= byte && byte <= 13)
}

/// The prefix that marks a data line: `data: `.
pub open spec fn data_prefix() -> Seq<u8> {
    seq![100u8, 97u8, 116u8, 97u8, 58u8, 32u8]
}

/// The payload that ends a stream and carries nothing: `[DONE]`.
pub open spec fn done_sentinel() -> Seq<u8> {
    seq![91u8, 68u8, 79u8, 78u8, 69u8, 93u8]
}

/// The length of the event delimiter that starts at `i`: 4 for CR LF CR LF,
/// 2 for LF LF, 0 where none starts.
pub open spec fn delimiter_len(buf: Seq<u8>, i: int) -> int {
    if 0 <= i && i + 4 <= buf.len() && buf[i] == CR && buf[i + 1] == LF && buf[i + 2] == CR
        && buf[i + 3] == LF {
        4
    } else if 0 <= i && i + 2 <= buf.len() && buf[i] == LF && buf[i + 1] == LF {
        2
    } else {
        0
    }
}

/// The first index at or after `from` where a delimiter starts, or the
/// length of `buf` where none does.
pub open spec fn find_delimiter(buf: Seq<u8>, from: int) -> int
    decreases buf.len() - from,
{
    if from >= buf.len() {
        buf.len() as int
    } else if delimiter_len(buf, from) > 0 {
        from
    } else {
        find_delimiter(buf, from + 1)
    }
}

/// The first index at or after `from` that holds a line feed, or the length
/// of `bytes` where none does.
pub open spec fn find_line_end(bytes: Seq<u8>, from: int) -> int
    decreases bytes.len() - from,
{
    if from >= bytes.len() {
        bytes.len() as int
    } else if bytes[from] == LF {
        from
    } else {
        find_line_end(bytes, from + 1)
    }
}

/// `bytes` without the white space at its start.
pub open spec fn trim_start(bytes: Seq<u8>) -> Seq<u8>
    decreases bytes.len(),
{
    if bytes.len() > 0 && is_space(bytes[0]) {
        trim_start(bytes.drop_first())
    } else {
        bytes
    }
}

/// `bytes` without the white space at its end.
pub open spec fn trim_end(bytes: Seq<u8>) -> Seq<u8>
    decreases bytes.len(),
{
    if bytes.len() > 0 && is_space(bytes.last()) {
        trim_end(bytes.drop_last())
    } else {
        bytes
    }
}

/// `bytes` without the white space at either end.
pub open spec fn trim(bytes: Seq<u8>) -> Seq<u8> {
    trim_start(trim_end(bytes))
}

/// The payload that one line of an event carries: what follows `data: ` on
/// the trimmed line, unless that is blank or the `[DONE]` sentinel.
pub open spec fn line_payload(line: Seq<u8>) -> Option<Seq<u8>> {
    let trimmed = trim(line);
    if trimmed.len() >= 6 && trimmed.take(6) == data_prefix() {
        let payload = trimmed.skip(6);
        let body = trim_start(payload);
        if body.len() == 0 || body == done_sentinel() {
            None
        } else {
            Some(payload)
        }
    } else {
        None
    }
}

/// The payloads of one event, line by line, in order.
pub open spec fn event_payloads(event: Seq<u8>) -> Seq<Seq<u8>>
    decreases event.len(),
    via event_payloads_decreases
{
    let end = find_line_end(event, 0);
    let here = match line_payload(event.take(end)) {
        Some(payload) => seq![payload],
        None => Seq::empty(),
    };
    if end >= event.len() {
        here
    } else {
        here + event_payloads(event.skip(end + 1))
    }
}

/// What a stream decodes to.
pub ghost struct Decoded {
    /// The payloads of its complete events, in order.
    pub payloads: Seq<Seq<u8>>,
    /// What follows its last delimiter: the start of an event that is not
    /// complete yet.
    pub residue: Seq<u8>,
}

/// Decodes `buf`: splits it at each delimiter in turn, takes the payloads
/// of every event so cut off, and leaves what follows the last delimiter.
pub open spec fn decode(buf: Seq<u8>) -> Decoded
    decreases buf.len(),
    via decode_decreases
{
    let at = find_delimiter(buf, 0);
    if at >= buf.len() {
        Decoded { payloads: Seq::empty(), residue: buf }
    } else {
        let rest = decode(buf.skip(at + delimiter_len(buf, at)));
        Decoded { payloads: event_payloads(buf.take(at)) + rest.payloads, residue: rest.residue }
    }
}

/// What a decoder that starts with `residue` held back gives for `chunks`
/// fed one after the other.
pub open spec fn decode_chunks(residue: Seq<u8>, chunks: Seq<Seq<u8>>) -> Decoded
    decreases chunks.len(),
{
    if chunks.len() == 0 {
        Decoded { payloads: Seq::empty(), residue }
    } else {
        let first = decode(residue + chunks[0]);
        let rest = decode_chunks(first.residue, chunks.drop_first());
        Decoded { payloads: first.payloads + rest.payloads, residue: rest.residue }
    }
}

/// The chunks joined into one stream.
pub open spec fn concat(chunks: Seq<Seq<u8>>) -> Seq<u8>
    decreases chunks.len(),
{
    if chunks.len() == 0 {
        Seq::empty()
    } else {
        chunks[0] + concat(chunks.drop_first())
    }
}

/// The views of a list of byte vectors.
pub open spec fn payloads_view(payloads: Seq<Vec<u8>>) -> Seq<Seq<u8>> {
    Seq::new(payloads.len(), |i: int| payloads[i]@)
}

proof fn lemma_find_delimiter(buf: Seq<u8>, from: int)
    requires
        0 <= from <= buf.len(),
    ensures
        from <= find_delimiter(buf, from) <= buf.len(),
        find_delimiter(buf, from) < buf.len() ==> delimiter_len(buf, find_delimiter(buf, from)) > 0,
        forall|j: int| from <= j < find_delimiter(buf, from) ==> delimiter_len(buf, j) == 0,
    decreases buf.len() - from,
{
    if from < buf.len() && delimiter_len(buf, from) == 0 {
        lemma_find_delimiter(buf, from + 1);
    }
}

proof fn lemma_find_delimiter_is(buf: Seq<u8>, from: int, at: int)
    requires
        0 <= from <= at <= buf.len(),
        at < buf.len() ==> delimiter_len(buf, at) > 0,
        forall|j: int| from <= j < at ==> delimiter_len(buf, j) == 0,
    ensures
        find_delimiter(buf, from) == at,
    decreases at - from,
{
    if from < at {
        lemma_find_delimiter_is(buf, from + 1, at);
    }
}

proof fn lemma_find_line_end(bytes: Seq<u8>, from: int)
    requires
        0 <= from <= bytes.len(),
    ensures
        from <= find_line_end(bytes, from) <= bytes.len(),
        find_line_end(bytes, from) < bytes.len() ==> bytes[find_line_end(bytes, from)] == LF,
        forall|j: int| from <= j < find_line_end(bytes, from) ==> bytes[j] != LF,
    decreases bytes.len() - from,
{
    if from < bytes.len() && bytes[from] != LF {
        lemma_find_line_end(bytes, from + 1);
    }
}

proof fn lemma_find_line_end_is(bytes: Seq<u8>, from: int, at: int)
    requires
        0 <= from <= at <= bytes.len(),
        at < bytes.len() ==> bytes[at] == LF,
        forall|j: int| from <= j < at ==> bytes[j] != LF,
    ensures
        find_line_end(bytes, from) == at,
    decreases at - from,
{
    if from < at {
        lemma_find_line_end_is(bytes, from + 1, at);
    }
}

#[via_fn]
proof fn event_payloads_decreases(event: Seq<u8>) {
    lemma_find_line_end(event, 0);
}

#[via_fn]
proof fn decode_decreases(buf: Seq<u8>) {
    lemma_find_delimiter(buf, 0);
}

/// A delimiter that a buffer holds is still its first delimiter, and of
/// the same length, whatever bytes follow the buffer.
proof fn lemma_delimiter_stable(a: Seq<u8>, b: Seq<u8>)
    requires
        find_delimiter(a, 0) < a.len(),
    ensures
        find_delimiter(a + b, 0) == find_delimiter(a, 0),
        delimiter_len(a + b, find_delimiter(a, 0)) == delimiter_len(a, find_delimiter(a, 0)),
{
    let at = find_delimiter(a, 0);
    let ab = a + b;
    lemma_find_delimiter(a, 0);
    assert forall|j: int| 0 <= j < a.len() implies ab[j] == a[j] by {}
    assert(delimiter_len(ab, at) == delimiter_len(a, at));
    assert forall|j: int| 0 <= j < at implies delimiter_len(ab, j) == 0 by {
        assert(delimiter_len(a, j) == 0);
        if j + 4 <= a.len() {
        } else {
            assert(j + 2 <= a.len());
        }
    }
    lemma_find_delimiter_is(ab, 0, at);
}

/// Chunking invariance, for one cut: decoding a stream gives what decoding
/// its first part gives, followed by what decoding the held-back bytes and
/// the second part gives.
pub proof fn lemma_decode_split(a: Seq<u8>, b: Seq<u8>)
    ensures
        decode(a + b).payloads == decode(a).payloads + decode(decode(a).residue + b).payloads,
        decode(a + b).residue == decode(decode(a).residue + b).residue,
    decreases a.len(),
{
    let at = find_delimiter(a, 0);
    lemma_find_delimiter(a, 0);
    if at >= a.len() {
        assert(decode(a).residue == a);
        assert(decode(a).payloads + decode(a + b).payloads =~= decode(a + b).payloads);
    } else {
        let ab = a + b;
        let len = delimiter_len(a, at);
        lemma_delimiter_stable(a, b);
        let tail = a.skip(at + len);
        assert(ab.skip(at + len) =~= tail + b);
        assert(ab.take(at) =~= a.take(at));
        lemma_decode_split(tail, b);
        let head = event_payloads(a.take(at));
        assert(decode(ab).payloads == head + decode(tail + b).payloads);
        assert(decode(a).payloads == head + decode(tail).payloads);
        assert(head + (decode(tail).payloads + decode(decode(tail).residue + b).payloads) =~= (head
            + decode(tail).payloads) + decode(decode(tail).residue + b).payloads);
    }
}

/// Chunking invariance: however a stream is cut into chunks, feeding the
/// chunks one after the other gives the payloads, and leaves the residue,
/// of the stream decoded as a whole.
pub proof fn lemma_decode_chunks(chunks: Seq<Seq<u8>>)
    ensures
        decode_chunks(Seq::empty(), chunks) == decode(concat(chunks)),
{
    lemma_decode_chunks_from(Seq::empty(), chunks);
    assert(Seq::<u8>::empty() + concat(chunks) =~= concat(chunks));
}

/// However differently one stream is cut into chunks, the decoder gives
/// the same payloads and holds back the same bytes.
pub proof fn lemma_chunking_invariance(one: Seq<Seq<u8>>, other: Seq<Seq<u8>>)
    requires
        concat(one) == concat(other),
    ensures
        decode_chunks(Seq::empty(), one) == decode_chunks(Seq::empty(), other),
{
    lemma_decode_chunks(one);
    lemma_decode_chunks(other);
}

proof fn lemma_decode_chunks_from(residue: Seq<u8>, chunks: Seq<Seq<u8>>)
    requires
        decode(residue).residue == residue,
        decode(residue).payloads.len() == 0,
    ensures
        decode_chunks(residue, chunks) == decode(residue + concat(chunks)),
    decreases chunks.len(),
{
    if chunks.len() == 0 {
        assert(residue + concat(chunks) =~= residue);
        assert(decode(residue).payloads =~= Seq::<Seq<u8>>::empty());
    } else {
        let first = decode(residue + chunks[0]);
        let rest = chunks.drop_first();
        lemma_residue_is_settled(residue + chunks[0]);
        lemma_decode_chunks_from(first.residue, rest);
        lemma_decode_split(residue + chunks[0], concat(rest));
        assert((residue + chunks[0]) + concat(rest) =~= residue + concat(chunks));
    }
}

/// What decoding leaves holds no delimiter: decoding it again gives no
/// payload and leaves it as it is.
pub proof fn lemma_residue_is_settled(buf: Seq<u8>)
    ensures
        decode(decode(buf).residue).residue == decode(buf).residue,
        decode(decode(buf).residue).payloads.len() == 0,
    decreases buf.len(),
{
    let at = find_delimiter(buf, 0);
    lemma_find_delimiter(buf, 0);
    if at < buf.len() {
        lemma_residue_is_settled(buf.skip(at + delimiter_len(buf, at)));
    }
}

fn is_space_byte(byte: u8) -> (r: bool)
    ensures
        r == is_space(byte),
{
    byte == 32 || (9 <= byte && byte <= 13)
}

/// A copy of `bytes[from..to]`.
pub fn copy_range(bytes: &[u8], from: usize, to: usize) -> (r: Vec<u8>)
    requires
        from <= to <= bytes.len(),
    ensures
        r@ == bytes@.subrange(from as int, to as int),
{
    let mut out: Vec<u8> = Vec::new();
    let mut i: usize = from;
    while i < to
        invariant
            from <= i <= to <= bytes.len(),
            out@ == bytes@.subrange(from as int, i as int),
        decreases to - i,
    {
        out.push(bytes[i]);
        i += 1;
    }
    out
}

proof fn lemma_trim_end_range(bytes: Seq<u8>, from: int, hi: int)
    requires
        0 <= from <= hi <= bytes.len(),
    ensures
        hi > from && is_space(bytes[hi - 1]) ==> trim_end(bytes.subrange(from, hi)) == trim_end(
            bytes.subrange(from, hi - 1),
        ),
        hi == from || !is_space(bytes[hi - 1]) ==> trim_end(bytes.subrange(from, hi))
            == bytes.subrange(from, hi),
{
    if hi > from {
        assert(bytes.subrange(from, hi).drop_last() =~= bytes.subrange(from, hi - 1));
    }
}

proof fn lemma_trim_start_range(bytes: Seq<u8>, lo: int, hi: int)
    requires
        0 <= lo <= hi <= bytes.len(),
    ensures
        lo < hi && is_space(bytes[lo]) ==> trim_start(bytes.subrange(lo, hi)) == trim_start(
            bytes.subrange(lo + 1, hi),
        ),
        lo == hi || !is_space(bytes[lo]) ==> trim_start(bytes.subrange(lo, hi)) == bytes.subrange(
            lo,
            hi,
        ),
{
    if lo < hi {
        assert(bytes.subrange(lo, hi).drop_first() =~= bytes.subrange(lo + 1, hi));
    }
}

/// The payload of the line `bytes[from..to]`.
fn line_payload_of(bytes: &[u8], from: usize, to: usize) -> (r: Option<Vec<u8>>)
    requires
        from <= to <= bytes.len(),
    ensures
        r is Some == line_payload(bytes@.subrange(from as int, to as int)) is Some,
        r matches Some(payload) ==> line_payload(bytes@.subrange(from as int, to as int)) == Some(
            payload@,
        ),
{
    let ghost line = bytes@.subrange(from as int, to as int);
    let mut hi: usize = to;
    while hi > from && is_space_byte(bytes[hi - 1])
        invariant
            from <= hi <= to <= bytes.len(),
            trim_end(line) == trim_end(bytes@.subrange(from as int, hi as int)),
        decreases hi,
    {
        proof {
            lemma_trim_end_range(bytes@, from as int, hi as int);
        }
        hi -= 1;
    }
    proof {
        lemma_trim_end_range(bytes@, from as int, hi as int);
    }
    let mut lo: usize = from;
    while lo < hi && is_space_byte(bytes[lo])
        invariant
            from <= lo <= hi <= bytes.len(),
            trim(line) == trim_start(bytes@.subrange(lo as int, hi as int)),
        decreases hi - lo,
    {
        proof {
            lemma_trim_start_range(bytes@, lo as int, hi as int);
        }
        lo += 1;
    }
    proof {
        lemma_trim_start_range(bytes@, lo as int, hi as int);
    }
    let ghost trimmed = bytes@.subrange(lo as int, hi as int);
    assert(trim(line) == trimmed);
    if hi - lo < 6 {
        return None;
    }
    let marked = bytes[lo] == 100 && bytes[lo + 1] == 97 && bytes[lo + 2] == 116 && bytes[lo + 3]
        == 97 && bytes[lo + 4] == 58 && bytes[lo + 5] == 32;
    proof {
        let head = trimmed.take(6);
        if marked {
            assert(head =~= data_prefix());
        } else {
            assert(head[0] == bytes[lo as int] && head[1] == bytes[lo + 1] && head[2] == bytes[lo
                + 2] && head[3] == bytes[lo + 3] && head[4] == bytes[lo + 4] && head[5]
                == bytes[lo + 5]);
            assert(data_prefix()[0] == 100 && data_prefix()[1] == 97 && data_prefix()[2] == 116
                && data_prefix()[3] == 97 && data_prefix()[4] == 58 && data_prefix()[5] == 32);
        }
    }
    if !marked {
        return None;
    }
    let start: usize = lo + 6;
    let ghost payload = bytes@.subrange(start as int, hi as int);
    assert(trimmed.skip(6) =~= payload);
    let mut body: usize = start;
    while body < hi && is_space_byte(bytes[body])
        invariant
            start <= body <= hi <= bytes.len(),
            trim_start(payload) == trim_start(bytes@.subrange(body as int, hi as int)),
        decreases hi - body,
    {
        proof {
            lemma_trim_start_range(bytes@, body as int, hi as int);
        }
        body += 1;
    }
    proof {
        lemma_trim_start_range(bytes@, body as int, hi as int);
    }
    let ghost rest = bytes@.subrange(body as int, hi as int);
    assert(trim_start(payload) == rest);
    if body == hi {
        return None;
    }
    if hi - body == 6 {
        let done = bytes[body] == 91 && bytes[body + 1] == 68 && bytes[body + 2] == 79 && bytes[body
            + 3] == 78 && bytes[body + 4] == 69 && bytes[body + 5] == 93;
        proof {
            if done {
                assert(rest =~= done_sentinel());
            } else {
                assert(rest[0] == bytes[body as int] && rest[1] == bytes[body + 1] && rest[2]
                    == bytes[body + 2] && rest[3] == bytes[body + 3] && rest[4] == bytes[body + 4]
                    && rest[5] == bytes[body + 5]);
                assert(done_sentinel()[0] == 91 && done_sentinel()[1] == 68 && done_sentinel()[2]
                    == 79 && done_sentinel()[3] == 78 && done_sentinel()[4] == 69
                    && done_sentinel()[5] == 93);
            }
        }
        if done {
            return None;
        }
    } else {
        assert(rest.len() != done_sentinel().len());
    }
    Some(copy_range(bytes, start, hi))
}

/// Appends to `out` the payloads of the event `bytes[from..to]`.
fn event_payloads_into(bytes: &[u8], from: usize, to: usize, out: &mut Vec<Vec<u8>>)
    requires
        from <= to <= bytes.len(),
    ensures
        payloads_view(final(out)@) == payloads_view(old(out)@) + event_payloads(
            bytes@.subrange(from as int, to as int),
        ),
{
    let ghost target = payloads_view(out@) + event_payloads(
        bytes@.subrange(from as int, to as int),
    );
    let mut pos: usize = from;
    loop
        invariant_except_break
            from <= pos <= to <= bytes.len(),
            payloads_view(out@) + event_payloads(bytes@.subrange(pos as int, to as int)) == target,
        ensures
            payloads_view(out@) == target,
        decreases to - pos,
    {
        let ghost event = bytes@.subrange(pos as int, to as int);
        let ghost before = payloads_view(out@);
        let mut end: usize = pos;
        while end < to && bytes[end] != LF
            invariant
                pos <= end <= to <= bytes.len(),
                forall|j: int| pos <= j < end ==> bytes@[j] != LF,
            decreases to - end,
        {
            end += 1;
        }
        proof {
            assert forall|j: int| 0 <= j < end - pos implies event[j] != LF by {
                assert(event[j] == bytes@[pos + j]);
            }
            lemma_find_line_end_is(event, 0, end - pos);
            assert(event.take(end - pos) =~= bytes@.subrange(pos as int, end as int));
        }
        match line_payload_of(bytes, pos, end) {
            Some(payload) => {
                out.push(payload);
                assert(payloads_view(out@) =~= before + seq![payload@]);
            },
            None => {
                assert(payloads_view(out@) =~= before + Seq::<Seq<u8>>::empty());
            },
        }
        if end >= to {
            break;
        }
        proof {
            let here = payloads_view(out@).skip(before.len() as int);
            assert(event.skip(end - pos + 1) =~= bytes@.subrange(end + 1, to as int));
            assert(payloads_view(out@) =~= before + here);
            assert(event_payloads(event) == here + event_payloads(event.skip(end - pos + 1)));
            assert(before + (here + event_payloads(event.skip(end - pos + 1))) =~= (before + here)
                + event_payloads(event.skip(end - pos + 1)));
        }
        pos = end + 1;
    }
}

/// The length of the delimiter that starts at `i`.
fn delimiter_len_at(buf: &[u8], i: usize) -> (r: usize)
    requires
        i <= buf.len(),
    ensures
        r == delimiter_len(buf@, i as int),
{
    let left: usize = buf.len() - i;
    if left >= 4 && buf[i] == CR && buf[i + 1] == LF && buf[i + 2] == CR && buf[i + 3] == LF {
        4
    } else if left >= 2 && buf[i] == LF && buf[i + 1] == LF {
        2
    } else {
        0
    }
}

/// The decoder's state: the bytes received since the last delimiter.
pub struct SseDecoder {
    buffer: Vec<u8>,
}

impl View for SseDecoder {
    type V = Seq<u8>;

    closed spec fn view(&self) -> Seq<u8> {
        self.buffer@
    }
}

impl SseDecoder {
    /// A decoder that has received nothing.
    pub fn new() -> (r: Self)
        ensures
            r@ == Seq::<u8>::empty(),
    {
        SseDecoder { buffer: Vec::new() }
    }

    /// The bytes held back: the start of an event that is not complete.
    pub fn pending(&self) -> (r: &Vec<u8>)
        ensures
            r@ == self@,
    {
        &self.buffer
    }

    /// Takes the next chunk of the stream and returns the payloads of the
    /// events that it completes, in order.  What follows the last delimiter
    /// is held back for the next chunk.
    pub fn feed(&mut self, chunk: &[u8]) -> (payloads: Vec<Vec<u8>>)
        ensures
            payloads_view(payloads@) == decode(old(self)@ + chunk@).payloads,
            final(self)@ == decode(old(self)@ + chunk@).residue,
    {
        let mut k: usize = 0;
        while k < chunk.len()
            invariant
                k <= chunk.len(),
                self.buffer@ == old(self).buffer@ + chunk@.take(k as int),
            decreases chunk.len() - k,
        {
            self.buffer.push(chunk[k]);
            k += 1;
        }
        assert(chunk@.take(k as int) =~= chunk@);
        let ghost whole = self.buffer@;
        let mut out: Vec<Vec<u8>> = Vec::new();
        let mut start: usize = 0;
        assert(whole.skip(0) =~= whole);
        assert(payloads_view(out@) + decode(whole).payloads =~= decode(whole).payloads);
        loop
            invariant_except_break
                self.buffer@ == whole,
                start <= whole.len(),
                payloads_view(out@) + decode(whole.skip(start as int)).payloads == decode(
                    whole,
                ).payloads,
                decode(whole.skip(start as int)).residue == decode(whole).residue,
            ensures
                self.buffer@ == whole,
                start <= whole.len(),
                payloads_view(out@) == decode(whole).payloads,
                whole.skip(start as int) == decode(whole).residue,
            decreases whole.len() - start,
        {
            let ghost tail = whole.skip(start as int);
            let mut at: usize = start;
            while at < self.buffer.len() && delimiter_len_at(self.buffer.as_slice(), at) == 0
                invariant
                    self.buffer@ == whole,
                    start <= at <= whole.len(),
                    forall|j: int| start <= j < at ==> delimiter_len(whole, j) == 0,
                decreases whole.len() - at,
            {
                at += 1;
            }
            proof {
                assert forall|j: int| 0 <= j <= at - start implies delimiter_len(tail, j)
                    == delimiter_len(whole, start + j) by {
                    lemma_delimiter_len_skip(whole, start as int, j);
                }
                lemma_find_delimiter_is(tail, 0, at - start);
            }
            if at >= self.buffer.len() {
                proof {
                    assert(payloads_view(out@) + Seq::<Seq<u8>>::empty() =~= payloads_view(out@));
                }
                break;
            }
            let len = delimiter_len_at(self.buffer.as_slice(), at);
            let ghost before = payloads_view(out@);
            event_payloads_into(self.buffer.as_slice(), start, at, &mut out);
            proof {
                assert(tail.take(at - start) =~= whole.subrange(start as int, at as int));
                assert(tail.skip(at - start + len) =~= whole.skip(at + len));
                let rest = decode(whole.skip(at + len));
                assert(decode(tail).payloads == event_payloads(tail.take(at - start))
                    + rest.payloads);
                assert(before + (event_payloads(tail.take(at - start)) + rest.payloads) =~= (before
                    + event_payloads(tail.take(at - start))) + rest.payloads);
            }
            start = at + len;
        }
        let rest = copy_range(self.buffer.as_slice(), start, self.buffer.len());
        assert(whole.subrange(start as int, whole.len() as int) =~= whole.skip(start as int));
        self.buffer = rest;
        out
    }
}

proof fn lemma_delimiter_len_skip(buf: Seq<u8>, start: int, j: int)
    requires
        0 <= start <= buf.len(),
        0 <= j,
    ensures
        delimiter_len(buf.skip(start), j) == delimiter_len(buf, start + j),
{
    let tail = buf.skip(start);
    if j + 4 <= tail.len() {
        assert(tail[j] == buf[start + j] && tail[j + 1] == buf[start + j + 1] && tail[j + 2]
            == buf[start + j + 2] && tail[j + 3] == buf[start + j + 3]);
    } else if j + 2 <= tail.len() {
        assert(tail[j] == buf[start + j] && tail[j + 1] == buf[start + j + 1]);
    }
}

} // verus!
