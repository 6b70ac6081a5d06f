//! Server-sent events: cutting a response body into lines as it arrives,
//! and picking the `data:` payloads out of those lines.
//!
//! Two line splitters are here because the two kinds of stream read their
//! bodies differently. Chat streams keep raw bytes until a line is
//! complete, so a multi-byte character split across chunks survives; agent
//! streams decode each chunk as it arrives. The caller owns the transport:
//! it feeds chunks in, reports the end or a failure, and asks for the next
//! line.

use vstd::prelude::*;
use vstd::utf8::{decode_utf8, valid_utf8};

use crate::encoding::{utf8_lossy, utf8_lossy_string};
use crate::text::{chars_eq_str, chars_from, chars_of, has_prefix, push_chars, starts_with, string_from_chars};

verus! {

// ---------------------------------------------------------------------------
// Finding the end of a line
// ---------------------------------------------------------------------------

/// `p` is the position of the first `x` in `s`.
pub open spec fn is_first<T>(s: Seq<T>, x: T, p: int) -> bool {
    0 <= p < s.len() && s[p] == x && forall|j: int| 0 <= j < p ==> s[j] != x
}

/// The position of the first `x` in `s`, or -1 when there is none.
pub open spec fn first_index<T>(s: Seq<T>, x: T) -> int {
    if exists|p: int| is_first(s, x, p) {
        choose|p: int| is_first(s, x, p)
    } else {
        -1
    }
}

proof fn lemma_first_index<T>(s: Seq<T>, x: T, p: int)
    requires
        is_first(s, x, p),
    ensures
        first_index(s, x) == p,
{
    let q = choose|q: int| is_first(s, x, q);
    assert(is_first(s, x, q));
    if q < p {
        assert(s[q] != x);
    } else if p < q {
        assert(s[p] != x);
    }
}

proof fn lemma_no_first_index<T>(s: Seq<T>, x: T)
    requires
        forall|j: int| 0 <= j < s.len() ==> s[j] != x,
    ensures
        first_index(s, x) == -1,
{
}

/// `s` without one trailing `\r`, if it ends with one.
pub open spec fn strip_one_cr(s: Seq<u8>) -> Seq<u8> {
    if s.len() > 0 && s.last() == 13 {
        s.drop_last()
    } else {
        s
    }
}

/// `s` without all trailing `\r` characters (`trim_end_matches('\r')`).
pub open spec fn strip_all_cr(s: Seq<char>) -> Seq<char>
    decreases s.len(),
{
    if s.len() > 0 && s.last() == '\r' {
        strip_all_cr(s.drop_last())
    } else {
        s
    }
}

/// The complete lines of a body: each run of bytes before a `\n`, one
/// trailing `\r` removed.
pub open spec fn complete_lines(body: Seq<u8>) -> Seq<Seq<u8>>
    decreases body.len(),
{
    let p = first_index(body, 10u8);
    if p < 0 {
        Seq::empty()
    } else {
        seq![strip_one_cr(body.take(p))] + complete_lines(body.skip(p + 1))
    }
}

/// What follows the last `\n` of a body: the line still being received.
pub open spec fn unterminated(body: Seq<u8>) -> Seq<u8>
    decreases body.len(),
{
    let p = first_index(body, 10u8);
    if p < 0 {
        body
    } else {
        unterminated(body.skip(p + 1))
    }
}

proof fn lemma_first_index_in_front(f: Seq<u8>, c: Seq<u8>)
    requires
        first_index(f, 10u8) >= 0,
    ensures
        first_index(f + c, 10u8) == first_index(f, 10u8),
{
    let p = first_index(f, 10u8);
    assert(is_first(f, 10u8, p));
    assert(is_first(f + c, 10u8, p));
    lemma_first_index(f + c, 10u8, p);
}

/// How a body is cut into chunks does not change its lines: the complete
/// lines of `f + c` are those of `f`, then those of what `f` left
/// unterminated joined to `c`; and what is left unterminated is the same
/// either way. [`ByteLines::next_line`] takes exactly these lines off the
/// front of what was fed, so feeding `f` then `c` and reading gives the
/// lines feeding `f + c` at once gives.
pub proof fn lemma_lines_ignore_chunking(f: Seq<u8>, c: Seq<u8>)
    ensures
        complete_lines(f + c) == complete_lines(f) + complete_lines(unterminated(f) + c),
        unterminated(f + c) == unterminated(unterminated(f) + c),
    decreases f.len(),
{
    let p = first_index(f, 10u8);
    if p < 0 {
        assert(complete_lines(f) =~= Seq::<Seq<u8>>::empty());
        assert(complete_lines(f) + complete_lines(f + c) =~= complete_lines(f + c));
    } else {
        assert(is_first(f, 10u8, p));
        lemma_first_index_in_front(f, c);
        let rest = f.skip(p + 1);
        assert((f + c).take(p) =~= f.take(p));
        assert((f + c).skip(p + 1) =~= rest + c);
        lemma_lines_ignore_chunking(rest, c);
        assert(complete_lines(f + c) =~= seq![strip_one_cr(f.take(p))] + complete_lines(rest + c));
        assert(complete_lines(f) =~= seq![strip_one_cr(f.take(p))] + complete_lines(rest));
    }
}

/// A line ended by `\r\n` reads as the same line ended by `\n`, for a line
/// that does not itself end with `\r`: writing CRLF for LF leaves the
/// lines of a body unchanged.
pub proof fn lemma_crlf_reads_as_lf(line: Seq<u8>, rest: Seq<u8>)
    requires
        forall|j: int| 0 <= j < line.len() ==> line[j] != 10u8,
        line.len() == 0 || line.last() != 13u8,
    ensures
        complete_lines(line + seq![13u8, 10u8] + rest) == complete_lines(line + seq![10u8] + rest),
        unterminated(line + seq![13u8, 10u8] + rest) == unterminated(line + seq![10u8] + rest),
{
    let n: int = line.len() as int;
    let crlf = line + seq![13u8, 10u8] + rest;
    let lf = line + seq![10u8] + rest;
    assert(is_first(crlf, 10u8, n + 1));
    lemma_first_index(crlf, 10u8, n + 1);
    assert(is_first(lf, 10u8, n));
    lemma_first_index(lf, 10u8, n);
    assert(crlf.take(n + 1) =~= line.push(13u8));
    assert(line.push(13u8).drop_last() =~= line);
    assert(lf.take(n) =~= line);
    assert(crlf.skip(n + 2) =~= rest);
    assert(lf.skip(n + 1) =~= rest);
}

// ---------------------------------------------------------------------------
// Byte lines (chat streams)
// ---------------------------------------------------------------------------

/// Accumulates a response body as raw bytes and cuts it into
/// newline-terminated lines, so that a multi-byte character split across
/// chunks is decoded whole.
pub struct ByteLines {
    buf: Vec<u8>,
}

impl View for ByteLines {
    type V = Seq<u8>;

    closed spec fn view(&self) -> Seq<u8> {
        self.buf@
    }
}

impl ByteLines {
    /// An empty buffer.
    pub fn new() -> (r: ByteLines)
        ensures
            r@ == Seq::<u8>::empty(),
    {
        ByteLines { buf: Vec::new() }
    }

    /// Appends a chunk of the body.
    pub fn feed(&mut self, chunk: &[u8])
        ensures
            final(self)@ == old(self)@ + chunk@,
    {
        let ghost start = self.buf@;
        let mut i: usize = 0;
        while i < chunk.len()
            invariant
                i <= chunk.len(),
                self.buf@ == start + chunk@.take(i as int),
            decreases chunk.len() - i,
        {
            self.buf.push(chunk[i]);
            i = i + 1;
            assert(self.buf@ =~= start + chunk@.take(i as int));
        }
        assert(chunk@.take(chunk.len() as int) =~= chunk@);
    }

    /// Takes the next complete line: the bytes before the first `\n`, one
    /// trailing `\r` removed, decoded lossily. `None`, with the buffer left
    /// as it is, while no `\n` has arrived.
    pub fn next_line(&mut self) -> (r: Option<String>)
        ensures
            ({
                let p = first_index(old(self)@, 10u8);
                match r {
                    Some(line) => p >= 0 && line@ == utf8_lossy(strip_one_cr(old(self)@.take(p)))
                        && (valid_utf8(strip_one_cr(old(self)@.take(p))) ==> line@ == decode_utf8(
                        strip_one_cr(old(self)@.take(p)),
                    )) && final(self)@ == old(self)@.skip(p + 1),
                    None => p == -1 && final(self)@ == old(self)@,
                }
            }),
            match r {
                Some(line) => complete_lines(old(self)@).len() > 0 && line@ == utf8_lossy(
                    complete_lines(old(self)@)[0],
                ) && complete_lines(final(self)@) == complete_lines(old(self)@).drop_first()
                    && unterminated(final(self)@) == unterminated(old(self)@),
                None => complete_lines(old(self)@).len() == 0 && unterminated(old(self)@) == old(
                    self,
                )@,
            },
    {
        let mut p: usize = 0;
        while p < self.buf.len() && self.buf[p] != 10
            invariant
                p <= self.buf@.len(),
                forall|j: int| 0 <= j < p ==> self.buf@[j] != 10u8,
            decreases self.buf@.len() - p,
        {
            p = p + 1;
        }
        if p == self.buf.len() {
            proof {
                lemma_no_first_index(self.buf@, 10u8);
            }
            return None;
        }
        proof {
            lemma_first_index(self.buf@, 10u8, p as int);
        }
        let mut end: usize = p;
        if end > 0 && self.buf[end - 1] == 13 {
            end = end - 1;
        }
        let mut line: Vec<u8> = Vec::new();
        let mut i: usize = 0;
        while i < end
            invariant
                end <= p < self.buf@.len(),
                i <= end,
                line@ == self.buf@.take(i as int),
            decreases end - i,
        {
            line.push(self.buf[i]);
            i = i + 1;
            assert(line@ =~= self.buf@.take(i as int));
        }
        let mut rest: Vec<u8> = Vec::new();
        let mut k: usize = p + 1;
        while k < self.buf.len()
            invariant
                p + 1 <= k <= self.buf@.len(),
                rest@ == self.buf@.subrange(p + 1, k as int),
            decreases self.buf@.len() - k,
        {
            rest.push(self.buf[k]);
            k = k + 1;
            assert(rest@ =~= self.buf@.subrange(p + 1, k as int));
        }
        assert(line@ =~= strip_one_cr(self.buf@.take(p as int)));
        let text = utf8_lossy_string(line.as_slice());
        let ghost before = self.buf@;
        self.buf = rest;
        assert(rest@ =~= before.skip(p + 1));
        assert(complete_lines(before).drop_first() =~= complete_lines(before.skip(p + 1)));
        Some(text)
    }

    /// At the end of the body: what is left, when anything is, as one last
    /// line (decoded lossily, nothing stripped); the buffer is then empty.
    pub fn finish(&mut self) -> (r: Option<String>)
        ensures
            final(self)@ == Seq::<u8>::empty(),
            match r {
                Some(line) => old(self)@.len() > 0 && line@ == utf8_lossy(old(self)@) && (valid_utf8(
                    old(self)@,
                ) ==> line@ == decode_utf8(old(self)@)),
                None => old(self)@.len() == 0,
            },
    {
        if self.buf.len() == 0 {
            return None;
        }
        let text = utf8_lossy_string(self.buf.as_slice());
        self.buf = Vec::new();
        Some(text)
    }
}

// ---------------------------------------------------------------------------
// Text lines (agent, mission and runtime streams)
// ---------------------------------------------------------------------------

/// What the next read of a [`TextLines`] gives.
pub enum LineEvent {
    /// A line of the body.
    Line(String),
    /// The transport failed; the body ends after this.
    Failed(reqwest::Error),
    /// No complete line yet: feed more of the body.
    NeedInput,
    /// The body is over.
    End,
}

/// Decodes a response body chunk by chunk and cuts it into lines. After
/// the end, or a transport failure, what is left of the body comes out as
/// one last line, then the failure, then the end, which repeats.
pub struct TextLines {
    buf: Vec<char>,
    pending_error: Option<reqwest::Error>,
    finished: bool,
}

/// What a [`TextLines`] holds: the text not yet cut into lines, the
/// transport failure waiting to be reported (if any), and whether the body
/// is over.
pub ghost struct TextLinesView {
    pub buf: Seq<char>,
    pub pending: Option<reqwest::Error>,
    pub finished: bool,
}

impl View for TextLines {
    type V = TextLinesView;

    closed spec fn view(&self) -> TextLinesView {
        TextLinesView {
            buf: self.buf@,
            pending: self.pending_error,
            finished: self.finished,
        }
    }
}

impl TextLines {
    /// Nothing read yet.
    pub fn new() -> (r: TextLines)
        ensures
            r@ == (TextLinesView { buf: Seq::empty(), pending: None, finished: false }),
    {
        TextLines { buf: Vec::new(), pending_error: None, finished: false }
    }

    /// Appends a chunk of the body, decoded on its own.
    pub fn feed(&mut self, chunk: &[u8])
        ensures
            final(self)@ == (TextLinesView { buf: old(self)@.buf + utf8_lossy(chunk@), ..old(self)@ }),
            valid_utf8(chunk@) ==> final(self)@.buf == old(self)@.buf + decode_utf8(chunk@),
    {
        let text = utf8_lossy_string(chunk);
        let t = chars_of(text.as_str());
        push_chars(&mut self.buf, &t);
    }

    /// The transport failed: nothing more will arrive.
    pub fn fail(&mut self, err: reqwest::Error)
        ensures
            final(self)@ == (TextLinesView { pending: Some(err), finished: true, ..old(self)@ }),
    {
        self.pending_error = Some(err);
        self.finished = true;
    }

    /// The body ended normally.
    pub fn end(&mut self)
        ensures
            final(self)@ == (TextLinesView { finished: true, ..old(self)@ }),
    {
        self.finished = true;
    }

    /// The next line, failure or end. A complete line (up to the first
    /// `\n`, trailing `\r`s removed) comes first; once the body is over, the
    /// unterminated rest as it is, then the failure, then `End`.
    pub fn next(&mut self) -> (r: LineEvent)
        ensures
            ({
                let s = old(self)@;
                let p = first_index(s.buf, '\n');
                if p >= 0 {
                    r matches LineEvent::Line(l) && l@ == strip_all_cr(s.buf.take(p))
                        && final(self)@ == (TextLinesView { buf: s.buf.skip(p + 1), ..s })
                } else if !s.finished {
                    r is NeedInput && final(self)@ == s
                } else if s.buf.len() > 0 {
                    r matches LineEvent::Line(l) && l@ == s.buf && final(self)@ == (TextLinesView {
                        buf: Seq::empty(),
                        ..s
                    })
                } else if s.pending is Some {
                    r == LineEvent::Failed(s.pending->0) && final(self)@ == (TextLinesView {
                        pending: None,
                        ..s
                    })
                } else {
                    r is End && final(self)@ == s
                }
            }),
    {
        let mut p: usize = 0;
        while p < self.buf.len() && self.buf[p] != '\n'
            invariant
                p <= self.buf@.len(),
                forall|j: int| 0 <= j < p ==> self.buf@[j] != '\n',
            decreases self.buf@.len() - p,
        {
            p = p + 1;
        }
        if p < self.buf.len() {
            proof {
                lemma_first_index(self.buf@, '\n', p as int);
            }
            let mut end: usize = p;
            while end > 0 && self.buf[end - 1] == '\r'
                invariant
                    end <= p < self.buf@.len(),
                    strip_all_cr(self.buf@.take(p as int)) == strip_all_cr(
                        self.buf@.take(end as int),
                    ),
                decreases end,
            {
                assert(self.buf@.take(end as int).drop_last() =~= self.buf@.take(end - 1));
                end = end - 1;
            }
            let line = chars_range_owned(&self.buf, 0, end);
            let rest = chars_from(&self.buf, p + 1);
            assert(strip_all_cr(self.buf@.take(end as int)) == self.buf@.take(end as int));
            self.buf = rest;
            return LineEvent::Line(string_from_chars(line));
        }
        proof {
            lemma_no_first_index(self.buf@, '\n');
        }
        if !self.finished {
            return LineEvent::NeedInput;
        }
        if self.buf.len() > 0 {
            let mut line: Vec<char> = Vec::new();
            std::mem::swap(&mut line, &mut self.buf);
            return LineEvent::Line(string_from_chars(line));
        }
        match self.pending_error.take() {
            Some(e) => LineEvent::Failed(e),
            None => LineEvent::End,
        }
    }
}

fn chars_range_owned(s: &Vec<char>, from: usize, to: usize) -> (r: Vec<char>)
    requires
        from <= to <= s.len(),
    ensures
        r@ == s@.subrange(from as int, to as int),
{
    crate::text::chars_range(s, from, to)
}

// ---------------------------------------------------------------------------
// Data lines
// ---------------------------------------------------------------------------

/// What one SSE line carries.
#[derive(Debug, Clone, PartialEq, Eq)]
pub enum SseData {
    /// Not a `data: ` line (a comment, an `event:` line, a blank line).
    Other,
    /// The `[DONE]` sentinel.
    Done,
    /// The payload of a `data: ` line.
    Payload(String),
}

pub open spec fn sse_data_spec(line: Seq<char>) -> Option<Option<Seq<char>>> {
    if !has_prefix(line, "data: "@) {
        None
    } else if line.skip(6) == "[DONE]"@ {
        Some(None)
    } else {
        Some(Some(line.skip(6)))
    }
}

/// A `data: ` line reads back as what follows the prefix, the `[DONE]`
/// sentinel as the end of the stream; a line without the prefix carries
/// no data.
pub proof fn lemma_data_line(payload: Seq<char>, line: Seq<char>)
    ensures
        sse_data_spec("data: "@ + payload) == (if payload == "[DONE]"@ {
            Some(None)
        } else {
            Some(Some(payload))
        }),
        !has_prefix(line, "data: "@) ==> sse_data_spec(line) is None,
{
    reveal_strlit("data: ");
    let line2 = "data: "@ + payload;
    assert(line2.subrange(0, 6) =~= "data: "@);
    assert(line2.skip(6) =~= payload);
}

/// Classifies an SSE line: not data, the `[DONE]` sentinel, or the payload
/// after `data: `.
pub fn sse_data(line: &str) -> (r: SseData)
    ensures
        match sse_data_spec(line@) {
            None => r is Other,
            Some(None) => r is Done,
            Some(Some(p)) => r matches SseData::Payload(q) && q@ == p,
        },
{
    let chars = chars_of(line);
    if !starts_with(&chars, "data: ") {
        return SseData::Other;
    }
    proof {
        reveal_strlit("data: ");
    }
    let payload = chars_from(&chars, 6);
    if chars_eq_str(&payload, "[DONE]") {
        SseData::Done
    } else {
        SseData::Payload(string_from_chars(payload))
    }
}


/// The lines of a whole body: its complete lines, then what follows the
/// last `\n` when that is not empty.
pub open spec fn body_lines(body: Seq<u8>) -> Seq<Seq<u8>> {
    if unterminated(body).len() > 0 {
        complete_lines(body).push(unterminated(body))
    } else {
        complete_lines(body)
    }
}

/// What a raw line carries, read lossily as text: `None` for a line that
/// is no `data: ` line, `Some(None)` for the `[DONE]` sentinel,
/// `Some(Some(p))` for the payload `p`.
pub open spec fn line_data(line: Seq<u8>) -> Option<Option<Seq<char>>> {
    sse_data_spec(utf8_lossy(line))
}

/// The data items of `lines`, in order: the sentinel as `None`, a payload
/// as `Some`; lines that carry no data are passed over.
pub open spec fn lines_data(lines: Seq<Seq<u8>>) -> Seq<Option<Seq<char>>>
    decreases lines.len(),
{
    if lines.len() == 0 {
        Seq::empty()
    } else {
        let prev = lines_data(lines.drop_last());
        match line_data(lines.last()) {
            None => prev,
            Some(d) => prev.push(d),
        }
    }
}

/// The data items of a whole body.
pub open spec fn body_data_spec(body: Seq<u8>) -> Seq<Option<Seq<char>>> {
    lines_data(body_lines(body))
}

/// The bytes of `chunks`, one after another.
pub open spec fn concat_chunks(chunks: Seq<Seq<u8>>) -> Seq<u8>
    decreases chunks.len(),
{
    if chunks.len() == 0 {
        Seq::empty()
    } else {
        concat_chunks(chunks.drop_last()) + chunks.last()
    }
}

/// The view of data items as they come out of [`sse_data`].
pub open spec fn data_view(items: Seq<SseData>) -> Seq<Option<Seq<char>>> {
    items.map_values(|d: SseData| match d {
        SseData::Payload(p) => Some(p@),
        _ => None,
    })
}

proof fn lemma_lines_data_append(a: Seq<Seq<u8>>, b: Seq<Seq<u8>>)
    ensures
        lines_data(a + b) == lines_data(a) + lines_data(b),
    decreases b.len(),
{
    if b.len() == 0 {
        assert(a + b =~= a);
        assert(lines_data(a) + lines_data(b) =~= lines_data(a));
    } else {
        assert((a + b).drop_last() =~= a + b.drop_last());
        assert((a + b).last() == b.last());
        lemma_lines_data_append(a, b.drop_last());
        match line_data(b.last()) {
            None => {},
            Some(d) => {
                assert(lines_data(a) + lines_data(b.drop_last()).push(d) =~= (lines_data(a)
                    + lines_data(b.drop_last())).push(d));
            },
        }
    }
}

/// Takes every complete line out of `lines` and appends the data items
/// they carry to `out`; what is left is the unterminated rest.
fn drain_lines(lines: &mut ByteLines, out: &mut Vec<SseData>)
    requires
        forall|k: int| 0 <= k < old(out)@.len() ==> !(#[trigger] old(out)@[k] is Other),
    ensures
        final(lines)@ == unterminated(old(lines)@),
        data_view(final(out)@) == data_view(old(out)@) + lines_data(complete_lines(old(lines)@)),
        forall|k: int| 0 <= k < final(out)@.len() ==> !(#[trigger] final(out)@[k] is Other),
{
    let ghost start = lines@;
    let ghost base = data_view(out@);
    let ghost mut taken: Seq<Seq<u8>> = Seq::empty();
    assert(taken + complete_lines(lines@) =~= complete_lines(start));
    assert(base + lines_data(taken) =~= base);
    loop
        invariant
            complete_lines(start) == taken + complete_lines(lines@),
            unterminated(lines@) == unterminated(start),
            data_view(out@) == base + lines_data(taken),
            forall|k: int| 0 <= k < out@.len() ==> !(#[trigger] out@[k] is Other),
        ensures
            lines@ == unterminated(start),
            data_view(out@) == base + lines_data(complete_lines(start)),
            forall|k: int| 0 <= k < out@.len() ==> !(#[trigger] out@[k] is Other),
        decreases lines@.len(),
    {
        let ghost old_buf = lines@;
        match lines.next_line() {
            Some(line) => {
                let ghost raw = complete_lines(old_buf)[0];
                let ghost before_out = out@;
                let item = sse_data(line.as_str());
                proof {
                    assert(complete_lines(old_buf) =~= seq![raw] + complete_lines(lines@));
                    assert(taken.push(raw) + complete_lines(lines@) =~= taken + complete_lines(old_buf));
                    assert(taken.push(raw).drop_last() =~= taken);
                    assert(taken.push(raw).last() == raw);
                }
                match item {
                    SseData::Other => {},
                    _ => {
                        out.push(item);
                        assert(data_view(out@) =~= data_view(before_out).push(data_view(out@)[out@.len() - 1]));
                    },
                }
                proof {
                    taken = taken.push(raw);
                }
            },
            None => {
                assert(taken + complete_lines(lines@) =~= taken);
                break;
            },
        }
    }
}

/// Reads a whole body, given as chunks, into its data items: the chunks
/// are cut into lines (each `\n`-terminated line, one trailing `\r`
/// removed, then the unterminated rest when there is one), each line is
/// read lossily as text, and the `data: ` lines give the sentinel or their
/// payload. The result depends only on the bytes of the body, not on how
/// they were cut into chunks.
pub fn body_data(chunks: &Vec<Vec<u8>>) -> (r: Vec<SseData>)
    ensures
        data_view(r@) == body_data_spec(concat_chunks(chunks@.map_values(|c: Vec<u8>| c@))),
        forall|i: int| 0 <= i < r@.len() ==> !(#[trigger] r@[i] is Other),
{
    let ghost views = chunks@.map_values(|c: Vec<u8>| c@);
    let mut lines = ByteLines::new();
    let mut out: Vec<SseData> = Vec::new();
    let mut i: usize = 0;
    assert(views.take(0) =~= Seq::<Seq<u8>>::empty());
    assert(data_view(out@) =~= Seq::<Option<Seq<char>>>::empty());
    while i < chunks.len()
        invariant
            i <= chunks@.len(),
            views == chunks@.map_values(|c: Vec<u8>| c@),
            lines@ == unterminated(concat_chunks(views.take(i as int))),
            data_view(out@) == lines_data(complete_lines(concat_chunks(views.take(i as int)))),
            forall|k: int| 0 <= k < out@.len() ==> !(#[trigger] out@[k] is Other),
        decreases chunks@.len() - i,
    {
        let ghost before = concat_chunks(views.take(i as int));
        proof {
            assert(views.take(i + 1).drop_last() =~= views.take(i as int));
            assert(views.take(i + 1).last() == chunks@[i as int]@);
            lemma_lines_ignore_chunking(before, chunks@[i as int]@);
        }
        lines.feed(chunks[i].as_slice());
        let ghost fed = lines@;
        drain_lines(&mut lines, &mut out);
        proof {
            lemma_lines_data_append(complete_lines(before), complete_lines(fed));
        }
        i = i + 1;
    }
    let ghost whole = concat_chunks(views);
    assert(views.take(chunks@.len() as int) =~= views);
    let ghost before_out = out@;
    assert(lines@ == unterminated(whole));
    assert(data_view(out@) == lines_data(complete_lines(whole)));
    match lines.finish() {
        Some(rest) => {
            let ghost u = unterminated(whole);
            let item = sse_data(rest.as_str());
            proof {
                lemma_lines_data_append(complete_lines(whole), seq![u]);
                assert(complete_lines(whole).push(u) =~= complete_lines(whole) + seq![u]);
                assert(seq![u].drop_last() =~= Seq::<Seq<u8>>::empty());
                assert(seq![u].last() == u);
                assert(body_lines(whole) == complete_lines(whole).push(u));
                assert(line_data(u) == sse_data_spec(rest@));
                assert(lines_data(seq![u].drop_last()) =~= Seq::<Option<Seq<char>>>::empty());
            }
            match item {
                SseData::Other => {
                    assert(line_data(u) is None);
                    assert(lines_data(seq![u]) =~= Seq::<Option<Seq<char>>>::empty());
                    assert(data_view(out@) =~= body_data_spec(whole));
                },
                _ => {
                    out.push(item);
                    assert(data_view(out@) =~= data_view(before_out).push(data_view(out@)[out@.len() - 1]));
                    assert(line_data(u) == Some(data_view(out@)[out@.len() - 1]));
                    assert(lines_data(seq![u]) =~= seq![data_view(out@)[out@.len() - 1]]);
                    assert(data_view(out@) =~= body_data_spec(whole));
                },
            }
        },
        None => {
            assert(body_lines(whole) == complete_lines(whole));
        },
    }
    out
}

} // verus!
