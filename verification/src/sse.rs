//! The parser for the remote service's event stream.
//!
//! The stream is framed as Server-Sent Events: `event: <name>` and
//! `data: <json>` lines, with a blank line ending each record. Bytes arrive in
//! chunks that need not end where lines end, so [`SseStream`] keeps the bytes
//! of an unfinished line and hands whole lines to [`SseAccumulator`].

use vstd::prelude::*;
use crate::error::{SegmentationError, SegmentationErrorView};
use crate::json::{
    json_document, parse_value, read_string_member, string_member, JsonDoc, JsonDocView,
};
use crate::text::{
    append_chars, chars_eq, chars_strip_prefix, decode_text, first_index_of, lemma_first_index_of,
    lemma_first_index_of_is, lossy_text, slice_bytes, str_chars, string_from_chars, strip_prefix,
    trim, trim_chars, trim_end_char, trim_end_char_chars,
};

verus! {

/// The parser's state as the contracts see it.
pub struct SseState {
    /// The name of the record being read.
    pub event: Seq<char>,
    /// The data lines of the record being read, joined by line feeds.
    pub data: Seq<char>,
    /// The last payload that was not `null`.
    pub latest: Option<JsonDocView>,
    /// The payload of the `complete` record, once seen.
    pub complete: Option<JsonDocView>,
}

/// What a step of the parser gives: a terminal payload, nothing yet, or a failure.
pub type StepResult = Result<Option<JsonDocView>, SegmentationErrorView>;

/// The state before any line.
pub open spec fn initial_state() -> SseState {
    SseState { event: Seq::empty(), data: Seq::empty(), latest: None, complete: None }
}

/// `s` ready for the next record: name and data forgotten, payloads kept.
pub open spec fn cleared(s: SseState) -> SseState {
    SseState { event: Seq::empty(), data: Seq::empty(), latest: s.latest, complete: s.complete }
}

/// The end of a record whose data parsed as `doc`, where `error_message` is the
/// string under the document's `error` key, if there is one.
///
/// An `error` record fails with that message, or with the whole document when
/// it has none. Any other record with a payload other than `null` becomes the
/// latest payload, and a `complete` record is terminal.
pub open spec fn record_step(s: SseState, doc: JsonDocView, error_message: Option<Seq<char>>) -> (
    SseState,
    StepResult,
) {
    if s.event == "error"@ {
        (
            s,
            Err(
                SegmentationErrorView::RemoteStreamError {
                    message: match error_message {
                        Some(m) => m,
                        None => doc.compact,
                    },
                },
            ),
        )
    } else if !(doc.node is Null) {
        if s.event == "complete"@ {
            (
                SseState {
                    event: Seq::empty(),
                    data: Seq::empty(),
                    latest: Some(doc),
                    complete: Some(doc),
                },
                Ok(Some(doc)),
            )
        } else {
            (
                SseState {
                    event: Seq::empty(),
                    data: Seq::empty(),
                    latest: Some(doc),
                    complete: s.complete,
                },
                Ok(None),
            )
        }
    } else {
        (cleared(s), Ok(None))
    }
}

/// The end of a record. Empty data and the sentinel `[DONE]` are dropped;
/// anything else must be one JSON document.
pub open spec fn flush_step(s: SseState) -> (SseState, StepResult) {
    let block = trim(s.data);
    if block.len() == 0 || block == "[DONE]"@ {
        (cleared(s), Ok(None))
    } else {
        match json_document(block) {
            Err(e) => (s, Err(SegmentationErrorView::MalformedStreamPayload { parse_error: e })),
            Ok(doc) => record_step(s, doc, string_member(doc.node, "error"@)),
        }
    }
}

/// One line of the stream, without its line feed.
pub open spec fn line_step(s: SseState, line: Seq<char>) -> (SseState, StepResult) {
    let l = trim_end_char(line, '\r');
    if l.len() == 0 {
        flush_step(s)
    } else {
        match strip_prefix(l, "event:"@) {
            Some(name) => (
                SseState {
                    event: trim(name),
                    data: s.data,
                    latest: s.latest,
                    complete: s.complete,
                },
                Ok(None),
            ),
            None => match strip_prefix(l, "data:"@) {
                Some(value) => (
                    SseState {
                        event: s.event,
                        data: if s.data.len() > 0 {
                            s.data.push('\n') + trim(value)
                        } else {
                            trim(value)
                        },
                        latest: s.latest,
                        complete: s.complete,
                    },
                    Ok(None),
                ),
                None => (s, Ok(None)),
            },
        }
    }
}

/// The best payload at the end of the stream: what the unfinished record gives
/// if it is terminal, else the `complete` payload, else the latest one.
pub open spec fn finish_result(s: SseState) -> Result<JsonDocView, SegmentationErrorView> {
    let (after, r) = flush_step(s);
    match r {
        Err(e) => Err(e),
        Ok(Some(doc)) => Ok(doc),
        Ok(None) => match after.complete {
            Some(doc) => Ok(doc),
            None => match after.latest {
                Some(doc) => Ok(doc),
                None => Err(SegmentationErrorView::StreamEndedWithoutResult),
            },
        },
    }
}

/// The view of an optional document.
pub open spec fn doc_view(doc: Option<JsonDoc>) -> Option<JsonDocView> {
    match doc {
        Some(d) => Some(d@),
        None => None,
    }
}

/// The view of a step's result.
pub open spec fn step_view(r: Result<Option<JsonDoc>, SegmentationError>) -> StepResult {
    match r {
        Ok(doc) => Ok(doc_view(doc)),
        Err(e) => Err(e@),
    }
}

/// The view of a final result.
pub open spec fn final_view(r: Result<JsonDoc, SegmentationError>) -> Result<
    JsonDocView,
    SegmentationErrorView,
> {
    match r {
        Ok(doc) => Ok(doc@),
        Err(e) => Err(e@),
    }
}

/// An `error` record fails at its own end, whatever payloads were seen before.
/// Its message is the string under the `error` key when the data has one.
pub proof fn lemma_error_record_aborts(s: SseState)
    requires
        s.event == "error"@,
        trim(s.data).len() > 0,
        trim(s.data) != "[DONE]"@,
    ensures
        flush_step(s).1 is Err,
        flush_step(s).0 == s,
        json_document(trim(s.data)) matches Ok(doc) ==> (string_member(doc.node, "error"@)
            matches Some(m) ==> flush_step(s).1 == Err::<Option<JsonDocView>, SegmentationErrorView>(
            SegmentationErrorView::RemoteStreamError { message: m },
        )),
{
}

/// A `[DONE]` record leaves the payloads as they were and is never terminal.
pub proof fn lemma_done_record_is_ignored(s: SseState)
    requires
        trim(s.data) == "[DONE]"@,
    ensures
        flush_step(s).1 == Ok::<Option<JsonDocView>, SegmentationErrorView>(None),
        flush_step(s).0.latest == s.latest,
        flush_step(s).0.complete == s.complete,
        flush_step(s).0 == cleared(s),
{
}

/// Reads the lines of an event stream and keeps the payloads seen so far.
#[derive(Debug)]
pub struct SseAccumulator {
    current_event: Vec<char>,
    current_data: Vec<char>,
    latest_payload: Option<JsonDoc>,
    complete_payload: Option<JsonDoc>,
}

impl View for SseAccumulator {
    type V = SseState;

    closed spec fn view(&self) -> SseState {
        SseState {
            event: self.current_event@,
            data: self.current_data@,
            latest: doc_view(self.latest_payload),
            complete: doc_view(self.complete_payload),
        }
    }
}

impl SseAccumulator {
    /// A parser that has read nothing.
    pub fn new() -> (r: SseAccumulator)
        ensures
            r@ == initial_state(),
    {
        SseAccumulator {
            current_event: Vec::new(),
            current_data: Vec::new(),
            latest_payload: None,
            complete_payload: None,
        }
    }

    /// The name of the record being read.
    pub fn current_event(&self) -> (r: String)
        ensures
            r@ == self@.event,
    {
        string_from_chars(&self.current_event)
    }

    /// The data of the record being read.
    pub fn current_data(&self) -> (r: String)
        ensures
            r@ == self@.data,
    {
        string_from_chars(&self.current_data)
    }

    /// The last payload that was not `null`.
    pub fn latest_payload(&self) -> (r: Option<JsonDoc>)
        ensures
            doc_view(r) == self@.latest,
    {
        match &self.latest_payload {
            Some(doc) => Some(doc.duplicate()),
            None => None,
        }
    }

    /// The payload of the `complete` record, once seen.
    pub fn complete_payload(&self) -> (r: Option<JsonDoc>)
        ensures
            doc_view(r) == self@.complete,
    {
        match &self.complete_payload {
            Some(doc) => Some(doc.duplicate()),
            None => None,
        }
    }

    /// Ends a record whose data parsed as `doc`; `error_message` is the string
    /// under the document's `error` key, if there is one.
    pub fn apply_record(&mut self, doc: JsonDoc, error_message: Option<String>) -> (r: Result<
        Option<JsonDoc>,
        SegmentationError,
    >)
        ensures
            (final(self)@, step_view(r)) == record_step(
                old(self)@,
                doc@,
                match error_message {
                    Some(m) => Some(m@),
                    None => None,
                },
            ),
    {
        let error_name = str_chars("error");
        if chars_eq(&self.current_event, &error_name) {
            let message = match error_message {
                Some(m) => m,
                None => doc.compact,
            };
            return Err(SegmentationError::RemoteStreamError { message });
        }
        if !doc.node.is_null() {
            self.latest_payload = Some(doc.duplicate());
            let complete_name = str_chars("complete");
            if chars_eq(&self.current_event, &complete_name) {
                self.complete_payload = Some(doc.duplicate());
                self.current_event = Vec::new();
                self.current_data = Vec::new();
                return Ok(Some(doc));
            }
        }
        self.current_event = Vec::new();
        self.current_data = Vec::new();
        Ok(None)
    }

    /// Ends the record being read.
    pub fn flush_event(&mut self) -> (r: Result<Option<JsonDoc>, SegmentationError>)
        ensures
            (final(self)@, step_view(r)) == flush_step(old(self)@),
    {
        let block = trim_chars(&self.current_data);
        let done = str_chars("[DONE]");
        if block.len() == 0 || chars_eq(&block, &done) {
            self.current_event = Vec::new();
            self.current_data = Vec::new();
            return Ok(None);
        }
        let block_text = string_from_chars(&block);
        match parse_value(block_text.as_str()) {
            Err(e) => Err(SegmentationError::MalformedStreamPayload { parse_error: e }),
            Ok(doc) => {
                let message = read_string_member(&doc.node, "error");
                self.apply_record(doc, message)
            },
        }
    }

    /// Reads one line of the stream, given without its line feed. Returns the
    /// payload as soon as a `complete` record ends.
    pub fn push_line(&mut self, line: &str) -> (r: Result<Option<JsonDoc>, SegmentationError>)
        ensures
            (final(self)@, step_view(r)) == line_step(old(self)@, line@),
    {
        let chars = str_chars(line);
        let l = trim_end_char_chars(&chars, '\r');
        if l.len() == 0 {
            return self.flush_event();
        }
        let event_prefix = str_chars("event:");
        match chars_strip_prefix(&l, &event_prefix) {
            Some(name) => {
                self.current_event = trim_chars(&name);
                return Ok(None);
            },
            None => {},
        }
        let data_prefix = str_chars("data:");
        match chars_strip_prefix(&l, &data_prefix) {
            Some(value) => {
                let t = trim_chars(&value);
                if self.current_data.len() > 0 {
                    self.current_data.push('\n');
                }
                append_chars(&mut self.current_data, &t);
            },
            None => {},
        }
        Ok(None)
    }

    /// The best payload once the stream has ended.
    pub fn finish(self) -> (r: Result<JsonDoc, SegmentationError>)
        ensures
            final_view(r) == finish_result(self@),
    {
        let mut this = self;
        match this.flush_event() {
            Err(e) => Err(e),
            Ok(Some(doc)) => Ok(doc),
            Ok(None) => match this.complete_payload {
                Some(doc) => Ok(doc),
                None => match this.latest_payload {
                    Some(doc) => Ok(doc),
                    None => Err(SegmentationError::StreamEndedWithoutResult),
                },
            },
        }
    }
}

/// The bytes of a line without one trailing carriage return.
pub open spec fn strip_cr_byte(line: Seq<u8>) -> Seq<u8> {
    if line.len() > 0 && line.last() == 13u8 {
        line.drop_last()
    } else {
        line
    }
}

/// The text of a line, given its bytes without the line feed: their decoding
/// where they are valid UTF-8, with U+FFFD for what is not.
pub open spec fn decoded_line(raw: Seq<u8>) -> Seq<char> {
    lossy_text(strip_cr_byte(raw))
}

/// The state of a stream between two chunks.
pub struct StreamState {
    pub parser: SseState,
    /// The bytes of the line that has not ended yet.
    pub pending: Seq<u8>,
}

/// Where a stream stands after some bytes.
pub enum StreamStep {
    /// No terminal payload yet: more bytes may follow.
    Continue(StreamState),
    /// A `complete` record ended with this payload.
    Terminal(JsonDocView),
    /// The stream failed.
    Failed(SegmentationErrorView),
}

/// Reads the whole lines in `buf`, one after the other, and stops at the first
/// terminal payload or failure. What follows the last line feed stays pending.
pub open spec fn drain(parser: SseState, buf: Seq<u8>) -> StreamStep
    decreases buf.len(),
{
    let n = first_index_of(buf, 10u8);
    if n < 0 || n >= buf.len() {
        StreamStep::Continue(StreamState { parser, pending: buf })
    } else {
        let (next, r) = line_step(parser, decoded_line(buf.subrange(0, n)));
        match r {
            Err(e) => StreamStep::Failed(e),
            Ok(Some(doc)) => StreamStep::Terminal(doc),
            Ok(None) => drain(next, buf.subrange(n + 1, buf.len() as int)),
        }
    }
}

/// The stream after one more chunk.
pub open spec fn run(st: StreamState, chunk: Seq<u8>) -> StreamStep {
    drain(st.parser, st.pending + chunk)
}

/// The stream after one more chunk, if it is still going.
pub open spec fn then_run(step: StreamStep, chunk: Seq<u8>) -> StreamStep {
    match step {
        StreamStep::Continue(st) => run(st, chunk),
        other => other,
    }
}

/// The stream after the chunks of `chunks`, fed one by one.
pub open spec fn run_all(st: StreamState, chunks: Seq<Seq<u8>>) -> StreamStep
    decreases chunks.len(),
{
    if chunks.len() == 0 {
        StreamStep::Continue(st)
    } else {
        then_run(run_all(st, chunks.drop_last()), chunks.last())
    }
}

/// The bytes of all chunks, in order.
pub open spec fn concat_chunks(chunks: Seq<Seq<u8>>) -> Seq<u8>
    decreases chunks.len(),
{
    if chunks.len() == 0 {
        Seq::empty()
    } else {
        concat_chunks(chunks.drop_last()) + chunks.last()
    }
}

/// The stream before any byte.
pub open spec fn initial_stream() -> StreamState {
    StreamState { parser: initial_state(), pending: Seq::empty() }
}

/// What a stream that ends in state `st` gives: a last line without line feed
/// counts as a line, and then the best payload is taken.
pub open spec fn end_result(st: StreamState) -> Result<JsonDocView, SegmentationErrorView> {
    if st.pending.len() > 0 {
        let (next, r) = line_step(st.parser, lossy_text(st.pending));
        match r {
            Err(e) => Err(e),
            Ok(Some(doc)) => Ok(doc),
            Ok(None) => finish_result(next),
        }
    } else {
        finish_result(st.parser)
    }
}

/// What a stream gives that stands at `step` when it ends.
pub open spec fn outcome(step: StreamStep) -> Result<JsonDocView, SegmentationErrorView> {
    match step {
        StreamStep::Continue(st) => end_result(st),
        StreamStep::Terminal(doc) => Ok(doc),
        StreamStep::Failed(e) => Err(e),
    }
}

/// What the whole byte stream `bytes` gives.
pub open spec fn stream_result(bytes: Seq<u8>) -> Result<JsonDocView, SegmentationErrorView> {
    outcome(run(initial_stream(), bytes))
}

proof fn lemma_drain_concat(parser: SseState, x: Seq<u8>, y: Seq<u8>)
    ensures
        drain(parser, x + y) == then_run(drain(parser, x), y),
    decreases x.len(),
{
    lemma_first_index_of(x, 10u8);
    let n = first_index_of(x, 10u8);
    if n < x.len() {
        lemma_first_index_of_is(x + y, 10u8, n);
        assert((x + y).subrange(0, n) == x.subrange(0, n));
        assert((x + y).subrange(n + 1, (x + y).len() as int) == x.subrange(n + 1, x.len() as int)
            + y);
        let (next, r) = line_step(parser, decoded_line(x.subrange(0, n)));
        if r == Ok::<Option<JsonDocView>, SegmentationErrorView>(None) {
            lemma_drain_concat(next, x.subrange(n + 1, x.len() as int), y);
        }
    }
}

/// Feeding `a` and then `b` leaves the stream where feeding `a + b` at once
/// leaves it: where the chunks are cut does not matter.
pub proof fn lemma_chunk_boundary_is_irrelevant(st: StreamState, a: Seq<u8>, b: Seq<u8>)
    ensures
        then_run(run(st, a), b) == run(st, a + b),
{
    assert(st.pending + (a + b) == (st.pending + a) + b);
    lemma_drain_concat(st.parser, st.pending + a, b);
}

/// Feeding any number of chunks one by one gives what feeding all their bytes
/// at once gives.
pub proof fn lemma_chunking_is_irrelevant(st: StreamState, chunks: Seq<Seq<u8>>)
    requires
        no_line_pending(st),
    ensures
        run_all(st, chunks) == run(st, concat_chunks(chunks)),
    decreases chunks.len(),
{
    if chunks.len() == 0 {
        lemma_drain_pending(st);
    } else {
        lemma_chunking_is_irrelevant(st, chunks.drop_last());
        lemma_chunk_boundary_is_irrelevant(st, concat_chunks(chunks.drop_last()), chunks.last());
    }
}

/// Whether a stream state holds no whole line, as every state between two
/// chunks does.
pub open spec fn no_line_pending(st: StreamState) -> bool {
    forall|j: int| 0 <= j < st.pending.len() ==> st.pending[j] != 10u8
}

proof fn lemma_drain_pending(st: StreamState)
    requires
        no_line_pending(st),
    ensures
        drain(st.parser, st.pending) == StreamStep::Continue(st),
{
    lemma_first_index_of_is(st.pending, 10u8, st.pending.len() as int);
}

/// The parser together with the bytes of the line that has not ended yet.
#[derive(Debug)]
pub struct SseStream {
    parser: SseAccumulator,
    pending: Vec<u8>,
}

impl View for SseStream {
    type V = StreamState;

    closed spec fn view(&self) -> StreamState {
        StreamState { parser: self.parser@, pending: self.pending@ }
    }
}

/// The step that a call of `feed` reports.
pub open spec fn fed_step(
    after: StreamState,
    r: Result<Option<JsonDoc>, SegmentationError>,
) -> StreamStep {
    match r {
        Ok(None) => StreamStep::Continue(after),
        Ok(Some(doc)) => StreamStep::Terminal(doc@),
        Err(e) => StreamStep::Failed(e@),
    }
}

impl SseStream {
    /// A stream that has read nothing.
    pub fn new() -> (r: SseStream)
        ensures
            r@ == initial_stream(),
            no_line_pending(r@),
    {
        SseStream { parser: SseAccumulator::new(), pending: Vec::new() }
    }

    /// Reads the next chunk of bytes. Returns the payload as soon as a
    /// `complete` record ends; the stream can then be closed. After a payload
    /// or a failure this value holds nothing of use.
    pub fn feed(&mut self, chunk: &[u8]) -> (r: Result<Option<JsonDoc>, SegmentationError>)
        ensures
            fed_step(final(self)@, r) == run(old(self)@, chunk@),
            r == Ok::<Option<JsonDoc>, SegmentationError>(None) ==> no_line_pending(final(self)@),
    {
        let mut buf: Vec<u8> = Vec::new();
        let mut k: usize = 0;
        while k < self.pending.len()
            invariant
                k <= self.pending.len(),
                buf@ == self.pending@.subrange(0, k as int),
                self@ == old(self)@,
            decreases self.pending.len() - k,
        {
            buf.push(self.pending[k]);
            k += 1;
        }
        let mut k: usize = 0;
        while k < chunk.len()
            invariant
                k <= chunk.len(),
                buf@ == self.pending@ + chunk@.subrange(0, k as int),
                self@ == old(self)@,
            decreases chunk.len() - k,
        {
            buf.push(chunk[k]);
            k += 1;
        }
        assert(buf@ == old(self)@.pending + chunk@);
        let mut start: usize = 0;
        let mut i: usize = 0;
        assert(buf@.subrange(0, buf.len() as int) == buf@);
        while i < buf.len()
            invariant
                start <= i <= buf.len(),
                forall|j: int| start <= j < i ==> buf@[j] != 10u8,
                run(old(self)@, chunk@) == drain(
                    self.parser@,
                    buf@.subrange(start as int, buf.len() as int),
                ),
            decreases buf.len() - i,
        {
            if buf[i] == 10u8 {
                let ghost rest = buf@.subrange(start as int, buf.len() as int);
                proof {
                    lemma_first_index_of_is(rest, 10u8, i - start);
                    assert(rest.subrange(0, i - start) == buf@.subrange(start as int, i as int));
                    assert(rest.subrange(i - start + 1, rest.len() as int) == buf@.subrange(
                        i + 1,
                        buf.len() as int,
                    ));
                }
                let mut end: usize = i;
                if end > start && buf[end - 1] == 13u8 {
                    end -= 1;
                }
                let raw = slice_bytes(&buf, start, end);
                proof {
                    let whole = buf@.subrange(start as int, i as int);
                    if whole.len() > 0 && whole.last() == 13u8 {
                        assert(whole.drop_last() == buf@.subrange(start as int, end as int));
                    }
                }
                let line = decode_text(raw.as_slice());
                match self.parser.push_line(line.as_str()) {
                    Err(e) => {
                        return Err(e);
                    },
                    Ok(Some(doc)) => {
                        return Ok(Some(doc));
                    },
                    Ok(None) => {},
                }
                start = i + 1;
            }
            i += 1;
        }
        proof {
            lemma_first_index_of_is(
                buf@.subrange(start as int, buf.len() as int),
                10u8,
                buf.len() - start,
            );
        }
        self.pending = slice_bytes(&buf, start, buf.len());
        Ok(None)
    }

    /// Ends the stream and gives its result.
    pub fn end(self) -> (r: Result<JsonDoc, SegmentationError>)
        ensures
            final_view(r) == end_result(self@),
    {
        let mut parser = self.parser;
        if self.pending.len() > 0 {
            let line = decode_text(self.pending.as_slice());
            match parser.push_line(line.as_str()) {
                Err(e) => {
                    return Err(e);
                },
                Ok(Some(doc)) => {
                    return Ok(doc);
                },
                Ok(None) => {},
            }
        }
        parser.finish()
    }
}

/// The views of a list of chunks.
pub open spec fn chunk_views(chunks: Seq<Vec<u8>>) -> Seq<Seq<u8>> {
    Seq::new(chunks.len(), |i: int| chunks[i]@)
}

/// Reads a whole stream that arrived as `chunks`. The result depends on the
/// bytes alone, not on where the chunks were cut.
pub fn parse_stream(chunks: &Vec<Vec<u8>>) -> (r: Result<JsonDoc, SegmentationError>)
    ensures
        final_view(r) == stream_result(concat_chunks(chunk_views(chunks@))),
{
    let mut stream = SseStream::new();
    let mut i: usize = 0;
    let ghost all = chunk_views(chunks@);
    while i < chunks.len()
        invariant
            i <= chunks.len(),
            all == chunk_views(chunks@),
            no_line_pending(stream@),
            run_all(initial_stream(), all.subrange(0, i as int)) == StreamStep::Continue(stream@),
        decreases chunks.len() - i,
    {
        proof {
            assert(all.subrange(0, i + 1).drop_last() == all.subrange(0, i as int));
            lemma_tail_is_irrelevant(
                initial_stream(),
                all.subrange(0, i + 1),
                all.subrange(i + 1, all.len() as int),
            );
            assert(all.subrange(0, i + 1) + all.subrange(i + 1, all.len() as int) == all);
        }
        match stream.feed(chunks[i].as_slice()) {
            Err(e) => {
                proof {
                    lemma_chunking_is_irrelevant(initial_stream(), all);
                }
                return Err(e);
            },
            Ok(Some(doc)) => {
                proof {
                    lemma_chunking_is_irrelevant(initial_stream(), all);
                }
                return Ok(doc);
            },
            Ok(None) => {},
        }
        i += 1;
    }
    proof {
        assert(all.subrange(0, all.len() as int) == all);
        lemma_chunking_is_irrelevant(initial_stream(), all);
    }
    stream.end()
}

/// Once a stream has given a payload or failed, later chunks change nothing.
pub proof fn lemma_tail_is_irrelevant(st: StreamState, head: Seq<Seq<u8>>, tail: Seq<Seq<u8>>)
    ensures
        !(run_all(st, head) is Continue) ==> run_all(st, head + tail) == run_all(st, head),
    decreases tail.len(),
{
    if tail.len() > 0 {
        lemma_tail_is_irrelevant(st, head, tail.drop_last());
        assert((head + tail).drop_last() == head + tail.drop_last());
    }
}

} // verus!
