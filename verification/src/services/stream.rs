//! The decoder of a streamed response: it takes the bytes of the body as
//! they arrive, in chunks of any size, and gives the text fragments that
//! the complete lines carry, in order.

use crate::json::{json_document, parse_json, JsonModel};
use crate::services::anthropic;
use crate::services::framing::{frames_after, lemma_frames_resume};
use crate::services::llm::Provider;
use crate::services::openai;
use crate::text::{trim, trim_bounds, window_eq, window_starts_with};
use vstd::prelude::*;
use vstd::seq_lib::lemma_flatten_concat;
use vstd::slice::slice_subrange;
use vstd::string::*;

verus! {

/// The bytes of `data: `, which a line that carries an event begins with.
pub open spec fn data_prefix() -> Seq<u8> {
    seq![0x64u8, 0x61u8, 0x74u8, 0x61u8, 0x3au8, 0x20u8]
}

/// The bytes of `[DONE]`, the payload that ends a stream of the OpenAI
/// protocol.
pub open spec fn done_marker() -> Seq<u8> {
    seq![0x5bu8, 0x44u8, 0x4fu8, 0x4eu8, 0x45u8, 0x5du8]
}

/// The payload of a line: what follows `data: ` in the trimmed line, where
/// the trimmed line begins with it.
pub open spec fn line_payload(line: Seq<u8>) -> Option<Seq<u8>> {
    let trimmed = trim(line);
    if data_prefix().is_prefix_of(trimmed) {
        Some(trimmed.skip(6))
    } else {
        None
    }
}

/// The text fragment that an event of the protocol `provider` carries.
pub open spec fn event_delta(provider: Provider, event: JsonModel) -> Option<Seq<char>> {
    match provider {
        Provider::OpenAi => openai::event_delta(event),
        Provider::Anthropic => anthropic::event_delta(event),
    }
}

/// The text fragment that a payload carries. The end marker of the OpenAI
/// protocol carries none, nor does a payload that is no JSON document.
pub open spec fn payload_delta(provider: Provider, payload: Seq<u8>) -> Option<Seq<char>> {
    if provider == Provider::OpenAi && payload == done_marker() {
        None
    } else {
        match json_document(payload) {
            Ok(event) => event_delta(provider, event),
            Err(_) => None,
        }
    }
}

/// The text fragment that a line carries, if it carries one.
pub open spec fn line_delta(provider: Provider, line: Seq<u8>) -> Option<Seq<char>> {
    match line_payload(line) {
        Some(payload) => payload_delta(provider, payload),
        None => None,
    }
}

/// The fragment of a line as a sequence: one fragment, or none.
pub open spec fn fragments(delta: Option<Seq<char>>) -> Seq<Seq<char>> {
    match delta {
        Some(text) => seq![text],
        None => Seq::empty(),
    }
}

/// The text fragments that `lines` carry, in the order of the lines.
pub open spec fn deltas_of(provider: Provider, lines: Seq<Seq<u8>>) -> Seq<Seq<char>>
    decreases lines.len(),
{
    if lines.len() == 0 {
        Seq::empty()
    } else {
        deltas_of(provider, lines.drop_last()) + fragments(line_delta(provider, lines.last()))
    }
}

/// The characters of each string of `texts`.
pub open spec fn texts(strings: Seq<String>) -> Seq<Seq<char>> {
    Seq::new(strings.len(), |i: int| strings[i]@)
}

/// The state of a decoder: the partial line that it holds back, and the
/// text gathered so far.
pub struct DecoderModel {
    pub provider: Provider,
    pub pending: Seq<u8>,
    pub content: Seq<char>,
}

impl DecoderModel {
    /// The decoder before the first chunk.
    pub open spec fn start(provider: Provider) -> DecoderModel {
        DecoderModel { provider, pending: Seq::empty(), content: Seq::empty() }
    }

    /// The decoder after the chunk `chunk`, and the fragments that the
    /// chunk completed: those of the lines that the chunk closes, the first
    /// of which begins with the bytes held back.
    pub open spec fn feed(self, chunk: Seq<u8>) -> (DecoderModel, Seq<Seq<char>>) {
        let read = frames_after(self.pending, chunk);
        let deltas = deltas_of(self.provider, read.0);
        (
            DecoderModel {
                provider: self.provider,
                pending: read.1,
                content: self.content + deltas.flatten(),
            },
            deltas,
        )
    }

    /// The decoder after each chunk of `chunks` in turn, and the fragments
    /// that they completed.
    pub open spec fn feed_all(self, chunks: Seq<Seq<u8>>) -> (DecoderModel, Seq<Seq<char>>)
        decreases chunks.len(),
    {
        if chunks.len() == 0 {
            (self, Seq::empty())
        } else {
            let before = self.feed_all(chunks.drop_last());
            let last = before.0.feed(chunks.last());
            (last.0, before.1 + last.1)
        }
    }

    /// What the end of the stream gives: the fragment of the partial line
    /// that was held back, if it carries one, and the whole text.
    pub open spec fn finish(self) -> (Seq<Seq<char>>, Seq<char>) {
        let last = fragments(line_delta(self.provider, self.pending));
        (last, self.content + last.flatten())
    }
}

/// A streamed response read to its end: every fragment in order, and the
/// whole text.
pub open spec fn decode(provider: Provider, chunks: Seq<Seq<u8>>) -> (Seq<Seq<char>>, Seq<char>) {
    let fed = DecoderModel::start(provider).feed_all(chunks);
    let end = fed.0.finish();
    (fed.1 + end.0, end.1)
}

/// The fragments of two runs of lines are the fragments of the first run,
/// then those of the second.
pub proof fn lemma_deltas_concat(provider: Provider, first: Seq<Seq<u8>>, second: Seq<Seq<u8>>)
    ensures
        deltas_of(provider, first + second) == deltas_of(provider, first) + deltas_of(
            provider,
            second,
        ),
    decreases second.len(),
{
    if second.len() == 0 {
        assert(deltas_of(provider, first) + Seq::<Seq<char>>::empty() =~= deltas_of(
            provider,
            first,
        ));
    } else {
        lemma_deltas_concat(provider, first, second.drop_last());
        assert((first + second).drop_last() =~= first + second.drop_last());
        assert((first + second).last() == second.last());
    }
}

/// Where a chunk is cut does not show: a decoder fed `first` and then
/// `second` is in the state of one fed `first + second`, and has given
/// the same fragments in the same order.
pub proof fn lemma_feed_split(state: DecoderModel, first: Seq<u8>, second: Seq<u8>)
    ensures
        state.feed(first).0.feed(second).0 == state.feed(first + second).0,
        state.feed(first).1 + state.feed(first).0.feed(second).1 == state.feed(first + second).1,
{
    let provider = state.provider;
    lemma_frames_resume(state.pending, first, second);
    let lines_a = frames_after(state.pending, first).0;
    let lines_b = frames_after(frames_after(state.pending, first).1, second).0;
    lemma_deltas_concat(provider, lines_a, lines_b);
    lemma_flatten_concat(deltas_of(provider, lines_a), deltas_of(provider, lines_b));
    assert(state.content + (deltas_of(provider, lines_a) + deltas_of(provider, lines_b)).flatten()
        =~= (state.content + deltas_of(provider, lines_a).flatten()) + deltas_of(
        provider,
        lines_b,
    ).flatten());
}

/// Feeding a decoder the chunks `chunks` one by one is feeding it their
/// bytes as one chunk.
pub proof fn lemma_feed_all_is_feed(state: DecoderModel, chunks: Seq<Seq<u8>>)
    ensures
        state.feed_all(chunks) == state.feed(chunks.flatten()),
    decreases chunks.len(),
{
    if chunks.len() > 0 {
        let init = chunks.drop_last();
        lemma_feed_all_is_feed(state, init);
        lemma_feed_split(state, init.flatten(), chunks.last());
        assert(init.push(chunks.last()) =~= chunks);
        init.lemma_flatten_push(chunks.last());
    }
}

/// A response stream gives the same fragments, in the same order, and the
/// same text, however its bytes are cut into chunks: as many chunks of any
/// sizes give what the one chunk of all the bytes gives.
pub proof fn lemma_chunking_invisible(provider: Provider, chunks: Seq<Seq<u8>>)
    ensures
        decode(provider, chunks) == decode(provider, seq![chunks.flatten()]),
{
    let start = DecoderModel::start(provider);
    let whole = seq![chunks.flatten()];
    lemma_feed_all_is_feed(start, chunks);
    lemma_feed_all_is_feed(start, whole);
    whole.lemma_flatten_singleton();
}

/// A response stream cut in two at any byte gives what the uncut stream
/// gives, also where the cut falls on a line feed, before it or after it.
pub proof fn lemma_split_invisible(provider: Provider, stream: Seq<u8>, at: int)
    requires
        0 <= at <= stream.len(),
    ensures
        decode(provider, seq![stream.take(at), stream.skip(at)]) == decode(provider, seq![stream]),
{
    let halves = seq![stream.take(at), stream.skip(at)];
    lemma_chunking_invisible(provider, halves);
    assert(halves.drop_last() =~= seq![stream.take(at)]);
    seq![stream.take(at)].lemma_flatten_push(stream.skip(at));
    assert(seq![stream.take(at)].push(stream.skip(at)) =~= halves);
    seq![stream.take(at)].lemma_flatten_singleton();
    assert(stream.take(at) + stream.skip(at) =~= stream);
}

/// The text of a streamed response is its fragments, one after the other.
pub proof fn lemma_content_is_deltas(provider: Provider, chunks: Seq<Seq<u8>>)
    ensures
        decode(provider, chunks).1 == decode(provider, chunks).0.flatten(),
{
    let start = DecoderModel::start(provider);
    lemma_feed_all_is_feed(start, chunks);
    let fed = start.feed(chunks.flatten());
    let end = fed.0.finish();
    lemma_flatten_concat(fed.1, end.0);
}

/// Reads the text fragment of one line.
pub fn decode_line(provider: Provider, line: &[u8]) -> (delta: Option<String>)
    ensures
        match delta {
            Some(text) => line_delta(provider, line@) == Some(text@),
            None => line_delta(provider, line@) is None,
        },
{
    let prefix: [u8; 6] = [0x64, 0x61, 0x74, 0x61, 0x3a, 0x20];
    let marker: [u8; 6] = [0x5b, 0x44, 0x4f, 0x4e, 0x45, 0x5d];
    assert(prefix@ =~= data_prefix());
    let (from, to) = trim_bounds(line);
    if !window_starts_with(line, from, to, prefix.as_slice()) {
        return None;
    }
    assert(line@.subrange(from as int, to as int).skip(6) =~= line@.subrange(
        from + 6,
        to as int,
    ));
    let payload = slice_subrange(line, from + 6, to);
    if provider == Provider::OpenAi && window_eq(line, from + 6, to, marker.as_slice()) {
        return None;
    }
    match parse_json(payload) {
        Ok(event) => {
            let text = match provider {
                Provider::OpenAi => openai::delta_text(&event),
                Provider::Anthropic => anthropic::delta_text(&event),
            };
            match text {
                Some(t) => Some(String::from_str(t)),
                None => None,
            }
        },
        Err(_) => None,
    }
}

/// The decoder of one streamed response.
pub struct StreamDecoder {
    provider: Provider,
    buffer: Vec<u8>,
    content: String,
}

impl View for StreamDecoder {
    type V = DecoderModel;

    closed spec fn view(&self) -> DecoderModel {
        DecoderModel { provider: self.provider, pending: self.buffer@, content: self.content@ }
    }
}

impl StreamDecoder {
    /// A decoder for a response of the protocol `provider`.
    pub fn new(provider: Provider) -> (decoder: StreamDecoder)
        ensures
            decoder@ == DecoderModel::start(provider),
    {
        StreamDecoder { provider, buffer: Vec::new(), content: String::new() }
    }

    /// Takes the next chunk of the response body. Returns the text
    /// fragments of the lines that the chunk completes, in the order of the
    /// lines; what follows the last line feed is held back for the next
    /// chunk.
    pub fn feed(&mut self, chunk: &[u8]) -> (deltas: Vec<String>)
        ensures
            final(self)@ == old(self)@.feed(chunk@).0,
            texts(deltas@) == old(self)@.feed(chunk@).1,
    {
        let provider = self.provider;
        let ghost pending = self.buffer@;
        let ghost gathered = self.content@;
        let mut deltas: Vec<String> = Vec::new();
        let mut i: usize = 0;
        while i < chunk.len()
            invariant
                i <= chunk@.len(),
                self.provider == provider,
                self.buffer@ == frames_after(pending, chunk@.take(i as int)).1,
                texts(deltas@) == deltas_of(
                    provider,
                    frames_after(pending, chunk@.take(i as int)).0,
                ),
                self.content@ == gathered + texts(deltas@).flatten(),
            decreases chunk@.len() - i,
        {
            let byte = chunk[i];
            let ghost read = chunk@.take(i as int);
            let ghost before = texts(deltas@);
            proof {
                assert(chunk@.take(i + 1) =~= read.push(byte));
                assert(read.push(byte).drop_last() =~= read);
            }
            if byte == 0x0a {
                let delta = decode_line(provider, self.buffer.as_slice());
                proof {
                    assert(frames_after(pending, read.push(byte)).0.drop_last() =~= frames_after(
                        pending,
                        read,
                    ).0);
                }
                match delta {
                    Some(text) => {
                        self.content.append(text.as_str());
                        deltas.push(text);
                        proof {
                            lemma_flatten_concat(before, seq![text@]);
                            seq![text@].lemma_flatten_singleton();
                        }
                    },
                    None => {},
                }
                self.buffer.clear();
            } else {
                self.buffer.push(byte);
            }
            i += 1;
        }
        assert(chunk@.take(chunk@.len() as int) =~= chunk@);
        deltas
    }

    /// Ends the stream. Returns the text fragment of the partial line that
    /// was held back, if it carries one, and the whole text of the
    /// response.
    pub fn finish(self) -> (end: (Vec<String>, String))
        ensures
            texts(end.0@) == self@.finish().0,
            end.1@ == self@.finish().1,
    {
        let mut content = self.content;
        let mut last: Vec<String> = Vec::new();
        match decode_line(self.provider, self.buffer.as_slice()) {
            Some(text) => {
                content.append(text.as_str());
                last.push(text);
                proof {
                    seq![text@].lemma_flatten_singleton();
                }
            },
            None => {},
        }
        (last, content)
    }
}

} // verus!
