//! The decoder of a whole event stream: chunks go in, text fragments come
//! out in arrival order, and the cumulative answer and the conversation
//! identifier build up.

use crate::sse::event::{
    decode_line, event_of_line, is_marker, lemma_marker_line, or_else, plain_line, text_view,
    SseEvent, SseEventValue,
};
use crate::sse::event::{extract_text_from_json, extract_thread_id};
use crate::sse::lines::{
    all_lines, complete_lines, join_lines, last_line, lemma_joined_lines_split, lemma_line_end_is,
    lemma_lines_unbroken, lemma_split_concat, lines_view, residue, unbroken, LineBuffer,
    LINE_FEED,
};
use vstd::prelude::*;
use vstd::string::StringExecFns;
use vstd::utf8::{
    decode_utf8, encode_utf8, encode_utf8_decode_utf8, encode_utf8_valid_utf8,
    is_ascii_chars_encode_utf8, valid_utf8,
};

verus! {

/// The text that lossy UTF-8 decoding makes of `bytes` that are not
/// well-formed UTF-8.
pub uninterp spec fn utf8_lossy(bytes: Seq<u8>) -> Seq<char>;

/// The text that lossy UTF-8 decoding makes of `bytes`: the characters that
/// they encode where they are well-formed UTF-8, and else a text with
/// replacement characters in it.
pub open spec fn lossy_text(bytes: Seq<u8>) -> Seq<char> {
    if valid_utf8(bytes) {
        decode_utf8(bytes)
    } else {
        utf8_lossy(bytes)
    }
}

/// `String::from_utf8_lossy`: hands back well-formed UTF-8 as the text that
/// it encodes, and puts the replacement character where bytes are not
/// well-formed.
#[verifier::external_body]
pub(crate) fn decode_lossy(bytes: &[u8]) -> (r: String)
    ensures
        valid_utf8(bytes@) ==> r@ == decode_utf8(bytes@),
        !valid_utf8(bytes@) ==> r@ == utf8_lossy(bytes@),
{
    String::from_utf8_lossy(bytes).into_owned()
}

/// The mathematical value of a [`StreamAccumulator`].
pub struct Accumulated {
    /// The fragments so far, one after the other.
    pub answer: Seq<char>,
    /// The latest conversation identifier.
    pub thread_id: Option<Seq<char>>,
    /// How many data lines had a payload that was not JSON.
    pub malformed: nat,
}

impl Accumulated {
    /// The state before any line, with the identifier of the conversation
    /// that the call continues, if any.
    pub open spec fn initial(thread_id: Option<Seq<char>>) -> Accumulated {
        Accumulated { answer: Seq::empty(), thread_id, malformed: 0 }
    }

    /// The state after an event: a fragment is appended to the answer, an
    /// identifier replaces the one before, and a malformed payload is
    /// counted, up to the largest count that fits.
    pub open spec fn absorb(self, event: SseEventValue) -> Accumulated {
        match event {
            SseEventValue::Ignorable => self,
            SseEventValue::Malformed => Accumulated {
                malformed: if self.malformed < u64::MAX {
                    self.malformed + 1
                } else {
                    self.malformed
                },
                ..self
            },
            SseEventValue::Payload(_) => Accumulated {
                answer: self.answer + fragment_text(event.fragment()),
                thread_id: or_else(event.thread_id(), self.thread_id),
                ..self
            },
        }
    }
}

/// The characters of a fragment that may be absent.
pub open spec fn fragment_text(fragment: Option<Seq<char>>) -> Seq<char> {
    match fragment {
        Some(text) => text,
        None => Seq::empty(),
    }
}

/// A fragment that may be absent, as a sequence of none or one.
pub open spec fn fragment_seq(fragment: Option<Seq<char>>) -> Seq<Seq<char>> {
    match fragment {
        Some(text) => seq![text],
        None => Seq::empty(),
    }
}

/// The meaning of a line given as bytes.
pub open spec fn line_event(line: Seq<u8>) -> SseEventValue {
    event_of_line(lossy_text(line))
}

/// The state after the events of `lines`, taken in order.
pub open spec fn absorb_lines(acc: Accumulated, lines: Seq<Seq<u8>>) -> Accumulated
    decreases lines.len(),
{
    if lines.len() == 0 {
        acc
    } else {
        absorb_lines(acc.absorb(line_event(lines[0])), lines.skip(1))
    }
}

/// The fragments of `lines`, in order.
pub open spec fn fragments_of_lines(lines: Seq<Seq<u8>>) -> Seq<Seq<char>>
    decreases lines.len(),
{
    if lines.len() == 0 {
        Seq::empty()
    } else {
        fragment_seq(line_event(lines[0]).fragment()) + fragments_of_lines(lines.skip(1))
    }
}

/// The texts of `fragments`, one after the other.
pub open spec fn concat_texts(fragments: Seq<Seq<char>>) -> Seq<char>
    decreases fragments.len(),
{
    if fragments.len() == 0 {
        Seq::empty()
    } else {
        fragments[0] + concat_texts(fragments.skip(1))
    }
}

/// The character sequences that a vector of strings holds.
pub open spec fn strings_view(strings: Seq<String>) -> Seq<Seq<char>> {
    strings.map_values(|s: String| s@)
}

/// Absorbing lines one group after the other is absorbing them all.
pub proof fn lemma_absorb_concat(acc: Accumulated, first: Seq<Seq<u8>>, second: Seq<Seq<u8>>)
    ensures
        absorb_lines(acc, first + second) == absorb_lines(absorb_lines(acc, first), second),
        fragments_of_lines(first + second) == fragments_of_lines(first) + fragments_of_lines(
            second,
        ),
    decreases first.len(),
{
    if first.len() == 0 {
        assert(first + second =~= second);
        assert(fragments_of_lines(first) + fragments_of_lines(second) =~= fragments_of_lines(
            second,
        ));
    } else {
        let all = first + second;
        assert(all[0] == first[0]);
        assert(all.skip(1) =~= first.skip(1) + second);
        lemma_absorb_concat(acc.absorb(line_event(first[0])), first.skip(1), second);
        assert(fragment_seq(line_event(first[0]).fragment()) + (fragments_of_lines(first.skip(1))
            + fragments_of_lines(second)) =~= (fragment_seq(line_event(first[0]).fragment())
            + fragments_of_lines(first.skip(1))) + fragments_of_lines(second));
    }
}

/// The answer only grows: after any lines it is the answer before, followed
/// by the fragments of those lines in order.
pub proof fn lemma_answer_appends(acc: Accumulated, lines: Seq<Seq<u8>>)
    ensures
        absorb_lines(acc, lines).answer == acc.answer + concat_texts(fragments_of_lines(lines)),
    decreases lines.len(),
{
    if lines.len() == 0 {
        assert(acc.answer + concat_texts(fragments_of_lines(lines)) =~= acc.answer);
    } else {
        let event = line_event(lines[0]);
        let next = acc.absorb(event);
        lemma_answer_appends(next, lines.skip(1));
        let rest = fragments_of_lines(lines.skip(1));
        let head = fragment_seq(event.fragment());
        assert(concat_texts(head + rest) == fragment_text(event.fragment()) + concat_texts(rest))
            by {
            if event.fragment() is Some {
                assert((head + rest)[0] == event.fragment()->0);
                assert((head + rest).skip(1) =~= rest);
            } else {
                assert(head + rest =~= rest);
                assert(fragment_text(event.fragment()) + concat_texts(rest) =~= concat_texts(rest));
            }
        }
        assert(next.answer == acc.answer + fragment_text(event.fragment())) by {
            if !(event is Payload) {
                assert(acc.answer + fragment_text(event.fragment()) =~= acc.answer);
            }
        }
        assert((acc.answer + fragment_text(event.fragment())) + concat_texts(rest) =~= acc.answer
            + (fragment_text(event.fragment()) + concat_texts(rest)));
    }
}

/// Lines without a fragment are silent: blank lines, comments, `id:` and
/// `event:` lines, end markers, payloads that are not JSON and documents of
/// another shape set no fragment free and leave the answer as it is.
pub proof fn lemma_silent_lines(acc: Accumulated, lines: Seq<Seq<u8>>)
    requires
        forall|i: int| 0 <= i < lines.len() ==> line_event(#[trigger] lines[i]).fragment() is None,
    ensures
        fragments_of_lines(lines) == Seq::<Seq<char>>::empty(),
        absorb_lines(acc, lines).answer == acc.answer,
    decreases lines.len(),
{
    if lines.len() > 0 {
        let rest = lines.skip(1);
        assert forall|i: int| 0 <= i < rest.len() implies line_event(
            #[trigger] rest[i],
        ).fragment() is None by {
            assert(rest[i] == lines[i + 1]);
        }
        lemma_silent_lines(acc.absorb(line_event(lines[0])), rest);
        assert(line_event(lines[0]).fragment() is None);
        assert(acc.absorb(line_event(lines[0])).answer =~= acc.answer);
        assert(fragment_seq(line_event(lines[0]).fragment()) + fragments_of_lines(rest)
            =~= Seq::<Seq<char>>::empty());
    }
}

/// What a streaming call has gathered: the cumulative answer, the latest
/// conversation identifier, and the count of payloads that were not JSON.
#[derive(Debug)]
pub struct StreamAccumulator {
    answer: String,
    thread_id: Option<String>,
    malformed: u64,
}

impl View for StreamAccumulator {
    type V = Accumulated;

    closed spec fn view(&self) -> Accumulated {
        Accumulated {
            answer: self.answer@,
            thread_id: text_view(self.thread_id),
            malformed: self.malformed as nat,
        }
    }
}

impl StreamAccumulator {
    /// An accumulator with an empty answer, for a call that continues the
    /// conversation `thread_id` or begins one.
    pub fn new(thread_id: Option<String>) -> (r: Self)
        ensures
            r@ == Accumulated::initial(text_view(thread_id)),
    {
        StreamAccumulator { answer: String::new(), thread_id, malformed: 0 }
    }

    /// The fragments so far, one after the other.
    pub fn answer(&self) -> (r: &str)
        ensures
            r@ == self@.answer,
    {
        self.answer.as_str()
    }

    /// The latest conversation identifier.
    pub fn thread_id(&self) -> (r: &Option<String>)
        ensures
            text_view(*r) == self@.thread_id,
    {
        &self.thread_id
    }

    /// How many data lines had a payload that was not JSON.
    pub fn malformed_lines(&self) -> (r: u64)
        ensures
            r == self@.malformed,
    {
        self.malformed
    }

    /// Gives up the answer and the conversation identifier.
    pub fn into_parts(self) -> (r: (String, Option<String>))
        ensures
            r.0@ == self@.answer,
            text_view(r.1) == self@.thread_id,
    {
        (self.answer, self.thread_id)
    }

    /// Takes in one event and hands out its fragment, if it has one.
    pub fn absorb(&mut self, event: &SseEvent) -> (fragment: Option<String>)
        ensures
            final(self)@ == old(self)@.absorb(event@),
            text_view(fragment) == event@.fragment(),
    {
        match event {
            SseEvent::Ignorable => None,
            SseEvent::Malformed(_) => {
                if self.malformed < u64::MAX {
                    self.malformed = self.malformed + 1;
                }
                None
            },
            SseEvent::Payload(doc) => {
                let fragment = match extract_text_from_json(doc) {
                    Ok(fragment) => fragment,
                    Err(_) => None,
                };
                match &fragment {
                    Some(text) => {
                        self.answer.append(text.as_str());
                    },
                    None => {
                        assert(self.answer@ + Seq::<char>::empty() =~= self.answer@);
                    },
                }
                match extract_thread_id(doc) {
                    Some(id) => {
                        self.thread_id = Some(id);
                    },
                    None => {},
                }
                fragment
            },
        }
    }
}

/// The mathematical value of a [`StreamDecoder`].
pub struct DecoderState {
    /// The beginning of the line that is not complete yet.
    pub pending: Seq<u8>,
    /// What the complete lines have given.
    pub acc: Accumulated,
}

impl DecoderState {
    /// The state before any chunk.
    pub open spec fn initial(thread_id: Option<Seq<char>>) -> DecoderState {
        DecoderState { pending: Seq::empty(), acc: Accumulated::initial(thread_id) }
    }

    /// The state after a chunk.
    pub open spec fn feed(self, chunk: Seq<u8>) -> DecoderState {
        DecoderState {
            pending: residue(self.pending + chunk),
            acc: absorb_lines(self.acc, complete_lines(self.pending + chunk)),
        }
    }

    /// The fragments that a chunk sets free, in order.
    pub open spec fn emitted(self, chunk: Seq<u8>) -> Seq<Seq<char>> {
        fragments_of_lines(complete_lines(self.pending + chunk))
    }

    /// What has been gathered once the stream has ended: what is left over
    /// counts as a last line.
    pub open spec fn flush(self) -> Accumulated {
        absorb_lines(self.acc, last_line(self.pending))
    }

    /// The fragment that the end of the stream sets free, if any.
    pub open spec fn flushed(self) -> Seq<Seq<char>> {
        fragments_of_lines(last_line(self.pending))
    }

    /// The state after all of `chunks`, in order.
    pub open spec fn feed_all(self, chunks: Seq<Seq<u8>>) -> DecoderState
        decreases chunks.len(),
    {
        if chunks.len() == 0 {
            self
        } else {
            self.feed(chunks[0]).feed_all(chunks.skip(1))
        }
    }

    /// The fragments that `chunks` set free, in order.
    pub open spec fn emitted_all(self, chunks: Seq<Seq<u8>>) -> Seq<Seq<char>>
        decreases chunks.len(),
    {
        if chunks.len() == 0 {
            Seq::empty()
        } else {
            self.emitted(chunks[0]) + self.feed(chunks[0]).emitted_all(chunks.skip(1))
        }
    }
}

/// The bytes of `chunks`, one chunk after the other.
pub open spec fn concat_chunks(chunks: Seq<Seq<u8>>) -> Seq<u8>
    decreases chunks.len(),
{
    if chunks.len() == 0 {
        Seq::empty()
    } else {
        chunks[0] + concat_chunks(chunks.skip(1))
    }
}

/// Every fragment of a stream that arrives as `chunks` and then ends.
pub open spec fn stream_fragments(thread_id: Option<Seq<char>>, chunks: Seq<Seq<u8>>) -> Seq<
    Seq<char>,
> {
    let start = DecoderState::initial(thread_id);
    start.emitted_all(chunks) + start.feed_all(chunks).flushed()
}

/// What a stream that arrives as `chunks` and then ends leaves gathered.
pub open spec fn stream_outcome(thread_id: Option<Seq<char>>, chunks: Seq<Seq<u8>>) -> Accumulated {
    DecoderState::initial(thread_id).feed_all(chunks).flush()
}

/// Feeding chunks one by one is feeding their bytes at once, for a state
/// whose pending bytes hold no line feed, as every state of a decoder does.
pub proof fn lemma_feed_all(state: DecoderState, chunks: Seq<Seq<u8>>)
    requires
        unbroken(state.pending),
    ensures
        state.feed_all(chunks) == state.feed(concat_chunks(chunks)),
        state.emitted_all(chunks) == state.emitted(concat_chunks(chunks)),
    decreases chunks.len(),
{
    if chunks.len() == 0 {
        assert(state.pending + Seq::<u8>::empty() =~= state.pending);
    } else {
        let head = chunks[0];
        let tail = concat_chunks(chunks.skip(1));
        let next = state.feed(head);
        lemma_lines_unbroken(state.pending + head);
        lemma_feed_all(next, chunks.skip(1));
        lemma_split_concat(state.pending + head, tail);
        assert((state.pending + head) + tail =~= state.pending + (head + tail));
        lemma_absorb_concat(
            state.acc,
            complete_lines(state.pending + head),
            complete_lines(next.pending + tail),
        );
    }
}

/// Chunk boundaries do not matter: however the bytes of a stream are cut
/// into chunks, the fragments and what is gathered at the end are those of
/// the stream taken as one chunk, namely those of its lines.
pub proof fn lemma_chunking_invariance(thread_id: Option<Seq<char>>, chunks: Seq<Seq<u8>>)
    ensures
        stream_fragments(thread_id, chunks) == stream_fragments(
            thread_id,
            seq![concat_chunks(chunks)],
        ),
        stream_outcome(thread_id, chunks) == stream_outcome(thread_id, seq![concat_chunks(chunks)]),
        stream_fragments(thread_id, chunks) == fragments_of_lines(
            all_lines(concat_chunks(chunks)),
        ),
        stream_outcome(thread_id, chunks) == absorb_lines(
            Accumulated::initial(thread_id),
            all_lines(concat_chunks(chunks)),
        ),
{
    let start = DecoderState::initial(thread_id);
    let bytes = concat_chunks(chunks);
    let one = seq![bytes];
    lemma_feed_all(start, chunks);
    lemma_feed_all(start, one);
    assert(concat_chunks(one) =~= bytes) by {
        assert(one.skip(1) =~= Seq::<Seq<u8>>::empty());
        assert(bytes + concat_chunks(one.skip(1)) =~= bytes);
    }
    assert(start.pending + bytes =~= bytes);
    lemma_absorb_concat(start.acc, complete_lines(bytes), last_line(residue(bytes)));
}

/// The answer of a stream is its fragments, one after the other.
pub proof fn lemma_answer_is_fragments(thread_id: Option<Seq<char>>, chunks: Seq<Seq<u8>>)
    ensures
        stream_outcome(thread_id, chunks).answer == concat_texts(
            stream_fragments(thread_id, chunks),
        ),
{
    lemma_chunking_invariance(thread_id, chunks);
    let start = Accumulated::initial(thread_id);
    lemma_answer_appends(start, all_lines(concat_chunks(chunks)));
    assert(start.answer + concat_texts(stream_fragments(thread_id, chunks)) =~= concat_texts(
        stream_fragments(thread_id, chunks),
    ));
}

/// A line of plain ASCII, encoded as UTF-8, holds no line feed and decodes
/// to itself.
pub proof fn lemma_plain_line(text: Seq<char>)
    requires
        plain_line(text),
    ensures
        unbroken(encode_utf8(text)),
        lossy_text(encode_utf8(text)) == text,
{
    let bytes = encode_utf8(text);
    is_ascii_chars_encode_utf8(text);
    encode_utf8_valid_utf8(text);
    encode_utf8_decode_utf8(text);
    assert forall|i: int| 0 <= i < bytes.len() implies #[trigger] bytes[i] != LINE_FEED by {
        assert(text[i] as u8 == bytes[i]);
        assert(text[i] != '\n');
    }
    lemma_line_end_is(bytes, bytes.len() as int);
}

/// The UTF-8 encodings of `texts`.
pub open spec fn encoded_lines(texts: Seq<Seq<char>>) -> Seq<Seq<u8>> {
    texts.map_values(|text: Seq<char>| encode_utf8(text))
}

/// A stream of silent lines is silent however it is cut: where every line
/// is plain ASCII with no fragment, and each ends with a line feed, the
/// stream sets no fragment free and its answer is empty, whatever the
/// chunks are that its bytes arrive in.
pub proof fn lemma_silent_stream(
    thread_id: Option<Seq<char>>,
    texts: Seq<Seq<char>>,
    chunks: Seq<Seq<u8>>,
)
    requires
        forall|i: int|
            0 <= i < texts.len() ==> plain_line(#[trigger] texts[i]) && event_of_line(
                texts[i],
            ).fragment() is None,
        concat_chunks(chunks) == join_lines(encoded_lines(texts)),
    ensures
        stream_fragments(thread_id, chunks) == Seq::<Seq<char>>::empty(),
        stream_outcome(thread_id, chunks).answer == Seq::<char>::empty(),
{
    let lines = encoded_lines(texts);
    assert forall|i: int| 0 <= i < lines.len() implies unbroken(#[trigger] lines[i])
        && line_event(lines[i]).fragment() is None by {
        assert(plain_line(texts[i]));
        lemma_plain_line(texts[i]);
    }
    lemma_joined_lines_split(lines);
    assert(all_lines(join_lines(lines)) =~= lines);
    lemma_chunking_invariance(thread_id, chunks);
    lemma_silent_lines(Accumulated::initial(thread_id), lines);
}

/// The marker lines are silent for any cut: a stream made of end markers,
/// empty `data:` lines, `id:` lines, `event:` lines and empty lines, in any
/// number and order, sets no fragment free, gathers nothing and counts no
/// malformed payload, whatever the chunks are that its bytes arrive in.
pub proof fn lemma_marker_stream(
    thread_id: Option<Seq<char>>,
    texts: Seq<Seq<char>>,
    chunks: Seq<Seq<u8>>,
)
    requires
        forall|i: int| 0 <= i < texts.len() ==> is_marker(#[trigger] texts[i]),
        concat_chunks(chunks) == join_lines(encoded_lines(texts)),
    ensures
        stream_fragments(thread_id, chunks) == Seq::<Seq<char>>::empty(),
        stream_outcome(thread_id, chunks) == Accumulated::initial(thread_id),
{
    let lines = encoded_lines(texts);
    assert forall|i: int| 0 <= i < texts.len() implies plain_line(#[trigger] texts[i])
        && event_of_line(texts[i]).fragment() is None by {
        lemma_marker_line(texts[i]);
    }
    lemma_silent_stream(thread_id, texts, chunks);
    assert forall|i: int| 0 <= i < lines.len() implies unbroken(#[trigger] lines[i])
        && line_event(lines[i]) == SseEventValue::Ignorable by {
        lemma_marker_line(texts[i]);
        lemma_plain_line(texts[i]);
    }
    lemma_joined_lines_split(lines);
    assert(all_lines(join_lines(lines)) =~= lines);
    lemma_chunking_invariance(thread_id, chunks);
    lemma_ignorable_lines(Accumulated::initial(thread_id), lines);
}

/// Lines that mean nothing change nothing.
pub proof fn lemma_ignorable_lines(acc: Accumulated, lines: Seq<Seq<u8>>)
    requires
        forall|i: int|
            0 <= i < lines.len() ==> line_event(#[trigger] lines[i]) == SseEventValue::Ignorable,
    ensures
        absorb_lines(acc, lines) == acc,
    decreases lines.len(),
{
    if lines.len() > 0 {
        let rest = lines.skip(1);
        assert forall|i: int| 0 <= i < rest.len() implies line_event(#[trigger] rest[i])
            == SseEventValue::Ignorable by {
            assert(rest[i] == lines[i + 1]);
        }
        assert(line_event(lines[0]) == SseEventValue::Ignorable);
        lemma_ignorable_lines(acc, rest);
    }
}

/// The byte sequences that a vector of chunks holds.
pub open spec fn chunks_view(chunks: Seq<Vec<u8>>) -> Seq<Seq<u8>> {
    lines_view(chunks)
}

/// Takes in the events of `lines`, in order, and hands out their fragments.
fn absorb_all(acc: &mut StreamAccumulator, lines: &Vec<Vec<u8>>) -> (fragments: Vec<String>)
    ensures
        final(acc)@ == absorb_lines(old(acc)@, lines_view(lines@)),
        strings_view(fragments@) == fragments_of_lines(lines_view(lines@)),
{
    let ghost all = lines_view(lines@);
    let ghost start = acc@;
    let mut fragments: Vec<String> = Vec::new();
    let mut i: usize = 0;
    proof {
        assert(all.skip(0) =~= all);
        assert(strings_view(fragments@) + fragments_of_lines(all) =~= fragments_of_lines(all));
    }
    while i < lines.len()
        invariant
            i <= lines.len(),
            all == lines_view(lines@),
            absorb_lines(acc@, all.skip(i as int)) == absorb_lines(start, all),
            strings_view(fragments@) + fragments_of_lines(all.skip(i as int))
                == fragments_of_lines(all),
        decreases lines.len() - i,
    {
        let ghost rest = all.skip(i as int);
        let ghost done = strings_view(fragments@);
        proof {
            assert(rest[0] == lines@[i as int]@);
            assert(rest.skip(1) =~= all.skip(i + 1));
        }
        let text = decode_lossy(lines[i].as_slice());
        let event = decode_line(text.as_str());
        match acc.absorb(&event) {
            Some(fragment) => {
                fragments.push(fragment);
                proof {
                    assert(strings_view(fragments@) =~= done + seq![fragment@]);
                    assert((done + seq![fragment@]) + fragments_of_lines(rest.skip(1)) =~= done
                        + (seq![fragment@] + fragments_of_lines(rest.skip(1))));
                }
            },
            None => {
                proof {
                    assert(Seq::<Seq<char>>::empty() + fragments_of_lines(rest.skip(1))
                        =~= fragments_of_lines(rest.skip(1)));
                }
            },
        }
        i += 1;
    }
    proof {
        assert(strings_view(fragments@) + Seq::<Seq<char>>::empty() =~= strings_view(fragments@));
    }
    fragments
}

/// The decoder of one event stream. Chunks go in as they arrive; the
/// fragments of the lines that a chunk completes come out at once, in order.
pub struct StreamDecoder {
    buffer: LineBuffer,
    acc: StreamAccumulator,
}

impl View for StreamDecoder {
    type V = DecoderState;

    closed spec fn view(&self) -> DecoderState {
        DecoderState { pending: self.buffer@, acc: self.acc@ }
    }
}

impl StreamDecoder {
    /// A decoder before any chunk, for a call that continues the
    /// conversation `thread_id` or begins one.
    pub fn new(thread_id: Option<String>) -> (r: Self)
        ensures
            r@ == DecoderState::initial(text_view(thread_id)),
    {
        StreamDecoder { buffer: LineBuffer::new(), acc: StreamAccumulator::new(thread_id) }
    }

    /// What the complete lines have given so far.
    pub fn accumulated(&self) -> (r: &StreamAccumulator)
        ensures
            r@ == self@.acc,
    {
        &self.acc
    }

    /// How many bytes wait for the end of their line.
    pub fn pending_len(&self) -> (r: usize)
        ensures
            r == self@.pending.len(),
    {
        self.buffer.len()
    }

    /// Takes in a chunk and hands out the fragments of the lines that it
    /// completes, in arrival order. The answer grows by exactly these
    /// fragments.
    pub fn push_chunk(&mut self, chunk: &[u8]) -> (fragments: Vec<String>)
        ensures
            final(self)@ == old(self)@.feed(chunk@),
            strings_view(fragments@) == old(self)@.emitted(chunk@),
            final(self)@.acc.answer == old(self)@.acc.answer + concat_texts(
                strings_view(fragments@),
            ),
            unbroken(final(self)@.pending),
    {
        proof {
            lemma_answer_appends(self@.acc, complete_lines(self@.pending + chunk@));
        }
        let lines = self.buffer.push_chunk(chunk);
        absorb_all(&mut self.acc, &lines)
    }

    /// Ends the stream: what is left over counts as a last line. Hands out
    /// the fragment of that line, if any, and what the stream has gathered.
    pub fn finish(self) -> (r: (Vec<String>, StreamAccumulator))
        ensures
            strings_view(r.0@) == self@.flushed(),
            r.1@ == self@.flush(),
            r.1@.answer == self@.acc.answer + concat_texts(strings_view(r.0@)),
    {
        proof {
            lemma_answer_appends(self@.acc, last_line(self@.pending));
        }
        let mut decoder = self;
        let mut lines: Vec<Vec<u8>> = Vec::new();
        match decoder.buffer.take_rest() {
            Some(line) => {
                lines.push(line);
                assert(lines_view(lines@) =~= seq![line@]);
            },
            None => {
                assert(lines_view(lines@) =~= Seq::<Seq<u8>>::empty());
            },
        }
        let mut acc = decoder.acc;
        let fragments = absorb_all(&mut acc, &lines);
        (fragments, acc)
    }
}

/// Decodes a stream that has arrived as `chunks` and then ended: hands out
/// every fragment, in order, and what the stream has gathered.
pub fn decode_chunks(chunks: &Vec<Vec<u8>>, thread_id: Option<String>) -> (r: (
    Vec<String>,
    StreamAccumulator,
))
    ensures
        strings_view(r.0@) == stream_fragments(text_view(thread_id), chunks_view(chunks@)),
        r.1@ == stream_outcome(text_view(thread_id), chunks_view(chunks@)),
{
    let ghost all = chunks_view(chunks@);
    let ghost start = DecoderState::initial(text_view(thread_id));
    let mut decoder = StreamDecoder::new(thread_id);
    let mut fragments: Vec<String> = Vec::new();
    let mut i: usize = 0;
    proof {
        assert(all.skip(0) =~= all);
        assert(strings_view(fragments@) + start.emitted_all(all) =~= start.emitted_all(all));
    }
    while i < chunks.len()
        invariant
            i <= chunks.len(),
            all == chunks_view(chunks@),
            decoder@.feed_all(all.skip(i as int)) == start.feed_all(all),
            strings_view(fragments@) + decoder@.emitted_all(all.skip(i as int))
                == start.emitted_all(all),
        decreases chunks.len() - i,
    {
        let ghost rest = all.skip(i as int);
        let ghost done = strings_view(fragments@);
        let ghost before = decoder@;
        proof {
            assert(rest[0] == chunks@[i as int]@);
            assert(rest.skip(1) =~= all.skip(i + 1));
        }
        let mut more = decoder.push_chunk(chunks[i].as_slice());
        proof {
            assert((done + strings_view(more@)) + decoder@.emitted_all(rest.skip(1)) =~= done + (
            before.emitted(rest[0]) + decoder@.emitted_all(rest.skip(1))));
        }
        let ghost added = strings_view(more@);
        fragments.append(&mut more);
        proof {
            assert(strings_view(fragments@) =~= done + added);
        }
        i += 1;
    }
    let ghost done = strings_view(fragments@);
    let (mut last, acc) = decoder.finish();
    let ghost added = strings_view(last@);
    fragments.append(&mut last);
    proof {
        assert(strings_view(fragments@) =~= done + added);
        assert(done + Seq::<Seq<char>>::empty() =~= done);
    }
    (fragments, acc)
}

} // verus!
