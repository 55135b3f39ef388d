//! What one line of an event stream means: nothing, a malformed payload, or
//! a document with a text fragment and possibly a conversation identifier.

use crate::error::Error;
use crate::json::{
    chars_of_opt, first_in, first_of, get_in, json_complaint, json_document, member_of,
    parse_json, str_in, text_of, Json, JsonValue,
};
use crate::text::{
    chars_of, lemma_trim_tight, starts_with, starts_with_at, string_of, trim, trim_range,
};
use vstd::prelude::*;
use vstd::utf8::is_ascii_chars;

verus! {

/// The text of the payload of a data line: what follows `data:` and at most
/// one space, trimmed. Blank lines, `id:` and `event:` lines, lines of any
/// other kind, empty payloads and the end marker `[DONE]` have none.
pub open spec fn payload_of_line(line: Seq<char>) -> Option<Seq<char>> {
    let t = trim(line);
    if t.len() == 0 || starts_with(t, "id:"@) || starts_with(t, "event:"@) || !starts_with(
        t,
        "data:"@,
    ) {
        None
    } else {
        let rest = if starts_with(t, "data: "@) {
            t.skip(6)
        } else {
            t.skip(5)
        };
        let payload = trim(rest);
        if payload.len() == 0 || payload == "[DONE]"@ {
            None
        } else {
            Some(payload)
        }
    }
}

/// `results[0].generated_text`: the fragment of a plain completion.
pub open spec fn completion_text(doc: JsonValue) -> Option<Seq<char>> {
    text_of(member_of(first_of(doc.member("results"@)), "generated_text"@))
}

/// `choices[0].delta.content`: the fragment of a chat delta.
pub open spec fn delta_text(doc: JsonValue) -> Option<Seq<char>> {
    text_of(member_of(member_of(first_of(doc.member("choices"@)), "delta"@), "content"@))
}

/// `choices[0].message.content`: the fragment of a whole chat message.
pub open spec fn message_text(doc: JsonValue) -> Option<Seq<char>> {
    text_of(member_of(member_of(first_of(doc.member("choices"@)), "message"@), "content"@))
}

/// `data.delta.content[0].text`: the fragment of an agent delta.
pub open spec fn agent_delta_text(doc: JsonValue) -> Option<Seq<char>> {
    text_of(
        member_of(
            first_of(member_of(member_of(doc.member("data"@), "delta"@), "content"@)),
            "text"@,
        ),
    )
}

/// `data.content[0].text`: the fragment of an agent message.
pub open spec fn agent_content_text(doc: JsonValue) -> Option<Seq<char>> {
    text_of(member_of(first_of(member_of(doc.member("data"@), "content"@)), "text"@))
}

/// The first of two optional values that is present.
pub open spec fn or_else<T>(a: Option<T>, b: Option<T>) -> Option<T> {
    if a is Some {
        a
    } else {
        b
    }
}

/// The text fragment that a document carries: the first that is present as
/// a string among the plain completion, the chat delta, the chat message,
/// the agent delta and the agent message.
pub open spec fn fragment_of(doc: JsonValue) -> Option<Seq<char>> {
    or_else(
        completion_text(doc),
        or_else(
            delta_text(doc),
            or_else(message_text(doc), or_else(agent_delta_text(doc), agent_content_text(doc))),
        ),
    )
}

/// The conversation identifier that a document carries: its own `thread_id`
/// where that is a string, else `data.thread_id`.
pub open spec fn thread_of(doc: JsonValue) -> Option<Seq<char>> {
    or_else(
        text_of(doc.member("thread_id"@)),
        text_of(member_of(doc.member("data"@), "thread_id"@)),
    )
}

/// What a line of the stream means.
pub enum SseEventValue {
    /// Nothing: a blank line, a comment, metadata or the end marker.
    Ignorable,
    /// A data line whose payload is not JSON.
    Malformed,
    /// A data line with a document.
    Payload(JsonValue),
}

/// The meaning of a line.
pub open spec fn event_of_line(line: Seq<char>) -> SseEventValue {
    match payload_of_line(line) {
        None => SseEventValue::Ignorable,
        Some(payload) => match json_document(payload) {
            None => SseEventValue::Malformed,
            Some(doc) => SseEventValue::Payload(doc),
        },
    }
}

impl SseEventValue {
    /// The text fragment of the event, if it has one.
    pub open spec fn fragment(self) -> Option<Seq<char>> {
        match self {
            SseEventValue::Payload(doc) => fragment_of(doc),
            _ => None,
        }
    }

    /// The conversation identifier of the event, if it has one.
    pub open spec fn thread_id(self) -> Option<Seq<char>> {
        match self {
            SseEventValue::Payload(doc) => thread_of(doc),
            _ => None,
        }
    }
}

/// Whether `text` is a line of plain ASCII: it holds no character beyond
/// ASCII and no line feed.
pub open spec fn plain_line(text: Seq<char>) -> bool {
    is_ascii_chars(text) && forall|i: int| 0 <= i < text.len() ==> #[trigger] text[i] != '\n'
}

/// Whether `text` is one of the lines that carry no payload by their form:
/// the end marker with and without a space, an empty `data:` line, an `id:`
/// line, an `event:` line, and the empty line.
pub open spec fn is_marker(text: Seq<char>) -> bool {
    ||| text == "data: [DONE]"@
    ||| text == "data:[DONE]"@
    ||| text == "data:"@
    ||| text == "id: 42"@
    ||| text == "event: message"@
    ||| text == Seq::<char>::empty()
}

/// Each marker line is plain ASCII and has no payload, hence no fragment
/// and no conversation identifier.
pub proof fn lemma_marker_line(text: Seq<char>)
    requires
        is_marker(text),
    ensures
        plain_line(text),
        payload_of_line(text) is None,
        event_of_line(text) == SseEventValue::Ignorable,
{
    reveal_strlit("data: [DONE]");
    reveal_strlit("data:[DONE]");
    reveal_strlit("data:");
    reveal_strlit("data: ");
    reveal_strlit("id: 42");
    reveal_strlit("id:");
    reveal_strlit("event: message");
    reveal_strlit("event:");
    reveal_strlit("[DONE]");
    lemma_trim_tight(text);
    if text == "data: [DONE]"@ {
        assert(text.take(5) =~= "data:"@);
        assert(text.take(6) =~= "data: "@);
        assert(text.skip(6) =~= "[DONE]"@);
        lemma_trim_tight(text.skip(6));
    } else if text == "data:[DONE]"@ {
        assert(text.take(5) =~= "data:"@);
        assert(text.take(6)[5] != "data: "@[5]);
        assert(text.skip(5) =~= "[DONE]"@);
        lemma_trim_tight(text.skip(5));
    } else if text == "data:"@ {
        assert(text.take(5) =~= "data:"@);
        assert(text.skip(5) =~= Seq::<char>::empty());
        lemma_trim_tight(text.skip(5));
    } else if text == "id: 42"@ {
        assert(text.take(3) =~= "id:"@);
    } else if text == "event: message"@ {
        assert(text.take(6) =~= "event:"@);
    }
}

/// What a line of the stream means.
#[derive(Debug)]
pub enum SseEvent {
    /// Nothing: a blank line, a comment, metadata or the end marker.
    Ignorable,
    /// A data line whose payload is not JSON, with the parser's complaint.
    Malformed(String),
    /// A data line with a document.
    Payload(Json),
}

impl View for SseEvent {
    type V = SseEventValue;

    open spec fn view(&self) -> SseEventValue {
        match self {
            SseEvent::Ignorable => SseEventValue::Ignorable,
            SseEvent::Malformed(_) => SseEventValue::Malformed,
            SseEvent::Payload(doc) => SseEventValue::Payload(doc@),
        }
    }
}

/// The character sequence behind an optional string.
pub open spec fn text_view(s: Option<String>) -> Option<Seq<char>> {
    match s {
        Some(s) => Some(s@),
        None => None,
    }
}

/// The payload text of a data line, if the line has one.
pub fn line_payload(line: &str) -> (r: Option<String>)
    ensures
        text_view(r) == payload_of_line(line@),
{
    let v = chars_of(line);
    let (a, b) = trim_range(&v, 0, v.len());
    assert(v@.subrange(0, v.len() as int) =~= v@);
    let ghost t = trim(line@);
    if a == b {
        return None;
    }
    let id = chars_of("id:");
    let event = chars_of("event:");
    let data = chars_of("data:");
    let data_space = chars_of("data: ");
    if starts_with_at(&v, a, b, &id) || starts_with_at(&v, a, b, &event) || !starts_with_at(
        &v,
        a,
        b,
        &data,
    ) {
        return None;
    }
    proof {
        reveal_strlit("data:");
        reveal_strlit("data: ");
    }
    let from = if starts_with_at(&v, a, b, &data_space) {
        a + 6
    } else {
        a + 5
    };
    let (c, d) = trim_range(&v, from, b);
    proof {
        assert(v@.subrange(from as int, b as int) =~= t.skip(from - a));
    }
    if c == d {
        return None;
    }
    let payload = string_of(&v, c, d);
    if payload.as_str().eq("[DONE]") {
        return None;
    }
    Some(payload)
}

/// The text fragment of a document, if it has one.
pub fn fragment_in(doc: &Json) -> (r: Option<&str>)
    ensures
        chars_of_opt(r) == fragment_of(doc@),
{
    let results = doc.get("results");
    let completion = str_in(get_in(first_in(results), "generated_text"));
    if completion.is_some() {
        return completion;
    }
    let choice = first_in(doc.get("choices"));
    let delta = str_in(get_in(get_in(choice, "delta"), "content"));
    if delta.is_some() {
        return delta;
    }
    let message = str_in(get_in(get_in(choice, "message"), "content"));
    if message.is_some() {
        return message;
    }
    let data = doc.get("data");
    let agent_delta = str_in(
        get_in(first_in(get_in(get_in(data, "delta"), "content")), "text"),
    );
    if agent_delta.is_some() {
        return agent_delta;
    }
    str_in(get_in(first_in(get_in(data, "content")), "text"))
}

/// The text fragment of a document: the first that is present as a string
/// among `results[0].generated_text`, `choices[0].delta.content`,
/// `choices[0].message.content`, `data.delta.content[0].text` and
/// `data.content[0].text`. A document of another shape has none, which is
/// no failure.
pub fn extract_text_from_json(data: &Json) -> (r: Result<Option<String>, Error>)
    ensures
        r matches Ok(fragment) && text_view(fragment) == fragment_of(data@),
{
    match fragment_in(data) {
        Some(s) => Ok(Some(s.to_owned())),
        None => Ok(None),
    }
}

/// The conversation identifier of a document: its own `thread_id` where that
/// is a string, else `data.thread_id`.
pub fn extract_thread_id(data: &Json) -> (r: Option<String>)
    ensures
        text_view(r) == thread_of(data@),
{
    match str_in(data.get("thread_id")) {
        Some(s) => Some(s.to_owned()),
        None => match str_in(get_in(data.get("data"), "thread_id")) {
            Some(s) => Some(s.to_owned()),
            None => None,
        },
    }
}

/// The meaning of a line. A payload that is not JSON comes with what the
/// parser says of it.
pub fn decode_line(line: &str) -> (r: SseEvent)
    ensures
        r@ == event_of_line(line@),
        r matches SseEvent::Malformed(complaint) ==> payload_of_line(line@) is Some && complaint@
            == json_complaint(payload_of_line(line@)->0),
{
    match line_payload(line) {
        None => SseEvent::Ignorable,
        Some(payload) => match parse_json(payload.as_str()) {
            Ok(doc) => SseEvent::Payload(doc),
            Err(complaint) => SseEvent::Malformed(complaint),
        },
    }
}

/// The text fragment of a line, if it is a data line whose payload is a
/// document that carries one. A payload that is not JSON gives no fragment
/// and no failure: the stream goes on.
pub fn parse_sse_line(line: &str) -> (r: Result<Option<String>, Error>)
    ensures
        r matches Ok(fragment) && text_view(fragment) == event_of_line(line@).fragment(),
{
    match decode_line(line) {
        SseEvent::Payload(doc) => extract_text_from_json(&doc),
        _ => Ok(None),
    }
}

} // verus!
