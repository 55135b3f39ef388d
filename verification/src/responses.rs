//! What the body of a response that arrived in one piece means: the text of
//! a generation, the message of a chat completion, the last message of an
//! agent, the answer to a question about a document, an entry of the list of
//! models.

use crate::error::Error;
use crate::json::{
    first_in, first_of, get_in, items_view, json_complaint, json_document, lemma_items_view,
    member_of, parse_json, str_in, text_of, value_of, Json, JsonValue,
};
use crate::sse::decoder::{decode_lossy, lossy_text};
use crate::sse::event::{or_else, text_view};
use crate::sse::lines::{all_lines, lines_view, LineBuffer};
use crate::text::joined;
use crate::types::{ChatCompletionResult, ChatMessage, ModelInfo};
use vstd::prelude::*;

verus! {

/// Parses the body of a response as one JSON document. A body that is none
/// is a serialization failure that quotes the parser's complaint.
pub fn parse_body(body: &str) -> (r: Result<Json, Error>)
    ensures
        r is Ok <==> json_document(body@) is Some,
        r matches Ok(doc) ==> json_document(body@) == Some(doc@),
        r matches Err(e) ==> (e matches Error::Serialization(m) && m@
            == "Failed to parse JSON response: "@ + json_complaint(body@)
            + ". The API response format may have changed. Please report this issue."@),
{
    match parse_json(body) {
        Ok(doc) => Ok(doc),
        Err(complaint) => {
            let a = joined("Failed to parse JSON response: ", complaint.as_str());
            Err(
                Error::Serialization(
                    joined(
                        a.as_str(),
                        ". The API response format may have changed. Please report this issue.",
                    ),
                ),
            )
        },
    }
}

/// The detail of the failure of a generation whose response lists no
/// result.
pub open spec fn no_results_detail() -> Seq<char> {
    "No generation results returned from API. The model may not have generated any output. Try adjusting your prompt or parameters."@
}

/// The detail of the failure of a generation whose response has another
/// shape than a list of results with their texts.
pub open spec fn malformed_generation_detail() -> Seq<char> {
    "Failed to parse JSON response: expected `results` with a `generated_text`. The API response format may have changed. Please report this issue."@
}

/// Whether `result` is what a generation response means: the text of the
/// first of its `results`. No result at all is an API failure; a response
/// without a list of results, or whose first result has no text, is a
/// serialization failure.
pub open spec fn generation_means(body: JsonValue, result: Result<String, Error>) -> bool {
    match member_of(Some(body), "results"@) {
        Some(JsonValue::Array(results)) => if results.len() == 0 {
            (result matches Err(Error::Api(m)) && m@ == no_results_detail())
        } else {
            match text_of(results[0].member("generated_text"@)) {
                Some(text) => (result matches Ok(t) && t@ == text),
                None => (result matches Err(Error::Serialization(m)) && m@
                    == malformed_generation_detail()),
            }
        },
        _ => (result matches Err(Error::Serialization(m)) && m@ == malformed_generation_detail()),
    }
}

/// The text that a generation response carries.
pub fn generation_text(body: &Json) -> (r: Result<String, Error>)
    ensures
        generation_means(body@, r),
{
    let malformed =
        "Failed to parse JSON response: expected `results` with a `generated_text`. The API response format may have changed. Please report this issue.";
    match body.get("results") {
        Some(listed) => match listed.as_array() {
            Some(results) => {
                proof {
                    lemma_items_view(results@);
                }
                if results.len() == 0 {
                    return Err(
                        Error::Api(
                            "No generation results returned from API. The model may not have generated any output. Try adjusting your prompt or parameters.".to_owned(),
                        ),
                    );
                }
                match str_in(results[0].get("generated_text")) {
                    Some(text) => Ok(text.to_owned()),
                    None => Err(Error::Serialization(malformed.to_owned())),
                }
            },
            None => Err(Error::Serialization(malformed.to_owned())),
        },
        None => Err(Error::Serialization(malformed.to_owned())),
    }
}

/// A 64-bit count cut down to its low 32 bits.
pub open spec fn low_bits(count: u64) -> u32 {
    (count % 0x1_0000_0000) as u32
}

/// The token counts of a chat completion, where the response reports all
/// three of them as whole numbers.
pub open spec fn usage_of(body: JsonValue) -> Option<(u32, u32, u32)> {
    let usage = body.member("usage"@);
    match (
        unsigned_in(member_of(usage, "prompt_tokens"@)),
        unsigned_in(member_of(usage, "completion_tokens"@)),
        unsigned_in(member_of(usage, "total_tokens"@)),
    ) {
        (Some(p), Some(c), Some(t)) => Some((low_bits(p), low_bits(c), low_bits(t))),
        _ => None,
    }
}

/// [`JsonValue::unsigned`] of a value that may be absent.
pub open spec fn unsigned_in(v: Option<JsonValue>) -> Option<u64> {
    match v {
        Some(j) => j.unsigned(),
        None => None,
    }
}

/// Whether `result` is what a chat-completion response means. Without a
/// first choice, or without a text in its message, it is an API failure.
/// Otherwise it is the message of the assistant, with the token counts where
/// all three are reported and the finish reason where there is one.
pub open spec fn chat_means(
    body: JsonValue,
    model_id: Seq<char>,
    request_id: Seq<char>,
    result: Result<ChatCompletionResult, Error>,
) -> bool {
    let choice = first_of(body.member("choices"@));
    if choice is None {
        (result matches Err(Error::Api(m)) && m@ == "No choices in response"@)
    } else {
        match text_of(member_of(member_of(choice, "message"@), "content"@)) {
            None => (result matches Err(Error::Api(m)) && m@ == "No message content in response"@),
            Some(content) => (result matches Ok(c) && {
                &&& c.message.role@ == "assistant"@
                &&& c.message.content@ == content
                &&& c.model_id@ == model_id
                &&& text_view(c.request_id) == Some(request_id)
                &&& text_view(c.finish_reason) == text_of(member_of(choice, "finish_reason"@))
                &&& match usage_of(body) {
                    Some((p, k, t)) => c.prompt_tokens == Some(p) && c.completion_tokens == Some(k)
                        && c.total_tokens == Some(t),
                    None => c.prompt_tokens is None && c.completion_tokens is None
                        && c.total_tokens is None,
                }
            }),
        }
    }
}

/// The count behind a reference to a value that may be absent.
fn count_in(v: Option<&Json>) -> (r: Option<u64>)
    ensures
        r == unsigned_in(value_of(v)),
{
    match v {
        Some(j) => j.as_u64(),
        None => None,
    }
}

/// The low 32 bits of a count.
fn low(count: u64) -> (r: u32)
    ensures
        r == low_bits(count),
{
    (count % 0x1_0000_0000) as u32
}

/// The answer that a chat-completion response carries.
pub fn chat_completion_result(body: &Json, model_id: &str, request_id: &str) -> (r: Result<
    ChatCompletionResult,
    Error,
>)
    ensures
        chat_means(body@, model_id@, request_id@, r),
{
    let choice = first_in(body.get("choices"));
    if choice.is_none() {
        return Err(Error::Api("No choices in response".to_owned()));
    }
    let content = match str_in(get_in(get_in(choice, "message"), "content")) {
        Some(content) => content,
        None => {
            return Err(Error::Api("No message content in response".to_owned()));
        },
    };
    let mut result = ChatCompletionResult::new(
        ChatMessage::assistant(content),
        model_id.to_owned(),
    ).with_request_id(request_id.to_owned());
    let usage = body.get("usage");
    match (
        count_in(get_in(usage, "prompt_tokens")),
        count_in(get_in(usage, "completion_tokens")),
        count_in(get_in(usage, "total_tokens")),
    ) {
        (Some(p), Some(c), Some(t)) => {
            result = result.with_tokens(low(p), low(c), low(t));
        },
        _ => {},
    }
    match str_in(get_in(choice, "finish_reason")) {
        Some(reason) => {
            result = result.with_finish_reason(reason);
        },
        None => {},
    }
    Ok(result)
}

/// The document that a line of a body holds, if it holds one.
pub open spec fn line_document(line: Seq<u8>) -> Option<JsonValue> {
    json_document(lossy_text(line))
}

/// Whether a document is the event that announces the finished message of
/// an agent: its `event` is `message.created` and its `data` is an object.
pub open spec fn is_created(doc: JsonValue) -> bool {
    text_of(doc.member("event"@)) == Some("message.created"@) && (doc.member("data"@) matches Some(
        data,
    ) && data is Object)
}

/// The `data` of the first of `lines` that announces a finished message.
pub open spec fn first_created(lines: Seq<Seq<u8>>) -> Option<JsonValue>
    decreases lines.len(),
{
    if lines.len() == 0 {
        None
    } else {
        match line_document(lines[0]) {
            Some(doc) => if is_created(doc) {
                doc.member("data"@)
            } else {
                first_created(lines.skip(1))
            },
            None => first_created(lines.skip(1)),
        }
    }
}

/// `message.content[0].text` of the data of a finished message.
pub open spec fn created_text(data: JsonValue) -> Option<Seq<char>> {
    text_of(member_of(first_of(member_of(data.member("message"@), "content"@)), "text"@))
}

/// The answer that the body of an agent run carries: the text of the first
/// finished message, or nothing where there is none.
pub open spec fn final_answer(body: Seq<u8>) -> Seq<char> {
    match first_created(all_lines(body)) {
        Some(data) => match created_text(data) {
            Some(text) => text,
            None => Seq::empty(),
        },
        None => Seq::empty(),
    }
}

/// The conversation that the body of an agent run names: the `thread_id` of
/// the first finished message, or the one that the call continued.
pub open spec fn final_thread(body: Seq<u8>, given: Option<Seq<char>>) -> Option<Seq<char>> {
    match first_created(all_lines(body)) {
        Some(data) => or_else(text_of(data.member("thread_id"@)), given),
        None => given,
    }
}

/// Reads the body of an agent run that arrived in one piece, one event to a
/// line: hands out the text of the first finished message and the
/// conversation to continue. Lines that hold no document, and documents
/// that announce nothing, are passed over.
pub fn final_message(body: &[u8], thread_id: Option<String>) -> (r: (String, Option<String>))
    ensures
        r.0@ == final_answer(body@),
        text_view(r.1) == final_thread(body@, text_view(thread_id)),
{
    let mut buffer = LineBuffer::new();
    let mut lines = buffer.push_chunk(body);
    let ghost complete = lines_view(lines@);
    proof {
        assert(Seq::<u8>::empty() + body@ =~= body@);
    }
    match buffer.take_rest() {
        Some(line) => {
            lines.push(line);
            assert(lines_view(lines@) =~= complete + seq![line@]);
        },
        None => {
            assert(lines_view(lines@) + Seq::<Seq<u8>>::empty() =~= lines_view(lines@));
        },
    }
    let ghost all = lines_view(lines@);
    assert(all == all_lines(body@));
    let mut i: usize = 0;
    proof {
        assert(all.skip(0) =~= all);
    }
    while i < lines.len()
        invariant
            i <= lines.len(),
            all == lines_view(lines@),
            all == all_lines(body@),
            first_created(all.skip(i as int)) == first_created(all),
        decreases lines.len() - i,
    {
        proof {
            let rest = all.skip(i as int);
            assert(rest[0] == lines@[i as int]@);
            assert(rest.skip(1) =~= all.skip(i + 1));
        }
        let text = decode_lossy(lines[i].as_slice());
        match parse_json(text.as_str()) {
            Ok(doc) => {
                let event = str_in(doc.get("event"));
                let data = doc.get("data");
                let announced = match event {
                    Some(name) => name.eq("message.created"),
                    None => false,
                };
                match data {
                    Some(data) => {
                        if announced && data.is_object() {
                            let answer = match str_in(
                                get_in(first_in(get_in(data.get("message"), "content")), "text"),
                            ) {
                                Some(text) => text.to_owned(),
                                None => String::new(),
                            };
                            let thread = match str_in(data.get("thread_id")) {
                                Some(id) => Some(id.to_owned()),
                                None => thread_id,
                            };
                            return (answer, thread);
                        }
                    },
                    None => {},
                }
            },
            Err(_) => {},
        }
        i += 1;
    }
    (String::new(), thread_id)
}

/// The list that a body holds: the body itself where it is a list, else its
/// member `key` where that is a list.
pub open spec fn listing_of(body: JsonValue, key: Seq<char>) -> Option<Seq<JsonValue>> {
    match body {
        JsonValue::Array(items) => Some(items),
        _ => match body.member(key) {
            Some(JsonValue::Array(items)) => Some(items),
            _ => None,
        },
    }
}

/// The list that a body holds, bare or under `key`. A body of neither shape
/// holds none.
pub fn listing<'a>(body: &'a Json, key: &str) -> (r: Option<&'a Vec<Json>>)
    ensures
        match r {
            Some(items) => listing_of(body@, key@) == Some(items_view(items@)),
            None => listing_of(body@, key@) is None,
        },
{
    match body.as_array() {
        Some(items) => Some(items),
        None => match body.get(key) {
            Some(held) => held.as_array(),
            None => None,
        },
    }
}

/// The answer that a body without the expected shape still carries: the
/// `message` of the document where that is a string, else its `content`
/// where that is a string, else the words `No response`; and the body
/// itself where it is no document at all.
pub open spec fn fallback_answer(body: Seq<char>) -> Seq<char> {
    match json_document(body) {
        Some(doc) => match or_else(text_of(doc.member("message"@)), text_of(doc.member("content"@))) {
            Some(text) => text,
            None => "No response"@,
        },
        None => body,
    }
}

/// The answer that a body without the expected shape still carries.
pub fn fallback_message(body: &str) -> (r: String)
    ensures
        r@ == fallback_answer(body@),
{
    match parse_json(body) {
        Ok(doc) => match str_in(doc.get("message")) {
            Some(text) => text.to_owned(),
            None => match str_in(doc.get("content")) {
                Some(text) => text.to_owned(),
                None => "No response".to_owned(),
            },
        },
        Err(_) => body.to_owned(),
    }
}

/// Whether one of `stages` is the stage `available`.
pub open spec fn lists_available(stages: Seq<String>) -> bool {
    exists|i: int| 0 <= i < stages.len() && (#[trigger] stages[i])@ == "available"@
}

/// The entry of a model as the service lists it. The long description
/// goes before the short one; the functions of the model are the tasks it
/// supports; the model is known to be available where one of the stages of
/// its lifecycle says so, and nothing is known otherwise.
pub fn listed_model(
    model_id: String,
    label: Option<String>,
    provider: Option<String>,
    short_description: Option<String>,
    long_description: Option<String>,
    functions: Option<Vec<String>>,
    lifecycle: Option<Vec<String>>,
) -> (r: ModelInfo)
    ensures
        r == (ModelInfo {
            model_id,
            name: label,
            description: if long_description is Some {
                long_description
            } else {
                short_description
            },
            provider,
            version: None,
            supported_tasks: functions,
            max_context_length: None,
            available: if lifecycle matches Some(stages) && lists_available(stages@) {
                Some(true)
            } else {
                None
            },
        }),
{
    let available = match &lifecycle {
        Some(stages) => {
            let mut found = false;
            let mut i: usize = 0;
            while i < stages.len() && !found
                invariant
                    i <= stages.len(),
                    found ==> lists_available(stages@),
                    !found ==> forall|k: int| 0 <= k < i ==> (#[trigger] stages@[k])@
                        != "available"@,
                decreases stages.len() - i,
            {
                if stages[i].as_str().eq("available") {
                    found = true;
                }
                i += 1;
            }
            if found {
                Some(true)
            } else {
                None
            }
        },
        None => None,
    };
    ModelInfo {
        model_id,
        name: label,
        description: match long_description {
            Some(long) => Some(long),
            None => short_description,
        },
        provider,
        version: None,
        supported_tasks: functions,
        max_context_length: None,
        available,
    }
}

} // verus!
