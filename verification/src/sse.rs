//! Incremental decoding of server-sent event streams: bytes to lines, lines
//! to events, events to text fragments and conversation identifiers.

pub mod decoder;
pub mod event;
pub mod lines;
pub mod stream;

pub use decoder::{decode_chunks, StreamAccumulator, StreamDecoder};
pub use event::{
    decode_line, extract_text_from_json, extract_thread_id, line_payload, parse_sse_line, SseEvent,
};
pub use lines::LineBuffer;
pub use stream::{deliver, deliver_while_accepted, parse_chat_completion_sse, parse_sse_stream};
