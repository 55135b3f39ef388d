//! The rules of a streaming call: the credential check, what a failure
//! status becomes, how the stream is driven chunk by chunk, and what the
//! gathered text becomes at the end.
//!
//! The transport is not here. Whoever owns the connection feeds what it
//! receives to a [`StreamingCall`] and does what the call answers.

use crate::error::Error;
use crate::sse::decoder::{strings_view, Accumulated, DecoderState, StreamAccumulator, StreamDecoder};
use crate::sse::event::text_view;
use crate::sse::stream::{deliver_while_accepted, handed_on};
use crate::text::{
    chars_of, joined, decimal, decimal_digits, find, find_in, first_line, first_line_end, is_blank,
    starts_with, starts_with_at, string_of, trim, trim_range,
};
use crate::types::{
    ChatCompletionResult, ChatMessage, Float32, GenerationConfig, GenerationResult, ONE,
    ONE_AND_A_TENTH,
};
use vstd::prelude::*;

verus! {

/// What is left of the answer of a plain completion once the echo of the
/// prompt template is gone: the leading label `Answer:` is dropped, the text
/// ends before the first `Query:`, and only the first line stays, trimmed at
/// every step.
pub open spec fn cleaned_completion(answer: Seq<char>) -> Seq<char> {
    let whole = trim(answer);
    let unlabelled = if starts_with(whole, "Answer:"@) {
        trim(whole.skip(7))
    } else {
        whole
    };
    let own = match find(unlabelled, "Query:"@) {
        Some(at) => trim(unlabelled.take(at)),
        None => unlabelled,
    };
    trim(first_line(own))
}

/// The answer of a plain completion without the echo of the prompt
/// template.
pub fn clean_completion(answer: &str) -> (r: String)
    ensures
        r@ == cleaned_completion(answer@),
{
    let v = chars_of(answer);
    let label = chars_of("Answer:");
    let marker = chars_of("Query:");
    proof {
        reveal_strlit("Answer:");
    }
    let (a0, a1) = trim_range(&v, 0, v.len());
    assert(v@.subrange(0, v.len() as int) =~= v@);
    let ghost whole = trim(answer@);
    let (b0, b1) = if starts_with_at(&v, a0, a1, &label) {
        assert(v@.subrange(a0 + 7, a1 as int) =~= whole.skip(7));
        trim_range(&v, a0 + 7, a1)
    } else {
        (a0, a1)
    };
    let ghost unlabelled = v@.subrange(b0 as int, b1 as int);
    let (c0, c1) = match find_in(&v, b0, b1, &marker) {
        Some(at) => {
            assert(v@.subrange(b0 as int, b0 + at) =~= unlabelled.take(at as int));
            trim_range(&v, b0, b0 + at)
        },
        None => (b0, b1),
    };
    let end = first_line_end(&v, c0, c1);
    let (d0, d1) = trim_range(&v, c0, end);
    string_of(&v, d0, d1)
}

/// Whether a status code of a response means success.
pub open spec fn is_success(status: u16) -> bool {
    200 <= status < 300
}

/// Whether a status code of a response means success: the codes from 200 to
/// 299 do.
pub fn is_success_status(status: u16) -> (r: bool)
    ensures
        r == is_success(status),
{
    200 <= status && status < 300
}

/// The credential, where there is one; without one, an authentication
/// failure with the given detail, before anything is sent.
pub fn require_token<'a>(token: &'a Option<String>, detail: &str) -> (r: Result<&'a str, Error>)
    ensures
        match r {
            Ok(t) => (token matches Some(s) && t@ == s@),
            Err(e) => token is None && (e matches Error::Authentication(m) && m@ == detail@),
        },
{
    match token {
        Some(t) => Ok(t.as_str()),
        None => Err(Error::Authentication(detail.to_owned())),
    }
}

/// The value of the `Authorization` header for a credential.
pub fn bearer(token: &str) -> (r: String)
    ensures
        r@ == "Bearer "@ + token@,
{
    joined("Bearer ", token)
}

/// The sampling parameters of a generation request.
#[derive(Clone, Debug)]
pub struct GenerationParams {
    /// How the next token is chosen.
    pub decoding_method: String,
    /// Largest number of tokens to generate.
    pub max_new_tokens: u32,
    /// Smallest number of tokens to generate.
    pub min_new_tokens: u32,
    /// Top-k sampling.
    pub top_k: u32,
    /// Top-p sampling.
    pub top_p: Float32,
    /// Penalty on repetition.
    pub repetition_penalty: Float32,
    /// Texts at which generation stops.
    pub stop_sequences: Vec<String>,
}

impl GenerationParams {
    /// The parameters that a request with the given settings sends: greedy
    /// decoding, the token limit of the settings, and for what the settings
    /// leave open a top-k of 50, a top-p of 1.0 and a repetition penalty of
    /// 1.1.
    pub fn from_config(config: &GenerationConfig, min_new_tokens: u32) -> (r: Self)
        ensures
            r.decoding_method@ == "greedy"@,
            r.max_new_tokens == config.max_tokens,
            r.min_new_tokens == min_new_tokens,
            r.top_k == match config.top_k {
                Some(k) => k,
                None => 50u32,
            },
            r.top_p == match config.top_p {
                Some(p) => p,
                None => Float32 { bits: ONE },
            },
            r.repetition_penalty == match config.repetition_penalty {
                Some(p) => p,
                None => Float32 { bits: ONE_AND_A_TENTH },
            },
            r.stop_sequences@ == config.stop_sequences@,
    {
        let mut stop_sequences: Vec<String> = Vec::new();
        let mut i: usize = 0;
        while i < config.stop_sequences.len()
            invariant
                i <= config.stop_sequences.len(),
                stop_sequences@ == config.stop_sequences@.take(i as int),
            decreases config.stop_sequences.len() - i,
        {
            stop_sequences.push(config.stop_sequences[i].clone());
            proof {
                assert(config.stop_sequences@.take(i + 1) =~= config.stop_sequences@.take(
                    i as int,
                ).push(config.stop_sequences@[i as int]));
            }
            i += 1;
        }
        proof {
            assert(config.stop_sequences@.take(i as int) =~= config.stop_sequences@);
        }
        GenerationParams {
            decoding_method: "greedy".to_owned(),
            max_new_tokens: config.max_tokens,
            min_new_tokens,
            top_k: match config.top_k {
                Some(k) => k,
                None => 50,
            },
            top_p: match config.top_p {
                Some(p) => p,
                None => Float32 { bits: ONE },
            },
            repetition_penalty: match config.repetition_penalty {
                Some(p) => p,
                None => Float32 { bits: ONE_AND_A_TENTH },
            },
            stop_sequences,
        }
    }
}

/// The addresses at which one request may be served, tried one after the
/// other until one answers with success.
pub struct EndpointAttempts {
    endpoints: Vec<String>,
    tried: usize,
    last_failure: Option<Error>,
}

/// The mathematical value of [`EndpointAttempts`].
pub struct AttemptsState {
    /// The addresses, in the order in which they are tried.
    pub endpoints: Seq<String>,
    /// How many of them have failed.
    pub tried: nat,
    /// The failure of the last one that failed.
    pub last_failure: Option<Error>,
}

impl View for EndpointAttempts {
    type V = AttemptsState;

    closed spec fn view(&self) -> AttemptsState {
        AttemptsState {
            endpoints: self.endpoints@,
            tried: self.tried as nat,
            last_failure: self.last_failure,
        }
    }
}

impl EndpointAttempts {
    #[verifier::type_invariant]
    spec fn within(self) -> bool {
        self.tried <= self.endpoints@.len()
    }

    /// The attempts at `endpoints`, none of which has been tried.
    pub fn new(endpoints: Vec<String>) -> (r: Self)
        ensures
            r@ == (AttemptsState { endpoints: endpoints@, tried: 0, last_failure: None }),
    {
        EndpointAttempts { endpoints, tried: 0, last_failure: None }
    }

    /// The address to try now, if one is left.
    pub fn current(&self) -> (r: Option<&str>)
        ensures
            self@.tried <= self@.endpoints.len(),
            match r {
                Some(url) => self@.tried < self@.endpoints.len() && url@
                    == self@.endpoints[self@.tried as int]@,
                None => self@.tried == self@.endpoints.len(),
            },
    {
        proof {
            use_type_invariant(self);
        }
        if self.tried < self.endpoints.len() {
            Some(self.endpoints[self.tried].as_str())
        } else {
            None
        }
    }

    /// Notes that the address tried now has failed, and moves on to the
    /// next. Where none was left, only the failure is kept.
    pub fn record_failure(&mut self, failure: Error)
        ensures
            final(self)@ == (AttemptsState {
                endpoints: old(self)@.endpoints,
                tried: if old(self)@.tried < old(self)@.endpoints.len() {
                    old(self)@.tried + 1
                } else {
                    old(self)@.tried
                },
                last_failure: Some(failure),
            }),
    {
        proof {
            use_type_invariant(&*self);
        }
        if self.tried < self.endpoints.len() {
            self.tried = self.tried + 1;
        }
        self.last_failure = Some(failure);
    }

    /// The failure of the request once no address is left: that of the last
    /// address that failed, or an API failure with the given detail where
    /// none was tried.
    pub fn give_up(self, detail: &str) -> (r: Error)
        ensures
            match self@.last_failure {
                Some(failure) => r == failure,
                None => (r matches Error::Api(m) && m@ == detail@),
            },
    {
        match self.last_failure {
            Some(failure) => failure,
            None => Error::Api(detail.to_owned()),
        }
    }
}

/// The flavour of a streaming call.
#[derive(Clone, Copy, Debug, PartialEq, Eq)]
pub enum StreamKind {
    /// A plain completion, whose answer is cleaned of the echo of the prompt
    /// template.
    Completion,
    /// A chat completion.
    Chat,
    /// A message to an agent, which keeps a conversation going.
    Agent,
}

/// The detail of the failure that a response with a failure status becomes.
pub open spec fn failure_detail(
    kind: StreamKind,
    status: u16,
    body: Seq<char>,
    model_id: Seq<char>,
) -> Seq<char> {
    match kind {
        StreamKind::Completion => "WatsonX API request failed (HTTP "@
            + decimal_digits(status as nat) + "): "@ + body + ". Verify your model ID '"@
            + model_id + "' is correct and your project has access to it."@,
        StreamKind::Chat => "Chat completion stream failed with status "@ + decimal_digits(
            status as nat,
        ) + ": "@ + body,
        StreamKind::Agent => "Failed to stream message: "@ + decimal_digits(status as nat)
            + " - "@ + body,
    }
}

/// The failure that a response with a failure status becomes: an API
/// failure that carries the status code and the body.
pub fn status_failure(kind: StreamKind, status: u16, body: &str, model_id: &str) -> (r: Error)
    ensures
        r matches Error::Api(m) && m@ == failure_detail(kind, status, body@, model_id@),
{
    let code = decimal(status as u64);
    let detail = match kind {
        StreamKind::Completion => {
            let a = joined("WatsonX API request failed (HTTP ", code.as_str());
            let b = joined(a.as_str(), "): ");
            let c = joined(b.as_str(), body);
            let d = joined(c.as_str(), ". Verify your model ID '");
            let e = joined(d.as_str(), model_id);
            joined(e.as_str(), "' is correct and your project has access to it.")
        },
        StreamKind::Chat => {
            let a = joined("Chat completion stream failed with status ", code.as_str());
            let b = joined(a.as_str(), ": ");
            joined(b.as_str(), body)
        },
        StreamKind::Agent => {
            let a = joined("Failed to stream message: ", code.as_str());
            let b = joined(a.as_str(), " - ");
            joined(b.as_str(), body)
        },
    };
    Error::Api(detail)
}

/// What a streaming call returns when it succeeds.
#[derive(Debug)]
pub enum StreamOutcome {
    /// The answer of a plain completion.
    Generation(GenerationResult),
    /// The answer of a chat completion.
    Chat(ChatCompletionResult),
    /// The answer of an agent and the conversation to continue.
    Agent {
        /// Everything the agent said.
        text: String,
        /// The conversation that the next message continues.
        thread_id: Option<String>,
    },
}

/// The detail of the failure of a generation that gave no text.
pub open spec fn empty_generation_detail() -> Seq<char> {
    "Received empty response from WatsonX API. The model may have generated no output, or the response format was unexpected. Try adjusting your prompt or parameters."@
}

/// The detail of the failure of a chat completion that gave no text.
pub open spec fn empty_chat_detail() -> Seq<char> {
    "Empty response from chat completion API"@
}

/// Whether `result` is what a stream of the given flavour that has gathered
/// `acc` comes to. A completion and a chat fail where the answer is blank;
/// otherwise the answer of a completion is cleaned of the echo of the prompt
/// template and that of a chat is kept as it came. An agent call never fails
/// here.
pub open spec fn concludes(
    kind: StreamKind,
    acc: Accumulated,
    model_id: Seq<char>,
    request_id: Seq<char>,
    result: Result<StreamOutcome, Error>,
) -> bool {
    match kind {
        StreamKind::Completion => if is_blank(acc.answer) {
            (result matches Err(Error::Api(m)) && m@ == empty_generation_detail())
        } else {
            result matches Ok(StreamOutcome::Generation(g)) && {
                &&& g.text@ == cleaned_completion(acc.answer)
                &&& g.model_id@ == model_id
                &&& g.tokens_used is None
                &&& g.quality_score is None
                &&& text_view(g.request_id) == Some(request_id)
            }
        },
        StreamKind::Chat => if is_blank(acc.answer) {
            (result matches Err(Error::Api(m)) && m@ == empty_chat_detail())
        } else {
            result matches Ok(StreamOutcome::Chat(c)) && {
                &&& c.message.role@ == "assistant"@
                &&& c.message.content@ == acc.answer
                &&& c.model_id@ == model_id
                &&& c.prompt_tokens is None
                &&& c.completion_tokens is None
                &&& c.total_tokens is None
                &&& c.finish_reason is None
                &&& text_view(c.request_id) == Some(request_id)
            }
        },
        StreamKind::Agent => (result matches Ok(StreamOutcome::Agent { text, thread_id })
            && text@ == acc.answer && text_view(thread_id) == acc.thread_id),
    }
}

/// What a stream of the given flavour that has gathered `acc` comes to.
pub fn conclude(kind: StreamKind, acc: StreamAccumulator, model_id: &str, request_id: &str) -> (r:
    Result<StreamOutcome, Error>)
    ensures
        concludes(kind, acc@, model_id@, request_id@, r),
{
    let (answer, thread_id) = acc.into_parts();
    let v = chars_of(answer.as_str());
    let (a, b) = trim_range(&v, 0, v.len());
    assert(v@.subrange(0, v.len() as int) =~= v@);
    let blank = a == b;
    match kind {
        StreamKind::Completion => {
            if blank {
                return Err(
                    Error::Api(
                        "Received empty response from WatsonX API. The model may have generated no output, or the response format was unexpected. Try adjusting your prompt or parameters.".to_owned(),
                    ),
                );
            }
            let text = clean_completion(answer.as_str());
            Ok(
                StreamOutcome::Generation(
                    GenerationResult::new(text, model_id.to_owned()).with_request_id(
                        request_id.to_owned(),
                    ),
                ),
            )
        },
        StreamKind::Chat => {
            if blank {
                return Err(Error::Api("Empty response from chat completion API".to_owned()));
            }
            let message = ChatMessage::assistant(answer.as_str());
            Ok(
                StreamOutcome::Chat(
                    ChatCompletionResult::new(message, model_id.to_owned()).with_request_id(
                        request_id.to_owned(),
                    ),
                ),
            )
        },
        StreamKind::Agent => Ok(StreamOutcome::Agent { text: answer, thread_id }),
    }
}

/// Where a streaming call stands.
#[derive(Clone, Copy, Debug, PartialEq, Eq)]
pub enum CallStage {
    /// The request is out; the status of the response is awaited.
    AwaitingResponse,
    /// The response has a failure status; its body is awaited.
    AwaitingFailureBody(u16),
    /// The response is a stream; its chunks are awaited.
    Streaming,
    /// The call is over.
    Done,
}

/// What the transport reports to a streaming call.
#[derive(Debug)]
pub enum CallInput {
    /// The response has arrived, with this status code.
    Response(u16),
    /// The body of a response with a failure status, read in full.
    FailureBody(String),
    /// The next chunk of the stream.
    Chunk(Vec<u8>),
    /// Reading the stream failed, for this reason.
    ReadFailed(String),
    /// The caller refused a fragment that was handed on, with this failure.
    CallbackFailed(Error),
    /// The stream has ended.
    End,
    /// The deadline of the call has passed.
    TimedOut,
}

/// What the transport has to do next.
#[derive(Debug)]
pub enum CallAction {
    /// Read the body of the response in full and report it.
    ReadFailureBody,
    /// Hand these fragments to the caller, in order, then read on.
    Deliver(Vec<String>),
    /// Hand these last fragments to the caller, in order, then return the
    /// result: the call is over.
    Finish(Vec<String>, Result<StreamOutcome, Error>),
}

/// The mathematical value of a [`StreamingCall`].
pub struct CallState {
    /// The flavour of the call.
    pub kind: StreamKind,
    /// The model that answers.
    pub model_id: Seq<char>,
    /// The identifier of the request.
    pub request_id: Seq<char>,
    /// Where the call stands.
    pub stage: CallStage,
    /// What the stream has given so far.
    pub decoder: DecoderState,
}

/// Whether a call in state `before` that is told `input` may answer `action`
/// and be in state `after`.
///
/// - The deadline ends any call that is not over with a timeout failure;
///   fragments that were delivered stay delivered.
/// - A success status opens the stream; a failure status asks for the body,
///   which then ends the call with an API failure that carries both.
/// - A chunk is decoded and its fragments are delivered; a failed read ends
///   the call with a network failure; a fragment that the caller refuses
///   ends it with the caller's failure; the end of the stream delivers the
///   fragment of what is left over and concludes.
/// - Anything else is out of turn and ends the call with an input failure.
pub open spec fn steps(before: CallState, input: CallInput, after: CallState, action: CallAction) -> bool {
    &&& after.kind == before.kind
    &&& after.model_id == before.model_id
    &&& after.request_id == before.request_id
    &&& match (before.stage, input) {
        (CallStage::AwaitingResponse, CallInput::TimedOut)
        | (CallStage::AwaitingFailureBody(_), CallInput::TimedOut)
        | (CallStage::Streaming, CallInput::TimedOut) => {
            &&& after.stage == CallStage::Done
            &&& after.decoder == before.decoder
            &&& action matches CallAction::Finish(last, Err(Error::Timeout(m)))
            &&& last@.len() == 0
            &&& m@ == "Request timed out"@
        },
        (CallStage::AwaitingResponse, CallInput::Response(status)) => {
            &&& after.decoder == before.decoder
            &&& if is_success(status) {
                &&& after.stage == CallStage::Streaming
                &&& action matches CallAction::Deliver(fragments)
                &&& fragments@.len() == 0
            } else {
                &&& after.stage == CallStage::AwaitingFailureBody(status)
                &&& action is ReadFailureBody
            }
        },
        (CallStage::AwaitingFailureBody(status), CallInput::FailureBody(body)) => {
            &&& after.stage == CallStage::Done
            &&& after.decoder == before.decoder
            &&& action matches CallAction::Finish(last, Err(Error::Api(m)))
            &&& last@.len() == 0
            &&& m@ == failure_detail(before.kind, status, body@, before.model_id)
        },
        (CallStage::Streaming, CallInput::Chunk(bytes)) => {
            &&& after.stage == CallStage::Streaming
            &&& after.decoder == before.decoder.feed(bytes@)
            &&& action matches CallAction::Deliver(fragments)
            &&& strings_view(fragments@) == before.decoder.emitted(bytes@)
        },
        (CallStage::Streaming, CallInput::ReadFailed(reason)) => {
            &&& after.stage == CallStage::Done
            &&& after.decoder == before.decoder
            &&& action matches CallAction::Finish(last, Err(Error::Network(m)))
            &&& last@.len() == 0
            &&& m == reason
        },
        (CallStage::Streaming, CallInput::CallbackFailed(failure)) => {
            &&& after.stage == CallStage::Done
            &&& after.decoder == before.decoder
            &&& action matches CallAction::Finish(last, Err(e))
            &&& last@.len() == 0
            &&& e == failure
        },
        (CallStage::Streaming, CallInput::End) => {
            &&& after.stage == CallStage::Done
            &&& action matches CallAction::Finish(last, result)
            &&& strings_view(last@) == before.decoder.flushed()
            &&& concludes(
                before.kind,
                before.decoder.flush(),
                before.model_id,
                before.request_id,
                result,
            )
        },
        _ => {
            &&& after.stage == CallStage::Done
            &&& after.decoder == before.decoder
            &&& action matches CallAction::Finish(last, Err(Error::InvalidInput(m)))
            &&& last@.len() == 0
            &&& m@ == "Event out of turn for the state of the call"@
        },
    }
}

/// One streaming call, from the request to the result. It decides; the
/// transport acts: it reports what it receives with [`StreamingCall::step`]
/// and does what the step answers, until the step answers
/// [`CallAction::Finish`].
pub struct StreamingCall {
    kind: StreamKind,
    model_id: String,
    request_id: String,
    stage: CallStage,
    decoder: StreamDecoder,
}

impl View for StreamingCall {
    type V = CallState;

    closed spec fn view(&self) -> CallState {
        CallState {
            kind: self.kind,
            model_id: self.model_id@,
            request_id: self.request_id@,
            stage: self.stage,
            decoder: self.decoder@,
        }
    }
}

impl StreamingCall {
    /// Begins a call, given the credential that the request will carry.
    /// Without a credential the call fails here, with an authentication
    /// failure of the given detail, and nothing is to be sent.
    pub fn begin(
        kind: StreamKind,
        token: &Option<String>,
        missing_token_detail: &str,
        model_id: &str,
        request_id: &str,
        thread_id: Option<String>,
    ) -> (r: Result<StreamingCall, Error>)
        ensures
            match r {
                Ok(call) => token is Some && call@ == (CallState {
                    kind,
                    model_id: model_id@,
                    request_id: request_id@,
                    stage: CallStage::AwaitingResponse,
                    decoder: DecoderState::initial(text_view(thread_id)),
                }),
                Err(e) => token is None && (e matches Error::Authentication(m) && m@
                    == missing_token_detail@),
            },
    {
        match require_token(token, missing_token_detail) {
            Ok(_) => Ok(
                StreamingCall {
                    kind,
                    model_id: model_id.to_owned(),
                    request_id: request_id.to_owned(),
                    stage: CallStage::AwaitingResponse,
                    decoder: StreamDecoder::new(thread_id),
                },
            ),
            Err(e) => Err(e),
        }
    }

    /// Where the call stands.
    pub fn stage(&self) -> (r: CallStage)
        ensures
            r == self@.stage,
    {
        self.stage
    }

    /// What the stream has gathered so far.
    pub fn accumulated(&self) -> (r: &StreamAccumulator)
        ensures
            r@ == self@.decoder.acc,
    {
        self.decoder.accumulated()
    }

    /// Ends the call with a failure.
    fn fail(&mut self, error: Error) -> (action: CallAction)
        ensures
            final(self)@ == (CallState { stage: CallStage::Done, ..old(self)@ }),
            action matches CallAction::Finish(last, Err(e)) && last@.len() == 0 && e == error,
    {
        self.stage = CallStage::Done;
        CallAction::Finish(Vec::new(), Err(error))
    }

    /// Takes in what the transport reports and answers what it has to do
    /// next.
    pub fn step(&mut self, input: CallInput) -> (action: CallAction)
        ensures
            steps(old(self)@, input, final(self)@, action),
    {
        match input {
            CallInput::TimedOut => {
                match self.stage {
                    CallStage::Done => self.fail(
                        Error::InvalidInput("Event out of turn for the state of the call".to_owned()),
                    ),
                    _ => self.fail(Error::Timeout("Request timed out".to_owned())),
                }
            },
            CallInput::Response(status) => {
                match self.stage {
                    CallStage::AwaitingResponse => {
                        if is_success_status(status) {
                            self.stage = CallStage::Streaming;
                            CallAction::Deliver(Vec::new())
                        } else {
                            self.stage = CallStage::AwaitingFailureBody(status);
                            CallAction::ReadFailureBody
                        }
                    },
                    _ => self.fail(
                        Error::InvalidInput("Event out of turn for the state of the call".to_owned()),
                    ),
                }
            },
            CallInput::FailureBody(body) => {
                match self.stage {
                    CallStage::AwaitingFailureBody(status) => {
                        let error = status_failure(
                            self.kind,
                            status,
                            body.as_str(),
                            self.model_id.as_str(),
                        );
                        self.fail(error)
                    },
                    _ => self.fail(
                        Error::InvalidInput("Event out of turn for the state of the call".to_owned()),
                    ),
                }
            },
            CallInput::Chunk(bytes) => {
                match self.stage {
                    CallStage::Streaming => {
                        let fragments = self.decoder.push_chunk(bytes.as_slice());
                        CallAction::Deliver(fragments)
                    },
                    _ => self.fail(
                        Error::InvalidInput("Event out of turn for the state of the call".to_owned()),
                    ),
                }
            },
            CallInput::ReadFailed(reason) => {
                match self.stage {
                    CallStage::Streaming => self.fail(Error::Network(reason)),
                    _ => self.fail(
                        Error::InvalidInput("Event out of turn for the state of the call".to_owned()),
                    ),
                }
            },
            CallInput::CallbackFailed(failure) => {
                match self.stage {
                    CallStage::Streaming => self.fail(failure),
                    _ => self.fail(
                        Error::InvalidInput("Event out of turn for the state of the call".to_owned()),
                    ),
                }
            },
            CallInput::End => {
                match self.stage {
                    CallStage::Streaming => {
                        let mut decoder = StreamDecoder::new(None);
                        std::mem::swap(&mut decoder, &mut self.decoder);
                        let (last, acc) = decoder.finish();
                        let result = conclude(
                            self.kind,
                            acc,
                            self.model_id.as_str(),
                            self.request_id.as_str(),
                        );
                        self.stage = CallStage::Done;
                        CallAction::Finish(last, result)
                    },
                    _ => self.fail(
                        Error::InvalidInput("Event out of turn for the state of the call".to_owned()),
                    ),
                }
            },
        }
    }
}

/// Whether `settled` is what a call that ends with `result` comes to once
/// its last fragments `last` are handed to `callback`: the failure of the
/// callback where it refuses one of them, else `result`.
pub open spec fn settles<F: Fn(&str) -> Result<(), Error>>(
    callback: F,
    last: Seq<Seq<char>>,
    result: Result<StreamOutcome, Error>,
    settled: Result<StreamOutcome, Error>,
) -> bool {
    exists|handed: Result<(), Error>| #[trigger]
        handed_on(callback, last, handed) && settled == match handed {
            Ok(_) => result,
            Err(failure) => Err(failure),
        }
}

/// Ends a call: hands its last fragments to `callback`, in order and only
/// as long as it accepts them, and returns the failure of the callback
/// where it refuses one, else the result of the call.
pub fn settle<F: Fn(&str) -> Result<(), Error>>(
    last: &Vec<String>,
    result: Result<StreamOutcome, Error>,
    callback: &F,
) -> (settled: Result<StreamOutcome, Error>)
    requires
        forall|s: &str| call_requires(*callback, (s,)),
    ensures
        settles(*callback, strings_view(last@), result, settled),
{
    let handed = deliver_while_accepted(last, callback);
    let ghost given = handed;
    match handed {
        Ok(_) => {
            assert(handed_on(*callback, strings_view(last@), given));
            result
        },
        Err(failure) => {
            assert(handed_on(*callback, strings_view(last@), given));
            Err(failure)
        },
    }
}

} // verus!
