//! The exchange that tests one model, as a state machine: the caller performs
//! what the current phase asks for (send the request, read the refusal, read
//! the next chunk) and hands back what happened; the machine decides what
//! follows and what the test measured.
use vstd::prelude::*;

use crate::model::ModelConfig;
use crate::request::{
    api_kind_of, http_failure_message, http_failure_text, plan_request, status_is_success,
    unknown_api_message, ApiKind, ApiRequest,
};
use crate::reading::law_chunk_keeps_first_token_time;
use crate::stream::{chunk_progress, Progress, StreamState};

verus! {

/// What a finished exchange measured: zeros where nothing streamed.
pub struct Measured {
    pub ttft_ms: u64,
    pub total_tokens: u64,
    pub error: Option<String>,
}

/// The phase of the exchange, and what it asks the caller to do.
pub enum Exchange {
    /// Send this request.
    Send(ApiRequest),
    /// The server refused with this status (as displayed): read the
    /// response body for the message.
    ReadRefusal(String),
    /// Read the next chunk of the response body.
    Streaming(StreamState),
    /// Done.
    Finished(Measured),
}

/// What happened when the caller did what the phase asked.
pub enum ExchangeEvent {
    /// The request could not be sent, or no response came (the message).
    SendFailed(String),
    /// A response came with this status code and its display.
    Responded(u16, String),
    /// The body of a refusal was read (empty if it could not be).
    RefusalBody(String),
    /// A chunk of the response body arrived at the given milliseconds.
    Chunk(Vec<u8>, u64),
    /// The response body ended.
    StreamEnded,
    /// Reading the response body failed (the message).
    StreamFailed(String),
}

pub open spec fn measured_is(m: Measured, ttft_ms: u64, total_tokens: u64, error: Option<String>) -> bool {
    m.ttft_ms == ttft_ms && m.total_tokens == total_tokens && m.error == error
}

/// The error is present and reads `text`.
pub open spec fn error_reads(error: Option<String>, text: Seq<char>) -> bool {
    match error {
        Some(e) => e@ == text,
        None => false,
    }
}

/// The state just before a response body streams in.
pub open spec fn fresh_stream(st: StreamState, api: ApiKind) -> bool {
    &&& st.api == api
    &&& st.progress() == (Progress { buffer: Seq::empty(), done: false, ttft_ms: 0, total_tokens: 0 })
    &&& st.error is None
}

/// The time to first token that a streaming or finished exchange holds.
pub open spec fn first_token_time(e: Exchange) -> Option<u64> {
    match e {
        Exchange::Streaming(st) => Some(st.ttft_ms),
        Exchange::Finished(f) => Some(f.ttft_ms),
        _ => None,
    }
}

impl Exchange {
    /// Whether `ev` is a possible answer to what this phase asks.
    pub open spec fn accepts(&self, ev: &ExchangeEvent) -> bool {
        match (*self, *ev) {
            (Exchange::Send(_), ExchangeEvent::SendFailed(_)) => true,
            (Exchange::Send(_), ExchangeEvent::Responded(_, _)) => true,
            (Exchange::ReadRefusal(_), ExchangeEvent::RefusalBody(_)) => true,
            (Exchange::Streaming(st), ExchangeEvent::Chunk(_, _)) => !st.done,
            (Exchange::Streaming(st), ExchangeEvent::StreamEnded) => !st.done,
            (Exchange::Streaming(st), ExchangeEvent::StreamFailed(_)) => !st.done,
            _ => false,
        }
    }

    /// The exchange that tests `model` with `prompt`: send the planned
    /// request, or, for an unknown API type, finish with that error.
    pub fn begin(model: &ModelConfig, prompt: &str) -> (r: Exchange)
        ensures
            match api_kind_of(model.api_type@) {
                Some(api) => r matches Exchange::Send(req) && req.is_request_for(
                    api,
                    model@,
                    prompt@,
                ),
                None => r matches Exchange::Finished(m) && m.ttft_ms == 0 && m.total_tokens == 0
                    && error_reads(m.error, unknown_api_message()),
            },
    {
        match plan_request(model, prompt) {
            Ok(req) => Exchange::Send(req),
            Err(e) => Exchange::Finished(Measured { ttft_ms: 0, total_tokens: 0, error: Some(e) }),
        }
    }

    /// The phase after `ev`. A refused request is reported with its status
    /// and body; a request that could not be sent with why; a stream with
    /// what it gave until it ended, failed or sent the end marker.
    pub fn step(self, ev: ExchangeEvent) -> (r: Exchange)
        requires
            self.accepts(&ev),
        ensures
            match (self, ev) {
                (Exchange::Send(_), ExchangeEvent::SendFailed(m)) => r matches Exchange::Finished(
                    f,
                ) && measured_is(f, 0, 0, Some(m)),
                (Exchange::Send(req), ExchangeEvent::Responded(code, text)) => if 200 <= code
                    < 300 {
                    r matches Exchange::Streaming(st) && fresh_stream(st, req.api)
                } else {
                    r matches Exchange::ReadRefusal(t) && t == text
                },
                (Exchange::ReadRefusal(t), ExchangeEvent::RefusalBody(b)) => r matches Exchange::Finished(
                    f,
                ) && f.ttft_ms == 0 && f.total_tokens == 0 && error_reads(
                    f.error,
                    http_failure_text(t@, b@),
                ),
                (Exchange::Streaming(st), ExchangeEvent::Chunk(bytes, at)) => {
                    let p = chunk_progress(st.api, st.progress(), bytes@, at);
                    if p.done {
                        r matches Exchange::Finished(f) && measured_is(
                            f,
                            p.ttft_ms,
                            p.total_tokens,
                            st.error,
                        )
                    } else {
                        r matches Exchange::Streaming(st2) && st2.progress() == p && st2.api
                            == st.api && st2.error == st.error
                    }
                },
                (Exchange::Streaming(st), ExchangeEvent::StreamEnded) => r matches Exchange::Finished(
                    f,
                ) && measured_is(f, st.ttft_ms, st.total_tokens, st.error),
                (Exchange::Streaming(st), ExchangeEvent::StreamFailed(m)) => r matches Exchange::Finished(
                    f,
                ) && measured_is(f, st.ttft_ms, st.total_tokens, Some(m)),
                _ => false,
            },
            match (self, ev) {
                (Exchange::Streaming(st), ExchangeEvent::Chunk(_, at)) => {
                    &&& st.ttft_ms != 0 ==> first_token_time(r) == Some(st.ttft_ms)
                    &&& st.ttft_ms == 0 ==> first_token_time(r) == Some(0u64) || first_token_time(r)
                        == Some(at)
                },
                _ => true,
            },
    {
        match (self, ev) {
            (Exchange::Send(_), ExchangeEvent::SendFailed(m)) => {
                Exchange::Finished(Measured { ttft_ms: 0, total_tokens: 0, error: Some(m) })
            },
            (Exchange::Send(req), ExchangeEvent::Responded(code, text)) => {
                if status_is_success(code) {
                    Exchange::Streaming(StreamState::new(req.api))
                } else {
                    Exchange::ReadRefusal(text)
                }
            },
            (Exchange::ReadRefusal(t), ExchangeEvent::RefusalBody(b)) => {
                let message = http_failure_message(t.as_str(), b.as_str());
                Exchange::Finished(Measured { ttft_ms: 0, total_tokens: 0, error: Some(message) })
            },
            (Exchange::Streaming(st), ExchangeEvent::Chunk(bytes, at)) => {
                let mut st = st;
                let ghost before = st.progress();
                st.on_chunk(bytes.as_slice(), at);
                proof {
                    law_chunk_keeps_first_token_time(st.api, before, bytes@, at);
                }
                if st.done {
                    Exchange::Finished(
                        Measured { ttft_ms: st.ttft_ms, total_tokens: st.total_tokens, error: st.error },
                    )
                } else {
                    Exchange::Streaming(st)
                }
            },
            (Exchange::Streaming(st), ExchangeEvent::StreamEnded) => {
                Exchange::Finished(
                    Measured { ttft_ms: st.ttft_ms, total_tokens: st.total_tokens, error: st.error },
                )
            },
            (Exchange::Streaming(st), ExchangeEvent::StreamFailed(m)) => {
                Exchange::Finished(
                    Measured { ttft_ms: st.ttft_ms, total_tokens: st.total_tokens, error: Some(m) },
                )
            },
            _ => {
                proof {
                    assert(false);
                }
                Exchange::Finished(Measured { ttft_ms: 0, total_tokens: 0, error: None })
            },
        }
    }
}

} // verus!
