//! Reading a streamed (server-sent events) response: bytes arrive in chunks,
//! are cut into lines, and each `data: ` line is one JSON event whose fields
//! update the token count; the first data line fixes the time to first token.
use vstd::prelude::*;
use vstd::slice::{slice_subrange, slice_to_vec};
use vstd::utf8::{
    decode_utf8, decode_utf8_encode_utf8, encode_utf8, encode_utf8_decode_utf8, valid_utf8,
    valid_utf8_concat,
};
use vstd::wrapping::u64_specs::wrapping_add;

use crate::json::{read_stream_event, stream_event_fields, StreamEvent, StreamEventView};
use crate::request::ApiKind;
use crate::text::{string_of_chars, trim_chars, trim_spec, utf8_chars};

verus! {

broadcast use vstd::string::group_string_axioms;

/// What reading a stream has established so far.
pub struct Progress {
    /// Received text not yet cut into lines: at most a partial line.
    pub buffer: Seq<char>,
    /// The end-of-stream marker was seen, or the stream ended.
    pub done: bool,
    /// Milliseconds to the first data line; 0 while there was none.
    pub ttft_ms: u64,
    /// The token count so far.
    pub total_tokens: u64,
}

/// The index of the first `'\n'` in `s`.
pub open spec fn newline_index(s: Seq<char>) -> Option<int>
    decreases s.len(),
{
    if s.len() == 0 {
        None
    } else if s[0] == '\n' {
        Some(0)
    } else {
        match newline_index(s.drop_first()) {
            Some(i) => Some(i + 1),
            None => None,
        }
    }
}

pub open spec fn data_prefix() -> Seq<char> {
    seq!['d', 'a', 't', 'a', ':', ' ']
}

pub open spec fn done_marker() -> Seq<char> {
    seq!['[', 'D', 'O', 'N', 'E', ']']
}

/// The payload of a line: what follows `data: ` once the line is trimmed;
/// `None` for any other line (empty lines, `event: ` lines, comments).
pub open spec fn line_payload(line: Seq<char>) -> Option<Seq<char>> {
    let t = trim_spec(line);
    if t.len() >= 6 && t.take(6) == data_prefix() {
        Some(t.skip(6))
    } else {
        None
    }
}

/// The tokens that a piece of streamed text is estimated to hold: one per
/// four characters, rounded down.
pub open spec fn estimated_tokens(s: Seq<char>) -> u64 {
    (s.len() / 4) as u64
}

/// The token count after an event. OpenAI: a content delta adds its
/// estimate, and a reported `completion_tokens` replaces the count.
/// Anthropic: a `message_delta` with `output_tokens` replaces the count, and a
/// `content_block_delta` with text sets the estimate while the count is 0.
/// A payload that is not JSON has none of the fields and changes nothing.
pub open spec fn count_after_event(api: ApiKind, total: u64, e: StreamEventView) -> u64 {
    match api {
        ApiKind::OpenAi => {
            let t = match e.choice_content {
                Some(s) => wrapping_add(total, estimated_tokens(s)),
                None => total,
            };
            match e.completion_tokens {
                Some(n) => n,
                None => t,
            }
        },
        ApiKind::Anthropic => {
            let kind = match e.event_type {
                Some(k) => k,
                None => Seq::empty(),
            };
            let t = if kind == "message_delta"@ {
                match e.output_tokens {
                    Some(n) => n,
                    None => total,
                }
            } else {
                total
            };
            if kind == "content_block_delta"@ && t == 0 {
                match e.delta_text {
                    Some(s) => estimated_tokens(s),
                    None => t,
                }
            } else {
                t
            }
        },
    }
}

/// Cuts every complete line off the buffer and applies it, in order, until
/// the buffer holds no complete line or the end marker `[DONE]` is read; the
/// text after the marker is dropped. `elapsed_ms` is the time of arrival of
/// the text.
pub open spec fn drain(api: ApiKind, p: Progress, elapsed_ms: u64) -> Progress
    decreases p.buffer.len(),
{
    if p.done {
        p
    } else {
        match newline_index(p.buffer) {
            None => p,
            Some(i) => {
                proof {
                    lemma_newline_index(p.buffer);
                }
                let rest = p.buffer.skip(i + 1);
                match line_payload(p.buffer.take(i)) {
                    None => drain(api, Progress { buffer: rest, ..p }, elapsed_ms),
                    Some(d) => if d == done_marker() {
                        Progress { buffer: rest, done: true, ..p }
                    } else {
                        drain(
                            api,
                            Progress {
                                buffer: rest,
                                ttft_ms: if p.ttft_ms == 0 {
                                    elapsed_ms
                                } else {
                                    p.ttft_ms
                                },
                                total_tokens: count_after_event(
                                    api,
                                    p.total_tokens,
                                    stream_event_fields(d),
                                ),
                                ..p
                            },
                            elapsed_ms,
                        )
                    },
                }
            },
        }
    }
}

/// The progress after `text` arrives at `elapsed_ms`.
pub open spec fn feed(api: ApiKind, p: Progress, text: Seq<char>, elapsed_ms: u64) -> Progress {
    drain(api, Progress { buffer: p.buffer + text, ..p }, elapsed_ms)
}

/// The first `'\n'` of `s` is at the index `newline_index` gives; with none,
/// `s` holds no `'\n'`.
pub proof fn lemma_newline_index(s: Seq<char>)
    ensures
        match newline_index(s) {
            Some(i) => 0 <= i < s.len() && s[i] == '\n' && forall|j: int|
                0 <= j < i ==> s[j] != '\n',
            None => forall|j: int| 0 <= j < s.len() ==> s[j] != '\n',
        },
    decreases s.len(),
{
    if s.len() > 0 && s[0] != '\n' {
        lemma_newline_index(s.drop_first());
        assert forall|j: int| 1 <= j < s.len() implies s[j] == s.drop_first()[j - 1] by {}
    }
}

/// A line found in `s` is found at the same place in any extension of `s`.
proof fn lemma_newline_index_extend(s: Seq<char>, t: Seq<char>)
    requires
        newline_index(s) is Some,
    ensures
        newline_index(s + t) == newline_index(s),
{
    lemma_newline_index(s);
    lemma_newline_index(s + t);
    let i = newline_index(s)->0;
    assert((s + t)[i] == s[i]);
    if let Some(k) = newline_index(s + t) {
        if k < i {
            assert((s + t)[k] == s[k]);
        }
    }
}

/// Draining a buffer and then appending `b` gives what appending `b` first
/// and then draining gives, unless the first drain read the end marker.
proof fn lemma_drain_then_append(api: ApiKind, q: Progress, b: Seq<char>, elapsed_ms: u64)
    requires
        !q.done,
        !drain(api, q, elapsed_ms).done,
    ensures
        drain(
            api,
            Progress { buffer: drain(api, q, elapsed_ms).buffer + b, ..drain(api, q, elapsed_ms) },
            elapsed_ms,
        ) == drain(api, Progress { buffer: q.buffer + b, ..q }, elapsed_ms),
    decreases q.buffer.len(),
{
    if let Some(i) = newline_index(q.buffer) {
        lemma_newline_index(q.buffer);
        lemma_newline_index_extend(q.buffer, b);
        assert((q.buffer + b).take(i) =~= q.buffer.take(i));
        assert((q.buffer + b).skip(i + 1) =~= q.buffer.skip(i + 1) + b);
        let rest = q.buffer.skip(i + 1);
        match line_payload(q.buffer.take(i)) {
            None => {
                lemma_drain_then_append(api, Progress { buffer: rest, ..q }, b, elapsed_ms);
            },
            Some(d) => {
                if d != done_marker() {
                    let next = Progress {
                        buffer: rest,
                        ttft_ms: if q.ttft_ms == 0 {
                            elapsed_ms
                        } else {
                            q.ttft_ms
                        },
                        total_tokens: count_after_event(api, q.total_tokens, stream_event_fields(d)),
                        ..q
                    };
                    lemma_drain_then_append(api, next, b, elapsed_ms);
                }
            },
        }
    }
}

/// Text that arrives in two pieces at one time is read as if it had arrived
/// whole, unless the first piece already ended the stream: where the chunks
/// of a response are cut does not change what is read from it.
pub proof fn law_split_arrival(
    api: ApiKind,
    p: Progress,
    first: Seq<char>,
    second: Seq<char>,
    elapsed_ms: u64,
)
    requires
        !p.done,
        !feed(api, p, first, elapsed_ms).done,
    ensures
        feed(api, feed(api, p, first, elapsed_ms), second, elapsed_ms) == feed(
            api,
            p,
            first + second,
            elapsed_ms,
        ),
{
    let q = Progress { buffer: p.buffer + first, ..p };
    lemma_drain_then_append(api, q, second, elapsed_ms);
    assert(q.buffer + second =~= p.buffer + (first + second));
}

/// After reading, unless the stream ended, the buffer holds no complete line:
/// at most the start of a line that is still arriving.
pub proof fn law_only_partial_line_kept(api: ApiKind, p: Progress, text: Seq<char>, elapsed_ms: u64)
    requires
        !feed(api, p, text, elapsed_ms).done,
    ensures
        newline_index(feed(api, p, text, elapsed_ms).buffer) is None,
{
    lemma_drain_no_line(api, Progress { buffer: p.buffer + text, ..p }, elapsed_ms);
}

proof fn lemma_drain_no_line(api: ApiKind, q: Progress, elapsed_ms: u64)
    requires
        !drain(api, q, elapsed_ms).done,
    ensures
        newline_index(drain(api, q, elapsed_ms).buffer) is None,
    decreases q.buffer.len(),
{
    if let Some(i) = newline_index(q.buffer) {
        lemma_newline_index(q.buffer);
        let rest = q.buffer.skip(i + 1);
        match line_payload(q.buffer.take(i)) {
            None => {
                lemma_drain_no_line(api, Progress { buffer: rest, ..q }, elapsed_ms);
            },
            Some(d) => {
                if d != done_marker() {
                    let next = Progress {
                        buffer: rest,
                        ttft_ms: if q.ttft_ms == 0 {
                            elapsed_ms
                        } else {
                            q.ttft_ms
                        },
                        total_tokens: count_after_event(api, q.total_tokens, stream_event_fields(d)),
                        ..q
                    };
                    lemma_drain_no_line(api, next, elapsed_ms);
                }
            },
        }
    }
}

/// The time to first token is fixed by the first data line: once it is set,
/// later text leaves it as it is; before, it becomes the arrival time of the
/// text or stays 0.
pub proof fn law_first_token_time_kept(api: ApiKind, p: Progress, text: Seq<char>, elapsed_ms: u64)
    ensures
        p.ttft_ms != 0 ==> feed(api, p, text, elapsed_ms).ttft_ms == p.ttft_ms,
        p.ttft_ms == 0 ==> feed(api, p, text, elapsed_ms).ttft_ms == 0 || feed(
            api,
            p,
            text,
            elapsed_ms,
        ).ttft_ms == elapsed_ms,
{
    lemma_drain_ttft(api, Progress { buffer: p.buffer + text, ..p }, elapsed_ms);
}

proof fn lemma_drain_ttft(api: ApiKind, q: Progress, elapsed_ms: u64)
    ensures
        q.ttft_ms != 0 ==> drain(api, q, elapsed_ms).ttft_ms == q.ttft_ms,
        q.ttft_ms == 0 ==> drain(api, q, elapsed_ms).ttft_ms == 0 || drain(
            api,
            q,
            elapsed_ms,
        ).ttft_ms == elapsed_ms,
    decreases q.buffer.len(),
{
    if !q.done {
        if let Some(i) = newline_index(q.buffer) {
            lemma_newline_index(q.buffer);
            let rest = q.buffer.skip(i + 1);
            match line_payload(q.buffer.take(i)) {
                None => {
                    lemma_drain_ttft(api, Progress { buffer: rest, ..q }, elapsed_ms);
                },
                Some(d) => {
                    if d != done_marker() {
                        let next = Progress {
                            buffer: rest,
                            ttft_ms: if q.ttft_ms == 0 {
                                elapsed_ms
                            } else {
                                q.ttft_ms
                            },
                            total_tokens: count_after_event(
                                api,
                                q.total_tokens,
                                stream_event_fields(d),
                            ),
                            ..q
                        };
                        lemma_drain_ttft(api, next, elapsed_ms);
                    }
                },
            }
        }
    }
}

/// The progress after a chunk of the response body arrives at
/// `elapsed_ms`: a chunk that is not valid UTF-8 on its own is dropped.
pub open spec fn chunk_progress(api: ApiKind, p: Progress, bytes: Seq<u8>, elapsed_ms: u64) -> Progress {
    if valid_utf8(bytes) {
        feed(api, p, decode_utf8(bytes), elapsed_ms)
    } else {
        p
    }
}

/// The progress after the chunks `chunks` arrive in order, chunk `i` at
/// `times[i]`, until the stream ends.
pub open spec fn read_chunks(api: ApiKind, p: Progress, chunks: Seq<Seq<u8>>, times: Seq<u64>) -> Progress
    decreases chunks.len(),
{
    if chunks.len() == 0 || p.done {
        p
    } else {
        read_chunks(
            api,
            chunk_progress(api, p, chunks[0], times[0]),
            chunks.drop_first(),
            times.drop_first(),
        )
    }
}

/// Two progresses that differ at most in their time to first token.
pub open spec fn same_except_ttft(a: Progress, b: Progress) -> bool {
    a.buffer == b.buffer && a.done == b.done && a.total_tokens == b.total_tokens
}

/// Two progresses that read the same: both ended or neither, the same token
/// count, and, while reading goes on, the same buffered text.
pub open spec fn same_reading(a: Progress, b: Progress) -> bool {
    a.done == b.done && a.total_tokens == b.total_tokens && (!a.done ==> a.buffer == b.buffer)
}

/// What draining does to the buffer, the end and the count does not depend
/// on the time of arrival nor on the time to first token.
proof fn lemma_drain_ttft_free(api: ApiKind, x: Progress, y: Progress, ex: u64, ey: u64)
    requires
        same_except_ttft(x, y),
    ensures
        same_except_ttft(drain(api, x, ex), drain(api, y, ey)),
    decreases x.buffer.len(),
{
    if !x.done {
        if let Some(i) = newline_index(x.buffer) {
            lemma_newline_index(x.buffer);
            let rest = x.buffer.skip(i + 1);
            match line_payload(x.buffer.take(i)) {
                None => {
                    lemma_drain_ttft_free(
                        api,
                        Progress { buffer: rest, ..x },
                        Progress { buffer: rest, ..y },
                        ex,
                        ey,
                    );
                },
                Some(d) => {
                    if d != done_marker() {
                        let total = count_after_event(api, x.total_tokens, stream_event_fields(d));
                        let nx = Progress {
                            buffer: rest,
                            ttft_ms: if x.ttft_ms == 0 {
                                ex
                            } else {
                                x.ttft_ms
                            },
                            total_tokens: total,
                            ..x
                        };
                        let ny = Progress {
                            buffer: rest,
                            ttft_ms: if y.ttft_ms == 0 {
                                ey
                            } else {
                                y.ttft_ms
                            },
                            total_tokens: total,
                            ..y
                        };
                        lemma_drain_ttft_free(api, nx, ny, ex, ey);
                    }
                },
            }
        }
    }
}

/// Text that arrives after the end marker changes neither the end nor the
/// count.
proof fn lemma_drain_done_extends(api: ApiKind, q: Progress, b: Seq<char>, elapsed_ms: u64)
    requires
        !q.done,
        drain(api, q, elapsed_ms).done,
    ensures
        drain(api, Progress { buffer: q.buffer + b, ..q }, elapsed_ms).done,
        drain(api, Progress { buffer: q.buffer + b, ..q }, elapsed_ms).total_tokens == drain(
            api,
            q,
            elapsed_ms,
        ).total_tokens,
    decreases q.buffer.len(),
{
    let i = newline_index(q.buffer)->0;
    lemma_newline_index(q.buffer);
    lemma_newline_index_extend(q.buffer, b);
    assert((q.buffer + b).take(i) =~= q.buffer.take(i));
    assert((q.buffer + b).skip(i + 1) =~= q.buffer.skip(i + 1) + b);
    let rest = q.buffer.skip(i + 1);
    match line_payload(q.buffer.take(i)) {
        None => {
            lemma_drain_done_extends(api, Progress { buffer: rest, ..q }, b, elapsed_ms);
        },
        Some(d) => {
            if d != done_marker() {
                let next = Progress {
                    buffer: rest,
                    ttft_ms: if q.ttft_ms == 0 {
                        elapsed_ms
                    } else {
                        q.ttft_ms
                    },
                    total_tokens: count_after_event(api, q.total_tokens, stream_event_fields(d)),
                    ..q
                };
                lemma_drain_done_extends(api, next, b, elapsed_ms);
            }
        },
    }
}

proof fn lemma_encode_concat(a: Seq<char>, b: Seq<char>)
    ensures
        encode_utf8(a + b) == encode_utf8(a) + encode_utf8(b),
    decreases a.len(),
{
    if a.len() == 0 {
        assert(a + b =~= b);
        assert(encode_utf8(a) + encode_utf8(b) =~= encode_utf8(b));
    } else {
        lemma_encode_concat(a.drop_first(), b);
        assert((a + b).drop_first() =~= a.drop_first() + b);
        assert((a + b)[0] == a[0]);
        assert(encode_utf8(a + b) =~= encode_utf8(a) + encode_utf8(b));
    }
}

/// Valid UTF-8 decodes piecewise.
proof fn lemma_decode_concat(x: Seq<u8>, y: Seq<u8>)
    requires
        valid_utf8(x),
        valid_utf8(y),
    ensures
        valid_utf8(x + y),
        decode_utf8(x + y) == decode_utf8(x) + decode_utf8(y),
{
    valid_utf8_concat(x, y);
    decode_utf8_encode_utf8(x);
    decode_utf8_encode_utf8(y);
    lemma_encode_concat(decode_utf8(x), decode_utf8(y));
    encode_utf8_decode_utf8(decode_utf8(x) + decode_utf8(y));
}

proof fn lemma_flatten_valid(chunks: Seq<Seq<u8>>)
    requires
        forall|i: int| 0 <= i < chunks.len() ==> valid_utf8(#[trigger] chunks[i]),
    ensures
        valid_utf8(chunks.flatten()),
    decreases chunks.len(),
{
    if chunks.len() > 0 {
        let rest = chunks.drop_first();
        assert forall|i: int| 0 <= i < rest.len() implies valid_utf8(#[trigger] rest[i]) by {
            assert(rest[i] == chunks[i + 1]);
        }
        lemma_flatten_valid(rest);
        assert(valid_utf8(chunks[0]));
        valid_utf8_concat(chunks.first(), rest.flatten());
    }
}

/// Reading a body chunk by chunk, the chunks valid UTF-8 each and arriving
/// at any times, reads what taking the whole body in at once reads: the same
/// end, the same token count and, while reading goes on, the same buffered
/// text. Only the time to first token depends on when the chunks arrive.
pub proof fn law_chunking_free(
    api: ApiKind,
    p: Progress,
    chunks: Seq<Seq<u8>>,
    times: Seq<u64>,
    elapsed_ms: u64,
)
    requires
        !p.done,
        newline_index(p.buffer) is None,
        chunks.len() <= times.len(),
        forall|i: int| 0 <= i < chunks.len() ==> valid_utf8(#[trigger] chunks[i]),
    ensures
        valid_utf8(chunks.flatten()),
        same_reading(
            read_chunks(api, p, chunks, times),
            feed(api, p, decode_utf8(chunks.flatten()), elapsed_ms),
        ),
    decreases chunks.len(),
{
    lemma_flatten_valid(chunks);
    if chunks.len() == 0 {
        assert(p.buffer + decode_utf8(chunks.flatten()) =~= p.buffer);
    } else {
        let c0 = chunks[0];
        let rest = chunks.drop_first();
        assert forall|i: int| 0 <= i < rest.len() implies valid_utf8(#[trigger] rest[i]) by {
            assert(rest[i] == chunks[i + 1]);
        }
        assert(valid_utf8(c0));
        lemma_flatten_valid(rest);
        lemma_decode_concat(c0, rest.flatten());
        let d0 = decode_utf8(c0);
        let r = decode_utf8(rest.flatten());
        assert(decode_utf8(chunks.flatten()) == d0 + r);
        let q = Progress { buffer: p.buffer + d0, ..p };
        let p1 = drain(api, q, times[0]);
        let p1t = drain(api, q, elapsed_ms);
        lemma_drain_ttft_free(api, q, q, times[0], elapsed_ms);
        let whole = Progress { buffer: p.buffer + (d0 + r), ..p };
        assert(whole == Progress { buffer: q.buffer + r, ..q }) by {
            assert(p.buffer + (d0 + r) =~= q.buffer + r);
        }
        assert(chunk_progress(api, p, c0, times[0]) == p1);
        assert(read_chunks(api, p, chunks, times) == read_chunks(
            api,
            p1,
            rest,
            times.drop_first(),
        ));
        assert(feed(api, p, decode_utf8(chunks.flatten()), elapsed_ms) == drain(
            api,
            Progress { buffer: q.buffer + r, ..q },
            elapsed_ms,
        ));
        if p1.done {
            lemma_drain_done_extends(api, q, r, elapsed_ms);
            assert(read_chunks(api, p1, rest, times.drop_first()) == p1);
        } else {
            lemma_drain_no_line(api, q, times[0]);
            law_chunking_free(api, p1, rest, times.drop_first(), elapsed_ms);
            lemma_drain_ttft_free(
                api,
                Progress { buffer: p1.buffer + r, ..p1 },
                Progress { buffer: p1t.buffer + r, ..p1t },
                elapsed_ms,
                elapsed_ms,
            );
            lemma_drain_then_append(api, q, r, elapsed_ms);
        }
    }
}

/// Two ways of cutting the same body into chunks (valid UTF-8 each, arriving
/// at any times) read the same: the same end, the same token count, and,
/// while reading goes on, the same buffered text.
pub proof fn law_count_free_of_chunking(
    api: ApiKind,
    p: Progress,
    first: Seq<Seq<u8>>,
    first_times: Seq<u64>,
    second: Seq<Seq<u8>>,
    second_times: Seq<u64>,
)
    requires
        !p.done,
        newline_index(p.buffer) is None,
        first.len() <= first_times.len(),
        second.len() <= second_times.len(),
        forall|i: int| 0 <= i < first.len() ==> valid_utf8(#[trigger] first[i]),
        forall|i: int| 0 <= i < second.len() ==> valid_utf8(#[trigger] second[i]),
        first.flatten() == second.flatten(),
    ensures
        same_reading(
            read_chunks(api, p, first, first_times),
            read_chunks(api, p, second, second_times),
        ),
{
    law_chunking_free(api, p, first, first_times, 0);
    law_chunking_free(api, p, second, second_times, 0);
}

/// The state of reading one response stream.
pub struct StreamState {
    pub api: ApiKind,
    pub buffer: Vec<char>,
    pub done: bool,
    pub ttft_ms: u64,
    pub total_tokens: u64,
    /// Why the stream failed, if it did.
    pub error: Option<String>,
}

fn find_newline(s: &Vec<char>) -> (r: Option<usize>)
    ensures
        match r {
            Some(i) => newline_index(s@) == Some(i as int),
            None => newline_index(s@) is None,
        },
{
    let mut i: usize = 0;
    while i < s.len()
        invariant
            i <= s@.len(),
            forall|j: int| 0 <= j < i ==> s@[j] != '\n',
        decreases s.len() - i,
    {
        if s[i] == '\n' {
            proof {
                lemma_newline_index(s@);
            }
            return Some(i);
        }
        i = i + 1;
    }
    proof {
        lemma_newline_index(s@);
    }
    None
}

/// The payload of a line, as [`line_payload`] gives it.
pub fn payload_of_line(line: &[char]) -> (r: Option<Vec<char>>)
    ensures
        match r {
            Some(d) => line_payload(line@) == Some(d@),
            None => line_payload(line@) is None,
        },
{
    let t = trim_chars(line);
    if t.len() >= 6 && t[0] == 'd' && t[1] == 'a' && t[2] == 't' && t[3] == 'a' && t[4] == ':'
        && t[5] == ' ' {
        assert(t@.take(6) =~= data_prefix());
        let d = slice_to_vec(slice_subrange(t.as_slice(), 6, t.len()));
        assert(d@ =~= t@.skip(6));
        Some(d)
    } else {
        assert(t@.len() >= 6 ==> t@.take(6)[0] == t@[0] && t@.take(6)[1] == t@[1] && t@.take(6)[2]
            == t@[2] && t@.take(6)[3] == t@[3] && t@.take(6)[4] == t@[4] && t@.take(6)[5] == t@[5]);
        None
    }
}

/// Whether a payload is the end marker `[DONE]`.
pub fn is_done_marker(d: &[char]) -> (r: bool)
    ensures
        r == (d@ == done_marker()),
{
    if d.len() == 6 && d[0] == '[' && d[1] == 'D' && d[2] == 'O' && d[3] == 'N' && d[4] == 'E'
        && d[5] == ']' {
        assert(d@ =~= done_marker());
        true
    } else {
        assert(d@ == done_marker() ==> d@.len() == 6 && d@[0] == '[' && d@[1] == 'D' && d@[2]
            == 'O' && d@[3] == 'N' && d@[4] == 'E' && d@[5] == ']');
        false
    }
}

fn estimate_tokens(s: &String) -> (r: u64)
    ensures
        r == estimated_tokens(s@),
{
    let n = s.as_str().unicode_len();
    (n / 4) as u64
}

fn text_is(s: &String, lit: &str) -> (r: bool)
    ensures
        r == (s@ == lit@),
{
    *s == String::from_str(lit)
}

impl StreamState {
    pub open spec fn progress(&self) -> Progress {
        Progress {
            buffer: self.buffer@,
            done: self.done,
            ttft_ms: self.ttft_ms,
            total_tokens: self.total_tokens,
        }
    }

    /// The state before any byte of a response to an `api` request arrived.
    pub fn new(api: ApiKind) -> (r: StreamState)
        ensures
            r.api == api,
            r.buffer@ == Seq::<char>::empty(),
            !r.done,
            r.ttft_ms == 0,
            r.total_tokens == 0,
            r.error is None,
    {
        StreamState { api, buffer: Vec::new(), done: false, ttft_ms: 0, total_tokens: 0, error: None }
    }

    /// Applies the fields of one payload to the token count.
    pub fn apply_event(&mut self, e: StreamEvent)
        ensures
            final(self).total_tokens == count_after_event(
                old(self).api,
                old(self).total_tokens,
                e@,
            ),
            final(self).api == old(self).api,
            final(self).buffer == old(self).buffer,
            final(self).done == old(self).done,
            final(self).ttft_ms == old(self).ttft_ms,
            final(self).error == old(self).error,
    {
        let mut t = self.total_tokens;
        match self.api {
            ApiKind::OpenAi => {
                if let Some(s) = &e.choice_content {
                    t = t.wrapping_add(estimate_tokens(s));
                }
                if let Some(n) = e.completion_tokens {
                    t = n;
                }
            },
            ApiKind::Anthropic => {
                let (is_message_delta, is_block_delta) = match &e.event_type {
                    Some(k) => (text_is(k, "message_delta"), text_is(k, "content_block_delta")),
                    None => {
                        // A missing type reads as the empty text, which is
                        // neither kind.
                        proof {
                            reveal_strlit("message_delta");
                            reveal_strlit("content_block_delta");
                            assert("message_delta"@.len() == 13);
                            assert("content_block_delta"@.len() == 19);
                        }
                        (false, false)
                    },
                };
                if is_message_delta {
                    if let Some(n) = e.output_tokens {
                        t = n;
                    }
                }
                if is_block_delta && t == 0 {
                    if let Some(s) = &e.delta_text {
                        t = estimate_tokens(s);
                    }
                }
            },
        }
        self.total_tokens = t;
    }

    /// Takes in decoded text that arrived at `elapsed_ms`: appends it to the
    /// buffer and processes every complete line.
    pub fn feed_text(&mut self, text: &[char], elapsed_ms: u64)
        requires
            !old(self).done,
        ensures
            final(self).progress() == feed(old(self).api, old(self).progress(), text@, elapsed_ms),
            final(self).api == old(self).api,
            final(self).error == old(self).error,
    {
        let ghost start = self.progress();
        let mut k: usize = 0;
        while k < text.len()
            invariant
                k <= text@.len(),
                self.buffer@ == start.buffer + text@.take(k as int),
                self.api == old(self).api,
                self.error == old(self).error,
                self.done == start.done,
                self.ttft_ms == start.ttft_ms,
                self.total_tokens == start.total_tokens,
            decreases text.len() - k,
        {
            self.buffer.push(text[k]);
            k = k + 1;
            assert(self.buffer@ =~= start.buffer + text@.take(k as int));
        }
        assert(text@.take(text@.len() as int) =~= text@);
        let ghost target = feed(self.api, start, text@, elapsed_ms);
        assert(self.progress() == Progress { buffer: start.buffer + text@, ..start });
        loop
            invariant_except_break
                !self.done,
            invariant
                drain(self.api, self.progress(), elapsed_ms) == target,
                self.api == old(self).api,
                self.error == old(self).error,
            ensures
                self.progress() == target,
            decreases self.buffer@.len(),
        {
            let ghost p = self.progress();
            match find_newline(&self.buffer) {
                None => {
                    break;
                },
                Some(i) => {
                    proof {
                        lemma_newline_index(p.buffer);
                    }
                    let n = self.buffer.len();
                    assert(i < n);
                    let line = slice_to_vec(slice_subrange(self.buffer.as_slice(), 0, i));
                    let rest = slice_to_vec(
                        slice_subrange(self.buffer.as_slice(), i + 1, n),
                    );
                    assert(line@ =~= p.buffer.take(i as int));
                    assert(rest@ =~= p.buffer.skip(i + 1));
                    self.buffer = rest;
                    match payload_of_line(line.as_slice()) {
                        None => {},
                        Some(d) => {
                            if is_done_marker(d.as_slice()) {
                                self.done = true;
                                break;
                            }
                            if self.ttft_ms == 0 {
                                self.ttft_ms = elapsed_ms;
                            }
                            let data = string_of_chars(d.as_slice());
                            let ev = read_stream_event(data.as_str());
                            self.apply_event(ev);
                        },
                    }
                },
            }
        }
    }

    /// Takes in a chunk of the response body that arrived at `elapsed_ms`. A
    /// chunk that is not valid UTF-8 on its own is dropped.
    pub fn on_chunk(&mut self, bytes: &[u8], elapsed_ms: u64)
        requires
            !old(self).done,
        ensures
            valid_utf8(bytes@) ==> final(self).progress() == feed(
                old(self).api,
                old(self).progress(),
                decode_utf8(bytes@),
                elapsed_ms,
            ),
            !valid_utf8(bytes@) ==> final(self).progress() == old(self).progress(),
            final(self).api == old(self).api,
            final(self).error == old(self).error,
    {
        match utf8_chars(bytes) {
            Some(chars) => self.feed_text(chars.as_slice(), elapsed_ms),
            None => {},
        }
    }

    /// The response body ended.
    pub fn on_stream_end(&mut self)
        ensures
            final(self).done,
            final(self).buffer == old(self).buffer,
            final(self).ttft_ms == old(self).ttft_ms,
            final(self).total_tokens == old(self).total_tokens,
            final(self).api == old(self).api,
            final(self).error == old(self).error,
    {
        self.done = true;
    }

    /// Reading the response body failed with `message`.
    pub fn on_stream_error(&mut self, message: String)
        ensures
            final(self).done,
            final(self).error == Some(message),
            final(self).buffer == old(self).buffer,
            final(self).ttft_ms == old(self).ttft_ms,
            final(self).total_tokens == old(self).total_tokens,
            final(self).api == old(self).api,
    {
        self.done = true;
        self.error = Some(message);
    }
}

} // verus!
