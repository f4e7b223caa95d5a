//! What reading a stream does with single lines, stated over the lines'
//! text and the JSON values in them: which lines count, which line ends the
//! stream, which reported count replaces the estimate, and when the time to
//! first token is taken.
use vstd::prelude::*;
use vstd::utf8::{decode_utf8, valid_utf8};

use crate::json::{json_leaf_at, stream_event_fields, JsonLeafView, JsonStepView};
use crate::request::ApiKind;
use crate::stream::{
    chunk_progress, count_after_event, data_prefix, drain, feed, law_first_token_time_kept,
    lemma_newline_index, line_payload, newline_index, Progress,
};
use crate::text::{is_white_space, trim_end_spec, trim_spec, trim_start_spec};

verus! {

broadcast use vstd::string::group_string_axioms;

/// The line `data: ` followed by `d`, and its line break.
pub open spec fn data_line(d: Seq<char>) -> Seq<char> {
    seq!['d', 'a', 't', 'a', ':', ' '] + d + seq!['\n']
}

/// A payload that stands on its line as it is: not empty, without a line
/// break, and not ending in white space.
pub open spec fn plain_payload(d: Seq<char>) -> bool {
    &&& d.len() > 0
    &&& !is_white_space(d.last())
    &&& forall|i: int| 0 <= i < d.len() ==> d[i] != '\n'
}

/// The payload `[DONE]`.
pub open spec fn is_end_marker(d: Seq<char>) -> bool {
    d == seq!['[', 'D', 'O', 'N', 'E', ']']
}

proof fn lemma_newline_at(s: Seq<char>, i: int)
    requires
        0 <= i < s.len(),
        s[i] == '\n',
        forall|j: int| 0 <= j < i ==> s[j] != '\n',
    ensures
        newline_index(s) == Some(i),
{
    lemma_newline_index(s);
    match newline_index(s) {
        Some(k) => {
            if k < i {
                assert(s[k] == '\n');
            }
            if k > i {
                assert(s[i] != '\n');
            }
        },
        None => {
            assert(s[i] == '\n');
        },
    }
}

/// Feeding one complete line `line` onto an empty buffer cuts exactly that
/// line and leaves the buffer empty.
proof fn lemma_one_line(api: ApiKind, p: Progress, line: Seq<char>, elapsed_ms: u64)
    requires
        p.buffer.len() == 0,
        !p.done,
        forall|i: int| 0 <= i < line.len() ==> line[i] != '\n',
    ensures
        feed(api, p, line.push('\n'), elapsed_ms) == drain(
            api,
            Progress { buffer: line.push('\n'), ..p },
            elapsed_ms,
        ),
        newline_index(line.push('\n')) == Some(line.len() as int),
        line.push('\n').take(line.len() as int) == line,
        line.push('\n').skip(line.len() as int + 1) == Seq::<char>::empty(),
{
    let s = line.push('\n');
    assert(p.buffer + s =~= s);
    lemma_newline_at(s, line.len() as int);
    assert(s.take(line.len() as int) =~= line);
    assert(s.skip(line.len() as int + 1) =~= Seq::<char>::empty());
}

/// The payload of a `data: ` line is the text after `data: `.
proof fn lemma_data_line_payload(d: Seq<char>)
    requires
        plain_payload(d),
    ensures
        line_payload(seq!['d', 'a', 't', 'a', ':', ' '] + d) == Some(d),
{
    let line = seq!['d', 'a', 't', 'a', ':', ' '] + d;
    assert(line[0] == 'd');
    assert(!is_white_space('d'));
    assert(line.last() == d.last());
    assert(trim_start_spec(line) == line);
    assert(trim_end_spec(line) == line);
    assert(trim_spec(line) == line);
    assert(line.take(6) =~= data_prefix());
    assert(line.skip(6) =~= d);
}

/// One data line (not the end marker) onto an empty buffer: the line is
/// applied and nothing is left over.
proof fn lemma_one_data_line(api: ApiKind, p: Progress, d: Seq<char>, elapsed_ms: u64)
    requires
        p.buffer.len() == 0,
        !p.done,
        plain_payload(d),
        !is_end_marker(d),
    ensures
        feed(api, p, data_line(d), elapsed_ms) == (Progress {
            buffer: Seq::empty(),
            done: false,
            ttft_ms: if p.ttft_ms == 0 {
                elapsed_ms
            } else {
                p.ttft_ms
            },
            total_tokens: count_after_event(api, p.total_tokens, stream_event_fields(d)),
        }),
{
    let line = seq!['d', 'a', 't', 'a', ':', ' '] + d;
    assert(data_line(d) =~= line.push('\n'));
    assert forall|i: int| 0 <= i < line.len() implies line[i] != '\n' by {
        if i >= 6 {
            assert(line[i] == d[i - 6]);
        }
    }
    lemma_one_line(api, p, line, elapsed_ms);
    lemma_data_line_payload(d);
    let next = Progress {
        buffer: Seq::empty(),
        done: false,
        ttft_ms: if p.ttft_ms == 0 {
            elapsed_ms
        } else {
            p.ttft_ms
        },
        total_tokens: count_after_event(api, p.total_tokens, stream_event_fields(d)),
    };
    assert(drain(api, next, elapsed_ms) == next);
}

/// Only the end marker ends reading: a data line with any other payload
/// leaves the stream open, with nothing left over. The first such line sets
/// the time to first token to its arrival time; later ones keep it.
pub proof fn law_data_line_keeps_reading(api: ApiKind, p: Progress, d: Seq<char>, elapsed_ms: u64)
    requires
        p.buffer.len() == 0,
        !p.done,
        plain_payload(d),
        !is_end_marker(d),
    ensures
        !feed(api, p, data_line(d), elapsed_ms).done,
        feed(api, p, data_line(d), elapsed_ms).buffer.len() == 0,
        p.ttft_ms == 0 ==> feed(api, p, data_line(d), elapsed_ms).ttft_ms == elapsed_ms,
        p.ttft_ms != 0 ==> feed(api, p, data_line(d), elapsed_ms).ttft_ms == p.ttft_ms,
{
    lemma_one_data_line(api, p, d, elapsed_ms);
}

/// The end marker ends reading, with the count and the time to first token
/// as they were.
pub proof fn law_end_marker_ends(api: ApiKind, p: Progress, elapsed_ms: u64)
    requires
        p.buffer.len() == 0,
        !p.done,
    ensures
        feed(api, p, data_line(seq!['[', 'D', 'O', 'N', 'E', ']']), elapsed_ms).done,
        feed(api, p, data_line(seq!['[', 'D', 'O', 'N', 'E', ']']), elapsed_ms).total_tokens
            == p.total_tokens,
        feed(api, p, data_line(seq!['[', 'D', 'O', 'N', 'E', ']']), elapsed_ms).ttft_ms
            == p.ttft_ms,
{
    let d = seq!['[', 'D', 'O', 'N', 'E', ']'];
    let line = seq!['d', 'a', 't', 'a', ':', ' '] + d;
    assert(data_line(d) =~= line.push('\n'));
    assert forall|i: int| 0 <= i < line.len() implies line[i] != '\n' by {
        if i >= 6 {
            assert(line[i] == d[i - 6]);
        }
    }
    lemma_one_line(api, p, line, elapsed_ms);
    assert(!is_white_space(']'));
    lemma_data_line_payload(d);
}

/// A line that is not a `data: ` line (an empty line, a comment, an
/// `event:` line) changes nothing: not the count, not the end, not the time
/// to first token.
pub proof fn law_other_lines_change_nothing(api: ApiKind, p: Progress, line: Seq<char>, elapsed_ms: u64)
    requires
        p.buffer.len() == 0,
        !p.done,
        forall|i: int| 0 <= i < line.len() ==> line[i] != '\n',
        !(trim_spec(line).len() >= 6 && trim_spec(line).take(6) == seq![
            'd',
            'a',
            't',
            'a',
            ':',
            ' ',
        ]),
    ensures
        feed(api, p, line.push('\n'), elapsed_ms) == (Progress { buffer: Seq::empty(), ..p }),
{
    lemma_one_line(api, p, line, elapsed_ms);
    assert(line_payload(line) is None);
    let next = Progress { buffer: Seq::empty(), ..p };
    assert(drain(api, next, elapsed_ms) == next);
}

/// OpenAI: an event that reports `usage.completion_tokens = n` sets the
/// count to `n`, whatever content it also carries and whatever the count was.
pub proof fn law_reported_completion_tokens_replace(p: Progress, d: Seq<char>, n: u64, elapsed_ms: u64)
    requires
        p.buffer.len() == 0,
        !p.done,
        plain_payload(d),
        !is_end_marker(d),
        json_leaf_at(d, seq![JsonStepView::Key("usage"@), JsonStepView::Key("completion_tokens"@)])
            == Some(JsonLeafView::Count(n)),
    ensures
        feed(ApiKind::OpenAi, p, data_line(d), elapsed_ms).total_tokens == n,
        !feed(ApiKind::OpenAi, p, data_line(d), elapsed_ms).done,
{
    lemma_one_data_line(ApiKind::OpenAi, p, d, elapsed_ms);
}

/// OpenAI: a content delta of `c` characters in an event that reports no
/// count adds `c / 4` (modulo 2^64) to the count.
pub proof fn law_content_adds_estimate(p: Progress, d: Seq<char>, content: Seq<char>, elapsed_ms: u64)
    requires
        p.buffer.len() == 0,
        !p.done,
        plain_payload(d),
        !is_end_marker(d),
        json_leaf_at(
            d,
            seq![
                JsonStepView::Key("choices"@),
                JsonStepView::Index(0),
                JsonStepView::Key("delta"@),
                JsonStepView::Key("content"@),
            ],
        ) == Some(JsonLeafView::Text(content)),
        !(json_leaf_at(d, seq![JsonStepView::Key("usage"@), JsonStepView::Key("completion_tokens"@)]) matches Some(JsonLeafView::Count(_))),
        content.len() <= u64::MAX,
    ensures
        feed(ApiKind::OpenAi, p, data_line(d), elapsed_ms).total_tokens as int == (p.total_tokens
            + content.len() / 4) % 0x1_0000_0000_0000_0000,
{
    lemma_one_data_line(ApiKind::OpenAi, p, d, elapsed_ms);
    let x = p.total_tokens as int;
    let y = content.len() / 4;
    assert(0 <= y <= u64::MAX);
    assert(((y as u64) as int) == y);
    if x + y > u64::MAX {
        assert((x + y) % 0x1_0000_0000_0000_0000 == x + y - 0x1_0000_0000_0000_0000) by (nonlinear_arith)
            requires
                u64::MAX < x + y < 2 * 0x1_0000_0000_0000_0000,
        ;
    } else {
        assert((x + y) % 0x1_0000_0000_0000_0000 == x + y) by (nonlinear_arith)
            requires
                0 <= x + y <= u64::MAX,
        ;
    }
}

/// Anthropic: a `message_delta` event that reports `usage.output_tokens = n`
/// sets the count to `n`, whatever the count was.
pub proof fn law_message_delta_reports_count(p: Progress, d: Seq<char>, n: u64, elapsed_ms: u64)
    requires
        p.buffer.len() == 0,
        !p.done,
        plain_payload(d),
        !is_end_marker(d),
        json_leaf_at(d, seq![JsonStepView::Key("type"@)]) == Some(
            JsonLeafView::Text("message_delta"@),
        ),
        json_leaf_at(d, seq![JsonStepView::Key("usage"@), JsonStepView::Key("output_tokens"@)])
            == Some(JsonLeafView::Count(n)),
    ensures
        feed(ApiKind::Anthropic, p, data_line(d), elapsed_ms).total_tokens == n,
        !feed(ApiKind::Anthropic, p, data_line(d), elapsed_ms).done,
{
    lemma_one_data_line(ApiKind::Anthropic, p, d, elapsed_ms);
    reveal_strlit("message_delta");
    reveal_strlit("content_block_delta");
    assert("message_delta"@.len() == 13);
    assert("content_block_delta"@.len() == 19);
}

/// OpenAI: an event with neither a content delta nor a reported count
/// leaves the count as it was.
pub proof fn law_openai_other_events_keep_count(p: Progress, d: Seq<char>, elapsed_ms: u64)
    requires
        p.buffer.len() == 0,
        !p.done,
        plain_payload(d),
        !is_end_marker(d),
        !(json_leaf_at(
            d,
            seq![
                JsonStepView::Key("choices"@),
                JsonStepView::Index(0),
                JsonStepView::Key("delta"@),
                JsonStepView::Key("content"@),
            ],
        ) matches Some(JsonLeafView::Text(_))),
        !(json_leaf_at(d, seq![JsonStepView::Key("usage"@), JsonStepView::Key("completion_tokens"@)]) matches Some(JsonLeafView::Count(_))),
    ensures
        feed(ApiKind::OpenAi, p, data_line(d), elapsed_ms).total_tokens == p.total_tokens,
{
    lemma_one_data_line(ApiKind::OpenAi, p, d, elapsed_ms);
}

/// Anthropic: a `content_block_delta` with text `t` sets the count to the
/// estimate `t.len() / 4` while no count is known (the count is 0), and
/// leaves a known count as it is.
pub proof fn law_first_text_delta_sets_estimate(p: Progress, d: Seq<char>, t: Seq<char>, elapsed_ms: u64)
    requires
        p.buffer.len() == 0,
        !p.done,
        plain_payload(d),
        !is_end_marker(d),
        json_leaf_at(d, seq![JsonStepView::Key("type"@)]) == Some(
            JsonLeafView::Text("content_block_delta"@),
        ),
        json_leaf_at(d, seq![JsonStepView::Key("delta"@), JsonStepView::Key("text"@)]) == Some(
            JsonLeafView::Text(t),
        ),
        t.len() <= u64::MAX,
    ensures
        p.total_tokens == 0 ==> feed(ApiKind::Anthropic, p, data_line(d), elapsed_ms).total_tokens
            == t.len() / 4,
        p.total_tokens != 0 ==> feed(ApiKind::Anthropic, p, data_line(d), elapsed_ms).total_tokens
            == p.total_tokens,
{
    lemma_one_data_line(ApiKind::Anthropic, p, d, elapsed_ms);
    reveal_strlit("message_delta");
    reveal_strlit("content_block_delta");
    assert("message_delta"@.len() == 13);
    assert("content_block_delta"@.len() == 19);
}

/// Anthropic: an event of any other type (or with no type) leaves the count
/// as it was.
pub proof fn law_anthropic_other_events_keep_count(p: Progress, d: Seq<char>, elapsed_ms: u64)
    requires
        p.buffer.len() == 0,
        !p.done,
        plain_payload(d),
        !is_end_marker(d),
        json_leaf_at(d, seq![JsonStepView::Key("type"@)]) != Some(
            JsonLeafView::Text("message_delta"@),
        ),
        json_leaf_at(d, seq![JsonStepView::Key("type"@)]) != Some(
            JsonLeafView::Text("content_block_delta"@),
        ),
    ensures
        feed(ApiKind::Anthropic, p, data_line(d), elapsed_ms).total_tokens == p.total_tokens,
{
    lemma_one_data_line(ApiKind::Anthropic, p, d, elapsed_ms);
    reveal_strlit("message_delta");
    reveal_strlit("content_block_delta");
    assert("message_delta"@.len() == 13);
    assert("content_block_delta"@.len() == 19);
}

/// Anthropic: whatever event comes first (a `content_block_stop`, say),
/// unless it is the end marker, a following `message_delta` that reports
/// `usage.output_tokens = n` is read and sets the count to `n`.
pub proof fn law_reported_count_after_any_event(
    p: Progress,
    first: Seq<char>,
    second: Seq<char>,
    n: u64,
    first_ms: u64,
    second_ms: u64,
)
    requires
        p.buffer.len() == 0,
        !p.done,
        plain_payload(first),
        !is_end_marker(first),
        plain_payload(second),
        !is_end_marker(second),
        json_leaf_at(second, seq![JsonStepView::Key("type"@)]) == Some(
            JsonLeafView::Text("message_delta"@),
        ),
        json_leaf_at(second, seq![JsonStepView::Key("usage"@), JsonStepView::Key("output_tokens"@)])
            == Some(JsonLeafView::Count(n)),
    ensures
        feed(
            ApiKind::Anthropic,
            feed(ApiKind::Anthropic, p, data_line(first), first_ms),
            data_line(second),
            second_ms,
        ).total_tokens == n,
        !feed(
            ApiKind::Anthropic,
            feed(ApiKind::Anthropic, p, data_line(first), first_ms),
            data_line(second),
            second_ms,
        ).done,
{
    law_data_line_keeps_reading(ApiKind::Anthropic, p, first, first_ms);
    law_message_delta_reports_count(
        feed(ApiKind::Anthropic, p, data_line(first), first_ms),
        second,
        n,
        second_ms,
    );
}

/// A chunk never moves a time to first token that is already set; before,
/// the chunk either sets it to its own arrival time or leaves it 0.
pub proof fn law_chunk_keeps_first_token_time(api: ApiKind, p: Progress, bytes: Seq<u8>, elapsed_ms: u64)
    ensures
        p.ttft_ms != 0 ==> chunk_progress(api, p, bytes, elapsed_ms).ttft_ms == p.ttft_ms,
        p.ttft_ms == 0 ==> chunk_progress(api, p, bytes, elapsed_ms).ttft_ms == 0 || chunk_progress(
            api,
            p,
            bytes,
            elapsed_ms,
        ).ttft_ms == elapsed_ms,
{
    if valid_utf8(bytes) {
        law_first_token_time_kept(api, p, decode_utf8(bytes), elapsed_ms);
    }
}

} // verus!
