//! What the library reads from, and writes as, JSON. Parsing is serde_json's:
//! the library names which values it reads, at which paths, and builds its
//! own record of them. Writing a string literal follows serde_json's escaping.
use vstd::prelude::*;

verus! {

/// One step of a path into a JSON value: a key of an object, or an index of
/// an array.
pub enum JsonStep {
    Key(String),
    Index(usize),
}

pub enum JsonStepView {
    Key(Seq<char>),
    Index(usize),
}

pub open spec fn step_view(s: JsonStep) -> JsonStepView {
    match s {
        JsonStep::Key(k) => JsonStepView::Key(k@),
        JsonStep::Index(i) => JsonStepView::Index(i),
    }
}

pub open spec fn path_view(p: Seq<JsonStep>) -> Seq<JsonStepView> {
    p.map_values(|s: JsonStep| step_view(s))
}

/// What is found at a path: a string, a non-negative integer that fits in
/// 64 bits, or some other value.
pub enum JsonLeaf {
    Text(String),
    Count(u64),
    Other,
}

pub enum JsonLeafView {
    Text(Seq<char>),
    Count(u64),
    Other,
}

pub open spec fn leaf_view(l: Option<JsonLeaf>) -> Option<JsonLeafView> {
    match l {
        Some(JsonLeaf::Text(s)) => Some(JsonLeafView::Text(s@)),
        Some(JsonLeaf::Count(n)) => Some(JsonLeafView::Count(n)),
        Some(JsonLeaf::Other) => Some(JsonLeafView::Other),
        None => None,
    }
}

/// What serde_json finds in the text `data` at `path`: `None` when `data` is
/// not JSON or holds nothing there.
pub uninterp spec fn json_leaf_at(data: Seq<char>, path: Seq<JsonStepView>) -> Option<JsonLeafView>;

/// Wraps `serde_json::from_str::<serde_json::Value>`, then `Value::get` (by
/// key for a key step, by index for an index step) along `path`, and
/// `Number::as_u64` on a number found there; a string found there is copied.
/// The result is a function of `data` and `path` alone, named
/// [`json_leaf_at`]; nothing is stated of which texts are JSON or what they
/// hold.
#[verifier::external_body]
pub(crate) fn json_leaf(data: &str, path: &[JsonStep]) -> (r: Option<JsonLeaf>)
    ensures
        leaf_view(r) == json_leaf_at(data@, path_view(path@)),
{
    let v: serde_json::Value = serde_json::from_str(data).ok()?;
    let at = path.iter().try_fold(&v, |v, step| match step {
        JsonStep::Key(k) => v.get(k.as_str()),
        JsonStep::Index(i) => v.get(*i),
    })?;
    Some(match at {
        serde_json::Value::String(s) => JsonLeaf::Text(s.clone()),
        serde_json::Value::Number(n) => match n.as_u64() {
            Some(k) => JsonLeaf::Count(k),
            None => JsonLeaf::Other,
        },
        _ => JsonLeaf::Other,
    })
}

/// The string at `path` in `data`, if a string is there.
pub open spec fn text_at(data: Seq<char>, path: Seq<JsonStepView>) -> Option<Seq<char>> {
    match json_leaf_at(data, path) {
        Some(JsonLeafView::Text(s)) => Some(s),
        _ => None,
    }
}

/// The integer at `path` in `data`, if a non-negative one that fits in 64
/// bits is there.
pub open spec fn count_at(data: Seq<char>, path: Seq<JsonStepView>) -> Option<u64> {
    match json_leaf_at(data, path) {
        Some(JsonLeafView::Count(n)) => Some(n),
        _ => None,
    }
}

/// `type` (Anthropic events).
pub open spec fn type_path() -> Seq<JsonStepView> {
    seq![JsonStepView::Key("type"@)]
}

/// `choices[0].delta.content` (OpenAI chunks).
pub open spec fn choice_content_path() -> Seq<JsonStepView> {
    seq![
        JsonStepView::Key("choices"@),
        JsonStepView::Index(0),
        JsonStepView::Key("delta"@),
        JsonStepView::Key("content"@),
    ]
}

/// `usage.completion_tokens` (OpenAI chunks).
pub open spec fn completion_tokens_path() -> Seq<JsonStepView> {
    seq![JsonStepView::Key("usage"@), JsonStepView::Key("completion_tokens"@)]
}

/// `usage.output_tokens` (Anthropic events).
pub open spec fn output_tokens_path() -> Seq<JsonStepView> {
    seq![JsonStepView::Key("usage"@), JsonStepView::Key("output_tokens"@)]
}

/// `delta.text` (Anthropic events).
pub open spec fn delta_text_path() -> Seq<JsonStepView> {
    seq![JsonStepView::Key("delta"@), JsonStepView::Key("text"@)]
}

/// The fields of one server-sent event payload that a speed test looks at.
/// Each is present when the payload is JSON that has a value of that type at
/// that path.
pub struct StreamEvent {
    pub event_type: Option<String>,
    pub choice_content: Option<String>,
    pub completion_tokens: Option<u64>,
    pub output_tokens: Option<u64>,
    pub delta_text: Option<String>,
}

/// The fields of a [`StreamEvent`] as character sequences.
pub struct StreamEventView {
    pub event_type: Option<Seq<char>>,
    pub choice_content: Option<Seq<char>>,
    pub completion_tokens: Option<u64>,
    pub output_tokens: Option<u64>,
    pub delta_text: Option<Seq<char>>,
}

pub open spec fn text_view(o: Option<String>) -> Option<Seq<char>> {
    match o {
        Some(s) => Some(s@),
        None => None,
    }
}

impl View for StreamEvent {
    type V = StreamEventView;

    open spec fn view(&self) -> StreamEventView {
        StreamEventView {
            event_type: text_view(self.event_type),
            choice_content: text_view(self.choice_content),
            completion_tokens: self.completion_tokens,
            output_tokens: self.output_tokens,
            delta_text: text_view(self.delta_text),
        }
    }
}

/// The fields that the payload `data` holds at their paths.
pub open spec fn stream_event_fields(data: Seq<char>) -> StreamEventView {
    StreamEventView {
        event_type: text_at(data, type_path()),
        choice_content: text_at(data, choice_content_path()),
        completion_tokens: count_at(data, completion_tokens_path()),
        output_tokens: count_at(data, output_tokens_path()),
        delta_text: text_at(data, delta_text_path()),
    }
}

/// The string of a leaf, if it is one.
pub fn leaf_text(leaf: Option<JsonLeaf>) -> (r: Option<String>)
    ensures
        text_view(r) == match leaf_view(leaf) {
            Some(JsonLeafView::Text(s)) => Some(s),
            _ => None,
        },
{
    match leaf {
        Some(JsonLeaf::Text(s)) => Some(s),
        _ => None,
    }
}

/// The integer of a leaf, if it is one.
pub fn leaf_count(leaf: Option<JsonLeaf>) -> (r: Option<u64>)
    ensures
        r == match leaf_view(leaf) {
            Some(JsonLeafView::Count(n)) => Some(n),
            _ => None,
        },
{
    match leaf {
        Some(JsonLeaf::Count(n)) => Some(n),
        _ => None,
    }
}

fn key(k: &str) -> (r: JsonStep)
    ensures
        step_view(r) == JsonStepView::Key(k@),
{
    JsonStep::Key(String::from_str(k))
}

proof fn lemma_path_view(p: Seq<JsonStep>, q: Seq<JsonStepView>)
    requires
        p.len() == q.len(),
        forall|i: int| 0 <= i < p.len() ==> step_view(#[trigger] p[i]) == q[i],
    ensures
        path_view(p) == q,
{
    assert(path_view(p) =~= q);
}

/// Reads the fields of a payload from their paths.
pub fn read_stream_event(data: &str) -> (r: StreamEvent)
    ensures
        r@ == stream_event_fields(data@),
{
    let type_steps = vec![key("type")];
    proof {
        lemma_path_view(type_steps@, type_path());
    }
    let content_steps = vec![key("choices"), JsonStep::Index(0), key("delta"), key("content")];
    proof {
        lemma_path_view(content_steps@, choice_content_path());
    }
    let completion_steps = vec![key("usage"), key("completion_tokens")];
    proof {
        lemma_path_view(completion_steps@, completion_tokens_path());
    }
    let output_steps = vec![key("usage"), key("output_tokens")];
    proof {
        lemma_path_view(output_steps@, output_tokens_path());
    }
    let text_steps = vec![key("delta"), key("text")];
    proof {
        lemma_path_view(text_steps@, delta_text_path());
    }
    StreamEvent {
        event_type: leaf_text(json_leaf(data, type_steps.as_slice())),
        choice_content: leaf_text(json_leaf(data, content_steps.as_slice())),
        completion_tokens: leaf_count(json_leaf(data, completion_steps.as_slice())),
        output_tokens: leaf_count(json_leaf(data, output_steps.as_slice())),
        delta_text: leaf_text(json_leaf(data, text_steps.as_slice())),
    }
}

/// The characters that serde_json writes for `c` inside a string literal:
/// `"` and `\` escaped with a backslash, the control characters backspace,
/// tab, line feed, form feed and carriage return as `\b \t \n \f \r`, the
/// other characters below U+0020 as `\u00` and two lower-case hex digits,
/// and every other character as itself.
pub open spec fn json_escape(c: char) -> Seq<char> {
    let u = c as u32;
    let hex = seq!['0', '1', '2', '3', '4', '5', '6', '7', '8', '9', 'a', 'b', 'c', 'd', 'e', 'f'];
    if c == '"' {
        seq!['\\', '"']
    } else if c == '\\' {
        seq!['\\', '\\']
    } else if u == 0x08 {
        seq!['\\', 'b']
    } else if u == 0x09 {
        seq!['\\', 't']
    } else if u == 0x0a {
        seq!['\\', 'n']
    } else if u == 0x0c {
        seq!['\\', 'f']
    } else if u == 0x0d {
        seq!['\\', 'r']
    } else if u < 0x20 {
        seq!['\\', 'u', '0', '0', hex[(u / 16) as int], hex[(u % 16) as int]]
    } else {
        seq![c]
    }
}

/// The escaped contents of a string literal for `s`.
pub open spec fn json_escaped(s: Seq<char>) -> Seq<char>
    decreases s.len(),
{
    if s.len() == 0 {
        Seq::empty()
    } else {
        json_escape(s[0]) + json_escaped(s.drop_first())
    }
}

/// The JSON string literal that serde_json writes for `s`.
pub open spec fn json_string_literal(s: Seq<char>) -> Seq<char> {
    seq!['"'] + json_escaped(s) + seq!['"']
}

/// Wraps `serde_json::to_string` on a `str`: a quote, each character escaped
/// as [`json_escape`] says (serde_json escapes byte by byte, and every byte
/// it escapes is an ASCII character), and a quote. Serialising a `str` into
/// memory does not fail in serde_json (its writer is a `Vec`), so the error
/// arm is never taken.
#[verifier::external_body]
pub(crate) fn json_string(s: &str) -> (r: String)
    ensures
        r@ == json_string_literal(s@),
{
    match serde_json::to_string(s) {
        Ok(t) => t,
        Err(_) => String::new(),
    }
}

} // verus!
