//! The values the tool stores and passes around: endpoint configurations,
//! user settings, and the outcome of testing one endpoint.
use vstd::prelude::*;

verus! {

/// One configured model endpoint.
#[derive(Debug, Clone)]
pub struct ModelConfig {
    pub id: String,
    pub name: String,
    /// `"openai"` or `"anthropic"`; anything else is not testable.
    pub api_type: String,
    pub base_url: String,
    pub api_key: String,
}

/// A [`ModelConfig`] as character sequences.
pub struct ModelConfigView {
    pub id: Seq<char>,
    pub name: Seq<char>,
    pub api_type: Seq<char>,
    pub base_url: Seq<char>,
    pub api_key: Seq<char>,
}

impl View for ModelConfig {
    type V = ModelConfigView;

    open spec fn view(&self) -> ModelConfigView {
        ModelConfigView {
            id: self.id@,
            name: self.name@,
            api_type: self.api_type@,
            base_url: self.base_url@,
            api_key: self.api_key@,
        }
    }
}

/// User settings.
#[derive(Debug, Clone)]
pub struct Settings {
    pub test_interval_minutes: u32,
    pub test_duration_seconds: u32,
    pub notify_on_complete: bool,
    pub fixed_prompt: String,
}

/// The prompt that every model is sent unless the user sets another.
pub open spec fn default_prompt() -> Seq<char> {
    "Say 'Token speed test successful' and count from 1 to 100."@
}

impl Default for Settings {
    fn default() -> (r: Settings)
        ensures
            r.test_interval_minutes == 30,
            r.test_duration_seconds == 60,
            !r.notify_on_complete,
            r.fixed_prompt@ == default_prompt(),
    {
        Settings {
            test_interval_minutes: 30,
            test_duration_seconds: 60,
            notify_on_complete: false,
            fixed_prompt: String::from_str(
                "Say 'Token speed test successful' and count from 1 to 100.",
            ),
        }
    }
}

/// An error reported to the user interface.
#[derive(Debug, Clone)]
pub struct AppError {
    pub message: String,
}

/// What testing one model measured. Times are milliseconds since the test of
/// this model began; `ttft_ms` is 0 when no data event arrived (or arrived
/// within the first millisecond).
#[derive(Debug, Clone)]
pub struct TestOutcome {
    pub model_id: String,
    pub model_name: String,
    pub total_time_ms: u64,
    pub ttft_ms: u64,
    pub total_tokens: u64,
    pub error: Option<String>,
}

impl TestOutcome {
    /// The outcome for `model` after `total_time_ms`, with what the stream
    /// gave (or the zeros and error of a request that never streamed). The
    /// first token came within the test, so no later than its end.
    pub fn new(
        model: &ModelConfig,
        total_time_ms: u64,
        ttft_ms: u64,
        total_tokens: u64,
        error: Option<String>,
    ) -> (r: TestOutcome)
        requires
            ttft_ms <= total_time_ms,
        ensures
            r.ttft_ms <= r.total_time_ms,
            r.model_id@ == model.id@,
            r.model_name@ == model.name@,
            r.total_time_ms == total_time_ms,
            r.ttft_ms == ttft_ms,
            r.total_tokens == total_tokens,
            r.error == error,
    {
        TestOutcome {
            model_id: model.id.clone(),
            model_name: model.name.clone(),
            total_time_ms,
            ttft_ms,
            total_tokens,
            error,
        }
    }

    /// The tokens and milliseconds of which the speed (tokens per second) is
    /// the quotient times 1000; `None` where the speed is reported as zero,
    /// that is when either count is zero.
    pub fn speed_operands(&self) -> (r: Option<(u64, u64)>)
        ensures
            r == (if self.total_tokens > 0 && self.total_time_ms > 0 {
                Some((self.total_tokens, self.total_time_ms))
            } else {
                None
            }),
    {
        if self.total_tokens > 0 && self.total_time_ms > 0 {
            Some((self.total_tokens, self.total_time_ms))
        } else {
            None
        }
    }
}

} // verus!
