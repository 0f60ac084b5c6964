//! The request executor's configuration and decision logic: an immutable
//! client value built in builder style, the exponential-backoff policy with
//! jitter, the error-classification rules, and the per-attempt retry
//! decision the transport loop follows.

use vstd::arithmetic::power2::{lemma2_to64, lemma_pow2_strictly_increases, pow2};
use vstd::prelude::*;
use vstd::string::StringExecFns;

use crate::error::{AnthropicError, ApiErrorResponse};
use crate::messages::{pairs_view, MessageResponse};
use crate::text::{dec_digits, u64_to_decimal_string};
use crate::trusted::{parse_url, random_u64, spec_str_contains, str_contains};

verus! {

/// Timeout applied to each attempt, in seconds, unless overridden.
pub const DEFAULT_TIMEOUT_SECONDS: u64 = 60;

/// Retries allowed after the first attempt, unless overridden.
pub const DEFAULT_MAX_RETRIES: u32 = 10;

/// Backoff before the second attempt, in milliseconds.
pub const INITIAL_RETRY_DELAY_MS: u64 = 1000;

/// Hard ceiling on any backoff delay, in milliseconds.
pub const MAX_RETRY_DELAY_MS: u64 = 60000;

/// Jitter added to a backoff delay is drawn from `[0, JITTER_RANGE_MS)`.
pub const JITTER_RANGE_MS: u64 = 1000;

/// How the credential travels: as an API key header or as a bearer token.
#[derive(Clone, Copy, Debug, PartialEq, Eq, Structural)]
pub enum AuthMode {
    ApiKey,
    Bearer,
}

/// The immutable configuration of the request executor. Builder methods
/// consume the value and return an updated one; nothing is shared.
#[derive(Debug)]
pub struct AnthropicClient {
    pub api_key: String,
    pub base_url: String,
    pub api_version: String,
    pub timeout: u64,
    pub max_retries: u32,
    pub auth_mode: AuthMode,
    pub extra_headers: Vec<(String, String)>,
}

impl AnthropicClient {
    /// A client for the default endpoint and protocol version, with the
    /// given credential sent as an API key.
    pub fn new(api_key: &str) -> (r: AnthropicClient)
        ensures
            r.api_key@ == api_key@,
            r.base_url@ == "https://api.anthropic.com"@,
            r.api_version@ == "2023-06-01"@,
            r.timeout == DEFAULT_TIMEOUT_SECONDS,
            r.max_retries == DEFAULT_MAX_RETRIES,
            r.auth_mode == AuthMode::ApiKey,
            r.extra_headers@.len() == 0,
    {
        AnthropicClient {
            api_key: api_key.to_owned(),
            base_url: "https://api.anthropic.com".to_owned(),
            api_version: "2023-06-01".to_owned(),
            timeout: DEFAULT_TIMEOUT_SECONDS,
            max_retries: DEFAULT_MAX_RETRIES,
            auth_mode: AuthMode::ApiKey,
            extra_headers: Vec::new(),
        }
    }

    /// Override the base endpoint.
    pub fn with_base_url(self, base_url: &str) -> (r: Self)
        ensures
            r.base_url@ == base_url@,
            r == (AnthropicClient { base_url: r.base_url, ..self }),
    {
        AnthropicClient { base_url: base_url.to_owned(), ..self }
    }

    /// Override the protocol version tag.
    pub fn with_api_version(self, api_version: &str) -> (r: Self)
        ensures
            r.api_version@ == api_version@,
            r == (AnthropicClient { api_version: r.api_version, ..self }),
    {
        AnthropicClient { api_version: api_version.to_owned(), ..self }
    }

    /// Override the per-attempt timeout, in seconds.
    pub fn with_timeout(self, timeout: u64) -> (r: Self)
        ensures
            r == (AnthropicClient { timeout: timeout, ..self }),
    {
        AnthropicClient { timeout, ..self }
    }

    /// Override how many retries follow the first attempt.
    pub fn with_max_retries(self, max_retries: u32) -> (r: Self)
        ensures
            r == (AnthropicClient { max_retries: max_retries, ..self }),
    {
        AnthropicClient { max_retries, ..self }
    }

    /// Send the credential as a bearer token instead of an API key.
    pub fn with_oauth(self) -> (r: Self)
        ensures
            r == (AnthropicClient { auth_mode: AuthMode::Bearer, ..self }),
    {
        AnthropicClient { auth_mode: AuthMode::Bearer, ..self }
    }

    /// Add one extra header; later additions win over earlier ones and over
    /// the built-in headers when keys collide.
    pub fn with_header(self, key: &str, value: &str) -> (r: Self)
        ensures
            pairs_view(r.extra_headers@) == pairs_view(self.extra_headers@).push((key@, value@)),
            r.api_key == self.api_key,
            r.base_url == self.base_url,
            r.api_version == self.api_version,
            r.timeout == self.timeout,
            r.max_retries == self.max_retries,
            r.auth_mode == self.auth_mode,
    {
        let mut extra_headers = self.extra_headers;
        extra_headers.push((key.to_owned(), value.to_owned()));
        let r = AnthropicClient { extra_headers, ..self };
        proof {
            assert(pairs_view(r.extra_headers@) =~= pairs_view(self.extra_headers@).push(
                (key@, value@),
            ));
        }
        r
    }

    /// Add several extra headers at once, in the order given.
    pub fn with_headers(self, headers: Vec<(String, String)>) -> (r: Self)
        ensures
            r.extra_headers@ == self.extra_headers@ + headers@,
            r.api_key == self.api_key,
            r.base_url == self.base_url,
            r.api_version == self.api_version,
            r.timeout == self.timeout,
            r.max_retries == self.max_retries,
            r.auth_mode == self.auth_mode,
    {
        let mut extra_headers = self.extra_headers;
        let mut headers = headers;
        extra_headers.append(&mut headers);
        AnthropicClient { extra_headers, ..self }
    }
}

// ---------------------------------------------------------------------------
// Backoff policy.
// ---------------------------------------------------------------------------

/// The backoff delay after the failure of zero-based attempt `attempt`, with
/// the given jitter: exponential growth from the initial delay, clipped at
/// the ceiling.
pub open spec fn spec_retry_delay(attempt: nat, jitter: nat) -> nat {
    let raw = INITIAL_RETRY_DELAY_MS as nat * pow2(attempt) + jitter;
    if raw <= MAX_RETRY_DELAY_MS as nat {
        raw
    } else {
        MAX_RETRY_DELAY_MS as nat
    }
}

/// The backoff delay for an attempt with a jitter already drawn.
pub fn retry_delay_with_jitter(attempt: u32, jitter: u64) -> (r: u64)
    requires
        jitter < JITTER_RANGE_MS,
    ensures
        r as nat == spec_retry_delay(attempt as nat, jitter as nat),
{
    if attempt >= 6 {
        proof {
            lemma2_to64();
            if attempt > 6 {
                lemma_pow2_strictly_increases(6, attempt as nat);
            }
            assert(pow2(attempt as nat) >= 64);
        }
        MAX_RETRY_DELAY_MS
    } else {
        let mut base: u64 = INITIAL_RETRY_DELAY_MS;
        let mut k: u32 = 0;
        proof {
            lemma2_to64();
        }
        while k < attempt
            invariant
                k <= attempt < 6,
                base as nat == INITIAL_RETRY_DELAY_MS as nat * pow2(k as nat),
                base <= 32000,
            decreases attempt - k,
        {
            proof {
                lemma2_to64();
                if k as nat + 1 < 5 {
                    lemma_pow2_strictly_increases(k as nat + 1, 5);
                }
                assert(pow2(k as nat + 1) <= 32);
            }
            base = base * 2;
            k = k + 1;
        }
        base + jitter
    }
}

/// The backoff delay after the failure of attempt `attempt`, with fresh
/// jitter. The result is always the policy's delay for some jitter below
/// the jitter range, and never exceeds the ceiling.
pub fn calculate_retry_delay(attempt: u32) -> (r: u64)
    ensures
        exists|j: nat| j < JITTER_RANGE_MS && r as nat == spec_retry_delay(attempt as nat, j),
        r <= MAX_RETRY_DELAY_MS,
{
    let jitter = random_u64() % JITTER_RANGE_MS;
    let r = retry_delay_with_jitter(attempt, jitter);
    proof {
        assert((jitter as nat) < JITTER_RANGE_MS && r as nat == spec_retry_delay(
            attempt as nat,
            jitter as nat,
        ));
    }
    r
}

/// Without jitter the delay grows monotonically with the attempt index and
/// never exceeds the ceiling; with any fixed jitter the same holds.
pub proof fn lemma_backoff_monotone(a1: nat, a2: nat, j: nat)
    requires
        a1 <= a2,
    ensures
        spec_retry_delay(a1, j) <= spec_retry_delay(a2, j),
        spec_retry_delay(a2, j) <= MAX_RETRY_DELAY_MS as nat,
{
    if a1 < a2 {
        lemma_pow2_strictly_increases(a1, a2);
    }
}

// ---------------------------------------------------------------------------
// Error classification and the per-attempt retry decision.
// ---------------------------------------------------------------------------

/// Which errors a retry may cure: provider overload and generic provider
/// faults, rate limiting, and transport failures that look like timeouts or
/// connection problems. Everything else is terminal.
pub open spec fn spec_is_retryable(e: AnthropicError) -> bool {
    match e {
        AnthropicError::ApiError { error_type, message } => error_type@ == "overloaded_error"@
            || error_type@ == "api_error"@,
        AnthropicError::RateLimit => true,
        AnthropicError::HttpClient(msg) => spec_str_contains(msg@, "timeout"@)
            || spec_str_contains(msg@, "connection"@),
        _ => false,
    }
}

impl AnthropicClient {
    /// True exactly when a retry may cure the error.
    pub fn is_retryable_error(error: &AnthropicError) -> (r: bool)
        ensures
            r == spec_is_retryable(*error),
    {
        match error {
            AnthropicError::ApiError { error_type, message: _ } => {
                let overloaded: String = "overloaded_error".to_owned();
                let api: String = "api_error".to_owned();
                *error_type == overloaded || *error_type == api
            },
            AnthropicError::RateLimit => true,
            AnthropicError::HttpClient(msg) => str_contains(msg.as_str(), "timeout")
                || str_contains(msg.as_str(), "connection"),
            _ => false,
        }
    }
}

/// What the transport loop must do after one attempt: hand the outcome back
/// to the caller, or sleep for a delay and try again.
#[derive(Debug)]
pub enum RetryStep {
    Done(Result<MessageResponse, AnthropicError>),
    Backoff(u64),
}

impl AnthropicClient {
    /// Decide what follows the outcome of zero-based attempt `attempt`: a
    /// success or a terminal error is final, as is any error once the retry
    /// budget is spent; a retryable error inside the budget asks for a
    /// backoff of the policy's delay.
    pub fn next_retry_step(&self, attempt: u32, outcome: Result<MessageResponse, AnthropicError>)
        -> (r: RetryStep)
        ensures
            outcome matches Ok(_) ==> r == RetryStep::Done(outcome),
            outcome matches Err(e) && !spec_is_retryable(e) ==> r == RetryStep::Done(outcome),
            outcome matches Err(e) && spec_is_retryable(e) && attempt >= self.max_retries ==> r
                == RetryStep::Done(outcome),
            outcome matches Err(e) && spec_is_retryable(e) && attempt < self.max_retries ==> (
            r matches RetryStep::Backoff(d) && d <= MAX_RETRY_DELAY_MS && exists|j: nat|
                j < JITTER_RANGE_MS && d as nat == spec_retry_delay(attempt as nat, j)),
    {
        match outcome {
            Ok(resp) => RetryStep::Done(Ok(resp)),
            Err(e) => {
                if attempt < self.max_retries && Self::is_retryable_error(&e) {
                    RetryStep::Backoff(calculate_retry_delay(attempt))
                } else {
                    RetryStep::Done(Err(e))
                }
            },
        }
    }
}

/// The whole retry loop as a function of the attempts' outcomes: starting at
/// zero-based attempt `attempt`, consume one outcome per attempt and stop at
/// the first success, the first terminal error, or the end of the budget.
/// Yields how many attempts ran and the final outcome; `None` when the
/// outcome sequence is too short to reach a decision.
pub open spec fn spec_retry_run(
    max_retries: nat,
    attempt: nat,
    outcomes: Seq<Result<MessageResponse, AnthropicError>>,
) -> Option<(nat, Result<MessageResponse, AnthropicError>)>
    decreases outcomes.len(),
{
    if outcomes.len() == 0 {
        None
    } else {
        match outcomes[0] {
            Ok(resp) => Some((1 as nat, outcomes[0])),
            Err(e) => if !spec_is_retryable(e) || attempt >= max_retries {
                Some((1 as nat, outcomes[0]))
            } else {
                match spec_retry_run(max_retries, attempt + 1, outcomes.drop_first()) {
                    None => None,
                    Some((n, res)) => Some(((n + 1) as nat, res)),
                }
            },
        }
    }
}

/// Exhausting the budget on persistently retryable errors makes exactly
/// `max_retries + 1` attempts counting from attempt `attempt`, and returns
/// the last error observed, not a substitute.
pub proof fn lemma_retry_exhaustion(
    max_retries: nat,
    attempt: nat,
    outcomes: Seq<Result<MessageResponse, AnthropicError>>,
)
    requires
        attempt <= max_retries,
        outcomes.len() == max_retries - attempt + 1,
        forall|i: int|
            0 <= i < outcomes.len() ==> ((#[trigger] outcomes[i]) matches Err(e)
                && spec_is_retryable(e)),
    ensures
        spec_retry_run(max_retries, attempt, outcomes) == Some(
            ((max_retries - attempt + 1) as nat, outcomes.last()),
        ),
    decreases outcomes.len(),
{
    if attempt < max_retries {
        lemma_retry_exhaustion(max_retries, attempt + 1, outcomes.drop_first());
        assert(outcomes.drop_first().last() == outcomes.last());
    }
}

/// A terminal (non-retryable) error ends the run on the very attempt that
/// produced it: one attempt, that same error, no retries.
pub proof fn lemma_nonretryable_returns_first(
    max_retries: nat,
    outcomes: Seq<Result<MessageResponse, AnthropicError>>,
)
    requires
        outcomes.len() >= 1,
        outcomes[0] matches Err(e) && !spec_is_retryable(e),
    ensures
        spec_retry_run(max_retries, 0, outcomes) == Some((1 as nat, outcomes[0])),
{
}

// ---------------------------------------------------------------------------
// Request preparation: URL, headers, response classification.
// ---------------------------------------------------------------------------

/// The credential header for the configured authentication mode.
pub open spec fn spec_credential_header(c: AnthropicClient) -> (Seq<char>, Seq<char>) {
    match c.auth_mode {
        AuthMode::ApiKey => ("x-api-key"@, c.api_key@),
        AuthMode::Bearer => ("authorization"@, "Bearer "@ + c.api_key@),
    }
}

/// Every header of a request, in order: the credential, the protocol
/// version, the content type, then the configured extras. A consumer that
/// applies them in order gives later entries the last word on collisions.
pub open spec fn spec_headers(c: AnthropicClient) -> Seq<(Seq<char>, Seq<char>)> {
    seq![
        spec_credential_header(c),
        ("anthropic-version"@, c.api_version@),
        ("content-type"@, "application/json"@),
    ] + pairs_view(c.extra_headers@)
}

impl AnthropicClient {
    /// Assemble the headers of one request attempt.
    pub fn build_headers(&self) -> (h: Vec<(String, String)>)
        ensures
            pairs_view(h@) == spec_headers(*self),
    {
        let mut h: Vec<(String, String)> = Vec::new();
        match self.auth_mode {
            AuthMode::ApiKey => {
                h.push(("x-api-key".to_owned(), self.api_key.clone()));
            },
            AuthMode::Bearer => {
                let mut token = "Bearer ".to_owned();
                token.append(self.api_key.as_str());
                h.push(("authorization".to_owned(), token));
            },
        }
        h.push(("anthropic-version".to_owned(), self.api_version.clone()));
        h.push(("content-type".to_owned(), "application/json".to_owned()));
        let mut i: usize = 0;
        while i < self.extra_headers.len()
            invariant
                i <= self.extra_headers.len(),
                h@.len() == 3 + i,
                pairs_view(h@) =~= spec_headers(*self).take(3 + i as int),
            decreases self.extra_headers.len() - i,
        {
            h.push((self.extra_headers[i].0.clone(), self.extra_headers[i].1.clone()));
            proof {
                assert(pairs_view(h@) =~= spec_headers(*self).take(3 + i as int + 1));
            }
            i = i + 1;
        }
        proof {
            assert(spec_headers(*self).take(spec_headers(*self).len() as int) =~= spec_headers(
                *self,
            ));
            assert(pairs_view(h@) =~= spec_headers(*self));
        }
        h
    }

    /// The URL every request goes to: `{base}/v1/messages`, parsed and
    /// validated. It succeeds exactly when that string is a valid URL; on a
    /// malformed one, the error names the string that failed to parse.
    pub fn build_messages_url(&self) -> (r: Result<url::Url, AnthropicError>)
        ensures
            r is Ok <==> crate::trusted::spec_url_ok(self.base_url@ + "/v1/messages"@),
            r matches Err(e) ==> e matches AnthropicError::InvalidResponse(m) && m@
                == "Invalid URL: "@ + self.base_url@ + "/v1/messages"@,
    {
        let mut u = self.base_url.clone();
        u.append("/v1/messages");
        match parse_url(u.as_str()) {
            Option::Some(parsed) => Ok(parsed),
            Option::None => {
                let mut m = "Invalid URL: ".to_owned();
                m.append(u.as_str());
                Err(AnthropicError::InvalidResponse(m))
            },
        }
    }
}

/// True for the HTTP status codes that carry a success body.
pub fn is_success_status(status: u16) -> (r: bool)
    ensures
        r == (200 <= status < 300),
{
    200 <= status && status < 300
}

/// Turn the parse attempt of a success body into the executor's outcome:
/// the parsed response as it stands, or a decoding error naming the parse
/// failure.
pub fn accept_success_body(parsed: Option<MessageResponse>, parse_error_text: &str) -> (r: Result<
    MessageResponse,
    AnthropicError,
>)
    ensures
        parsed matches Some(resp) ==> r == Ok::<MessageResponse, AnthropicError>(resp),
        parsed is None ==> (r matches Err(e) && e matches AnthropicError::Deserialization(m) && m@
            == "Failed to parse response: "@ + parse_error_text@),
{
    match parsed {
        Option::Some(resp) => Ok(resp),
        Option::None => {
            let mut m = "Failed to parse response: ".to_owned();
            m.append(parse_error_text);
            Err(AnthropicError::Deserialization(m))
        },
    }
}

impl AnthropicClient {
    /// A request holding one plain-text user message.
    pub fn create_simple_message(&self, model: &str, prompt: &str, max_tokens: u32) -> (r:
        crate::messages::CreateMessageRequest)
        ensures
            r.model@ == model@,
            crate::messages::messages_view(r.messages@) == seq![
                crate::messages::MessageView {
                    role: crate::messages::Role::User,
                    content: crate::messages::ContentView::Text(prompt@),
                },
            ],
            r.max_tokens == max_tokens,
            r.system is None,
            r.metadata is None,
            r.stop_sequences is None,
            r.stream == Some(false),
            r.temperature is None,
            r.top_p is None,
            r.top_k is None,
            r.tools is None,
            r.tool_choice is None,
    {
        let mut messages: Vec<crate::messages::Message> = Vec::new();
        messages.push(
            crate::messages::Message {
                role: crate::messages::Role::User,
                content: crate::messages::Content::Text(prompt.to_owned()),
            },
        );
        let r = crate::messages::CreateMessageRequest::new(model, messages, max_tokens);
        proof {
            assert(crate::messages::messages_view(r.messages@) =~= seq![
                crate::messages::MessageView {
                    role: crate::messages::Role::User,
                    content: crate::messages::ContentView::Text(prompt@),
                },
            ]);
        }
        r
    }
}

/// The text of a response's first content block: the text itself when the
/// first block is text, an error when it is a tool invocation or the
/// response is empty.
pub fn first_response_text(response: &MessageResponse) -> (r: Result<String, AnthropicError>)
    ensures
        response.content@.len() == 0 ==> (r matches Err(e) && e
            matches AnthropicError::InvalidResponse(m) && m@ == "Empty response content"@),
        response.content@.len() > 0 ==> match response.content@[0] {
            crate::messages::ResponseContentBlock::Text { text, .. } => r == Ok::<
                String,
                AnthropicError,
            >(text),
            crate::messages::ResponseContentBlock::ToolUse { .. } => (r matches Err(e) && e
                matches AnthropicError::InvalidResponse(m) && m@ == "Expected text response"@),
        },
{
    if response.content.len() == 0 {
        Err(AnthropicError::InvalidResponse("Empty response content".to_owned()))
    } else {
        match &response.content[0] {
            crate::messages::ResponseContentBlock::Text { text, citations: _ } => Ok(text.clone()),
            crate::messages::ResponseContentBlock::ToolUse { .. } => Err(
                AnthropicError::InvalidResponse("Expected text response".to_owned()),
            ),
        }
    }
}

/// Classify a non-success response: a structured error body becomes an API
/// error carrying the provider's own type and message; anything else
/// degrades to a raw error carrying the status and the body text.
pub fn classify_error_body(status: u16, parsed: Option<ApiErrorResponse>, body_text: &str) -> (r:
    AnthropicError)
    ensures
        parsed matches Some(er) ==> r == (AnthropicError::ApiError {
            error_type: er.error.error_type,
            message: er.error.message,
        }),
        parsed is None ==> (r matches AnthropicError::InvalidResponse(m) && m@
            == "API returned status "@ + dec_digits(status as nat) + ": "@ + body_text@),
{
    match parsed {
        Option::Some(er) => AnthropicError::ApiError {
            error_type: er.error.error_type,
            message: er.error.message,
        },
        Option::None => {
            let mut m = "API returned status ".to_owned();
            let digits = u64_to_decimal_string(status as u64);
            m.append(digits.as_str());
            m.append(": ");
            m.append(body_text);
            AnthropicError::InvalidResponse(m)
        },
    }
}

} // verus!
