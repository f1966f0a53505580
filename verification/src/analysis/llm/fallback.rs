//! Multi-provider fallback chain: error classification and the retry/fallback decisions.
use vstd::prelude::*;
use crate::analysis::engine::LlmConfig;
use crate::analysis::llm::LlmResponse;
use vstd::utf8::is_ascii_chars;
use crate::text::{ascii_lowered, contains_seq, contains_str, lowercase, to_chars, to_lowercase};
use vstd::string::StringExecFns;

verus! {

/// What a run of the fallback chain produced: the response if one came, the index of the
/// provider that answered or was tried last, the number of requests made and each
/// provider's errors.
#[derive(Debug)]
pub struct FallbackResult {
    pub response: Option<LlmResponse>,
    pub provider_index: usize,
    pub total_attempts: u32,
    pub errors: Vec<(usize, String)>,
}

/// Classification of an LLM request error.
#[derive(Debug, Clone, Copy, PartialEq, Eq, Structural)]
pub enum LlmErrorKind {
    /// Rate limit or server error: retry the same provider, then fall back.
    Transient,
    /// Authentication or malformed request: skip the provider.
    Permanent,
    /// Connection or DNS failure: fall back at once.
    Network,
}

/// The kind of an error, judged from its lower-cased message.
pub open spec fn error_kind_of(l: Seq<char>) -> LlmErrorKind {
    if contains_seq(l, "401"@) || contains_seq(l, "403"@) || contains_seq(l, "unauthorized"@)
        || contains_seq(l, "forbidden"@) {
        LlmErrorKind::Permanent
    } else if contains_seq(l, "400"@) || contains_seq(l, "bad request"@) || contains_seq(
        l,
        "invalid request"@,
    ) {
        LlmErrorKind::Permanent
    } else if contains_seq(l, "429"@) || contains_seq(l, "rate limit"@) || contains_seq(
        l,
        "too many requests"@,
    ) {
        LlmErrorKind::Transient
    } else if contains_seq(l, "500"@) || contains_seq(l, "502"@) || contains_seq(l, "503"@)
        || contains_seq(l, "504"@) || contains_seq(l, "server error"@) || contains_seq(
        l,
        "internal error"@,
    ) {
        LlmErrorKind::Transient
    } else if contains_seq(l, "connection refused"@) || contains_seq(l, "dns"@) || contains_seq(
        l,
        "timeout"@,
    ) || contains_seq(l, "connect error"@) || contains_seq(l, "network"@) {
        LlmErrorKind::Network
    } else {
        LlmErrorKind::Transient
    }
}

/// Classifies an LLM error message (case-insensitively); unknown errors count as transient.
pub fn classify_error(error: &str) -> (r: LlmErrorKind)
    ensures
        r == error_kind_of(lowercase(error@)),
        is_ascii_chars(error@) ==> r == error_kind_of(ascii_lowered(error@)),
{
    let lower = to_lowercase(error);
    let l = to_chars(lower.as_str());
    if contains_str(&l, "401") || contains_str(&l, "403") || contains_str(&l, "unauthorized")
        || contains_str(&l, "forbidden") {
        return LlmErrorKind::Permanent;
    }
    if contains_str(&l, "400") || contains_str(&l, "bad request") || contains_str(
        &l,
        "invalid request",
    ) {
        return LlmErrorKind::Permanent;
    }
    if contains_str(&l, "429") || contains_str(&l, "rate limit") || contains_str(
        &l,
        "too many requests",
    ) {
        return LlmErrorKind::Transient;
    }
    if contains_str(&l, "500") || contains_str(&l, "502") || contains_str(&l, "503")
        || contains_str(&l, "504") || contains_str(&l, "server error") || contains_str(
        &l,
        "internal error",
    ) {
        return LlmErrorKind::Transient;
    }
    if contains_str(&l, "connection refused") || contains_str(&l, "dns") || contains_str(
        &l,
        "timeout",
    ) || contains_str(&l, "connect error") || contains_str(&l, "network") {
        return LlmErrorKind::Network;
    }
    LlmErrorKind::Transient
}

/// Default retries per provider.
pub fn default_max_retries() -> (r: u32)
    ensures
        r == 2,
{
    2
}

/// Default request timeout in seconds.
pub fn default_timeout_secs() -> (r: u64)
    ensures
        r == 60,
{
    60
}

/// Fallback chain configuration: providers in priority order.
#[derive(Debug)]
pub struct FallbackConfig {
    pub chain: Vec<LlmConfig>,
    pub max_retries_per_provider: u32,
    pub timeout_secs: u64,
}

impl Default for FallbackConfig {
    fn default() -> (r: Self)
        ensures
            r.chain@.len() == 0,
            r.max_retries_per_provider == 2,
            r.timeout_secs == 60,
    {
        FallbackConfig {
            chain: Vec::new(),
            max_retries_per_provider: default_max_retries(),
            timeout_secs: default_timeout_secs(),
        }
    }
}

impl FallbackConfig {
    /// A chain of just `config`, with the default retry count and timeout.
    pub fn from_single(config: LlmConfig) -> (r: Self)
        ensures
            r.chain@ == seq![config],
            r.max_retries_per_provider == 2,
            r.timeout_secs == 60,
    {
        let mut chain = Vec::new();
        chain.push(config);
        FallbackConfig {
            chain,
            max_retries_per_provider: default_max_retries(),
            timeout_secs: default_timeout_secs(),
        }
    }
}

impl Clone for FallbackConfig {
    fn clone(&self) -> (r: Self)
        ensures
            r.chain@ == self.chain@,
            r.max_retries_per_provider == self.max_retries_per_provider,
            r.timeout_secs == self.timeout_secs,
    {
        let mut chain: Vec<LlmConfig> = Vec::new();
        let mut i: usize = 0;
        while i < self.chain.len()
            invariant
                i <= self.chain@.len(),
                chain@ == self.chain@.take(i as int),
            decreases self.chain.len() - i,
        {
            chain.push(self.chain[i].clone());
            assert(chain@ =~= self.chain@.take(i + 1));
            i += 1;
        }
        assert(chain@ =~= self.chain@);
        FallbackConfig {
            chain,
            max_retries_per_provider: self.max_retries_per_provider,
            timeout_secs: self.timeout_secs,
        }
    }
}

/// What the fallback chain asks its driver to do next.
#[derive(Debug)]
pub enum FallbackAction {
    /// Send the request to provider `provider` after waiting `delay_secs` seconds.
    Call { provider: usize, delay_secs: u64 },
    /// Stop and report this error.
    GiveUp(String),
}

/// The wait before the `retry`-th retry of a provider: 1, 2, 4, 8, then 16 seconds.
pub open spec fn retry_delay_secs(retry: int) -> u64 {
    if retry <= 1 {
        1
    } else if retry == 2 {
        2
    } else if retry == 3 {
        4
    } else if retry == 4 {
        8
    } else {
        16
    }
}

/// Progress through a fallback chain of `providers` providers.
#[derive(Debug)]
pub struct FallbackState {
    pub providers: usize,
    pub max_retries: u32,
    /// The provider being tried.
    pub provider: usize,
    /// 0 for the first attempt at `provider`, k for its k-th retry.
    pub retry: u32,
    pub last_error: String,
    pub finished: bool,
}

/// The message reported when an empty chain is run.
pub open spec fn empty_chain_message() -> Seq<char> {
    "降级链为空，无可用 LLM 客户端"@
}

/// The message reported when every provider failed, ending with the last error.
pub open spec fn exhausted_message(last_error: Seq<char>) -> Seq<char> {
    "所有供应商均失败，最后一个错误: "@ + last_error
}

impl FallbackState {
    /// The state is consistent: while running, it points at a provider of the chain and has
    /// not retried more than allowed.
    pub open spec fn wf(&self) -> bool {
        &&& !self.finished ==> self.provider < self.providers
        &&& self.retry <= self.max_retries
    }

    /// Calls that the chain may still make after the current one.
    pub open spec fn calls_left(&self) -> int {
        (self.providers - self.provider - 1) * (self.max_retries + 1) + (self.max_retries
            - self.retry)
    }

    /// After a failure with this error the chain leaves the current provider: the first
    /// attempt failed with a non-transient error (or no retries are allowed), or the
    /// retries are used up.
    pub open spec fn leaves_provider(&self, error: Seq<char>) -> bool {
        if self.retry == 0 {
            !(error_kind_of(lowercase(error)) == LlmErrorKind::Transient && self.max_retries > 0)
        } else {
            self.retry >= self.max_retries
        }
    }

    /// Starts a chain of `providers` providers: call the first one at once, or give up when
    /// there is none.
    pub fn start(providers: usize, max_retries: u32) -> (r: (FallbackState, FallbackAction))
        ensures
            r.0.wf(),
            r.0.providers == providers,
            r.0.max_retries == max_retries,
            r.0.provider == 0,
            r.0.retry == 0,
            providers == 0 ==> r.0.finished && (match r.1 {
                FallbackAction::GiveUp(m) => m@ == empty_chain_message(),
                _ => false,
            }),
            providers > 0 ==> !r.0.finished && (match r.1 {
                FallbackAction::Call { provider, delay_secs } => provider == 0 && delay_secs == 0,
                _ => false,
            }),
    {
        let state = FallbackState {
            providers,
            max_retries,
            provider: 0,
            retry: 0,
            last_error: String::new(),
            finished: providers == 0,
        };
        if providers == 0 {
            (state, FallbackAction::GiveUp(String::from_str("降级链为空，无可用 LLM 客户端")))
        } else {
            (state, FallbackAction::Call { provider: 0, delay_secs: 0 })
        }
    }

    /// Decides what to do after the current call failed with `error`: retry the same provider
    /// (a transient first failure, or retries left), move to the next provider, or give up.
    pub fn on_failure(&mut self, error: String) -> (a: FallbackAction)
        requires
            old(self).wf(),
            !old(self).finished,
        ensures
            final(self).wf(),
            final(self).providers == old(self).providers,
            final(self).max_retries == old(self).max_retries,
            final(self).last_error@ == error@,
            !old(self).leaves_provider(error@) ==> {
                &&& !final(self).finished
                &&& final(self).provider == old(self).provider
                &&& final(self).retry == old(self).retry + 1
                &&& a == FallbackAction::Call {
                    provider: old(self).provider,
                    delay_secs: retry_delay_secs(old(self).retry + 1),
                }
            },
            old(self).leaves_provider(error@) && old(self).provider + 1 < old(self).providers ==> {
                &&& !final(self).finished
                &&& final(self).provider == old(self).provider + 1
                &&& final(self).retry == 0
                &&& a == FallbackAction::Call { provider: (old(self).provider + 1) as usize, delay_secs: 0 }
            },
            old(self).leaves_provider(error@) && old(self).provider + 1 >= old(self).providers ==> {
                &&& final(self).finished
                &&& match a {
                    FallbackAction::GiveUp(m) => m@ == exhausted_message(error@),
                    _ => false,
                }
            },
            a is Call ==> final(self).calls_left() < old(self).calls_left(),
    {
        let first = self.retry == 0;
        let transient = if first {
            match classify_error(error.as_str()) {
                LlmErrorKind::Transient => true,
                _ => false,
            }
        } else {
            false
        };
        let stay = if first {
            transient && self.max_retries > 0
        } else {
            self.retry < self.max_retries
        };
        let msg_tail = error.clone();
        self.last_error = error;
        if stay {
            self.retry = self.retry + 1;
            let delay: u64 = if self.retry <= 1 {
                1
            } else if self.retry == 2 {
                2
            } else if self.retry == 3 {
                4
            } else if self.retry == 4 {
                8
            } else {
                16
            };
            FallbackAction::Call { provider: self.provider, delay_secs: delay }
        } else if self.provider + 1 < self.providers {
            self.provider = self.provider + 1;
            self.retry = 0;
            proof {
                lemma_next_provider_costs_less(
                    self.providers as int,
                    old(self).provider as int,
                    self.max_retries as int,
                    old(self).retry as int,
                );
            }
            FallbackAction::Call { provider: self.provider, delay_secs: 0 }
        } else {
            self.finished = true;
            let mut msg = String::from_str("所有供应商均失败，最后一个错误: ");
            msg.append(msg_tail.as_str());
            FallbackAction::GiveUp(msg)
        }
    }
}

proof fn lemma_next_provider_costs_less(n: int, p: int, m: int, r: int)
    requires
        0 <= r <= m,
    ensures
        (n - (p + 1) - 1) * (m + 1) + (m - 0) < (n - p - 1) * (m + 1) + (m - r),
{
    assert((n - (p + 1) - 1) * (m + 1) == (n - p - 1) * (m + 1) - (m + 1)) by (nonlinear_arith);
}

/// A running chain never plans more calls than the chain holds providers times the attempts
/// allowed per provider: after the call in progress, at most
/// `providers * (max_retries + 1) - 1` more calls can follow.
pub proof fn lemma_fallback_call_budget(s: FallbackState)
    requires
        s.wf(),
        !s.finished,
    ensures
        0 <= s.calls_left() < s.providers * (s.max_retries + 1),
{
    assert(0 <= s.calls_left() < s.providers * (s.max_retries + 1)) by (nonlinear_arith)
        requires
            s.provider < s.providers,
            s.retry <= s.max_retries,
    ;
}


/// A message with a permanent marker: an authentication or request-format failure.
pub open spec fn names_permanent_failure(l: Seq<char>) -> bool {
    contains_seq(l, "401"@) || contains_seq(l, "403"@) || contains_seq(l, "unauthorized"@)
        || contains_seq(l, "forbidden"@) || contains_seq(l, "400"@) || contains_seq(l, "bad request"@)
        || contains_seq(l, "invalid request"@)
}

/// How error messages are classified (over the lower-cased message): any authentication
/// or request-format marker makes the error permanent; otherwise a rate limit or a server
/// error (HTTP 429, 500, 502, 503, 504, "server error", "internal error") is transient, and
/// is retried, even when the message also mentions a timeout or the network; otherwise a
/// connection, DNS, timeout or network marker makes it a network error; anything else is
/// transient. So a network error is reported only when such a marker occurs.
pub proof fn lemma_error_classification(l: Seq<char>)
    ensures
        names_permanent_failure(l) ==> error_kind_of(l) == LlmErrorKind::Permanent,
        !names_permanent_failure(l) && (contains_seq(l, "429"@) || contains_seq(l, "rate limit"@)
            || contains_seq(l, "too many requests"@) || contains_seq(l, "500"@) || contains_seq(l, "502"@)
            || contains_seq(l, "503"@) || contains_seq(l, "504"@) || contains_seq(l, "server error"@)
            || contains_seq(l, "internal error"@)) ==> error_kind_of(l) == LlmErrorKind::Transient,
        error_kind_of(l) == LlmErrorKind::Network ==> contains_seq(l, "connection refused"@)
            || contains_seq(l, "dns"@) || contains_seq(l, "timeout"@) || contains_seq(l, "connect error"@)
            || contains_seq(l, "network"@),
        error_kind_of(l) == LlmErrorKind::Permanent ==> names_permanent_failure(l),
{
}

} // verus!
