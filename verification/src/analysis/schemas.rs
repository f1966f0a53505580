//! Structured-output modes and token budgets.
use vstd::prelude::*;
use crate::analysis::engine::CloudProvider;
use vstd::utf8::is_ascii_chars;
use crate::text::{ascii_lowered, contains_seq, contains_str, lowercase, to_chars, to_lowercase};

verus! {

/// How an LLM's structured output is obtained.
#[derive(Debug, Clone, Copy, PartialEq, Eq, Structural)]
pub enum StructuredOutputMode {
    /// The API returns JSON directly (`response_format: json_object`).
    Native,
    /// Plain text from which a JSON object is extracted.
    TextWithJsonExtract,
    /// Plain text; no structured parsing is attempted.
    RawText,
}

/// Whether a provider/model (model name lower-cased) accepts a JSON response format.
pub open spec fn supports_structured_output_spec(provider: CloudProvider, m: Seq<char>) -> bool {
    match provider {
        CloudProvider::OpenAI => !contains_seq(m, "gpt-3.5"@),
        CloudProvider::Anthropic => true,
        CloudProvider::DeepSeek => !contains_seq(m, "reasoner"@),
        CloudProvider::Qwen | CloudProvider::GLM | CloudProvider::MiniMax => true,
        CloudProvider::Ollama => false,
    }
}

/// The structured-output mode of a provider/model (model name lower-cased): plain text for a
/// local model; JSON extraction when DeepSeek thinks (thinking excludes a JSON response
/// format) or when the model cannot return JSON; native JSON otherwise.
pub open spec fn structured_mode_of(provider: CloudProvider, m: Seq<char>, thinking: bool) -> StructuredOutputMode {
    if provider == CloudProvider::Ollama {
        StructuredOutputMode::RawText
    } else if thinking && provider == CloudProvider::DeepSeek {
        StructuredOutputMode::TextWithJsonExtract
    } else if supports_structured_output_spec(provider, m) {
        StructuredOutputMode::Native
    } else {
        StructuredOutputMode::TextWithJsonExtract
    }
}

/// Whether a model accepts a JSON response format, judged by name alone: reasoner models
/// do not.
pub fn supports_structured_output(model: &str) -> (r: bool)
    ensures
        r == !contains_seq(lowercase(model@), "reasoner"@),
        is_ascii_chars(model@) ==> r == !contains_seq(ascii_lowered(model@), "reasoner"@),
{
    let lower = to_lowercase(model);
    let m = to_chars(lower.as_str());
    !contains_str(&m, "reasoner")
}

/// Whether a provider/model accepts a JSON response format.
pub fn supports_structured_output_for_provider(provider: CloudProvider, model: &str) -> (r: bool)
    ensures
        r == supports_structured_output_spec(provider, lowercase(model@)),
        is_ascii_chars(model@) ==> r == supports_structured_output_spec(provider, ascii_lowered(model@)),
{
    let lower = to_lowercase(model);
    let m = to_chars(lower.as_str());
    match provider {
        CloudProvider::OpenAI => !contains_str(&m, "gpt-3.5"),
        CloudProvider::Anthropic => true,
        CloudProvider::DeepSeek => !contains_str(&m, "reasoner"),
        CloudProvider::Qwen | CloudProvider::GLM | CloudProvider::MiniMax => true,
        CloudProvider::Ollama => false,
    }
}

impl StructuredOutputMode {
    /// The structured-output mode to use for a provider, model and thinking setting.
    pub fn resolve(provider: CloudProvider, model: &str, thinking_enabled: bool) -> (r: Self)
        ensures
            r == structured_mode_of(provider, lowercase(model@), thinking_enabled),
            is_ascii_chars(model@) ==> r == structured_mode_of(provider, ascii_lowered(model@), thinking_enabled),
    {
        if provider == CloudProvider::Ollama {
            StructuredOutputMode::RawText
        } else if thinking_enabled && provider == CloudProvider::DeepSeek {
            StructuredOutputMode::TextWithJsonExtract
        } else if supports_structured_output_for_provider(provider, model) {
            StructuredOutputMode::Native
        } else {
            StructuredOutputMode::TextWithJsonExtract
        }
    }
}

/// Token budget split across one analysis run.
#[derive(Debug, Clone, Copy, PartialEq, Eq, Structural)]
pub struct TokenBudget {
    pub total_tokens: u32,
    pub system_prompt_tokens: u32,
    pub per_dimension_tokens: u32,
    pub debate_tokens: u32,
    pub summary_tokens: u32,
}

impl TokenBudget {
    /// Splits `total_tokens`: 10% system prompt, 20% debate, 10% summary (each rounded
    /// down), and the rest shared equally (rounded down) by the dimensions.
    pub fn allocate(total_tokens: u32, num_dimensions: u32) -> (r: Self)
        ensures
            r.total_tokens == total_tokens,
            r.system_prompt_tokens == total_tokens / 10,
            r.debate_tokens == total_tokens / 5,
            r.summary_tokens == total_tokens / 10,
            r.per_dimension_tokens == (if num_dimensions > 0 {
                (total_tokens - total_tokens / 10 - total_tokens / 5 - total_tokens / 10)
                    / num_dimensions as int
            } else {
                total_tokens - total_tokens / 10 - total_tokens / 5 - total_tokens / 10
            }),
    {
        let system_tokens = total_tokens / 10;
        let debate_tokens = total_tokens / 5;
        let summary_tokens = total_tokens / 10;
        let remaining = total_tokens - system_tokens - debate_tokens - summary_tokens;
        let per_dimension = if num_dimensions > 0 {
            remaining / num_dimensions
        } else {
            remaining
        };
        TokenBudget {
            total_tokens,
            system_prompt_tokens: system_tokens,
            per_dimension_tokens: per_dimension,
            debate_tokens,
            summary_tokens,
        }
    }

    /// The default budget: 100k tokens over seven dimensions.
    pub fn default_budget() -> (r: Self)
        ensures
            r == Self::allocate_spec(100_000, 7),
    {
        Self::allocate(100_000, 7)
    }

    /// The budget that `allocate` produces.
    pub open spec fn allocate_spec(total: u32, n: u32) -> Self {
        let rest = total - total / 10 - total / 5 - total / 10;
        TokenBudget {
            total_tokens: total,
            system_prompt_tokens: (total / 10) as u32,
            per_dimension_tokens: (if n > 0 { rest / n as int } else { rest }) as u32,
            debate_tokens: (total / 5) as u32,
            summary_tokens: (total / 10) as u32,
        }
    }

    /// The parts of the budget, with every dimension's share, never exceed the total.
    pub open spec fn within_total(&self, n: u32) -> bool {
        self.system_prompt_tokens + self.debate_tokens + self.summary_tokens
            + self.per_dimension_tokens * (if n > 0 { n as int } else { 1 }) <= self.total_tokens
    }
}

/// A budget split by `allocate` never hands out more tokens than its total.
pub proof fn lemma_budget_within_total(total: u32, n: u32)
    ensures
        TokenBudget::allocate_spec(total, n).within_total(n),
{
    let rest = total - total / 10 - total / 5 - total / 10;
    assert(rest >= 0);
    if n > 0 {
        assert((rest / n as int) * n as int <= rest) by (nonlinear_arith)
            requires
                rest >= 0,
                n > 0,
        ;
    }
}

} // verus!
