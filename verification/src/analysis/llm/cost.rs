//! Provider pricing and Chinese token-ratio calibration.
use vstd::prelude::*;
use crate::analysis::engine::CloudProvider;
use vstd::utf8::is_ascii_chars;
use crate::text::{ascii_lowered, contains_seq, contains_str, lowercase, to_chars, to_lowercase};

verus! {

/// Price table, in tenths of a yuan per million tokens: (input, output), chosen by the
/// provider and by words in the lower-cased model name.
pub open spec fn price_tenths(provider: CloudProvider, m: Seq<char>) -> (int, int) {
    match provider {
        CloudProvider::Anthropic => if contains_seq(m, "opus"@) {
            (1120, 5600)
        } else if contains_seq(m, "sonnet"@) {
            (210, 1050)
        } else {
            (14, 70)
        },
        CloudProvider::OpenAI => if contains_seq(m, "gpt-4"@) {
            (210, 630)
        } else {
            (7, 21)
        },
        CloudProvider::DeepSeek => if contains_seq(m, "reasoner"@) || contains_seq(m, "pro"@) {
            (20, 80)
        } else {
            (7, 14)
        },
        CloudProvider::Qwen => if contains_seq(m, "max"@) {
            (140, 280)
        } else if contains_seq(m, "plus"@) {
            (14, 28)
        } else if contains_seq(m, "turbo"@) {
            (3, 6)
        } else {
            (14, 28)
        },
        CloudProvider::GLM => if contains_seq(m, "4"@) {
            (70, 140)
        } else {
            (7, 7)
        },
        CloudProvider::MiniMax => (7, 7),
        CloudProvider::Ollama => (0, 0),
    }
}

/// Estimated tokens for `chars` Chinese characters: characters divided by the provider's
/// characters-per-token ratio (GLM 1.6; DeepSeek, Qwen, MiniMax 1.5; Anthropic, OpenAI 0.8;
/// Ollama 1.0), rounded down and capped at `u32::MAX`.
pub open spec fn chinese_token_estimate(provider: CloudProvider, chars: int) -> int {
    let q = match provider {
        CloudProvider::GLM => chars * 5 / 8,
        CloudProvider::DeepSeek | CloudProvider::Qwen | CloudProvider::MiniMax => chars * 2 / 3,
        CloudProvider::Anthropic | CloudProvider::OpenAI => chars * 5 / 4,
        CloudProvider::Ollama => chars,
    };
    if q > u32::MAX {
        u32::MAX as int
    } else {
        q
    }
}

/// Cost estimation for LLM requests.
pub struct CostEstimator;

impl CostEstimator {
    /// The (input, output) price of a provider/model in tenths of a yuan per million tokens.
    pub fn pricing_tenths(provider: CloudProvider, model: &str) -> (r: (u32, u32))
        ensures
            (r.0 as int, r.1 as int) == price_tenths(provider, lowercase(model@)),
            is_ascii_chars(model@) ==> (r.0 as int, r.1 as int) == price_tenths(provider, ascii_lowered(model@)),
    {
        let lower = to_lowercase(model);
        let m = to_chars(lower.as_str());
        match provider {
            CloudProvider::Anthropic => if contains_str(&m, "opus") {
                (1120, 5600)
            } else if contains_str(&m, "sonnet") {
                (210, 1050)
            } else {
                (14, 70)
            },
            CloudProvider::OpenAI => if contains_str(&m, "gpt-4") {
                (210, 630)
            } else {
                (7, 21)
            },
            CloudProvider::DeepSeek => if contains_str(&m, "reasoner") || contains_str(&m, "pro") {
                (20, 80)
            } else {
                (7, 14)
            },
            CloudProvider::Qwen => if contains_str(&m, "max") {
                (140, 280)
            } else if contains_str(&m, "plus") {
                (14, 28)
            } else if contains_str(&m, "turbo") {
                (3, 6)
            } else {
                (14, 28)
            },
            CloudProvider::GLM => if contains_str(&m, "4") {
                (70, 140)
            } else {
                (7, 7)
            },
            CloudProvider::MiniMax => (7, 7),
            CloudProvider::Ollama => (0, 0),
        }
    }
}

/// Calibrates a Chinese character count into an estimated token count.
pub fn adjust_for_chinese(provider: CloudProvider, char_count: usize) -> (r: u32)
    ensures
        r as int == chinese_token_estimate(provider, char_count as int),
{
    let c = char_count as u128;
    let q: u128 = match provider {
        CloudProvider::GLM => c * 5 / 8,
        CloudProvider::DeepSeek | CloudProvider::Qwen | CloudProvider::MiniMax => c * 2 / 3,
        CloudProvider::Anthropic | CloudProvider::OpenAI => c * 5 / 4,
        CloudProvider::Ollama => c,
    };
    if q > u32::MAX as u128 {
        u32::MAX
    } else {
        q as u32
    }
}

} // verus!
