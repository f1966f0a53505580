//! LLM router: picks the quick or deep configuration by task complexity.
use vstd::prelude::*;
use crate::analysis::engine::{DualLlmConfig, LlmConfig, TaskComplexity};
use crate::analysis::llm::fallback::FallbackConfig;
use crate::analysis::schemas::{StructuredOutputMode, structured_mode_of};
use vstd::utf8::is_ascii_chars;
use crate::text::{ascii_lowered, lowercase};

verus! {

/// Routes requests to the quick-think or deep-think model, with a fallback chain.
#[derive(Debug)]
pub struct LlmRouter {
    pub dual_config: DualLlmConfig,
    pub fallback_config: FallbackConfig,
}

impl LlmRouter {
    /// The configuration that a task of the given complexity uses.
    pub open spec fn config_spec(&self, complexity: TaskComplexity) -> LlmConfig {
        match complexity {
            TaskComplexity::Quick => self.dual_config.quick_think,
            TaskComplexity::Deep => match self.dual_config.deep_think {
                Some(d) => d,
                None => self.dual_config.quick_think,
            },
        }
    }

    /// A router over the given configurations.
    pub fn new(dual_config: DualLlmConfig, fallback_config: FallbackConfig) -> (r: Self)
        ensures
            r.dual_config == dual_config,
            r.fallback_config == fallback_config,
    {
        LlmRouter { dual_config, fallback_config }
    }

    /// A router that uses `config` for every task, with a chain of just that configuration.
    pub fn from_single(config: LlmConfig) -> (r: Self)
        ensures
            r.dual_config.quick_think == config,
            r.dual_config.deep_think is None,
            r.fallback_config.chain@ == seq![config],
            r.fallback_config.max_retries_per_provider == 2,
            r.fallback_config.timeout_secs == 60,
    {
        let dual_config = DualLlmConfig::from_single(config);
        let fallback_config = FallbackConfig::from_single(dual_config.quick_think.clone());
        LlmRouter { dual_config, fallback_config }
    }

    /// The dual configuration.
    pub fn dual_config(&self) -> (r: &DualLlmConfig)
        ensures
            *r == self.dual_config,
    {
        &self.dual_config
    }

    /// The configuration for a task: quick-think for quick tasks, deep-think (or quick-think
    /// when no deep model is set) for deep tasks.
    pub fn config_for_complexity(&self, complexity: TaskComplexity) -> (r: &LlmConfig)
        ensures
            *r == self.config_spec(complexity),
    {
        match complexity {
            TaskComplexity::Quick => &self.dual_config.quick_think,
            TaskComplexity::Deep => self.dual_config.deep_think_config(),
        }
    }

    /// The structured-output mode for a task's configuration.
    pub fn structured_mode(&self, complexity: TaskComplexity) -> (r: StructuredOutputMode)
        ensures
            r == structured_mode_of(
                self.config_spec(complexity).provider,
                lowercase(self.config_spec(complexity).model@),
                self.config_spec(complexity).thinking_enabled,
            ),
            is_ascii_chars(self.config_spec(complexity).model@) ==> r == structured_mode_of(
                self.config_spec(complexity).provider,
                ascii_lowered(self.config_spec(complexity).model@),
                self.config_spec(complexity).thinking_enabled,
            ),
    {
        let config = self.config_for_complexity(complexity);
        StructuredOutputMode::resolve(config.provider, config.model.as_str(), config.thinking_enabled)
    }

    /// Whether requests go through the fallback chain (it holds more than one provider)
    /// rather than straight to the task's configuration.
    pub fn uses_fallback_chain(&self) -> (r: bool)
        ensures
            r == (self.fallback_config.chain@.len() > 1),
    {
        self.fallback_config.chain.len() > 1
    }
}

} // verus!
